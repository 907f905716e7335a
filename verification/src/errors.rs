//! The error taxonomy and the single mapper from native status codes to it.

use vstd::prelude::*;

verus! {

/// Closed set of semantic error values.  Every signed status code a native
/// call can return maps to exactly one of these; the first thirteen
/// (including `NoError`) mirror the driver's documented codes, the next four
/// are raised only by the EEPROM descriptor codec, and `Unknown` collects
/// every code with no defined meaning.
#[derive(Copy, Clone, Debug, PartialEq, Eq, Structural)]
pub enum Error {
    NoError,
    Io,
    InvalidParam,
    Access,
    NoDevice,
    NotFound,
    Busy,
    Timeout,
    Overflow,
    Pipe,
    Interrupted,
    NoMem,
    NotSupported,
    NoValidEEPROMHeader,
    StringValueTooLong,
    StringDescriptorInvalid,
    StringDescriptorTooLong,
    Unknown,
}

/// Status code reserved by the codec for a missing EEPROM header magic.
pub const NO_VALID_EEPROM_HEADER: i32 = -13;

/// Status code reserved by the codec for an over-long length byte.
pub const STRING_VALUE_TOO_LONG: i32 = -14;

/// Status code reserved by the codec for a bad descriptor marker byte.
pub const STRING_DESCRIPTOR_INVALID: i32 = -15;

/// Status code reserved by the codec for an over-long string field.
pub const STRING_DESCRIPTOR_TOO_LONG: i32 = -16;

/// The meaning of a status code: zero is success, `-1` through `-12` are the
/// driver's documented errors, `-13` through `-16` are the codec's reserved
/// codes, and everything else is `Unknown`.
pub open spec fn err_of_code(code: int) -> Error {
    if code == 0 {
        Error::NoError
    } else if code == -1 {
        Error::Io
    } else if code == -2 {
        Error::InvalidParam
    } else if code == -3 {
        Error::Access
    } else if code == -4 {
        Error::NoDevice
    } else if code == -5 {
        Error::NotFound
    } else if code == -6 {
        Error::Busy
    } else if code == -7 {
        Error::Timeout
    } else if code == -8 {
        Error::Overflow
    } else if code == -9 {
        Error::Pipe
    } else if code == -10 {
        Error::Interrupted
    } else if code == -11 {
        Error::NoMem
    } else if code == -12 {
        Error::NotSupported
    } else if code == -13 {
        Error::NoValidEEPROMHeader
    } else if code == -14 {
        Error::StringValueTooLong
    } else if code == -15 {
        Error::StringDescriptorInvalid
    } else if code == -16 {
        Error::StringDescriptorTooLong
    } else {
        Error::Unknown
    }
}

/// Translates a native status code into its error value.  This is the single
/// point of truth for error semantics: every operation that receives a
/// status code maps it through here.
pub fn get_err_msg(e: i32) -> (r: Error)
    ensures
        r == err_of_code(e as int),
{
    match e {
        0 => Error::NoError,
        -1 => Error::Io,
        -2 => Error::InvalidParam,
        -3 => Error::Access,
        -4 => Error::NoDevice,
        -5 => Error::NotFound,
        -6 => Error::Busy,
        -7 => Error::Timeout,
        -8 => Error::Overflow,
        -9 => Error::Pipe,
        -10 => Error::Interrupted,
        -11 => Error::NoMem,
        -12 => Error::NotSupported,
        -13 => Error::NoValidEEPROMHeader,
        -14 => Error::StringValueTooLong,
        -15 => Error::StringDescriptorInvalid,
        -16 => Error::StringDescriptorTooLong,
        _ => Error::Unknown,
    }
}

/// The mapper is total and partitions the integers: success exactly at zero,
/// a named failure exactly on the sixteen reserved negative codes, and
/// `Unknown` (still a value, never a crash) everywhere else.
pub proof fn lemma_error_mapper_total(code: int)
    ensures
        err_of_code(code) == Error::NoError <==> code == 0,
        -16 <= code <= -1 ==> err_of_code(code) != Error::NoError && err_of_code(code)
            != Error::Unknown,
        code > 0 || code < -16 ==> err_of_code(code) == Error::Unknown,
{
}

} // verus!
