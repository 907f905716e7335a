//! Decision logic of the device-control surface: tuner type labels, direct
//! sampling modes, the two-call tuner gain protocol, EEPROM status
//! normalisation and the defensive checks of the asynchronous read loop.
//!
//! Each native call these decisions surround is plain I/O performed by the
//! device handle; the handle feeds the returned values in here and forwards
//! what comes back, so that every branch taken on native data is verified.

use crate::errors::{err_of_code, get_err_msg, Error};
use vstd::prelude::*;

verus! {

/// Default center frequency in Hz.
pub const DEFAULT_FC: i32 = 80_000_000;

/// Default sample rate in Hz used by simple clients.
pub const DEFAULT_RS: i32 = 1_024_000;

/// Default synchronous read size in bytes.
pub const DEFAULT_READ_SIZE: i32 = 1_024;

/// Crystal oscillator frequency in Hz shared by the demodulator and tuner.
pub const CRYSTAL_FREQ: i32 = 28_800_000;

/// Default sample rate in Hz reported by the driver.
pub const DEFAULT_SAMPLE_RATE: i32 = 2_048_000;

/// Default number of buffers of the asynchronous read loop.
pub const DEFAULT_ASYNC_BUF_NUMBER: i32 = 32;

/// Default length in bytes of one asynchronous read buffer.
pub const DEFAULT_BUF_LENGTH: i32 = 16 * 16_384;

/// Smallest accepted asynchronous buffer length in bytes.
pub const MIN_BUF_LENGTH: i32 = 512;

/// Largest conventional asynchronous buffer length in bytes.
pub const MAX_BUF_LENGTH: i32 = 256 * 16_384;

/// The tuner ICs the driver can report, in the driver's numbering order.
#[derive(Copy, Clone, Debug, PartialEq, Eq, Structural)]
pub enum TunerType {
    Unknown,
    E4000,
    FC0012,
    FC0013,
    FC2580,
    R820T,
    R828D,
}

/// Direct sampling modes, in the driver's numbering order.
#[derive(Copy, Clone, Debug, PartialEq, Eq, Structural)]
pub enum SamplingMode {
    SamplingNone,
    SamplingIADC,
    SamplingQADC,
    SamplingUnknown,
}

/// The tuner type denoted by a native tuner code; codes past the known
/// range denote `Unknown`, which is a valid value, not a failure.
pub open spec fn spec_tuner_type_of(code: int) -> TunerType {
    if code == 1 {
        TunerType::E4000
    } else if code == 2 {
        TunerType::FC0012
    } else if code == 3 {
        TunerType::FC0013
    } else if code == 4 {
        TunerType::FC2580
    } else if code == 5 {
        TunerType::R820T
    } else if code == 6 {
        TunerType::R828D
    } else {
        TunerType::Unknown
    }
}

/// Translates the native tuner enumeration value into a tuner type.
pub fn tuner_type_from_code(code: u32) -> (t: TunerType)
    ensures
        t == spec_tuner_type_of(code as int),
{
    match code {
        1 => TunerType::E4000,
        2 => TunerType::FC0012,
        3 => TunerType::FC0013,
        4 => TunerType::FC2580,
        5 => TunerType::R820T,
        6 => TunerType::R828D,
        _ => TunerType::Unknown,
    }
}

/// The descriptive label of each tuner type.
pub open spec fn spec_tuner_label(t: TunerType) -> Seq<char> {
    match t {
        TunerType::Unknown => "Unknown"@,
        TunerType::E4000 => "E4000"@,
        TunerType::FC0012 => "FC0012"@,
        TunerType::FC0013 => "FC0013"@,
        TunerType::FC2580 => "FC2580"@,
        TunerType::R820T => "R820T"@,
        TunerType::R828D => "R828D"@,
    }
}

/// Returns the descriptive label of a tuner type.  An unknown tuner is a
/// valid answer with its own label, never a failure.
pub fn from_tuner_type(t: TunerType) -> (r: String)
    ensures
        r@ == spec_tuner_label(t),
{
    match t {
        TunerType::Unknown => String::from_str("Unknown"),
        TunerType::E4000 => String::from_str("E4000"),
        TunerType::FC0012 => String::from_str("FC0012"),
        TunerType::FC0013 => String::from_str("FC0013"),
        TunerType::FC2580 => String::from_str("FC2580"),
        TunerType::R820T => String::from_str("R820T"),
        TunerType::R828D => String::from_str("R828D"),
    }
}

/// The direct sampling mode denoted by a native answer; an unrecognised
/// answer yields the error variant.
pub open spec fn spec_sampling_mode_of(code: int) -> SamplingMode {
    if code == 0 {
        SamplingMode::SamplingNone
    } else if code == 1 {
        SamplingMode::SamplingIADC
    } else if code == 2 {
        SamplingMode::SamplingQADC
    } else {
        SamplingMode::SamplingUnknown
    }
}

/// Translates the native direct-sampling answer into a mode.
pub fn sampling_mode_from_code(code: i32) -> (m: SamplingMode)
    ensures
        m == spec_sampling_mode_of(code as int),
{
    match code {
        0 => SamplingMode::SamplingNone,
        1 => SamplingMode::SamplingIADC,
        2 => SamplingMode::SamplingQADC,
        _ => SamplingMode::SamplingUnknown,
    }
}

/// The integer a direct-sampling mode is requested as over the native
/// surface; the error variant round-trips as the out-of-range value 3.
pub fn sampling_mode_code(m: SamplingMode) -> (code: i32)
    ensures
        spec_sampling_mode_of(code as int) == m,
        0 <= code <= 3,
{
    match m {
        SamplingMode::SamplingNone => 0,
        SamplingMode::SamplingIADC => 1,
        SamplingMode::SamplingQADC => 2,
        SamplingMode::SamplingUnknown => 3,
    }
}

/// How many bytes a null-terminated buffer holds before its first null
/// byte (all of them, if none is null).
pub open spec fn spec_nul_pos(b: Seq<u8>) -> int
    decreases b.len(),
{
    if b.len() == 0 || b[0] == 0 {
        0
    } else {
        1 + spec_nul_pos(b.drop_first())
    }
}

proof fn lemma_nul_pos(b: Seq<u8>, i: int)
    requires
        0 <= i <= b.len(),
        forall|j: int| 0 <= j < i ==> b[j] != 0,
        i < b.len() ==> b[i] == 0,
    ensures
        spec_nul_pos(b) == i,
    decreases b.len(),
{
    if b.len() == 0 {
    } else if b[0] == 0 {
        assert(i == 0);
    } else {
        assert(i >= 1);
        lemma_nul_pos(b.drop_first(), i - 1);
    }
}

/// Converts a null-padded byte buffer, as the native USB string calls fill
/// one, into the string of its bytes before the first null, one character
/// per byte.
pub fn from_padded_bytes(b: &Vec<u8>) -> (r: String)
    ensures
        r@ == Seq::new(spec_nul_pos(b@) as nat, |i: int| b@[i] as char),
{
    let mut s = String::new();
    let mut i: usize = 0;
    while i < b.len() && b[i] != 0
        invariant
            0 <= i <= b@.len(),
            forall|j: int| 0 <= j < i ==> b@[j] != 0,
            s@ =~= Seq::new(i as nat, |j: int| b@[j] as char),
        decreases b@.len() - i,
    {
        crate::codec::push_char(&mut s, b[i] as char);
        i += 1;
    }
    proof {
        lemma_nul_pos(b@, i as int);
    }
    s
}

/// Normalises the status of an EEPROM read or write: the native call
/// answers a non-negative count on success, so every non-negative status is
/// success and a negative one maps through the error taxonomy.
pub fn eeprom_status(code: i32) -> (e: Error)
    ensures
        code >= 0 ==> e == Error::NoError,
        code < 0 ==> e == err_of_code(code as int),
{
    if code >= 0 {
        Error::NoError
    } else {
        get_err_msg(code)
    }
}

/// First step of the two-call tuner gain protocol.  Given the gain count the
/// native query answered, decides whether the fill call may proceed: `None`
/// means proceed with a buffer of `count` entries, `Some(e)` means stop and
/// answer an empty list with the non-success error `e`.
pub fn tuner_gains_count_step(count: i32) -> (r: Option<Error>)
    ensures
        r is Some <==> count <= 0,
        count < 0 ==> r == Some(err_of_code(count as int)),
        count == 0 ==> r == Some(Error::Unknown),
        r matches Some(e) ==> e != Error::NoError,
{
    proof {
        crate::errors::lemma_error_mapper_total(count as int);
    }
    if count < 0 {
        Some(get_err_msg(count))
    } else if count == 0 {
        Some(Error::Unknown)
    } else {
        None
    }
}

/// Second step of the two-call tuner gain protocol: the error to report for
/// the fill call's status, which repeats the gain count on success.
pub fn tuner_gains_fill_step(filled: i32) -> (e: Error)
    ensures
        filled <= 0 ==> e == Error::Unknown,
        filled > 0 ==> e == Error::NoError,
{
    if filled <= 0 {
        Error::Unknown
    } else {
        Error::NoError
    }
}

/// Whether an asynchronous-read configuration is acceptable: both counts
/// non-negative, and the buffer length zero (selecting the default) or a
/// positive multiple of 512 bytes.
pub open spec fn spec_async_params_ok(buf_num: int, buf_len: int) -> bool {
    buf_num >= 0 && buf_len >= 0 && buf_len % 512 == 0
}

/// Defensive check performed before the asynchronous read loop is started:
/// a malformed configuration is rejected as `InvalidParam` instead of being
/// forwarded to the native layer.
pub fn validate_async_params(buf_num: i32, buf_len: i32) -> (e: Error)
    ensures
        e == Error::NoError <==> spec_async_params_ok(buf_num as int, buf_len as int),
        e == Error::NoError || e == Error::InvalidParam,
{
    if buf_num >= 0 && buf_len >= 0 && buf_len % 512 == 0 {
        Error::NoError
    } else {
        Error::InvalidParam
    }
}

} // verus!
