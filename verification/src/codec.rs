//! The binary descriptor codec: conversion between the hardware info record
//! and the fixed-layout EEPROM image.
//!
//! The image is 256 bytes.  Bytes 0-1 hold the magic pair (0x28, 0x32),
//! bytes 2-3 the vendor id little-endian, bytes 4-5 the product id
//! little-endian, byte 6 the serial-present sentinel (0xA5 or 0), byte 7
//! the flag bits (bit 0 remote wakeup, bit 1 IR enabled), byte 8 is
//! reserved, and the string-descriptor table starts at byte 9: for each of
//! manufacturer, product and serial, a length byte `2*n+2`, the marker byte
//! 0x03, and then each of the string's `n` bytes followed by a null byte.

use crate::errors::Error;
use vstd::prelude::*;
use vstd::utf8::encode_utf8;
use vstd::utf8::is_ascii_chars;
use vstd::utf8::is_ascii_chars_encode_utf8;

verus! {

/// Maximum stored size of each hardware info string, in bytes.
pub const MAX_STR_SIZE: usize = 35;

/// Size of the EEPROM image in bytes.
pub const EEPROM_SIZE: usize = 256;

/// The string-descriptor table starts after the nine header bytes.
pub const STR_OFFSET_START: usize = 9;

/// Marker byte that opens every stored string descriptor.
pub const STR_MARKER: u8 = 0x03;

/// Largest length byte a stored string descriptor may carry.
pub const MAX_DESC_LEN: usize = 2 * MAX_STR_SIZE + 2;

/// Dongle-specific information as stored in the EEPROM image.
#[derive(Debug, Clone)]
pub struct HwInfo {
    pub vendor_id: u16,
    pub product_id: u16,
    pub manufact: String,
    pub product: String,
    pub serial: String,
    pub have_serial: bool,
    pub enable_ir: bool,
    pub remote_wakeup: bool,
}

/// The bytes a string is stored as: its UTF-8 encoding.
pub open spec fn spec_str_bytes(s: String) -> Seq<u8> {
    encode_utf8(s@)
}

/// Whether all three strings of a record fit their stored fields.
pub open spec fn hw_strings_fit(info: HwInfo) -> bool {
    &&& spec_str_bytes(info.manufact).len() <= MAX_STR_SIZE
    &&& spec_str_bytes(info.product).len() <= MAX_STR_SIZE
    &&& spec_str_bytes(info.serial).len() <= MAX_STR_SIZE
}

/// String bytes interleaved with null bytes, as the descriptor table
/// stores them.
pub open spec fn interleaved(b: Seq<u8>) -> Seq<u8> {
    Seq::new((2 * b.len()) as nat, |i: int| if i % 2 == 0 { b[i / 2] } else { 0u8 })
}

/// The stored descriptor of a string with bytes `b`: length byte, marker
/// byte, then the interleaved bytes.
pub open spec fn descriptor_bytes(b: Seq<u8>) -> Seq<u8> {
    seq![(2 * b.len() + 2) as u8, STR_MARKER] + interleaved(b)
}

/// The flag byte of a record: bit 0 is remote wakeup, bit 1 is IR enabled.
pub open spec fn spec_flags_byte(remote_wakeup: bool, enable_ir: bool) -> u8 {
    if remote_wakeup && enable_ir {
        3u8
    } else if enable_ir {
        2u8
    } else if remote_wakeup {
        1u8
    } else {
        0u8
    }
}

/// The nine header bytes of a record's image.
pub open spec fn spec_header_bytes(info: HwInfo) -> Seq<u8> {
    seq![
        0x28u8,
        0x32u8,
        (info.vendor_id % 256) as u8,
        (info.vendor_id / 256) as u8,
        (info.product_id % 256) as u8,
        (info.product_id / 256) as u8,
        if info.have_serial { 0xA5u8 } else { 0u8 },
        spec_flags_byte(info.remote_wakeup, info.enable_ir),
        0u8,
    ]
}

/// The string-descriptor table of a record: the three descriptors in
/// manufacturer, product, serial order.
pub open spec fn spec_strings_table(info: HwInfo) -> Seq<u8> {
    descriptor_bytes(spec_str_bytes(info.manufact)) + descriptor_bytes(spec_str_bytes(info.product))
        + descriptor_bytes(spec_str_bytes(info.serial))
}

/// The number of bytes a record occupies at the start of the image.
pub open spec fn spec_stored_len(info: HwInfo) -> int {
    STR_OFFSET_START + spec_strings_table(info).len()
}

/// The full encoded image of a record: header then descriptor table.
pub open spec fn spec_hw_image(info: HwInfo) -> Seq<u8> {
    spec_header_bytes(info) + spec_strings_table(info)
}

/// Whether the image opens with the magic byte pair.
pub open spec fn header_ok(data: Seq<u8>) -> bool {
    data[0] == 0x28 && data[1] == 0x32
}

/// The vendor id stored little-endian in bytes 2-3.
pub open spec fn spec_vendor_id(data: Seq<u8>) -> u16 {
    (data[2] + data[3] * 256) as u16
}

/// The product id stored little-endian in bytes 4-5.
pub open spec fn spec_product_id(data: Seq<u8>) -> u16 {
    (data[4] + data[5] * 256) as u16
}

/// How many characters a descriptor with length byte `l` stores.
pub open spec fn desc_char_count(l: int) -> int {
    if l <= 2 {
        0
    } else {
        (l - 1) / 2
    }
}

/// How far the read cursor advances past a descriptor with length byte `l`.
pub open spec fn desc_advance(l: int) -> int {
    2 + 2 * desc_char_count(l)
}

/// Whether the descriptor at `pos` is well formed: its length byte within
/// bounds and its marker byte in place.
pub open spec fn desc_ok(data: Seq<u8>, pos: int) -> bool {
    data[pos] <= MAX_DESC_LEN && data[pos + 1] == STR_MARKER
}

/// The error a malformed descriptor at `pos` is rejected with: the length
/// byte is checked before the marker byte.
pub open spec fn desc_error(data: Seq<u8>, pos: int) -> Error {
    if data[pos] > MAX_DESC_LEN {
        Error::StringValueTooLong
    } else {
        Error::StringDescriptorInvalid
    }
}

/// The characters of the descriptor at `pos`: every second byte of its
/// body, read as one character each.
pub open spec fn desc_chars(data: Seq<u8>, pos: int) -> Seq<char> {
    Seq::new(
        desc_char_count(data[pos] as int) as nat,
        |k: int| data[pos + 2 + 2 * k] as char,
    )
}

/// Where the second descriptor starts.
pub open spec fn second_desc_pos(data: Seq<u8>) -> int {
    STR_OFFSET_START + desc_advance(data[STR_OFFSET_START as int] as int)
}

/// Where the third descriptor starts.
pub open spec fn third_desc_pos(data: Seq<u8>) -> int {
    second_desc_pos(data) + desc_advance(data[second_desc_pos(data)] as int)
}

/// Whether all three descriptors of the table are well formed.
pub open spec fn descs_ok(data: Seq<u8>) -> bool {
    &&& desc_ok(data, STR_OFFSET_START as int)
    &&& desc_ok(data, second_desc_pos(data))
    &&& desc_ok(data, third_desc_pos(data))
}

/// The first error the descriptor table is rejected with.
pub open spec fn descs_error(data: Seq<u8>) -> Error {
    if !desc_ok(data, STR_OFFSET_START as int) {
        desc_error(data, STR_OFFSET_START as int)
    } else if !desc_ok(data, second_desc_pos(data)) {
        desc_error(data, second_desc_pos(data))
    } else {
        desc_error(data, third_desc_pos(data))
    }
}

/// A record with every field zero, empty or false.
pub open spec fn zero_hw_info(info: HwInfo) -> bool {
    &&& info.vendor_id == 0
    &&& info.product_id == 0
    &&& info.manufact@ == Seq::<char>::empty()
    &&& info.product@ == Seq::<char>::empty()
    &&& info.serial@ == Seq::<char>::empty()
    &&& !info.have_serial
    &&& !info.enable_ir
    &&& !info.remote_wakeup
}

/// Relies on String::push: appends the given character to the end of the
/// string.
#[verifier::external_body]
pub(crate) fn push_char(s: &mut String, c: char)
    ensures
        final(s)@ == old(s)@.push(c),
{
    s.push(c)
}

/// Decodes the single string descriptor at `pos`: checks its length and
/// marker bytes, then reads every second byte of its body as a character.
/// Returns the string, the position after the descriptor, and the status.
fn decode_descriptor(data: &Vec<u8>, pos: usize) -> (r: (String, usize, Error))
    requires
        data@.len() == EEPROM_SIZE,
        pos + MAX_DESC_LEN + 2 <= EEPROM_SIZE,
    ensures
        desc_ok(data@, pos as int) ==> {
            &&& r.2 == Error::NoError
            &&& r.0@ == desc_chars(data@, pos as int)
            &&& r.1 == pos + desc_advance(data@[pos as int] as int)
            &&& pos + 2 <= r.1 <= pos + MAX_DESC_LEN
        },
        !desc_ok(data@, pos as int) ==> {
            &&& r.2 == desc_error(data@, pos as int)
            &&& r.0@ == Seq::<char>::empty()
            &&& r.1 == pos
        },
{
    let l = data[pos] as usize;
    if l > MAX_DESC_LEN {
        return (String::new(), pos, Error::StringValueTooLong);
    }
    if data[pos + 1] != STR_MARKER {
        return (String::new(), pos, Error::StringDescriptorInvalid);
    }
    let count: usize = if l <= 2 {
        0
    } else {
        (l - 1) / 2
    };
    proof {
        assert(count == desc_char_count(l as int));
        assert(count <= MAX_STR_SIZE);
    }
    let mut s = String::new();
    let mut k: usize = 0;
    while k < count
        invariant
            data@.len() == EEPROM_SIZE,
            pos + MAX_DESC_LEN + 2 <= EEPROM_SIZE,
            l == data@[pos as int],
            count == desc_char_count(l as int),
            count <= MAX_STR_SIZE,
            0 <= k <= count,
            s@ =~= Seq::new(k as nat, |q: int| data@[pos + 2 + 2 * q] as char),
        decreases count - k,
    {
        push_char(&mut s, data[pos + 2 + 2 * k] as char);
        k += 1;
    }
    proof {
        assert(s@ =~= desc_chars(data@, pos as int));
    }
    (s, pos + 2 + 2 * count, Error::NoError)
}

/// Decodes the manufacturer, product and serial strings from the
/// string-descriptor table of an EEPROM image.  The first malformed
/// descriptor stops the decode: all three answers are then empty and the
/// status names the defect.
pub fn get_string_descriptors(data: &Vec<u8>) -> (r: (String, String, String, Error))
    requires
        data@.len() == EEPROM_SIZE,
    ensures
        descs_ok(data@) ==> {
            &&& r.0@ == desc_chars(data@, STR_OFFSET_START as int)
            &&& r.1@ == desc_chars(data@, second_desc_pos(data@))
            &&& r.2@ == desc_chars(data@, third_desc_pos(data@))
            &&& r.3 == Error::NoError
        },
        !descs_ok(data@) ==> {
            &&& r.0@ == Seq::<char>::empty()
            &&& r.1@ == Seq::<char>::empty()
            &&& r.2@ == Seq::<char>::empty()
            &&& r.3 == descs_error(data@)
        },
{
    let (m, pos1, e0) = decode_descriptor(data, STR_OFFSET_START);
    if !matches!(e0, Error::NoError) {
        return (String::new(), String::new(), String::new(), e0);
    }
    let (p, pos2, e1) = decode_descriptor(data, pos1);
    if !matches!(e1, Error::NoError) {
        return (String::new(), String::new(), String::new(), e1);
    }
    let (s, _pos3, e2) = decode_descriptor(data, pos2);
    if !matches!(e2, Error::NoError) {
        return (String::new(), String::new(), String::new(), e2);
    }
    (m, p, s, Error::NoError)
}

/// Writes the descriptor of one string at `pos`: the length byte, the
/// marker byte, then each string byte followed by a null byte.  Returns the
/// position after the descriptor.
fn encode_descriptor(s: &String, data: &mut Vec<u8>, pos: usize) -> (r: usize)
    requires
        spec_str_bytes(*s).len() <= MAX_STR_SIZE,
        pos + 2 + 2 * spec_str_bytes(*s).len() <= old(data)@.len(),
        old(data)@.len() <= EEPROM_SIZE,
    ensures
        final(data)@.len() == old(data)@.len(),
        r == pos + 2 + 2 * spec_str_bytes(*s).len(),
        final(data)@.subrange(pos as int, r as int) == descriptor_bytes(spec_str_bytes(*s)),
        forall|i: int|
            0 <= i < final(data)@.len() && !(pos <= i < r) ==> final(data)@[i] == old(data)@[i],
{
    let bs: &[u8] = s.as_str().as_bytes();
    let n = bs.len();
    data[pos] = (2 * n + 2) as u8;
    data[pos + 1] = STR_MARKER;
    let mut i: usize = 0;
    while i < n
        invariant
            bs@ == spec_str_bytes(*s),
            n == bs@.len(),
            n <= MAX_STR_SIZE,
            pos + 2 + 2 * n <= data@.len(),
            data@.len() == old(data)@.len(),
            data@.len() <= EEPROM_SIZE,
            0 <= i <= n,
            data@[pos as int] == (2 * n + 2) as u8,
            data@[pos + 1] == STR_MARKER,
            forall|k: int| 0 <= k < i ==> data@[pos + 2 + 2 * k] == bs@[k],
            forall|k: int| 0 <= k < i ==> data@[#[trigger] (pos + 2 + 2 * k + 1)] == 0u8,
            forall|q: int|
                0 <= q < data@.len() && !(pos <= q < pos + 2 + 2 * i) ==> data@[q] == old(
                    data,
                )@[q],
        decreases n - i,
    {
        data[pos + 2 + 2 * i] = bs[i];
        data[pos + 2 + 2 * i + 1] = 0x00;
        i += 1;
    }
    proof {
        let b = spec_str_bytes(*s);
        assert forall|idx: int| 0 <= idx < 2 + 2 * b.len() implies data@.subrange(
            pos as int,
            pos + 2 + 2 * b.len(),
        )[idx] == descriptor_bytes(b)[idx] by {
            if idx >= 2 {
                let k = (idx - 2) / 2;
                if (idx - 2) % 2 == 0 {
                    assert(idx == 2 + 2 * k);
                    assert(data@[pos + 2 + 2 * k] == b[k]);
                } else {
                    assert(idx == 2 + 2 * k + 1);
                    assert(data@[pos + 2 + 2 * k + 1] == 0u8);
                }
            }
        }
        assert(data@.subrange(pos as int, pos + 2 + 2 * b.len()) =~= descriptor_bytes(b));
    }
    pos + 2 + 2 * n
}

/// Encodes the manufacturer, product and serial strings into the
/// string-descriptor table of `data`, starting at the table offset.  A
/// string longer than the maximum fails the whole operation before a single
/// byte is written.
pub fn set_string_descriptors(info: &HwInfo, data: &mut Vec<u8>) -> (e: Error)
    requires
        hw_strings_fit(*info) ==> old(data)@.len() == spec_stored_len(*info),
    ensures
        hw_strings_fit(*info) ==> {
            &&& e == Error::NoError
            &&& final(data)@ == old(data)@.subrange(0, STR_OFFSET_START as int)
                + spec_strings_table(*info)
        },
        !hw_strings_fit(*info) ==> {
            &&& e == Error::StringDescriptorTooLong
            &&& final(data)@ == old(data)@
        },
{
    let mlen = info.manufact.as_str().as_bytes().len();
    let plen = info.product.as_str().as_bytes().len();
    let slen = info.serial.as_str().as_bytes().len();
    if mlen > MAX_STR_SIZE || plen > MAX_STR_SIZE || slen > MAX_STR_SIZE {
        return Error::StringDescriptorTooLong;
    }
    let pos1 = encode_descriptor(&info.manufact, data, STR_OFFSET_START);
    let pos2 = encode_descriptor(&info.product, data, pos1);
    let pos3 = encode_descriptor(&info.serial, data, pos2);
    proof {
        let mb = spec_str_bytes(info.manufact);
        let pb = spec_str_bytes(info.product);
        let sb = spec_str_bytes(info.serial);
        assert(data@.subrange(STR_OFFSET_START as int, pos1 as int) =~= descriptor_bytes(mb));
        assert(data@.subrange(pos1 as int, pos2 as int) =~= descriptor_bytes(pb));
        assert(data@.subrange(pos2 as int, pos3 as int) =~= descriptor_bytes(sb));
        assert(data@ =~= old(data)@.subrange(0, STR_OFFSET_START as int)
            + spec_strings_table(*info));
    }
    Error::NoError
}

/// An ASCII character survives being stored as its single byte and read
/// back as a character.
proof fn lemma_ascii_byte_char(c: char)
    requires
        '\0' <= c <= '\u{7f}',
    ensures
        (c as u8) as char == c,
{
    vstd::utf8::char_u32_cast(c, c as u32);
    assert(c as u32 <= 0x7f);
    assert((c as u8) as u32 == c as u32);
}

/// A stored descriptor decodes back to exactly one character per byte it
/// was built from.
proof fn lemma_descriptor_decodes(b: Seq<u8>, data: Seq<u8>, pos: int)
    requires
        b.len() <= MAX_STR_SIZE,
        0 <= pos,
        pos + 2 + 2 * b.len() <= data.len(),
        data.subrange(pos, pos + 2 + 2 * b.len()) == descriptor_bytes(b),
    ensures
        desc_ok(data, pos),
        data[pos] == 2 * b.len() + 2,
        desc_advance(data[pos] as int) == 2 + 2 * b.len(),
        desc_chars(data, pos) =~= Seq::new(b.len(), |k: int| b[k] as char),
{
    let d = data.subrange(pos, pos + 2 + 2 * b.len());
    assert(data[pos] == d[0]);
    assert(data[pos + 1] == d[1]);
    assert(d[0] == (2 * b.len() + 2) as u8);
    assert(desc_char_count(2 * b.len() + 2 as int) == b.len());
    assert forall|k: int| 0 <= k < b.len() implies data[pos + 2 + 2 * k] == b[k] by {
        assert(data[pos + 2 + 2 * k] == d[2 + 2 * k]);
        assert(d[2 + 2 * k] == interleaved(b)[2 * k]);
    }
}

/// Round-trip law of the codec: any EEPROM image whose leading bytes are
/// the encoding of a record with ASCII strings of at most the maximum
/// length decodes back to that record exactly — the magic pair is found,
/// the ids and the three flags are read off the header, every descriptor
/// is well formed, and the three decoded strings equal the encoded ones.
pub proof fn lemma_hw_info_round_trip(info: HwInfo, data: Seq<u8>)
    requires
        hw_strings_fit(info),
        is_ascii_chars(info.manufact@),
        is_ascii_chars(info.product@),
        is_ascii_chars(info.serial@),
        spec_stored_len(info) <= data.len(),
        data.subrange(0, spec_stored_len(info)) == spec_hw_image(info),
    ensures
        header_ok(data),
        spec_vendor_id(data) == info.vendor_id,
        spec_product_id(data) == info.product_id,
        (data[6] == 0xA5) == info.have_serial,
        ((data[7] & 0x01) == 0x01) == info.remote_wakeup,
        ((data[7] & 0x02) == 0x02) == info.enable_ir,
        descs_ok(data),
        desc_chars(data, STR_OFFSET_START as int) == info.manufact@,
        desc_chars(data, second_desc_pos(data)) == info.product@,
        desc_chars(data, third_desc_pos(data)) == info.serial@,
{
    let mb = spec_str_bytes(info.manufact);
    let pb = spec_str_bytes(info.product);
    let sb = spec_str_bytes(info.serial);
    let img = spec_hw_image(info);
    let prefix = data.subrange(0, spec_stored_len(info));
    assert forall|i: int| 0 <= i < spec_stored_len(info) implies data[i] == img[i] by {
        assert(data[i] == prefix[i]);
    }
    let p1 = STR_OFFSET_START + 2 + 2 * mb.len();
    let p2 = p1 + 2 + 2 * pb.len();
    let p3 = p2 + 2 + 2 * sb.len();
    assert(p3 == spec_stored_len(info));
    assert(data.subrange(9, p1) =~= descriptor_bytes(mb));
    assert(data.subrange(p1, p2) =~= descriptor_bytes(pb));
    assert(data.subrange(p2, p3) =~= descriptor_bytes(sb));
    lemma_descriptor_decodes(mb, data, 9);
    lemma_descriptor_decodes(pb, data, p1);
    lemma_descriptor_decodes(sb, data, p2);
    assert(second_desc_pos(data) == p1);
    assert(third_desc_pos(data) == p2);
    is_ascii_chars_encode_utf8(info.manufact@);
    is_ascii_chars_encode_utf8(info.product@);
    is_ascii_chars_encode_utf8(info.serial@);
    assert forall|k: int| 0 <= k < mb.len() implies (mb[k] as char) == info.manufact@[k] by {
        lemma_ascii_byte_char(info.manufact@[k]);
    }
    assert forall|k: int| 0 <= k < pb.len() implies (pb[k] as char) == info.product@[k] by {
        lemma_ascii_byte_char(info.product@[k]);
    }
    assert forall|k: int| 0 <= k < sb.len() implies (sb[k] as char) == info.serial@[k] by {
        lemma_ascii_byte_char(info.serial@[k]);
    }
    assert(desc_chars(data, 9) =~= info.manufact@);
    assert(desc_chars(data, p1) =~= info.product@);
    assert(desc_chars(data, p2) =~= info.serial@);
    assert(data[2] == (info.vendor_id % 256) as u8);
    assert(data[3] == (info.vendor_id / 256) as u8);
    assert(spec_vendor_id(data) == info.vendor_id);
    assert(spec_product_id(data) == info.product_id);
    let fb = spec_flags_byte(info.remote_wakeup, info.enable_ir);
    assert(data[7] == fb);
    assert(0u8 & 0x01 == 0 && 0u8 & 0x02 == 0) by (bit_vector);
    assert(1u8 & 0x01 == 1 && 1u8 & 0x02 == 0) by (bit_vector);
    assert(2u8 & 0x01 == 0 && 2u8 & 0x02 == 2) by (bit_vector);
    assert(3u8 & 0x01 == 1 && 3u8 & 0x02 == 2) by (bit_vector);
}

} // verus!
