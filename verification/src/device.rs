//! The verified core of a device handle.
//!
//! The opaque native pointer and the C calls made on it live outside the
//! verified boundary; what remains of a handle inside it is the one piece
//! of state any decision ever reads — whether the handle has been closed —
//! and the EEPROM record operations built on the raw reads and writes.
//! Consulting the closed flag turns use-after-close, which is undefined at
//! the native layer, into the defined answer `NoDevice`.

use crate::codec::{
    descs_error, descs_ok, desc_chars, get_string_descriptors, header_ok, hw_strings_fit,
    second_desc_pos, set_string_descriptors, spec_hw_image, spec_product_id, spec_vendor_id,
    third_desc_pos, zero_hw_info, HwInfo, EEPROM_SIZE, MAX_STR_SIZE,
    STR_OFFSET_START,
};
use crate::errors::Error;
use vstd::prelude::*;

verus! {

/// The lifecycle state of one device handle: open until closed, closed for
/// good.  A fresh core stands for a successfully opened native handle.
#[derive(Copy, Clone, Debug, PartialEq, Eq, Structural)]
pub struct Device {
    closed: bool,
}

impl Device {
    /// Whether the handle has been closed.
    pub closed spec fn spec_closed(self) -> bool {
        self.closed
    }

    /// A handle core in the open state, as a successful open produces one.
    pub fn new() -> (d: Device)
        ensures
            !d.spec_closed(),
    {
        Device { closed: false }
    }

    /// Marks the handle closed.  The native close call itself is made by
    /// the unverified layer; afterwards every operation on this core
    /// answers `NoDevice` instead of reaching the invalidated resource.
    pub fn close(&mut self)
        ensures
            final(self).spec_closed(),
    {
        self.closed = true;
    }

    /// The answer owed before any native call is attempted: `NoDevice` on
    /// a closed handle, nothing on an open one.
    pub fn check_open(&self) -> (r: Option<Error>)
        ensures
            r is Some <==> self.spec_closed(),
            self.spec_closed() ==> r == Some(Error::NoDevice),
    {
        if self.closed {
            Some(Error::NoDevice)
        } else {
            None
        }
    }

    /// Decodes a full EEPROM image, read with the given status, into a
    /// record.  A closed handle answers a zero record with `NoDevice`; a
    /// failed read answers a zero record with the read status; a missing
    /// magic pair answers a zero record with the header error; otherwise
    /// the ids and flag bits are extracted and the three strings decoded,
    /// a codec error leaving the strings empty beside the already
    /// extracted fields.
    pub fn get_hw_info(&self, data: &Vec<u8>, read_status: Error) -> (r: (HwInfo, Error))
        requires
            data@.len() == EEPROM_SIZE,
        ensures
            self.spec_closed() ==> (zero_hw_info(r.0) && r.1 == Error::NoDevice),
            !self.spec_closed() && read_status != Error::NoError ==> (zero_hw_info(r.0) && r.1
                == read_status),
            !self.spec_closed() && read_status == Error::NoError && !header_ok(data@) ==> (
            zero_hw_info(r.0) && r.1 == Error::NoValidEEPROMHeader),
            !self.spec_closed() && read_status == Error::NoError && header_ok(data@) ==> {
                &&& r.0.vendor_id == spec_vendor_id(data@)
                &&& r.0.product_id == spec_product_id(data@)
                &&& r.0.have_serial == (data@[6] == 0xA5)
                &&& r.0.remote_wakeup == ((data@[7] & 0x01) == 0x01)
                &&& r.0.enable_ir == ((data@[7] & 0x02) == 0x02)
                &&& descs_ok(data@) ==> {
                    &&& r.1 == Error::NoError
                    &&& r.0.manufact@ == desc_chars(data@, STR_OFFSET_START as int)
                    &&& r.0.product@ == desc_chars(data@, second_desc_pos(data@))
                    &&& r.0.serial@ == desc_chars(data@, third_desc_pos(data@))
                }
                &&& !descs_ok(data@) ==> {
                    &&& r.1 == descs_error(data@)
                    &&& r.0.manufact@ == Seq::<char>::empty()
                    &&& r.0.product@ == Seq::<char>::empty()
                    &&& r.0.serial@ == Seq::<char>::empty()
                }
            },
    {
        if self.closed {
            return (zero_record(), Error::NoDevice);
        }
        if !matches!(read_status, Error::NoError) {
            return (zero_record(), read_status);
        }
        if data[0] != 0x28 || data[1] != 0x32 {
            return (zero_record(), Error::NoValidEEPROMHeader);
        }
        let vendor_id: u16 = data[2] as u16 + data[3] as u16 * 256;
        let product_id: u16 = data[4] as u16 + data[5] as u16 * 256;
        let have_serial = data[6] == 0xA5;
        let remote_wakeup = (data[7] & 0x01) == 0x01;
        let enable_ir = (data[7] & 0x02) == 0x02;
        let (manufact, product, serial, e) = get_string_descriptors(data);
        let info = HwInfo {
            vendor_id,
            product_id,
            manufact,
            product,
            serial,
            have_serial,
            enable_ir,
            remote_wakeup,
        };
        (info, e)
    }

    /// Builds the EEPROM image of a record, ready to be written at offset
    /// zero: the nine header bytes followed by the descriptor table.  A
    /// closed handle fails with `NoDevice`; a string longer than the
    /// maximum fails the whole operation.  Either failure answers an empty
    /// buffer that must not be written back.
    pub fn set_hw_info(&self, info: &HwInfo) -> (r: (Vec<u8>, Error))
        ensures
            self.spec_closed() ==> (r.1 == Error::NoDevice && r.0@ == Seq::<u8>::empty()),
            !self.spec_closed() && hw_strings_fit(*info) ==> (r.1 == Error::NoError && r.0@
                == spec_hw_image(*info)),
            !self.spec_closed() && !hw_strings_fit(*info) ==> (r.1
                == Error::StringDescriptorTooLong && r.0@ == Seq::<u8>::empty()),
    {
        if self.closed {
            return (Vec::new(), Error::NoDevice);
        }
        let mlen = info.manufact.as_str().as_bytes().len();
        let plen = info.product.as_str().as_bytes().len();
        let slen = info.serial.as_str().as_bytes().len();
        if mlen > MAX_STR_SIZE || plen > MAX_STR_SIZE || slen > MAX_STR_SIZE {
            return (Vec::new(), Error::StringDescriptorTooLong);
        }
        let stored_len = STR_OFFSET_START + (2 * mlen + 2) + (2 * plen + 2) + (2 * slen + 2);
        let mut data: Vec<u8> = vec![0u8; stored_len];
        data[0] = 0x28;
        data[1] = 0x32;
        data[2] = (info.vendor_id % 256) as u8;
        data[3] = (info.vendor_id / 256) as u8;
        data[4] = (info.product_id % 256) as u8;
        data[5] = (info.product_id / 256) as u8;
        data[6] = if info.have_serial { 0xA5 } else { 0x00 };
        data[7] = if info.remote_wakeup && info.enable_ir {
            0x03
        } else if info.enable_ir {
            0x02
        } else if info.remote_wakeup {
            0x01
        } else {
            0x00
        };
        data[8] = 0x00;
        let e = set_string_descriptors(info, &mut data);
        proof {
            assert(data@.subrange(0, STR_OFFSET_START as int) =~= crate::codec::spec_header_bytes(
                *info,
            ));
            assert(data@ =~= spec_hw_image(*info));
        }
        (data, e)
    }
}

/// A record with every field zero, empty or false, as answered beside an
/// error.
fn zero_record() -> (info: HwInfo)
    ensures
        zero_hw_info(info),
{
    HwInfo {
        vendor_id: 0,
        product_id: 0,
        manufact: String::new(),
        product: String::new(),
        serial: String::new(),
        have_serial: false,
        enable_ir: false,
        remote_wakeup: false,
    }
}

} // verus!
