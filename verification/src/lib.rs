//! Safe marshalling core for an RTL-SDR USB dongle driver binding.
//!
//! The native driver itself (USB transfers, tuner control) is an external
//! collaborator reached over a C function surface; everything that can be
//! wrong *in this layer* is data marshalling: translating the driver's
//! signed integer status codes into a closed error taxonomy, encoding and
//! decoding the fixed-layout EEPROM image (header, id fields, flag bits and
//! the string-descriptor table), and the small decisions of the driver's
//! query and streaming protocols.  Those parts live here, verified; the
//! process-wide enumeration functions and the device handle that owns the
//! opaque native pointer forward to this crate for every decision they make.

pub mod codec;
pub mod control;
pub mod device;
pub mod errors;

pub use codec::get_string_descriptors;
pub use codec::set_string_descriptors;
pub use codec::HwInfo;
pub use device::Device;
pub use control::from_tuner_type;
pub use control::SamplingMode;
pub use control::TunerType;
pub use errors::get_err_msg;
pub use errors::Error;
