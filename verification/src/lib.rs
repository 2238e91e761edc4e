//! Verified driver for the ADM1191 digital power monitor.
//!
//! The driver binds an exclusively owned bus transport to a 7-bit device
//! address and exposes the register-access protocol of the IC: a status
//! read, the command that starts continuous voltage/current conversion,
//! and the 3-byte sample read with its 12-bit bit-level decoding.

pub mod codec;
pub mod driver;
pub mod sim;
pub mod transport;

pub use codec::decode_sample;
pub use driver::Adm1191;
