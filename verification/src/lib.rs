//! Client library for a Bluetooth Classic audio accessory that speaks a small
//! fixed-format binary command protocol over an RFCOMM serial channel.
//!
//! The library holds the pure, verified core: the frame codec with its
//! checksum trailer, the device-locator search over enumerated radios, the
//! transport session state machine, and the request/response validation of
//! the command client. The platform socket and radio-enumeration calls live
//! outside the library and hand it plain values.

pub mod device;
pub mod error;
pub mod locator;
pub mod message;
pub mod transport;
pub mod utils;
