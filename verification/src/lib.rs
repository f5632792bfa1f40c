//! Identification of one BLE health scale among advertisement traffic and
//! decoding of the weight field carried in its manufacturer data.

pub mod address;
pub mod decoder;
pub mod device;
pub mod dispatch;
pub mod format;
pub mod matcher;
pub mod reading;
pub mod runs;
