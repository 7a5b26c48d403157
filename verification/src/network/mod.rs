//! Byte encoders used by the serial network driver.

pub mod util;
