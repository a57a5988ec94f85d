//! Identity and bus-address constants for the ICM-20948
//! accelerometer/gyroscope, plus its banked register map.

pub mod registers;

use vstd::prelude::*;

verus! {

/// Factory-programmed chip identifier for the accelerometer/gyroscope.
pub const CHIP_ID: u8 = 0xEA;

/// Default bus address of the accelerometer/gyroscope.
pub const ADDRESS: u8 = 0x68;

/// Alternate bus address, selected by a hardware pin.
pub const ADDRESS_ALT: u8 = 0x69;

} // verus!
