//! Identity and bus-address constants for the AK09916 magnetometer,
//! plus its register map.

pub mod registers;

use vstd::prelude::*;

verus! {

/// Chip identifier for the AK09916 magnetometer.
pub const CHIP_ID: u16 = 0x4809;

/// The AK09916 magnetometer responds to a single fixed bus address.
pub const ADDRESS: u8 = 0x0C;

} // verus!
