//! Register map of the AK09916 magnetometer.

use vstd::prelude::*;

verus! {

/// Magnetometer register map.
#[allow(non_camel_case_types)]
#[derive(Debug, Clone, Copy)]
pub enum Registers {
    WIA2,
    ST1,
    HXL,
    HXH,
    HYL,
    HYH,
    HZL,
    HZH,
    ST2,
    CNTL2,
    CNTL3,
}

impl Registers {
    /// The register's address within its bank.
    pub open spec fn spec_addr(self) -> u8 {
        match self {
            Registers::WIA2 => 0x01,
            Registers::ST1 => 0x10,
            Registers::HXL => 0x11,
            Registers::HXH => 0x12,
            Registers::HYL => 0x13,
            Registers::HYH => 0x14,
            Registers::HZL => 0x15,
            Registers::HZH => 0x16,
            Registers::ST2 => 0x18,
            Registers::CNTL2 => 0x31,
            Registers::CNTL3 => 0x32,
        }
    }

    /// Returns the register's address within its bank.
    pub fn addr(self) -> (r: u8)
        ensures
            r == self.spec_addr(),
    {
        match self {
            Registers::WIA2 => 0x01,
            Registers::ST1 => 0x10,
            Registers::HXL => 0x11,
            Registers::HXH => 0x12,
            Registers::HYL => 0x13,
            Registers::HYH => 0x14,
            Registers::HZL => 0x15,
            Registers::HZH => 0x16,
            Registers::ST2 => 0x18,
            Registers::CNTL2 => 0x31,
            Registers::CNTL3 => 0x32,
        }
    }
}

} // verus!
