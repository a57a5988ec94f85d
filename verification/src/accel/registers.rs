//! Banked register map of the ICM-20948 accelerometer/gyroscope.
//!
//! The device exposes four user register banks; the same address byte
//! names different registers in different banks. The bank-select register
//! sits at the same address in every bank.

use vstd::prelude::*;

verus! {

/// The four user register banks, selectable through the bank-select
/// register present in every bank.
#[derive(Debug, Clone, Copy, PartialEq, Eq, Structural)]
pub enum RegisterBank {
    _0,
    _1,
    _2,
    _3,
}

impl RegisterBank {
    /// The value written to the bank-select register to activate this bank.
    /// Bit ranges 7:6 and 3:0 of that register are reserved.
    pub open spec fn spec_select_value(self) -> u8 {
        match self {
            RegisterBank::_0 => 0x00,
            RegisterBank::_1 => 0x10,
            RegisterBank::_2 => 0x20,
            RegisterBank::_3 => 0x30,
        }
    }

    /// Returns the value written to the bank-select register to activate
    /// this bank.
    pub fn select_value(self) -> (r: u8)
        ensures
            r == self.spec_select_value(),
    {
        match self {
            RegisterBank::_0 => 0x00,
            RegisterBank::_1 => 0x10,
            RegisterBank::_2 => 0x20,
            RegisterBank::_3 => 0x30,
        }
    }
}

/// User bank 0 register descriptions.
#[allow(non_camel_case_types)]
#[derive(Debug, Clone, Copy)]
pub enum UserBank0 {
    WHO_AM_I,
    USER_CTRL,
    LP_CONFIG,
    PWR_MGMT_1,
    PWR_MGMT_2,
    INT_PIN_CFG,
    INT_ENABLE,
    INT_ENABLE_1,
    INT_ENABLE_2,
    INT_ENABLE_3,
    I2C_MST_STATUS,
    INT_STATUS,
    INT_STATUS_1,
    INT_STATUS_2,
    INT_STATUS_3,
    DELAY_TIMEH,
    DELAY_TIMEL,
    ACCEL_XOUT_H,
    ACCEL_XOUT_L,
    ACCEL_YOUT_H,
    ACCEL_YOUT_L,
    ACCEL_ZOUT_H,
    ACCEL_ZOUT_L,
    GYRO_XOUT_H,
    GYRO_XOUT_L,
    GYRO_YOUT_H,
    GYRO_YOUT_L,
    GYRO_ZOUT_H,
    GYRO_ZOUT_L,
    TEMP_OUT_H,
    TEMP_OUT_L,
    EXT_SLV_SENS_DATA_00,
    EXT_SLV_SENS_DATA_01,
    EXT_SLV_SENS_DATA_02,
    EXT_SLV_SENS_DATA_03,
    EXT_SLV_SENS_DATA_04,
    EXT_SLV_SENS_DATA_05,
    EXT_SLV_SENS_DATA_06,
    EXT_SLV_SENS_DATA_07,
    EXT_SLV_SENS_DATA_08,
    EXT_SLV_SENS_DATA_09,
    EXT_SLV_SENS_DATA_10,
    EXT_SLV_SENS_DATA_11,
    EXT_SLV_SENS_DATA_12,
    EXT_SLV_SENS_DATA_13,
    EXT_SLV_SENS_DATA_14,
    EXT_SLV_SENS_DATA_15,
    EXT_SLV_SENS_DATA_16,
    EXT_SLV_SENS_DATA_17,
    EXT_SLV_SENS_DATA_18,
    EXT_SLV_SENS_DATA_19,
    EXT_SLV_SENS_DATA_20,
    EXT_SLV_SENS_DATA_21,
    EXT_SLV_SENS_DATA_22,
    EXT_SLV_SENS_DATA_23,
    FIFO_EN_1,
    FIFO_EN_2,
    FIFO_RST,
    FIFO_MODE,
    FIFO_COUNTH,
    FIFO_COUNTL,
    FIFO_R_W,
    DATA_RDY_STATUS,
    FIFO_CFG,
    MEM_START_ADDR,
    MEM_R_W,
    MEM_BANK_SEL,
    REG_BANK_SEL,
}

impl UserBank0 {
    /// The register's address within its bank.
    pub open spec fn spec_addr(self) -> u8 {
        match self {
            UserBank0::WHO_AM_I => 0x00,
            UserBank0::USER_CTRL => 0x03,
            UserBank0::LP_CONFIG => 0x05,
            UserBank0::PWR_MGMT_1 => 0x06,
            UserBank0::PWR_MGMT_2 => 0x07,
            UserBank0::INT_PIN_CFG => 0x0F,
            UserBank0::INT_ENABLE => 0x10,
            UserBank0::INT_ENABLE_1 => 0x11,
            UserBank0::INT_ENABLE_2 => 0x12,
            UserBank0::INT_ENABLE_3 => 0x13,
            UserBank0::I2C_MST_STATUS => 0x17,
            UserBank0::INT_STATUS => 0x19,
            UserBank0::INT_STATUS_1 => 0x1A,
            UserBank0::INT_STATUS_2 => 0x1B,
            UserBank0::INT_STATUS_3 => 0x1C,
            UserBank0::DELAY_TIMEH => 0x28,
            UserBank0::DELAY_TIMEL => 0x29,
            UserBank0::ACCEL_XOUT_H => 0x2D,
            UserBank0::ACCEL_XOUT_L => 0x2E,
            UserBank0::ACCEL_YOUT_H => 0x2F,
            UserBank0::ACCEL_YOUT_L => 0x30,
            UserBank0::ACCEL_ZOUT_H => 0x31,
            UserBank0::ACCEL_ZOUT_L => 0x32,
            UserBank0::GYRO_XOUT_H => 0x33,
            UserBank0::GYRO_XOUT_L => 0x34,
            UserBank0::GYRO_YOUT_H => 0x35,
            UserBank0::GYRO_YOUT_L => 0x36,
            UserBank0::GYRO_ZOUT_H => 0x37,
            UserBank0::GYRO_ZOUT_L => 0x38,
            UserBank0::TEMP_OUT_H => 0x39,
            UserBank0::TEMP_OUT_L => 0x3A,
            UserBank0::EXT_SLV_SENS_DATA_00 => 0x3B,
            UserBank0::EXT_SLV_SENS_DATA_01 => 0x3C,
            UserBank0::EXT_SLV_SENS_DATA_02 => 0x3D,
            UserBank0::EXT_SLV_SENS_DATA_03 => 0x3E,
            UserBank0::EXT_SLV_SENS_DATA_04 => 0x3F,
            UserBank0::EXT_SLV_SENS_DATA_05 => 0x40,
            UserBank0::EXT_SLV_SENS_DATA_06 => 0x41,
            UserBank0::EXT_SLV_SENS_DATA_07 => 0x42,
            UserBank0::EXT_SLV_SENS_DATA_08 => 0x43,
            UserBank0::EXT_SLV_SENS_DATA_09 => 0x44,
            UserBank0::EXT_SLV_SENS_DATA_10 => 0x45,
            UserBank0::EXT_SLV_SENS_DATA_11 => 0x46,
            UserBank0::EXT_SLV_SENS_DATA_12 => 0x47,
            UserBank0::EXT_SLV_SENS_DATA_13 => 0x48,
            UserBank0::EXT_SLV_SENS_DATA_14 => 0x49,
            UserBank0::EXT_SLV_SENS_DATA_15 => 0x4A,
            UserBank0::EXT_SLV_SENS_DATA_16 => 0x4B,
            UserBank0::EXT_SLV_SENS_DATA_17 => 0x4C,
            UserBank0::EXT_SLV_SENS_DATA_18 => 0x4D,
            UserBank0::EXT_SLV_SENS_DATA_19 => 0x4E,
            UserBank0::EXT_SLV_SENS_DATA_20 => 0x4F,
            UserBank0::EXT_SLV_SENS_DATA_21 => 0x50,
            UserBank0::EXT_SLV_SENS_DATA_22 => 0x51,
            UserBank0::EXT_SLV_SENS_DATA_23 => 0x52,
            UserBank0::FIFO_EN_1 => 0x66,
            UserBank0::FIFO_EN_2 => 0x67,
            UserBank0::FIFO_RST => 0x68,
            UserBank0::FIFO_MODE => 0x69,
            UserBank0::FIFO_COUNTH => 0x70,
            UserBank0::FIFO_COUNTL => 0x71,
            UserBank0::FIFO_R_W => 0x72,
            UserBank0::DATA_RDY_STATUS => 0x74,
            UserBank0::FIFO_CFG => 0x76,
            UserBank0::MEM_START_ADDR => 0x7C,
            UserBank0::MEM_R_W => 0x7D,
            UserBank0::MEM_BANK_SEL => 0x7E,
            UserBank0::REG_BANK_SEL => 0x7F,
        }
    }

    /// Returns the register's address within its bank.
    pub fn addr(self) -> (r: u8)
        ensures
            r == self.spec_addr(),
    {
        match self {
            UserBank0::WHO_AM_I => 0x00,
            UserBank0::USER_CTRL => 0x03,
            UserBank0::LP_CONFIG => 0x05,
            UserBank0::PWR_MGMT_1 => 0x06,
            UserBank0::PWR_MGMT_2 => 0x07,
            UserBank0::INT_PIN_CFG => 0x0F,
            UserBank0::INT_ENABLE => 0x10,
            UserBank0::INT_ENABLE_1 => 0x11,
            UserBank0::INT_ENABLE_2 => 0x12,
            UserBank0::INT_ENABLE_3 => 0x13,
            UserBank0::I2C_MST_STATUS => 0x17,
            UserBank0::INT_STATUS => 0x19,
            UserBank0::INT_STATUS_1 => 0x1A,
            UserBank0::INT_STATUS_2 => 0x1B,
            UserBank0::INT_STATUS_3 => 0x1C,
            UserBank0::DELAY_TIMEH => 0x28,
            UserBank0::DELAY_TIMEL => 0x29,
            UserBank0::ACCEL_XOUT_H => 0x2D,
            UserBank0::ACCEL_XOUT_L => 0x2E,
            UserBank0::ACCEL_YOUT_H => 0x2F,
            UserBank0::ACCEL_YOUT_L => 0x30,
            UserBank0::ACCEL_ZOUT_H => 0x31,
            UserBank0::ACCEL_ZOUT_L => 0x32,
            UserBank0::GYRO_XOUT_H => 0x33,
            UserBank0::GYRO_XOUT_L => 0x34,
            UserBank0::GYRO_YOUT_H => 0x35,
            UserBank0::GYRO_YOUT_L => 0x36,
            UserBank0::GYRO_ZOUT_H => 0x37,
            UserBank0::GYRO_ZOUT_L => 0x38,
            UserBank0::TEMP_OUT_H => 0x39,
            UserBank0::TEMP_OUT_L => 0x3A,
            UserBank0::EXT_SLV_SENS_DATA_00 => 0x3B,
            UserBank0::EXT_SLV_SENS_DATA_01 => 0x3C,
            UserBank0::EXT_SLV_SENS_DATA_02 => 0x3D,
            UserBank0::EXT_SLV_SENS_DATA_03 => 0x3E,
            UserBank0::EXT_SLV_SENS_DATA_04 => 0x3F,
            UserBank0::EXT_SLV_SENS_DATA_05 => 0x40,
            UserBank0::EXT_SLV_SENS_DATA_06 => 0x41,
            UserBank0::EXT_SLV_SENS_DATA_07 => 0x42,
            UserBank0::EXT_SLV_SENS_DATA_08 => 0x43,
            UserBank0::EXT_SLV_SENS_DATA_09 => 0x44,
            UserBank0::EXT_SLV_SENS_DATA_10 => 0x45,
            UserBank0::EXT_SLV_SENS_DATA_11 => 0x46,
            UserBank0::EXT_SLV_SENS_DATA_12 => 0x47,
            UserBank0::EXT_SLV_SENS_DATA_13 => 0x48,
            UserBank0::EXT_SLV_SENS_DATA_14 => 0x49,
            UserBank0::EXT_SLV_SENS_DATA_15 => 0x4A,
            UserBank0::EXT_SLV_SENS_DATA_16 => 0x4B,
            UserBank0::EXT_SLV_SENS_DATA_17 => 0x4C,
            UserBank0::EXT_SLV_SENS_DATA_18 => 0x4D,
            UserBank0::EXT_SLV_SENS_DATA_19 => 0x4E,
            UserBank0::EXT_SLV_SENS_DATA_20 => 0x4F,
            UserBank0::EXT_SLV_SENS_DATA_21 => 0x50,
            UserBank0::EXT_SLV_SENS_DATA_22 => 0x51,
            UserBank0::EXT_SLV_SENS_DATA_23 => 0x52,
            UserBank0::FIFO_EN_1 => 0x66,
            UserBank0::FIFO_EN_2 => 0x67,
            UserBank0::FIFO_RST => 0x68,
            UserBank0::FIFO_MODE => 0x69,
            UserBank0::FIFO_COUNTH => 0x70,
            UserBank0::FIFO_COUNTL => 0x71,
            UserBank0::FIFO_R_W => 0x72,
            UserBank0::DATA_RDY_STATUS => 0x74,
            UserBank0::FIFO_CFG => 0x76,
            UserBank0::MEM_START_ADDR => 0x7C,
            UserBank0::MEM_R_W => 0x7D,
            UserBank0::MEM_BANK_SEL => 0x7E,
            UserBank0::REG_BANK_SEL => 0x7F,
        }
    }
}

/// User bank 1 register descriptions.
#[allow(non_camel_case_types)]
#[derive(Debug, Clone, Copy)]
pub enum UserBank1 {
    SELF_TEST_X_GYRO,
    SELF_TEST_Y_GYRO,
    SELF_TEST_Z_GYRO,
    SELF_TEST_X_ACCEL,
    SELF_TEST_Y_ACCEL,
    SELF_TEST_Z_ACCEL,
    XA_OFFS_H,
    XA_OFFS_L,
    YA_OFFS_H,
    YA_OFFS_L,
    ZA_OFFS_H,
    ZA_OFFS_L,
    TIMEBASE_CORRECTION_PLL,
    REG_BANK_SEL,
}

impl UserBank1 {
    /// The register's address within its bank.
    pub open spec fn spec_addr(self) -> u8 {
        match self {
            UserBank1::SELF_TEST_X_GYRO => 0x02,
            UserBank1::SELF_TEST_Y_GYRO => 0x03,
            UserBank1::SELF_TEST_Z_GYRO => 0x04,
            UserBank1::SELF_TEST_X_ACCEL => 0x0E,
            UserBank1::SELF_TEST_Y_ACCEL => 0x0F,
            UserBank1::SELF_TEST_Z_ACCEL => 0x10,
            UserBank1::XA_OFFS_H => 0x14,
            UserBank1::XA_OFFS_L => 0x15,
            UserBank1::YA_OFFS_H => 0x17,
            UserBank1::YA_OFFS_L => 0x18,
            UserBank1::ZA_OFFS_H => 0x1A,
            UserBank1::ZA_OFFS_L => 0x1B,
            UserBank1::TIMEBASE_CORRECTION_PLL => 0x28,
            UserBank1::REG_BANK_SEL => 0x7F,
        }
    }

    /// Returns the register's address within its bank.
    pub fn addr(self) -> (r: u8)
        ensures
            r == self.spec_addr(),
    {
        match self {
            UserBank1::SELF_TEST_X_GYRO => 0x02,
            UserBank1::SELF_TEST_Y_GYRO => 0x03,
            UserBank1::SELF_TEST_Z_GYRO => 0x04,
            UserBank1::SELF_TEST_X_ACCEL => 0x0E,
            UserBank1::SELF_TEST_Y_ACCEL => 0x0F,
            UserBank1::SELF_TEST_Z_ACCEL => 0x10,
            UserBank1::XA_OFFS_H => 0x14,
            UserBank1::XA_OFFS_L => 0x15,
            UserBank1::YA_OFFS_H => 0x17,
            UserBank1::YA_OFFS_L => 0x18,
            UserBank1::ZA_OFFS_H => 0x1A,
            UserBank1::ZA_OFFS_L => 0x1B,
            UserBank1::TIMEBASE_CORRECTION_PLL => 0x28,
            UserBank1::REG_BANK_SEL => 0x7F,
        }
    }
}

/// User bank 2 register map.
#[allow(non_camel_case_types)]
#[derive(Debug, Clone, Copy)]
pub enum UserBank2 {
    GYRO_SMPLRT_DIV,
    GYRO_CONFIG_1,
    GYRO_CONFIG_2,
    XG_OFFS_USRH,
    XG_OFFS_USRL,
    YG_OFFS_USRH,
    YG_OFFS_USRL,
    ZG_OFFS_USRH,
    ZG_OFFS_USRL,
    ODR_ALIGN_EN,
    ACCEL_SMPLRT_DIV_1,
    ACCEL_SMPLRT_DIV_2,
    ACCEL_INTEL_CTRL,
    ACCEL_WOM_THR,
    ACCEL_CONFIG,
    ACCEL_CONFIG_2,
    FSYNC_CONFIG,
    TEMP_CONFIG,
    MOD_CTRL_USR,
    REG_BANK_SEL,
}

impl UserBank2 {
    /// The register's address within its bank.
    pub open spec fn spec_addr(self) -> u8 {
        match self {
            UserBank2::GYRO_SMPLRT_DIV => 0x00,
            UserBank2::GYRO_CONFIG_1 => 0x01,
            UserBank2::GYRO_CONFIG_2 => 0x02,
            UserBank2::XG_OFFS_USRH => 0x03,
            UserBank2::XG_OFFS_USRL => 0x04,
            UserBank2::YG_OFFS_USRH => 0x05,
            UserBank2::YG_OFFS_USRL => 0x06,
            UserBank2::ZG_OFFS_USRH => 0x07,
            UserBank2::ZG_OFFS_USRL => 0x08,
            UserBank2::ODR_ALIGN_EN => 0x09,
            UserBank2::ACCEL_SMPLRT_DIV_1 => 0x10,
            UserBank2::ACCEL_SMPLRT_DIV_2 => 0x11,
            UserBank2::ACCEL_INTEL_CTRL => 0x12,
            UserBank2::ACCEL_WOM_THR => 0x13,
            UserBank2::ACCEL_CONFIG => 0x14,
            UserBank2::ACCEL_CONFIG_2 => 0x15,
            UserBank2::FSYNC_CONFIG => 0x52,
            UserBank2::TEMP_CONFIG => 0x53,
            UserBank2::MOD_CTRL_USR => 0x54,
            UserBank2::REG_BANK_SEL => 0x7F,
        }
    }

    /// Returns the register's address within its bank.
    pub fn addr(self) -> (r: u8)
        ensures
            r == self.spec_addr(),
    {
        match self {
            UserBank2::GYRO_SMPLRT_DIV => 0x00,
            UserBank2::GYRO_CONFIG_1 => 0x01,
            UserBank2::GYRO_CONFIG_2 => 0x02,
            UserBank2::XG_OFFS_USRH => 0x03,
            UserBank2::XG_OFFS_USRL => 0x04,
            UserBank2::YG_OFFS_USRH => 0x05,
            UserBank2::YG_OFFS_USRL => 0x06,
            UserBank2::ZG_OFFS_USRH => 0x07,
            UserBank2::ZG_OFFS_USRL => 0x08,
            UserBank2::ODR_ALIGN_EN => 0x09,
            UserBank2::ACCEL_SMPLRT_DIV_1 => 0x10,
            UserBank2::ACCEL_SMPLRT_DIV_2 => 0x11,
            UserBank2::ACCEL_INTEL_CTRL => 0x12,
            UserBank2::ACCEL_WOM_THR => 0x13,
            UserBank2::ACCEL_CONFIG => 0x14,
            UserBank2::ACCEL_CONFIG_2 => 0x15,
            UserBank2::FSYNC_CONFIG => 0x52,
            UserBank2::TEMP_CONFIG => 0x53,
            UserBank2::MOD_CTRL_USR => 0x54,
            UserBank2::REG_BANK_SEL => 0x7F,
        }
    }
}

/// User bank 3 register map.
#[allow(non_camel_case_types)]
#[derive(Debug, Clone, Copy)]
pub enum UserBank3 {
    I2C_MST_ODR_CONFIG,
    I2C_MST_CTRL,
    I2C_MST_DELAY_CTRL,
    I2C_SLV0_ADDR,
    I2C_SLV0_REG,
    I2C_SLV0_CTRL,
    I2C_SLV0_DO,
    I2C_SLV1_ADDR,
    I2C_SLV1_REG,
    I2C_SLV1_CTRL,
    I2C_SLV1_DO,
    I2C_SLV2_ADDR,
    I2C_SLV2_REG,
    I2C_SLV2_CTRL,
    I2C_SLV2_DO,
    I2C_SLV3_ADDR,
    I2C_SLV3_REG,
    I2C_SLV3_CTRL,
    I2C_SLV3_DO,
    I2C_SLV4_ADDR,
    I2C_SLV4_REG,
    I2C_SLV4_CTRL,
    I2C_SLV4_DO,
    I2C_SLV4_DI,
    REG_BANK_SEL,
}

impl UserBank3 {
    /// The register's address within its bank.
    pub open spec fn spec_addr(self) -> u8 {
        match self {
            UserBank3::I2C_MST_ODR_CONFIG => 0x00,
            UserBank3::I2C_MST_CTRL => 0x01,
            UserBank3::I2C_MST_DELAY_CTRL => 0x02,
            UserBank3::I2C_SLV0_ADDR => 0x03,
            UserBank3::I2C_SLV0_REG => 0x04,
            UserBank3::I2C_SLV0_CTRL => 0x05,
            UserBank3::I2C_SLV0_DO => 0x06,
            UserBank3::I2C_SLV1_ADDR => 0x07,
            UserBank3::I2C_SLV1_REG => 0x08,
            UserBank3::I2C_SLV1_CTRL => 0x09,
            UserBank3::I2C_SLV1_DO => 0x0A,
            UserBank3::I2C_SLV2_ADDR => 0x0B,
            UserBank3::I2C_SLV2_REG => 0x0C,
            UserBank3::I2C_SLV2_CTRL => 0x0D,
            UserBank3::I2C_SLV2_DO => 0x0E,
            UserBank3::I2C_SLV3_ADDR => 0x0F,
            UserBank3::I2C_SLV3_REG => 0x10,
            UserBank3::I2C_SLV3_CTRL => 0x11,
            UserBank3::I2C_SLV3_DO => 0x12,
            UserBank3::I2C_SLV4_ADDR => 0x13,
            UserBank3::I2C_SLV4_REG => 0x14,
            UserBank3::I2C_SLV4_CTRL => 0x15,
            UserBank3::I2C_SLV4_DO => 0x16,
            UserBank3::I2C_SLV4_DI => 0x17,
            UserBank3::REG_BANK_SEL => 0x7F,
        }
    }

    /// Returns the register's address within its bank.
    pub fn addr(self) -> (r: u8)
        ensures
            r == self.spec_addr(),
    {
        match self {
            UserBank3::I2C_MST_ODR_CONFIG => 0x00,
            UserBank3::I2C_MST_CTRL => 0x01,
            UserBank3::I2C_MST_DELAY_CTRL => 0x02,
            UserBank3::I2C_SLV0_ADDR => 0x03,
            UserBank3::I2C_SLV0_REG => 0x04,
            UserBank3::I2C_SLV0_CTRL => 0x05,
            UserBank3::I2C_SLV0_DO => 0x06,
            UserBank3::I2C_SLV1_ADDR => 0x07,
            UserBank3::I2C_SLV1_REG => 0x08,
            UserBank3::I2C_SLV1_CTRL => 0x09,
            UserBank3::I2C_SLV1_DO => 0x0A,
            UserBank3::I2C_SLV2_ADDR => 0x0B,
            UserBank3::I2C_SLV2_REG => 0x0C,
            UserBank3::I2C_SLV2_CTRL => 0x0D,
            UserBank3::I2C_SLV2_DO => 0x0E,
            UserBank3::I2C_SLV3_ADDR => 0x0F,
            UserBank3::I2C_SLV3_REG => 0x10,
            UserBank3::I2C_SLV3_CTRL => 0x11,
            UserBank3::I2C_SLV3_DO => 0x12,
            UserBank3::I2C_SLV4_ADDR => 0x13,
            UserBank3::I2C_SLV4_REG => 0x14,
            UserBank3::I2C_SLV4_CTRL => 0x15,
            UserBank3::I2C_SLV4_DO => 0x16,
            UserBank3::I2C_SLV4_DI => 0x17,
            UserBank3::REG_BANK_SEL => 0x7F,
        }
    }
}

} // verus!
