//! Tests of the register map and the identity constants.

use icm20948::accel;
use icm20948::accel::registers::RegisterBank;
use icm20948::accel::registers::UserBank0;
use icm20948::accel::registers::UserBank1;
use icm20948::accel::registers::UserBank2;
use icm20948::accel::registers::UserBank3;
use icm20948::mag;
use icm20948::mag::registers::Registers;

#[test]
fn identity_constants() {
    assert_eq!(accel::CHIP_ID, 0xEA);
    assert_eq!(accel::ADDRESS, 0x68);
    assert_eq!(accel::ADDRESS_ALT, 0x69);
    assert_eq!(mag::CHIP_ID, 0x4809);
    assert_eq!(mag::ADDRESS, 0x0C);
}

#[test]
fn bank_select_values() {
    assert_eq!(RegisterBank::_0.select_value(), 0x00);
    assert_eq!(RegisterBank::_1.select_value(), 0x10);
    assert_eq!(RegisterBank::_2.select_value(), 0x20);
    assert_eq!(RegisterBank::_3.select_value(), 0x30);
}

#[test]
fn bank0_addresses() {
    assert_eq!(UserBank0::WHO_AM_I.addr(), 0x00);
    assert_eq!(UserBank0::USER_CTRL.addr(), 0x03);
    assert_eq!(UserBank0::PWR_MGMT_1.addr(), 0x06);
    assert_eq!(UserBank0::PWR_MGMT_2.addr(), 0x07);
    assert_eq!(UserBank0::ACCEL_XOUT_H.addr(), 0x2D);
    assert_eq!(UserBank0::GYRO_ZOUT_L.addr(), 0x38);
    assert_eq!(UserBank0::TEMP_OUT_H.addr(), 0x39);
    assert_eq!(UserBank0::TEMP_OUT_L.addr(), 0x3A);
    assert_eq!(UserBank0::EXT_SLV_SENS_DATA_00.addr(), 0x3B);
    assert_eq!(UserBank0::EXT_SLV_SENS_DATA_23.addr(), 0x52);
    assert_eq!(UserBank0::FIFO_R_W.addr(), 0x72);
    assert_eq!(UserBank0::MEM_BANK_SEL.addr(), 0x7E);
    assert_eq!(UserBank0::REG_BANK_SEL.addr(), 0x7F);
}

#[test]
fn bank1_addresses() {
    assert_eq!(UserBank1::SELF_TEST_X_GYRO.addr(), 0x02);
    assert_eq!(UserBank1::XA_OFFS_H.addr(), 0x14);
    assert_eq!(UserBank1::TIMEBASE_CORRECTION_PLL.addr(), 0x28);
    assert_eq!(UserBank1::REG_BANK_SEL.addr(), 0x7F);
}

#[test]
fn bank2_addresses() {
    assert_eq!(UserBank2::GYRO_SMPLRT_DIV.addr(), 0x00);
    assert_eq!(UserBank2::ACCEL_CONFIG.addr(), 0x14);
    assert_eq!(UserBank2::MOD_CTRL_USR.addr(), 0x54);
    assert_eq!(UserBank2::REG_BANK_SEL.addr(), 0x7F);
}

#[test]
fn bank3_addresses() {
    assert_eq!(UserBank3::I2C_MST_ODR_CONFIG.addr(), 0x00);
    assert_eq!(UserBank3::I2C_SLV0_ADDR.addr(), 0x03);
    assert_eq!(UserBank3::I2C_SLV4_DI.addr(), 0x17);
    assert_eq!(UserBank3::REG_BANK_SEL.addr(), 0x7F);
}

#[test]
fn bank_select_register_shared_across_banks() {
    // The bank-select register sits at the same address in every bank, so
    // switching banks never needs a prior switch.
    assert_eq!(UserBank0::REG_BANK_SEL.addr(), UserBank1::REG_BANK_SEL.addr());
    assert_eq!(UserBank1::REG_BANK_SEL.addr(), UserBank2::REG_BANK_SEL.addr());
    assert_eq!(UserBank2::REG_BANK_SEL.addr(), UserBank3::REG_BANK_SEL.addr());
}

#[test]
fn magnetometer_addresses() {
    assert_eq!(Registers::WIA2.addr(), 0x01);
    assert_eq!(Registers::ST1.addr(), 0x10);
    assert_eq!(Registers::HXL.addr(), 0x11);
    assert_eq!(Registers::HZH.addr(), 0x16);
    assert_eq!(Registers::ST2.addr(), 0x18);
    assert_eq!(Registers::CNTL2.addr(), 0x31);
    assert_eq!(Registers::CNTL3.addr(), 0x32);
}
