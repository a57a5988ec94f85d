//! Register-level driver for the ICM-20948 accelerometer/gyroscope/
//! magnetometer package, accessed over a two-wire serial bus.
//!
//! The driver translates chip identification, initialization, reset and
//! temperature reads into correctly sequenced transactions against a
//! banked register map. It is generic over the [`bus::I2cBus`] transport,
//! and every operation's bus traffic is pinned down in its contract over
//! the transport's ghost transaction log.

pub mod accel;
pub mod bus;
pub mod laws;
pub mod mag;

use accel::registers::RegisterBank;
use accel::registers::UserBank0;
use bus::I2cBus;
use bus::Transaction;
use vstd::prelude::*;

verus! {

/// Bit in the power-management register that, when set, disables the
/// temperature sensor.
pub const TEMP_DIS_BIT: u8 = 0x08;

/// Clock-source mask for the power-management register: auto-select the
/// best available source, PLL if ready, else the internal oscillator.
pub const CLKSEL_AUTO_MASK: u8 = 0x01;

/// Pattern written to the power-management register to reset the device.
pub const DEVICE_RESET_BIT: u8 = 0x80;

/// Assembles two register bytes into one 16-bit value, the first byte
/// taken as the most significant.
pub open spec fn spec_assemble_u16(high: u8, low: u8) -> u16 {
    (((high as u16) << 8) | (low as u16)) as u16
}

/// Big-endian assembly of a register pair read as two single bytes.
pub fn assemble_u16(high: u8, low: u8) -> (r: u16)
    ensures
        r == spec_assemble_u16(high, low),
        r == high * 256 + low,
{
    proof {
        assert((((high as u16) << 8) | (low as u16)) == high * 256 + low) by (bit_vector);
    }
    ((high as u16) << 8) | (low as u16)
}

/// The value `init` writes back to the power-management register after
/// reading `raw` from it: the disable-temperature bit cleared, then masked
/// down to the auto clock-select bit.
pub open spec fn spec_init_pwr_value(raw: u8) -> u8 {
    (raw & !TEMP_DIS_BIT) & CLKSEL_AUTO_MASK
}

/// The write-only transaction that stores `value` into register `reg` of
/// the device at `addr`.
pub open spec fn reg_write_txn(addr: u8, reg: u8, value: u8) -> Transaction {
    Transaction::Write { addr, data: seq![reg, value] }
}

/// The write-then-read transaction that fetches `value` from register
/// `reg` of the device at `addr`.
pub open spec fn reg_read_txn(addr: u8, reg: u8, value: u8) -> Transaction {
    Transaction::WriteRead { addr, data: seq![reg], response: seq![value] }
}

/// The transaction that activates `bank` through the bank-select register.
pub open spec fn bank_select_txn(addr: u8, bank: RegisterBank) -> Transaction {
    reg_write_txn(addr, UserBank0::REG_BANK_SEL.spec_addr(), bank.spec_select_value())
}

/// The transaction log after a successful bank selection: unchanged when
/// `target` was already the cached bank, otherwise extended by exactly one
/// bank-select write.
pub open spec fn select_log(
    log: Seq<Transaction>,
    addr: u8,
    cached: RegisterBank,
    target: RegisterBank,
) -> Seq<Transaction> {
    if cached == target {
        log
    } else {
        log.push(bank_select_txn(addr, target))
    }
}

/// Driver for the ICM-20948: a bus handle, the configured bus address and
/// the cached active register bank.
pub struct Icm20948<B> {
    bus: B,
    accel_addr: u8,
    selected_bank: RegisterBank,
}

impl<B: I2cBus> Icm20948<B> {
    /// The ghost log of every bus transaction issued so far.
    pub closed spec fn log(&self) -> Seq<Transaction> {
        self.bus.log()
    }

    /// The bus address transactions are directed to.
    pub closed spec fn addr(&self) -> u8 {
        self.accel_addr
    }

    /// The register bank the driver believes is active: the bank last
    /// successfully written to the bank-select register, Bank 0 by
    /// convention before any write.
    pub closed spec fn bank(&self) -> RegisterBank {
        self.selected_bank
    }

    /// Side-effect-free constructor: no bus traffic until an operation is
    /// called. The cached bank starts at Bank 0 by convention; the device
    /// is assumed to be in its post-power-on state.
    pub fn new(bus: B) -> (s: Self)
        ensures
            s.log() == bus.log(),
            s.addr() == accel::ADDRESS,
            s.bank() == RegisterBank::_0,
    {
        Self { bus, accel_addr: accel::ADDRESS, selected_bank: RegisterBank::_0 }
    }

    /// Directs all further transactions to the alternate bus address.
    /// No bus traffic; already-issued transactions are unaffected.
    pub fn use_alternate_addr(&mut self)
        ensures
            final (self).addr() == accel::ADDRESS_ALT,
            final (self).bank() == old(self).bank(),
            final (self).log() == old(self).log(),
    {
        self.accel_addr = accel::ADDRESS_ALT;
    }

    /// Writes `data` into register `reg`: one write-only transaction
    /// carrying the register address followed by the value.
    pub fn write_u8(&mut self, reg: u8, data: u8) -> (r: Result<(), B::BusError>)
        ensures
            final (self).addr() == old(self).addr(),
            final (self).bank() == old(self).bank(),
            r is Ok ==> final (self).log() == old(self).log().push(
                reg_write_txn(old(self).addr(), reg, data),
            ),
            r is Err ==> final (self).log() == old(self).log(),
    {
        let mut bytes: Vec<u8> = Vec::new();
        bytes.push(reg);
        bytes.push(data);
        proof {
            assert(bytes@ =~= seq![reg, data]);
        }
        self.bus.bus_write(self.accel_addr, &bytes)
    }

    /// Reads one byte from register `reg`: one combined transaction that
    /// writes the register address and reads exactly one byte back.
    pub fn read_u8(&mut self, reg: u8) -> (r: Result<u8, B::BusError>)
        ensures
            final (self).addr() == old(self).addr(),
            final (self).bank() == old(self).bank(),
            r matches Ok(v) ==> final (self).log() == old(self).log().push(
                reg_read_txn(old(self).addr(), reg, v),
            ),
            r is Err ==> final (self).log() == old(self).log(),
    {
        let mut bytes: Vec<u8> = Vec::new();
        bytes.push(reg);
        proof {
            assert(bytes@ =~= seq![reg]);
        }
        match self.bus.bus_write_read(self.accel_addr, &bytes, 1) {
            Ok(response) => {
                let v = response[0];
                proof {
                    assert(response@ =~= seq![v]);
                }
                Ok(v)
            },
            Err(e) => Err(e),
        }
    }

    /// Reads the register pair `reg_h`/`reg_l` as two sequential
    /// single-byte transactions and assembles the result big-endian, the
    /// byte from `reg_h` as the most significant. A failure of the first
    /// read aborts without attempting the second.
    pub fn read_u16(&mut self, reg_h: u8, reg_l: u8) -> (r: Result<u16, B::BusError>)
        ensures
            final (self).addr() == old(self).addr(),
            final (self).bank() == old(self).bank(),
            r matches Ok(v) ==> exists|h: u8, l: u8|
                #![auto]
                v == spec_assemble_u16(h, l) && final (self).log() == old(self).log().push(
                    reg_read_txn(old(self).addr(), reg_h, h),
                ).push(reg_read_txn(old(self).addr(), reg_l, l)),
            r is Err ==> final (self).log() == old(self).log() || exists|h: u8|
                #![auto]
                final (self).log() == old(self).log().push(
                    reg_read_txn(old(self).addr(), reg_h, h),
                ),
    {
        let high = self.read_u8(reg_h)?;
        let low = self.read_u8(reg_l)?;
        Ok(assemble_u16(high, low))
    }

    /// Activates `target` on the device. When the cached bank already
    /// equals `target` this is a no-op with no bus traffic and cannot
    /// fail; otherwise it writes `target`'s select value to the
    /// bank-select register, and updates the cache only on success, so a
    /// failed write leaves the cached bank unchanged.
    pub fn select_bank(&mut self, target: RegisterBank) -> (r: Result<(), B::BusError>)
        ensures
            final (self).addr() == old(self).addr(),
            old(self).bank() == target ==> r is Ok && *final (self) == *old(self),
            r is Ok ==> final (self).bank() == target && final (self).log() == select_log(
                old(self).log(),
                old(self).addr(),
                old(self).bank(),
                target,
            ),
            r is Err ==> final (self).bank() == old(self).bank() && final (self).log() == old(
                self,
            ).log(),
    {
        if self.selected_bank != target {
            // The bank-select register is present at the same address in
            // every bank, so activating a bank never needs a prior switch.
            self.write_u8(UserBank0::REG_BANK_SEL.addr(), target.select_value())?;
            self.selected_bank = target;
        }
        Ok(())
    }

    /// Initializes the device: activates Bank 0, reads the
    /// power-management register, clears the disable-temperature bit,
    /// masks down to the auto clock-select bit, and writes the result
    /// back. Fails on the first transport error without retrying.
    pub fn init(&mut self) -> (r: Result<(), B::BusError>)
        ensures
            final (self).addr() == old(self).addr(),
            r is Ok ==> final (self).bank() == RegisterBank::_0 && exists|raw: u8|
                #![auto]
                final (self).log() == select_log(
                    old(self).log(),
                    old(self).addr(),
                    old(self).bank(),
                    RegisterBank::_0,
                ).push(reg_read_txn(old(self).addr(), UserBank0::PWR_MGMT_1.spec_addr(), raw)).push(
                    reg_write_txn(
                        old(self).addr(),
                        UserBank0::PWR_MGMT_1.spec_addr(),
                        spec_init_pwr_value(raw),
                    ),
                ),
            r is Err ==> (final (self).bank() == old(self).bank() && final (self).log() == old(
                self,
            ).log()) || (final (self).bank() == RegisterBank::_0 && (final (self).log()
                == select_log(
                old(self).log(),
                old(self).addr(),
                old(self).bank(),
                RegisterBank::_0,
            ) || exists|raw: u8|
                #![auto]
                final (self).log() == select_log(
                    old(self).log(),
                    old(self).addr(),
                    old(self).bank(),
                    RegisterBank::_0,
                ).push(reg_read_txn(old(self).addr(), UserBank0::PWR_MGMT_1.spec_addr(), raw)))),
    {
        self.select_bank(RegisterBank::_0)?;
        let raw = self.read_u8(UserBank0::PWR_MGMT_1.addr())?;
        // Enable the temperature sensor and auto-select the clock source.
        let value = (raw & !TEMP_DIS_BIT) & CLKSEL_AUTO_MASK;
        self.write_u8(UserBank0::PWR_MGMT_1.addr(), value)?;
        proof {
            assert(self.log() == select_log(
                old(self).log(),
                old(self).addr(),
                old(self).bank(),
                RegisterBank::_0,
            ).push(reg_read_txn(old(self).addr(), UserBank0::PWR_MGMT_1.spec_addr(), raw)).push(
                reg_write_txn(
                    old(self).addr(),
                    UserBank0::PWR_MGMT_1.spec_addr(),
                    spec_init_pwr_value(raw),
                ),
            ));
        }
        Ok(())
    }

    /// Resets the device: activates Bank 0, then writes the reset pattern
    /// to the power-management register in a single write, bypassing a
    /// read-modify-write. The device lands in its post-reset bank, which
    /// matches the cached Bank 0 by convention.
    pub fn reset(&mut self) -> (r: Result<(), B::BusError>)
        ensures
            final (self).addr() == old(self).addr(),
            r is Ok ==> final (self).bank() == RegisterBank::_0 && final (self).log() == select_log(
                old(self).log(),
                old(self).addr(),
                old(self).bank(),
                RegisterBank::_0,
            ).push(
                reg_write_txn(old(self).addr(), UserBank0::PWR_MGMT_1.spec_addr(), DEVICE_RESET_BIT),
            ),
            r is Err ==> (final (self).bank() == old(self).bank() && final (self).log() == old(
                self,
            ).log()) || (final (self).bank() == RegisterBank::_0 && final (self).log()
                == select_log(
                old(self).log(),
                old(self).addr(),
                old(self).bank(),
                RegisterBank::_0,
            )),
    {
        self.select_bank(RegisterBank::_0)?;
        self.write_u8(UserBank0::PWR_MGMT_1.addr(), DEVICE_RESET_BIT)
    }

    /// Returns the device's factory-programmed model identifier byte,
    /// unmodified: comparing it against [`accel::CHIP_ID`] is the
    /// caller's responsibility. This is the model identifier, not the
    /// part's unique serial, which lives in a different register.
    pub fn id(&mut self) -> (r: Result<u8, B::BusError>)
        ensures
            final (self).addr() == old(self).addr(),
            r matches Ok(v) ==> final (self).bank() == RegisterBank::_0 && final (self).log()
                == select_log(
                old(self).log(),
                old(self).addr(),
                old(self).bank(),
                RegisterBank::_0,
            ).push(reg_read_txn(old(self).addr(), UserBank0::WHO_AM_I.spec_addr(), v)),
            r is Err ==> (final (self).bank() == old(self).bank() && final (self).log() == old(
                self,
            ).log()) || (final (self).bank() == RegisterBank::_0 && final (self).log()
                == select_log(
                old(self).log(),
                old(self).addr(),
                old(self).bank(),
                RegisterBank::_0,
            )),
    {
        self.select_bank(RegisterBank::_0)?;
        self.read_u8(UserBank0::WHO_AM_I.addr())
    }

    /// Reads the built-in temperature sensor's raw 16-bit register value:
    /// activates Bank 0, then reads the high and low temperature
    /// registers and assembles them big-endian. Converting the raw value
    /// to a unit of temperature is left to the caller.
    pub fn temperature_raw(&mut self) -> (r: Result<u16, B::BusError>)
        ensures
            final (self).addr() == old(self).addr(),
            r matches Ok(v) ==> final (self).bank() == RegisterBank::_0 && exists|h: u8, l: u8|
                #![auto]
                v == spec_assemble_u16(h, l) && final (self).log() == select_log(
                    old(self).log(),
                    old(self).addr(),
                    old(self).bank(),
                    RegisterBank::_0,
                ).push(reg_read_txn(old(self).addr(), UserBank0::TEMP_OUT_H.spec_addr(), h)).push(
                    reg_read_txn(old(self).addr(), UserBank0::TEMP_OUT_L.spec_addr(), l),
                ),
            r is Err ==> (final (self).bank() == old(self).bank() && final (self).log() == old(
                self,
            ).log()) || (final (self).bank() == RegisterBank::_0 && (final (self).log()
                == select_log(
                old(self).log(),
                old(self).addr(),
                old(self).bank(),
                RegisterBank::_0,
            ) || exists|h: u8|
                #![auto]
                final (self).log() == select_log(
                    old(self).log(),
                    old(self).addr(),
                    old(self).bank(),
                    RegisterBank::_0,
                ).push(reg_read_txn(old(self).addr(), UserBank0::TEMP_OUT_H.spec_addr(), h)))),
    {
        self.select_bank(RegisterBank::_0)?;
        self.read_u16(UserBank0::TEMP_OUT_H.addr(), UserBank0::TEMP_OUT_L.addr())
    }

    /// Consumes the driver and hands the bus handle back to the caller.
    /// No bus traffic.
    pub fn release(self) -> (bus: B)
        ensures
            bus.log() == self.log(),
    {
        self.bus
    }
}

} // verus!
