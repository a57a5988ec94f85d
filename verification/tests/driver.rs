//! Driver tests against a mock bus that records every transaction.

use icm20948::accel;
use icm20948::accel::registers::RegisterBank;
use icm20948::bus::I2cBus;
use icm20948::Icm20948;

/// One transaction as the mock records it.
#[derive(Debug, Clone, PartialEq, Eq)]
enum Op {
    Write { addr: u8, data: Vec<u8> },
    WriteRead { addr: u8, data: Vec<u8>, response: Vec<u8> },
}

/// A mock bus: serves reads from a register file, records completed
/// transactions, and can be told to fail writes or a read of one register.
struct MockBus {
    regs: [u8; 128],
    ops: Vec<Op>,
    fail_writes: bool,
    fail_read_reg: Option<u8>,
}

impl MockBus {
    fn new() -> Self {
        MockBus { regs: [0; 128], ops: Vec::new(), fail_writes: false, fail_read_reg: None }
    }

    fn writes(&self) -> Vec<(u8, Vec<u8>)> {
        self.ops
            .iter()
            .filter_map(|op| match op {
                Op::Write { addr, data } => Some((*addr, data.clone())),
                _ => None,
            })
            .collect()
    }

    fn reads(&self) -> Vec<(u8, Vec<u8>)> {
        self.ops
            .iter()
            .filter_map(|op| match op {
                Op::WriteRead { addr, data, .. } => Some((*addr, data.clone())),
                _ => None,
            })
            .collect()
    }
}

impl I2cBus for MockBus {
    type BusError = u8;

    fn bus_write(&mut self, addr: u8, bytes: &Vec<u8>) -> Result<(), u8> {
        if self.fail_writes {
            return Err(9);
        }
        self.ops.push(Op::Write { addr, data: bytes.clone() });
        Ok(())
    }

    fn bus_write_read(&mut self, addr: u8, bytes: &Vec<u8>, read_len: usize) -> Result<Vec<u8>, u8> {
        let reg = bytes[0];
        if self.fail_read_reg == Some(reg) {
            return Err(7);
        }
        let response = vec![self.regs[reg as usize]; read_len];
        self.ops.push(Op::WriteRead { addr, data: bytes.clone(), response: response.clone() });
        Ok(response)
    }
}

#[test]
fn construction_is_silent() {
    let mut drv = Icm20948::new(MockBus::new());
    // Selecting the default bank is equally silent: the cache already
    // reads Bank 0.
    assert_eq!(drv.select_bank(RegisterBank::_0), Ok(()));
    let bus = drv.release();
    assert_eq!(bus.ops, vec![]);
}

#[test]
fn repeated_bank_selection_writes_once() {
    let mut drv = Icm20948::new(MockBus::new());
    assert_eq!(drv.select_bank(RegisterBank::_1), Ok(()));
    assert_eq!(drv.select_bank(RegisterBank::_1), Ok(()));
    let bus = drv.release();
    assert_eq!(bus.writes(), vec![(0x68, vec![0x7F, 0x10])]);
}

#[test]
fn switching_bank_selection_writes_twice() {
    let mut drv = Icm20948::new(MockBus::new());
    assert_eq!(drv.select_bank(RegisterBank::_1), Ok(()));
    assert_eq!(drv.select_bank(RegisterBank::_2), Ok(()));
    let bus = drv.release();
    assert_eq!(bus.writes(), vec![(0x68, vec![0x7F, 0x10]), (0x68, vec![0x7F, 0x20])]);
}

#[test]
fn bank_select_values_on_the_wire() {
    let mut drv = Icm20948::new(MockBus::new());
    assert_eq!(drv.select_bank(RegisterBank::_1), Ok(()));
    assert_eq!(drv.select_bank(RegisterBank::_2), Ok(()));
    assert_eq!(drv.select_bank(RegisterBank::_3), Ok(()));
    assert_eq!(drv.select_bank(RegisterBank::_0), Ok(()));
    let bus = drv.release();
    assert_eq!(
        bus.writes(),
        vec![
            (0x68, vec![0x7F, 0x10]),
            (0x68, vec![0x7F, 0x20]),
            (0x68, vec![0x7F, 0x30]),
            (0x68, vec![0x7F, 0x00]),
        ]
    );
}

#[test]
fn failed_bank_selection_leaves_cache_unchanged() {
    let mut bus = MockBus::new();
    bus.fail_writes = true;
    let mut drv = Icm20948::new(bus);
    assert_eq!(drv.select_bank(RegisterBank::_1), Err(9));
    // Probe: selecting the originally cached bank must still be a no-op,
    // which shows the cache was not advanced by the failed write.
    assert_eq!(drv.select_bank(RegisterBank::_0), Ok(()));
    let bus = drv.release();
    assert_eq!(bus.ops, vec![]);
}

#[test]
fn id_returns_identity_byte() {
    let mut bus = MockBus::new();
    bus.regs[0x00] = 0xEA;
    let mut drv = Icm20948::new(bus);
    assert_eq!(drv.id(), Ok(0xEA));
    assert_eq!(drv.id(), Ok(accel::CHIP_ID));
    let bus = drv.release();
    assert_eq!(bus.reads(), vec![(0x68, vec![0x00]), (0x68, vec![0x00])]);
}

#[test]
fn id_passes_other_bytes_through_unvalidated() {
    let mut bus = MockBus::new();
    bus.regs[0x00] = 0x42;
    let mut drv = Icm20948::new(bus);
    assert_eq!(drv.id(), Ok(0x42));
}

#[test]
fn id_uses_alternate_address_after_toggle() {
    let mut bus = MockBus::new();
    bus.regs[0x00] = 0xEA;
    let mut drv = Icm20948::new(bus);
    drv.use_alternate_addr();
    assert_eq!(drv.id(), Ok(0xEA));
    let bus = drv.release();
    assert_eq!(bus.reads(), vec![(0x69, vec![0x00])]);
}

#[test]
fn init_clears_temperature_disable_and_selects_clock() {
    let mut bus = MockBus::new();
    bus.regs[0x06] = 0xFF;
    let mut drv = Icm20948::new(bus);
    assert_eq!(drv.init(), Ok(()));
    let bus = drv.release();
    // 0xFF with the disable-temperature bit cleared is 0xF7; masked down to
    // the auto clock-select bit that leaves exactly 0x01.
    assert_eq!(bus.reads(), vec![(0x68, vec![0x06])]);
    assert_eq!(bus.writes(), vec![(0x68, vec![0x06, 0x01])]);
}

#[test]
fn init_from_even_reading_writes_zero() {
    let mut bus = MockBus::new();
    bus.regs[0x06] = 0x4A;
    let mut drv = Icm20948::new(bus);
    assert_eq!(drv.init(), Ok(()));
    let bus = drv.release();
    assert_eq!(bus.writes(), vec![(0x68, vec![0x06, 0x00])]);
}

#[test]
fn init_propagates_read_failure_without_writing() {
    let mut bus = MockBus::new();
    bus.fail_read_reg = Some(0x06);
    let mut drv = Icm20948::new(bus);
    assert_eq!(drv.init(), Err(7));
    let bus = drv.release();
    assert_eq!(bus.writes(), vec![]);
}

#[test]
fn reset_writes_reset_pattern() {
    let mut drv = Icm20948::new(MockBus::new());
    assert_eq!(drv.reset(), Ok(()));
    let bus = drv.release();
    assert_eq!(bus.writes(), vec![(0x68, vec![0x06, 0x80])]);
}

#[test]
fn reset_returns_to_bank_zero_first() {
    let mut drv = Icm20948::new(MockBus::new());
    assert_eq!(drv.select_bank(RegisterBank::_2), Ok(()));
    assert_eq!(drv.reset(), Ok(()));
    let bus = drv.release();
    assert_eq!(
        bus.writes(),
        vec![(0x68, vec![0x7F, 0x20]), (0x68, vec![0x7F, 0x00]), (0x68, vec![0x06, 0x80])]
    );
}

#[test]
fn temperature_raw_assembles_big_endian() {
    let mut bus = MockBus::new();
    bus.regs[0x39] = 0x1B;
    bus.regs[0x3A] = 0x6F;
    let mut drv = Icm20948::new(bus);
    assert_eq!(drv.temperature_raw(), Ok(0x1B6F));
    let bus = drv.release();
    assert_eq!(bus.reads(), vec![(0x68, vec![0x39]), (0x68, vec![0x3A])]);
}

#[test]
fn temperature_raw_zero_registers() {
    let mut drv = Icm20948::new(MockBus::new());
    assert_eq!(drv.temperature_raw(), Ok(0x0000));
}

#[test]
fn read_u16_aborts_before_second_read_on_first_failure() {
    let mut bus = MockBus::new();
    bus.fail_read_reg = Some(0x39);
    let mut drv = Icm20948::new(bus);
    assert_eq!(drv.read_u16(0x39, 0x3A), Err(7));
    let bus = drv.release();
    assert_eq!(bus.ops, vec![]);
}

#[test]
fn read_u16_propagates_second_read_failure() {
    let mut bus = MockBus::new();
    bus.regs[0x39] = 0x12;
    bus.fail_read_reg = Some(0x3A);
    let mut drv = Icm20948::new(bus);
    assert_eq!(drv.read_u16(0x39, 0x3A), Err(7));
    let bus = drv.release();
    assert_eq!(bus.reads(), vec![(0x68, vec![0x39])]);
}

#[test]
fn write_u8_sends_address_then_value() {
    let mut drv = Icm20948::new(MockBus::new());
    assert_eq!(drv.write_u8(0x10, 0xAB), Ok(()));
    let bus = drv.release();
    assert_eq!(bus.writes(), vec![(0x68, vec![0x10, 0xAB])]);
}

#[test]
fn read_u8_sends_register_and_reads_one_byte() {
    let mut bus = MockBus::new();
    bus.regs[0x03] = 0x5C;
    let mut drv = Icm20948::new(bus);
    assert_eq!(drv.read_u8(0x03), Ok(0x5C));
    let bus = drv.release();
    assert_eq!(bus.ops.len(), 1);
    assert_eq!(
        bus.ops[0],
        Op::WriteRead { addr: 0x68, data: vec![0x03], response: vec![0x5C] }
    );
}

#[test]
fn assemble_u16_covers_all_byte_combinations() {
    for h in 0..=255u16 {
        for l in 0..=255u16 {
            let r = icm20948::assemble_u16(h as u8, l as u8);
            assert_eq!(r, (h << 8) | l);
        }
    }
}
