//! Proved laws of the driver's transaction layer: how bank selection
//! shapes the transaction log, and that the 16-bit register assembly is
//! exact.

use crate::accel::registers::RegisterBank;
use crate::bank_select_txn;
use crate::bus::Transaction;
use crate::select_log;
use crate::spec_assemble_u16;
use crate::spec_init_pwr_value;
use crate::CLKSEL_AUTO_MASK;
use crate::TEMP_DIS_BIT;
use vstd::prelude::*;

verus! {

/// Selecting a bank not currently cached and then selecting the same bank
/// again extends the transaction log by exactly one bank-select write:
/// the repeated selection is a no-op.
pub proof fn lemma_repeated_selection_writes_once(
    log: Seq<Transaction>,
    addr: u8,
    cached: RegisterBank,
    target: RegisterBank,
)
    requires
        cached != target,
    ensures
        ({
            let after_first = select_log(log, addr, cached, target);
            let after_second = select_log(after_first, addr, target, target);
            after_second == log.push(bank_select_txn(addr, target)) && after_second.len() == log.len()
                + 1
        }),
{
}

/// Selecting a bank not currently cached and then a different bank
/// extends the transaction log by exactly two bank-select writes, the
/// second carrying the select value of the bank selected last.
pub proof fn lemma_switching_selection_writes_twice(
    log: Seq<Transaction>,
    addr: u8,
    cached: RegisterBank,
    first: RegisterBank,
    second: RegisterBank,
)
    requires
        cached != first,
        first != second,
    ensures
        ({
            let after_first = select_log(log, addr, cached, first);
            let after_second = select_log(after_first, addr, first, second);
            after_second == log.push(bank_select_txn(addr, first)).push(
                bank_select_txn(addr, second),
            ) && after_second.len() == log.len() + 2 && after_second.last() == bank_select_txn(
                addr,
                second,
            )
        }),
{
}

/// Splitting any 16-bit value into its high and low bytes and assembling
/// them again reproduces the value exactly.
pub proof fn lemma_assemble_round_trip(v: u16)
    ensures
        spec_assemble_u16((v >> 8) as u8, v as u8) == v,
{
    assert(((((((v >> 8) as u8) as u16) << 8) | ((v as u8) as u16)) as u16) == v) by (bit_vector);
}

/// Assembly places each byte in its own half: the high byte lands in the
/// upper eight bits, the low byte in the lower eight, and the value is
/// `high * 256 + low`.
pub proof fn lemma_assemble_halves(high: u8, low: u8)
    ensures
        spec_assemble_u16(high, low) >> 8 == high,
        spec_assemble_u16(high, low) & 0xFF == low,
        spec_assemble_u16(high, low) == high * 256 + low,
{
    assert(((((high as u16) << 8) | (low as u16)) as u16) >> 8 == high) by (bit_vector);
    assert(((((high as u16) << 8) | (low as u16)) as u16) & 0xFF == low) by (bit_vector);
    assert(((((high as u16) << 8) | (low as u16)) as u16) == high * 256 + low) by (bit_vector);
}

/// Whatever the power-management register read, the value `init` writes
/// back has the disable-temperature bit cleared and carries at most the
/// auto clock-select bit.
pub proof fn lemma_init_value_bits(raw: u8)
    ensures
        spec_init_pwr_value(raw) & TEMP_DIS_BIT == 0,
        spec_init_pwr_value(raw) == 0 || spec_init_pwr_value(raw) == CLKSEL_AUTO_MASK,
{
    assert(((raw & !0x08u8) & 0x01u8) & 0x08u8 == 0) by (bit_vector);
    assert(((raw & !0x08u8) & 0x01u8) == 0 || ((raw & !0x08u8) & 0x01u8) == 0x01) by (bit_vector);
}

} // verus!
