//! The bus abstraction the driver is built on, together with a ghost
//! model of bus traffic.
//!
//! A bus implementation must support a write-only transaction and a
//! combined write-then-read transaction, both addressed to a 7-bit target
//! address. The ghost transaction log records every completed transaction,
//! so the driver's contracts can state exactly which bytes each operation
//! puts on the wire.

use vstd::prelude::*;

verus! {

/// One completed bus transaction, as the ghost log records it.
pub enum Transaction {
    /// A write-only transaction: `data` sent to the device at `addr`.
    Write { addr: u8, data: Seq<u8> },
    /// A combined write-then-read transaction: `data` sent to the device
    /// at `addr`, then `response` read back from it.
    WriteRead { addr: u8, data: Seq<u8>, response: Seq<u8> },
}

/// A blocking two-wire bus.
///
/// The driver is generic over this trait; the physical transport is an
/// external collaborator supplied by the caller. An implementation's
/// ghost log must grow by exactly the transaction performed when an
/// operation succeeds, and must not grow when it fails.
pub trait I2cBus {
    /// The transport's error kind, propagated opaquely by the driver.
    type BusError;

    /// The ghost log of every transaction completed so far. The default
    /// stands for a transport that records nothing; an implementation
    /// verified against this trait overrides it with its own model.
    open spec fn log(&self) -> Seq<Transaction> {
        Seq::empty()
    }

    /// Performs a write-only transaction: sends `bytes` to the device at
    /// `addr`, blocking until the bus completes or fails.
    fn bus_write(&mut self, addr: u8, bytes: &Vec<u8>) -> (r: Result<(), Self::BusError>)
        ensures
            r is Ok ==> final (self).log() == old(self).log().push(
                Transaction::Write { addr, data: bytes@ },
            ),
            r is Err ==> final (self).log() == old(self).log(),
    ;

    /// Performs a combined write-then-read transaction: sends `bytes` to
    /// the device at `addr`, then reads exactly `read_len` bytes back.
    fn bus_write_read(&mut self, addr: u8, bytes: &Vec<u8>, read_len: usize) -> (r: Result<
        Vec<u8>,
        Self::BusError,
    >)
        ensures
            r matches Ok(response) ==> response@.len() == read_len && final (self).log() == old(
                self,
            ).log().push(
                Transaction::WriteRead { addr, data: bytes@, response: response@ },
            ),
            r is Err ==> final (self).log() == old(self).log(),
    ;
}

} // verus!
