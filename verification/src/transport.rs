//! The bus boundary of the driver: a minimal blocking transport contract.

use vstd::prelude::*;

verus! {

/// One bus transaction, as the driver's contracts record it.
///
/// The ghost history of a [`Transport`] is a sequence of these, so a caller
/// can state exactly which transactions an operation issued.
pub enum Transaction {
    /// A write of `bytes` to the device at the 7-bit `address`. `ok` records
    /// whether the transaction succeeded.
    Write { address: u8, bytes: Seq<u8>, ok: bool },
    /// A write of `bytes` to the device at `address`, followed by a one-byte
    /// read. `response` holds the byte on success and `None` when the
    /// transaction failed.
    WriteRead { address: u8, bytes: Seq<u8>, response: Option<u8> },
}

/// The recorded outcome of a one-byte read: the byte on success, `None` on
/// failure.
pub open spec fn response_of<E>(r: Result<u8, E>) -> Option<u8> {
    if r is Ok {
        Some(r->Ok_0)
    } else {
        None
    }
}

/// A blocking bus master that can reach the expander chip.
///
/// Implementations supply the two transactions the chip's serial protocol
/// needs. The `history` spec function is the ghost model of the bus: the
/// sequence of every transaction issued so far, oldest first. Each operation
/// appends exactly the transaction it performed, whether it succeeded or
/// failed, so driver contracts can promise both what reaches the chip and
/// that nothing else does.
pub trait Transport: Sized {
    /// The error a failed transaction surfaces. The driver returns it to its
    /// caller unchanged.
    type Error;

    /// Every transaction issued through this transport so far, oldest first.
    ///
    /// A verified implementation overrides this with its own model. The
    /// default, an empty history, is for transports written outside the
    /// verified world, which nothing here reasons about.
    open spec fn history(&self) -> Seq<Transaction> {
        Seq::empty()
    }

    /// How one transaction may change this transport's state: a two-state
    /// predicate relating the state before, the state after, and the
    /// recorded transaction. A verified implementation overrides it with its
    /// own model — what a write stores, what a read answers — and every
    /// driver operation passes the relation on to its caller, so facts about
    /// the transport's state survive a sequence of calls. The default keeps
    /// nothing, for transports written outside the verified world.
    open spec fn step(&self, post: Self, t: Transaction) -> bool {
        true
    }

    /// Write `bytes` to the device at the 7-bit `address`. The recorded
    /// transaction's `ok` is the outcome, so a caller's result is pinned to
    /// whether the bus write succeeded.
    fn write(&mut self, address: u8, bytes: &[u8]) -> (r: Result<(), Self::Error>)
        ensures
            final(self).history() == old(self).history().push(
                (Transaction::Write { address, bytes: bytes@, ok: r is Ok }),
            ),
            old(self).step(*final(self), (Transaction::Write {
                address,
                bytes: bytes@,
                ok: r is Ok,
            })),
    ;

    /// Write `bytes` to the device at `address`, then read one byte back.
    fn write_read(&mut self, address: u8, bytes: &[u8]) -> (r: Result<u8, Self::Error>)
        ensures
            final(self).history() == old(self).history().push(
                (Transaction::WriteRead { address, bytes: bytes@, response: response_of(r) }),
            ),
            old(self).step(*final(self), (Transaction::WriteRead {
                address,
                bytes: bytes@,
                response: response_of(r),
            })),
    ;
}

} // verus!
