//! A deterministic in-memory transport for tests: a simulated chip with a
//! register file, a transaction log, and switchable failure injection.

use vstd::prelude::*;

use crate::driver::REG_GPIO;
use crate::driver::REG_INTCAP;
use crate::driver::REG_INTF;
use crate::driver::REG_OLAT;
use crate::transport::Transaction;
use crate::transport::Transport;
use vstd::slice::slice_to_vec;

verus! {

/// The number of register cells the simulated chip holds: both ports' maps,
/// addressed 0x00 through 0x1F.
pub const REG_SPACE: usize = 32;

/// The error a failing [`MockChip`] returns from every transaction.
#[derive(Clone, Copy, Debug, PartialEq, Eq, Structural)]
pub struct MockError;

/// One recorded bus transaction, as executable data a test can inspect. Its
/// view is the [`Transaction`] it stands for.
#[derive(Debug, PartialEq, Eq)]
pub enum BusEvent {
    /// A write of `bytes` to the device at `address` that succeeded iff `ok`.
    Write { address: u8, bytes: Vec<u8>, ok: bool },
    /// A write of `bytes` to `address` followed by a one-byte read that
    /// returned `response`, or `None` if the transaction failed.
    WriteRead { address: u8, bytes: Vec<u8>, response: Option<u8> },
}

impl View for BusEvent {
    type V = Transaction;

    open spec fn view(&self) -> Transaction {
        match self {
            BusEvent::Write { address, bytes, ok } => Transaction::Write {
                address: *address,
                bytes: bytes@,
                ok: *ok,
            },
            BusEvent::WriteRead { address, bytes, response } => Transaction::WriteRead {
                address: *address,
                bytes: bytes@,
                response: *response,
            },
        }
    }
}

/// The transactions a sequence of recorded events stands for.
pub open spec fn events_view(events: Seq<BusEvent>) -> Seq<Transaction> {
    events.map_values(|e: BusEvent| e@)
}

proof fn lemma_events_view_push(events: Seq<BusEvent>, e: BusEvent)
    ensures
        events_view(events.push(e)) == events_view(events).push(e@),
{
    assert(events_view(events.push(e)) =~= events_view(events).push(e@));
}

/// The register file after a write transaction of `bytes` on a chip whose
/// failure injection is `failing`: a successful two-byte `[register, value]`
/// write to an in-range register stores the value — and, when the register is
/// a port's data register, mirrors it into that port's output latch, as the
/// chip drives outputs from the latch. Anything else leaves the file as it is.
pub open spec fn regs_after_write(regs: Seq<u8>, failing: bool, bytes: Seq<u8>) -> Seq<u8> {
    if failing || bytes.len() != 2 || (bytes[0] as int) >= regs.len() {
        regs
    } else if bytes[0] & 0x0f == REG_GPIO && (((bytes[0] & 0x10) | REG_OLAT) as int) < regs.len() {
        regs.update(bytes[0] as int, bytes[1]).update(((bytes[0] & 0x10) | REG_OLAT) as int, bytes[1])
    } else {
        regs.update(bytes[0] as int, bytes[1])
    }
}

/// The byte a read transaction of `bytes` answers: the addressed cell for a
/// one-byte in-range request, zero for anything else.
pub open spec fn read_response(regs: Seq<u8>, bytes: Seq<u8>) -> u8 {
    if bytes.len() == 1 && (bytes[0] as int) < regs.len() {
        regs[bytes[0] as int]
    } else {
        0u8
    }
}

/// The register file after a successful read transaction of `bytes`: reading
/// a port's data or captured-at-interrupt register clears that port's
/// interrupt flags, as the chip hardware does; every other read leaves the
/// file as it is.
pub open spec fn regs_after_read(regs: Seq<u8>, failing: bool, bytes: Seq<u8>) -> Seq<u8> {
    if !failing && bytes.len() == 1 && (bytes[0] as int) < regs.len()
        && (bytes[0] & 0x0f == REG_GPIO || bytes[0] & 0x0f == REG_INTCAP)
        && (((bytes[0] & 0x10) | REG_INTF) as int) < regs.len() {
        regs.update(((bytes[0] & 0x10) | REG_INTF) as int, 0u8)
    } else {
        regs
    }
}

/// Writing a register cell and then reading it back returns the written
/// value, whatever the file held before: the chip model's round trip.
pub proof fn lemma_round_trip(regs: Seq<u8>, reg: u8, value: u8)
    requires
        (reg as int) < regs.len(),
    ensures
        read_response(regs_after_write(regs, false, seq![reg, value]), seq![reg]) == value,
{
    assert(reg & 0x0f == REG_GPIO ==> ((reg & 0x10) | REG_OLAT) != reg) by (bit_vector);
}

/// A write addressed to one port never changes the other port's cells: every
/// cell a write touches — the addressed one, and the mirrored output latch —
/// carries the written address's port bit.
pub proof fn lemma_port_isolation(regs: Seq<u8>, bytes: Seq<u8>, other: u8)
    requires
        (other as int) < regs.len(),
        bytes.len() == 2 ==> (other & 0x10) != (bytes[0] & 0x10),
    ensures
        regs_after_write(regs, false, bytes)[other as int] == regs[other as int],
{
    if bytes.len() == 2 && (bytes[0] as int) < regs.len() {
        let reg = bytes[0];
        assert(((reg & 0x10) | REG_OLAT) & 0x10 == reg & 0x10) by (bit_vector);
    }
}

/// The register file of a freshly powered chip: both ports' direction
/// registers at 0xff (all pins inputs), everything else at zero.
pub open spec fn power_on_regs() -> Seq<u8> {
    Seq::new(REG_SPACE as nat, |i: int| if i == 0x00 || i == 0x10 { 0xffu8 } else { 0u8 })
}

/// A simulated chip behind the [`Transport`] contract.
///
/// A two-byte write `[register, value]` stores `value` in the addressed
/// register cell; a one-byte write `[register]` followed by a read answers
/// with the cell's value. As on the real chip, reading a port's data or
/// captured-at-interrupt register clears that port's interrupt flags. Every
/// transaction, failed or not, is recorded in an inspectable log, and the
/// chip can be told to fail all traffic.
pub struct MockChip {
    regs: Vec<u8>,
    log: Vec<BusEvent>,
    fail: bool,
}

impl MockChip {
    /// The simulated register file, indexed by physical address.
    pub closed spec fn regs(&self) -> Seq<u8> {
        self.regs@
    }

    /// Whether every transaction is currently made to fail.
    pub closed spec fn failing(&self) -> bool {
        self.fail
    }

    /// A freshly powered chip: register file at its power-on values, an
    /// empty log, and failure injection off.
    pub fn new() -> (c: MockChip)
        ensures
            c.regs() == power_on_regs(),
            !c.failing(),
            c.history() == Seq::<Transaction>::empty(),
    {
        let mut regs: Vec<u8> = Vec::new();
        let mut i: usize = 0;
        while i < REG_SPACE
            invariant
                i <= REG_SPACE,
                regs@.len() == i,
                forall|j: int| 0 <= j < i ==> regs@[j] == power_on_regs()[j],
            decreases REG_SPACE - i,
        {
            if i == 0x00 || i == 0x10 {
                regs.push(0xff);
            } else {
                regs.push(0x00);
            }
            i += 1;
        }
        proof {
            assert(regs@ =~= power_on_regs());
            assert(events_view(Seq::<BusEvent>::empty()) =~= Seq::<Transaction>::empty());
        }
        MockChip { regs, log: Vec::new(), fail: false }
    }

    /// Switch failure injection on or off. Later transactions fail with
    /// [`MockError`] while it is on; the register file is untouched.
    pub fn set_fail(&mut self, fail: bool)
        ensures
            final(self).failing() == fail,
            final(self).regs() == old(self).regs(),
            final(self).history() == old(self).history(),
    {
        self.fail = fail;
    }

    /// Read one register cell directly, without a bus transaction. Addresses
    /// outside the register file read as zero.
    pub fn peek(&self, address: u8) -> (r: u8)
        ensures
            r == if (address as int) < self.regs().len() {
                self.regs()[address as int]
            } else {
                0u8
            },
    {
        let i = address as usize;
        if i < self.regs.len() {
            self.regs[i]
        } else {
            0
        }
    }

    /// Overwrite one register cell directly, without a bus transaction — as
    /// the hardware itself would on an external event, such as a pin change
    /// latching the interrupt registers. Addresses outside the register file
    /// are ignored.
    pub fn poke(&mut self, address: u8, value: u8)
        ensures
            final(self).failing() == old(self).failing(),
            final(self).history() == old(self).history(),
            final(self).regs() == if (address as int) < old(self).regs().len() {
                old(self).regs().update(address as int, value)
            } else {
                old(self).regs()
            },
    {
        let i = address as usize;
        if i < self.regs.len() {
            self.regs[i] = value;
        }
    }

    /// The log of every transaction issued so far, oldest first. Its view is
    /// the transport's ghost history.
    pub fn log(&self) -> (l: &Vec<BusEvent>)
        ensures
            events_view(l@) == self.history(),
    {
        &self.log
    }
}

impl Transport for MockChip {
    type Error = MockError;

    closed spec fn history(&self) -> Seq<Transaction> {
        events_view(self.log@)
    }

    /// The chip model, per transaction: failure injection is never changed
    /// by bus traffic, a transaction succeeds exactly when injection is off,
    /// the register file evolves by [`regs_after_write`] / [`regs_after_read`],
    /// and a successful read answers [`read_response`] of the old file.
    open spec fn step(&self, post: Self, t: Transaction) -> bool {
        match t {
            Transaction::Write { address: _, bytes, ok } => {
                &&& post.failing() == self.failing()
                &&& ok == !self.failing()
                &&& post.regs() == regs_after_write(self.regs(), self.failing(), bytes)
            },
            Transaction::WriteRead { address: _, bytes, response } => {
                &&& post.failing() == self.failing()
                &&& (response is Some <==> !self.failing())
                &&& post.regs() == regs_after_read(self.regs(), self.failing(), bytes)
                &&& (response is Some ==> response->0 == read_response(self.regs(), bytes))
            },
        }
    }

    fn write(&mut self, address: u8, bytes: &[u8]) -> (r: Result<(), MockError>)
        ensures
            final(self).failing() == old(self).failing(),
            r is Ok <==> !old(self).failing(),
            final(self).regs() == regs_after_write(old(self).regs(), old(self).failing(), bytes@),
    {
        let recorded = slice_to_vec(bytes);
        let failing = self.fail;
        if !failing && bytes.len() == 2 {
            let reg = bytes[0] as usize;
            if reg < self.regs.len() {
                self.regs[reg] = bytes[1];
                let offset = bytes[0] & 0x0f;
                if offset == REG_GPIO {
                    let olat = ((bytes[0] & 0x10) | REG_OLAT) as usize;
                    if olat < self.regs.len() {
                        self.regs[olat] = bytes[1];
                    }
                }
            }
        }
        let ghost pre = self.log@;
        let event = BusEvent::Write { address, bytes: recorded, ok: !failing };
        proof {
            lemma_events_view_push(pre, event);
        }
        self.log.push(event);
        if failing {
            Err(MockError)
        } else {
            Ok(())
        }
    }

    fn write_read(&mut self, address: u8, bytes: &[u8]) -> (r: Result<u8, MockError>)
        ensures
            final(self).failing() == old(self).failing(),
            r is Ok <==> !old(self).failing(),
            final(self).regs() == regs_after_read(old(self).regs(), old(self).failing(), bytes@),
            r is Ok ==> r->Ok_0 == read_response(old(self).regs(), bytes@),
    {
        let recorded = slice_to_vec(bytes);
        if self.fail {
            let ghost pre = self.log@;
            let event = BusEvent::WriteRead { address, bytes: recorded, response: None };
            proof {
                lemma_events_view_push(pre, event);
            }
            self.log.push(event);
            return Err(MockError);
        }
        let mut response: u8 = 0;
        if bytes.len() == 1 {
            let reg = bytes[0] as usize;
            if reg < self.regs.len() {
                response = self.regs[reg];
                let offset = bytes[0] & 0x0f;
                if offset == REG_GPIO || offset == REG_INTCAP {
                    let intf = ((bytes[0] & 0x10) | REG_INTF) as usize;
                    if intf < self.regs.len() {
                        self.regs[intf] = 0;
                    }
                }
            }
        }
        let ghost pre = self.log@;
        let event = BusEvent::WriteRead { address, bytes: recorded, response: Some(response) };
        proof {
            lemma_events_view_push(pre, event);
        }
        self.log.push(event);
        Ok(response)
    }
}

} // verus!
