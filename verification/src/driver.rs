//! The register driver: typed operations over the expander's register map.

use vstd::prelude::*;

use crate::config::written_config;
use crate::config::Config;
use crate::config::BANK;
use crate::transport::response_of;
use crate::transport::Transaction;
use crate::transport::Transport;

verus! {

/// I/O direction. A bit of 1 makes the pin an input; the chip default is 0xff.
pub const REG_IODIR: u8 = 0x00;

/// Input polarity inversion. A bit of 1 inverts the read logic level.
pub const REG_IPOL: u8 = 0x01;

/// Interrupt on change. A bit of 1 enables the interrupt for that pin.
pub const REG_GPINTEN: u8 = 0x02;

/// Comparison value for interrupts in compare mode.
pub const REG_DEFVAL: u8 = 0x03;

/// Interrupt-on-change control: compare against DEFVAL, or fire on any change.
pub const REG_INTCON: u8 = 0x04;

/// Chip-wide configuration flags.
pub const REG_CONFIG: u8 = 0x05;

/// Internal 100 kOhm pull-up resistors. A bit of 1 enables the pull-up.
pub const REG_GPPU: u8 = 0x06;

/// Interrupt flags: which pin caused the pending interrupt. Read-only.
pub const REG_INTF: u8 = 0x07;

/// Port value captured at the moment of the interrupt. Read-only.
pub const REG_INTCAP: u8 = 0x08;

/// General-purpose I/O value. A bit of 1 is a high level.
pub const REG_GPIO: u8 = 0x09;

/// Output latch: the values previously written to the port.
pub const REG_OLAT: u8 = 0x0A;

/// The device's 7-bit bus address.
pub const ADDRESS: u8 = 0x20;

/// Which of the chip's two eight-bit ports an operation addresses.
///
/// The selection lives on the host side only: the driver re-applies it to
/// every access through the address computation, and the chip itself holds no
/// record of it.
#[derive(Clone, Copy, Debug, PartialEq, Eq, Structural)]
pub enum Port {
    /// Port A, whose registers sit at their base offsets.
    A,
    /// Port B, whose registers sit at the base offsets with 0x10 or-ed in.
    B,
}

/// The physical address of `register` on `port`: the offset itself for port
/// A, the offset with 0x10 or-ed in for port B.
pub open spec fn port_address(port: Port, register: u8) -> u8 {
    match port {
        Port::A => register,
        Port::B => register | 0x10,
    }
}

/// The one transaction a setter issues: a write of `[address, value]`,
/// with `ok` recording whether the bus accepted it.
pub open spec fn write_txn(port: Port, register: u8, value: u8, ok: bool) -> Transaction {
    Transaction::Write {
        address: ADDRESS,
        bytes: seq![port_address(port, register), value],
        ok,
    }
}

/// The one transaction a getter issues: a write of `[address]` followed by a
/// one-byte read.
pub open spec fn read_txn(port: Port, register: u8, response: Option<u8>) -> Transaction {
    Transaction::WriteRead {
        address: ADDRESS,
        bytes: seq![port_address(port, register)],
        response,
    }
}

/// On every register offset the chip defines, port A uses the offset itself
/// and port B the offset with 0x10 or-ed in — which, because no offset
/// exceeds [`REG_OLAT`], is exactly 0x10 higher.
pub proof fn lemma_port_address(register: u8)
    requires
        register <= REG_OLAT,
    ensures
        port_address(Port::A, register) == register,
        port_address(Port::B, register) == register | 0x10,
        port_address(Port::B, register) == port_address(Port::A, register) + 0x10,
{
    assert((register | 0x10) == register + 0x10) by (bit_vector)
        requires
            register <= 0x0au8,
    ;
}

/// The sixteen-bit GPIO expander: owns its transport and the selected port.
pub struct Mcp23x17<I2C: Transport> {
    i2c: I2C,
    active_port: Port,
}

impl<I2C: Transport> Mcp23x17<I2C> {
    /// The transport, as ghost state.
    pub closed spec fn bus(&self) -> I2C {
        self.i2c
    }

    /// Every bus transaction this driver has issued, oldest first.
    pub open spec fn transactions(&self) -> Seq<Transaction> {
        self.bus().history()
    }

    /// The currently selected port.
    pub closed spec fn port(&self) -> Port {
        self.active_port
    }

    /// Create a new instance of the GPIO expander over `i2c`, with port A
    /// selected. Performs no bus traffic and cannot itself fail.
    pub fn new(i2c: I2C) -> (r: Result<Self, I2C::Error>)
        ensures
            r is Ok,
            r->Ok_0.port() == Port::A,
            r->Ok_0.bus() == i2c,
    {
        Ok(Mcp23x17 { i2c, active_port: Port::A })
    }

    /// Borrow the transport, for inspection.
    pub fn transport(&self) -> (t: &I2C)
        ensures
            *t == self.bus(),
    {
        &self.i2c
    }

    /// Borrow the transport mutably, leaving the selected port as it is.
    pub fn transport_mut(&mut self) -> (t: &mut I2C)
        ensures
            *t == old(self).bus(),
            final(self).bus() == *final(t),
            final(self).port() == old(self).port(),
    {
        &mut self.i2c
    }

    /// The physical address of `register` on the selected port.
    fn get_port(&self, register: u8) -> (r: u8)
        ensures
            r == port_address(self.port(), register),
    {
        match self.active_port {
            Port::A => register,
            Port::B => register | 0x10,
        }
    }

    /// Write `data` to `register` on the selected port: one bus write of
    /// `[address, data]`.
    fn set_thing(&mut self, register: u8, data: u8) -> (r: Result<(), I2C::Error>)
        ensures
            final(self).port() == old(self).port(),
            final(self).transactions() == old(self).transactions().push(
                write_txn(old(self).port(), register, data, r is Ok),
            ),
            old(self).bus().step(final(self).bus(), write_txn(old(self).port(), register, data, r is Ok)),
    {
        let reg = self.get_port(register);
        let mut bytes: Vec<u8> = Vec::new();
        bytes.push(reg);
        bytes.push(data);
        proof {
            assert(bytes@ =~= seq![reg, data]);
        }
        self.i2c.write(ADDRESS, bytes.as_slice())
    }

    /// Read `register` on the selected port: one bus write of `[address]`
    /// followed by a one-byte read.
    fn get_thing(&mut self, register: u8) -> (r: Result<u8, I2C::Error>)
        ensures
            final(self).port() == old(self).port(),
            final(self).transactions() == old(self).transactions().push(
                read_txn(old(self).port(), register, response_of(r)),
            ),
            old(self).bus().step(final(self).bus(), read_txn(old(self).port(), register, response_of(r))),
    {
        let reg = self.get_port(register);
        let mut bytes: Vec<u8> = Vec::new();
        bytes.push(reg);
        proof {
            assert(bytes@ =~= seq![reg]);
        }
        self.i2c.write_read(ADDRESS, bytes.as_slice())
    }

    /// Select which port later operations address. In-memory only: the
    /// transport is untouched and no transaction is issued.
    pub fn select_port(&mut self, port: Port)
        ensures
            final(self).port() == port,
            final(self).bus() == old(self).bus(),
            final(self).transactions() == old(self).transactions(),
    {
        self.active_port = port;
    }

    /// Set the I/O direction for the selected port. A bit of 1 makes the pin
    /// an input, 0 an output.
    pub fn set_direction(&mut self, data: u8) -> (r: Result<(), I2C::Error>)
        ensures
            final(self).port() == old(self).port(),
            final(self).transactions() == old(self).transactions().push(
                write_txn(old(self).port(), REG_IODIR, data, r is Ok),
            ),
            old(self).bus().step(final(self).bus(), write_txn(old(self).port(), REG_IODIR, data, r is Ok)),
    {
        self.set_thing(REG_IODIR, data)
    }

    /// Get the I/O direction for the selected port.
    pub fn direction(&mut self) -> (r: Result<u8, I2C::Error>)
        ensures
            final(self).port() == old(self).port(),
            final(self).transactions() == old(self).transactions().push(
                read_txn(old(self).port(), REG_IODIR, response_of(r)),
            ),
            old(self).bus().step(final(self).bus(), read_txn(old(self).port(), REG_IODIR, response_of(r))),
    {
        self.get_thing(REG_IODIR)
    }

    /// Write the configuration register. Because the driver's addressing
    /// relies on the split eight-bit register layout, the [`BANK`] flag is
    /// forced clear in the written byte, whatever `data` holds.
    pub fn set_config(&mut self, data: Config) -> (r: Result<(), I2C::Error>)
        ensures
            final(self).port() == old(self).port(),
            final(self).transactions() == old(self).transactions().push(
                write_txn(old(self).port(), REG_CONFIG, written_config(data), r is Ok),
            ),
            old(self).bus().step(final(self).bus(), write_txn(old(self).port(), REG_CONFIG, written_config(data), r is Ok)),
    {
        let masked = data.bits() & !BANK;
        self.set_thing(REG_CONFIG, masked)
    }

    /// Read the configuration register as its raw byte.
    pub fn config(&mut self) -> (r: Result<u8, I2C::Error>)
        ensures
            final(self).port() == old(self).port(),
            final(self).transactions() == old(self).transactions().push(
                read_txn(old(self).port(), REG_CONFIG, response_of(r)),
            ),
            old(self).bus().step(final(self).bus(), read_txn(old(self).port(), REG_CONFIG, response_of(r))),
    {
        self.get_thing(REG_CONFIG)
    }

    /// Set the pull-ups for the selected port. A bit of 1 enables the
    /// internal 100 kOhm pull-up.
    pub fn set_pullups(&mut self, data: u8) -> (r: Result<(), I2C::Error>)
        ensures
            final(self).port() == old(self).port(),
            final(self).transactions() == old(self).transactions().push(
                write_txn(old(self).port(), REG_GPPU, data, r is Ok),
            ),
            old(self).bus().step(final(self).bus(), write_txn(old(self).port(), REG_GPPU, data, r is Ok)),
    {
        self.set_thing(REG_GPPU, data)
    }

    /// Get the pull-ups for the selected port.
    pub fn pullups(&mut self) -> (r: Result<u8, I2C::Error>)
        ensures
            final(self).port() == old(self).port(),
            final(self).transactions() == old(self).transactions().push(
                read_txn(old(self).port(), REG_GPPU, response_of(r)),
            ),
            old(self).bus().step(final(self).bus(), read_txn(old(self).port(), REG_GPPU, response_of(r))),
    {
        self.get_thing(REG_GPPU)
    }

    /// Read the interrupt flags: each pin that caused a pending interrupt has
    /// its bit set. The chip resets the value after a read of the port data
    /// or of the captured value.
    pub fn who_interrupted(&mut self) -> (r: Result<u8, I2C::Error>)
        ensures
            final(self).port() == old(self).port(),
            final(self).transactions() == old(self).transactions().push(
                read_txn(old(self).port(), REG_INTF, response_of(r)),
            ),
            old(self).bus().step(final(self).bus(), read_txn(old(self).port(), REG_INTF, response_of(r))),
    {
        self.get_thing(REG_INTF)
    }

    /// Read the port value captured at the moment of the interrupt. The chip
    /// keeps it latched until the next interrupt fires; reading it releases
    /// the interrupt output pin but leaves the captured value in place.
    pub fn data_at_interrupt(&mut self) -> (r: Result<u8, I2C::Error>)
        ensures
            final(self).port() == old(self).port(),
            final(self).transactions() == old(self).transactions().push(
                read_txn(old(self).port(), REG_INTCAP, response_of(r)),
            ),
            old(self).bus().step(final(self).bus(), read_txn(old(self).port(), REG_INTCAP, response_of(r))),
    {
        self.get_thing(REG_INTCAP)
    }

    /// Set the comparison value for interrupts: in compare mode the interrupt
    /// fires when the input differs from this value.
    pub fn set_int_compare(&mut self, data: u8) -> (r: Result<(), I2C::Error>)
        ensures
            final(self).port() == old(self).port(),
            final(self).transactions() == old(self).transactions().push(
                write_txn(old(self).port(), REG_DEFVAL, data, r is Ok),
            ),
            old(self).bus().step(final(self).bus(), write_txn(old(self).port(), REG_DEFVAL, data, r is Ok)),
    {
        self.set_thing(REG_DEFVAL, data)
    }

    /// Read the interrupt comparison value.
    pub fn int_compare(&mut self) -> (r: Result<u8, I2C::Error>)
        ensures
            final(self).port() == old(self).port(),
            final(self).transactions() == old(self).transactions().push(
                read_txn(old(self).port(), REG_DEFVAL, response_of(r)),
            ),
            old(self).bus().step(final(self).bus(), read_txn(old(self).port(), REG_DEFVAL, response_of(r))),
    {
        self.get_thing(REG_DEFVAL)
    }

    /// Choose how interrupts fire: a set bit compares the input against the
    /// comparison value, a clear bit fires on any change of the pin.
    pub fn set_int_control(&mut self, data: u8) -> (r: Result<(), I2C::Error>)
        ensures
            final(self).port() == old(self).port(),
            final(self).transactions() == old(self).transactions().push(
                write_txn(old(self).port(), REG_INTCON, data, r is Ok),
            ),
            old(self).bus().step(final(self).bus(), write_txn(old(self).port(), REG_INTCON, data, r is Ok)),
    {
        self.set_thing(REG_INTCON, data)
    }

    /// Read how interrupts fire.
    pub fn int_control(&mut self) -> (r: Result<u8, I2C::Error>)
        ensures
            final(self).port() == old(self).port(),
            final(self).transactions() == old(self).transactions().push(
                read_txn(old(self).port(), REG_INTCON, response_of(r)),
            ),
            old(self).bus().step(final(self).bus(), read_txn(old(self).port(), REG_INTCON, response_of(r))),
    {
        self.get_thing(REG_INTCON)
    }

    /// Enable interrupts: a change on a pin whose bit is set triggers an
    /// interrupt, together with the compare value and control settings.
    pub fn set_interrupt(&mut self, data: u8) -> (r: Result<(), I2C::Error>)
        ensures
            final(self).port() == old(self).port(),
            final(self).transactions() == old(self).transactions().push(
                write_txn(old(self).port(), REG_GPINTEN, data, r is Ok),
            ),
            old(self).bus().step(final(self).bus(), write_txn(old(self).port(), REG_GPINTEN, data, r is Ok)),
    {
        self.set_thing(REG_GPINTEN, data)
    }

    /// Read which pins have interrupts enabled.
    pub fn interrupt(&mut self) -> (r: Result<u8, I2C::Error>)
        ensures
            final(self).port() == old(self).port(),
            final(self).transactions() == old(self).transactions().push(
                read_txn(old(self).port(), REG_GPINTEN, response_of(r)),
            ),
            old(self).bus().step(final(self).bus(), read_txn(old(self).port(), REG_GPINTEN, response_of(r))),
    {
        self.get_thing(REG_GPINTEN)
    }

    /// Read the output latches: the values previously set on the port.
    pub fn latches(&mut self) -> (r: Result<u8, I2C::Error>)
        ensures
            final(self).port() == old(self).port(),
            final(self).transactions() == old(self).transactions().push(
                read_txn(old(self).port(), REG_OLAT, response_of(r)),
            ),
            old(self).bus().step(final(self).bus(), read_txn(old(self).port(), REG_OLAT, response_of(r))),
    {
        self.get_thing(REG_OLAT)
    }

    /// Set the input polarity for the selected port. A bit of 1 inverts the
    /// value read from that pin.
    pub fn set_polarity(&mut self, data: u8) -> (r: Result<(), I2C::Error>)
        ensures
            final(self).port() == old(self).port(),
            final(self).transactions() == old(self).transactions().push(
                write_txn(old(self).port(), REG_IPOL, data, r is Ok),
            ),
            old(self).bus().step(final(self).bus(), write_txn(old(self).port(), REG_IPOL, data, r is Ok)),
    {
        self.set_thing(REG_IPOL, data)
    }

    /// Read the input polarity for the selected port.
    pub fn polarity(&mut self) -> (r: Result<u8, I2C::Error>)
        ensures
            final(self).port() == old(self).port(),
            final(self).transactions() == old(self).transactions().push(
                read_txn(old(self).port(), REG_IPOL, response_of(r)),
            ),
            old(self).bus().step(final(self).bus(), read_txn(old(self).port(), REG_IPOL, response_of(r))),
    {
        self.get_thing(REG_IPOL)
    }

    /// Set the data for the selected port: the driven level of each output
    /// pin.
    pub fn set_data(&mut self, data: u8) -> (r: Result<(), I2C::Error>)
        ensures
            final(self).port() == old(self).port(),
            final(self).transactions() == old(self).transactions().push(
                write_txn(old(self).port(), REG_GPIO, data, r is Ok),
            ),
            old(self).bus().step(final(self).bus(), write_txn(old(self).port(), REG_GPIO, data, r is Ok)),
    {
        self.set_thing(REG_GPIO, data)
    }

    /// Read the data for the selected port: the sensed level of each pin,
    /// after polarity. As a side effect of the chip hardware, this read also
    /// clears the interrupt flags for the port.
    pub fn data(&mut self) -> (r: Result<u8, I2C::Error>)
        ensures
            final(self).port() == old(self).port(),
            final(self).transactions() == old(self).transactions().push(
                read_txn(old(self).port(), REG_GPIO, response_of(r)),
            ),
            old(self).bus().step(final(self).bus(), read_txn(old(self).port(), REG_GPIO, response_of(r))),
    {
        self.get_thing(REG_GPIO)
    }
}

} // verus!
