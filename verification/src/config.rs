//! The chip-wide configuration register and its named flags.

use vstd::prelude::*;

verus! {

/// If set, the chip interleaves the two ports' registers into one 16-bit
/// map. The driver's addressing assumes the split eight-bit layout, so
/// [`crate::Mcp23x17::set_config`] always clears this bit before writing.
pub const BANK: u8 = 0x80;

/// If set, the two interrupt output pins are internally connected.
pub const MIRROR: u8 = 0x40;

/// If set, the chip's address pointer increments automatically.
pub const SEQOP: u8 = 0x20;

/// If set, slew rate control on the data line is enabled.
pub const DISSLW: u8 = 0x10;

/// If set, the hardware address pins are used (relevant to the SPI variant).
pub const HAEN: u8 = 0x08;

/// If set, the interrupt outputs are open-drain.
pub const ODR: u8 = 0x04;

/// If set, the interrupt outputs are active-high.
pub const INTPOL: u8 = 0x02;

/// A set of configuration flags, backed by the raw byte the chip defines.
///
/// Bit 0 of the byte is unimplemented on the chip and carries no flag. The
/// view of a `Config` is its raw byte.
#[derive(Clone, Copy, Debug, PartialEq, Eq, Structural)]
pub struct Config {
    bits: u8,
}

impl View for Config {
    type V = u8;

    closed spec fn view(&self) -> u8 {
        self.bits
    }
}

/// The byte that actually reaches the chip when a `Config` is written: the
/// caller's flags with [`BANK`] forced clear.
pub open spec fn written_config(c: Config) -> u8 {
    c@ & !BANK
}

impl Config {
    /// A flag set with no flags raised.
    pub fn empty() -> (c: Config)
        ensures
            c@ == 0,
    {
        Config { bits: 0 }
    }

    /// The flag set whose raw byte is `bits`.
    pub fn from_bits(bits: u8) -> (c: Config)
        ensures
            c@ == bits,
    {
        Config { bits }
    }

    /// The raw byte, each flag at its chip-defined bit position.
    pub fn bits(&self) -> (r: u8)
        ensures
            r == self@,
    {
        self.bits
    }

    /// Whether every flag raised in `other` is also raised in `self`.
    pub fn contains(&self, other: Config) -> (r: bool)
        ensures
            r == ((self@ & other@) == other@),
    {
        (self.bits & other.bits) == other.bits
    }
}

/// Whatever flags a caller supplies, the byte that a configuration write
/// sends to the chip has the [`BANK`] bit cleared, so the chip stays in the
/// split eight-bit register layout the driver's addressing relies on.
pub proof fn lemma_written_config_clears_bank(c: Config)
    ensures
        written_config(c) & BANK == 0,
        written_config(c) == c@ & 0x7f,
{
    let b: u8 = c@;
    assert((b & !0x80u8) & 0x80u8 == 0) by (bit_vector);
    assert(b & !0x80u8 == b & 0x7fu8) by (bit_vector);
}

} // verus!
