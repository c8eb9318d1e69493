use mcp23x17::config::BANK;
use mcp23x17::config::DISSLW;
use mcp23x17::config::HAEN;
use mcp23x17::config::INTPOL;
use mcp23x17::config::MIRROR;
use mcp23x17::config::ODR;
use mcp23x17::config::SEQOP;
use mcp23x17::Config;

#[test]
fn flag_bit_positions() {
    assert_eq!(BANK, 0x80);
    assert_eq!(MIRROR, 0x40);
    assert_eq!(SEQOP, 0x20);
    assert_eq!(DISSLW, 0x10);
    assert_eq!(HAEN, 0x08);
    assert_eq!(ODR, 0x04);
    assert_eq!(INTPOL, 0x02);
}

#[test]
fn bits_round_trip() {
    assert_eq!(Config::from_bits(0xa5).bits(), 0xa5);
    assert_eq!(Config::empty().bits(), 0x00);
    assert_eq!(Config::from_bits(MIRROR | ODR), Config::from_bits(0x44));
}

#[test]
fn contains_checks_every_flag() {
    let c = Config::from_bits(MIRROR | ODR);
    assert!(c.contains(Config::from_bits(ODR)));
    assert!(c.contains(Config::from_bits(MIRROR | ODR)));
    assert!(!c.contains(Config::from_bits(HAEN)));
    assert!(!c.contains(Config::from_bits(MIRROR | INTPOL)));
    assert!(c.contains(Config::empty()));
}
