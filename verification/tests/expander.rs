use mcp23x17::BusEvent;
use mcp23x17::Config;
use mcp23x17::MockChip;
use mcp23x17::MockError;
use mcp23x17::Mcp23x17;
use mcp23x17::Port;

#[test]
fn it_works() {
    assert_eq!(2 + 2, 4);
}

fn fresh() -> Mcp23x17<MockChip> {
    Mcp23x17::new(MockChip::new()).unwrap()
}

#[test]
fn select_port_issues_no_transaction() {
    let mut chip = MockChip::new();
    chip.set_fail(true);
    let mut exp = Mcp23x17::new(chip).unwrap();
    let mut i: usize = 0;
    while i < 100 {
        exp.select_port(Port::B);
        exp.select_port(Port::A);
        i += 1;
    }
    assert_eq!(exp.transport().log().len(), 0);
    assert_eq!(exp.set_data(0x01), Err(MockError));
}

#[test]
fn set_config_clears_bank_bit() {
    let mut exp = fresh();
    exp.set_config(Config::from_bits(0xff)).unwrap();
    let log = exp.transport().log();
    assert_eq!(log.len(), 1);
    assert_eq!(log[0], BusEvent::Write { address: 0x20, bytes: vec![0x05, 0x7f], ok: true });
}

#[test]
fn setter_issues_single_write() {
    let mut exp = fresh();
    exp.set_pullups(0xaa).unwrap();
    let log = exp.transport().log();
    assert_eq!(log.len(), 1);
    assert_eq!(log[0], BusEvent::Write { address: 0x20, bytes: vec![0x06, 0xaa], ok: true });
}

#[test]
fn getter_issues_single_write_read() {
    let mut exp = fresh();
    assert_eq!(exp.pullups().unwrap(), 0x00);
    let log = exp.transport().log();
    assert_eq!(log.len(), 1);
    assert_eq!(
        log[0],
        BusEvent::WriteRead { address: 0x20, bytes: vec![0x06], response: Some(0x00) }
    );
}

#[test]
fn round_trip_direction_per_port() {
    let mut exp = fresh();
    exp.set_direction(0x0f).unwrap();
    assert_eq!(exp.direction().unwrap(), 0x0f);
    exp.select_port(Port::B);
    exp.set_direction(0xf0).unwrap();
    assert_eq!(exp.direction().unwrap(), 0xf0);
    exp.select_port(Port::A);
    assert_eq!(exp.direction().unwrap(), 0x0f);
    exp.select_port(Port::B);
    assert_eq!(exp.direction().unwrap(), 0xf0);
}

#[test]
fn port_b_write_scenario() {
    let mut exp = fresh();
    exp.select_port(Port::B);
    exp.set_direction(0x00).unwrap();
    exp.set_data(0xff).unwrap();
    let log = exp.transport().log();
    assert_eq!(log.len(), 2);
    assert_eq!(log[0], BusEvent::Write { address: 0x20, bytes: vec![0x10, 0x00], ok: true });
    assert_eq!(log[1], BusEvent::Write { address: 0x20, bytes: vec![0x19, 0xff], ok: true });
}

#[test]
fn interrupt_scenario() {
    let mut exp = fresh();
    exp.select_port(Port::A);
    exp.set_interrupt(0x80).unwrap();
    exp.set_int_control(0x00).unwrap();
    // A pin change on bit 7: the chip latches the interrupt flag and the
    // port value at that moment.
    exp.transport_mut().poke(0x07, 0x80);
    exp.transport_mut().poke(0x08, 0x80);
    exp.transport_mut().poke(0x09, 0x80);
    assert_eq!(exp.who_interrupted().unwrap(), 0x80);
    // Reading the interrupt flags does not clear them.
    assert_eq!(exp.who_interrupted().unwrap(), 0x80);
    // Reading the port data clears the flags, as the hardware does.
    assert_eq!(exp.data().unwrap(), 0x80);
    assert_eq!(exp.transport().peek(0x07), 0x00);
}

#[test]
fn data_at_interrupt_clears_flags_but_persists() {
    let mut exp = fresh();
    exp.transport_mut().poke(0x07, 0x40);
    exp.transport_mut().poke(0x08, 0x55);
    assert_eq!(exp.data_at_interrupt().unwrap(), 0x55);
    assert_eq!(exp.transport().peek(0x07), 0x00);
    // The captured value itself stays latched until the next interrupt.
    assert_eq!(exp.data_at_interrupt().unwrap(), 0x55);
}

#[test]
fn failure_surfaces_and_keeps_port() {
    let mut exp = fresh();
    exp.select_port(Port::B);
    exp.transport_mut().set_fail(true);
    assert_eq!(exp.set_data(0x12), Err(MockError));
    assert_eq!(exp.direction(), Err(MockError));
    exp.transport_mut().set_fail(false);
    exp.set_data(0x34).unwrap();
    let log = exp.transport().log();
    assert_eq!(log.len(), 3);
    // The failed attempts and the later success all target port B.
    assert_eq!(log[0], BusEvent::Write { address: 0x20, bytes: vec![0x19, 0x12], ok: false });
    assert_eq!(log[1], BusEvent::WriteRead { address: 0x20, bytes: vec![0x10], response: None });
    assert_eq!(log[2], BusEvent::Write { address: 0x20, bytes: vec![0x19, 0x34], ok: true });
}

#[test]
fn power_on_defaults() {
    let mut exp = fresh();
    assert_eq!(exp.direction().unwrap(), 0xff);
    assert_eq!(exp.data().unwrap(), 0x00);
    exp.select_port(Port::B);
    assert_eq!(exp.direction().unwrap(), 0xff);
    assert_eq!(exp.data().unwrap(), 0x00);
}

fn getter_addresses(port: Port, base: u8) {
    let mut exp = fresh();
    exp.select_port(port);
    exp.direction().unwrap();
    exp.polarity().unwrap();
    exp.interrupt().unwrap();
    exp.int_compare().unwrap();
    exp.int_control().unwrap();
    exp.config().unwrap();
    exp.pullups().unwrap();
    exp.who_interrupted().unwrap();
    exp.data_at_interrupt().unwrap();
    exp.data().unwrap();
    exp.latches().unwrap();
    let log = exp.transport().log();
    assert_eq!(log.len(), 11);
    let mut offset: u8 = 0;
    while offset <= 0x0a {
        match &log[offset as usize] {
            BusEvent::WriteRead { address, bytes, response } => {
                assert_eq!(*address, 0x20);
                assert_eq!(bytes, &vec![base | offset]);
                assert!(response.is_some());
            }
            other => panic!("expected a write-then-read, got {:?}", other),
        }
        offset += 1;
    }
}

#[test]
fn getter_addresses_port_a() {
    getter_addresses(Port::A, 0x00);
}

#[test]
fn getter_addresses_port_b() {
    getter_addresses(Port::B, 0x10);
}

fn setter_addresses(port: Port, base: u8) {
    let mut exp = fresh();
    exp.select_port(port);
    exp.set_direction(0x11).unwrap();
    exp.set_polarity(0x22).unwrap();
    exp.set_interrupt(0x33).unwrap();
    exp.set_int_compare(0x44).unwrap();
    exp.set_int_control(0x55).unwrap();
    exp.set_config(Config::from_bits(0x66)).unwrap();
    exp.set_pullups(0x77).unwrap();
    exp.set_data(0x12).unwrap();
    let offsets: Vec<u8> = vec![0x00, 0x01, 0x02, 0x03, 0x04, 0x05, 0x06, 0x09];
    let values: Vec<u8> = vec![0x11, 0x22, 0x33, 0x44, 0x55, 0x66, 0x77, 0x12];
    let log = exp.transport().log();
    assert_eq!(log.len(), offsets.len());
    let mut i: usize = 0;
    while i < offsets.len() {
        assert_eq!(
            log[i],
            BusEvent::Write { address: 0x20, bytes: vec![base | offsets[i], values[i]], ok: true }
        );
        i += 1;
    }
}

#[test]
fn setter_addresses_port_a() {
    setter_addresses(Port::A, 0x00);
}

#[test]
fn setter_addresses_port_b() {
    setter_addresses(Port::B, 0x10);
}

#[test]
fn latches_reflect_set_data() {
    let mut exp = fresh();
    exp.set_data(0x5a).unwrap();
    assert_eq!(exp.latches().unwrap(), 0x5a);
    // The other port's latch is untouched.
    exp.select_port(Port::B);
    assert_eq!(exp.latches().unwrap(), 0x00);
    exp.set_data(0xc3).unwrap();
    assert_eq!(exp.latches().unwrap(), 0xc3);
}

#[test]
fn failed_write_leaves_chip_state() {
    let mut exp = fresh();
    exp.transport_mut().set_fail(true);
    assert_eq!(exp.set_direction(0x00), Err(MockError));
    exp.transport_mut().set_fail(false);
    // The failed write changed nothing: the direction register still holds
    // its power-on value.
    assert_eq!(exp.direction().unwrap(), 0xff);
}

#[test]
fn config_round_trip_on_chip() {
    let mut exp = fresh();
    exp.set_config(Config::from_bits(0x46)).unwrap();
    assert_eq!(exp.config().unwrap(), 0x46);
}
