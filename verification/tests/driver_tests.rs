use tca9554::transport::Transaction;
use tca9554::{Address, SimBus, SimError, Tca9554};

#[test]
fn test_write_direction() {
    let i2c = SimBus::new(Address::standard());
    let mut driver = Tca9554::new(i2c, Address::standard());
    driver.write_direction(0xAA).unwrap();
    let expected = vec![Transaction::Write { address: 0x20, command: 0x03, value: 0xAA }];
    assert_eq!(driver.release().transactions(), &expected);
}

#[test]
fn test_write_output() {
    let i2c = SimBus::new(Address::standard());
    let mut driver = Tca9554::new(i2c, Address::standard());
    driver.write_output(0xAA).unwrap();
    let expected = vec![Transaction::Write { address: 0x20, command: 0x01, value: 0xAA }];
    assert_eq!(driver.release().transactions(), &expected);
}

#[test]
fn test_write_polarity() {
    let i2c = SimBus::new(Address::standard());
    let mut driver = Tca9554::new(i2c, Address::standard());
    driver.write_polarity(0xAA).unwrap();
    let expected = vec![Transaction::Write { address: 0x20, command: 0x02, value: 0xAA }];
    assert_eq!(driver.release().transactions(), &expected);
}

#[test]
fn test_write_error() {
    let mut i2c = SimBus::new(Address::standard());
    i2c.set_failing(true);
    let mut driver = Tca9554::new(i2c, Address::standard());
    assert!(driver.write_direction(0xAA).is_err());
    // The failed exchange left no trace and nothing was retried.
    assert_eq!(driver.release().transactions(), &Vec::new());
}

#[test]
fn test_read_input() {
    let mut i2c = SimBus::new(Address::standard());
    i2c.set_input(0xAA);
    let mut driver = Tca9554::new(i2c, Address::standard());
    assert_eq!(driver.read_input().unwrap(), 0xAA);
    let expected = vec![Transaction::WriteRead { address: 0x20, command: 0x00, response: 0xAA }];
    assert_eq!(driver.release().transactions(), &expected);
}

#[test]
fn test_reset() {
    let i2c = SimBus::new(Address::standard());
    let mut driver = Tca9554::new(i2c, Address::standard());
    driver.reset().unwrap();
    let expected = vec![
        Transaction::Write { address: 0x20, command: 0x03, value: 0xFF },
        Transaction::Write { address: 0x20, command: 0x02, value: 0x00 },
        Transaction::Write { address: 0x20, command: 0x01, value: 0xFF },
    ];
    assert_eq!(driver.release().transactions(), &expected);
}

#[test]
fn test_new_performs_no_bus_traffic() {
    let i2c = SimBus::new(Address::alternate());
    let driver = Tca9554::new(i2c, Address::alternate());
    assert_eq!(driver.release().transactions(), &Vec::new());
}

#[test]
fn test_address_accessor() {
    let i2c = SimBus::new(Address::alternate());
    let driver = Tca9554::new(i2c, Address::alternate());
    let addr: u8 = driver.address().into();
    assert_eq!(addr, 0x38);
}

#[test]
fn test_written_values_read_back() {
    let i2c = SimBus::new(Address::standard());
    let mut driver = Tca9554::new(i2c, Address::standard());
    driver.write_output(0x55).unwrap();
    driver.write_polarity(0x0F).unwrap();
    driver.write_direction(0x3C).unwrap();
    assert_eq!(driver.read_output().unwrap(), 0x55);
    assert_eq!(driver.read_polarity().unwrap(), 0x0F);
    assert_eq!(driver.read_direction().unwrap(), 0x3C);
}

#[test]
fn test_registers_hold_power_on_defaults() {
    let i2c = SimBus::new(Address::standard());
    let mut driver = Tca9554::new(i2c, Address::standard());
    assert_eq!(driver.read_direction().unwrap(), 0xFF);
    assert_eq!(driver.read_polarity().unwrap(), 0x00);
    assert_eq!(driver.read_output().unwrap(), 0xFF);
    assert_eq!(driver.is_in_default_state().unwrap(), true);
}

#[test]
fn test_reset_then_default_state_check() {
    let i2c = SimBus::new(Address::standard());
    let mut driver = Tca9554::new(i2c, Address::standard());
    driver.write_direction(0x00).unwrap();
    driver.write_polarity(0xF0).unwrap();
    driver.write_output(0x12).unwrap();
    assert_eq!(driver.is_in_default_state().unwrap(), false);
    driver.reset().unwrap();
    assert_eq!(driver.is_in_default_state().unwrap(), true);
}

#[test]
fn test_default_state_check_detects_each_perturbation() {
    for register in 0..3u8 {
        let i2c = SimBus::new(Address::standard());
        let mut driver = Tca9554::new(i2c, Address::standard());
        driver.reset().unwrap();
        match register {
            0 => driver.write_direction(0xFE).unwrap(),
            1 => driver.write_polarity(0x01).unwrap(),
            _ => driver.write_output(0x00).unwrap(),
        }
        assert_eq!(driver.is_in_default_state().unwrap(), false);
    }
}

#[test]
fn test_default_state_check_reads_in_order_and_short_circuits() {
    let i2c = SimBus::new(Address::standard());
    let mut driver = Tca9554::new(i2c, Address::standard());
    driver.write_direction(0x00).unwrap();
    assert_eq!(driver.is_in_default_state().unwrap(), false);
    let expected = vec![
        Transaction::Write { address: 0x20, command: 0x03, value: 0x00 },
        // The direction read already settles the verdict, so the polarity and
        // output reads are skipped.
        Transaction::WriteRead { address: 0x20, command: 0x03, response: 0x00 },
    ];
    assert_eq!(driver.release().transactions(), &expected);
}

#[test]
fn test_read_output_twice_returns_same_value() {
    let i2c = SimBus::new(Address::standard());
    let mut driver = Tca9554::new(i2c, Address::standard());
    let first = driver.read_output().unwrap();
    let second = driver.read_output().unwrap();
    assert_eq!(first, second);
    driver.write_output(0x42).unwrap();
    let third = driver.read_output().unwrap();
    let fourth = driver.read_output().unwrap();
    assert_eq!(third, 0x42);
    assert_eq!(third, fourth);
}

#[test]
fn test_every_accessor_surfaces_transport_failure() {
    let mut i2c = SimBus::new(Address::standard());
    i2c.set_failing(true);
    let mut driver = Tca9554::new(i2c, Address::standard());
    assert_eq!(driver.read_input(), Err(SimError::NoAcknowledge));
    assert_eq!(driver.read_output(), Err(SimError::NoAcknowledge));
    assert_eq!(driver.write_output(0x00), Err(SimError::NoAcknowledge));
    assert_eq!(driver.read_polarity(), Err(SimError::NoAcknowledge));
    assert_eq!(driver.write_polarity(0x00), Err(SimError::NoAcknowledge));
    assert_eq!(driver.read_direction(), Err(SimError::NoAcknowledge));
    assert_eq!(driver.write_direction(0x00), Err(SimError::NoAcknowledge));
    assert_eq!(driver.reset(), Err(SimError::NoAcknowledge));
    assert_eq!(driver.is_in_default_state(), Err(SimError::NoAcknowledge));
    assert_eq!(driver.release().transactions(), &Vec::new());
}

#[test]
fn test_wrong_address_is_not_acknowledged() {
    // The simulated chip sits at the alternate address; a driver configured
    // for the standard one gets no acknowledge.
    let i2c = SimBus::new(Address::alternate());
    let mut driver = Tca9554::new(i2c, Address::standard());
    assert_eq!(driver.read_input(), Err(SimError::NoAcknowledge));
    assert_eq!(driver.release().transactions(), &Vec::new());
}

#[test]
fn test_failure_clears_and_state_survives() {
    let mut i2c = SimBus::new(Address::standard());
    i2c.set_failing(true);
    let mut driver = Tca9554::new(i2c, Address::standard());
    assert!(driver.write_output(0x77).is_err());
    let mut i2c = driver.release();
    i2c.set_failing(false);
    let mut driver = Tca9554::new(i2c, Address::standard());
    driver.write_output(0x77).unwrap();
    assert_eq!(driver.read_output().unwrap(), 0x77);
}

#[test]
fn test_reset_sequence_bytes() {
    let pairs = tca9554::chip::reset_sequence();
    assert_eq!(pairs, vec![(0x03, 0xFF), (0x02, 0x00), (0x01, 0xFF)]);
}

#[test]
fn test_defaults_match() {
    assert!(tca9554::chip::defaults_match(0xFF, 0x00, 0xFF));
    assert!(!tca9554::chip::defaults_match(0xFE, 0x00, 0xFF));
    assert!(!tca9554::chip::defaults_match(0xFF, 0x01, 0xFF));
    assert!(!tca9554::chip::defaults_match(0xFF, 0x00, 0x00));
}

#[test]
fn test_register_codes() {
    assert_eq!(tca9554::Register::Input.code(), 0x00);
    assert_eq!(tca9554::Register::Output.code(), 0x01);
    assert_eq!(tca9554::Register::Polarity.code(), 0x02);
    assert_eq!(tca9554::Register::Direction.code(), 0x03);
}
