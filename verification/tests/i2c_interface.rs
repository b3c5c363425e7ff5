use i2c_interface::I2cInterface;
use i2c_interface::MockI2c;

#[test]
fn reading_register() {
    let device_address: u8 = 2;
    let register_address: u8 = 3;
    let payload: [u8; 2] = [42, 43];

    let mut interface =
        I2cInterface { address: device_address, i2c: MockI2c::new(payload.to_vec()) };

    let read: [u8; 2] = interface.read_register(register_address).unwrap();
    let mock_i2c = interface.i2c;

    assert_eq!(mock_i2c.reads.len(), 1);
    assert_eq!(mock_i2c.reads[0].0, device_address);
    assert_eq!(mock_i2c.reads[0].1, vec![register_address]);
    assert_eq!(read, payload);
}

#[test]
fn writing_register() {
    let device_address: u8 = 22;
    let register_address: u8 = 33;
    let payload: [u8; 2] = [142, 143];

    let mut interface =
        I2cInterface { address: device_address, i2c: MockI2c::new(payload.to_vec()) };

    interface.write_register(register_address, payload).unwrap();
    let mock_i2c = interface.i2c;

    assert_eq!(mock_i2c.writes.len(), 1);
    assert_eq!(mock_i2c.writes[0].0, device_address);
    assert_eq!(mock_i2c.writes[0].1, vec![33, 142, 143]);
}

#[test]
fn writing_empty_payload_sends_only_the_register_index() {
    let mut interface = I2cInterface { address: 5, i2c: MockI2c::new(Vec::new()) };

    let empty: [u8; 0] = [];
    interface.write_register(77, empty).unwrap();

    assert_eq!(interface.i2c.writes.len(), 1);
    assert_eq!(interface.i2c.writes[0].0, 5);
    assert_eq!(interface.i2c.writes[0].1, vec![77]);
}

#[test]
fn write_fault_is_returned_unchanged() {
    let mut mock = MockI2c::new(Vec::new());
    mock.fault = Some(7);
    let mut interface = I2cInterface { address: 10, i2c: mock };

    let result = interface.write_register(1, [9, 8]);

    assert_eq!(result, Err(7));
    // The failed transaction was still attempted exactly once, with the
    // composed frame, and the interface's address did not change.
    assert_eq!(interface.i2c.writes.len(), 1);
    assert_eq!(interface.i2c.writes[0].0, 10);
    assert_eq!(interface.i2c.writes[0].1, vec![1, 9, 8]);
    assert_eq!(interface.i2c.writes[0].2, Some(7));
    assert_eq!(interface.address, 10);
}

#[test]
fn read_fault_is_returned_unchanged() {
    let mut mock = MockI2c::new(vec![1, 2, 3]);
    mock.fault = Some(11);
    let mut interface = I2cInterface { address: 4, i2c: mock };

    let result: Result<[u8; 3], u8> = interface.read_register(6);

    assert_eq!(result, Err(11));
    assert_eq!(interface.i2c.reads.len(), 1);
    assert_eq!(interface.i2c.reads[0].0, 4);
    assert_eq!(interface.i2c.reads[0].1, vec![6]);
    assert_eq!(interface.i2c.reads[0].3, Some(11));
    assert_eq!(interface.address, 4);
}

#[test]
fn reading_zero_bytes_returns_an_empty_value() {
    let mut interface = I2cInterface { address: 9, i2c: MockI2c::new(vec![42]) };

    let read: [u8; 0] = interface.read_register(1).unwrap();

    assert_eq!(read, []);
    assert_eq!(interface.i2c.reads.len(), 1);
    assert_eq!(interface.i2c.reads[0].1, vec![1]);
    assert_eq!(interface.i2c.reads[0].2, Vec::<u8>::new());
}

#[test]
fn read_length_decides_how_many_bytes_come_back() {
    let mut interface = I2cInterface { address: 1, i2c: MockI2c::new(vec![42, 43]) };

    let short: [u8; 1] = interface.read_register(2).unwrap();
    let long: [u8; 4] = interface.read_register(2).unwrap();

    assert_eq!(short, [42]);
    // The mock pads its configured response with zeroes.
    assert_eq!(long, [42, 43, 0, 0]);
    assert_eq!(interface.i2c.reads.len(), 2);
}

#[test]
fn address_stays_fixed_over_many_operations() {
    let device_address: u8 = 55;
    let mut interface = I2cInterface { address: device_address, i2c: MockI2c::new(vec![1]) };

    interface.write_register(1, [10]).unwrap();
    let _: [u8; 1] = interface.read_register(2).unwrap();
    interface.write_register(3, [20, 21]).unwrap();
    let _: [u8; 1] = interface.read_register(4).unwrap();

    assert_eq!(interface.address, device_address);
    for write in &interface.i2c.writes {
        assert_eq!(write.0, device_address);
    }
    for read in &interface.i2c.reads {
        assert_eq!(read.0, device_address);
    }
    assert_eq!(interface.i2c.writes.len(), 2);
    assert_eq!(interface.i2c.reads.len(), 2);
}
