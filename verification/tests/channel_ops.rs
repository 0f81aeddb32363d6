use pca9685::{
    decode_counter, decode_word, Channel, Error, Pca9685, RecordedOperation, RecordingBus,
};

const ADDRESS: u8 = 0x40;

fn device() -> Pca9685<RecordingBus> {
    Pca9685::new(RecordingBus::new(), ADDRESS)
}

fn single_write(device: &Pca9685<RecordingBus>) -> (u8, Vec<u8>) {
    assert_eq!(device.bus.operations.len(), 1, "expected exactly one bus operation");
    match &device.bus.operations[0] {
        RecordedOperation::Write { address, bytes } => (*address, bytes.clone()),
        RecordedOperation::EnableAutoIncrement => panic!("expected a write operation"),
    }
}

#[test]
fn set_channel_on_writes_the_encoded_value() {
    let mut device = device();
    assert_eq!(device.set_channel_on(Channel::C1, 0x0123), Ok(()));
    let (address, bytes) = single_write(&device);
    assert_eq!(address, ADDRESS);
    assert_eq!(bytes, vec![0x0a, 0x23, 0x01]);
}

#[test]
fn set_channel_on_payload_decodes_back() {
    let mut device = device();
    assert_eq!(device.set_channel_on(Channel::C7, 4095), Ok(()));
    let (_, bytes) = single_write(&device);
    assert_eq!(bytes[0], 0x22);
    assert_eq!(decode_word(bytes[1], bytes[2]), 4095);
    assert_eq!(decode_word(bytes[1], bytes[2]) & 0x1000, 0);
}

#[test]
fn set_channel_on_rejects_out_of_range_values() {
    let mut device = device();
    assert_eq!(device.set_channel_on(Channel::C0, 4096), Err(Error::InvalidInputData));
    assert_eq!(device.set_channel_on(Channel::All, u16::MAX), Err(Error::InvalidInputData));
    assert_eq!(device.bus.operations.len(), 0);
}

#[test]
fn set_channel_off_writes_the_encoded_value() {
    let mut device = device();
    assert_eq!(device.set_channel_off(Channel::C0, 0x0fff), Ok(()));
    let (address, bytes) = single_write(&device);
    assert_eq!(address, ADDRESS);
    assert_eq!(bytes, vec![0x08, 0xff, 0x0f]);
}

#[test]
fn set_channel_off_rejects_out_of_range_values() {
    let mut device = device();
    assert_eq!(device.set_channel_off(Channel::C15, 5000), Err(Error::InvalidInputData));
    assert_eq!(device.bus.operations.len(), 0);
}

#[test]
fn set_channel_on_off_writes_both_pairs_in_one_transaction() {
    let mut device = device();
    assert_eq!(device.set_channel_on_off(Channel::C2, 0x0123, 0x0456), Ok(()));
    let (address, bytes) = single_write(&device);
    assert_eq!(address, ADDRESS);
    assert_eq!(bytes, vec![0x0e, 0x23, 0x01, 0x56, 0x04]);
}

#[test]
fn set_channel_on_off_rejects_invalid_on_value() {
    let mut device = device();
    assert_eq!(device.set_channel_on_off(Channel::C2, 4096, 0), Err(Error::InvalidInputData));
    assert_eq!(device.bus.operations.len(), 0);
}

#[test]
fn set_channel_on_off_rejects_invalid_off_value() {
    let mut device = device();
    assert_eq!(device.set_channel_on_off(Channel::C2, 0, 4096), Err(Error::InvalidInputData));
    assert_eq!(device.bus.operations.len(), 0);
}

#[test]
fn set_channel_full_on_sets_bit_twelve_and_keeps_the_value() {
    let mut device = device();
    assert_eq!(device.set_channel_full_on(Channel::C3, 0x00ab), Ok(()));
    let (address, bytes) = single_write(&device);
    assert_eq!(address, ADDRESS);
    assert_eq!(bytes, vec![0x12, 0xab, 0x10]);
    assert_eq!(decode_word(bytes[1], bytes[2]), 0x00ab | 0x1000);
    assert_eq!(decode_counter(bytes[1], bytes[2]), 0x00ab);
}

#[test]
fn set_channel_full_on_rejects_out_of_range_values() {
    let mut device = device();
    assert_eq!(device.set_channel_full_on(Channel::C3, 4096), Err(Error::InvalidInputData));
    assert_eq!(device.bus.operations.len(), 0);
}

#[test]
fn set_channel_full_off_writes_the_fixed_word() {
    let mut device = device();
    assert_eq!(device.set_channel_full_off(Channel::C4), Ok(()));
    let (address, bytes) = single_write(&device);
    assert_eq!(address, ADDRESS);
    assert_eq!(bytes, vec![0x18, 0x00, 0x10]);
    assert_eq!(decode_word(bytes[1], bytes[2]), 0x1000);
}

#[test]
fn set_channel_full_off_targets_the_broadcast_pair_for_all() {
    let mut device = device();
    assert_eq!(device.set_channel_full_off(Channel::All), Ok(()));
    let (_, bytes) = single_write(&device);
    assert_eq!(bytes, vec![0xfc, 0x00, 0x10]);
}

#[test]
fn every_valid_counter_value_round_trips() {
    for value in 0u16..4096 {
        let mut device = device();
        assert_eq!(device.set_channel_on(Channel::C5, value), Ok(()));
        let (_, bytes) = single_write(&device);
        assert_eq!(decode_counter(bytes[1], bytes[2]), value);
    }
}

#[test]
fn decode_word_reads_little_endian_pairs() {
    assert_eq!(decode_word(0xcd, 0x1a), 0x1acd);
    assert_eq!(decode_word(0x00, 0x00), 0);
    assert_eq!(decode_counter(0xff, 0xff), 0x0fff);
}
