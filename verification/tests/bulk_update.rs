use pca9685::{Error, Pca9685, RecordedOperation, RecordingBus};

const ADDRESS: u8 = 0x41;

fn device() -> Pca9685<RecordingBus> {
    Pca9685::new(RecordingBus::new(), ADDRESS)
}

#[test]
fn set_all_on_off_issues_enable_then_one_write() {
    let mut device = device();
    let mut on = [0u16; 16];
    let mut off = [0u16; 16];
    for i in 0..16 {
        on[i] = (i as u16) * 100;
        off[i] = (i as u16) * 100 + 50;
    }
    assert_eq!(device.set_all_on_off(&on, &off), Ok(()));
    assert_eq!(device.bus.operations.len(), 2);
    assert_eq!(device.bus.operations[0], RecordedOperation::EnableAutoIncrement);
    match &device.bus.operations[1] {
        RecordedOperation::Write { address, bytes } => {
            assert_eq!(*address, ADDRESS);
            assert_eq!(bytes.len(), 65);
            assert_eq!(bytes[0], 0x06);
            for i in 0..16 {
                assert_eq!(bytes[4 * i + 1], (on[i] & 0xff) as u8);
                assert_eq!(bytes[4 * i + 2], (on[i] >> 8) as u8);
                assert_eq!(bytes[4 * i + 3], (off[i] & 0xff) as u8);
                assert_eq!(bytes[4 * i + 4], (off[i] >> 8) as u8);
            }
        }
        RecordedOperation::EnableAutoIncrement => panic!("expected the data write"),
    }
}

#[test]
fn set_all_on_off_rejects_one_bad_on_value_with_no_transaction() {
    let mut device = device();
    let mut on = [0u16; 16];
    let off = [0u16; 16];
    on[3] = 5000;
    assert_eq!(device.set_all_on_off(&on, &off), Err(Error::InvalidInputData));
    assert_eq!(device.bus.operations.len(), 0);
}

#[test]
fn set_all_on_off_rejects_one_bad_off_value_with_no_transaction() {
    let mut device = device();
    let on = [0u16; 16];
    let mut off = [4095u16; 16];
    off[15] = 4096;
    assert_eq!(device.set_all_on_off(&on, &off), Err(Error::InvalidInputData));
    assert_eq!(device.bus.operations.len(), 0);
}

#[test]
fn set_all_on_off_accepts_the_full_valid_range() {
    let mut device = device();
    let on = [4095u16; 16];
    let off = [0u16; 16];
    assert_eq!(device.set_all_on_off(&on, &off), Ok(()));
    assert_eq!(device.bus.operations.len(), 2);
    match &device.bus.operations[1] {
        RecordedOperation::Write { bytes, .. } => {
            assert_eq!(bytes[1], 0xff);
            assert_eq!(bytes[2], 0x0f);
            assert_eq!(bytes[3], 0x00);
            assert_eq!(bytes[4], 0x00);
        }
        RecordedOperation::EnableAutoIncrement => panic!("expected the data write"),
    }
}
