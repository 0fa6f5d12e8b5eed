//! Device identifier validation: every raw value from 0 to 99 is
//! accepted and round-trips; every larger value is rejected with that
//! exact value.

use fronius::device::{DeviceId, InvalidDeviceId};

#[test]
fn accepts_zero_and_round_trips() {
    let id = DeviceId::try_from(0).unwrap();
    assert_eq!(id.raw(), 0);
}

#[test]
fn accepts_one_and_round_trips() {
    let id = DeviceId::try_from(1).unwrap();
    assert_eq!(id.raw(), 1);
}

#[test]
fn accepts_ninety_nine_and_round_trips() {
    let id = DeviceId::try_from(99).unwrap();
    assert_eq!(id.raw(), 99);
}

#[test]
fn every_raw_value_up_to_ninety_nine_round_trips() {
    let mut raw: u8 = 0;
    while raw <= 99 {
        let id = DeviceId::try_from(raw).unwrap();
        assert_eq!(id.raw(), raw);
        raw += 1;
    }
}

#[test]
fn rejects_one_hundred_with_that_value() {
    assert_eq!(DeviceId::try_from(100), Err(InvalidDeviceId(100)));
}

#[test]
fn rejects_two_hundred_fifty_five_with_that_value() {
    assert_eq!(DeviceId::try_from(255), Err(InvalidDeviceId(255)));
}

#[test]
fn every_raw_value_from_one_hundred_is_rejected() {
    let mut raw: u16 = 100;
    while raw <= 255 {
        assert_eq!(DeviceId::try_from(raw as u8), Err(InvalidDeviceId(raw as u8)));
        raw += 1;
    }
}
