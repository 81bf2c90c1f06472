//! The status translator: every documented non-zero native status code maps
//! to its own error, status zero is success, and codes outside the
//! documented range fall back to the generic error.

use i2c_bridge::check;
use i2c_bridge::Error;

#[test]
fn every_documented_status_has_its_own_error() {
    let expected = [
        (1, Error::InvalidHandle),
        (2, Error::DeviceNotFound),
        (3, Error::DeviceNotOpened),
        (4, Error::IoError),
        (5, Error::InsufficientResources),
        (6, Error::InvalidParameter),
        (7, Error::InvalidBaudRate),
        (8, Error::DeviceNotOpenedForErase),
        (9, Error::DeviceNotOpenedForWrite),
        (10, Error::FailedToWriteDevice),
        (11, Error::EepromReadFailed),
        (12, Error::EepromWriteFailed),
        (13, Error::EepromEraseFailed),
        (14, Error::EepromNotPresent),
        (15, Error::EepromNotProgrammed),
        (16, Error::InvalidArgs),
        (17, Error::NotSupported),
        (18, Error::OtherError),
    ];
    for (status, error) in expected.iter() {
        assert_eq!(Error::new(*status), *error);
    }
}

#[test]
fn documented_statuses_translate_distinctly() {
    for a in 1u32..=18 {
        for b in 1u32..=18 {
            if a != b {
                assert_ne!(Error::new(a), Error::new(b));
            }
        }
    }
}

#[test]
fn unrecognized_status_falls_back_to_other_error() {
    assert_eq!(Error::new(19), Error::OtherError);
    assert_eq!(Error::new(1000), Error::OtherError);
    assert_eq!(Error::new(u32::MAX), Error::OtherError);
}

#[test]
fn status_zero_is_always_success() {
    assert_eq!(check(0), Ok(()));
}

#[test]
fn nonzero_status_checks_as_the_translated_error() {
    assert_eq!(check(4), Err(Error::IoError));
    assert_eq!(check(16), Err(Error::InvalidArgs));
    assert_eq!(check(99), Err(Error::OtherError));
}

#[test]
fn error_descriptions_are_stable() {
    assert_eq!(Error::InvalidHandle.as_str(), "invalid handle");
    assert_eq!(Error::DeviceNotFound.as_str(), "device not found");
    assert_eq!(Error::DeviceNotOpened.as_str(), "device not opened");
    assert_eq!(Error::IoError.as_str(), "io error");
    assert_eq!(Error::InsufficientResources.as_str(), "insufficient resources");
    assert_eq!(Error::InvalidParameter.as_str(), "invalid parameter");
    assert_eq!(Error::InvalidBaudRate.as_str(), "invalid baud rate");
    assert_eq!(Error::DeviceNotOpenedForErase.as_str(), "device not opened for erase");
    assert_eq!(Error::DeviceNotOpenedForWrite.as_str(), "device not opened for write");
    assert_eq!(Error::FailedToWriteDevice.as_str(), "failed to write device");
    assert_eq!(Error::EepromReadFailed.as_str(), "EEPROM read failed");
    assert_eq!(Error::EepromWriteFailed.as_str(), "EEPROM write failed");
    assert_eq!(Error::EepromEraseFailed.as_str(), "EEPROM erase failed");
    assert_eq!(Error::EepromNotPresent.as_str(), "EEPROM not present");
    assert_eq!(Error::EepromNotProgrammed.as_str(), "EEPROM not programmed");
    assert_eq!(Error::InvalidArgs.as_str(), "invalid args");
    assert_eq!(Error::NotSupported.as_str(), "not supported");
    assert_eq!(Error::OtherError.as_str(), "other error");
}
