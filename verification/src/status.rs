//! Status translation: every native call returns a numeric status code, and
//! this module maps it losslessly into a closed error enumeration. Status
//! zero is success and never produces an error; every non-zero code in the
//! documented range has exactly one variant; anything outside that range
//! falls back defensively to `OtherError`.

use vstd::prelude::*;

verus! {

/// One variant for each distinct non-zero status the native driver can
/// return, plus a defensive `OtherError` bucket for codes outside the
/// documented range.
#[derive(Clone, Copy, Debug, PartialEq, Eq, Structural, Hash, PartialOrd, Ord)]
pub enum Error {
    InvalidHandle,
    DeviceNotFound,
    DeviceNotOpened,
    IoError,
    InsufficientResources,
    InvalidParameter,
    InvalidBaudRate,
    DeviceNotOpenedForErase,
    DeviceNotOpenedForWrite,
    FailedToWriteDevice,
    EepromReadFailed,
    EepromWriteFailed,
    EepromEraseFailed,
    EepromNotPresent,
    EepromNotProgrammed,
    InvalidArgs,
    NotSupported,
    OtherError,
}

/// The error that a non-zero native status code denotes. Codes above the
/// documented range map to `OtherError`.
pub open spec fn error_of_status(status: u32) -> Error
    recommends
        status != 0,
{
    match status {
        1u32 => Error::InvalidHandle,
        2u32 => Error::DeviceNotFound,
        3u32 => Error::DeviceNotOpened,
        4u32 => Error::IoError,
        5u32 => Error::InsufficientResources,
        6u32 => Error::InvalidParameter,
        7u32 => Error::InvalidBaudRate,
        8u32 => Error::DeviceNotOpenedForErase,
        9u32 => Error::DeviceNotOpenedForWrite,
        10u32 => Error::FailedToWriteDevice,
        11u32 => Error::EepromReadFailed,
        12u32 => Error::EepromWriteFailed,
        13u32 => Error::EepromEraseFailed,
        14u32 => Error::EepromNotPresent,
        15u32 => Error::EepromNotProgrammed,
        16u32 => Error::InvalidArgs,
        17u32 => Error::NotSupported,
        _ => Error::OtherError,
    }
}

/// The stable human-readable description of each error.
pub open spec fn message_of(e: Error) -> Seq<char> {
    match e {
        Error::InvalidHandle => "invalid handle"@,
        Error::DeviceNotFound => "device not found"@,
        Error::DeviceNotOpened => "device not opened"@,
        Error::IoError => "io error"@,
        Error::InsufficientResources => "insufficient resources"@,
        Error::InvalidParameter => "invalid parameter"@,
        Error::InvalidBaudRate => "invalid baud rate"@,
        Error::DeviceNotOpenedForErase => "device not opened for erase"@,
        Error::DeviceNotOpenedForWrite => "device not opened for write"@,
        Error::FailedToWriteDevice => "failed to write device"@,
        Error::EepromReadFailed => "EEPROM read failed"@,
        Error::EepromWriteFailed => "EEPROM write failed"@,
        Error::EepromEraseFailed => "EEPROM erase failed"@,
        Error::EepromNotPresent => "EEPROM not present"@,
        Error::EepromNotProgrammed => "EEPROM not programmed"@,
        Error::InvalidArgs => "invalid args"@,
        Error::NotSupported => "not supported"@,
        Error::OtherError => "other error"@,
    }
}

impl Error {
    /// Translates a non-zero native status code into its error variant, with
    /// `OtherError` as the defensive fallback for an unrecognized code.
    pub fn new(status: u32) -> (e: Error)
        requires
            status != 0,
        ensures
            e == error_of_status(status),
    {
        match status {
            1 => Error::InvalidHandle,
            2 => Error::DeviceNotFound,
            3 => Error::DeviceNotOpened,
            4 => Error::IoError,
            5 => Error::InsufficientResources,
            6 => Error::InvalidParameter,
            7 => Error::InvalidBaudRate,
            8 => Error::DeviceNotOpenedForErase,
            9 => Error::DeviceNotOpenedForWrite,
            10 => Error::FailedToWriteDevice,
            11 => Error::EepromReadFailed,
            12 => Error::EepromWriteFailed,
            13 => Error::EepromEraseFailed,
            14 => Error::EepromNotPresent,
            15 => Error::EepromNotProgrammed,
            16 => Error::InvalidArgs,
            17 => Error::NotSupported,
            _ => Error::OtherError,
        }
    }

    /// The stable human-readable description of this error, for logging.
    pub fn as_str(&self) -> (s: &'static str)
        ensures
            s@ == message_of(*self),
    {
        match *self {
            Error::InvalidHandle => "invalid handle",
            Error::DeviceNotFound => "device not found",
            Error::DeviceNotOpened => "device not opened",
            Error::IoError => "io error",
            Error::InsufficientResources => "insufficient resources",
            Error::InvalidParameter => "invalid parameter",
            Error::InvalidBaudRate => "invalid baud rate",
            Error::DeviceNotOpenedForErase => "device not opened for erase",
            Error::DeviceNotOpenedForWrite => "device not opened for write",
            Error::FailedToWriteDevice => "failed to write device",
            Error::EepromReadFailed => "EEPROM read failed",
            Error::EepromWriteFailed => "EEPROM write failed",
            Error::EepromEraseFailed => "EEPROM erase failed",
            Error::EepromNotPresent => "EEPROM not present",
            Error::EepromNotProgrammed => "EEPROM not programmed",
            Error::InvalidArgs => "invalid args",
            Error::NotSupported => "not supported",
            Error::OtherError => "other error",
        }
    }
}

/// Turns a native status code into a result: status zero is success, and
/// every other status is the corresponding error.
pub fn check(status: u32) -> (r: Result<(), Error>)
    ensures
        status == 0 <==> r is Ok,
        status != 0 ==> (r matches Err(e) && e == error_of_status(status)),
{
    if status == 0 {
        Ok(())
    } else {
        Err(Error::new(status))
    }
}

/// Distinct status codes in the documented non-zero range translate to
/// distinct errors: the translation is lossless over that range.
pub proof fn lemma_translation_injective(a: u32, b: u32)
    requires
        1 <= a <= 18,
        1 <= b <= 18,
        a != b,
    ensures
        error_of_status(a) != error_of_status(b),
{
}

} // verus!
