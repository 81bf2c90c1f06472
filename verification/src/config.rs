//! Transfer-time configuration of a channel: the clock rate, the latency
//! timer of the underlying USB link, and the per-transfer option bitmask.
//! The configuration is handed to the native initialize call once, at open
//! time; the option flags are passed through verbatim to each transfer and
//! never interpreted by this layer.

use vstd::prelude::*;

verus! {

/// Generate a start condition before the transfer.
pub const I2C_TRANSFER_OPTIONS_START_BIT: u32 = 0x01;

/// Generate a stop condition after the transfer.
pub const I2C_TRANSFER_OPTIONS_STOP_BIT: u32 = 0x02;

/// Abort the transfer when the target NACKs a byte.
pub const I2C_TRANSFER_OPTIONS_BREAK_ON_NACK: u32 = 0x04;

/// NACK the final byte of a read, as some targets require.
pub const I2C_TRANSFER_OPTIONS_NACK_LAST_BYTE: u32 = 0x08;

/// Fast transfer, framing whole bytes.
pub const I2C_TRANSFER_OPTIONS_FAST_TRANSFER_BYTES: u32 = 0x10;

/// Fast transfer, framing individual bits.
pub const I2C_TRANSFER_OPTIONS_FAST_TRANSFER_BITS: u32 = 0x20;

/// Fast transfer in either framing.
pub const I2C_TRANSFER_OPTIONS_FAST_TRANSFER: u32 = 0x30;

/// Do not send the device address before the data.
pub const I2C_TRANSFER_OPTIONS_NO_ADDRESS: u32 = 0x40;

/// The fixed set of bus clock rates the native driver supports.
#[derive(Clone, Copy, Debug, PartialEq, Eq, Structural)]
pub enum ClockRate {
    /// 100 kbit/s.
    StandardMode,
    /// 400 kbit/s.
    FastMode,
    /// 1 Mbit/s.
    FastModePlus,
    /// 3.4 Mbit/s.
    HighSpeedMode,
}

/// The bit rate in hertz that the native driver assigns to each clock rate.
pub open spec fn hertz_of(rate: ClockRate) -> u32 {
    match rate {
        ClockRate::StandardMode => 100000u32,
        ClockRate::FastMode => 400000u32,
        ClockRate::FastModePlus => 1000000u32,
        ClockRate::HighSpeedMode => 3400000u32,
    }
}

impl ClockRate {
    /// The numeric bit rate that the native configuration record carries for
    /// this clock rate.
    pub fn hertz(self) -> (r: u32)
        ensures
            r == hertz_of(self),
    {
        match self {
            ClockRate::StandardMode => 100000,
            ClockRate::FastMode => 400000,
            ClockRate::FastModePlus => 1000000,
            ClockRate::HighSpeedMode => 3400000,
        }
    }
}

/// The configuration applied to a channel by the native initialize call:
/// retained by the native driver for the handle's lifetime.
#[derive(Clone, Copy, Debug, PartialEq, Eq, Structural)]
pub struct ChannelConfig {
    pub clock_rate: ClockRate,
    pub latency_timer: u8,
    pub options: u32,
}

impl ChannelConfig {
    /// Groups the three configuration values passed at open time.
    pub fn new(clock_rate: ClockRate, latency_timer: u8, options: u32) -> (c: ChannelConfig)
        ensures
            c == (ChannelConfig { clock_rate, latency_timer, options }),
    {
        ChannelConfig { clock_rate, latency_timer, options }
    }
}

} // verus!
