//! A safety-oriented interface layer over a vendor-supplied native I2C
//! master driver (a USB-to-I2C bridge). The native driver itself does the
//! bus arbitration, clock generation and USB framing; this crate holds the
//! decisions around it: translating every native status code into a typed
//! error, the bounds policy for channel indices, the open/initialize/rollback
//! sequence, transfer-size narrowing, and the release-exactly-once guard of
//! an opened channel handle.
//!
//! The native calls themselves are unsafe foreign functions and stand
//! outside this crate; its callers perform each call and hand the plain
//! results (status codes, counts, sizes, handle words) to the decision
//! functions here, which say exactly what to do with every outcome.

pub mod channel;
pub mod config;
pub mod handle;
pub mod status;

pub use channel::channel_info_from_native;
pub use channel::num_channels_from_native;
pub use channel::validate_channel_index;
pub use channel::ChannelInfo;
pub use config::ChannelConfig;
pub use config::ClockRate;
pub use config::I2C_TRANSFER_OPTIONS_BREAK_ON_NACK;
pub use config::I2C_TRANSFER_OPTIONS_FAST_TRANSFER;
pub use config::I2C_TRANSFER_OPTIONS_FAST_TRANSFER_BITS;
pub use config::I2C_TRANSFER_OPTIONS_FAST_TRANSFER_BYTES;
pub use config::I2C_TRANSFER_OPTIONS_NACK_LAST_BYTE;
pub use config::I2C_TRANSFER_OPTIONS_NO_ADDRESS;
pub use config::I2C_TRANSFER_OPTIONS_START_BIT;
pub use config::I2C_TRANSFER_OPTIONS_STOP_BIT;
pub use handle::transfer_complete;
pub use handle::transfer_size;
pub use handle::ChannelHandle;
pub use handle::InitOutcome;
pub use status::check;
pub use status::error_of_status;
pub use status::message_of;
pub use status::Error;
