//! Channel enumeration: the number of visible channels and the descriptive
//! metadata of each one are live queries against the native driver, never
//! cached here. This module holds the decisions around those queries: how a
//! native count or descriptor result becomes a typed value, and the bounds
//! policy that rejects an out-of-range channel index before any further
//! native call is made.

use vstd::prelude::*;

use crate::status::error_of_status;
use crate::status::Error;

verus! {

/// Immutable snapshot of one discoverable channel: its serial number and
/// description, decoded into owned text. Not linked to an open handle.
#[derive(Debug)]
pub struct ChannelInfo {
    pub serial_number: String,
    pub description: String,
}

impl ChannelInfo {
    /// Builds a snapshot from the already-decoded text fields of a native
    /// channel descriptor.
    pub fn new(serial_number: String, description: String) -> (info: ChannelInfo)
        ensures
            info.serial_number@ == serial_number@,
            info.description@ == description@,
    {
        ChannelInfo { serial_number, description }
    }
}

/// Turns the outcome of the native channel-count query into a result: the
/// count on status zero, the translated error on any other status.
pub fn num_channels_from_native(status: u32, count: u32) -> (r: Result<usize, Error>)
    ensures
        status == 0 <==> r is Ok,
        status == 0 ==> r == Ok::<usize, Error>(count as usize),
        status != 0 ==> (r matches Err(e) && e == error_of_status(status)),
{
    if status == 0 {
        Ok(count as usize)
    } else {
        Err(Error::new(status))
    }
}

/// The bounds policy shared by enumeration and open: a channel index is
/// accepted exactly when it is below the channel count just queried, and
/// rejected with `InvalidArgs` otherwise. On acceptance it yields the index
/// narrowed to the native 32-bit word.
pub fn validate_channel_index(index: usize, num_channels: u32) -> (r: Result<u32, Error>)
    ensures
        index < num_channels <==> r is Ok,
        index < num_channels ==> r == Ok::<u32, Error>(index as u32),
        index >= num_channels ==> (r matches Err(e) && e == Error::InvalidArgs),
{
    if index < num_channels as usize {
        Ok(index as u32)
    } else {
        Err(Error::InvalidArgs)
    }
}

/// Turns the outcome of the native descriptor query into a result: a channel
/// snapshot built from the decoded text fields on status zero, the
/// translated error on any other status.
pub fn channel_info_from_native(
    status: u32,
    serial_number: String,
    description: String,
) -> (r: Result<ChannelInfo, Error>)
    ensures
        status == 0 <==> r is Ok,
        status == 0 ==> (r matches Ok(info) && info.serial_number@ == serial_number@
            && info.description@ == description@),
        status != 0 ==> (r matches Err(e) && e == error_of_status(status)),
{
    if status == 0 {
        Ok(ChannelInfo::new(serial_number, description))
    } else {
        Err(Error::new(status))
    }
}

} // verus!
