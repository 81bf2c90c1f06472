//! The channel handle lifecycle: a handle is opened and initialized as one
//! atomic sequence, then permits reads and writes, and is released exactly
//! once. The native open, initialize, transfer and close calls are unsafe
//! foreign functions performed by the caller; the functions here make every
//! decision of the sequence — what each native outcome means, when the bounds
//! policy rejects an index before any native call, when a partly-opened
//! resource must be rolled back, and that a released handle deterministically
//! refuses further work.

use vstd::prelude::*;

use crate::status::error_of_status;
use crate::status::Error;

verus! {

/// Exclusive ownership of one opened, configured native channel. The native
/// handle word is opaque here; `released` guards against any use after the
/// single release.
#[derive(Debug)]
pub struct ChannelHandle {
    handle: u64,
    released: bool,
}

/// What must happen after the native initialize call of the open sequence.
#[derive(Debug)]
pub enum InitOutcome {
    /// Initialization succeeded: the handle is fully usable.
    Ready(ChannelHandle),
    /// Initialization failed: the already-opened native resource must be
    /// closed before the error is surfaced, so that no partial failure leaks
    /// an open channel.
    CloseAndFail { handle: u64, error: Error },
}

impl ChannelHandle {
    /// Whether the handle still owns its native resource.
    pub closed spec fn is_open(self) -> bool {
        !self.released
    }

    /// The opaque native handle word this handle owns.
    pub closed spec fn native(self) -> u64 {
        self.handle
    }

    /// Interprets the outcome of the native open call: the native handle word
    /// to initialize next on status zero, the translated error on any other
    /// status (in which case no native resource is held).
    pub fn opened_from_native(status: u32, handle: u64) -> (r: Result<u64, Error>)
        ensures
            status == 0 <==> r is Ok,
            status == 0 ==> r == Ok::<u64, Error>(handle),
            status != 0 ==> (r matches Err(e) && e == error_of_status(status)),
    {
        if status == 0 {
            Ok(handle)
        } else {
            Err(Error::new(status))
        }
    }

    /// Interprets the outcome of the native initialize call that follows a
    /// successful open. On success the handle is ready; on failure the opened
    /// resource must still be closed — exactly once — before the initialize
    /// error is surfaced, so the sequence never leaks a dangling open channel.
    pub fn initialized_from_native(handle: u64, status: u32) -> (r: InitOutcome)
        ensures
            status == 0 ==> (r matches InitOutcome::Ready(h) && h.is_open() && h.native()
                == handle),
            status != 0 ==> r == (InitOutcome::CloseAndFail {
                handle,
                error: error_of_status(status),
            }),
    {
        if status == 0 {
            InitOutcome::Ready(ChannelHandle { handle, released: false })
        } else {
            InitOutcome::CloseAndFail { handle, error: Error::new(status) }
        }
    }

    /// Guard before each read or write: the native handle word to transfer
    /// with while the handle is open, and a deterministic "already closed"
    /// error after release. The handle itself is untouched, so any sequence
    /// of reads and writes, in any order, is permitted while it is open.
    pub fn transfer_handle(&self) -> (r: Result<u64, Error>)
        ensures
            self.is_open() <==> r is Ok,
            self.is_open() ==> r == Ok::<u64, Error>(self.native()),
            !self.is_open() ==> (r matches Err(e) && e == Error::DeviceNotOpened),
    {
        if !self.released {
            Ok(self.handle)
        } else {
            Err(Error::DeviceNotOpened)
        }
    }

    /// Marks the handle released and yields the native handle word that must
    /// now be closed. At most one call ever yields it: a second release
    /// attempt yields nothing, so the native close happens exactly once per
    /// handle instance.
    pub fn begin_release(&mut self) -> (r: Option<u64>)
        ensures
            !final(self).is_open(),
            final(self).native() == old(self).native(),
            old(self).is_open() ==> r == Some(old(self).native()),
            !old(self).is_open() ==> r is None,
    {
        if !self.released {
            self.released = true;
            Some(self.handle)
        } else {
            None
        }
    }
}

/// Narrows a transfer length to the native 32-bit size word. The native
/// driver cannot address more than the 32-bit range in one call, so a longer
/// buffer is rejected with `InvalidParameter` rather than silently truncated.
pub fn transfer_size(len: usize) -> (r: Result<u32, Error>)
    ensures
        len <= u32::MAX <==> r is Ok,
        len <= u32::MAX ==> r == Ok::<u32, Error>(len as u32),
        len > u32::MAX ==> (r matches Err(e) && e == Error::InvalidParameter),
{
    if len <= u32::MAX as usize {
        Ok(len as u32)
    } else {
        Err(Error::InvalidParameter)
    }
}

/// Interprets the outcome of a native read or write: the translated error on
/// a non-zero status, else the transferred byte count, never beyond what was
/// requested (a short transfer is not an error).
pub fn transfer_complete(status: u32, transferred: u32, requested: u32) -> (r: Result<
    usize,
    Error,
>)
    ensures
        status == 0 <==> r is Ok,
        status == 0 && transferred <= requested ==> r == Ok::<usize, Error>(
            transferred as usize,
        ),
        status == 0 && transferred > requested ==> r == Ok::<usize, Error>(requested as usize),
        r matches Ok(n) ==> n <= requested,
        status != 0 ==> (r matches Err(e) && e == error_of_status(status)),
{
    if status == 0 {
        if transferred <= requested {
            Ok(transferred as usize)
        } else {
            Ok(requested as usize)
        }
    } else {
        Err(Error::new(status))
    }
}

} // verus!
