//! Classification of a readiness wait's outcome.
//!
//! A port blocks on the OS event-polling primitive for exactly one handle
//! with exactly one interest bit, then hands what came back to this module:
//! the primitive's return value, the error code read immediately after a
//! failed call, and the returned event bits. The classification decides
//! whether the wait succeeded, timed out, found the line hung up, or failed
//! some other way. It performs no retries: an interrupted wait surfaces as
//! `Interrupted` and retrying is the caller's choice.

use vstd::prelude::*;
use vstd::string::StringExecFns;

use crate::errno::{error_string, EINTR, EIO, EPIPE};
use crate::error::{Error, ErrorKind, IoKind};

verus! {

/// Event bit: the handle is readable.
pub const POLLIN: i16 = 0x0001;
/// Event bit: urgent data is readable.
pub const POLLPRI: i16 = 0x0002;
/// Event bit: the handle is writable.
pub const POLLOUT: i16 = 0x0004;
/// Returned event bit: an error condition on the handle.
pub const POLLERR: i16 = 0x0008;
/// Returned event bit: the peer hung up.
pub const POLLHUP: i16 = 0x0010;
/// Returned event bit: the handle is not open.
pub const POLLNVAL: i16 = 0x0020;

/// How a finished wait is classified: `None` for success (the handle became
/// ready for the requested interest), or the I/O subkind of the failure.
///
/// `n` is the polling primitive's return value, `err` the error code read
/// right after it when it failed, `revents` the returned event bits, and
/// `events` the requested interest bits.
pub open spec fn spec_wait_outcome(n: i32, err: i32, revents: i16, events: i16) -> Option<
    IoKind,
> {
    if n < 0 {
        if err == EINTR {
            Some(IoKind::Interrupted)
        } else {
            Some(IoKind::Other)
        }
    } else if n == 0 {
        Some(IoKind::TimedOut)
    } else if revents & events != 0 {
        None
    } else if revents & (POLLHUP | POLLNVAL) != 0 {
        Some(IoKind::BrokenPipe)
    } else {
        Some(IoKind::Other)
    }
}

/// Classifies what a readiness wait returned.
///
/// A negative return is a failed call: interrupted if the error code read
/// after it says so, any other failure otherwise. A zero return means no
/// event arrived before the deadline: the wait timed out. Otherwise the
/// wait succeeded exactly when the requested interest bit came back; a
/// hangup or invalid-handle bit without it is a broken pipe, and any other
/// combination is an unspecified I/O failure.
pub fn wait_outcome(n: i32, err: i32, revents: i16, events: i16) -> (r: Result<(), Error>)
    ensures
        r is Ok <==> spec_wait_outcome(n, err, revents, events) is None,
        r matches Err(e) ==> spec_wait_outcome(n, err, revents, events) matches Some(k)
            && e.kind == ErrorKind::Io(k),
        n == 0 ==> (r matches Err(e) && e.description@ == "Operation timed out"@),
{
    if n < 0 {
        let kind: IoKind = if err == EINTR {
            IoKind::Interrupted
        } else {
            IoKind::Other
        };
        return Err(Error::new(ErrorKind::Io(kind), error_string(err)));
    }

    if n == 0 {
        return Err(
            Error::new(
                ErrorKind::Io(IoKind::TimedOut),
                String::from_str("Operation timed out"),
            ),
        );
    }

    if revents & events != 0 {
        return Ok(());
    }

    if revents & (POLLHUP | POLLNVAL) != 0 {
        return Err(Error::new(ErrorKind::Io(IoKind::BrokenPipe), error_string(EPIPE)));
    }

    Err(Error::new(ErrorKind::Io(IoKind::Other), error_string(EIO)))
}

} // verus!
