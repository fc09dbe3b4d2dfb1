//! Classification of Windows OS error codes into the library's error
//! taxonomy.
//!
//! The COM-port backend must expose the same semantic error taxonomy as the
//! TTY backend, so callers stay platform-agnostic. Its policy is coarser
//! than the Unix one: the codes that say the device path cannot be opened
//! become `NoDevice`, and everything else is `Io(Other)`.

use vstd::prelude::*;

use crate::errno::error_string;
use crate::error::{Error, ErrorKind, IoKind};

verus! {

/// The system cannot find the file specified.
pub const ERROR_FILE_NOT_FOUND: i32 = 2;
/// The system cannot find the path specified.
pub const ERROR_PATH_NOT_FOUND: i32 = 3;
/// Access is denied.
pub const ERROR_ACCESS_DENIED: i32 = 5;

/// The error kind a raw Windows error code maps to.
pub open spec fn classify_windows_errno(errno: i32) -> ErrorKind {
    if errno == ERROR_FILE_NOT_FOUND || errno == ERROR_PATH_NOT_FOUND || errno
        == ERROR_ACCESS_DENIED {
        ErrorKind::NoDevice
    } else {
        ErrorKind::Io(IoKind::Other)
    }
}

/// Relies on `str::trim` (with `to_string` to own the result): it strips
/// the leading and trailing whitespace that the platform's message facility
/// appends.
#[verifier::external_body]
fn trim_message(s: &str) -> String {
    s.trim().to_string()
}

/// Classifies a raw Windows error code and pairs it with the platform's
/// message for that code, trimmed of trailing whitespace.
pub fn from_raw_os_error(errno: i32) -> (e: Error)
    ensures
        e.kind == classify_windows_errno(errno),
{
    let kind: ErrorKind = if errno == ERROR_FILE_NOT_FOUND || errno == ERROR_PATH_NOT_FOUND
        || errno == ERROR_ACCESS_DENIED {
        ErrorKind::NoDevice
    } else {
        ErrorKind::Io(IoKind::Other)
    };

    let message = error_string(errno);
    Error::new(kind, trim_message(message.as_str()))
}

/// Classifies the calling thread's last OS error with the COM-port
/// backend's policy. The kind is the classification of whatever code the
/// last-error slot held.
pub fn last_os_error() -> Error {
    from_raw_os_error(crate::errno::errno())
}

} // verus!
