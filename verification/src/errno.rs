//! Classification of Unix OS error codes into the library's error taxonomy.
//!
//! The policy: codes that say the device path is busy, missing, a directory,
//! a dangling link, not a character device, or inaccessible become
//! `NoDevice`; codes that say the argument itself is malformed become
//! `InvalidInput`; an interrupted call and a would-block condition keep
//! their identity as I/O subkinds; everything else is `Io(Other)`.

use vstd::prelude::*;

use crate::error::{Error, ErrorKind, IoKind};

verus! {

// The Linux errno values, as the kernel's generic errno tables define them.
/// Device or resource busy.
pub const EBUSY: i32 = 16;
/// Is a directory.
pub const EISDIR: i32 = 21;
/// Too many levels of symbolic links.
pub const ELOOP: i32 = 40;
/// Not a directory.
pub const ENOTDIR: i32 = 20;
/// No such file or directory.
pub const ENOENT: i32 = 2;
/// No such device.
pub const ENODEV: i32 = 19;
/// No such device or address.
pub const ENXIO: i32 = 6;
/// Permission denied.
pub const EACCES: i32 = 13;
/// Invalid argument.
pub const EINVAL: i32 = 22;
/// File name too long.
pub const ENAMETOOLONG: i32 = 36;
/// Interrupted system call.
pub const EINTR: i32 = 4;
/// Operation would block.
pub const EWOULDBLOCK: i32 = 11;
/// Input/output error.
pub const EIO: i32 = 5;
/// Broken pipe.
pub const EPIPE: i32 = 32;

/// The error kind a raw Unix error code maps to.
pub open spec fn classify_errno(errno: i32) -> ErrorKind {
    if errno == EBUSY || errno == EISDIR || errno == ELOOP || errno == ENOTDIR
        || errno == ENOENT || errno == ENODEV || errno == ENXIO || errno == EACCES {
        ErrorKind::NoDevice
    } else if errno == EINVAL || errno == ENAMETOOLONG {
        ErrorKind::InvalidInput
    } else if errno == EINTR {
        ErrorKind::Io(IoKind::Interrupted)
    } else if errno == EWOULDBLOCK {
        ErrorKind::Io(IoKind::WouldBlock)
    } else {
        ErrorKind::Io(IoKind::Other)
    }
}

/// Relies on `std::io::Error::from_raw_os_error` and its `Display`
/// rendering: the platform's error-to-string facility for an OS error code.
#[verifier::external_body]
pub fn error_string(errno: i32) -> String {
    std::io::Error::from_raw_os_error(errno).to_string()
}

/// Relies on `std::io::Error::last_os_error`, with `raw_os_error` to take
/// the code out: it reads the thread's last-OS-error slot, and an error read
/// from that slot always carries its raw code.
#[verifier::external_body]
fn take_last_os_error_code() -> (r: Option<i32>)
    ensures
        r.is_some(),
{
    std::io::Error::last_os_error().raw_os_error()
}

/// Reads the calling thread's last OS error code. The value depends on
/// whatever OS call failed most recently, so nothing more can be said of it;
/// it must be read immediately after the failing call.
pub fn errno() -> i32 {
    take_last_os_error_code().unwrap()
}

/// Classifies a raw OS error code and pairs it with the platform's message
/// for that code.
pub fn from_raw_os_error(errno: i32) -> (e: Error)
    ensures
        e.kind == classify_errno(errno),
{
    let kind: ErrorKind = if errno == EBUSY || errno == EISDIR || errno == ELOOP
        || errno == ENOTDIR || errno == ENOENT || errno == ENODEV || errno == ENXIO
        || errno == EACCES {
        ErrorKind::NoDevice
    } else if errno == EINVAL || errno == ENAMETOOLONG {
        ErrorKind::InvalidInput
    } else if errno == EINTR {
        ErrorKind::Io(IoKind::Interrupted)
    } else if errno == EWOULDBLOCK {
        ErrorKind::Io(IoKind::WouldBlock)
    } else {
        ErrorKind::Io(IoKind::Other)
    };

    Error::new(kind, error_string(errno))
}

/// Classifies the calling thread's last OS error. The kind is the
/// classification of whatever code the last-error slot held.
pub fn last_os_error() -> Error {
    from_raw_os_error(errno())
}

} // verus!
