//! The semantic error taxonomy that every fallible operation of the library
//! reports: a device that cannot be used now, an argument the caller must
//! fix, or an I/O-level failure with a subkind that informs retry strategy.

use vstd::prelude::*;

verus! {

/// The I/O-level subkinds the library distinguishes. They mirror the
/// operating-system conditions a readiness wait or a transfer can end in.
#[derive(Debug, Clone, Copy, PartialEq, Eq, Structural)]
pub enum IoKind {
    /// The call was interrupted by a signal before it could finish.
    Interrupted,
    /// The operation would have to block to proceed.
    WouldBlock,
    /// The configured deadline elapsed before the handle became ready.
    TimedOut,
    /// The peer hung up or the handle is no longer valid.
    BrokenPipe,
    /// Any other OS-specific failure.
    Other,
}

/// What went wrong, at the granularity a caller can act on.
#[derive(Debug, Clone, Copy, PartialEq, Eq, Structural)]
pub enum ErrorKind {
    /// The identifier does not name a usable serial device right now
    /// (absent, busy, or inaccessible); retrying the same identifier
    /// without external change is pointless.
    NoDevice,
    /// The identifier or a requested setting value is malformed; the
    /// caller must fix the argument.
    InvalidInput,
    /// A transient or OS-specific failure.
    Io(IoKind),
}

/// An error: a semantic kind together with a human-readable message.
#[derive(Debug, Clone)]
pub struct Error {
    /// The semantic classification of the failure.
    pub kind: ErrorKind,
    /// The human-readable message, usually the platform's own text for the
    /// underlying OS error code.
    pub description: String,
}

impl Error {
    /// Builds an error from its kind and message.
    pub fn new(kind: ErrorKind, description: String) -> (e: Error)
        ensures
            e.kind == kind,
            e.description@ == description@,
    {
        Error { kind, description }
    }

    /// The semantic classification of the failure.
    pub fn kind(&self) -> (k: ErrorKind)
        ensures
            k == self.kind,
    {
        self.kind
    }

    /// The human-readable message.
    pub fn description(&self) -> (d: &str)
        ensures
            d@ == self.description@,
    {
        self.description.as_str()
    }
}

} // verus!
