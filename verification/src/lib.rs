//! Serial-port configuration and error-classification core.
//!
//! This crate holds the logic of a Unix TTY serial-port backend that can be
//! stated and proved over plain values: the portable configuration model
//! (baud rate, character size, parity, stop bits, flow control), the
//! bit-packed terminal-attribute codec of the extended (arbitrary baud rate)
//! backend, the classification of OS error codes into a semantic error
//! taxonomy, and the classification of readiness-wait outcomes. The raw
//! system calls that carry these values to and from a device live outside
//! the verified library.

use vstd::prelude::*;

pub mod attr;
pub mod config;
pub mod errno;
pub mod error;
pub mod poll;
pub mod termios2;
pub mod tty;
pub mod windows_error;

verus! {

pub use config::BaudRate;
pub use config::CharSize;
pub use config::FlowControl;
pub use config::Parity;
pub use config::PortSettings;
pub use config::StopBits;
pub use error::Error;
pub use error::ErrorKind;
pub use error::IoKind;
pub use attr::RawAttributes;
pub use tty::TTYPort;
pub use tty::TTYSettings;

} // verus!
