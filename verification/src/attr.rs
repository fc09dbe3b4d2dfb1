//! The raw terminal-attribute block, modelled as plain values.
//!
//! A live device's control state is a block of four bit-field mode flags,
//! two control-character counts that govern when a raw read returns, and two
//! auxiliary numeric speed fields used by the extended (arbitrary baud rate)
//! encoding. This module holds that block as a plain-value struct together
//! with the Linux bit assignments for every flag the library touches, so the
//! whole codec can be stated and proved bit for bit. Moving the block to and
//! from a device handle is the unverified shell's job.

use vstd::prelude::*;

verus! {

// Control-mode flags (`c_cflag`), Linux bit assignments.
/// Mask of the rate-selector sub-field for the output speed.
pub const CBAUD: u32 = 0o010017;
/// Sentinel rate code: the rate is carried in the auxiliary numeric field
/// instead of the selector sub-field.
pub const BOTHER: u32 = 0o010000;
/// Rate code zero; as the input-speed sub-field it means "same as output".
pub const B0: u32 = 0o000000;
/// Rate code for 50 baud.
pub const B50: u32 = 0o000001;
/// Rate code for 75 baud.
pub const B75: u32 = 0o000002;
/// Rate code for 110 baud.
pub const B110: u32 = 0o000003;
/// Rate code for 134 baud.
pub const B134: u32 = 0o000004;
/// Rate code for 150 baud.
pub const B150: u32 = 0o000005;
/// Rate code for 200 baud.
pub const B200: u32 = 0o000006;
/// Rate code for 300 baud.
pub const B300: u32 = 0o000007;
/// Rate code for 600 baud.
pub const B600: u32 = 0o000010;
/// Rate code for 1200 baud.
pub const B1200: u32 = 0o000011;
/// Rate code for 1800 baud.
pub const B1800: u32 = 0o000012;
/// Rate code for 2400 baud.
pub const B2400: u32 = 0o000013;
/// Rate code for 4800 baud.
pub const B4800: u32 = 0o000014;
/// Rate code for 9600 baud.
pub const B9600: u32 = 0o000015;
/// Rate code for 19200 baud.
pub const B19200: u32 = 0o000016;
/// Rate code for 38400 baud.
pub const B38400: u32 = 0o000017;
/// Rate code for 57600 baud.
pub const B57600: u32 = 0o010001;
/// Rate code for 115200 baud.
pub const B115200: u32 = 0o010002;
/// Rate code for 230400 baud.
pub const B230400: u32 = 0o010003;
/// Rate code for 460800 baud.
pub const B460800: u32 = 0o010004;
/// Rate code for 500000 baud.
pub const B500000: u32 = 0o010005;
/// Rate code for 576000 baud.
pub const B576000: u32 = 0o010006;
/// Rate code for 921600 baud.
pub const B921600: u32 = 0o010007;
/// Rate code for 1000000 baud.
pub const B1000000: u32 = 0o010010;
/// Rate code for 1152000 baud.
pub const B1152000: u32 = 0o010011;
/// Rate code for 1500000 baud.
pub const B1500000: u32 = 0o010012;
/// Rate code for 2000000 baud.
pub const B2000000: u32 = 0o010013;
/// Rate code for 2500000 baud.
pub const B2500000: u32 = 0o010014;
/// Rate code for 3000000 baud.
pub const B3000000: u32 = 0o010015;
/// Rate code for 3500000 baud.
pub const B3500000: u32 = 0o010016;
/// Rate code for 4000000 baud.
pub const B4000000: u32 = 0o010017;
/// How far the input-speed copy of the rate selector is shifted left of the
/// output-speed sub-field.
pub const IBSHIFT: u32 = 16;
/// Mask of the character-size sub-field.
pub const CSIZE: u32 = 0x0000_0030;
/// Character size: five data bits.
pub const CS5: u32 = 0x0000_0000;
/// Character size: six data bits.
pub const CS6: u32 = 0x0000_0010;
/// Character size: seven data bits.
pub const CS7: u32 = 0x0000_0020;
/// Character size: eight data bits.
pub const CS8: u32 = 0x0000_0030;
/// Two stop bits instead of one.
pub const CSTOPB: u32 = 0x0000_0040;
/// Enable the receiver.
pub const CREAD: u32 = 0x0000_0080;
/// Enable parity generation and checking.
pub const PARENB: u32 = 0x0000_0100;
/// Odd parity instead of even.
pub const PARODD: u32 = 0x0000_0200;
/// Ignore modem-control lines.
pub const CLOCAL: u32 = 0x0000_0800;
/// Hardware (RTS/CTS) flow control.
pub const CRTSCTS: u32 = 0x8000_0000;

// Input-mode flags (`c_iflag`).
/// Ignore break conditions.
pub const IGNBRK: u32 = 0x0000_0001;
/// Ignore characters with parity errors.
pub const IGNPAR: u32 = 0x0000_0004;
/// Enable input parity checking.
pub const INPCK: u32 = 0x0000_0010;
/// Translate newline to carriage return on input.
pub const INLCR: u32 = 0x0000_0040;
/// Ignore carriage return on input.
pub const IGNCR: u32 = 0x0000_0080;
/// Translate carriage return to newline on input.
pub const ICRNL: u32 = 0x0000_0100;
/// Enable software flow control on output.
pub const IXON: u32 = 0x0000_0400;
/// Enable software flow control on input.
pub const IXOFF: u32 = 0x0000_1000;

// Output-mode flags (`c_oflag`).
/// Enable output post-processing.
pub const OPOST: u32 = 0x0000_0001;

// Local-mode flags (`c_lflag`).
/// Generate signals on the INTR, QUIT and SUSP characters.
pub const ISIG: u32 = 0x0000_0001;
/// Canonical (line-buffered) input processing.
pub const ICANON: u32 = 0x0000_0002;
/// Echo input characters.
pub const ECHO: u32 = 0x0000_0008;
/// Echo erase characters as backspace-space-backspace.
pub const ECHOE: u32 = 0x0000_0010;
/// Echo a newline after a kill character.
pub const ECHOK: u32 = 0x0000_0020;
/// Echo a newline even when echo is off.
pub const ECHONL: u32 = 0x0000_0040;
/// Enable implementation-defined extended input processing.
pub const IEXTEN: u32 = 0x0000_8000;

/// One raw attribute snapshot: the bits of a device-control block that the
/// library's logic reads or writes, as plain values. `vmin` and `vtime` are
/// the minimum-bytes-to-return and inter-byte-timeout control characters;
/// `c_ispeed` and `c_ospeed` carry a rate that the selector sub-fields of
/// `c_cflag` declare out-of-band via the [`BOTHER`] sentinel.
#[derive(Debug, Clone, Copy, PartialEq, Eq, Structural)]
pub struct RawAttributes {
    /// Input-mode flags.
    pub c_iflag: u32,
    /// Output-mode flags.
    pub c_oflag: u32,
    /// Control-mode flags, including the bit-packed rate selectors.
    pub c_cflag: u32,
    /// Local-mode flags.
    pub c_lflag: u32,
    /// Minimum number of bytes before a raw read returns.
    pub vmin: u8,
    /// Inter-byte timeout of a raw read, in deciseconds.
    pub vtime: u8,
    /// Auxiliary numeric input speed.
    pub c_ispeed: u32,
    /// Auxiliary numeric output speed.
    pub c_ospeed: u32,
}

impl RawAttributes {
    /// An all-zero attribute block, the fixed point a test can start from.
    pub fn new() -> (a: RawAttributes)
        ensures
            a == (RawAttributes {
                c_iflag: 0u32,
                c_oflag: 0u32,
                c_cflag: 0u32,
                c_lflag: 0u32,
                vmin: 0u8,
                vtime: 0u8,
                c_ispeed: 0u32,
                c_ospeed: 0u32,
            }),
    {
        RawAttributes {
            c_iflag: 0,
            c_oflag: 0,
            c_cflag: 0,
            c_lflag: 0,
            vmin: 0,
            vtime: 0,
            c_ispeed: 0,
            c_ospeed: 0,
        }
    }
}

} // verus!
