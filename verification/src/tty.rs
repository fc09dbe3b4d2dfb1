//! The TTY port and its settings: the portable configuration model layered
//! over one raw attribute snapshot.
//!
//! Every getter reads, and every setter rewrites, only the bits its field
//! owns; the snapshot is mutated in memory and written back to the device as
//! a whole block by the unverified shell. The baud-rate accessors go through
//! the extended speed codec.

use vstd::prelude::*;

use crate::attr::RawAttributes;
use crate::attr::{
    B0, B110, B115200, B1200, B134, B150, B19200, B200, B2400, B300, B38400, B4800, B50,
    B57600, B600, B75, B9600,
};
use crate::attr::{
    B1000000, B1152000, B1500000, B1800, B2000000, B230400, B2500000, B3000000, B3500000,
    B4000000, B460800, B500000, B576000, B921600,
};
use crate::attr::{BOTHER, CBAUD, IBSHIFT};
use crate::attr::{CLOCAL, CREAD, CRTSCTS, CS5, CS6, CS7, CS8, CSIZE, CSTOPB, PARENB, PARODD};
use crate::attr::{ECHO, ECHOE, ECHOK, ECHONL, ICANON, IEXTEN, ISIG};
use crate::attr::{ICRNL, IGNBRK, IGNCR, IGNPAR, INLCR, INPCK, IXOFF, IXON, OPOST};
use std::time::Duration;

use crate::config::{BaudRate, CharSize, FlowControl, Parity, PortSettings, StopBits};
use crate::errno::{from_raw_os_error, EINVAL};
use crate::error::{Error, ErrorKind};
use crate::termios2;
use crate::termios2::{
    is_selector_code, spec_input_speed, spec_output_speed, spec_set_speed, Speed,
};

verus! {

/// The standard rate code for a baud rate, or `None` where the rate has no
/// code and must travel as a custom numeric rate.
pub open spec fn spec_code_for_baud(b: BaudRate) -> Option<u32> {
    match b {
        BaudRate::Baud110 => Some(B110),
        BaudRate::Baud300 => Some(B300),
        BaudRate::Baud600 => Some(B600),
        BaudRate::Baud1200 => Some(B1200),
        BaudRate::Baud2400 => Some(B2400),
        BaudRate::Baud4800 => Some(B4800),
        BaudRate::Baud9600 => Some(B9600),
        BaudRate::Baud19200 => Some(B19200),
        BaudRate::Baud38400 => Some(B38400),
        BaudRate::Baud57600 => Some(B57600),
        BaudRate::Baud115200 => Some(B115200),
        BaudRate::BaudOther(n) => if n == 50 {
            Some(B50)
        } else if n == 75 {
            Some(B75)
        } else if n == 134 {
            Some(B134)
        } else if n == 150 {
            Some(B150)
        } else if n == 200 {
            Some(B200)
        } else if n == 1800 {
            Some(B1800)
        } else if n == 230400 {
            Some(B230400)
        } else if n == 460800 {
            Some(B460800)
        } else if n == 500000 {
            Some(B500000)
        } else if n == 576000 {
            Some(B576000)
        } else if n == 921600 {
            Some(B921600)
        } else if n == 1000000 {
            Some(B1000000)
        } else if n == 1152000 {
            Some(B1152000)
        } else if n == 1500000 {
            Some(B1500000)
        } else if n == 2000000 {
            Some(B2000000)
        } else if n == 2500000 {
            Some(B2500000)
        } else if n == 3000000 {
            Some(B3000000)
        } else if n == 3500000 {
            Some(B3500000)
        } else if n == 4000000 {
            Some(B4000000)
        } else {
            None
        },
    }
}

/// The baud rate a standard rate code decodes to, or `None` for a code the
/// table does not know.
pub open spec fn spec_baud_for_code(code: u32) -> Option<BaudRate> {
    if code == B50 {
        Some(BaudRate::BaudOther(50))
    } else if code == B75 {
        Some(BaudRate::BaudOther(75))
    } else if code == B110 {
        Some(BaudRate::Baud110)
    } else if code == B134 {
        Some(BaudRate::BaudOther(134))
    } else if code == B150 {
        Some(BaudRate::BaudOther(150))
    } else if code == B200 {
        Some(BaudRate::BaudOther(200))
    } else if code == B300 {
        Some(BaudRate::Baud300)
    } else if code == B600 {
        Some(BaudRate::Baud600)
    } else if code == B1200 {
        Some(BaudRate::Baud1200)
    } else if code == B1800 {
        Some(BaudRate::BaudOther(1800))
    } else if code == B2400 {
        Some(BaudRate::Baud2400)
    } else if code == B4800 {
        Some(BaudRate::Baud4800)
    } else if code == B9600 {
        Some(BaudRate::Baud9600)
    } else if code == B19200 {
        Some(BaudRate::Baud19200)
    } else if code == B38400 {
        Some(BaudRate::Baud38400)
    } else if code == B57600 {
        Some(BaudRate::Baud57600)
    } else if code == B115200 {
        Some(BaudRate::Baud115200)
    } else if code == B230400 {
        Some(BaudRate::BaudOther(230400))
    } else if code == B460800 {
        Some(BaudRate::BaudOther(460800))
    } else if code == B500000 {
        Some(BaudRate::BaudOther(500000))
    } else if code == B576000 {
        Some(BaudRate::BaudOther(576000))
    } else if code == B921600 {
        Some(BaudRate::BaudOther(921600))
    } else if code == B1000000 {
        Some(BaudRate::BaudOther(1000000))
    } else if code == B1152000 {
        Some(BaudRate::BaudOther(1152000))
    } else if code == B1500000 {
        Some(BaudRate::BaudOther(1500000))
    } else if code == B2000000 {
        Some(BaudRate::BaudOther(2000000))
    } else if code == B2500000 {
        Some(BaudRate::BaudOther(2500000))
    } else if code == B3000000 {
        Some(BaudRate::BaudOther(3000000))
    } else if code == B3500000 {
        Some(BaudRate::BaudOther(3500000))
    } else if code == B4000000 {
        Some(BaudRate::BaudOther(4000000))
    } else {
        None
    }
}

/// The speed a requested baud rate is encoded as: its standard code where
/// the table has one, else a custom numeric rate (truncated to the width of
/// the numeric rate field).
pub open spec fn spec_speed_for_baud(b: BaudRate) -> Speed {
    match spec_code_for_baud(b) {
        Some(code) => Speed::Standard(code),
        None => Speed::Custom(b.spec_speed() as u32),
    }
}

/// The combined baud rate an attribute block declares: `None` when the
/// output and input speeds disagree or the standard code is unknown.
pub open spec fn spec_baud_rate(a: RawAttributes) -> Option<BaudRate> {
    if spec_output_speed(a) != spec_input_speed(a) {
        None
    } else {
        match spec_output_speed(a) {
            Speed::Standard(code) => spec_baud_for_code(code),
            Speed::Custom(n) => Some(BaudRate::BaudOther(n as usize)),
        }
    }
}

/// Serial-port settings for TTY devices: the portable accessors over one
/// raw attribute snapshot.
#[derive(Debug, Clone, Copy, PartialEq, Eq, Structural)]
pub struct TTYSettings {
    /// The raw attribute snapshot the accessors read and rewrite.
    pub termios: RawAttributes,
}

impl TTYSettings {
    /// Wraps a raw attribute snapshot.
    pub fn new(termios: RawAttributes) -> (s: TTYSettings)
        ensures
            s.termios == termios,
    {
        TTYSettings { termios }
    }

    /// The combined baud rate of the snapshot: `None` when the output and
    /// input speeds disagree or the code is not in the table.
    pub fn baud_rate(&self) -> (r: Option<BaudRate>)
        ensures
            r == spec_baud_rate(self.termios),
    {
        let (ospeed, ispeed) = termios2::get_speed(&self.termios);

        if ospeed != ispeed {
            return None;
        }

        match ospeed {
            Speed::Standard(baud) => {
                if baud == B50 {
                    Some(BaudRate::BaudOther(50))
                } else if baud == B75 {
                    Some(BaudRate::BaudOther(75))
                } else if baud == B110 {
                    Some(BaudRate::Baud110)
                } else if baud == B134 {
                    Some(BaudRate::BaudOther(134))
                } else if baud == B150 {
                    Some(BaudRate::BaudOther(150))
                } else if baud == B200 {
                    Some(BaudRate::BaudOther(200))
                } else if baud == B300 {
                    Some(BaudRate::Baud300)
                } else if baud == B600 {
                    Some(BaudRate::Baud600)
                } else if baud == B1200 {
                    Some(BaudRate::Baud1200)
                } else if baud == B1800 {
                    Some(BaudRate::BaudOther(1800))
                } else if baud == B2400 {
                    Some(BaudRate::Baud2400)
                } else if baud == B4800 {
                    Some(BaudRate::Baud4800)
                } else if baud == B9600 {
                    Some(BaudRate::Baud9600)
                } else if baud == B19200 {
                    Some(BaudRate::Baud19200)
                } else if baud == B38400 {
                    Some(BaudRate::Baud38400)
                } else if baud == B57600 {
                    Some(BaudRate::Baud57600)
                } else if baud == B115200 {
                    Some(BaudRate::Baud115200)
                } else if baud == B230400 {
                    Some(BaudRate::BaudOther(230400))
                } else if baud == B460800 {
                    Some(BaudRate::BaudOther(460800))
                } else if baud == B500000 {
                    Some(BaudRate::BaudOther(500000))
                } else if baud == B576000 {
                    Some(BaudRate::BaudOther(576000))
                } else if baud == B921600 {
                    Some(BaudRate::BaudOther(921600))
                } else if baud == B1000000 {
                    Some(BaudRate::BaudOther(1000000))
                } else if baud == B1152000 {
                    Some(BaudRate::BaudOther(1152000))
                } else if baud == B1500000 {
                    Some(BaudRate::BaudOther(1500000))
                } else if baud == B2000000 {
                    Some(BaudRate::BaudOther(2000000))
                } else if baud == B2500000 {
                    Some(BaudRate::BaudOther(2500000))
                } else if baud == B3000000 {
                    Some(BaudRate::BaudOther(3000000))
                } else if baud == B3500000 {
                    Some(BaudRate::BaudOther(3500000))
                } else if baud == B4000000 {
                    Some(BaudRate::BaudOther(4000000))
                } else {
                    None
                }
            }
            Speed::Custom(baud) => Some(BaudRate::BaudOther(baud as usize)),
        }
    }

    /// Encodes the requested baud rate into the snapshot: a table rate as
    /// its standard code, anything else as a custom numeric rate.
    pub fn set_baud_rate(&mut self, baud_rate: BaudRate) -> (r: Result<(), Error>)
        ensures
            r.is_ok(),
            final(self).termios == spec_set_speed(
                old(self).termios,
                spec_speed_for_baud(baud_rate),
            ),
    {
        let speed: Speed = match baud_rate {
            BaudRate::Baud110 => Speed::Standard(B110),
            BaudRate::Baud300 => Speed::Standard(B300),
            BaudRate::Baud600 => Speed::Standard(B600),
            BaudRate::Baud1200 => Speed::Standard(B1200),
            BaudRate::Baud2400 => Speed::Standard(B2400),
            BaudRate::Baud4800 => Speed::Standard(B4800),
            BaudRate::Baud9600 => Speed::Standard(B9600),
            BaudRate::Baud19200 => Speed::Standard(B19200),
            BaudRate::Baud38400 => Speed::Standard(B38400),
            BaudRate::Baud57600 => Speed::Standard(B57600),
            BaudRate::Baud115200 => Speed::Standard(B115200),
            BaudRate::BaudOther(n) => {
                if n == 50 {
                    Speed::Standard(B50)
                } else if n == 75 {
                    Speed::Standard(B75)
                } else if n == 134 {
                    Speed::Standard(B134)
                } else if n == 150 {
                    Speed::Standard(B150)
                } else if n == 200 {
                    Speed::Standard(B200)
                } else if n == 1800 {
                    Speed::Standard(B1800)
                } else if n == 230400 {
                    Speed::Standard(B230400)
                } else if n == 460800 {
                    Speed::Standard(B460800)
                } else if n == 500000 {
                    Speed::Standard(B500000)
                } else if n == 576000 {
                    Speed::Standard(B576000)
                } else if n == 921600 {
                    Speed::Standard(B921600)
                } else if n == 1000000 {
                    Speed::Standard(B1000000)
                } else if n == 1152000 {
                    Speed::Standard(B1152000)
                } else if n == 1500000 {
                    Speed::Standard(B1500000)
                } else if n == 2000000 {
                    Speed::Standard(B2000000)
                } else if n == 2500000 {
                    Speed::Standard(B2500000)
                } else if n == 3000000 {
                    Speed::Standard(B3000000)
                } else if n == 3500000 {
                    Speed::Standard(B3500000)
                } else if n == 4000000 {
                    Speed::Standard(B4000000)
                } else {
                    Speed::Custom(#[verifier::truncate] (n as u32))
                }
            }
        };

        termios2::set_speed(&mut self.termios, speed)
    }

    /// The character size of the snapshot.
    pub fn char_size(&self) -> (r: Option<CharSize>)
        ensures
            r == spec_char_size(self.termios),
    {
        let bits: u32 = self.termios.c_cflag & CSIZE;
        if bits == CS8 {
            Some(CharSize::Bits8)
        } else if bits == CS7 {
            Some(CharSize::Bits7)
        } else if bits == CS6 {
            Some(CharSize::Bits6)
        } else if bits == CS5 {
            Some(CharSize::Bits5)
        } else {
            None
        }
    }

    /// Sets the character size, rewriting only the character-size sub-field.
    pub fn set_char_size(&mut self, char_size: CharSize)
        ensures
            final(self).termios == spec_set_char_size(old(self).termios, char_size),
    {
        let size: u32 = match char_size {
            CharSize::Bits5 => CS5,
            CharSize::Bits6 => CS6,
            CharSize::Bits7 => CS7,
            CharSize::Bits8 => CS8,
        };

        self.termios.c_cflag = self.termios.c_cflag & !CSIZE;
        self.termios.c_cflag = self.termios.c_cflag | size;
    }

    /// The parity mode of the snapshot. Every bit pattern means some mode,
    /// so this is always `Some`.
    pub fn parity(&self) -> (r: Option<Parity>)
        ensures
            r == spec_parity(self.termios),
    {
        if self.termios.c_cflag & PARENB != 0 {
            if self.termios.c_cflag & PARODD != 0 {
                Some(Parity::ParityOdd)
            } else {
                Some(Parity::ParityEven)
            }
        } else {
            Some(Parity::ParityNone)
        }
    }

    /// Sets the parity mode, rewriting only the parity-enable and parity-odd
    /// control bits and the input parity-check and ignore-parity bits.
    pub fn set_parity(&mut self, parity: Parity)
        ensures
            final(self).termios == spec_set_parity(old(self).termios, parity),
    {
        match parity {
            Parity::ParityNone => {
                self.termios.c_cflag = self.termios.c_cflag & !(PARENB | PARODD);
                self.termios.c_iflag = self.termios.c_iflag & !INPCK;
                self.termios.c_iflag = self.termios.c_iflag | IGNPAR;
            }
            Parity::ParityOdd => {
                self.termios.c_cflag = self.termios.c_cflag | (PARENB | PARODD);
                self.termios.c_iflag = self.termios.c_iflag | INPCK;
                self.termios.c_iflag = self.termios.c_iflag & !IGNPAR;
            }
            Parity::ParityEven => {
                self.termios.c_cflag = self.termios.c_cflag & !PARODD;
                self.termios.c_cflag = self.termios.c_cflag | PARENB;
                self.termios.c_iflag = self.termios.c_iflag | INPCK;
                self.termios.c_iflag = self.termios.c_iflag & !IGNPAR;
            }
        }
    }

    /// The stop-bit count of the snapshot; always `Some`.
    pub fn stop_bits(&self) -> (r: Option<StopBits>)
        ensures
            r == spec_stop_bits(self.termios),
    {
        if self.termios.c_cflag & CSTOPB != 0 {
            Some(StopBits::Stop2)
        } else {
            Some(StopBits::Stop1)
        }
    }

    /// Sets the stop-bit count, rewriting only the two-stop-bits control
    /// bit.
    pub fn set_stop_bits(&mut self, stop_bits: StopBits)
        ensures
            final(self).termios == spec_set_stop_bits(old(self).termios, stop_bits),
    {
        match stop_bits {
            StopBits::Stop1 => {
                self.termios.c_cflag = self.termios.c_cflag & !CSTOPB;
            }
            StopBits::Stop2 => {
                self.termios.c_cflag = self.termios.c_cflag | CSTOPB;
            }
        }
    }

    /// The flow-control discipline of the snapshot; always `Some`, and
    /// hardware flow control shadows the software bits.
    pub fn flow_control(&self) -> (r: Option<FlowControl>)
        ensures
            r == spec_flow_control(self.termios),
    {
        if self.termios.c_cflag & CRTSCTS != 0 {
            Some(FlowControl::FlowHardware)
        } else if self.termios.c_iflag & (IXON | IXOFF) != 0 {
            Some(FlowControl::FlowSoftware)
        } else {
            Some(FlowControl::FlowNone)
        }
    }

    /// Sets the flow-control discipline, rewriting only the hardware
    /// flow-control bit and the two software flow-control bits.
    pub fn set_flow_control(&mut self, flow_control: FlowControl)
        ensures
            final(self).termios == spec_set_flow_control(old(self).termios, flow_control),
    {
        match flow_control {
            FlowControl::FlowNone => {
                self.termios.c_iflag = self.termios.c_iflag & !(IXON | IXOFF);
                self.termios.c_cflag = self.termios.c_cflag & !CRTSCTS;
            }
            FlowControl::FlowSoftware => {
                self.termios.c_iflag = self.termios.c_iflag | (IXON | IXOFF);
                self.termios.c_cflag = self.termios.c_cflag & !CRTSCTS;
            }
            FlowControl::FlowHardware => {
                self.termios.c_iflag = self.termios.c_iflag & !(IXON | IXOFF);
                self.termios.c_cflag = self.termios.c_cflag | CRTSCTS;
            }
        }
    }
}

/// The control bits that select a character size.
pub open spec fn spec_char_size_bits(cs: CharSize) -> u32 {
    match cs {
        CharSize::Bits5 => CS5,
        CharSize::Bits6 => CS6,
        CharSize::Bits7 => CS7,
        CharSize::Bits8 => CS8,
    }
}

/// The character size an attribute block declares.
pub open spec fn spec_char_size(a: RawAttributes) -> Option<CharSize> {
    let bits = a.c_cflag & CSIZE;
    if bits == CS8 {
        Some(CharSize::Bits8)
    } else if bits == CS7 {
        Some(CharSize::Bits7)
    } else if bits == CS6 {
        Some(CharSize::Bits6)
    } else if bits == CS5 {
        Some(CharSize::Bits5)
    } else {
        None
    }
}

/// The attribute block that setting a character size yields.
pub open spec fn spec_set_char_size(a: RawAttributes, cs: CharSize) -> RawAttributes {
    RawAttributes { c_cflag: (a.c_cflag & !CSIZE) | spec_char_size_bits(cs), ..a }
}

/// The parity mode an attribute block declares.
pub open spec fn spec_parity(a: RawAttributes) -> Option<Parity> {
    if a.c_cflag & PARENB != 0 {
        if a.c_cflag & PARODD != 0 {
            Some(Parity::ParityOdd)
        } else {
            Some(Parity::ParityEven)
        }
    } else {
        Some(Parity::ParityNone)
    }
}

/// The attribute block that setting a parity mode yields.
pub open spec fn spec_set_parity(a: RawAttributes, p: Parity) -> RawAttributes {
    match p {
        Parity::ParityNone => RawAttributes {
            c_cflag: a.c_cflag & !(PARENB | PARODD),
            c_iflag: (a.c_iflag & !INPCK) | IGNPAR,
            ..a
        },
        Parity::ParityOdd => RawAttributes {
            c_cflag: a.c_cflag | (PARENB | PARODD),
            c_iflag: (a.c_iflag | INPCK) & !IGNPAR,
            ..a
        },
        Parity::ParityEven => RawAttributes {
            c_cflag: (a.c_cflag & !PARODD) | PARENB,
            c_iflag: (a.c_iflag | INPCK) & !IGNPAR,
            ..a
        },
    }
}

/// The stop-bit count an attribute block declares.
pub open spec fn spec_stop_bits(a: RawAttributes) -> Option<StopBits> {
    if a.c_cflag & CSTOPB != 0 {
        Some(StopBits::Stop2)
    } else {
        Some(StopBits::Stop1)
    }
}

/// The attribute block that setting a stop-bit count yields.
pub open spec fn spec_set_stop_bits(a: RawAttributes, s: StopBits) -> RawAttributes {
    match s {
        StopBits::Stop1 => RawAttributes { c_cflag: a.c_cflag & !CSTOPB, ..a },
        StopBits::Stop2 => RawAttributes { c_cflag: a.c_cflag | CSTOPB, ..a },
    }
}

/// The flow-control discipline an attribute block declares.
pub open spec fn spec_flow_control(a: RawAttributes) -> Option<FlowControl> {
    if a.c_cflag & CRTSCTS != 0 {
        Some(FlowControl::FlowHardware)
    } else if a.c_iflag & (IXON | IXOFF) != 0 {
        Some(FlowControl::FlowSoftware)
    } else {
        Some(FlowControl::FlowNone)
    }
}

/// The raw state that applying a whole portable settings aggregate yields:
/// the five setters in order — baud rate, character size, parity, stop
/// bits, flow control.
pub open spec fn spec_apply(a: RawAttributes, s: PortSettings) -> RawAttributes {
    spec_set_flow_control(
        spec_set_stop_bits(
            spec_set_parity(
                spec_set_char_size(
                    spec_set_speed(a, spec_speed_for_baud(s.baud_rate)),
                    s.char_size,
                ),
                s.parity,
            ),
            s.stop_bits,
        ),
        s.flow_control,
    )
}

impl TTYSettings {
    /// Applies a whole portable settings aggregate to the snapshot, one
    /// field after the other.
    pub fn apply(&mut self, settings: &PortSettings) -> (r: Result<(), Error>)
        ensures
            r.is_ok(),
            final(self).termios == spec_apply(old(self).termios, *settings),
    {
        self.set_baud_rate(settings.baud_rate)?;
        self.set_char_size(settings.char_size);
        self.set_parity(settings.parity);
        self.set_stop_bits(settings.stop_bits);
        self.set_flow_control(settings.flow_control);
        Ok(())
    }
}

/// A rate code between the smallest and largest table codes of its block is
/// one the selector sub-field can carry faithfully.
proof fn lemma_selector_range(code: u32)
    by (bit_vector)
    requires
        1 <= code <= 15 || 0x1001 <= code <= 0x100F,
    ensures
        code & !CBAUD == 0,
        code != BOTHER,
{
}

/// Every rate code the table hands out can be carried faithfully by the
/// selector sub-field.
proof fn lemma_table_code_is_selector(b: BaudRate)
    ensures
        spec_code_for_baud(b) matches Some(code) ==> is_selector_code(code),
{
    match spec_code_for_baud(b) {
        Some(code) => {
            assert(1 <= code <= 15 || 0x1001 <= code <= 0x100F);
            lemma_selector_range(code);
        }
        None => {}
    }
}

/// Law: for every baud rate whose numeric value fits the numeric rate
/// field, encoding it into any attribute block and decoding the block
/// returns exactly that rate.
pub proof fn lemma_baud_rate_round_trip(a: RawAttributes, b: BaudRate)
    requires
        b.spec_speed() <= u32::MAX,
    ensures
        spec_baud_rate(spec_set_speed(a, spec_speed_for_baud(b))) == Some(b),
{
    let s = spec_speed_for_baud(b);
    lemma_table_code_is_selector(b);
    termios2::lemma_set_speed_round_trip(a, s);
    match spec_code_for_baud(b) {
        Some(code) => {}
        None => {
            lemma_usize_u32_round_trip(b.spec_speed());
        }
    }
}

/// A numeric value no larger than the largest 32-bit value survives the trip
/// into the 32-bit numeric rate field and back.
proof fn lemma_usize_u32_round_trip(n: usize)
    by (bit_vector)
    requires
        n <= 0xffff_ffffusize,
    ensures
        (n as u32) as usize == n,
{
}

/// Law: encoding the same baud rate twice leaves exactly the attribute
/// block that encoding it once leaves.
pub proof fn lemma_set_baud_rate_idempotent(a: RawAttributes, b: BaudRate)
    ensures
        spec_set_speed(spec_set_speed(a, spec_speed_for_baud(b)), spec_speed_for_baud(b))
            == spec_set_speed(a, spec_speed_for_baud(b)),
{
    termios2::lemma_set_speed_idempotent(a, spec_speed_for_baud(b));
}

/// Law: a block whose output and input speeds disagree declares no combined
/// baud rate.
pub proof fn lemma_asymmetric_speed_has_no_baud_rate(a: RawAttributes)
    requires
        spec_output_speed(a) != spec_input_speed(a),
    ensures
        spec_baud_rate(a) is None,
{
}

/// The attribute block that setting a flow-control discipline yields.
pub open spec fn spec_set_flow_control(a: RawAttributes, f: FlowControl) -> RawAttributes {
    match f {
        FlowControl::FlowNone => RawAttributes {
            c_iflag: a.c_iflag & !(IXON | IXOFF),
            c_cflag: a.c_cflag & !CRTSCTS,
            ..a
        },
        FlowControl::FlowSoftware => RawAttributes {
            c_iflag: a.c_iflag | (IXON | IXOFF),
            c_cflag: a.c_cflag & !CRTSCTS,
            ..a
        },
        FlowControl::FlowHardware => RawAttributes {
            c_iflag: a.c_iflag & !(IXON | IXOFF),
            c_cflag: a.c_cflag | CRTSCTS,
            ..a
        },
    }
}

/// Law: setting a character size and reading it back returns exactly that
/// size.
pub proof fn lemma_char_size_round_trip(a: RawAttributes, cs: CharSize)
    ensures
        spec_char_size(spec_set_char_size(a, cs)) == Some(cs),
{
    let c = a.c_cflag;
    assert(((c & !CSIZE) | CS5) & CSIZE == CS5 && ((c & !CSIZE) | CS6) & CSIZE == CS6 && ((c
        & !CSIZE) | CS7) & CSIZE == CS7 && ((c & !CSIZE) | CS8) & CSIZE == CS8)
        by (bit_vector);
}

/// Law: setting a parity mode and reading it back returns exactly that
/// mode.
pub proof fn lemma_parity_round_trip(a: RawAttributes, p: Parity)
    ensures
        spec_parity(spec_set_parity(a, p)) == Some(p),
{
    let c = a.c_cflag;
    assert((c & !(PARENB | PARODD)) & PARENB == 0 && (c | (PARENB | PARODD)) & PARENB != 0
        && (c | (PARENB | PARODD)) & PARODD != 0 && ((c & !PARODD) | PARENB) & PARENB != 0
        && ((c & !PARODD) | PARENB) & PARODD == 0) by (bit_vector);
}

/// Law: setting a stop-bit count and reading it back returns exactly that
/// count.
pub proof fn lemma_stop_bits_round_trip(a: RawAttributes, s: StopBits)
    ensures
        spec_stop_bits(spec_set_stop_bits(a, s)) == Some(s),
{
    let c = a.c_cflag;
    assert((c & !CSTOPB) & CSTOPB == 0 && (c | CSTOPB) & CSTOPB != 0) by (bit_vector);
}

/// Law: setting a flow-control discipline and reading it back returns
/// exactly that discipline.
pub proof fn lemma_flow_control_round_trip(a: RawAttributes, f: FlowControl)
    ensures
        spec_flow_control(spec_set_flow_control(a, f)) == Some(f),
{
    let c = a.c_cflag;
    let i = a.c_iflag;
    assert((c & !CRTSCTS) & CRTSCTS == 0 && (c | CRTSCTS) & CRTSCTS != 0 && (i & !(IXON
        | IXOFF)) & (IXON | IXOFF) == 0 && (i | (IXON | IXOFF)) & (IXON | IXOFF) != 0)
        by (bit_vector);
}

/// Law: setting the character size never perturbs the baud rate, parity,
/// stop bits or flow control.
pub proof fn lemma_set_char_size_preserves_others(a: RawAttributes, cs: CharSize)
    ensures
        spec_baud_rate(spec_set_char_size(a, cs)) == spec_baud_rate(a),
        spec_parity(spec_set_char_size(a, cs)) == spec_parity(a),
        spec_stop_bits(spec_set_char_size(a, cs)) == spec_stop_bits(a),
        spec_flow_control(spec_set_char_size(a, cs)) == spec_flow_control(a),
{
    let c = a.c_cflag;
    let bits = spec_char_size_bits(cs);
    assert(bits == CS5 || bits == CS6 || bits == CS7 || bits == CS8);
    assert((bits == 0 || bits == 0x10 || bits == 0x20 || bits == 0x30) ==> {
        let c2 = (c & !CSIZE) | bits;
        c2 & CBAUD == c & CBAUD && (c2 >> 16) & CBAUD == (c >> 16) & CBAUD && c2 & PARENB == c
            & PARENB && c2 & PARODD == c & PARODD && c2 & CSTOPB == c & CSTOPB && c2 & CRTSCTS
            == c & CRTSCTS
    }) by (bit_vector);
}

/// Law: setting the parity mode never perturbs the baud rate, character
/// size, stop bits or flow control.
pub proof fn lemma_set_parity_preserves_others(a: RawAttributes, p: Parity)
    ensures
        spec_baud_rate(spec_set_parity(a, p)) == spec_baud_rate(a),
        spec_char_size(spec_set_parity(a, p)) == spec_char_size(a),
        spec_stop_bits(spec_set_parity(a, p)) == spec_stop_bits(a),
        spec_flow_control(spec_set_parity(a, p)) == spec_flow_control(a),
{
    let c = a.c_cflag;
    let i = a.c_iflag;
    let c2 = spec_set_parity(a, p).c_cflag;
    let i2 = spec_set_parity(a, p).c_iflag;
    assert((c2 == c & !(PARENB | PARODD) || c2 == c | (PARENB | PARODD) || c2 == (c & !PARODD)
        | PARENB) ==> (c2 & CBAUD == c & CBAUD && (c2 >> 16) & CBAUD == (c >> 16) & CBAUD && c2
        & CSIZE == c & CSIZE && c2 & CSTOPB == c & CSTOPB && c2 & CRTSCTS == c & CRTSCTS))
        by (bit_vector);
    assert((i2 == (i & !INPCK) | IGNPAR || i2 == (i | INPCK) & !IGNPAR) ==> i2 & (IXON | IXOFF)
        == i & (IXON | IXOFF)) by (bit_vector);
}

/// Law: setting the stop-bit count never perturbs the baud rate, character
/// size, parity or flow control.
pub proof fn lemma_set_stop_bits_preserves_others(a: RawAttributes, s: StopBits)
    ensures
        spec_baud_rate(spec_set_stop_bits(a, s)) == spec_baud_rate(a),
        spec_char_size(spec_set_stop_bits(a, s)) == spec_char_size(a),
        spec_parity(spec_set_stop_bits(a, s)) == spec_parity(a),
        spec_flow_control(spec_set_stop_bits(a, s)) == spec_flow_control(a),
{
    let c = a.c_cflag;
    let c2 = spec_set_stop_bits(a, s).c_cflag;
    assert((c2 == c & !CSTOPB || c2 == c | CSTOPB) ==> (c2 & CBAUD == c & CBAUD && (c2 >> 16)
        & CBAUD == (c >> 16) & CBAUD && c2 & CSIZE == c & CSIZE && c2 & PARENB == c & PARENB
        && c2 & PARODD == c & PARODD && c2 & CRTSCTS == c & CRTSCTS)) by (bit_vector);
}

/// Law: setting the flow-control discipline never perturbs the baud rate,
/// character size, parity or stop bits.
pub proof fn lemma_set_flow_control_preserves_others(a: RawAttributes, f: FlowControl)
    ensures
        spec_baud_rate(spec_set_flow_control(a, f)) == spec_baud_rate(a),
        spec_char_size(spec_set_flow_control(a, f)) == spec_char_size(a),
        spec_parity(spec_set_flow_control(a, f)) == spec_parity(a),
        spec_stop_bits(spec_set_flow_control(a, f)) == spec_stop_bits(a),
{
    let c = a.c_cflag;
    let c2 = spec_set_flow_control(a, f).c_cflag;
    assert((c2 == c & !CRTSCTS || c2 == c | CRTSCTS) ==> (c2 & CBAUD == c & CBAUD && (c2 >> 16)
        & CBAUD == (c >> 16) & CBAUD && c2 & CSIZE == c & CSIZE && c2 & PARENB == c & PARENB
        && c2 & PARODD == c & PARODD && c2 & CSTOPB == c & CSTOPB)) by (bit_vector);
}

/// Law: encoding a baud rate never perturbs the character size, parity,
/// stop bits or flow control.
pub proof fn lemma_set_baud_rate_preserves_others(a: RawAttributes, b: BaudRate)
    ensures
        spec_char_size(spec_set_speed(a, spec_speed_for_baud(b))) == spec_char_size(a),
        spec_parity(spec_set_speed(a, spec_speed_for_baud(b))) == spec_parity(a),
        spec_stop_bits(spec_set_speed(a, spec_speed_for_baud(b))) == spec_stop_bits(a),
        spec_flow_control(spec_set_speed(a, spec_speed_for_baud(b))) == spec_flow_control(a),
{
    let c = a.c_cflag;
    lemma_table_code_is_selector(b);
    let s = spec_speed_for_baud(b);
    let code: u32 = match s {
        Speed::Standard(code) => code,
        Speed::Custom(_) => BOTHER,
    };
    assert(BOTHER & !CBAUD == 0u32) by (bit_vector);
    assert(code & !CBAUD == 0);
    let c2 = spec_set_speed(a, s).c_cflag;
    assert(c2 == ((c & !(CBAUD | (CBAUD << IBSHIFT))) | (B0 << IBSHIFT)) | code);
    assert((code & !CBAUD == 0) ==> {
        let c3 = ((c & !(CBAUD | (CBAUD << IBSHIFT))) | (B0 << IBSHIFT)) | code;
        c3 & CSIZE == c & CSIZE && c3 & PARENB == c & PARENB && c3 & PARODD == c & PARODD && c3
            & CSTOPB == c & CSTOPB && c3 & CRTSCTS == c & CRTSCTS
    }) by (bit_vector);
}

/// A masked store: clear the bits of `mask`, then set the bits of `val`.
/// Every setter's flag rewrite is one of these, which is what makes a whole
/// configuration pass idempotent.
spec fn masked_store(x: u32, mask: u32, val: u32) -> u32 {
    (x & !mask) | val
}

/// Each flag rewrite a setter performs equals a masked store over the full
/// mask of the bits its field owns.
proof fn lemma_store_forms(x: u32, v: u32)
    by (bit_vector)
    ensures
        (((x & !(CBAUD | (CBAUD << IBSHIFT))) | (B0 << IBSHIFT)) | v) == masked_store(
            x,
            CBAUD | (CBAUD << IBSHIFT),
            v,
        ),
        x & !(PARENB | PARODD) == masked_store(x, PARENB | PARODD, 0),
        x | (PARENB | PARODD) == masked_store(x, PARENB | PARODD, PARENB | PARODD),
        (x & !PARODD) | PARENB == masked_store(x, PARENB | PARODD, PARENB),
        x & !CSTOPB == masked_store(x, CSTOPB, 0),
        x | CSTOPB == masked_store(x, CSTOPB, CSTOPB),
        x & !CRTSCTS == masked_store(x, CRTSCTS, 0),
        x | CRTSCTS == masked_store(x, CRTSCTS, CRTSCTS),
        (x & !INPCK) | IGNPAR == masked_store(x, INPCK | IGNPAR, IGNPAR),
        (x | INPCK) & !IGNPAR == masked_store(x, INPCK | IGNPAR, INPCK),
        x & !(IXON | IXOFF) == masked_store(x, IXON | IXOFF, 0),
        x | (IXON | IXOFF) == masked_store(x, IXON | IXOFF, IXON | IXOFF),
{
}

/// Storing the same constants through the five control-flag masks twice
/// leaves exactly the state one pass leaves.
proof fn lemma_cflag_store_idempotent(c: u32, v1: u32, v2: u32, v3: u32, v4: u32, v5: u32)
    by (bit_vector)
    requires
        v1 & !(CBAUD | (CBAUD << IBSHIFT)) == 0,
        v2 & !CSIZE == 0,
        v3 & !(PARENB | PARODD) == 0,
        v4 & !CSTOPB == 0,
        v5 & !CRTSCTS == 0,
    ensures
        ({
            let once = masked_store(
                masked_store(
                    masked_store(
                        masked_store(
                            masked_store(c, CBAUD | (CBAUD << IBSHIFT), v1),
                            CSIZE,
                            v2,
                        ),
                        PARENB | PARODD,
                        v3,
                    ),
                    CSTOPB,
                    v4,
                ),
                CRTSCTS,
                v5,
            );
            masked_store(
                masked_store(
                    masked_store(
                        masked_store(
                            masked_store(once, CBAUD | (CBAUD << IBSHIFT), v1),
                            CSIZE,
                            v2,
                        ),
                        PARENB | PARODD,
                        v3,
                    ),
                    CSTOPB,
                    v4,
                ),
                CRTSCTS,
                v5,
            ) == once
        }),
{
}

/// Storing the same constants through the two input-flag masks twice leaves
/// exactly the state one pass leaves.
proof fn lemma_iflag_store_idempotent(i: u32, v1: u32, v2: u32)
    by (bit_vector)
    requires
        v1 & !(INPCK | IGNPAR) == 0,
        v2 & !(IXON | IXOFF) == 0,
    ensures
        ({
            let once = masked_store(masked_store(i, INPCK | IGNPAR, v1), IXON | IXOFF, v2);
            masked_store(masked_store(once, INPCK | IGNPAR, v1), IXON | IXOFF, v2) == once
        }),
{
}

/// Law: configuring is idempotent — applying the same portable settings
/// aggregate twice yields exactly the raw state one application yields.
pub proof fn lemma_apply_idempotent(a: RawAttributes, s: PortSettings)
    ensures
        spec_apply(spec_apply(a, s), s) == spec_apply(a, s),
{
    lemma_table_code_is_selector(s.baud_rate);
    assert(BOTHER & !CBAUD == 0u32) by (bit_vector);
    let code: u32 = match spec_speed_for_baud(s.baud_rate) {
        Speed::Standard(c) => c,
        Speed::Custom(_) => BOTHER,
    };
    let cbits = spec_char_size_bits(s.char_size);
    let pc: u32 = match s.parity {
        Parity::ParityNone => 0,
        Parity::ParityOdd => PARENB | PARODD,
        Parity::ParityEven => PARENB,
    };
    let pi: u32 = match s.parity {
        Parity::ParityNone => IGNPAR,
        Parity::ParityOdd => INPCK,
        Parity::ParityEven => INPCK,
    };
    let st: u32 = match s.stop_bits {
        StopBits::Stop1 => 0,
        StopBits::Stop2 => CSTOPB,
    };
    let fc: u32 = match s.flow_control {
        FlowControl::FlowNone => 0,
        FlowControl::FlowSoftware => 0,
        FlowControl::FlowHardware => CRTSCTS,
    };
    let fi: u32 = match s.flow_control {
        FlowControl::FlowNone => 0,
        FlowControl::FlowSoftware => IXON | IXOFF,
        FlowControl::FlowHardware => 0,
    };

    assert((code & !CBAUD == 0 ==> code & !(CBAUD | (CBAUD << IBSHIFT)) == 0) && ((cbits
        == CS5 || cbits == CS6 || cbits == CS7 || cbits == CS8) ==> cbits & !CSIZE == 0) && ((
    pc == 0 || pc == (PARENB | PARODD) || pc == PARENB) ==> pc & !(PARENB | PARODD) == 0) && ((
    st == 0 || st == CSTOPB) ==> st & !CSTOPB == 0) && ((fc == 0 || fc == CRTSCTS) ==> fc
        & !CRTSCTS == 0) && ((pi == IGNPAR || pi == INPCK) ==> pi & !(INPCK | IGNPAR) == 0) && ((
    fi == 0 || fi == (IXON | IXOFF)) ==> fi & !(IXON | IXOFF) == 0)) by (bit_vector);

    let once = spec_apply(a, s);
    let twice = spec_apply(once, s);

    // Rewrite each pass's control-flag pipeline into masked-store form.
    let c0 = a.c_cflag;
    let c1 = spec_set_speed(a, spec_speed_for_baud(s.baud_rate)).c_cflag;
    lemma_store_forms(c0, code);
    assert(c1 == masked_store(c0, CBAUD | (CBAUD << IBSHIFT), code));
    let c2 = masked_store(c1, CSIZE, cbits);
    lemma_store_forms(c2, 0);
    let c3 = masked_store(c2, PARENB | PARODD, pc);
    lemma_store_forms(c3, 0);
    let c4 = masked_store(c3, CSTOPB, st);
    lemma_store_forms(c4, 0);
    let c5 = masked_store(c4, CRTSCTS, fc);
    assert(once.c_cflag == c5);

    let d1 = spec_set_speed(once, spec_speed_for_baud(s.baud_rate)).c_cflag;
    lemma_store_forms(c5, code);
    assert(d1 == masked_store(c5, CBAUD | (CBAUD << IBSHIFT), code));
    let d2 = masked_store(d1, CSIZE, cbits);
    lemma_store_forms(d2, 0);
    let d3 = masked_store(d2, PARENB | PARODD, pc);
    lemma_store_forms(d3, 0);
    let d4 = masked_store(d3, CSTOPB, st);
    lemma_store_forms(d4, 0);
    let d5 = masked_store(d4, CRTSCTS, fc);
    assert(twice.c_cflag == d5);

    lemma_cflag_store_idempotent(c0, code, cbits, pc, st, fc);
    assert(twice.c_cflag == once.c_cflag);

    // The input-flag pipeline, the same way.
    let i0 = a.c_iflag;
    lemma_store_forms(i0, 0);
    let i1 = masked_store(i0, INPCK | IGNPAR, pi);
    lemma_store_forms(i1, 0);
    let i2 = masked_store(i1, IXON | IXOFF, fi);
    assert(once.c_iflag == i2);
    lemma_store_forms(i2, 0);
    let j1 = masked_store(i2, INPCK | IGNPAR, pi);
    lemma_store_forms(j1, 0);
    let j2 = masked_store(j1, IXON | IXOFF, fi);
    assert(twice.c_iflag == j2);
    lemma_iflag_store_idempotent(i0, pi, fi);
    assert(twice.c_iflag == once.c_iflag);
}

/// Law: a custom rate written by the encoder survives a change to an
/// unrelated field; decoding still recovers the exact numeric value.
pub proof fn lemma_custom_rate_survives_unrelated_set(
    a: RawAttributes,
    n: u32,
    cs: CharSize,
)
    ensures
        spec_baud_rate(spec_set_char_size(spec_set_speed(a, Speed::Custom(n)), cs)) == Some(
            BaudRate::BaudOther(n as usize),
        ),
{
    termios2::lemma_set_speed_round_trip(a, Speed::Custom(n));
    lemma_set_char_size_preserves_others(spec_set_speed(a, Speed::Custom(n)), cs);
}

/// The baseline normalization a port applies to a fresh device snapshot
/// when it opens: enable the receiver and ignore modem-control lines;
/// disable canonical, echo and signal-generating line processing; disable
/// output post-processing; disable input newline, carriage-return and break
/// translation; and zero the minimum-bytes and inter-byte-timeout counts so
/// a raw read returns whatever is available.
pub open spec fn spec_normalize(a: RawAttributes) -> RawAttributes {
    RawAttributes {
        c_cflag: a.c_cflag | (CREAD | CLOCAL),
        c_lflag: a.c_lflag & !(ICANON | ECHO | ECHOE | ECHOK | ECHONL | ISIG | IEXTEN),
        c_oflag: a.c_oflag & !OPOST,
        c_iflag: a.c_iflag & !(INLCR | IGNCR | ICRNL | IGNBRK),
        vmin: 0u8,
        vtime: 0u8,
        ..a
    }
}

impl TTYSettings {
    /// Wraps a fresh device snapshot after applying the baseline
    /// normalization for binary serial-port access; the compute step of
    /// reading a port's settings.
    pub fn normalized(termios: RawAttributes) -> (s: TTYSettings)
        ensures
            s.termios == spec_normalize(termios),
    {
        let mut t = termios;
        t.c_cflag = t.c_cflag | (CREAD | CLOCAL);
        t.c_lflag = t.c_lflag & !(ICANON | ECHO | ECHOE | ECHOK | ECHONL | ISIG | IEXTEN);
        t.c_oflag = t.c_oflag & !OPOST;
        t.c_iflag = t.c_iflag & !(INLCR | IGNCR | ICRNL | IGNBRK);
        t.vmin = 0;
        t.vtime = 0;
        TTYSettings { termios: t }
    }
}

/// The validation step of opening a device: a path with an embedded NUL
/// byte cannot be handed to the OS and is rejected as invalid input, with
/// the same mapped error the OS would give a malformed argument.
pub fn validate_device_path(path: &[u8]) -> (r: Result<(), Error>)
    ensures
        r is Ok <==> !path@.contains(0u8),
        r matches Err(e) ==> e.kind == ErrorKind::InvalidInput,
{
    let mut i: usize = 0;
    while i < path.len()
        invariant
            i <= path@.len(),
            forall|j: int| 0 <= j < i ==> path@[j] != 0u8,
        decreases path@.len() - i,
    {
        if path[i] == 0 {
            assert(path@.contains(0u8)) by {
                assert(path@[i as int] == 0u8);
            }
            return Err(from_raw_os_error(EINVAL));
        }
        i = i + 1;
    }
    Ok(())
}

/// A TTY-based serial port: an open device handle together with the timeout
/// that bounds every readiness wait. The unverified shell opens the device,
/// moves the handle in here, and closes it when the port is dropped.
#[derive(Debug)]
pub struct TTYPort {
    /// The open device handle.
    pub fd: i32,
    /// How long a read or write may wait for readiness.
    pub timeout: Duration,
}

impl TTYPort {
    /// Wraps an already-open device handle with a readiness timeout.
    pub fn new(fd: i32, timeout: Duration) -> (p: TTYPort)
        ensures
            p.fd == fd,
            p.timeout == timeout,
    {
        TTYPort { fd, timeout }
    }

    /// The raw device handle.
    pub fn as_raw_fd(&self) -> (fd: i32)
        ensures
            fd == self.fd,
    {
        self.fd
    }

    /// The timeout bounding every readiness wait of this port.
    pub fn timeout(&self) -> (t: Duration)
        ensures
            t == self.timeout,
    {
        self.timeout
    }

    /// Replaces the timeout; always succeeds and affects only subsequent
    /// reads and writes.
    pub fn set_timeout(&mut self, timeout: Duration) -> (r: Result<(), Error>)
        ensures
            r.is_ok(),
            final(self).timeout == timeout,
            final(self).fd == old(self).fd,
    {
        self.timeout = timeout;
        Ok(())
    }
}

} // verus!
