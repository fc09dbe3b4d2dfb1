//! The extended speed codec: how an arbitrary baud rate is packed into and
//! recovered from a raw attribute block.
//!
//! The control flags hold a rate-selector sub-field for the output speed and
//! a second, left-shifted copy of the same sub-field for the input speed.
//! Each selector is either a standard rate code or the [`BOTHER`] sentinel,
//! which says the rate is carried instead in the auxiliary numeric field.
//! In the shifted input copy, the zero code means "same as the output rate".
//! The encoder always writes that "same as output" marker: this design has
//! exactly one caller-settable rate per configuration.

use vstd::prelude::*;

use crate::attr::{RawAttributes, B0, BOTHER, CBAUD, IBSHIFT};
use crate::error::Error;

verus! {

/// A rate as the device-control block expresses it: a platform rate code, or
/// an arbitrary numeric rate.
#[derive(Debug, Clone, Copy, PartialEq, Eq, Structural)]
pub enum Speed {
    /// One of the platform's fixed rate codes.
    Standard(u32),
    /// An arbitrary numeric baud rate.
    Custom(u32),
}

/// The output speed an attribute block declares.
pub open spec fn spec_output_speed(a: RawAttributes) -> Speed {
    if a.c_cflag & CBAUD == BOTHER {
        Speed::Custom(a.c_ospeed)
    } else {
        Speed::Standard(a.c_cflag & CBAUD)
    }
}

/// The input speed an attribute block declares.
pub open spec fn spec_input_speed(a: RawAttributes) -> Speed {
    let code = (a.c_cflag >> IBSHIFT) & CBAUD;
    if code == B0 {
        spec_output_speed(a)
    } else if code == BOTHER {
        Speed::Custom(a.c_ispeed)
    } else {
        Speed::Standard(code)
    }
}

/// The attribute block that encoding `speed` into `a` yields: both selector
/// sub-fields cleared, the input copy set to "same as output", and the rate
/// written either as its code or as the sentinel plus the numeric field.
pub open spec fn spec_set_speed(a: RawAttributes, speed: Speed) -> RawAttributes {
    let cleared = (a.c_cflag & !(CBAUD | (CBAUD << IBSHIFT))) | (B0 << IBSHIFT);
    match speed {
        Speed::Standard(code) => RawAttributes { c_cflag: cleared | code, ..a },
        Speed::Custom(n) => RawAttributes { c_cflag: cleared | BOTHER, c_ospeed: n, ..a },
    }
}

/// A rate code that the selector sub-field can carry faithfully: it fits the
/// sub-field's mask and is not the sentinel.
pub open spec fn is_selector_code(code: u32) -> bool {
    code & !CBAUD == 0 && code != BOTHER
}

/// Decodes the output and input speed, in that order, out of an attribute
/// block.
pub fn get_speed(attrs: &RawAttributes) -> (r: (Speed, Speed))
    ensures
        r.0 == spec_output_speed(*attrs),
        r.1 == spec_input_speed(*attrs),
{
    let ospeed: Speed = if attrs.c_cflag & CBAUD == BOTHER {
        Speed::Custom(attrs.c_ospeed)
    } else {
        Speed::Standard(attrs.c_cflag & CBAUD)
    };

    let icode: u32 = (attrs.c_cflag >> IBSHIFT) & CBAUD;
    let ispeed: Speed = if icode == B0 {
        ospeed
    } else if icode == BOTHER {
        Speed::Custom(attrs.c_ispeed)
    } else {
        Speed::Standard(icode)
    };

    (ospeed, ispeed)
}

/// Encodes a speed into an attribute block, touching only the selector
/// sub-fields and the auxiliary output-speed field. It never fails; the
/// `Result` keeps the shape shared with the standard backend, whose encoder
/// can be rejected by the OS.
pub fn set_speed(attrs: &mut RawAttributes, speed: Speed) -> (r: Result<(), Error>)
    ensures
        r.is_ok(),
        *final(attrs) == spec_set_speed(*old(attrs), speed),
{
    attrs.c_cflag = attrs.c_cflag & !(CBAUD | (CBAUD << IBSHIFT));
    attrs.c_cflag = attrs.c_cflag | (B0 << IBSHIFT);

    match speed {
        Speed::Standard(baud) => {
            attrs.c_cflag = attrs.c_cflag | baud;
        }
        Speed::Custom(baud) => {
            attrs.c_cflag = attrs.c_cflag | BOTHER;
            attrs.c_ospeed = baud;
        }
    }

    Ok(())
}

/// Law: decoding recovers what was encoded. After encoding any speed whose
/// standard code the selector sub-field can carry, the block's output speed
/// is exactly that speed, and the input speed tracks it.
pub proof fn lemma_set_speed_round_trip(a: RawAttributes, speed: Speed)
    requires
        speed matches Speed::Standard(code) ==> is_selector_code(code),
    ensures
        spec_output_speed(spec_set_speed(a, speed)) == speed,
        spec_input_speed(spec_set_speed(a, speed)) == speed,
{
    let c = a.c_cflag;
    match speed {
        Speed::Standard(code) => {
            assert(code & !CBAUD == 0 && code != BOTHER ==> {
                let cleared = (c & !(CBAUD | (CBAUD << IBSHIFT))) | (B0 << IBSHIFT);
                ((cleared | code) & CBAUD == code) && (((cleared | code) >> IBSHIFT) & CBAUD
                    == B0)
            }) by (bit_vector);
        }
        Speed::Custom(_) => {
            assert({
                let cleared = (c & !(CBAUD | (CBAUD << IBSHIFT))) | (B0 << IBSHIFT);
                ((cleared | BOTHER) & CBAUD == BOTHER) && (((cleared | BOTHER) >> IBSHIFT)
                    & CBAUD == B0)
            }) by (bit_vector);
        }
    }
}

/// Law: encoding the same speed twice yields the same block as encoding it
/// once.
pub proof fn lemma_set_speed_idempotent(a: RawAttributes, speed: Speed)
    ensures
        spec_set_speed(spec_set_speed(a, speed), speed) == spec_set_speed(a, speed),
{
    let c = a.c_cflag;
    match speed {
        Speed::Standard(code) => {
            assert({
                let cleared = (c & !(CBAUD | (CBAUD << IBSHIFT))) | (B0 << IBSHIFT);
                let once = cleared | code;
                ((once & !(CBAUD | (CBAUD << IBSHIFT))) | (B0 << IBSHIFT)) | code == once
            }) by (bit_vector);
        }
        Speed::Custom(_) => {
            assert({
                let cleared = (c & !(CBAUD | (CBAUD << IBSHIFT))) | (B0 << IBSHIFT);
                let once = cleared | BOTHER;
                ((once & !(CBAUD | (CBAUD << IBSHIFT))) | (B0 << IBSHIFT)) | BOTHER == once
            }) by (bit_vector);
        }
    }
}

} // verus!
