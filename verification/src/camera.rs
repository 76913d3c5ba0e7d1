//! The limit on the camera's pitch.
//!
//! Angles are single-precision numbers of degrees, handled here by their bit
//! patterns: a sign bit, then eight bits of exponent and 23 of fraction that
//! order numbers of one sign as they order unsigned integers.

use vstd::prelude::*;

verus! {

/// The bits of 89, the steepest pitch in either direction.
pub const PITCH_LIMIT: u32 = 0x42b2_0000;

/// The sign bit.
pub const SIGN_BIT: u32 = 0x8000_0000;

/// The bits of positive infinity. A pattern whose magnitude is above them is
/// no number.
pub const INFINITY: u32 = 0x7f80_0000;

/// The pattern without its sign.
pub open spec fn magnitude(bits: u32) -> u32 {
    (bits % SIGN_BIT) as u32
}

/// Whether the sign bit is set.
pub open spec fn is_negative(bits: u32) -> bool {
    bits >= SIGN_BIT
}

/// Whether the pattern is that of no number.
pub open spec fn is_nan(bits: u32) -> bool {
    magnitude(bits) > INFINITY
}

/// The pitch brought back to the limit: a number above 89 becomes 89, one
/// below -89 becomes -89, and everything else, what is no number too, stays.
pub open spec fn clamped(pitch: u32) -> u32 {
    if is_nan(pitch) || magnitude(pitch) <= PITCH_LIMIT {
        pitch
    } else if is_negative(pitch) {
        (SIGN_BIT + PITCH_LIMIT) as u32
    } else {
        PITCH_LIMIT
    }
}

/// Brings a pitch into the range from -89 to 89 degrees.
pub fn clamp_pitch(pitch: u32) -> (limited: u32)
    ensures
        limited == clamped(pitch),
        !is_nan(pitch) ==> magnitude(limited) <= PITCH_LIMIT,
        is_negative(limited) == is_negative(pitch),
        clamped(limited) == limited,
{
    let magnitude = pitch % SIGN_BIT;
    if magnitude > INFINITY || magnitude <= PITCH_LIMIT {
        pitch
    } else if pitch >= SIGN_BIT {
        SIGN_BIT + PITCH_LIMIT
    } else {
        PITCH_LIMIT
    }
}

} // verus!
