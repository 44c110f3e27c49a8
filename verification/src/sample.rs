//! Single-precision samples as bit patterns.
//!
//! A sample is the `u32` whose bits are those of an IEEE-754 binary32
//! number: one sign bit, eight exponent bits, twenty-three fraction bits.
//! Magnitude, order and range of such a number can all be read off the
//! integer, which is what the functions here do.

use vstd::prelude::*;

verus! {

/// Positive zero: the silent sample.
pub const SILENCE: u32 = 0;

/// The sign bit; every pattern at or above it is negative.
pub const SIGN_BIT: u32 = 0x8000_0000;

/// Positive infinity; a larger magnitude is not a number.
pub const INFINITY: u32 = 0x7f80_0000;

/// The number one.
pub const UNITY: u32 = 0x3f80_0000;

/// The number minus one.
pub const NEG_UNITY: u32 = 0xbf80_0000;

/// The pattern with the sign bit cleared.
pub open spec fn magnitude(s: u32) -> u32 {
    if s >= SIGN_BIT {
        (s - SIGN_BIT) as u32
    } else {
        s
    }
}

/// Whether the pattern is not a number.
pub open spec fn is_nan(s: u32) -> bool {
    magnitude(s) > INFINITY
}

/// Whether the pattern is a number other than an infinity.
pub open spec fn is_finite(s: u32) -> bool {
    magnitude(s) < INFINITY
}

/// Position of a number on the real line, as an integer that grows with
/// the number. Both zeros stand at 0. Meaningless for a pattern that is
/// not a number.
pub open spec fn level(s: u32) -> int {
    if s >= SIGN_BIT {
        -(magnitude(s) as int)
    } else {
        s as int
    }
}

/// The numeric `<` of IEEE-754: false as soon as either side is not a
/// number.
pub open spec fn below(a: u32, b: u32) -> bool {
    !is_nan(a) && !is_nan(b) && level(a) < level(b)
}

/// Whether the pattern is a number in the closed interval from minus one
/// to one.
pub open spec fn in_unit_range(s: u32) -> bool {
    magnitude(s) <= UNITY
}

/// Clears the sign bit.
pub fn abs_bits(s: u32) -> (m: u32)
    ensures
        m == magnitude(s),
{
    if s >= SIGN_BIT {
        s - SIGN_BIT
    } else {
        s
    }
}

/// Tells a pattern that is not a number from one that is.
pub fn nan(s: u32) -> (r: bool)
    ensures
        r == is_nan(s),
{
    abs_bits(s) > INFINITY
}

/// Compares two samples as numbers.
pub fn less(a: u32, b: u32) -> (r: bool)
    ensures
        r == below(a, b),
{
    if nan(a) || nan(b) {
        return false;
    }
    let a_neg: bool = a >= SIGN_BIT;
    let b_neg: bool = b >= SIGN_BIT;
    if a_neg && b_neg {
        abs_bits(a) > abs_bits(b)
    } else if a_neg {
        abs_bits(a) > 0 || b > 0
    } else if b_neg {
        false
    } else {
        a < b
    }
}

} // verus!
