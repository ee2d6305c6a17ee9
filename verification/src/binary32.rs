//! Single-precision numbers, held as their IEEE 754 bit patterns.
//!
//! The top bit of a pattern is the sign, the other 31 bits are the magnitude: exponent
//! and fraction. Magnitudes above that of infinity are not numbers. Among numbers, a
//! larger magnitude lies farther from zero, and the two zeros, which differ in sign
//! only, are equal.

use vstd::prelude::*;

verus! {

/// The sign bit.
pub const SIGN: u32 = 0x8000_0000;

/// The magnitude of infinity: all exponent bits set, no fraction bit.
pub const INFINITY: u32 = 0x7f80_0000;

/// The pattern without its sign bit.
pub open spec fn magnitude(bits: u32) -> nat {
    if bits >= SIGN {
        (bits - SIGN) as nat
    } else {
        bits as nat
    }
}

/// The pattern stands for no number.
pub open spec fn is_nan(bits: u32) -> bool {
    magnitude(bits) > INFINITY
}

/// Where a number lies on the number line: an integer that is smaller for one pattern
/// than for another exactly where the number of the first is the smaller number.
pub open spec fn rank(bits: u32) -> int {
    if bits >= SIGN {
        -(magnitude(bits) as int)
    } else {
        magnitude(bits) as int
    }
}

/// `a < b` as IEEE 754 has it: both are numbers, and `a` is the smaller one.
pub open spec fn less_than(a: u32, b: u32) -> bool {
    !is_nan(a) && !is_nan(b) && rank(a) < rank(b)
}

/// `-bits`: the same magnitude under the other sign, whatever the pattern stands for.
pub open spec fn negated(bits: u32) -> u32 {
    if bits >= SIGN {
        (bits - SIGN) as u32
    } else {
        (bits + SIGN) as u32
    }
}

/// The pattern without its sign bit.
fn magnitude_of(bits: u32) -> (unsigned: u32)
    ensures
        unsigned == magnitude(bits),
{
    if bits >= SIGN {
        bits - SIGN
    } else {
        bits
    }
}

/// Where the number lies on the number line.
fn rank_of(bits: u32) -> (place: i64)
    ensures
        place == rank(bits),
{
    if bits >= SIGN {
        -(magnitude_of(bits) as i64)
    } else {
        magnitude_of(bits) as i64
    }
}

/// Whether `a < b`.
pub fn lt(a: u32, b: u32) -> (less: bool)
    ensures
        less == less_than(a, b),
{
    magnitude_of(a) <= INFINITY && magnitude_of(b) <= INFINITY && rank_of(a) < rank_of(b)
}

/// `-bits`.
pub fn neg(bits: u32) -> (flipped: u32)
    ensures
        flipped == negated(bits),
{
    if bits >= SIGN {
        bits - SIGN
    } else {
        bits + SIGN
    }
}

} // verus!
