//! Samples, thresholds and variances as IEEE 754 binary64 bit patterns.
//!
//! Every value that crosses the library's boundary is the 64-bit pattern of a
//! double-precision number: one sign bit, eleven exponent bits, fifty-two
//! fraction bits. The library never does arithmetic on such a value. It only
//! classifies it and orders it against another one, and both can be read off
//! the bits: leaving the not-a-number patterns aside, the numeric order of the
//! encoded values is the order of their sign-and-magnitude integers.

use vstd::prelude::*;

verus! {

/// The sign bit of a pattern.
pub const SIGN_BIT: u64 = 0x8000_0000_0000_0000;

/// The pattern of positive infinity: all exponent bits set, no fraction bit.
pub const POSITIVE_INFINITY: u64 = 0x7ff0_0000_0000_0000;

/// The pattern of positive zero.
pub const POSITIVE_ZERO: u64 = 0;

/// The pattern without its sign bit.
pub open spec fn magnitude(bits: u64) -> int {
    if bits >= SIGN_BIT {
        bits - SIGN_BIT
    } else {
        bits as int
    }
}

/// Whether the sign bit is set. True of negative zero and of some
/// not-a-number patterns too.
pub open spec fn sign_negative(bits: u64) -> bool {
    bits >= SIGN_BIT
}

/// Not a number: the exponent bits are all set and some fraction bit is set.
pub open spec fn spec_is_nan(bits: u64) -> bool {
    magnitude(bits) > POSITIVE_INFINITY
}

/// Zero, subnormal or normal: neither an infinity nor not a number.
pub open spec fn spec_is_finite(bits: u64) -> bool {
    magnitude(bits) < POSITIVE_INFINITY
}

/// The place of a pattern in the numeric order: its magnitude, negated
/// where the sign bit is set. Both zeros have rank 0. Meaningful for every
/// pattern that is a number (the infinities included).
pub open spec fn rank(bits: u64) -> int {
    if sign_negative(bits) {
        -magnitude(bits)
    } else {
        magnitude(bits)
    }
}

/// `a > b` as IEEE 754 defines it: false as soon as either side is not a
/// number, and the two zeros are equal.
pub open spec fn spec_exceeds(a: u64, b: u64) -> bool {
    &&& !spec_is_nan(a)
    &&& !spec_is_nan(b)
    &&& rank(a) > rank(b)
}

/// `a <= b` as IEEE 754 defines it: false as soon as either side is not a
/// number.
pub open spec fn at_most(a: u64, b: u64) -> bool {
    &&& !spec_is_nan(a)
    &&& !spec_is_nan(b)
    &&& rank(a) <= rank(b)
}

/// Clears the sign bit.
fn clear_sign(bits: u64) -> (m: u64)
    ensures
        m == magnitude(bits),
{
    assert(bits & 0x7fff_ffff_ffff_ffffu64 == if bits >= 0x8000_0000_0000_0000u64 {
        (bits - 0x8000_0000_0000_0000u64) as u64
    } else {
        bits
    }) by (bit_vector);
    bits & 0x7fff_ffff_ffff_ffffu64
}

/// Tells whether `bits` is a not-a-number pattern.
#[verifier::when_used_as_spec(spec_is_nan)]
pub fn is_nan(bits: u64) -> (nan: bool)
    ensures
        nan == spec_is_nan(bits),
{
    clear_sign(bits) > POSITIVE_INFINITY
}

/// Tells whether `bits` encodes a finite number.
#[verifier::when_used_as_spec(spec_is_finite)]
pub fn is_finite(bits: u64) -> (finite: bool)
    ensures
        finite == spec_is_finite(bits),
{
    clear_sign(bits) < POSITIVE_INFINITY
}

/// Decides `a > b` on the bit patterns.
#[verifier::when_used_as_spec(spec_exceeds)]
pub fn exceeds(a: u64, b: u64) -> (greater: bool)
    ensures
        greater == spec_exceeds(a, b),
{
    let ma: u64 = clear_sign(a);
    let mb: u64 = clear_sign(b);
    if ma > POSITIVE_INFINITY || mb > POSITIVE_INFINITY {
        false
    } else if a >= SIGN_BIT {
        // a is at most zero: only a negative b of larger magnitude is below it
        b >= SIGN_BIT && ma < mb
    } else if b >= SIGN_BIT {
        // a is at least zero and b at most zero: equal only if both are zero
        ma > 0 || mb > 0
    } else {
        ma > mb
    }
}

} // verus!
