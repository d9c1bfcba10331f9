//! Order and sign of IEEE 754 binary64 values, read off their bit patterns.
//!
//! A pattern holds a sign bit, eleven exponent bits and fifty-two fraction
//! bits. Among the patterns that are numbers, a larger magnitude field means
//! a larger absolute value, so the order of two numbers is the order of their
//! signed magnitudes. The two zeros compare equal, and a NaN compares false
//! with everything, itself included.

use vstd::prelude::*;

verus! {

/// The pattern with only the sign bit set: negative zero.
pub const SIGN_BIT: u64 = 0x8000_0000_0000_0000;

/// The pattern of positive infinity: every exponent bit set, no fraction bit.
pub const INFINITY: u64 = 0x7ff0_0000_0000_0000;

/// The pattern with its sign bit cleared.
pub open spec fn magnitude(bits: u64) -> u64 {
    if bits >= SIGN_BIT {
        (bits - SIGN_BIT) as u64
    } else {
        bits
    }
}

/// The place of a number in the order of all numbers: its magnitude field,
/// negated where the sign bit is set. Both zeros have rank 0.
pub open spec fn rank(bits: u64) -> int {
    if bits >= SIGN_BIT {
        -(magnitude(bits) as int)
    } else {
        bits as int
    }
}

/// Whether the pattern is a NaN: a magnitude above that of infinity.
pub open spec fn spec_is_nan(bits: u64) -> bool {
    magnitude(bits) > INFINITY
}

/// Whether the pattern is one of the two zeros.
pub open spec fn spec_is_zero(bits: u64) -> bool {
    magnitude(bits) == 0
}

/// `a <= b` on the numbers the patterns stand for.
pub open spec fn spec_le(a: u64, b: u64) -> bool {
    !spec_is_nan(a) && !spec_is_nan(b) && rank(a) <= rank(b)
}

/// `a < b` on the numbers the patterns stand for.
pub open spec fn spec_lt(a: u64, b: u64) -> bool {
    !spec_is_nan(a) && !spec_is_nan(b) && rank(a) < rank(b)
}

/// `x > 0`: a number with a clear sign bit that is not zero.
pub open spec fn spec_is_positive(bits: u64) -> bool {
    spec_lt(0, bits)
}

/// `x >= 0`: a zero of either sign, or a positive number.
pub open spec fn spec_is_non_negative(bits: u64) -> bool {
    spec_le(0, bits)
}

/// Whether the pattern is a NaN.
#[verifier::when_used_as_spec(spec_is_nan)]
pub fn is_nan(bits: u64) -> (r: bool)
    ensures
        r == spec_is_nan(bits),
{
    if bits >= SIGN_BIT {
        bits - SIGN_BIT > INFINITY
    } else {
        bits > INFINITY
    }
}

/// Whether the pattern is positive or negative zero.
#[verifier::when_used_as_spec(spec_is_zero)]
pub fn is_zero(bits: u64) -> (r: bool)
    ensures
        r == spec_is_zero(bits),
{
    bits == 0 || bits == SIGN_BIT
}

/// Whether `a <= b` holds of the two numbers.
#[verifier::when_used_as_spec(spec_le)]
pub fn le(a: u64, b: u64) -> (r: bool)
    ensures
        r == spec_le(a, b),
{
    if is_nan(a) || is_nan(b) {
        false
    } else if a >= SIGN_BIT {
        // a is negative or negative zero
        if b >= SIGN_BIT {
            b <= a
        } else {
            true
        }
    } else if b >= SIGN_BIT {
        // a is non-negative, b is negative or negative zero
        a == 0 && b == SIGN_BIT
    } else {
        a <= b
    }
}

/// Whether `a < b` holds of the two numbers.
#[verifier::when_used_as_spec(spec_lt)]
pub fn lt(a: u64, b: u64) -> (r: bool)
    ensures
        r == spec_lt(a, b),
{
    if is_nan(a) || is_nan(b) {
        false
    } else if a >= SIGN_BIT {
        if b >= SIGN_BIT {
            b < a
        } else {
            !(a == SIGN_BIT && b == 0)
        }
    } else if b >= SIGN_BIT {
        false
    } else {
        a < b
    }
}

/// Whether the number is greater than zero.
#[verifier::when_used_as_spec(spec_is_positive)]
pub fn is_positive(bits: u64) -> (r: bool)
    ensures
        r == spec_is_positive(bits),
        r == (0 < bits <= INFINITY),
{
    0 < bits && bits <= INFINITY
}

/// Whether the number is greater than or equal to zero.
#[verifier::when_used_as_spec(spec_is_non_negative)]
pub fn is_non_negative(bits: u64) -> (r: bool)
    ensures
        r == spec_is_non_negative(bits),
        r == (bits <= INFINITY || bits == SIGN_BIT),
{
    bits <= INFINITY || bits == SIGN_BIT
}

/// Among numbers, `<=` is a total order up to the sign of zero, and `<` is
/// its strict part.
pub proof fn law_order(a: u64, b: u64, c: u64)
    requires
        !spec_is_nan(a),
        !spec_is_nan(b),
        !spec_is_nan(c),
    ensures
        spec_le(a, a),
        spec_le(a, b) || spec_le(b, a),
        spec_le(a, b) && spec_le(b, c) ==> spec_le(a, c),
        spec_le(a, b) && spec_le(b, a) ==> a == b || (spec_is_zero(a) && spec_is_zero(b)),
        spec_lt(a, b) <==> spec_le(a, b) && !spec_le(b, a),
{
}

/// A NaN is in no relation to anything, itself included.
pub proof fn law_nan_unordered(a: u64, b: u64)
    requires
        spec_is_nan(a) || spec_is_nan(b),
    ensures
        !spec_le(a, b),
        !spec_lt(a, b),
        !spec_le(b, a),
        !spec_lt(b, a),
{
}

} // verus!
