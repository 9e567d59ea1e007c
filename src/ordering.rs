//! Ordering of binary64 values given as bit patterns.
//!
//! A binary64 value other than NaN orders as the signed magnitude of its bit
//! pattern: the top bit is the sign, the other 63 bits read as an unsigned
//! integer grow with the absolute value, and both zeros sit at rank 0.
use vstd::prelude::*;

verus! {

/// The sign bit of a binary64 bit pattern.
pub const SIGN_BIT: u64 = 0x8000_0000_0000_0000;

/// Bit pattern of positive infinity; larger magnitudes are NaN.
pub const INFINITY_BITS: u64 = 0x7FF0_0000_0000_0000;

/// Bit pattern of `0.0`.
pub const ZERO_BITS: u64 = 0;

/// Bit pattern of `1.0`.
pub const ONE_BITS: u64 = 0x3FF0_0000_0000_0000;

pub open spec fn is_negative_pattern(b: u64) -> bool {
    b >= SIGN_BIT
}

/// The 63 low bits: exponent and fraction.
pub open spec fn magnitude(b: u64) -> int {
    if is_negative_pattern(b) {
        b - SIGN_BIT
    } else {
        b as int
    }
}

pub open spec fn is_nan(b: u64) -> bool {
    magnitude(b) > INFINITY_BITS
}

/// Position of the value on the number line: equal ranks are equal values.
pub open spec fn rank(b: u64) -> int {
    if is_negative_pattern(b) {
        -magnitude(b)
    } else {
        magnitude(b)
    }
}

/// `a < b` on binary64 values: false whenever either is NaN.
pub open spec fn less(a: u64, b: u64) -> bool {
    !is_nan(a) && !is_nan(b) && rank(a) < rank(b)
}

/// `lo < t && t < hi`: the open interval test of the intersection routines.
pub open spec fn strictly_between(t: u64, lo: u64, hi: u64) -> bool {
    less(lo, t) && less(t, hi)
}

/// The pattern of `-x`: negation flips the sign bit and nothing else.
pub open spec fn negation(b: u64) -> u64 {
    if is_negative_pattern(b) {
        (b - SIGN_BIT) as u64
    } else {
        (b + SIGN_BIT) as u64
    }
}

/// Whether the pattern `b` is a NaN.
pub fn is_nan_bits(b: u64) -> (r: bool)
    ensures
        r == is_nan(b),
{
    let m: u64 = if b >= SIGN_BIT {
        b - SIGN_BIT
    } else {
        b
    };
    m > INFINITY_BITS
}

/// `a < b` on the binary64 values with patterns `a` and `b`.
pub fn float_lt(a: u64, b: u64) -> (r: bool)
    ensures
        r == less(a, b),
{
    if is_nan_bits(a) || is_nan_bits(b) {
        return false;
    }
    let a_neg = a >= SIGN_BIT;
    let b_neg = b >= SIGN_BIT;
    if a_neg && b_neg {
        a - SIGN_BIT > b - SIGN_BIT
    } else if a_neg {
        !(a == SIGN_BIT && b == 0)
    } else if b_neg {
        false
    } else {
        a < b
    }
}

/// `lo < t && t < hi` on binary64 values.
pub fn lies_between(t: u64, lo: u64, hi: u64) -> (r: bool)
    ensures
        r == strictly_between(t, lo, hi),
{
    float_lt(lo, t) && float_lt(t, hi)
}

/// The pattern of `-x` for the pattern `b` of `x`.
pub fn negate(b: u64) -> (r: u64)
    ensures
        r == negation(b),
        rank(r) == -rank(b),
        is_nan(r) == is_nan(b),
{
    if b >= SIGN_BIT {
        b - SIGN_BIT
    } else {
        b + SIGN_BIT
    }
}

/// The pattern of `|x|` for the pattern `b` of `x`: the sign bit cleared.
pub fn abs_bits(b: u64) -> (r: u64)
    ensures
        r == magnitude(b),
        rank(r) == magnitude(b),
        is_nan(r) == is_nan(b),
{
    if b >= SIGN_BIT {
        b - SIGN_BIT
    } else {
        b
    }
}

} // verus!
