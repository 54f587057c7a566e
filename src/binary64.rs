//! IEEE-754 binary64 values seen through their bit patterns.
//!
//! A value is carried as the `u64` that `f64::to_bits` gives. For every
//! pattern that is not a NaN, the numeric order of binary64 agrees with the
//! order of its signed magnitude: the pattern without its sign bit, negated
//! when the sign bit is set. Both zeros have signed magnitude 0 and compare
//! equal; a NaN is unordered with everything.
use vstd::prelude::*;

verus! {

/// The sign bit of a binary64 bit pattern.
pub const SIGN_BIT: u64 = 0x8000_0000_0000_0000;

/// The bit pattern of positive infinity; a larger magnitude is a NaN.
pub const INFINITY_BITS: u64 = 0x7ff0_0000_0000_0000;

/// The bit pattern of `+0.0`.
pub const ZERO_BITS: u64 = 0;

/// The bit pattern of `1.0`.
pub const ONE_BITS: u64 = 0x3ff0_0000_0000_0000;

/// Whether the sign bit of `b` is set.
pub open spec fn sign_set(b: u64) -> bool {
    b >= SIGN_BIT
}

/// The pattern `b` with its sign bit cleared.
pub open spec fn magnitude(b: u64) -> u64 {
    if sign_set(b) { (b - SIGN_BIT) as u64 } else { b }
}

/// Whether `b` encodes a NaN: all exponent bits set and a nonzero fraction.
pub open spec fn is_nan_spec(b: u64) -> bool {
    magnitude(b) > INFINITY_BITS
}

/// The signed magnitude of `b`, whose order is the order of the values.
pub open spec fn order_key(b: u64) -> int {
    if sign_set(b) { -(magnitude(b) as int) } else { magnitude(b) as int }
}

/// `a < b` on binary64 values.
pub open spec fn lt(a: u64, b: u64) -> bool {
    !is_nan_spec(a) && !is_nan_spec(b) && order_key(a) < order_key(b)
}

/// `a <= b` on binary64 values.
pub open spec fn le(a: u64, b: u64) -> bool {
    !is_nan_spec(a) && !is_nan_spec(b) && order_key(a) <= order_key(b)
}

/// The pattern `b` with its sign bit flipped.
pub open spec fn negated(b: u64) -> u64 {
    if sign_set(b) { (b - SIGN_BIT) as u64 } else { (b + SIGN_BIT) as u64 }
}

/// Whether `b` encodes a NaN.
pub fn is_nan(b: u64) -> (r: bool)
    ensures
        r == is_nan_spec(b),
{
    abs(b) > INFINITY_BITS
}

/// The signed magnitude of `b`.
fn signed_magnitude(b: u64) -> (k: i128)
    ensures
        k as int == order_key(b),
{
    if b >= SIGN_BIT {
        -((b - SIGN_BIT) as i128)
    } else {
        b as i128
    }
}

/// `a < b`: false whenever either is a NaN.
pub fn less_than(a: u64, b: u64) -> (r: bool)
    ensures
        r == lt(a, b),
{
    !is_nan(a) && !is_nan(b) && signed_magnitude(a) < signed_magnitude(b)
}

/// `a <= b`: false whenever either is a NaN.
pub fn less_or_equal(a: u64, b: u64) -> (r: bool)
    ensures
        r == le(a, b),
{
    !is_nan(a) && !is_nan(b) && signed_magnitude(a) <= signed_magnitude(b)
}

/// Negation: flips the sign bit, as binary64 negation does, NaNs included.
pub fn negate(b: u64) -> (r: u64)
    ensures
        r == negated(b),
        is_nan_spec(r) == is_nan_spec(b),
        order_key(r) == -order_key(b),
        magnitude(r) == magnitude(b),
{
    if b >= SIGN_BIT { b - SIGN_BIT } else { b + SIGN_BIT }
}

/// Absolute value: clears the sign bit, as binary64 `abs` does.
pub fn abs(b: u64) -> (r: u64)
    ensures
        r == magnitude(b),
        !sign_set(r),
        is_nan_spec(r) == is_nan_spec(b),
        order_key(r) == if order_key(b) < 0 { -order_key(b) } else { order_key(b) },
{
    if b >= SIGN_BIT { b - SIGN_BIT } else { b }
}

/// A value and its negation have the same absolute value.
pub proof fn lemma_abs_of_negation(b: u64)
    ensures
        magnitude(negated(b)) == magnitude(b),
{
}

/// The absolute value of a value that is not a NaN is never below zero.
pub proof fn lemma_abs_not_negative(b: u64)
    requires
        !is_nan_spec(b),
    ensures
        le(ZERO_BITS, magnitude(b)),
        !lt(magnitude(b), ZERO_BITS),
{
}

/// Negation reverses the order of values.
pub proof fn lemma_negation_reverses_order(a: u64, b: u64)
    ensures
        lt(a, b) == lt(negated(b), negated(a)),
        le(a, b) == le(negated(b), negated(a)),
{
}

} // verus!
