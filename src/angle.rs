//! The decisions of a normalized angle, made on binary64 bit patterns.
//!
//! An angle is a binary64 number of radians kept in the canonical range
//! `(-π, π]`. Normalizing takes the remainder of the raw value by `2π`, whose
//! sign follows the raw value, and then corrects it by one turn when it lies
//! outside `[-π, π]`. Here stand the choices that this correction, clamping,
//! the direction tests and interpolation make; the arithmetic that they steer
//! is the caller's.
use vstd::prelude::*;

use crate::binary64::{
    is_nan_spec, le, less_or_equal, less_than, lt, magnitude, negated, order_key, ONE_BITS,
    ZERO_BITS,
};

verus! {

/// The bit pattern of `π` rounded to binary64.
pub const PI_BITS: u64 = 0x4009_21fb_5444_2d18;

/// The bit pattern of `-π` rounded to binary64.
pub const NEG_PI_BITS: u64 = 0xc009_21fb_5444_2d18;

/// Whether `b` lies in the canonical range `(-π, π]`.
pub open spec fn in_canonical_range(b: u64) -> bool {
    lt(NEG_PI_BITS, b) && le(b, PI_BITS)
}

/// The correction that normalization applies to a remainder by `2π`.
#[derive(PartialEq, Eq, Structural, Debug, Clone, Copy)]
pub enum Wrap {
    /// The remainder already lies in `[-π, π]`, or is a NaN.
    Keep,
    /// The remainder is above `π`: one turn is subtracted.
    SubtractTurn,
    /// The remainder is below `-π`: one turn is added.
    AddTurn,
}

/// The correction for the remainder `reduced`.
pub open spec fn wrap_spec(reduced: u64) -> Wrap {
    if lt(PI_BITS, reduced) {
        Wrap::SubtractTurn
    } else if lt(reduced, NEG_PI_BITS) {
        Wrap::AddTurn
    } else {
        Wrap::Keep
    }
}

/// The correction with the direction of the turn reversed.
pub open spec fn mirrored(w: Wrap) -> Wrap {
    match w {
        Wrap::Keep => Wrap::Keep,
        Wrap::SubtractTurn => Wrap::AddTurn,
        Wrap::AddTurn => Wrap::SubtractTurn,
    }
}

/// Chooses the correction for the remainder `reduced` of a raw angle by `2π`.
pub fn wrap_for(reduced: u64) -> (w: Wrap)
    ensures
        w == wrap_spec(reduced),
{
    if less_than(PI_BITS, reduced) {
        Wrap::SubtractTurn
    } else if less_than(reduced, NEG_PI_BITS) {
        Wrap::AddTurn
    } else {
        Wrap::Keep
    }
}

/// Which of its three arguments a clamp returns.
#[derive(PartialEq, Eq, Structural, Debug, Clone, Copy)]
pub enum ClampPick {
    /// The value is below the lower bound.
    Min,
    /// The value is above the upper bound.
    Max,
    /// The value itself.
    Value,
}

/// The pick of a plain clamp on the stored values, not aware of wraparound.
pub open spec fn clamp_spec(value: u64, min: u64, max: u64) -> ClampPick {
    if lt(value, min) {
        ClampPick::Min
    } else if lt(max, value) {
        ClampPick::Max
    } else {
        ClampPick::Value
    }
}

/// Chooses what clamping `value` to `[min, max]` returns.
pub fn clamp_pick(value: u64, min: u64, max: u64) -> (p: ClampPick)
    ensures
        p == clamp_spec(value, min, max),
{
    if less_than(value, min) {
        ClampPick::Min
    } else if less_than(max, value) {
        ClampPick::Max
    } else {
        ClampPick::Value
    }
}

/// Whether a shortest-arc difference turns clockwise: it is below zero.
pub fn is_clockwise(difference: u64) -> (r: bool)
    ensures
        r == lt(difference, ZERO_BITS),
{
    less_than(difference, ZERO_BITS)
}

/// Whether a shortest-arc difference turns counterclockwise: it is above zero.
pub fn is_counterclockwise(difference: u64) -> (r: bool)
    ensures
        r == lt(ZERO_BITS, difference),
{
    less_than(ZERO_BITS, difference)
}

/// Whether `t` is an admissible interpolation factor: it lies in `[0, 1]`.
pub fn is_interpolation_factor(t: u64) -> (r: bool)
    ensures
        r == (le(ZERO_BITS, t) && le(t, ONE_BITS)),
{
    less_or_equal(ZERO_BITS, t) && less_or_equal(t, ONE_BITS)
}

/// A remainder that normalization keeps lies in `[-π, π]`: in the canonical
/// range, or exactly at `-π`.
pub proof fn lemma_kept_remainder_in_range(reduced: u64)
    requires
        !is_nan_spec(reduced),
        wrap_spec(reduced) == Wrap::Keep,
    ensures
        le(NEG_PI_BITS, reduced) && le(reduced, PI_BITS),
        in_canonical_range(reduced) || order_key(reduced) == order_key(NEG_PI_BITS),
{
}

/// Normalization keeps every value of `[-π, π]` as it is, so normalizing a
/// normalized angle changes nothing.
pub proof fn lemma_normalized_is_kept(b: u64)
    requires
        le(NEG_PI_BITS, b) && le(b, PI_BITS),
    ensures
        wrap_spec(b) == Wrap::Keep,
{
}

/// Negating a remainder mirrors its correction: the correction of `-r` is
/// that of `r` with the turn reversed.
pub proof fn lemma_wrap_mirrors_negation(reduced: u64)
    ensures
        wrap_spec(negated(reduced)) == mirrored(wrap_spec(reduced)),
{
}

/// No difference is both clockwise and counterclockwise, and negating a
/// difference swaps the two directions.
pub proof fn lemma_directions(difference: u64)
    ensures
        !(lt(difference, ZERO_BITS) && lt(ZERO_BITS, difference)),
        lt(negated(difference), ZERO_BITS) == lt(ZERO_BITS, difference),
        lt(ZERO_BITS, negated(difference)) == lt(difference, ZERO_BITS),
{
}

/// With ordered bounds, a clamp returns a value within them: the value itself
/// only when it lies in `[min, max]`.
pub proof fn lemma_clamp_within_bounds(value: u64, min: u64, max: u64)
    requires
        !is_nan_spec(value),
        le(min, max),
    ensures
        clamp_spec(value, min, max) == ClampPick::Value ==> le(min, value) && le(value, max),
        clamp_spec(value, min, max) == ClampPick::Min <==> lt(value, min),
        clamp_spec(value, min, max) == ClampPick::Max <==> lt(max, value),
{
}

/// The absolute value of an angle in the canonical range lies in `[0, π]`,
/// inside the range again.
pub proof fn lemma_abs_stays_in_range(b: u64)
    requires
        in_canonical_range(b),
    ensures
        le(ZERO_BITS, magnitude(b)) && le(magnitude(b), PI_BITS),
        in_canonical_range(magnitude(b)),
{
}

/// Negation keeps an angle in the canonical range, but for `π`, whose
/// negation `-π` lies outside it.
pub proof fn lemma_negation_in_range(b: u64)
    requires
        in_canonical_range(b),
    ensures
        b != PI_BITS ==> in_canonical_range(negated(b)),
        negated(PI_BITS) == NEG_PI_BITS,
        !in_canonical_range(NEG_PI_BITS),
{
}

} // verus!
