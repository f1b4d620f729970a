//! IEEE-754 single-precision semantics on bit patterns.
//!
//! A parameter value is an `f32`; here it is carried as the `u32` that
//! `f32::to_bits` gives. The two operations the parameter logic needs,
//! equality (`==` on `f32`) and clamping to the unit interval
//! (`f32::clamp(0.0, 1.0)`), are defined on those bit patterns.
use vstd::prelude::*;

verus! {

/// Bit pattern of `0.0_f32`.
pub const ZERO_BITS: u32 = 0x0000_0000;

/// Bit pattern of `-0.0_f32`.
pub const NEG_ZERO_BITS: u32 = 0x8000_0000;

/// Bit pattern of `1.0_f32`.
pub const ONE_BITS: u32 = 0x3f80_0000;

/// Bit pattern of `0.6_f32`.
pub const POINT_SIX_BITS: u32 = 0x3f19_999a;

/// The value is a NaN: all exponent bits set and a nonzero mantissa.
pub open spec fn is_nan(b: u32) -> bool {
    (b & 0x7f80_0000u32) == 0x7f80_0000u32 && (b & 0x007f_ffffu32) != 0
}

/// The value is `0.0` or `-0.0`.
pub open spec fn is_zero(b: u32) -> bool {
    (b & 0x7fff_ffffu32) == 0
}

/// `==` on the two `f32` values: false if either is NaN, true for
/// identical patterns and for the two zeros.
pub open spec fn float_eq(a: u32, b: u32) -> bool {
    !is_nan(a) && !is_nan(b) && (a == b || (is_zero(a) && is_zero(b)))
}

/// `f32::clamp(x, 0.0, 1.0)`: a NaN stays as it is, values below zero
/// become `0.0` (`-0.0` is not below zero), values above one become `1.0`.
pub open spec fn clamp_unit(b: u32) -> u32 {
    if is_nan(b) {
        b
    } else if b > NEG_ZERO_BITS {
        ZERO_BITS
    } else if b < NEG_ZERO_BITS && b > ONE_BITS {
        ONE_BITS
    } else {
        b
    }
}

/// The value lies in `[0.0, 1.0]` (either zero counts), or is a NaN.
pub open spec fn in_unit_interval(b: u32) -> bool {
    is_nan(b) || b == NEG_ZERO_BITS || b <= ONE_BITS
}

/// `a == b` for the `f32` values with bit patterns `a` and `b`.
pub fn float_bits_eq(a: u32, b: u32) -> (res: bool)
    ensures
        res == float_eq(a, b),
{
    let a_nan = (a & 0x7f80_0000u32) == 0x7f80_0000u32 && (a & 0x007f_ffffu32) != 0;
    let b_nan = (b & 0x7f80_0000u32) == 0x7f80_0000u32 && (b & 0x007f_ffffu32) != 0;
    if a_nan || b_nan {
        false
    } else {
        a == b || ((a & 0x7fff_ffffu32) == 0 && (b & 0x7fff_ffffu32) == 0)
    }
}

/// `x.clamp(0.0, 1.0)` for the `f32` value with bit pattern `b`.
pub fn clamp_unit_bits(b: u32) -> (res: u32)
    ensures
        res == clamp_unit(b),
        in_unit_interval(res),
{
    if (b & 0x7f80_0000u32) == 0x7f80_0000u32 && (b & 0x007f_ffffu32) != 0 {
        b
    } else if b > NEG_ZERO_BITS {
        ZERO_BITS
    } else if b < NEG_ZERO_BITS && b > ONE_BITS {
        ONE_BITS
    } else {
        b
    }
}

/// Clamping to the unit interval lands in it, leaves a value already there
/// unchanged, and so is idempotent.
pub proof fn lemma_clamp_unit(b: u32)
    ensures
        in_unit_interval(clamp_unit(b)),
        in_unit_interval(b) ==> clamp_unit(b) == b,
        clamp_unit(clamp_unit(b)) == clamp_unit(b),
{
}

/// `==` on `f32` is symmetric, and reflexive on every value but a NaN.
pub proof fn lemma_float_eq(a: u32, b: u32)
    ensures
        float_eq(a, b) == float_eq(b, a),
        float_eq(a, a) == !is_nan(a),
{
}

} // verus!
