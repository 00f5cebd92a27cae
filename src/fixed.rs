use vstd::prelude::*;

verus! {

/// Fixed-point units per whole unit (one unit is `SCALE` micro-units).
pub const SCALE: i64 = 1_000_000;

/// Largest magnitude accepted for a configuration value, a tick duration or a
/// mass: one million whole units.
pub const LIMIT: i64 = 1_000_000_000_000;

/// Division that rounds toward zero, as integer division does in Rust.
pub open spec fn trunc_div(a: int, d: int) -> int {
    if a >= 0 {
        a / d
    } else {
        -((-a) / d)
    }
}

/// `x` held to the range `[lo, hi]`.
pub open spec fn clamp_int(x: int, lo: int, hi: int) -> int {
    if x < lo {
        lo
    } else if x > hi {
        hi
    } else {
        x
    }
}

/// `x` saturated to the range of `i64`.
pub open spec fn sat_i64(x: int) -> int {
    clamp_int(x, i64::MIN as int, i64::MAX as int)
}

/// Divides by a positive divisor, rounding toward zero.
pub fn div_toward_zero(a: i128, d: i128) -> (r: i128)
    requires
        d > 0,
        a > i128::MIN,
    ensures
        r == trunc_div(a as int, d as int),
{
    if a >= 0 {
        a / d
    } else {
        let m: i128 = -a;
        -(m / d)
    }
}

/// Holds `x` to `[lo, hi]`.
pub fn clamp_i128(x: i128, lo: i128, hi: i128) -> (r: i128)
    requires
        lo <= hi,
    ensures
        r == clamp_int(x as int, lo as int, hi as int),
        lo <= r <= hi,
{
    if x < lo {
        lo
    } else if x > hi {
        hi
    } else {
        x
    }
}

/// Saturates a wide value to `i64`.
pub fn saturate_i64(x: i128) -> (r: i64)
    ensures
        r == sat_i64(x as int),
{
    clamp_i128(x, i64::MIN as i128, i64::MAX as i128) as i64
}

/// A product of two bounded factors is bounded by the product of the bounds.
pub proof fn lemma_mul_bound(a: int, b: int, ma: int, mb: int)
    requires
        -ma <= a <= ma,
        -mb <= b <= mb,
    ensures
        -(ma * mb) <= a * b <= ma * mb,
{
    assert(-(ma * mb) <= a * b <= ma * mb) by (nonlinear_arith)
        requires
            -ma <= a <= ma,
            -mb <= b <= mb,
    ;
}

} // verus!
