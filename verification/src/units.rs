//! Fixed-point arithmetic shared by the components and systems.

use vstd::prelude::*;

verus! {

/// Sub-pixel units per pixel: every position, velocity and acceleration is
/// counted in these units.
pub const UNITS_PER_PIXEL: i32 = 1000;

/// The interpolation factor that stands for one whole tick.
pub const ALPHA_ONE: u32 = 65536;

/// `v` limited to the closed range from `lo` to `hi`; `lo` wins where the
/// range is empty.
pub open spec fn clamp(v: int, lo: int, hi: int) -> int {
    if v < lo {
        lo
    } else if v > hi {
        hi
    } else {
        v
    }
}

/// `v` limited to what a stored coordinate can hold.
pub open spec fn saturate_spec(v: int) -> int {
    clamp(v, i32::MIN as int, i32::MAX as int)
}

/// Stores an exact intermediate result, limiting it to the range of `i32`.
pub fn saturate(v: i64) -> (r: i32)
    ensures
        r as int == saturate_spec(v as int),
{
    if v < i32::MIN as i64 {
        i32::MIN
    } else if v > i32::MAX as i64 {
        i32::MAX
    } else {
        v as i32
    }
}

/// The sum of two stored quantities, limited to the range of `i32`.
pub fn saturating_sum(a: i32, b: i32) -> (r: i32)
    ensures
        r as int == saturate_spec(a as int + b as int),
{
    saturate(a as i64 + b as i64)
}

/// The point between `prev` and `cur` that lies `alpha` parts of
/// [`ALPHA_ONE`] along the way, rounded towards `prev`. A factor above
/// `ALPHA_ONE` counts as `ALPHA_ONE`.
pub open spec fn lerp_spec(prev: int, cur: int, alpha: int) -> int {
    let a = clamp(alpha, 0, ALPHA_ONE as int);
    if cur >= prev {
        prev + ((cur - prev) * a) / (ALPHA_ONE as int)
    } else {
        prev - ((prev - cur) * a) / (ALPHA_ONE as int)
    }
}

/// The part of a distance `d` that the factor `a` covers lies between zero
/// and `d`, and is all of `d` at [`ALPHA_ONE`] and nothing at zero.
proof fn lemma_scaled_distance(d: int, a: int)
    requires
        0 <= d,
        0 <= a <= ALPHA_ONE,
    ensures
        0 <= d * a <= d * ALPHA_ONE,
        0 <= (d * a) / (ALPHA_ONE as int) <= d,
        a == 0 ==> (d * a) / (ALPHA_ONE as int) == 0,
        a == ALPHA_ONE ==> (d * a) / (ALPHA_ONE as int) == d,
{
    let one = ALPHA_ONE as int;
    assert(0 <= d * a <= d * one) by (nonlinear_arith)
        requires
            0 <= d,
            0 <= a <= one,
    ;
    assert(0 <= (d * a) / one <= d) by (nonlinear_arith)
        requires
            0 <= d * a <= d * one,
            one == 65536,
    ;
    assert(a == 0 ==> (d * a) / one == 0) by (nonlinear_arith)
        requires
            one == 65536,
    ;
    assert(a == one ==> (d * a) / one == d) by (nonlinear_arith)
        requires
            one == 65536,
    ;
}

/// Interpolates between the previous and the current value of a coordinate.
pub fn lerp(prev: i32, cur: i32, alpha: u32) -> (r: i32)
    ensures
        r as int == lerp_spec(prev as int, cur as int, alpha as int),
{
    let a: i64 = if alpha > ALPHA_ONE {
        ALPHA_ONE as i64
    } else {
        alpha as i64
    };
    let one: i64 = ALPHA_ONE as i64;
    if cur >= prev {
        let d: i64 = cur as i64 - prev as i64;
        proof {
            lemma_scaled_distance(d as int, a as int);
        }
        let step: i64 = d * a / one;
        (prev as i64 + step) as i32
    } else {
        let d: i64 = prev as i64 - cur as i64;
        proof {
            lemma_scaled_distance(d as int, a as int);
        }
        let step: i64 = d * a / one;
        (prev as i64 - step) as i32
    }
}

/// At factor zero the interpolated value is the previous one, at
/// [`ALPHA_ONE`] or above it is the current one, and in between it never
/// leaves the closed range that the two span.
pub proof fn lemma_lerp_bounds(prev: int, cur: int, alpha: int)
    ensures
        alpha <= 0 ==> lerp_spec(prev, cur, alpha) == prev,
        alpha >= ALPHA_ONE ==> lerp_spec(prev, cur, alpha) == cur,
        prev <= cur ==> prev <= lerp_spec(prev, cur, alpha) <= cur,
        cur <= prev ==> cur <= lerp_spec(prev, cur, alpha) <= prev,
{
    let a = clamp(alpha, 0, ALPHA_ONE as int);
    let d = if cur >= prev { cur - prev } else { prev - cur };
    lemma_scaled_distance(d, a);
}

} // verus!
