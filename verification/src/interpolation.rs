use vstd::arithmetic::div_mod::{lemma_div_by_multiple, lemma_div_is_ordered};
use vstd::arithmetic::mul::{lemma_mul_inequality, lemma_mul_nonnegative};
use vstd::prelude::*;

verus! {

/// `x` limited to the closed interval from `lo` to `hi`.
pub open spec fn clamp(x: int, lo: int, hi: int) -> int {
    if x < lo {
        lo
    } else if x > hi {
        hi
    } else {
        x
    }
}

/// The height at `x` of the straight line through `(x0, y0)` and `(x1, y1)`,
/// rounded down to a whole number.
///
/// For `x0 <= x <= x1 <= 255` and `0 <= y0 <= y1 <= 255` this is also what
/// the expression `y0 + (x - x0) * (y1 - y0) / (x1 - x0)` gives when it is
/// evaluated in double precision and then truncated: the product is exact,
/// and a quotient that is not whole lies at least `1 / 255` away from the
/// next whole number, far more than the rounding of the division and of the
/// sum can move it.
pub open spec fn interpolate(x0: int, x1: int, y0: int, y1: int, x: int) -> int
    recommends
        x0 < x1,
{
    y0 + ((x - x0) * (y1 - y0)) / (x1 - x0)
}

/// Inside the interval the interpolated height stays between the heights of
/// the two end points.
pub proof fn lemma_interpolate_bounds(x0: int, x1: int, y0: int, y1: int, x: int)
    requires
        x0 < x1,
        y0 <= y1,
        x0 <= x <= x1,
    ensures
        y0 <= interpolate(x0, x1, y0, y1, x) <= y1,
{
    let run = x - x0;
    let span = x1 - x0;
    let rise = y1 - y0;
    lemma_mul_nonnegative(run, rise);
    lemma_mul_inequality(run, span, rise);
    lemma_div_is_ordered(0, run * rise, span);
    lemma_div_is_ordered(run * rise, span * rise, span);
    lemma_div_by_multiple(rise, span);
}

/// The interpolated height at the lower end point is exactly `y0`, and at
/// the upper end point exactly `y1`.
pub proof fn lemma_interpolate_end_points(x0: int, x1: int, y0: int, y1: int)
    requires
        x0 < x1,
        y0 <= y1,
    ensures
        interpolate(x0, x1, y0, y1, x0) == y0,
        interpolate(x0, x1, y0, y1, x1) == y1,
{
    let span = x1 - x0;
    let rise = y1 - y0;
    lemma_div_by_multiple(rise, span);
}

/// Interpolation between rising end points never falls as `x` grows.
pub proof fn lemma_interpolate_monotonic(x0: int, x1: int, y0: int, y1: int, a: int, b: int)
    requires
        x0 < x1,
        y0 <= y1,
        a <= b,
    ensures
        interpolate(x0, x1, y0, y1, a) <= interpolate(x0, x1, y0, y1, b),
{
    let span = x1 - x0;
    let rise = y1 - y0;
    lemma_mul_inequality(a - x0, b - x0, rise);
    lemma_div_is_ordered((a - x0) * rise, (b - x0) * rise, span);
}

/// Maps `s` from the range `from_range` to the range `to_range` along a
/// straight line, rounding down.
pub fn map_range(from_range: (u8, u8), to_range: (u8, u8), s: u8) -> (r: u8)
    requires
        from_range.0 < from_range.1,
        to_range.0 <= to_range.1,
        from_range.0 <= s <= from_range.1,
    ensures
        r == interpolate(
            from_range.0 as int,
            from_range.1 as int,
            to_range.0 as int,
            to_range.1 as int,
            s as int,
        ),
{
    let run: u32 = (s - from_range.0) as u32;
    let span: u32 = (from_range.1 - from_range.0) as u32;
    let rise: u32 = (to_range.1 - to_range.0) as u32;
    proof {
        lemma_interpolate_bounds(
            from_range.0 as int,
            from_range.1 as int,
            to_range.0 as int,
            to_range.1 as int,
            s as int,
        );
        lemma_mul_nonnegative(run as int, rise as int);
        lemma_mul_inequality(run as int, 255, rise as int);
        lemma_mul_inequality(rise as int, 255, 255);
    }
    let climbed: u32 = run * rise / span;
    (to_range.0 as u32 + climbed) as u8
}

} // verus!
