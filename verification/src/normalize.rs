//! Clamping and wrapping of single components and of triples.

use crate::consts::{HUE_MAX, PERCENT_MAX, RATIO_MAX, RGB_UNIT_MAX, UNIT};
use vstd::prelude::*;

verus! {

/// A value together with the closed range it is to be brought into.
pub struct NormalizeArg {
    pub val: i64,
    pub max: i64,
    pub min: i64,
}

/// `val` restricted to `[min, max]`: below `min` it is `min`, above `max` it
/// is `max`, otherwise unchanged.
pub open spec fn clamp(val: int, min: int, max: int) -> int {
    if val < min {
        min
    } else if val > max {
        max
    } else {
        val
    }
}

/// A hue clamped to a full turn, with the full turn itself collapsed to 0.
pub open spec fn hue_of(h: int) -> int {
    if clamp(h, 0, HUE_MAX as int) == HUE_MAX {
        0
    } else {
        clamp(h, 0, HUE_MAX as int)
    }
}

/// A ratio wrapped into `[0, 1]` by whole units: a negative value moves up to
/// `[0, 1)`, a value above one moves down to `(0, 1]`.
pub open spec fn wrap_ratio(n: int) -> int {
    if n < 0 {
        n % (UNIT as int)
    } else if n > UNIT {
        (n - 1) % (UNIT as int) + 1
    } else {
        n
    }
}

/// The value of `arg` brought into its range.
pub fn normalize(arg: NormalizeArg) -> (out: i64)
    ensures
        out == clamp(arg.val as int, arg.min as int, arg.max as int),
{
    let NormalizeArg { val, max, min } = arg;
    if val < min {
        return min;
    }
    if val > max {
        return max;
    }
    val
}

/// A ratio clamped to `[0, 1]`.
pub fn normalize_ratio(r: i64) -> (out: i64)
    ensures
        out == clamp(r as int, 0, RATIO_MAX as int),
        0 <= out <= RATIO_MAX,
{
    normalize(NormalizeArg { val: r, max: RATIO_MAX, min: 0 })
}

/// A percentage clamped to `[0, 100]`.
pub fn normalize_percent(r: i64) -> (out: i64)
    ensures
        out == clamp(r as int, 0, PERCENT_MAX as int),
        0 <= out <= PERCENT_MAX,
{
    normalize(NormalizeArg { val: r, max: PERCENT_MAX, min: 0 })
}

/// An RGB channel clamped to `[0, 255]`.
pub fn normalize_rgb_unit(u: i64) -> (out: i64)
    ensures
        out == clamp(u as int, 0, RGB_UNIT_MAX as int),
        0 <= out <= RGB_UNIT_MAX,
        u < 0 ==> out == 0,
        u > RGB_UNIT_MAX ==> out == RGB_UNIT_MAX,
        0 <= u <= RGB_UNIT_MAX ==> out == u,
{
    normalize(NormalizeArg { val: u, max: RGB_UNIT_MAX, min: 0 })
}

/// A hue clamped to `[0, 360]`, with 360 folded to 0. The hue is not taken
/// modulo a turn: anything below 0 or above 360 becomes 0.
pub fn normalize_hue(h: i64) -> (out: i64)
    ensures
        out == hue_of(h as int),
        0 <= out < HUE_MAX,
{
    let h: i64 = normalize(NormalizeArg { val: h, max: HUE_MAX, min: 0 });
    if h == HUE_MAX {
        0
    } else {
        h
    }
}

/// Hue, saturation and lightness, each normalized in its own way.
pub fn normalize_hsl(hsl_tuple: &(i64, i64, i64)) -> (out: (i64, i64, i64))
    ensures
        out.0 == hue_of(hsl_tuple.0 as int),
        out.1 == clamp(hsl_tuple.1 as int, 0, PERCENT_MAX as int),
        out.2 == clamp(hsl_tuple.2 as int, 0, PERCENT_MAX as int),
{
    (normalize_hue(hsl_tuple.0), normalize_percent(hsl_tuple.1), normalize_percent(hsl_tuple.2))
}

/// Three RGB channels, each clamped.
pub fn normalize_rgb(rgb_tuple: &(i64, i64, i64)) -> (out: (i64, i64, i64))
    ensures
        out.0 == clamp(rgb_tuple.0 as int, 0, RGB_UNIT_MAX as int),
        out.1 == clamp(rgb_tuple.1 as int, 0, RGB_UNIT_MAX as int),
        out.2 == clamp(rgb_tuple.2 as int, 0, RGB_UNIT_MAX as int),
{
    (
        normalize_rgb_unit(rgb_tuple.0),
        normalize_rgb_unit(rgb_tuple.1),
        normalize_rgb_unit(rgb_tuple.2),
    )
}

/// A ratio wrapped into `[0, 1]`, as if by adding or subtracting 1 until it
/// fits. Unlike [`normalize_ratio`] this keeps the fractional part.
pub fn bound_ratio(r: i64) -> (out: i64)
    ensures
        out == wrap_ratio(r as int),
        0 <= out <= RATIO_MAX,
{
    if r < 0 {
        let p: u64 = (0 - (r as i128)) as u64;
        let rem: u64 = p % (UNIT as u64);
        if rem == 0 {
            0
        } else {
            UNIT - (rem as i64)
        }
    } else if r > UNIT {
        let p: u64 = (r - 1) as u64;
        let rem: u64 = p % (UNIT as u64);
        (rem as i64) + 1
    } else {
        r
    }
}

/// A stand-in for `base + delta` that cannot overflow: clamped to `[0, max]`
/// it is what the true sum is.
pub fn bounded_sum(base: i64, delta: i64, max: i64) -> (out: i64)
    requires
        0 <= base <= max,
    ensures
        clamp(out as int, 0, max as int) == clamp(base + delta, 0, max as int),
        base + delta <= max ==> out == base + delta,
        base + delta > max ==> out == max,
{
    if delta > max - base {
        max
    } else {
        base + delta
    }
}

/// Wrapping only ever moves a ratio by whole units: one step towards the
/// range leaves the wrapped value unchanged.
pub proof fn lemma_wrap_ratio_step(n: int)
    ensures
        n < 0 ==> wrap_ratio(n) == wrap_ratio(n + UNIT),
        n > UNIT ==> wrap_ratio(n) == wrap_ratio(n - UNIT),
        0 <= n <= UNIT ==> wrap_ratio(n) == n,
{
}

/// A channel outside its range normalizes to the nearer bound.
pub proof fn lemma_rgb_unit_out_of_range(u: int)
    requires
        u < 0 || u > RGB_UNIT_MAX,
    ensures
        u < 0 ==> clamp(u, 0, RGB_UNIT_MAX as int) == 0,
        u > RGB_UNIT_MAX ==> clamp(u, 0, RGB_UNIT_MAX as int) == RGB_UNIT_MAX,
{
}

} // verus!
