//! Conversion between the RGB and HSL coordinates of a colour, on triples.

use crate::consts::{HUE_MAX, PERCENT_MAX, RGB_UNIT_MAX, UNIT};
use crate::normalize::{clamp, hue_of, normalize_hsl, normalize_rgb};
use vstd::prelude::*;

verus! {

pub open spec fn max3(a: int, b: int, c: int) -> int {
    if a >= b && a >= c {
        a
    } else if b >= c {
        b
    } else {
        c
    }
}

pub open spec fn min3(a: int, b: int, c: int) -> int {
    if a <= b && a <= c {
        a
    } else if b <= c {
        b
    } else {
        c
    }
}

pub open spec fn abs_diff(a: int, b: int) -> int {
    if a >= b {
        a - b
    } else {
        b - a
    }
}

/// Lightness in percent: the mean of the largest and the smallest channel,
/// taken as a share of 255 and rounded down.
pub open spec fn lightness_of(r: int, g: int, b: int) -> int {
    (max3(r, g, b) + min3(r, g, b)) * 100 / 510
}

/// Saturation in percent: chroma divided by `1 - |2L - 1|`, rounded down;
/// 0 for a gray.
pub open spec fn saturation_of(r: int, g: int, b: int) -> int {
    let hi = max3(r, g, b);
    let lo = min3(r, g, b);
    if hi == lo {
        0
    } else {
        (hi - lo) * PERCENT_MAX / (RGB_UNIT_MAX - abs_diff(hi + lo, RGB_UNIT_MAX as int))
    }
}

/// Hue in degrees before wrapping: 60 degrees times the signed distance of
/// the two lesser channels over chroma, counted from the anchor of the
/// largest channel (red 0 or 360, green 120, blue 240). The distance from
/// the anchor is rounded down. 0 for a gray.
pub open spec fn hue_angle_of(r: int, g: int, b: int) -> int {
    let hi = max3(r, g, b);
    let chroma = hi - min3(r, g, b);
    if chroma == 0 {
        0
    } else if hi == r {
        if g >= b {
            (g - b) * 60 * UNIT / chroma
        } else {
            HUE_MAX - (b - g) * 60 * UNIT / chroma
        }
    } else if hi == g {
        if b >= r {
            120 * UNIT + (b - r) * 60 * UNIT / chroma
        } else {
            120 * UNIT - (r - b) * 60 * UNIT / chroma
        }
    } else {
        if r >= g {
            240 * UNIT + (r - g) * 60 * UNIT / chroma
        } else {
            240 * UNIT - (g - r) * 60 * UNIT / chroma
        }
    }
}

/// Chroma on the scale of an RGB channel: `(1 - |2L - 1|) * S * 255`,
/// rounded down.
pub open spec fn chroma_of(s: int, l: int) -> int {
    (PERCENT_MAX - abs_diff(2 * l, PERCENT_MAX as int)) * s * 255 / (10_000 * UNIT)
}

/// The second largest component of a sector:
/// `chroma * (1 - |(H / 60) mod 2 - 1|)`, rounded down.
pub open spec fn second_of(h: int, chroma: int) -> int {
    chroma * (60 * UNIT - abs_diff(h % (120 * UNIT), 60 * UNIT)) / (60 * UNIT)
}

/// What is added to every channel: lightness on the scale of a channel,
/// less half the chroma.
pub open spec fn floor_of(l: int, chroma: int) -> int {
    l * 255 / 100 - chroma / 2
}

/// The RGB channels of a hue in `[0, 360)` with saturation and lightness in
/// `[0, 100]`, before they are clamped.
pub open spec fn rgb_of_hsl(h: int, s: int, l: int) -> (int, int, int) {
    if s == 0 {
        (l * 255 / 100, l * 255 / 100, l * 255 / 100)
    } else {
        let c = chroma_of(s, l);
        let x = second_of(h, c);
        let m = floor_of(l, c);
        let sector = h / (60 * UNIT);
        if sector == 0 {
            (c + m, x + m, m)
        } else if sector == 1 {
            (x + m, c + m, m)
        } else if sector == 2 {
            (m, c + m, x + m)
        } else if sector == 3 {
            (m, x + m, c + m)
        } else if sector == 4 {
            (x + m, m, c + m)
        } else {
            (c + m, m, x + m)
        }
    }
}

/// A hue turned by half a turn.
pub open spec fn inverted_hue(h: int) -> int {
    (h + 180 * UNIT) % (HUE_MAX as int)
}

/// A value in millionths rounded to the nearest whole unit, halves upwards.
pub open spec fn rounded(v: int) -> int {
    (v + UNIT / 2) / (UNIT as int)
}

/// The quotient of a non-negative number by a positive one, rounded down.
fn quotient(n: i64, d: i64) -> (q: i64)
    requires
        n >= 0,
        d > 0,
    ensures
        q == n as int / d as int,
        0 <= q <= n,
{
    proof {
        assert(0 <= n as int / d as int <= n) by (nonlinear_arith)
            requires
                n >= 0,
                d > 0,
        ;
    }
    n / d
}

fn largest(a: i64, b: i64, c: i64) -> (m: i64)
    ensures
        m == max3(a as int, b as int, c as int),
{
    if a >= b && a >= c {
        a
    } else if b >= c {
        b
    } else {
        c
    }
}

fn smallest(a: i64, b: i64, c: i64) -> (m: i64)
    ensures
        m == min3(a as int, b as int, c as int),
{
    if a <= b && a <= c {
        a
    } else if b <= c {
        b
    } else {
        c
    }
}

/// Hue, saturation and lightness of an RGB triple. The triple is clamped to
/// the channels' range first; the hue may come out as a full turn, which the
/// HSL constructors fold to 0.
pub fn rgb_to_hsl(rgb: &(i64, i64, i64)) -> (out: (i64, i64, i64))
    ensures
        out.0 == hue_angle_of(
            clamp(rgb.0 as int, 0, RGB_UNIT_MAX as int),
            clamp(rgb.1 as int, 0, RGB_UNIT_MAX as int),
            clamp(rgb.2 as int, 0, RGB_UNIT_MAX as int),
        ),
        out.1 == saturation_of(
            clamp(rgb.0 as int, 0, RGB_UNIT_MAX as int),
            clamp(rgb.1 as int, 0, RGB_UNIT_MAX as int),
            clamp(rgb.2 as int, 0, RGB_UNIT_MAX as int),
        ),
        out.2 == lightness_of(
            clamp(rgb.0 as int, 0, RGB_UNIT_MAX as int),
            clamp(rgb.1 as int, 0, RGB_UNIT_MAX as int),
            clamp(rgb.2 as int, 0, RGB_UNIT_MAX as int),
        ),
        0 <= out.0 <= HUE_MAX,
        0 <= out.1 <= PERCENT_MAX,
        0 <= out.2 <= PERCENT_MAX,
{
    let (r, g, b) = normalize_rgb(rgb);
    let hi: i64 = largest(r, g, b);
    let lo: i64 = smallest(r, g, b);
    let l: i64 = (hi + lo) * 100 / 510;
    if hi == lo {
        return (0, 0, l);
    }
    let chroma: i64 = hi - lo;
    let sum: i64 = hi + lo;
    let span: i64 = if sum >= RGB_UNIT_MAX {
        RGB_UNIT_MAX - (sum - RGB_UNIT_MAX)
    } else {
        RGB_UNIT_MAX - (RGB_UNIT_MAX - sum)
    };
    let s: i64 = quotient(chroma * PERCENT_MAX, span);
    proof {
        assert(chroma * PERCENT_MAX / span as int <= PERCENT_MAX) by (nonlinear_arith)
            requires
                0 < chroma <= span,
        ;
    }
    let h: i64 = if hi == r {
        if g >= b {
            sixth(g - b, chroma)
        } else {
            HUE_MAX - sixth(b - g, chroma)
        }
    } else if hi == g {
        if b >= r {
            120 * UNIT + sixth(b - r, chroma)
        } else {
            120 * UNIT - sixth(r - b, chroma)
        }
    } else {
        if r >= g {
            240 * UNIT + sixth(r - g, chroma)
        } else {
            240 * UNIT - sixth(g - r, chroma)
        }
    };
    (h, s, l)
}

/// Sixty degrees times `part / chroma`, rounded down.
fn sixth(part: i64, chroma: i64) -> (q: i64)
    requires
        0 <= part <= chroma <= RGB_UNIT_MAX,
        chroma > 0,
    ensures
        q == part * 60 * UNIT / chroma as int,
        0 <= q <= 60 * UNIT,
{
    proof {
        assert(part * 60 * UNIT / chroma as int <= 60 * UNIT) by (nonlinear_arith)
            requires
                0 <= part <= chroma,
                chroma > 0,
        ;
    }
    quotient(part * 60 * UNIT, chroma)
}

/// The RGB channels of an HSL triple. The triple is normalized first; the
/// channels are not clamped here but by the RGB constructors.
pub fn hsl_to_rgb(hsl: &(i64, i64, i64)) -> (out: (i64, i64, i64))
    ensures
        out.0 == rgb_of_hsl(
            hue_of(hsl.0 as int),
            clamp(hsl.1 as int, 0, PERCENT_MAX as int),
            clamp(hsl.2 as int, 0, PERCENT_MAX as int),
        ).0,
        out.1 == rgb_of_hsl(
            hue_of(hsl.0 as int),
            clamp(hsl.1 as int, 0, PERCENT_MAX as int),
            clamp(hsl.2 as int, 0, PERCENT_MAX as int),
        ).1,
        out.2 == rgb_of_hsl(
            hue_of(hsl.0 as int),
            clamp(hsl.1 as int, 0, PERCENT_MAX as int),
            clamp(hsl.2 as int, 0, PERCENT_MAX as int),
        ).2,
{
    let (h, s, l) = normalize_hsl(hsl);
    let gray: i64 = l * 255 / 100;
    if s == 0 {
        return (gray, gray, gray);
    }
    let twice: i64 = 2 * l;
    let width: i64 = if twice >= PERCENT_MAX {
        PERCENT_MAX - (twice - PERCENT_MAX)
    } else {
        PERCENT_MAX - (PERCENT_MAX - twice)
    };
    proof {
        assert(0 <= width * s <= 10_000_000_000_000_000) by (nonlinear_arith)
            requires
                0 <= width <= 100_000_000,
                0 <= s <= 100_000_000,
        ;
    }
    let c: i64 = width * s * 255 / (10_000 * UNIT);
    let phase: i64 = h % (120 * UNIT);
    let rise: i64 = if phase >= 60 * UNIT {
        60 * UNIT - (phase - 60 * UNIT)
    } else {
        60 * UNIT - (60 * UNIT - phase)
    };
    proof {
        assert(0 <= c * rise <= 255_000_000 * 60_000_000) by (nonlinear_arith)
            requires
                0 <= c <= 255_000_000,
                0 <= rise <= 60_000_000,
        ;
    }
    let x: i64 = c * rise / (60 * UNIT);
    let m: i64 = gray - c / 2;
    let sector: i64 = h / (60 * UNIT);
    if sector == 0 {
        (c + m, x + m, m)
    } else if sector == 1 {
        (x + m, c + m, m)
    } else if sector == 2 {
        (m, c + m, x + m)
    } else if sector == 3 {
        (m, x + m, c + m)
    } else if sector == 4 {
        (x + m, m, c + m)
    } else {
        (c + m, m, x + m)
    }
}

/// A hue in `[0, 360)` turned by 180 degrees.
pub fn invert_hue(h: i64) -> (out: i64)
    requires
        0 <= h < HUE_MAX,
    ensures
        out == inverted_hue(h as int),
        0 <= out < HUE_MAX,
{
    (h + 180 * UNIT) % HUE_MAX
}

/// Each channel of a clamped triple replaced by its distance from 255.
pub fn rgb_invert(rgb: &(i64, i64, i64)) -> (out: (i64, i64, i64))
    ensures
        out.0 == RGB_UNIT_MAX - clamp(rgb.0 as int, 0, RGB_UNIT_MAX as int),
        out.1 == RGB_UNIT_MAX - clamp(rgb.1 as int, 0, RGB_UNIT_MAX as int),
        out.2 == RGB_UNIT_MAX - clamp(rgb.2 as int, 0, RGB_UNIT_MAX as int),
{
    let (r, g, b) = normalize_rgb(rgb);
    (RGB_UNIT_MAX - r, RGB_UNIT_MAX - g, RGB_UNIT_MAX - b)
}

/// A component in millionths rounded to whole units, halves upwards. The
/// component is clamped to `[0, 360]` first.
pub fn round_unit(v: i64) -> (out: u16)
    ensures
        out == rounded(clamp(v as int, 0, HUE_MAX as int)),
        out <= 360,
        0 <= v <= RGB_UNIT_MAX ==> out <= 255,
        0 <= v <= PERCENT_MAX ==> out <= 100,
{
    let c: i64 = if v < 0 {
        0
    } else if v > HUE_MAX {
        HUE_MAX
    } else {
        v
    };
    ((c + UNIT / 2) / UNIT) as u16
}

/// Turning a hue by half a turn twice gives the hue back.
pub proof fn lemma_invert_hue_involution(h: int)
    requires
        0 <= h < HUE_MAX,
    ensures
        inverted_hue(inverted_hue(h)) == h,
        0 <= inverted_hue(h) < HUE_MAX,
{
}

} // verus!
