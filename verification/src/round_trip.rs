//! How much a colour loses on the way from RGB to HSL and back.

use crate::consts::{PERCENT_MAX, RGB_UNIT_MAX, UNIT};
use crate::converters::{
    abs_diff, chroma_of, floor_of, hue_angle_of, lightness_of, max3, min3, rgb_of_hsl,
    saturation_of, second_of,
};
use crate::normalize::hue_of;
use crate::rgb::RgbModel;
use vstd::prelude::*;

verus! {

/// A gray survives the way to HSL and back as a gray, at most three
/// millionths darker.
pub proof fn lemma_gray_round_trip(v: int)
    requires
        0 <= v <= RGB_UNIT_MAX,
    ensures
        RgbModel::of_tuple(v, v, v).to_hsl().h == 0,
        RgbModel::of_tuple(v, v, v).to_hsl().s == 0,
        RgbModel::of_tuple(v, v, v).to_hsl().to_rgb().r == RgbModel::of_tuple(
            v,
            v,
            v,
        ).to_hsl().to_rgb().g,
        RgbModel::of_tuple(v, v, v).to_hsl().to_rgb().g == RgbModel::of_tuple(
            v,
            v,
            v,
        ).to_hsl().to_rgb().b,
        v - 3 <= RgbModel::of_tuple(v, v, v).to_hsl().to_rgb().r <= v,
{
}

/// The chroma computed back from saturation and lightness is the chroma of
/// the channels, up to rounding.
pub proof fn lemma_chroma_back(r: int, g: int, b: int)
    requires
        0 <= r <= RGB_UNIT_MAX,
        0 <= g <= RGB_UNIT_MAX,
        0 <= b <= RGB_UNIT_MAX,
        min3(r, g, b) < max3(r, g, b),
    ensures
        0 <= saturation_of(r, g, b) <= PERCENT_MAX,
        max3(r, g, b) - min3(r, g, b) - 8 <= chroma_of(
            saturation_of(r, g, b),
            lightness_of(r, g, b),
        ) <= max3(r, g, b) - min3(r, g, b) + 5,
        0 <= chroma_of(saturation_of(r, g, b), lightness_of(r, g, b)),
        saturation_of(r, g, b) == 0 ==> max3(r, g, b) - min3(r, g, b) <= 2,
{
    let hi = max3(r, g, b);
    let lo = min3(r, g, b);
    let c = hi - lo;
    let sum = hi + lo;
    let span = RGB_UNIT_MAX - abs_diff(sum, RGB_UNIT_MAX as int);
    let l = lightness_of(r, g, b);
    let s = saturation_of(r, g, b);
    let n = c * PERCENT_MAX;
    assert(s == n / span);
    assert(0 < c <= span);
    assert(s * span <= n < s * span + span && 0 <= s) by (nonlinear_arith)
        requires
            span > 0,
            n >= 0,
            s == n / span,
    ;
    assert(s <= PERCENT_MAX) by (nonlinear_arith)
        requires
            s * span <= c * PERCENT_MAX,
            0 < c <= span,
            0 <= s,
    ;
    if s == 0 {
        assert(s * span == 0) by (nonlinear_arith)
            requires
                s == 0,
        ;
        assert(n == c * 100_000_000);
    }
    let w = PERCENT_MAX - abs_diff(2 * l, PERCENT_MAX as int);
    assert(100 * span - 510 <= 255 * w <= 100 * span + 510);
    assert(0 <= w);
    let p = w * s;
    let ps = s * span;
    assert(255 * p <= 100 * ps + 510 * s) by (nonlinear_arith)
        requires
            255 * w <= 100 * span + 510,
            s >= 0,
            p == w * s,
            ps == s * span,
    ;
    assert(255 * p >= 100 * ps - 510 * s) by (nonlinear_arith)
        requires
            255 * w >= 100 * span - 510,
            s >= 0,
            p == w * s,
            ps == s * span,
    ;
    assert(p >= 0) by (nonlinear_arith)
        requires
            w >= 0,
            s >= 0,
            p == w * s,
    ;
    assert(n == c * 100_000_000);
    assert(n - span < ps <= n);
    assert(255 * p <= 10_000_000_000 * c + 51_000_000_000);
    assert(255 * p >= 10_000_000_000 * c - 76_500_000_000);
    let k = p * 255 / 10_000_000_000;
    assert(chroma_of(s, l) == k);
    assert(c - 8 <= k <= c + 5);
}

/// The second largest component computed back from the hue is the distance
/// of the middle channel from the smallest, up to rounding.
pub proof fn lemma_second_back(c: int, chroma: int, d: int)
    requires
        0 < c <= RGB_UNIT_MAX,
        0 <= d <= c,
        c - 8 <= chroma <= c + 5,
        0 <= chroma,
    ensures
        0 <= d * 60 * UNIT / c <= 60 * UNIT,
        d - 14 <= chroma * (d * 60 * UNIT / c) / (60 * UNIT) <= d + 5,
        d * 60 * UNIT / c == 0 ==> d <= 4,
        d * 60 * UNIT / c == 60 * UNIT ==> d == c,
{
    let n = d * 60 * UNIT;
    let q = n / c;
    assert(q * c <= n < q * c + c && 0 <= q) by (nonlinear_arith)
        requires
            c > 0,
            n >= 0,
            q == n / c,
    ;
    assert(q <= 60 * UNIT) by (nonlinear_arith)
        requires
            q * c <= d * 60 * UNIT,
            0 <= d <= c,
            0 < c,
            0 <= q,
    ;
    let t = chroma * q;
    let cq = q * c;
    assert(t <= cq + 5 * q && t >= cq - 8 * q && t >= 0) by (nonlinear_arith)
        requires
            c - 8 <= chroma <= c + 5,
            0 <= chroma,
            0 <= q,
            t == chroma * q,
            cq == q * c,
    ;
    assert(n == d * 60_000_000);
    assert(n - c < cq <= n);
    assert(n - 735_000_000 <= t <= n + 300_000_000);
    let x = t / 60_000_000;
    assert(chroma * (d * 60 * UNIT / c) / (60 * UNIT) == x);
    assert(d - 14 <= x <= d + 5);
    assert(q == 60 * UNIT ==> d == c) by (nonlinear_arith)
        requires
            q * c <= d * 60 * UNIT,
            0 <= d <= c,
            0 < c,
    ;
}

/// The channels of a hue that lies `q` above the anchor of red, green or
/// blue (`turn` 0, 1 or 2): the anchor's channel is largest, the next one
/// second.
pub proof fn lemma_rising_hue(turn: int, q: int, s: int, l: int)
    requires
        0 <= turn <= 2,
        0 <= q <= 60 * UNIT,
        s != 0,
    ensures
        ({
            let c = chroma_of(s, l);
            let x = c * q / (60 * UNIT);
            let m = floor_of(l, c);
            rgb_of_hsl(turn * 120 * UNIT + q, s, l) == if turn == 0 {
                (c + m, x + m, m)
            } else if turn == 1 {
                (m, c + m, x + m)
            } else {
                (x + m, m, c + m)
            }
        }),
{
    let u = UNIT as int;
    let h = turn * 120 * UNIT + q;
    let c = chroma_of(s, l);
    assert(u == 1_000_000);
    assert(h == q || h == 120_000_000 + q || h == 240_000_000 + q);
    assert(turn == 0 || turn == 1 || turn == 2);
    if q < 60 * u {
        assert(h / 60_000_000 == 2 * turn);
        assert(h % 120_000_000 == q);
        assert(second_of(h, c) == c * q / (60 * u));
    } else {
        assert(h / 60_000_000 == 2 * turn + 1);
        assert(h % 120_000_000 == 60_000_000);
        assert(second_of(h, c) == c * q / (60 * u));
        assert(c * q / (60 * u) == c) by (nonlinear_arith)
            requires
                q == 60 * u,
                u == 1_000_000,
        ;
    }
}

/// The channels of a hue that lies `q` below the anchor of green, blue or
/// red (`turn` 1, 2 or 3, where a full turn counts as 0): the anchor's
/// channel is largest, the one before it second.
pub proof fn lemma_falling_hue(turn: int, q: int, s: int, l: int)
    requires
        1 <= turn <= 3,
        0 <= q < 60 * UNIT,
        s != 0,
    ensures
        ({
            let c = chroma_of(s, l);
            let x = c * q / (60 * UNIT);
            let m = floor_of(l, c);
            rgb_of_hsl(hue_of(turn * 120 * UNIT - q), s, l) == if turn == 1 {
                (x + m, c + m, m)
            } else if turn == 2 {
                (m, x + m, c + m)
            } else {
                (c + m, m, x + m)
            }
        }),
{
    let u = UNIT as int;
    let h = hue_of(turn * 120 * UNIT - q);
    let c = chroma_of(s, l);
    assert(u == 1_000_000);
    assert(turn == 1 || turn == 2 || turn == 3);
    if q == 0 {
        assert(h == 120_000_000 || h == 240_000_000 || h == 0);
        assert(h % 120_000_000 == 0);
        assert(h / 60_000_000 == if turn == 3 {
            0
        } else {
            2 * turn
        });
        assert(c * q == 0) by (nonlinear_arith)
            requires
                q == 0,
        ;
        assert(second_of(h, c) == 0);
    } else {
        assert(h == 120_000_000 - q || h == 240_000_000 - q || h == 360_000_000 - q);
        assert(h / 60_000_000 == 2 * turn - 1);
        assert(h % 120_000_000 == 120_000_000 - q);
        assert(second_of(h, c) == c * q / (60 * u));
    }
}

/// From RGB to HSL and back, every channel comes within 32 millionths of
/// what it was, and alpha is kept.
pub proof fn lemma_round_trip(c: RgbModel)
    requires
        c.wf(),
    ensures
        c.to_hsl().wf(),
        c.to_hsl().to_rgb().wf(),
        c.to_hsl().to_rgb().a == c.a,
        abs_diff(c.to_hsl().to_rgb().r, c.r) <= 32,
        abs_diff(c.to_hsl().to_rgb().g, c.g) <= 32,
        abs_diff(c.to_hsl().to_rgb().b, c.b) <= 32,
{
    let (r, g, b) = (c.r, c.g, c.b);
    let hi = max3(r, g, b);
    let lo = min3(r, g, b);
    let l = lightness_of(r, g, b);
    let s = saturation_of(r, g, b);
    let h = hue_of(hue_angle_of(r, g, b));
    let u = UNIT as int;
    assert(0 <= l <= PERCENT_MAX);
    if hi == lo {
    } else {
        lemma_chroma_back(r, g, b);
        let chroma = chroma_of(s, l);
        let m = floor_of(l, chroma);
        let d = if hi == r {
            abs_diff(g, b)
        } else if hi == g {
            abs_diff(b, r)
        } else {
            abs_diff(r, g)
        };
        lemma_second_back(hi - lo, chroma, d);
        let q = d * 60 * UNIT / (hi - lo);
        let x = chroma * q / (60 * UNIT);
        assert(lo - 8 <= m <= lo + 8);
        assert(hi - 16 <= chroma + m <= hi + 16);
        assert(lo + d - 24 <= x + m <= lo + d + 16);
        if s == 0 {
            assert(rgb_of_hsl(h, s, l).0 == l * 255 / 100);
        } else {
            let back = rgb_of_hsl(h, s, l);
            if hi == r {
                if g >= b {
                    assert(h == q);
                    lemma_rising_hue(0, q, s, l);
                    assert(back == (chroma + m, x + m, m));
                } else {
                    assert(h == hue_of(360 * u - q));
                    assert(q == 60 * u ==> d == hi - lo);
                    if q < 60 * u {
                        lemma_falling_hue(3, q, s, l);
                    } else {
                        assert(g == lo && b == hi);
                        lemma_rising_hue(2, q, s, l);
                        assert(h == 300 * u);
                    }
                    assert(back == (chroma + m, m, x + m));
                }
            } else if hi == g {
                if b >= r {
                    assert(h == 120 * u + q);
                    lemma_rising_hue(1, q, s, l);
                    assert(back == (m, chroma + m, x + m));
                } else {
                    assert(q < 60 * u);
                    assert(h == hue_of(120 * u - q));
                    lemma_falling_hue(1, q, s, l);
                    assert(back == (x + m, chroma + m, m));
                }
            } else {
                assert(q < 60 * u);
                if r >= g {
                    assert(h == 240 * u + q);
                    lemma_rising_hue(2, q, s, l);
                    assert(back == (x + m, m, chroma + m));
                } else {
                    assert(h == hue_of(240 * u - q));
                    lemma_falling_hue(2, q, s, l);
                    assert(back == (m, x + m, chroma + m));
                }
            }
        }
    }
}

} // verus!
