//! The YIQ model: luma and two signed chrominance components, without alpha.

use crate::consts::RGB_UNIT_MAX;
use crate::converters::abs_diff;
use crate::normalize::clamp;
use crate::rgb::{Rgb, RgbModel};
use vstd::prelude::*;

verus! {

/// The quotient of `n` by a positive `d`, rounded towards zero.
pub open spec fn toward_zero(n: int, d: int) -> int {
    if n >= 0 {
        n / d
    } else {
        -((-n) / d)
    }
}

/// Luma of RGB channels, as a ratio: `0.299 r + 0.587 g + 0.114 b` over 255.
pub open spec fn luma_of(r: int, g: int, b: int) -> int {
    toward_zero(299 * r + 587 * g + 114 * b, 255_000)
}

/// In-phase chrominance: `0.596 r - 0.274 g - 0.322 b` over 255.
pub open spec fn in_phase_of(r: int, g: int, b: int) -> int {
    toward_zero(596 * r - 274 * g - 322 * b, 255_000)
}

/// Quadrature chrominance: `0.211 r - 0.522 g + 0.311 b` over 255. With
/// this sign the component stays within `[-0.522, 0.522]` and a gray has no
/// chrominance.
pub open spec fn quadrature_of(r: int, g: int, b: int) -> int {
    toward_zero(211 * r - 522 * g + 311 * b, 255_000)
}

/// Red of a YIQ colour before clamping: `(y + 0.956 i + 0.623 q) * 255`.
pub open spec fn red_of(y: int, i: int, q: int) -> int {
    toward_zero((1000 * y + 956 * i + 623 * q) * 255, 1000)
}

/// Green of a YIQ colour before clamping: `(y - 0.272 i - 0.648 q) * 255`.
pub open spec fn green_of(y: int, i: int, q: int) -> int {
    toward_zero((1000 * y - 272 * i - 648 * q) * 255, 1000)
}

/// Blue of a YIQ colour before clamping: `(y - 1.105 i + 1.705 q) * 255`.
pub open spec fn blue_of(y: int, i: int, q: int) -> int {
    toward_zero((1000 * y - 1105 * i + 1705 * q) * 255, 1000)
}

/// A colour in luma and chrominance. The components are ratios and are not
/// clamped.
#[derive(Clone, Copy, Debug, PartialEq, Eq)]
pub struct Yiq {
    /// Brightness or luminance
    y: i64,
    i: i64,
    q: i64,
}

impl View for Yiq {
    type V = (int, int, int);

    closed spec fn view(&self) -> (int, int, int) {
        (self.y as int, self.i as int, self.q as int)
    }
}

impl Yiq {
    /// The colour with the given luma and chrominance.
    pub closed spec fn of_model(m: (int, int, int)) -> Yiq {
        Yiq { y: m.0 as i64, i: m.1 as i64, q: m.2 as i64 }
    }

    /// A colour is determined by what it stands for.
    pub proof fn lemma_of_model(c: Yiq)
        ensures
            Yiq::of_model(c@) == c,
    {
    }

    pub fn new(y: i64, i: i64, q: i64) -> (out: Yiq)
        ensures
            out@ == (y as int, i as int, q as int),
    {
        Yiq { y, i, q }
    }

    pub fn as_tuple(&self) -> (out: (i64, i64, i64))
        ensures
            out.0 == self@.0,
            out.1 == self@.1,
            out.2 == self@.2,
    {
        (self.y, self.i, self.q)
    }
}

/// The RGB model of luma and chrominance: the inverse matrix applied,
/// scaled to 255 and clamped, without alpha.
pub open spec fn rgb_of_yiq(m: (int, int, int)) -> RgbModel {
    RgbModel::of_tuple(red_of(m.0, m.1, m.2), green_of(m.0, m.1, m.2), blue_of(m.0, m.1, m.2))
}

/// Luma and chrominance of an RGB model; alpha plays no part.
pub open spec fn yiq_of_rgb(c: RgbModel) -> (int, int, int) {
    (luma_of(c.r, c.g, c.b), in_phase_of(c.r, c.g, c.b), quadrature_of(c.r, c.g, c.b))
}

impl Default for Yiq {
    fn default() -> (out: Yiq)
        ensures
            out@ == (0int, 0int, 0int),
    {
        Yiq { y: 0, i: 0, q: 0 }
    }
}

impl From<&Yiq> for Rgb {
    fn from(yiq: &Yiq) -> (out: Rgb) {
        let out: Rgb = yiq_to_rgb(yiq);
        proof {
            Rgb::lemma_of_model(out);
        }
        out
    }
}

impl vstd::std_specs::convert::FromSpecImpl<&Yiq> for Rgb {
    open spec fn obeys_from_spec() -> bool {
        true
    }

    open spec fn from_spec(yiq: &Yiq) -> Rgb {
        Rgb::of_model(rgb_of_yiq(yiq@))
    }
}

impl From<&Rgb> for Yiq {
    fn from(rgb: &Rgb) -> (out: Yiq) {
        let out: Yiq = rgb_to_yiq(rgb);
        proof {
            Yiq::lemma_of_model(out);
        }
        out
    }
}

impl vstd::std_specs::convert::FromSpecImpl<&Rgb> for Yiq {
    open spec fn obeys_from_spec() -> bool {
        true
    }

    open spec fn from_spec(rgb: &Rgb) -> Yiq {
        Yiq::of_model(yiq_of_rgb(rgb@))
    }
}

fn divide(n: i128, d: i128) -> (out: i128)
    requires
        d > 0,
        n > i128::MIN,
    ensures
        out == toward_zero(n as int, d as int),
        n >= 0 ==> 0 <= out <= n,
        n < 0 ==> n <= out <= 0,
{
    if n >= 0 {
        proof {
            assert(0 <= n as int / d as int <= n) by (nonlinear_arith)
                requires
                    n >= 0,
                    d > 0,
            ;
        }
        n / d
    } else {
        let p: i128 = -n;
        proof {
            assert(0 <= p as int / d as int <= p) by (nonlinear_arith)
                requires
                    p >= 0,
                    d > 0,
            ;
        }
        -(p / d)
    }
}

fn channel(v: i128) -> (out: i64)
    ensures
        out == clamp(v as int, 0, RGB_UNIT_MAX as int),
{
    if v < 0 {
        0
    } else if v > RGB_UNIT_MAX as i128 {
        RGB_UNIT_MAX
    } else {
        v as i64
    }
}

/// The RGB colour of a YIQ colour, opaque: the inverse matrix applied to
/// `(y, i, q)`, scaled to 255 and clamped.
pub fn yiq_to_rgb(yiq: &Yiq) -> (out: Rgb)
    ensures
        out@ == rgb_of_yiq(yiq@),
{
    let y: i128 = yiq.y as i128;
    let i: i128 = yiq.i as i128;
    let q: i128 = yiq.q as i128;
    let r: i128 = divide((1000 * y + 956 * i + 623 * q) * 255, 1000);
    let g: i128 = divide((1000 * y - 272 * i - 648 * q) * 255, 1000);
    let b: i128 = divide((1000 * y - 1105 * i + 1705 * q) * 255, 1000);
    Rgb::from_tuple(&(channel(r), channel(g), channel(b)))
}

/// The YIQ colour of an RGB colour; alpha is dropped.
pub fn rgb_to_yiq(rgb: &Rgb) -> (out: Yiq)
    ensures
        out@ == yiq_of_rgb(rgb@),
{
    let t = rgb.as_tuple();
    let r: i128 = t.0 as i128;
    let g: i128 = t.1 as i128;
    let b: i128 = t.2 as i128;
    let y: i128 = divide(299 * r + 587 * g + 114 * b, 255_000);
    let i: i128 = divide(596 * r - 274 * g - 322 * b, 255_000);
    let q: i128 = divide(211 * r - 522 * g + 311 * b, 255_000);
    Yiq { y: y as i64, i: i as i64, q: q as i64 }
}

/// How far a quotient rounded towards zero is from the exact one.
proof fn lemma_toward_zero(n: int, q: int, d: int)
    requires
        d == 1000 || d == 255_000,
        q == toward_zero(n, d),
    ensures
        -d < n - d * q < d,
{
}

/// From RGB to YIQ and back, every channel comes within a tenth of a unit of
/// what it was: the two matrices are inverse to each other up to their third
/// decimal.
pub proof fn lemma_yiq_round_trip(c: RgbModel)
    requires
        c.wf(),
    ensures
        rgb_of_yiq(yiq_of_rgb(c)).wf(),
        abs_diff(rgb_of_yiq(yiq_of_rgb(c)).r, c.r) <= 100_000,
        abs_diff(rgb_of_yiq(yiq_of_rgb(c)).g, c.g) <= 100_000,
        abs_diff(rgb_of_yiq(yiq_of_rgb(c)).b, c.b) <= 100_000,
{
    let (r, g, b) = (c.r, c.g, c.b);
    let ny = 299 * r + 587 * g + 114 * b;
    let ni = 596 * r - 274 * g - 322 * b;
    let nq = 211 * r - 522 * g + 311 * b;
    let y = luma_of(r, g, b);
    let i = in_phase_of(r, g, b);
    let q = quadrature_of(r, g, b);
    lemma_toward_zero(ny, y, 255_000);
    lemma_toward_zero(ni, i, 255_000);
    lemma_toward_zero(nq, q, 255_000);
    let ey = ny - 255_000 * y;
    let ei = ni - 255_000 * i;
    let eq = nq - 255_000 * q;
    let nr = (1000 * y + 956 * i + 623 * q) * 255;
    let ng = (1000 * y - 272 * i - 648 * q) * 255;
    let nb = (1000 * y - 1105 * i + 1705 * q) * 255;
    let br = red_of(y, i, q);
    let bg = green_of(y, i, q);
    let bb = blue_of(y, i, q);
    lemma_toward_zero(nr, br, 1000);
    lemma_toward_zero(ng, bg, 1000);
    lemma_toward_zero(nb, bb, 1000);
    assert(1000 * nr == 1_000_229 * r - 150 * g - 79 * b - (1000 * ey + 956 * ei + 623 * eq));
    assert(1000 * ng == 160 * r + 999_784 * g + 56 * b - (1000 * ey - 272 * ei - 648 * eq));
    assert(1000 * nb == 175 * r - 240 * g + 1_000_065 * b - (1000 * ey - 1105 * ei + 1705 * eq));
    assert(-100_000 <= br - r <= 100_000);
    assert(-100_000 <= bg - g <= 100_000);
    assert(-100_000 <= bb - b <= 100_000);
}

} // verus!
