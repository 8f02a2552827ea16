//! Grayscale reduction of an RGB colour.

use crate::consts::{
    B_BT601_FACTOR, B_REC2100_FACTOR, B_REC709_FACTOR, G_BT601_FACTOR, G_REC2100_FACTOR,
    G_REC709_FACTOR, R_BT601_FACTOR, R_REC2100_FACTOR, R_REC709_FACTOR, WEIGHT_SCALE,
};
use crate::converters::{max3, min3};
use crate::rgb::{Rgb, RgbModel};
use vstd::prelude::*;

verus! {

/// How a colour is reduced to gray.
#[derive(Clone, Copy, Debug, PartialEq, Eq)]
pub enum GrayScaleMethod {
    /// The mean of the three channels.
    Average,
    /// The mean of the largest and the smallest channel.
    AverageProminent,
    /// Each channel scaled by its BT.601 weight.
    Luminance,
    /// Each channel scaled by its Rec. 709 weight.
    Rec709,
    /// Each channel scaled by its Rec. 2100 weight.
    Rec2100,
}

/// The weights of red, green and blue under a weighted method, in
/// ten-thousandths; for the averaging methods, which use none, full weight.
pub open spec fn weights_of(method: GrayScaleMethod) -> (int, int, int) {
    match method {
        GrayScaleMethod::Luminance => (
            R_BT601_FACTOR as int,
            G_BT601_FACTOR as int,
            B_BT601_FACTOR as int,
        ),
        GrayScaleMethod::Rec709 => (
            R_REC709_FACTOR as int,
            G_REC709_FACTOR as int,
            B_REC709_FACTOR as int,
        ),
        GrayScaleMethod::Rec2100 => (
            R_REC2100_FACTOR as int,
            G_REC2100_FACTOR as int,
            B_REC2100_FACTOR as int,
        ),
        _ => (WEIGHT_SCALE as int, WEIGHT_SCALE as int, WEIGHT_SCALE as int),
    }
}

/// Every channel set to `v`; alpha unchanged.
pub open spec fn filled(c: RgbModel, v: int) -> RgbModel {
    RgbModel { r: v, g: v, b: v, a: c.a }
}

/// Every channel multiplied by its own weight and rounded down; alpha
/// unchanged.
pub open spec fn scaled(c: RgbModel, w: (int, int, int)) -> RgbModel {
    RgbModel {
        r: c.r * w.0 / (WEIGHT_SCALE as int),
        g: c.g * w.1 / (WEIGHT_SCALE as int),
        b: c.b * w.2 / (WEIGHT_SCALE as int),
        a: c.a,
    }
}

/// The reduced colour. The averaging methods give a neutral gray: the mean of
/// the three channels, or of the largest and the smallest, rounded down. The
/// weighted methods scale each channel by its own weight and do not sum.
pub open spec fn grayscale_of(c: RgbModel, method: GrayScaleMethod) -> RgbModel {
    match method {
        GrayScaleMethod::Average => filled(c, (c.r + c.g + c.b) / 3),
        GrayScaleMethod::AverageProminent => filled(
            c,
            (max3(c.r, c.g, c.b) + min3(c.r, c.g, c.b)) / 2,
        ),
        _ => scaled(c, weights_of(method)),
    }
}

fn scale(rgb: &mut Rgb, factors: &(i64, i64, i64))
    requires
        0 <= factors.0 <= WEIGHT_SCALE,
        0 <= factors.1 <= WEIGHT_SCALE,
        0 <= factors.2 <= WEIGHT_SCALE,
    ensures
        final(rgb)@ == scaled(old(rgb)@, (factors.0 as int, factors.1 as int, factors.2 as int)),
{
    let (r, g, b) = rgb.as_tuple();
    proof {
        let w = WEIGHT_SCALE as int;
        assert(0 <= r * factors.0 <= r * w) by (nonlinear_arith)
            requires
                0 <= r,
                0 <= factors.0 <= w,
        ;
        assert(0 <= g * factors.1 <= g * w) by (nonlinear_arith)
            requires
                0 <= g,
                0 <= factors.1 <= w,
        ;
        assert(0 <= b * factors.2 <= b * w) by (nonlinear_arith)
            requires
                0 <= b,
                0 <= factors.2 <= w,
        ;
    }
    rgb.set_red(r * factors.0 / WEIGHT_SCALE);
    rgb.set_green(g * factors.1 / WEIGHT_SCALE);
    rgb.set_blue(b * factors.2 / WEIGHT_SCALE);
}

fn fill(rgb: &mut Rgb, v: i64)
    requires
        0 <= v <= crate::consts::RGB_UNIT_MAX,
    ensures
        final(rgb)@ == filled(old(rgb)@, v as int),
{
    rgb.set_red(v);
    rgb.set_green(v);
    rgb.set_blue(v);
}

fn rgb_to_grayscale_avg(rgb: &mut Rgb)
    ensures
        final(rgb)@ == grayscale_of(old(rgb)@, GrayScaleMethod::Average),
{
    let (r, g, b) = rgb.as_tuple();
    let y: i64 = (r + g + b) / 3;
    fill(rgb, y)
}

fn rgb_to_grayscale_avg_prom(rgb: &mut Rgb)
    ensures
        final(rgb)@ == grayscale_of(old(rgb)@, GrayScaleMethod::AverageProminent),
{
    let (r, g, b) = rgb.as_tuple();
    let hi: i64 = if r >= g && r >= b {
        r
    } else if g >= b {
        g
    } else {
        b
    };
    let lo: i64 = if r <= g && r <= b {
        r
    } else if g <= b {
        g
    } else {
        b
    };
    let y: i64 = (hi + lo) / 2;
    fill(rgb, y);
}

/// Reduces the colour in place by the given method.
pub fn rgb_grayscale(rgb: &mut Rgb, method: GrayScaleMethod)
    ensures
        final(rgb)@ == grayscale_of(old(rgb)@, method),
        final(rgb)@.wf(),
{
    match method {
        GrayScaleMethod::Average => rgb_to_grayscale_avg(rgb),
        GrayScaleMethod::AverageProminent => rgb_to_grayscale_avg_prom(rgb),
        GrayScaleMethod::Luminance => scale(
            rgb,
            &(R_BT601_FACTOR, G_BT601_FACTOR, B_BT601_FACTOR),
        ),
        GrayScaleMethod::Rec709 => scale(rgb, &(R_REC709_FACTOR, G_REC709_FACTOR, B_REC709_FACTOR)),
        GrayScaleMethod::Rec2100 => scale(
            rgb,
            &(R_REC2100_FACTOR, G_REC2100_FACTOR, B_REC2100_FACTOR),
        ),
    }
    let _ = rgb.as_tuple();
}

/// The averaging methods give a neutral gray, and no method takes a channel
/// out of its range.
pub proof fn lemma_grayscale_in_range(c: RgbModel, method: GrayScaleMethod)
    requires
        c.wf(),
    ensures
        grayscale_of(c, method).wf(),
        grayscale_of(c, method).a == c.a,
        method == GrayScaleMethod::Average || method == GrayScaleMethod::AverageProminent ==> {
            &&& grayscale_of(c, method).r == grayscale_of(c, method).g
            &&& grayscale_of(c, method).g == grayscale_of(c, method).b
        },
{
}

} // verus!
