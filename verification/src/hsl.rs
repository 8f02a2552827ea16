//! The HSL model: hue in `[0, 360)`, saturation and lightness in `[0, 100]`,
//! and an optional alpha.

use crate::consts::{HUE_MAX, PERCENT_MAX, RATIO_MAX, RGB_UNIT_MAX};
use crate::converters::{hsl_to_rgb, invert_hue, inverted_hue, rgb_of_hsl, round_unit, rounded};
use crate::normalize::{
    bounded_sum, clamp, hue_of, normalize_hsl, normalize_hue, normalize_percent, normalize_ratio,
};
use crate::render::{css_hsl_of, decimal};
use crate::rgb::{Rgb, RgbModel, RgbUnit};
use vstd::prelude::*;
use vstd::string::*;

verus! {

/// What an [`Hsl`] stands for: its components and alpha as integers.
pub struct HslModel {
    pub h: int,
    pub s: int,
    pub l: int,
    pub a: Option<int>,
}

impl HslModel {
    /// Hue lies in `[0, 360)`, saturation and lightness in `[0, 100]`, and
    /// alpha, if present, in `[0, 1]`.
    pub open spec fn wf(self) -> bool {
        &&& 0 <= self.h < HUE_MAX
        &&& 0 <= self.s <= PERCENT_MAX
        &&& 0 <= self.l <= PERCENT_MAX
        &&& (self.a matches Some(a) ==> 0 <= a <= RATIO_MAX)
    }

    /// The colour built from a raw triple, without alpha.
    pub open spec fn of_tuple(h: int, s: int, l: int) -> HslModel {
        HslModel {
            h: hue_of(h),
            s: clamp(s, 0, PERCENT_MAX as int),
            l: clamp(l, 0, PERCENT_MAX as int),
            a: None,
        }
    }

    /// Alpha, fully opaque where none is stored.
    pub open spec fn alpha(self) -> int {
        match self.a {
            Some(a) => a,
            None => RATIO_MAX as int,
        }
    }

    pub open spec fn with_alpha(self, a: int) -> HslModel {
        HslModel { a: Some(clamp(a, 0, RATIO_MAX as int)), ..self }
    }

    pub open spec fn set_hue(self, val: int) -> HslModel {
        HslModel { h: hue_of(val), ..self }
    }

    pub open spec fn set_saturation(self, val: int) -> HslModel {
        HslModel { s: clamp(val, 0, PERCENT_MAX as int), ..self }
    }

    pub open spec fn set_lightness(self, val: int) -> HslModel {
        HslModel { l: clamp(val, 0, PERCENT_MAX as int), ..self }
    }

    pub open spec fn lighten(self, val: int) -> HslModel {
        self.set_lightness(self.l + val)
    }

    pub open spec fn saturate(self, val: int) -> HslModel {
        self.set_saturation(self.s + val)
    }

    pub open spec fn adjust_hue(self, val: int) -> HslModel {
        self.set_hue(self.h + val)
    }

    /// Hue turned by half a turn; the rest unchanged.
    pub open spec fn invert(self) -> HslModel {
        HslModel { h: inverted_hue(self.h), ..self }
    }

    pub open spec fn grayscale(self) -> HslModel {
        HslModel { h: 0, s: 0, ..self }
    }

    /// The same colour in RGB, alpha kept.
    pub open spec fn to_rgb(self) -> RgbModel {
        RgbModel {
            r: clamp(rgb_of_hsl(self.h, self.s, self.l).0, 0, RGB_UNIT_MAX as int),
            g: clamp(rgb_of_hsl(self.h, self.s, self.l).1, 0, RGB_UNIT_MAX as int),
            b: clamp(rgb_of_hsl(self.h, self.s, self.l).2, 0, RGB_UNIT_MAX as int),
            a: self.a,
        }
    }

    /// One RGB channel of the colour moved by `val`.
    pub open spec fn adjust_color(self, name: RgbUnit, val: int) -> HslModel {
        self.to_rgb().adjust_color(name, val).to_hsl()
    }
}

/// A colour in hue, saturation and lightness. Its hue always lies in
/// `[0, 360)`, saturation and lightness in `[0, 100]`, and its alpha, if it
/// has one, in `[0, 1]`.
#[derive(Clone, Copy, Debug, PartialEq, Eq)]
pub struct Hsl {
    h: i64,
    s: i64,
    l: i64,
    a: Option<i64>,
}

impl View for Hsl {
    type V = HslModel;

    closed spec fn view(&self) -> HslModel {
        HslModel {
            h: self.h as int,
            s: self.s as int,
            l: self.l as int,
            a: match self.a {
                Some(a) => Some(a as int),
                None => None,
            },
        }
    }
}

impl Hsl {
    #[verifier::type_invariant]
    closed spec fn inv(self) -> bool {
        self@.wf()
    }

    pub fn new() -> (out: Hsl)
        ensures
            out@ == (HslModel { h: 0, s: 0, l: 0, a: None }),
    {
        Hsl { h: 0, s: 0, l: 0, a: None }
    }

    pub fn from(h: i64, s: i64, l: i64) -> (out: Hsl)
        ensures
            out@ == HslModel::of_tuple(h as int, s as int, l as int),
    {
        Hsl::from_tuple(&(h, s, l))
    }

    pub fn from_tuple(t: &(i64, i64, i64)) -> (out: Hsl)
        ensures
            out@ == HslModel::of_tuple(t.0 as int, t.1 as int, t.2 as int),
    {
        let (h, s, l) = normalize_hsl(t);
        Hsl { h, s, l, a: None }
    }

    pub fn from_tuple_with_alpha(t: &(i64, i64, i64, i64)) -> (out: Hsl)
        ensures
            out@ == HslModel::of_tuple(t.0 as int, t.1 as int, t.2 as int).with_alpha(t.3 as int),
    {
        let (h, s, l) = normalize_hsl(&(t.0, t.1, t.2));
        Hsl { h, s, l, a: Some(normalize_ratio(t.3)) }
    }

    /// The colour as `hsl(H,S%,L%)`, each component rounded to a whole
    /// number.
    pub fn to_css_string(&self) -> (out: String)
        ensures
            out@ == css_hsl_of(
                rounded(self@.h) as nat,
                rounded(self@.s) as nat,
                rounded(self@.l) as nat,
            ),
    {
        let (h, s, l) = self.as_tuple();
        proof {
            reveal_strlit("hsl(");
            reveal_strlit(",");
            reveal_strlit("%,");
            reveal_strlit("%)");
        }
        let mut text: String = String::from_str("hsl(");
        assert(text@ =~= seq!['h', 's', 'l', '(']);
        text.append(decimal(round_unit(h)).as_str());
        text.append(",");
        text.append(decimal(round_unit(s)).as_str());
        text.append("%,");
        text.append(decimal(round_unit(l)).as_str());
        text.append("%)");
        assert(text@ =~= css_hsl_of(
            rounded(self@.h) as nat,
            rounded(self@.s) as nat,
            rounded(self@.l) as nat,
        ));
        text
    }

    pub fn as_tuple(&self) -> (out: (i64, i64, i64))
        ensures
            out.0 == self@.h,
            out.1 == self@.s,
            out.2 == self@.l,
            self@.wf(),
    {
        proof {
            use_type_invariant(self);
        }
        (self.h, self.s, self.l)
    }

    pub fn grayscale(&self) -> (out: Hsl)
        ensures
            out@ == self@.grayscale(),
    {
        proof {
            use_type_invariant(self);
        }
        Hsl { h: 0, s: 0, l: self.l, a: self.a }
    }

    pub fn get_hue(&self) -> (out: i64)
        ensures
            out == self@.h,
            0 <= out < HUE_MAX,
    {
        proof {
            use_type_invariant(self);
        }
        self.h
    }

    pub fn get_saturation(&self) -> (out: i64)
        ensures
            out == self@.s,
            0 <= out <= PERCENT_MAX,
    {
        proof {
            use_type_invariant(self);
        }
        self.s
    }

    pub fn get_lightness(&self) -> (out: i64)
        ensures
            out == self@.l,
            0 <= out <= PERCENT_MAX,
    {
        proof {
            use_type_invariant(self);
        }
        self.l
    }

    pub fn set_hue(&self, val: i64) -> (out: Hsl)
        ensures
            out@ == self@.set_hue(val as int),
            0 <= out@.h < HUE_MAX,
    {
        proof {
            use_type_invariant(self);
        }
        Hsl { h: normalize_hue(val), s: self.s, l: self.l, a: self.a }
    }

    pub fn set_saturation(&self, val: i64) -> (out: Hsl)
        ensures
            out@ == self@.set_saturation(val as int),
            0 <= out@.s <= PERCENT_MAX,
    {
        proof {
            use_type_invariant(self);
        }
        Hsl { h: self.h, s: normalize_percent(val), l: self.l, a: self.a }
    }

    pub fn set_lightness(&self, val: i64) -> (out: Hsl)
        ensures
            out@ == self@.set_lightness(val as int),
            0 <= out@.l <= PERCENT_MAX,
    {
        proof {
            use_type_invariant(self);
        }
        Hsl { h: self.h, s: self.s, l: normalize_percent(val), a: self.a }
    }

    pub fn to_rgb(&self) -> (out: Rgb)
        ensures
            out@ == self@.to_rgb(),
    {
        proof {
            use_type_invariant(self);
        }
        let t = hsl_to_rgb(&self.as_tuple());
        match self.a {
            Some(a) => Rgb::from_tuple_with_alpha(&(t.0, t.1, t.2, a)),
            None => Rgb::from_tuple(&t),
        }
    }

    pub fn to_hsl(&self) -> (out: Hsl)
        ensures
            out@ == self@,
    {
        *self
    }

    pub fn lighten(&self, val: i64) -> (out: Hsl)
        ensures
            out@ == self@.lighten(val as int),
    {
        proof {
            use_type_invariant(self);
        }
        self.set_lightness(bounded_sum(self.l, val, PERCENT_MAX))
    }

    pub fn saturate(&self, val: i64) -> (out: Hsl)
        ensures
            out@ == self@.saturate(val as int),
    {
        proof {
            use_type_invariant(self);
        }
        self.set_saturation(bounded_sum(self.s, val, PERCENT_MAX))
    }

    pub fn adjust_hue(&self, hue: i64) -> (out: Hsl)
        ensures
            out@ == self@.adjust_hue(hue as int),
    {
        proof {
            use_type_invariant(self);
        }
        self.set_hue(bounded_sum(self.h, hue, HUE_MAX))
    }

    pub fn adjust_color(&self, name: RgbUnit, val: i64) -> (out: Hsl)
        ensures
            out@ == self@.adjust_color(name, val as int),
    {
        self.to_rgb().adjust_color(name, val).to_hsl()
    }

    pub fn invert(&self) -> (out: Hsl)
        ensures
            out@ == self@.invert(),
    {
        proof {
            use_type_invariant(self);
        }
        Hsl { h: invert_hue(self.h), s: self.s, l: self.l, a: self.a }
    }

    pub fn get_alpha(&self) -> (out: i64)
        ensures
            out == self@.alpha(),
            0 <= out <= RATIO_MAX,
    {
        proof {
            use_type_invariant(self);
        }
        match self.a {
            Some(a) => a,
            None => RATIO_MAX,
        }
    }

    pub fn set_alpha(&self, a: i64) -> (out: Hsl)
        ensures
            out@ == self@.with_alpha(a as int),
    {
        proof {
            use_type_invariant(self);
        }
        Hsl { h: self.h, s: self.s, l: self.l, a: Some(normalize_ratio(a)) }
    }

    pub fn opacify(&self, a: i64) -> (out: Hsl)
        ensures
            out@ == self@.with_alpha(self@.alpha() + a),
    {
        self.set_alpha(bounded_sum(self.get_alpha(), a, RATIO_MAX))
    }
}

/// Whatever is written into a component of an HSL colour, the colour stays
/// within the ranges of its components.
pub proof fn lemma_setters_stay_in_range(c: HslModel, val: int)
    requires
        c.wf(),
    ensures
        c.set_hue(val).wf(),
        c.set_saturation(val).wf(),
        c.set_lightness(val).wf(),
        0 <= c.set_hue(val).h < HUE_MAX,
        0 <= c.set_saturation(val).s <= PERCENT_MAX,
        0 <= c.set_lightness(val).l <= PERCENT_MAX,
{
}

} // verus!
