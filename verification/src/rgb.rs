//! The RGB model: three channels in `[0, 255]` and an optional alpha.

use crate::consts::{RATIO_MAX, RGB_UNIT_MAX};
use crate::converters::{
    hue_angle_of, lightness_of, rgb_invert, rgb_to_hsl, round_unit, rounded, saturation_of,
};
use crate::error::ParseError;
use crate::from_str::{hex, parse_hex};
use crate::grayscale::{grayscale_of, rgb_grayscale, GrayScaleMethod};
use crate::hsl::{Hsl, HslModel};
use crate::normalize::{
    bounded_sum, clamp, hue_of, normalize_ratio, normalize_rgb, normalize_rgb_unit,
};
use crate::render::{css_hex_of, css_rgb_of, decimal, push_hex_pair};
use vstd::prelude::*;
use vstd::string::*;

verus! {

/// The name of one RGB channel.
#[derive(Clone, Copy, Debug, PartialEq, Eq)]
pub enum RgbUnit {
    Red,
    Green,
    Blue,
}

/// What an [`Rgb`] stands for: its channels and alpha as integers.
pub struct RgbModel {
    pub r: int,
    pub g: int,
    pub b: int,
    pub a: Option<int>,
}

impl RgbModel {
    /// Every channel lies in `[0, 255]`, and alpha, if present, in `[0, 1]`.
    pub open spec fn wf(self) -> bool {
        &&& 0 <= self.r <= RGB_UNIT_MAX
        &&& 0 <= self.g <= RGB_UNIT_MAX
        &&& 0 <= self.b <= RGB_UNIT_MAX
        &&& (self.a matches Some(a) ==> 0 <= a <= RATIO_MAX)
    }

    /// The colour built from a raw triple, without alpha.
    pub open spec fn of_tuple(r: int, g: int, b: int) -> RgbModel {
        RgbModel {
            r: clamp(r, 0, RGB_UNIT_MAX as int),
            g: clamp(g, 0, RGB_UNIT_MAX as int),
            b: clamp(b, 0, RGB_UNIT_MAX as int),
            a: None,
        }
    }

    /// Alpha, fully opaque where none is stored.
    pub open spec fn alpha(self) -> int {
        match self.a {
            Some(a) => a,
            None => RATIO_MAX as int,
        }
    }

    pub open spec fn with_alpha(self, a: int) -> RgbModel {
        RgbModel { a: Some(clamp(a, 0, RATIO_MAX as int)), ..self }
    }

    /// One channel moved by `val` and clamped; the rest unchanged.
    pub open spec fn adjust_color(self, name: RgbUnit, val: int) -> RgbModel {
        match name {
            RgbUnit::Red => RgbModel { r: clamp(self.r + val, 0, RGB_UNIT_MAX as int), ..self },
            RgbUnit::Green => RgbModel { g: clamp(self.g + val, 0, RGB_UNIT_MAX as int), ..self },
            RgbUnit::Blue => RgbModel { b: clamp(self.b + val, 0, RGB_UNIT_MAX as int), ..self },
        }
    }

    /// Every channel replaced by its distance from 255.
    pub open spec fn invert(self) -> RgbModel {
        RgbModel {
            r: RGB_UNIT_MAX - self.r,
            g: RGB_UNIT_MAX - self.g,
            b: RGB_UNIT_MAX - self.b,
            a: self.a,
        }
    }

    /// The same colour in HSL, alpha kept.
    pub open spec fn to_hsl(self) -> HslModel {
        HslModel {
            h: hue_of(hue_angle_of(self.r, self.g, self.b)),
            s: saturation_of(self.r, self.g, self.b),
            l: lightness_of(self.r, self.g, self.b),
            a: self.a,
        }
    }
}

/// A colour in red, green and blue. Its channels always lie in `[0, 255]`
/// and its alpha, if it has one, in `[0, 1]`.
#[derive(Clone, Copy, Debug, PartialEq, Eq)]
pub struct Rgb {
    r: i64,
    g: i64,
    b: i64,
    a: Option<i64>,
}

impl View for Rgb {
    type V = RgbModel;

    closed spec fn view(&self) -> RgbModel {
        RgbModel {
            r: self.r as int,
            g: self.g as int,
            b: self.b as int,
            a: match self.a {
                Some(a) => Some(a as int),
                None => None,
            },
        }
    }
}

impl Rgb {
    #[verifier::type_invariant]
    closed spec fn inv(self) -> bool {
        self@.wf()
    }

    /// The colour that stands for a well-formed model.
    pub closed spec fn of_model(m: RgbModel) -> Rgb {
        Rgb {
            r: m.r as i64,
            g: m.g as i64,
            b: m.b as i64,
            a: match m.a {
                Some(a) => Some(a as i64),
                None => None,
            },
        }
    }

    /// A colour is determined by what it stands for.
    pub proof fn lemma_of_model(c: Rgb)
        ensures
            Rgb::of_model(c@) == c,
    {
    }

    pub fn new() -> (out: Rgb)
        ensures
            out@ == (RgbModel { r: 0, g: 0, b: 0, a: None }),
    {
        Rgb { r: 0, g: 0, b: 0, a: None }
    }

    pub fn from(r: i64, g: i64, b: i64) -> (out: Rgb)
        ensures
            out@ == RgbModel::of_tuple(r as int, g as int, b as int),
    {
        Rgb::from_tuple(&(r, g, b))
    }

    pub fn from_tuple(t: &(i64, i64, i64)) -> (out: Rgb)
        ensures
            out@ == RgbModel::of_tuple(t.0 as int, t.1 as int, t.2 as int),
    {
        let (r, g, b) = normalize_rgb(t);
        Rgb { r, g, b, a: None }
    }

    pub fn from_tuple_with_alpha(t: &(i64, i64, i64, i64)) -> (out: Rgb)
        ensures
            out@ == RgbModel::of_tuple(t.0 as int, t.1 as int, t.2 as int).with_alpha(t.3 as int),
    {
        let (r, g, b) = normalize_rgb(&(t.0, t.1, t.2));
        Rgb { r, g, b, a: Some(normalize_ratio(t.3)) }
    }

    /// The colour reduced to gray by the given method; `self` is unchanged.
    pub fn grayscale(&self, method: GrayScaleMethod) -> (out: Rgb)
        ensures
            out@ == grayscale_of(self@, method),
    {
        let mut out: Rgb = *self;
        rgb_grayscale(&mut out, method);
        out
    }

    /// Reads a hexadecimal literal: three or six digits of either case, with
    /// or without a leading `#`.
    pub fn from_hex_str(s: &str) -> (out: Result<Rgb, ParseError>)
        ensures
            match out {
                Ok(c) => parse_hex(s@) matches Ok(t) && c@ == RgbModel::of_tuple(t.0, t.1, t.2),
                Err(e) => parse_hex(s@) == Err::<(int, int, int), ParseError>(e),
            },
    {
        match hex(s) {
            Ok(rgb_tuple) => Ok(Rgb::from_tuple(&rgb_tuple)),
            Err(err) => Err(err),
        }
    }

    /// The colour as `#rrggbb`: each channel rounded to a whole number and
    /// written as two lower-case hexadecimal digits.
    pub fn to_css_hex_string(&self) -> (out: String)
        ensures
            out@ == css_hex_of(rounded(self@.r), rounded(self@.g), rounded(self@.b)),
    {
        let (r, g, b) = self.as_tuple();
        proof {
            reveal_strlit("#");
        }
        let mut text: String = String::from_str("#");
        assert(text@ =~= seq!['#']);
        push_hex_pair(&mut text, round_unit(r));
        push_hex_pair(&mut text, round_unit(g));
        push_hex_pair(&mut text, round_unit(b));
        text
    }

    /// The colour as `rgb(R,G,B)`, each channel rounded to a whole number.
    pub fn to_css_string(&self) -> (out: String)
        ensures
            out@ == css_rgb_of(
                rounded(self@.r) as nat,
                rounded(self@.g) as nat,
                rounded(self@.b) as nat,
            ),
    {
        let (r, g, b) = self.as_tuple();
        proof {
            reveal_strlit("rgb(");
            reveal_strlit(",");
            reveal_strlit(")");
        }
        let mut text: String = String::from_str("rgb(");
        assert(text@ =~= seq!['r', 'g', 'b', '(']);
        text.append(decimal(round_unit(r)).as_str());
        text.append(",");
        text.append(decimal(round_unit(g)).as_str());
        text.append(",");
        text.append(decimal(round_unit(b)).as_str());
        text.append(")");
        assert(text@ =~= css_rgb_of(
            rounded(self@.r) as nat,
            rounded(self@.g) as nat,
            rounded(self@.b) as nat,
        ));
        text
    }

    pub fn as_tuple(&self) -> (out: (i64, i64, i64))
        ensures
            out.0 == self@.r,
            out.1 == self@.g,
            out.2 == self@.b,
            self@.wf(),
    {
        proof {
            use_type_invariant(self);
        }
        (self.r, self.g, self.b)
    }

    pub fn get_red(&self) -> (out: i64)
        ensures
            out == self@.r,
            0 <= out <= RGB_UNIT_MAX,
    {
        proof {
            use_type_invariant(self);
        }
        self.r
    }

    pub fn get_green(&self) -> (out: i64)
        ensures
            out == self@.g,
            0 <= out <= RGB_UNIT_MAX,
    {
        proof {
            use_type_invariant(self);
        }
        self.g
    }

    pub fn get_blue(&self) -> (out: i64)
        ensures
            out == self@.b,
            0 <= out <= RGB_UNIT_MAX,
    {
        proof {
            use_type_invariant(self);
        }
        self.b
    }

    pub fn set_red(&mut self, val: i64)
        ensures
            final(self)@ == (RgbModel { r: clamp(val as int, 0, RGB_UNIT_MAX as int), ..old(self)@ }),
    {
        proof {
            use_type_invariant(&*self);
        }
        self.r = normalize_rgb_unit(val);
    }

    pub fn set_green(&mut self, val: i64)
        ensures
            final(self)@ == (RgbModel { g: clamp(val as int, 0, RGB_UNIT_MAX as int), ..old(self)@ }),
    {
        proof {
            use_type_invariant(&*self);
        }
        self.g = normalize_rgb_unit(val);
    }

    pub fn set_blue(&mut self, val: i64)
        ensures
            final(self)@ == (RgbModel { b: clamp(val as int, 0, RGB_UNIT_MAX as int), ..old(self)@ }),
    {
        proof {
            use_type_invariant(&*self);
        }
        self.b = normalize_rgb_unit(val);
    }

    pub fn to_rgb(&self) -> (out: Rgb)
        ensures
            out@ == self@,
    {
        *self
    }

    pub fn to_hsl(&self) -> (out: Hsl)
        ensures
            out@ == self@.to_hsl(),
    {
        proof {
            use_type_invariant(self);
        }
        let t = rgb_to_hsl(&self.as_tuple());
        match self.a {
            Some(a) => Hsl::from_tuple_with_alpha(&(t.0, t.1, t.2, a)),
            None => Hsl::from_tuple(&t),
        }
    }

    pub fn lighten(&self, amt: i64) -> (out: Rgb)
        ensures
            out@ == self@.to_hsl().lighten(amt as int).to_rgb(),
    {
        self.to_hsl().lighten(amt).to_rgb()
    }

    pub fn saturate(&self, amt: i64) -> (out: Rgb)
        ensures
            out@ == self@.to_hsl().saturate(amt as int).to_rgb(),
    {
        self.to_hsl().saturate(amt).to_rgb()
    }

    pub fn adjust_hue(&self, amt: i64) -> (out: Rgb)
        ensures
            out@ == self@.to_hsl().adjust_hue(amt as int).to_rgb(),
    {
        self.to_hsl().adjust_hue(amt).to_rgb()
    }

    pub fn adjust_color(&self, name: RgbUnit, val: i64) -> (out: Rgb)
        ensures
            out@ == self@.adjust_color(name, val as int),
    {
        proof {
            use_type_invariant(self);
        }
        let mut out: Rgb = *self;
        match name {
            RgbUnit::Red => out.set_red(bounded_sum(self.r, val, RGB_UNIT_MAX)),
            RgbUnit::Green => out.set_green(bounded_sum(self.g, val, RGB_UNIT_MAX)),
            RgbUnit::Blue => out.set_blue(bounded_sum(self.b, val, RGB_UNIT_MAX)),
        }
        out
    }

    pub fn invert(&self) -> (out: Rgb)
        ensures
            out@ == self@.invert(),
    {
        proof {
            use_type_invariant(self);
        }
        let (r, g, b) = rgb_invert(&self.as_tuple());
        Rgb { r, g, b, a: self.a }
    }

    pub fn get_alpha(&self) -> (out: i64)
        ensures
            out == self@.alpha(),
            0 <= out <= RATIO_MAX,
    {
        proof {
            use_type_invariant(self);
        }
        match self.a {
            Some(a) => a,
            None => RATIO_MAX,
        }
    }

    pub fn set_alpha(&self, a: i64) -> (out: Rgb)
        ensures
            out@ == self@.with_alpha(a as int),
    {
        proof {
            use_type_invariant(self);
        }
        Rgb { r: self.r, g: self.g, b: self.b, a: Some(normalize_ratio(a)) }
    }

    pub fn opacify(&self, a: i64) -> (out: Rgb)
        ensures
            out@ == self@.with_alpha(self@.alpha() + a),
    {
        self.set_alpha(bounded_sum(self.get_alpha(), a, RATIO_MAX))
    }
}

/// Inverting a colour twice gives the colour back.
pub proof fn lemma_invert_involution(c: RgbModel)
    requires
        c.wf(),
    ensures
        c.invert().wf(),
        c.invert().invert() == c,
{
}

impl Default for Rgb {
    fn default() -> (out: Rgb)
        ensures
            out@ == (RgbModel { r: 0, g: 0, b: 0, a: None }),
    {
        Rgb::new()
    }
}

} // verus!
