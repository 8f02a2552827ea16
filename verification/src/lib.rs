//! Colour models in fixed-point arithmetic.
//!
//! Every component of a colour is an `i64` that counts millionths of the
//! component's unit: a red channel of `231_000_000` is 231, a hue of
//! `24_500_000` is 24.5 degrees, an alpha of `500_000` is one half.
//! All arithmetic is exact integer arithmetic with stated rounding, so every
//! function has a contract over mathematical integers.

pub mod consts;
pub mod converters;
pub mod error;
pub mod from_str;
pub mod grayscale;
pub mod hsl;
pub mod normalize;
pub mod render;
pub mod rgb;
pub mod round_trip;
pub mod yiq;
