//! Ranges of the colour components and the weights of the grayscale methods.

use vstd::prelude::*;

verus! {

/// Steps per unit: a stored component counts millionths.
pub const UNIT: i64 = 1_000_000;

/// Largest value of an RGB channel, 255.
pub const RGB_UNIT_MAX: i64 = 255_000_000;

/// A full turn of hue, 360 degrees.
pub const HUE_MAX: i64 = 360_000_000;

/// Largest percentage, 100.
pub const PERCENT_MAX: i64 = 100_000_000;

/// Largest ratio, 1.
pub const RATIO_MAX: i64 = 1_000_000;

/// Denominator of the grayscale weights below.
pub const WEIGHT_SCALE: i64 = 10_000;

pub const R_BT601_FACTOR: i64 = 2_990;

pub const G_BT601_FACTOR: i64 = 5_870;

pub const B_BT601_FACTOR: i64 = 1_140;

pub const R_REC709_FACTOR: i64 = 2_126;

pub const G_REC709_FACTOR: i64 = 7_152;

pub const B_REC709_FACTOR: i64 = 722;

pub const R_REC2100_FACTOR: i64 = 2_627;

pub const G_REC2100_FACTOR: i64 = 6_780;

pub const B_REC2100_FACTOR: i64 = 593;

} // verus!
