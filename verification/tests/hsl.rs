use colors_transform::converters::{hsl_to_rgb, invert_hue, rgb_invert, rgb_to_hsl, round_unit};
use colors_transform::hsl::Hsl;
use colors_transform::rgb::{Rgb, RgbUnit};

const U: i64 = 1_000_000;

#[test]
fn hsl_construction_normalizes() {
    let c = Hsl::from(360 * U, 120 * U, -3 * U);
    assert_eq!(c.as_tuple(), (0, 100 * U, 0));
    assert_eq!(c, Hsl::from_tuple(&(0, 100 * U, 0)));
    assert_eq!(Hsl::new().as_tuple(), (0, 0, 0));
    assert_eq!(Hsl::new().get_alpha(), U);
    let d = Hsl::from_tuple_with_alpha(&(359 * U, 50 * U, 60 * U, -U));
    assert_eq!(d.as_tuple(), (359 * U, 50 * U, 60 * U));
    assert_eq!(d.get_alpha(), 0);
}

#[test]
fn hsl_setters_stay_in_range() {
    let c = Hsl::from(10 * U, 20 * U, 30 * U);
    let inputs: [i64; 9] =
        [i64::MIN, -400 * U, -1, 0, 50 * U, 100 * U, 360 * U, 1000 * U, i64::MAX];
    for v in inputs.iter() {
        let h = c.set_hue(*v);
        assert!(0 <= h.get_hue() && h.get_hue() < 360 * U);
        assert_eq!((h.get_saturation(), h.get_lightness()), (20 * U, 30 * U));
        let s = c.set_saturation(*v);
        assert!(0 <= s.get_saturation() && s.get_saturation() <= 100 * U);
        assert_eq!((s.get_hue(), s.get_lightness()), (10 * U, 30 * U));
        let l = c.set_lightness(*v);
        assert!(0 <= l.get_lightness() && l.get_lightness() <= 100 * U);
        assert_eq!((l.get_hue(), l.get_saturation()), (10 * U, 20 * U));
    }
    assert_eq!(c.set_hue(360 * U).get_hue(), 0);
    assert_eq!(c.set_hue(-10 * U).get_hue(), 0);
    assert_eq!(c.set_hue(200 * U).get_hue(), 200 * U);
    assert_eq!(c.set_saturation(101 * U).get_saturation(), 100 * U);
    assert_eq!(c.set_lightness(-U).get_lightness(), 0);
}

#[test]
fn hsl_adjustments_add_then_normalize() {
    let c = Hsl::from(350 * U, 20 * U, 30 * U);
    assert_eq!(c.lighten(15 * U).as_tuple(), (350 * U, 20 * U, 45 * U));
    assert_eq!(c.lighten(-45 * U).as_tuple(), (350 * U, 20 * U, 0));
    assert_eq!(c.lighten(i64::MAX).as_tuple(), (350 * U, 20 * U, 100 * U));
    assert_eq!(c.saturate(90 * U).as_tuple(), (350 * U, 100 * U, 30 * U));
    assert_eq!(c.saturate(i64::MIN).as_tuple(), (350 * U, 0, 30 * U));
    assert_eq!(c.adjust_hue(5 * U).as_tuple(), (355 * U, 20 * U, 30 * U));
    assert_eq!(c.adjust_hue(10 * U).as_tuple(), (0, 20 * U, 30 * U));
    assert_eq!(c.adjust_hue(20 * U).as_tuple(), (0, 20 * U, 30 * U));
    assert_eq!(c.adjust_hue(-351 * U).as_tuple(), (0, 20 * U, 30 * U));
    assert_eq!(c.adjust_hue(i64::MAX).as_tuple(), (0, 20 * U, 30 * U));
}

#[test]
fn hsl_alpha() {
    let c = Hsl::from(350 * U, 20 * U, 30 * U);
    assert_eq!(c.set_alpha(U / 5).get_alpha(), U / 5);
    assert_eq!(c.set_alpha(5 * U).get_alpha(), U);
    assert_eq!(c.opacify(-U / 5).get_alpha(), 4 * U / 5);
    assert_eq!(c.set_alpha(U / 5).opacify(U / 5).get_alpha(), 2 * U / 5);
    assert_eq!(c.set_alpha(U / 5).as_tuple(), c.as_tuple());
}

#[test]
fn hsl_grayscale_keeps_lightness() {
    let c = Hsl::from_tuple_with_alpha(&(350 * U, 20 * U, 30 * U, U / 2));
    let g = c.grayscale();
    assert_eq!(g.as_tuple(), (0, 0, 30 * U));
    assert_eq!(g.get_alpha(), U / 2);
}

#[test]
fn hue_inversion_is_a_half_turn() {
    assert_eq!(invert_hue(0), 180 * U);
    assert_eq!(invert_hue(180 * U), 0);
    assert_eq!(invert_hue(90 * U), 270 * U);
    assert_eq!(invert_hue(270 * U), 90 * U);
    assert_eq!(invert_hue(360 * U - 1), 180 * U - 1);
    let c = Hsl::from_tuple_with_alpha(&(350 * U, 20 * U, 30 * U, U / 2));
    assert_eq!(c.invert().as_tuple(), (170 * U, 20 * U, 30 * U));
    assert_eq!(c.invert().get_alpha(), U / 2);
}

#[test]
fn hue_inversion_twice_is_identity() {
    let hues: [i64; 7] = [0, 1, 90 * U, 180 * U - 1, 180 * U, 270 * U + 5, 360 * U - 1];
    for h in hues.iter() {
        assert_eq!(invert_hue(invert_hue(*h)), *h);
        let c = Hsl::from(*h, 40 * U, 60 * U);
        assert_eq!(c.invert().invert(), c);
    }
}

#[test]
fn hsl_to_rgb_exact_values() {
    assert_eq!(hsl_to_rgb(&(155 * U, 100 * U, 50 * U)), (0, 255 * U, 148_750_000));
    assert_eq!(hsl_to_rgb(&(155 * U, 0, 40 * U)), (102 * U, 102 * U, 102 * U));
    assert_eq!(hsl_to_rgb(&(120 * U, 100 * U, 50 * U)), (0, 255 * U, 0));
    assert_eq!(hsl_to_rgb(&(300 * U, 50 * U, 25 * U)), (95_625_000, 31_875_000, 95_625_000));
    assert_eq!(hsl_to_rgb(&(210 * U, 40 * U, 70 * U)), (147_900_000, 178_500_000, 209_100_000));
    assert_eq!(hsl_to_rgb(&(360 * U, 100 * U, 50 * U)), (255 * U, 0, 0));
}

#[test]
fn hsl_to_rgb_orders_channels_by_sector() {
    let hi: i64 = 191_250_000;
    let mid: i64 = 127_500_000;
    let lo: i64 = 63_750_000;
    assert_eq!(hsl_to_rgb(&(30 * U, 50 * U, 50 * U)), (hi, mid, lo));
    assert_eq!(hsl_to_rgb(&(90 * U, 50 * U, 50 * U)), (mid, hi, lo));
    assert_eq!(hsl_to_rgb(&(150 * U, 50 * U, 50 * U)), (lo, hi, mid));
    assert_eq!(hsl_to_rgb(&(210 * U, 50 * U, 50 * U)), (lo, mid, hi));
    assert_eq!(hsl_to_rgb(&(270 * U, 50 * U, 50 * U)), (mid, lo, hi));
    assert_eq!(hsl_to_rgb(&(330 * U, 50 * U, 50 * U)), (hi, lo, mid));
}

#[test]
fn rgb_to_hsl_on_triples() {
    assert_eq!(rgb_to_hsl(&(255 * U, 204 * U, 0)), (48 * U, 100 * U, 50 * U));
    assert_eq!(rgb_to_hsl(&(0, 255 * U, 204 * U)), (168 * U, 100 * U, 50 * U));
    assert_eq!(rgb_to_hsl(&(300 * U, -U, -U)), (0, 100 * U, 50 * U));
    assert_eq!(rgb_to_hsl(&(255 * U, 0, 1)), (360 * U, 100 * U, 50 * U));
    assert_eq!(rgb_to_hsl(&(77 * U, 77 * U, 77 * U)), (0, 0, 30_196_078));
}

#[test]
fn rgb_invert_on_triples() {
    assert_eq!(rgb_invert(&(0, 255 * U, 100 * U)), (255 * U, 0, 155 * U));
    assert_eq!(rgb_invert(&(-U, 300 * U, 254_500_000)), (255 * U, 0, 500_000));
}

#[test]
fn rounding_is_half_up() {
    assert_eq!(round_unit(101_700_000), 102);
    assert_eq!(round_unit(101_500_000), 102);
    assert_eq!(round_unit(101_499_999), 101);
    assert_eq!(round_unit(0), 0);
    assert_eq!(round_unit(-5), 0);
    assert_eq!(round_unit(359_500_000), 360);
    assert_eq!(round_unit(i64::MAX), 360);
}

#[test]
fn hsl_css_string() {
    assert_eq!(Hsl::from(20_213_903, 79_574_468, 53_921_568).to_css_string(), "hsl(20,80%,54%)");
    assert_eq!(Hsl::from(0, 0, 0).to_css_string(), "hsl(0,0%,0%)");
    assert_eq!(Hsl::from(359 * U, 100 * U, 9 * U).to_css_string(), "hsl(359,100%,9%)");
}

#[test]
fn hsl_adjust_color_goes_through_rgb() {
    let c = Hsl::from(155 * U, 100 * U, 40 * U);
    assert_eq!(c.to_rgb().as_tuple(), (0, 204 * U, 119 * U));
    let d = c.adjust_color(RgbUnit::Blue, -119 * U);
    assert_eq!(d.as_tuple(), (120 * U, 100 * U, 40 * U));
    assert_eq!(d, c.to_rgb().adjust_color(RgbUnit::Blue, -119 * U).to_hsl());
    assert_eq!(c.to_hsl(), c);
}

#[test]
fn gray_round_trip_loses_at_most_three_steps() {
    let grays: [i64; 6] = [0, 1, 2, 77 * U, 128 * U + 1, 255 * U];
    for v in grays.iter() {
        let back = Rgb::from(*v, *v, *v).to_hsl().to_rgb().as_tuple();
        assert_eq!(back.0, back.1);
        assert_eq!(back.1, back.2);
        assert!(*v - 3 <= back.0 && back.0 <= *v);
    }
    assert_eq!(Rgb::from(2, 2, 2).to_hsl().to_rgb().as_tuple(), (0, 0, 0));
}
