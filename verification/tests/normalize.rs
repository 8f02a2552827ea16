use colors_transform::normalize::{
    bound_ratio, bounded_sum, normalize, normalize_hsl, normalize_hue, normalize_percent,
    normalize_ratio, normalize_rgb, normalize_rgb_unit, NormalizeArg,
};

const U: i64 = 1_000_000;

#[test]
fn normalize_clamps_to_the_given_range() {
    assert_eq!(normalize(NormalizeArg { val: 5, max: 10, min: 0 }), 5);
    assert_eq!(normalize(NormalizeArg { val: -5, max: 10, min: 0 }), 0);
    assert_eq!(normalize(NormalizeArg { val: 15, max: 10, min: 0 }), 10);
    assert_eq!(normalize(NormalizeArg { val: 0, max: 10, min: 0 }), 0);
    assert_eq!(normalize(NormalizeArg { val: 10, max: 10, min: 0 }), 10);
    assert_eq!(normalize(NormalizeArg { val: -7, max: -3, min: -5 }), -5);
}

#[test]
fn rgb_unit_outside_range_goes_to_nearest_bound() {
    assert_eq!(normalize_rgb_unit(-1), 0);
    assert_eq!(normalize_rgb_unit(-300 * U), 0);
    assert_eq!(normalize_rgb_unit(i64::MIN), 0);
    assert_eq!(normalize_rgb_unit(255 * U + 1), 255 * U);
    assert_eq!(normalize_rgb_unit(1000 * U), 255 * U);
    assert_eq!(normalize_rgb_unit(i64::MAX), 255 * U);
    assert_eq!(normalize_rgb_unit(0), 0);
    assert_eq!(normalize_rgb_unit(255 * U), 255 * U);
    assert_eq!(normalize_rgb_unit(101_700_000), 101_700_000);
}

#[test]
fn ratio_and_percent_clamp() {
    assert_eq!(normalize_ratio(-1), 0);
    assert_eq!(normalize_ratio(U + 1), U);
    assert_eq!(normalize_ratio(U / 2), U / 2);
    assert_eq!(normalize_percent(-1), 0);
    assert_eq!(normalize_percent(100 * U + 1), 100 * U);
    assert_eq!(normalize_percent(42 * U), 42 * U);
}

#[test]
fn hue_full_turn_collapses_to_zero() {
    assert_eq!(normalize_hue(360 * U), 0);
    assert_eq!(normalize_hue(-10 * U), 0);
    assert_eq!(normalize_hue(400 * U), 0);
    assert_eq!(normalize_hue(360 * U - 1), 360 * U - 1);
    assert_eq!(normalize_hue(0), 0);
    assert_eq!(normalize_hue(180 * U), 180 * U);
}

#[test]
fn triples_are_normalized_by_position() {
    assert_eq!(normalize_hsl(&(360 * U, 101 * U, -U)), (0, 100 * U, 0));
    assert_eq!(normalize_hsl(&(359 * U, 50 * U, 100 * U)), (359 * U, 50 * U, 100 * U));
    assert_eq!(normalize_rgb(&(-U, 256 * U, 128 * U)), (0, 255 * U, 128 * U));
    assert_eq!(normalize_rgb(&(300 * U, 300 * U, 300 * U)), (255 * U, 255 * U, 255 * U));
}

#[test]
fn bound_ratio_wraps_by_whole_units() {
    assert_eq!(bound_ratio(0), 0);
    assert_eq!(bound_ratio(U), U);
    assert_eq!(bound_ratio(U / 4), U / 4);
    assert_eq!(bound_ratio(-U / 4), 3 * U / 4);
    assert_eq!(bound_ratio(-U), 0);
    assert_eq!(bound_ratio(-3 * U / 2), U / 2);
    assert_eq!(bound_ratio(5 * U / 4), U / 4);
    assert_eq!(bound_ratio(2 * U), U);
    assert_eq!(bound_ratio(7 * U + 1), 1);
    assert_eq!(bound_ratio(i64::MIN), 224_192);
    assert_eq!(bound_ratio(i64::MAX), 775_807);
}

#[test]
fn bound_ratio_and_clamp_differ() {
    assert_eq!(bound_ratio(3 * U / 2), U / 2);
    assert_eq!(normalize_ratio(3 * U / 2), U);
}

#[test]
fn bounded_sum_agrees_with_the_sum_after_clamping() {
    assert_eq!(bounded_sum(10, 5, 100), 15);
    assert_eq!(bounded_sum(10, -50, 100), -40);
    assert_eq!(bounded_sum(10, 95, 100), 100);
    assert_eq!(bounded_sum(10, i64::MAX, 100), 100);
    assert_eq!(bounded_sum(10, i64::MIN, 100), i64::MIN + 10);
}
