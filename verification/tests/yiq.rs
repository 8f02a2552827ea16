use colors_transform::rgb::Rgb;
use colors_transform::yiq::{rgb_to_yiq, yiq_to_rgb, Yiq};

const U: i64 = 1_000_000;

#[test]
fn yik_to_rgb_test() {
    rgb_to_yiq(&Rgb::from_hex_str("#ffcc00").unwrap());
    rgb_to_yiq(&Rgb::from_hex_str("#00ffcc").unwrap());
}

#[test]
fn rgb_to_yiq_exact_values() {
    let a = rgb_to_yiq(&Rgb::from_hex_str("#ffcc00").unwrap());
    assert_eq!(a.as_tuple(), (768_600, 376_800, -206_600));
    let b = rgb_to_yiq(&Rgb::from_hex_str("#00ffcc").unwrap());
    assert_eq!(b.as_tuple(), (678_200, -531_600, -273_200));
    assert_eq!(rgb_to_yiq(&Rgb::from(255 * U, 0, 0)).as_tuple(), (299_000, 596_000, 211_000));
    assert_eq!(rgb_to_yiq(&Rgb::from(0, 0, 255 * U)).as_tuple(), (114_000, -322_000, 311_000));
    assert_eq!(rgb_to_yiq(&Rgb::from(255 * U, 255 * U, 255 * U)).as_tuple(), (U, 0, 0));
    assert_eq!(rgb_to_yiq(&Rgb::from(0, 0, 0)), Yiq::new(0, 0, 0));
}

#[test]
fn yiq_drops_alpha() {
    let c = Rgb::from_tuple_with_alpha(&(255 * U, 0, 0, U / 2));
    assert_eq!(rgb_to_yiq(&c), rgb_to_yiq(&Rgb::from(255 * U, 0, 0)));
    assert_eq!(yiq_to_rgb(&rgb_to_yiq(&c)).get_alpha(), U);
}

#[test]
fn yiq_to_rgb_exact_values() {
    let c = yiq_to_rgb(&Yiq::new(500_000, 100_000, -50_000));
    assert_eq!(c.as_tuple(), (143_934_750, 128_826_000, 77_583_750));
    assert_eq!(yiq_to_rgb(&Yiq::new(U, 0, 0)).as_tuple(), (255 * U, 255 * U, 255 * U));
    assert_eq!(yiq_to_rgb(&Yiq::new(0, 0, 0)).as_tuple(), (0, 0, 0));
}

#[test]
fn yiq_to_rgb_clamps() {
    assert_eq!(
        yiq_to_rgb(&Yiq::new(768_600, 376_800, -206_600)).as_tuple(),
        (255 * U, 203_996_736, 0)
    );
    assert_eq!(yiq_to_rgb(&Yiq::new(i64::MAX, 0, 0)).as_tuple(), (255 * U, 255 * U, 255 * U));
    assert_eq!(yiq_to_rgb(&Yiq::new(i64::MIN, i64::MIN, i64::MAX)).as_tuple(), (0, 0, 255 * U));
}

#[test]
fn round_trip_through_yiq_stays_within_one_unit() {
    let triples: [(i64, i64, i64); 4] =
        [(255 * U, 204 * U, 0), (0, 255 * U, 204 * U), (231 * U, 107 * U, 44 * U), (0, 0, 0)];
    for t in triples.iter() {
        let back = yiq_to_rgb(&rgb_to_yiq(&Rgb::from_tuple(t))).as_tuple();
        assert!((back.0 - t.0).abs() <= U / 10);
        assert!((back.1 - t.1).abs() <= U / 10);
        assert!((back.2 - t.2).abs() <= U / 10);
    }
}

#[test]
fn conversions_by_from() {
    let c = Rgb::from(255 * U, 0, 0);
    let y: Yiq = Yiq::from(&c);
    assert_eq!(y, rgb_to_yiq(&c));
    let back: Rgb = <Rgb as From<&Yiq>>::from(&y);
    assert_eq!(back, yiq_to_rgb(&y));
    assert_eq!(Yiq::default(), Yiq::new(0, 0, 0));
    assert_eq!(Rgb::default(), Rgb::new());
}
