use svg_pan::numfmt::i64_to_string;
use svg_pan::viewport::ViewBoxCenter;

#[test]
fn renders_zero() {
    assert_eq!(i64_to_string(0), "0");
}

#[test]
fn renders_single_digits() {
    assert_eq!(i64_to_string(7), "7");
    assert_eq!(i64_to_string(-1), "-1");
}

#[test]
fn renders_multi_digit_values() {
    assert_eq!(i64_to_string(50), "50");
    assert_eq!(i64_to_string(-57), "-57");
    assert_eq!(i64_to_string(120350), "120350");
}

#[test]
fn renders_extremes() {
    assert_eq!(i64_to_string(i64::MAX), "9223372036854775807");
    assert_eq!(i64_to_string(i64::MIN), "-9223372036854775808");
}

#[test]
fn view_box_at_initial_center() {
    let c = ViewBoxCenter { x: 50, y: 50 };
    assert_eq!(c.to_svg_prop(), "0 0 100 100");
}

#[test]
fn view_box_with_negative_edges() {
    let c = ViewBoxCenter { x: 0, y: -7 };
    assert_eq!(c.to_svg_prop(), "-50 -57 100 100");
}

#[test]
fn view_box_matches_center_offsets() {
    let c = ViewBoxCenter { x: 123, y: 4567 };
    assert_eq!(c.min_x(), 73);
    assert_eq!(c.min_y(), 4517);
    assert_eq!(c.to_svg_prop(), "73 4517 100 100");
}
