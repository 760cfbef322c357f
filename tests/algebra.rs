use gui_layout::algebra::{percent, resolve_position, resolve_size};
use gui_layout::styles::{Position, Size, StyleSheet};

#[test]
fn pixel_width_is_exact() {
    for (parent, viewport) in [(7, 9), (0, 0), (-40, 1920), (100_000, 3)] {
        assert_eq!(resolve_size(Size::Pixel(123), Size::Auto, Size::Auto, Size::Auto, parent, viewport), 123);
    }
}

#[test]
fn negative_pixel_width_is_raised_to_zero() {
    assert_eq!(resolve_size(Size::Pixel(-1), Size::Auto, Size::Auto, Size::Auto, 50, 50), 0);
}

#[test]
fn percent_of_parent() {
    assert_eq!(resolve_size(Size::Percent(50), Size::Auto, Size::Auto, Size::Auto, 200, 1000), 100);
    assert_eq!(resolve_size(Size::Percent(50), Size::Auto, Size::Auto, Size::Pixel(10), 200, 1000), 90);
    assert_eq!(resolve_size(Size::Percent(50), Size::Pixel(120), Size::Auto, Size::Auto, 200, 1000), 120);
    assert_eq!(resolve_size(Size::Percent(50), Size::Auto, Size::Pixel(80), Size::Auto, 200, 1000), 80);
    assert_eq!(resolve_size(Size::Percent(50), Size::Auto, Size::Auto, Size::Auto, 0, 1000), 0);
}

#[test]
fn margin_is_taken_before_clamping() {
    // 100 - 30 = 70, then raised to the minimum of 80.
    assert_eq!(resolve_size(Size::Pixel(100), Size::Pixel(80), Size::Auto, Size::Pixel(30), 0, 0), 80);
    // 100 capped at 90 first would give 60; the margin comes off first, giving 70.
    assert_eq!(resolve_size(Size::Pixel(100), Size::Auto, Size::Pixel(90), Size::Pixel(30), 0, 0), 70);
}

#[test]
fn viewport_percent_ignores_parent() {
    let a = resolve_size(Size::AbsPercent(25), Size::Auto, Size::Auto, Size::Auto, 100, 800);
    let b = resolve_size(Size::AbsPercent(25), Size::Auto, Size::Auto, Size::Auto, 300, 800);
    assert_eq!(a, 200);
    assert_eq!(a, b);
    assert_eq!(resolve_size(Size::AbsFill, Size::Auto, Size::Auto, Size::Auto, 300, 800), 800);
}

#[test]
fn clamp_bounds_hold() {
    assert_eq!(resolve_size(Size::Pixel(10), Size::Pixel(50), Size::Auto, Size::Auto, 0, 0), 50);
    assert_eq!(resolve_size(Size::Pixel(500), Size::Auto, Size::Pixel(100), Size::Auto, 0, 0), 100);
    assert_eq!(resolve_size(Size::Pixel(60), Size::Pixel(50), Size::Pixel(100), Size::Auto, 0, 0), 60);
    // With the minimum above the maximum the minimum wins.
    assert_eq!(resolve_size(Size::Pixel(10), Size::Pixel(50), Size::Pixel(20), Size::Auto, 0, 0), 50);
}

#[test]
fn percent_rounds_toward_zero() {
    assert_eq!(percent(10, 33), 3);
    assert_eq!(percent(10, -33), -3);
    assert_eq!(percent(-10, 33), -3);
}

#[test]
fn huge_values_are_clipped() {
    assert_eq!(resolve_size(Size::Percent(i32::MAX), Size::Auto, Size::Auto, Size::Auto, i64::MAX, 0), i32::MAX);
    assert_eq!(resolve_size(Size::Fill, Size::Auto, Size::Auto, Size::Auto, 5_000_000_000, 0), i32::MAX);
}

#[test]
fn top_left_anchor_centered_align() {
    assert_eq!(resolve_position(Position::TopLeft, Position::Center, 0, 0, 200, 100, 50, 20), (-100, -50));
    assert_eq!(resolve_position(Position::TopLeft, Position::Center, 0, 0, 200, 100, 7, 3), (-100, -50));
}

#[test]
fn anchor_and_align_compose() {
    assert_eq!(resolve_position(Position::TopLeft, Position::TopLeft, 0, 0, 200, 100, 50, 20), (-75, -40));
    assert_eq!(resolve_position(Position::BottomRight, Position::BottomRight, 10, 10, 200, 100, 50, 20), (85, 50));
    assert_eq!(
        resolve_position(Position::Custom(Size::Pixel(5), Size::Percent(10)), Position::Center, 0, 0, 200, 100, 50, 20),
        (5, 10)
    );
    assert_eq!(
        resolve_position(Position::Center, Position::Custom(Size::Percent(50), Size::Pixel(-3)), 0, 0, 200, 100, 50, 20),
        (25, -3)
    );
}

#[test]
fn sheet_axis_getters() {
    let mut sheet = StyleSheet::default();
    {
        let t = sheet.transfomr_mut();
        t.width = Size::Percent(50);
        t.height = Size::AbsPercent(10);
        t.position = Position::Right;
        t.align = Position::Bottom;
    }
    assert_eq!(sheet.get_width(400, 1000), 200);
    assert_eq!(sheet.get_height(400, 1000), 100);
    assert_eq!(sheet.get_x(0, 400, 200), 200);
    assert_eq!(sheet.get_y(0, 400, 100), -50);
}
