use deskling_character::geometry::{within_radius, Point};
use deskling_character::shape::Rgba;
use deskling_character::state::{hint_alpha, hover_scale, DesklingApp, FrameInput};

fn hover(x: i32, y: i32) -> Option<Point> {
    Some(Point { x, y })
}

#[test]
fn hover_scale_inside_is_eleven_tenths() {
    assert_eq!(hover_scale(hover(15_000, 25_000)), 11);
    assert_eq!(hover_scale(hover(20_999, 25_000)), 11);
    assert_eq!(hover_scale(hover(15_000, 19_001)), 11);
    // 35.99 px right and 47.99 px down: just under 60 px away
    assert_eq!(hover_scale(hover(18_599, 29_799)), 11);
}

#[test]
fn hover_scale_on_the_edge_and_outside_is_ten_tenths() {
    assert_eq!(hover_scale(hover(21_000, 25_000)), 10);
    assert_eq!(hover_scale(hover(9_000, 25_000)), 10);
    assert_eq!(hover_scale(hover(15_000, 31_000)), 10);
    assert_eq!(hover_scale(hover(18_600, 29_800)), 10);
    assert_eq!(hover_scale(hover(21_001, 25_000)), 10);
    assert_eq!(hover_scale(hover(0, 0)), 10);
    assert_eq!(hover_scale(hover(i32::MIN, i32::MAX)), 10);
    assert_eq!(hover_scale(None), 10);
}

#[test]
fn frame_scale_follows_the_hover_position() {
    let mut app = DesklingApp::new();
    let mut input = FrameInput {
        dt: 1,
        now: 0,
        interact_pos: None,
        primary_clicked: false,
        hover_pos: hover(15_500, 25_500),
    };
    assert_eq!(app.update(&input).scale, 11);
    input.hover_pos = hover(30_000, 40_000);
    assert_eq!(app.update(&input).scale, 10);
    input.hover_pos = None;
    // where the pointer last interacted does not count as hovering
    input.interact_pos = hover(15_000, 25_000);
    assert_eq!(app.update(&input).scale, 10);
}

#[test]
fn within_radius_is_strict() {
    let c = Point { x: 0, y: 0 };
    assert!(within_radius(Point { x: 0, y: 0 }, c, 1));
    assert!(!within_radius(Point { x: 0, y: 0 }, c, 0));
    assert!(within_radius(Point { x: 3, y: 4 }, c, 6));
    assert!(!within_radius(Point { x: 3, y: 4 }, c, 5));
    assert!(!within_radius(Point { x: -3, y: -4 }, c, 5));
    assert!(within_radius(Point { x: -3, y: 4 }, c, 6));
    assert!(!within_radius(Point { x: 5, y: 0 }, c, 5));
    assert!(within_radius(Point { x: 4, y: 0 }, c, 5));
}

#[test]
fn within_radius_at_the_ends_of_the_range() {
    let far = Point { x: i32::MAX, y: i32::MAX };
    let near = Point { x: i32::MIN, y: i32::MIN };
    assert!(!within_radius(far, near, u32::MAX));
    assert!(!within_radius(near, far, u32::MAX));
    assert!(within_radius(far, far, 1));
    assert!(within_radius(Point { x: i32::MAX, y: 0 }, Point { x: i32::MIN + 1, y: 0 }, u32::MAX));
    assert!(!within_radius(Point { x: i32::MAX, y: 0 }, Point { x: i32::MIN, y: 0 }, u32::MAX));
}

#[test]
fn hint_alpha_falls_linearly_from_255_to_nothing() {
    assert_eq!(hint_alpha(0), Some(255));
    assert_eq!(hint_alpha(1), Some(254));
    assert_eq!(hint_alpha(1_000_000_000), Some(170));
    assert_eq!(hint_alpha(1_500_000_000), Some(127));
    assert_eq!(hint_alpha(2_000_000_000), Some(85));
    assert_eq!(hint_alpha(2_999_999_999), Some(0));
    assert_eq!(hint_alpha(3_000_000_000), None);
    assert_eq!(hint_alpha(3_000_000_001), None);
    assert_eq!(hint_alpha(u64::MAX), None);
}

#[test]
fn hint_alpha_is_the_floor_of_the_share_left() {
    let mut last = 255u8;
    let mut t = 0u64;
    while t < 3_000_000_000 {
        let alpha = hint_alpha(t).unwrap();
        let exact = (3.0 - t as f64 / 1e9) * 255.0 / 3.0;
        assert_eq!(alpha as f64, (exact + 1e-9).floor(), "at {} ns", t);
        assert!(alpha <= last);
        last = alpha;
        t += 11_764_706;
    }
}

#[test]
fn frame_carries_the_hint_alpha_of_its_time() {
    let mut app = DesklingApp::new();
    let mut input = FrameInput {
        dt: 0,
        now: 0,
        interact_pos: None,
        primary_clicked: false,
        hover_pos: None,
    };
    assert_eq!(app.update(&input).hint_alpha, Some(255));
    input.dt = 1_500_000_000;
    assert_eq!(app.update(&input).hint_alpha, Some(127));
    assert_eq!(app.update(&input).hint_alpha, None);
    assert_eq!(app.update(&input).hint_alpha, None);
}

#[test]
fn clear_color_is_transparent() {
    let app = DesklingApp::new();
    assert_eq!(app.clear_color(), Rgba { r: 0, g: 0, b: 0, a: 0 });
    assert_eq!(Rgba::transparent(), Rgba { r: 0, g: 0, b: 0, a: 0 });
}

#[test]
fn named_colours() {
    assert_eq!(Rgba::ink(), Rgba { r: 51, g: 51, b: 51, a: 255 });
    assert_eq!(Rgba::black(), Rgba { r: 0, g: 0, b: 0, a: 255 });
    assert_eq!(Rgba::white(), Rgba { r: 255, g: 255, b: 255, a: 255 });
    assert_eq!(Rgba::white_alpha(242), Rgba { r: 255, g: 255, b: 255, a: 242 });
    assert_eq!(Rgba::white_alpha(0), Rgba { r: 255, g: 255, b: 255, a: 0 });
}
