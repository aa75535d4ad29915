use cross_magic_ui::draw::text_anchor_x;
use cross_magic_ui::draw::text_baseline_y;
use cross_magic_ui::draw::TextAlignment;
use cross_magic_ui::geometry::UIRect;

#[test]
fn contains_point_interior() {
    let r = UIRect::new(10, 10, 20, 20);
    assert!(r.contains_point(15, 25));
}

#[test]
fn contains_point_boundaries_inclusive() {
    let r = UIRect::new(10, 10, 20, 20);
    assert!(r.contains_point(10, 10));
    assert!(r.contains_point(30, 30));
    assert!(r.contains_point(10, 30));
    assert!(r.contains_point(30, 10));
}

#[test]
fn contains_point_outside() {
    let r = UIRect::new(10, 10, 20, 20);
    assert!(!r.contains_point(9, 10));
    assert!(!r.contains_point(31, 30));
    assert!(!r.contains_point(15, 9));
    assert!(!r.contains_point(15, 31));
}

#[test]
fn contains_point_degenerate_rect_contains_nothing() {
    let r = UIRect::new(0, 0, -1, 5);
    assert!(!r.contains_point(0, 2));
    assert!(!r.contains_point(-1, 2));
    let r2 = UIRect::new(0, 0, 5, -3);
    assert!(!r2.contains_point(2, 0));
}

#[test]
fn contains_point_zero_area_is_its_own_point() {
    let r = UIRect::new(4, 7, 0, 0);
    assert!(r.contains_point(4, 7));
    assert!(!r.contains_point(5, 7));
}

#[test]
fn center_basic() {
    let r = UIRect::new(10, 10, 7, 7);
    assert_eq!(r.center(), (13, 13));
    let r2 = UIRect::new(0, 0, 100, 40);
    assert_eq!(r2.center(), (50, 20));
}

#[test]
fn center_negative_sizes_round_toward_zero() {
    let r = UIRect::new(0, 0, -7, -8);
    assert_eq!(r.center(), (-3, -4));
}

#[test]
fn anchor_left_is_origin() {
    assert_eq!(text_anchor_x(10, 100, 40, TextAlignment::Left), 10);
}

#[test]
fn anchor_center_splits_slack() {
    assert_eq!(text_anchor_x(10, 100, 40, TextAlignment::Center), 40);
    // text wider than the span: the anchor moves left of the origin
    assert_eq!(text_anchor_x(10, 10, 25, TextAlignment::Center), 2);
}

#[test]
fn anchor_right_is_flush() {
    assert_eq!(text_anchor_x(10, 100, 40, TextAlignment::Right), 70);
}

#[test]
fn baseline_centers_and_nudges() {
    assert_eq!(text_baseline_y(0, 40, 16), 25);
    assert_eq!(text_baseline_y(100, 30, 20), 100 + 15 + 6);
}
