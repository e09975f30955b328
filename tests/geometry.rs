use termpixels::border::{ascii_for_border_or, BorderType};
use termpixels::object::{fits_on_screen, Object, Rect};

#[test]
fn center_of_ten_ten_twenty_by_ten() {
    let r = Rect::new((10, 10), (20, 10));
    assert_eq!(r.center(), (20, 15));
    assert!(r.is_center(&(20, 15)));
    assert!(!r.is_center(&(20, 16)));
}

#[test]
fn center_halves_with_floor() {
    let r = Rect::new((1, 1), (3, 1));
    assert_eq!(r.center(), (2, 1));
}

#[test]
fn corners_are_inclusive() {
    let r = Rect::new((2, 3), (4, 5));
    assert_eq!(r.top_left_corner(), (2, 3));
    assert_eq!(r.top_right_corner(), (6, 3));
    assert_eq!(r.bottom_left_corner(), (2, 8));
    assert_eq!(r.bottom_right_corner(), (6, 8));
    assert!(r.is_top_left_corner(&(2, 3)));
    assert!(r.is_top_right_corner(&(6, 3)));
    assert!(r.is_bottom_left_corner(&(2, 8)));
    assert!(r.is_bottom_right_corner(&(6, 8)));
    assert!(r.is_corner(&(6, 8)));
    assert!(!r.is_corner(&(3, 3)));
}

#[test]
fn boundaries() {
    let r = Rect::new((2, 3), (4, 5));
    assert_eq!(r.left_boundary(), 2);
    assert_eq!(r.right_boundary(), 6);
    assert_eq!(r.top_boundary(), 3);
    assert_eq!(r.bottom_boundary(), 8);
    assert!(r.is_left_boundary(&(2, 100)));
    assert!(r.is_right_boundary(&(6, 0)));
    assert!(r.is_top_boundary(&(50, 3)));
    assert!(r.is_bottom_boundary(&(50, 8)));
    assert!(r.is_boundary(&(4, 8)));
    assert!(!r.is_boundary(&(4, 5)));
}

#[test]
fn covers_both_corners_and_nothing_outside() {
    let r = Rect::new((10, 10), (20, 10));
    assert!(r.covers(&r.top_left_corner()));
    assert!(r.covers(&r.bottom_right_corner()));
    assert!(r.covers(&(15, 12)));
    assert!(!r.covers(&(9, 15)));
    assert!(!r.covers(&(31, 15)));
    assert!(!r.covers(&(15, 9)));
    assert!(!r.covers(&(15, 21)));
}

#[test]
fn covers_at_origin_does_not_underflow() {
    let r = Rect::new((0, 0), (0, 0));
    assert!(r.covers(&(0, 0)));
    assert!(!r.covers(&(1, 0)));
    assert!(!r.covers(&(0, 1)));
}

#[test]
fn far_edge_beyond_screen_does_not_wrap() {
    let r = Rect::new((65530, 0), (10, 0));
    assert!(!fits_on_screen(&r));
    assert!(r.covers(&(65535, 0)));
    assert!(!r.covers(&(4, 0)));
    assert!(!r.is_right_boundary(&(4, 0)));
    assert!(fits_on_screen(&Rect::new((65530, 0), (5, 0))));
}

#[test]
fn can_contain_needs_both_corners() {
    let outer = Rect::new((1, 1), (10, 10));
    assert!(outer.can_contain(&Rect::new((2, 2), (3, 3))));
    assert!(outer.can_contain(&Rect::new((1, 1), (10, 10))));
    assert!(!outer.can_contain(&Rect::new((2, 2), (10, 3))));
    assert!(!outer.can_contain(&Rect::new((0, 2), (1, 1))));
    assert!(!outer.can_contain(&Rect::new((5, 5), (65535, 0))));
}

#[test]
fn set_center_moves_position() {
    let mut r = Rect::new((0, 0), (4, 2));
    r.set_center(&(10, 10));
    assert_eq!(r.position(), (8, 9));
    assert_eq!(r.size(), (4, 2));
    assert_eq!(r.center(), (10, 10));
}

#[test]
fn setters_keep_the_other_value() {
    let mut r = Rect::new((1, 2), (3, 4));
    r.set_position(&(5, 6));
    assert_eq!(r.size(), (3, 4));
    r.set_size(&(7, 8));
    assert_eq!(r.position(), (5, 6));
    assert_eq!(Rect::of(&r), Rect::new((5, 6), (7, 8)));
}

#[test]
fn border_glyphs_of_object() {
    let r = Rect::new((1, 1), (3, 2));
    let none = || None;
    assert_eq!(ascii_for_border_or(&r, &(1, 1), BorderType::Simple, none), Some('┌'));
    assert_eq!(ascii_for_border_or(&r, &(4, 1), BorderType::Simple, none), Some('┐'));
    assert_eq!(ascii_for_border_or(&r, &(1, 3), BorderType::Simple, none), Some('└'));
    assert_eq!(ascii_for_border_or(&r, &(4, 3), BorderType::Simple, none), Some('┘'));
    assert_eq!(ascii_for_border_or(&r, &(1, 2), BorderType::Simple, none), Some('│'));
    assert_eq!(ascii_for_border_or(&r, &(4, 2), BorderType::Simple, none), Some('│'));
    assert_eq!(ascii_for_border_or(&r, &(2, 1), BorderType::Simple, none), Some('─'));
    assert_eq!(ascii_for_border_or(&r, &(3, 3), BorderType::Simple, none), Some('─'));
    assert_eq!(ascii_for_border_or(&r, &(2, 2), BorderType::Simple, none), None);
    assert_eq!(ascii_for_border_or(&r, &(2, 2), BorderType::Simple, || Some('#')), Some('#'));
}
