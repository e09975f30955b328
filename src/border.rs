use vstd::prelude::*;
use crate::object::{as_ints, far_corner, Location, Object};

verus! {

/// The kinds of border that can be drawn round a rectangle.
pub enum BorderType {
    /// Single-line box-drawing characters.
    Simple,
}

/// The simple border glyph at `location` for the closed rectangle from
/// `top_left` to `bottom_right`: a corner glyph at each corner, a vertical
/// bar on the left and right edges, a horizontal bar on the top and bottom
/// edges, and none inside or outside.
pub open spec fn border_glyph(top_left: (int, int), bottom_right: (int, int), location: (int, int)) -> Option<char> {
    if location == top_left {
        Some('┌')
    } else if location == (bottom_right.0, top_left.1) {
        Some('┐')
    } else if location == (top_left.0, bottom_right.1) {
        Some('└')
    } else if location == bottom_right {
        Some('┘')
    } else if location.0 == bottom_right.0 || location.0 == top_left.0 {
        Some('│')
    } else if location.1 == top_left.1 || location.1 == bottom_right.1 {
        Some('─')
    } else {
        None
    }
}

/// The border glyph of `object` at `location`, or what `default` gives where
/// the location is on no edge of the object's rectangle.
pub fn ascii_for_border_or<O: Object, F: Fn() -> Option<char>>(
    object: &O,
    location: &Location,
    border_type: BorderType,
    default: F,
) -> (r: Option<char>)
    requires
        default.requires(()),
    ensures
        match border_glyph(
            as_ints(object.spec_position()),
            far_corner(object.spec_position(), object.spec_size()),
            as_ints(*location),
        ) {
            Some(glyph) => r == Some(glyph),
            None => default.ensures((), r),
        },
{
    match border_type {
        BorderType::Simple => {
            if object.is_top_left_corner(location) {
                Some('┌')
            } else if object.is_top_right_corner(location) {
                Some('┐')
            } else if object.is_bottom_left_corner(location) {
                Some('└')
            } else if object.is_bottom_right_corner(location) {
                Some('┘')
            } else if object.is_right_boundary(location) || object.is_left_boundary(location) {
                Some('│')
            } else if object.is_top_boundary(location) || object.is_bottom_boundary(location) {
                Some('─')
            } else {
                default()
            }
        },
    }
}

} // verus!
