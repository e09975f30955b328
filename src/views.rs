use vstd::prelude::*;
use crate::border::border_glyph;
use crate::canvas::{corners, Canvas};
use crate::failure::Failure;
use crate::object::as_ints;
use crate::style::{plain_style, Style};
use crate::types::{Model, Position, TermPixel};

verus! {

/// A view that draws a single-line border along the edges of the canvas, in
/// the plain style, and nothing inside it. Fails where a corner of the canvas
/// cannot be had.
pub fn simple_border<C: Canvas, M: Model>(canvas: &C, _m: &M, position: &Position) -> (r: Result<
    Option<TermPixel>,
    Failure,
>)
    ensures
        match corners(canvas.spec_top_left(), canvas.spec_bottom_right()) {
            Some((a, b)) => r == Ok::<Option<TermPixel>, Failure>(
                match border_glyph(as_ints(a), as_ints(b), as_ints(*position)) {
                    Some(glyph) => Some((glyph, plain_style())),
                    None => None,
                },
            ),
            None => r is Err,
        },
{
    let top_left = match canvas.top_left_corner() {
        Ok(p) => p,
        Err(e) => return Err(e),
    };
    let bottom_right = match canvas.bottom_right_corner() {
        Ok(p) => p,
        Err(e) => return Err(e),
    };
    let (x1, y1) = top_left;
    let (x2, y2) = bottom_right;
    let (x, y) = *position;
    if x == x1 && y == y1 {
        Ok(Some(('┌', Style::default())))
    } else if x == x2 && y == y1 {
        Ok(Some(('┐', Style::default())))
    } else if x == x1 && y == y2 {
        Ok(Some(('└', Style::default())))
    } else if x == x2 && y == y2 {
        Ok(Some(('┘', Style::default())))
    } else if x == x2 || x == x1 {
        Ok(Some(('│', Style::default())))
    } else if y == y1 || y == y2 {
        Ok(Some(('─', Style::default())))
    } else {
        Ok(None)
    }
}

} // verus!
