use vstd::prelude::*;
use crate::failure::Failure;
use crate::object::{as_ints, Rect};
use crate::types::{Position, Size};

verus! {

/// Both corners, where both can be had.
pub open spec fn corners(top_left: Option<Position>, bottom_right: Option<Position>) -> Option<
    (Position, Position),
> {
    match (top_left, bottom_right) {
        (Some(a), Some(b)) => Some((a, b)),
        _ => None,
    }
}

/// The bottom-right corner is not above or left of the top-left corner,
/// where both can be had.
pub open spec fn corners_ordered(top_left: Option<Position>, bottom_right: Option<Position>) -> bool {
    match corners(top_left, bottom_right) {
        Some((a, b)) => a.0 <= b.0 && a.1 <= b.1,
        None => true,
    }
}

/// Centre of the closed rectangle from `a` to `b`, halving with the floor.
pub open spec fn midpoint(a: Position, b: Position) -> (int, int) {
    (a.0 + (b.0 - a.0) / 2, a.1 + (b.1 - a.1) / 2)
}

/// A rectangular drawing area given by its two corners. Querying a corner
/// may fail; a corner that can be had is the same on every query.
pub trait Canvas {
    spec fn spec_top_left(&self) -> Option<Position>;

    spec fn spec_bottom_right(&self) -> Option<Position>;

    fn top_left_corner(&self) -> (r: Result<Position, Failure>)
        ensures
            match r {
                Ok(p) => self.spec_top_left() == Some(p),
                Err(_) => self.spec_top_left() is None,
            },
    ;

    fn bottom_right_corner(&self) -> (r: Result<Position, Failure>)
        ensures
            match r {
                Ok(p) => self.spec_bottom_right() == Some(p),
                Err(_) => self.spec_bottom_right() is None,
            },
    ;

    fn size(&self) -> (r: Result<Size, Failure>)
        requires
            corners_ordered(self.spec_top_left(), self.spec_bottom_right()),
        ensures
            match corners(self.spec_top_left(), self.spec_bottom_right()) {
                Some((a, b)) => r == Ok::<Size, Failure>(((b.0 - a.0) as u16, (b.1 - a.1) as u16)),
                None => r is Err,
            },
    {
        let (x1, y1) = match self.top_left_corner() {
            Ok(p) => p,
            Err(e) => return Err(e),
        };
        let (x2, y2) = match self.bottom_right_corner() {
            Ok(p) => p,
            Err(e) => return Err(e),
        };
        Ok(((x2 - x1), (y2 - y1)))
    }

    fn center(&self) -> (r: Result<Position, Failure>)
        requires
            corners_ordered(self.spec_top_left(), self.spec_bottom_right()),
        ensures
            match corners(self.spec_top_left(), self.spec_bottom_right()) {
                Some((a, b)) => r matches Ok(p) && as_ints(p) == midpoint(a, b),
                None => r is Err,
            },
    {
        let (x, y) = match self.top_left_corner() {
            Ok(p) => p,
            Err(e) => return Err(e),
        };
        let (w, h) = match self.size() {
            Ok(s) => s,
            Err(e) => return Err(e),
        };
        Ok((x + w / 2, y + h / 2))
    }

    fn top_right_corner(&self) -> (r: Result<Position, Failure>)
        ensures
            match corners(self.spec_top_left(), self.spec_bottom_right()) {
                Some((a, b)) => r == Ok::<Position, Failure>((b.0, a.1)),
                None => r is Err,
            },
    {
        let (_, y) = match self.top_left_corner() {
            Ok(p) => p,
            Err(e) => return Err(e),
        };
        let (x, _) = match self.bottom_right_corner() {
            Ok(p) => p,
            Err(e) => return Err(e),
        };
        Ok((x, y))
    }

    fn bottom_left_corner(&self) -> (r: Result<Position, Failure>)
        ensures
            match corners(self.spec_top_left(), self.spec_bottom_right()) {
                Some((a, b)) => r == Ok::<Position, Failure>((a.0, b.1)),
                None => r is Err,
            },
    {
        let (x, _) = match self.top_left_corner() {
            Ok(p) => p,
            Err(e) => return Err(e),
        };
        let (_, y) = match self.bottom_right_corner() {
            Ok(p) => p,
            Err(e) => return Err(e),
        };
        Ok((x, y))
    }

    /// The point of the left edge in row `y`.
    fn left_boundary(&self, y: u16) -> (r: Result<Position, Failure>)
        ensures
            match self.spec_top_left() {
                Some(a) => r == Ok::<Position, Failure>((a.0, y)),
                None => r is Err,
            },
    {
        let (x, _) = match self.top_left_corner() {
            Ok(p) => p,
            Err(e) => return Err(e),
        };
        Ok((x, y))
    }

    /// The point of the right edge in row `y`.
    fn right_boundary(&self, y: u16) -> (r: Result<Position, Failure>)
        ensures
            match self.spec_bottom_right() {
                Some(b) => r == Ok::<Position, Failure>((b.0, y)),
                None => r is Err,
            },
    {
        let (x, _) = match self.bottom_right_corner() {
            Ok(p) => p,
            Err(e) => return Err(e),
        };
        Ok((x, y))
    }

    /// The point of the top edge in column `x`.
    fn top_boundary(&self, x: u16) -> (r: Result<Position, Failure>)
        ensures
            match self.spec_top_left() {
                Some(a) => r == Ok::<Position, Failure>((x, a.1)),
                None => r is Err,
            },
    {
        let (_, y) = match self.top_left_corner() {
            Ok(p) => p,
            Err(e) => return Err(e),
        };
        Ok((x, y))
    }

    /// The point of the bottom edge in column `x`.
    fn bottom_boundary(&self, x: u16) -> (r: Result<Position, Failure>)
        ensures
            match self.spec_bottom_right() {
                Some(b) => r == Ok::<Position, Failure>((x, b.1)),
                None => r is Err,
            },
    {
        let (_, y) = match self.bottom_right_corner() {
            Ok(p) => p,
            Err(e) => return Err(e),
        };
        Ok((x, y))
    }

    fn is_boundary(&self, position: &Position) -> (r: Result<bool, Failure>)
        ensures
            match corners(self.spec_top_left(), self.spec_bottom_right()) {
                Some((a, b)) => r == Ok::<bool, Failure>(
                    a.0 == position.0 || b.0 == position.0 || a.1 == position.1 || b.1 == position.1,
                ),
                None => r is Err,
            },
    {
        let (x1, y1) = match self.top_left_corner() {
            Ok(p) => p,
            Err(e) => return Err(e),
        };
        let (x2, y2) = match self.bottom_right_corner() {
            Ok(p) => p,
            Err(e) => return Err(e),
        };
        let (px, py) = *position;
        Ok(x1 == px || x2 == px || y1 == py || y2 == py)
    }

    /// The point in column `x` on the centre row.
    fn vcenter(&self, x: u16) -> (r: Result<Position, Failure>)
        requires
            corners_ordered(self.spec_top_left(), self.spec_bottom_right()),
        ensures
            match corners(self.spec_top_left(), self.spec_bottom_right()) {
                Some((a, b)) => r matches Ok(p) && p.0 == x && p.1 == midpoint(a, b).1,
                None => r is Err,
            },
    {
        let (_, y) = match self.center() {
            Ok(p) => p,
            Err(e) => return Err(e),
        };
        Ok((x, y))
    }

    /// The point in row `y` on the centre column.
    fn hcenter(&self, y: u16) -> (r: Result<Position, Failure>)
        requires
            corners_ordered(self.spec_top_left(), self.spec_bottom_right()),
        ensures
            match corners(self.spec_top_left(), self.spec_bottom_right()) {
                Some((a, b)) => r matches Ok(p) && p.0 == midpoint(a, b).0 && p.1 == y,
                None => r is Err,
            },
    {
        let (x, _) = match self.center() {
            Ok(p) => p,
            Err(e) => return Err(e),
        };
        Ok((x, y))
    }

    /// Whether the closed rectangle between the corners holds `location`.
    fn covers(&self, location: &Position) -> (r: Result<bool, Failure>)
        ensures
            match corners(self.spec_top_left(), self.spec_bottom_right()) {
                Some((a, b)) => r == Ok::<bool, Failure>(
                    a.0 <= location.0 <= b.0 && a.1 <= location.1 <= b.1,
                ),
                None => r is Err,
            },
    {
        let (x1, y1) = match self.top_left_corner() {
            Ok(p) => p,
            Err(e) => return Err(e),
        };
        let (x2, y2) = match self.bottom_right_corner() {
            Ok(p) => p,
            Err(e) => return Err(e),
        };
        let (p1, p2) = *location;
        Ok(p1 >= x1 && p1 <= x2 && p2 >= y1 && p2 <= y2)
    }

    /// Whether the canvas covers both corners of `other`.
    fn can_contain(&self, other: &Rect) -> (r: Result<bool, Failure>)
        ensures
            match corners(self.spec_top_left(), self.spec_bottom_right()) {
                Some((a, b)) => r == Ok::<bool, Failure>(
                    {
                        let (x2, y2) = (other.position.0 + other.size.0, other.position.1
                            + other.size.1);
                        &&& a.0 <= other.position.0 <= b.0
                        &&& a.1 <= other.position.1 <= b.1
                        &&& a.0 <= x2 <= b.0
                        &&& a.1 <= y2 <= b.1
                    },
                ),
                None => r is Err,
            },
    {
        let c1 = match self.covers(&other.position) {
            Ok(c) => c,
            Err(e) => return Err(e),
        };
        let (x1, y1) = match self.top_left_corner() {
            Ok(p) => p,
            Err(e) => return Err(e),
        };
        let (x2, y2) = match self.bottom_right_corner() {
            Ok(p) => p,
            Err(e) => return Err(e),
        };
        let ox2 = other.position.0 as u32 + other.size.0 as u32;
        let oy2 = other.position.1 as u32 + other.size.1 as u32;
        let c2 = x1 as u32 <= ox2 && ox2 <= x2 as u32 && y1 as u32 <= oy2 && oy2 <= y2 as u32;
        Ok(c1 && c2)
    }
}

} // verus!
