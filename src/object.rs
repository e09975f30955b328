use vstd::prelude::*;
use crate::style::Style;

verus! {

/// A 1-based (column, row) screen location.
pub type Location = (u16, u16);

/// A (width, height) extent. A widget of size (w, h) at (x, y) occupies the
/// closed rectangle from (x, y) to (x + w, y + h).
pub type Size = (u16, u16);

/// One painted cell: where, which glyph, in which style.
pub type TermPixel = (Location, char, Style);

/// The rectangle at `position` of extent `size` lies within the addressable
/// screen: its bottom-right corner is a valid location.
pub open spec fn fits(position: Location, size: Size) -> bool {
    &&& position.0 + size.0 <= u16::MAX
    &&& position.1 + size.1 <= u16::MAX
}

/// Bottom-right corner of the closed rectangle, as integers.
pub open spec fn far_corner(position: Location, size: Size) -> (int, int) {
    (position.0 + size.0, position.1 + size.1)
}

/// Whether the closed rectangle at `position` of extent `size` holds `location`.
pub open spec fn rect_covers(position: Location, size: Size, location: (int, int)) -> bool {
    &&& position.0 <= location.0 <= position.0 + size.0
    &&& position.1 <= location.1 <= position.1 + size.1
}

/// Centre of the rectangle, with integer (floor) halving of the extent.
pub open spec fn center_of(position: Location, size: Size) -> (int, int) {
    (position.0 + size.0 / 2, position.1 + size.1 / 2)
}

/// The location (x, y) as a pair of integers.
pub open spec fn as_ints(location: Location) -> (int, int) {
    (location.0 as int, location.1 as int)
}

/// Whether a location is one of the four corners of the rectangle.
pub open spec fn is_corner_of(position: Location, size: Size, location: Location) -> bool {
    let (x, y) = as_ints(location);
    let (x2, y2) = far_corner(position, size);
    (x == position.0 || x == x2) && (y == position.1 || y == y2)
}

/// Whether a location lies on an edge line of the rectangle.
pub open spec fn is_boundary_of(position: Location, size: Size, location: Location) -> bool {
    let (x2, y2) = far_corner(position, size);
    location.0 == position.0 || location.0 == x2 || location.1 == position.1 || location.1 == y2
}

/// A rectangle covers its top-left and its bottom-right corner, and covers
/// no location with a coordinate outside [px, px + w] or [py, py + h].
pub proof fn lemma_covers_closed_rect(position: Location, size: Size, location: (int, int))
    ensures
        rect_covers(position, size, as_ints(position)),
        rect_covers(position, size, far_corner(position, size)),
        location.0 < position.0 || location.0 > position.0 + size.0 || location.1 < position.1
            || location.1 > position.1 + size.1 ==> !rect_covers(position, size, location),
{
}

/// Something with a position and a size on the screen. All geometry is
/// derived from those two values.
pub trait Object {
    spec fn spec_position(&self) -> Location;

    spec fn spec_size(&self) -> Size;

    fn position(&self) -> (r: Location)
        ensures
            r == self.spec_position(),
    ;

    fn set_position(&mut self, location: &Location)
        ensures
            final(self).spec_position() == *location,
            final(self).spec_size() == old(self).spec_size(),
    ;

    fn size(&self) -> (r: Size)
        ensures
            r == self.spec_size(),
    ;

    fn set_size(&mut self, size: &Size)
        ensures
            final(self).spec_size() == *size,
            final(self).spec_position() == old(self).spec_position(),
    ;

    fn center(&self) -> (r: Location)
        requires
            fits(self.spec_position(), self.spec_size()),
        ensures
            as_ints(r) == center_of(self.spec_position(), self.spec_size()),
    {
        let position = self.position();
        let size = self.size();
        (position.0 + size.0 / 2, position.1 + size.1 / 2)
    }

    fn is_center(&self, location: &Location) -> (r: bool)
        requires
            fits(self.spec_position(), self.spec_size()),
        ensures
            r == (as_ints(*location) == center_of(self.spec_position(), self.spec_size())),
    {
        let c = self.center();
        location.0 == c.0 && location.1 == c.1
    }

    /// Moves the object so that its centre is at `location`.
    fn set_center(&mut self, location: &Location)
        requires
            location.0 >= old(self).spec_size().0 / 2,
            location.1 >= old(self).spec_size().1 / 2,
        ensures
            final(self).spec_size() == old(self).spec_size(),
            final(self).spec_position().0 == location.0 - old(self).spec_size().0 / 2,
            final(self).spec_position().1 == location.1 - old(self).spec_size().1 / 2,
    {
        let (w, h) = self.size();
        let x = location.0 - w / 2;
        let y = location.1 - h / 2;
        self.set_position(&(x, y));
    }

    fn top_left_corner(&self) -> (r: Location)
        ensures
            r == self.spec_position(),
    {
        let (x, y) = self.position();
        (x, y)
    }

    fn is_top_left_corner(&self, location: &Location) -> (r: bool)
        ensures
            r == (*location == self.spec_position()),
    {
        let c = self.top_left_corner();
        location.0 == c.0 && location.1 == c.1
    }

    fn bottom_left_corner(&self) -> (r: Location)
        requires
            fits(self.spec_position(), self.spec_size()),
        ensures
            as_ints(r) == (
                self.spec_position().0 as int,
                far_corner(self.spec_position(), self.spec_size()).1,
            ),
    {
        let (x, y) = self.position();
        let (_, height) = self.size();
        (x, y + height)
    }

    fn is_bottom_left_corner(&self, location: &Location) -> (r: bool)
        ensures
            r == (as_ints(*location) == (
                self.spec_position().0 as int,
                far_corner(self.spec_position(), self.spec_size()).1,
            )),
    {
        self.is_left_boundary(location) && self.is_bottom_boundary(location)
    }

    fn top_right_corner(&self) -> (r: Location)
        requires
            fits(self.spec_position(), self.spec_size()),
        ensures
            as_ints(r) == (
                far_corner(self.spec_position(), self.spec_size()).0,
                self.spec_position().1 as int,
            ),
    {
        let (x, y) = self.position();
        let (width, _) = self.size();
        (x + width, y)
    }

    fn is_top_right_corner(&self, location: &Location) -> (r: bool)
        ensures
            r == (as_ints(*location) == (
                far_corner(self.spec_position(), self.spec_size()).0,
                self.spec_position().1 as int,
            )),
    {
        self.is_right_boundary(location) && self.is_top_boundary(location)
    }

    fn bottom_right_corner(&self) -> (r: Location)
        requires
            fits(self.spec_position(), self.spec_size()),
        ensures
            as_ints(r) == far_corner(self.spec_position(), self.spec_size()),
    {
        let (x, y) = self.position();
        let (width, height) = self.size();
        (x + width, y + height)
    }

    fn is_bottom_right_corner(&self, location: &Location) -> (r: bool)
        ensures
            r == (as_ints(*location) == far_corner(self.spec_position(), self.spec_size())),
    {
        self.is_right_boundary(location) && self.is_bottom_boundary(location)
    }

    fn is_corner(&self, location: &Location) -> (r: bool)
        ensures
            r == is_corner_of(self.spec_position(), self.spec_size(), *location),
    {
        self.is_top_right_corner(location) || self.is_top_left_corner(location)
            || self.is_bottom_right_corner(location) || self.is_bottom_left_corner(location)
    }

    fn left_boundary(&self) -> (r: u16)
        ensures
            r == self.spec_position().0,
    {
        self.position().0
    }

    fn is_left_boundary(&self, location: &Location) -> (r: bool)
        ensures
            r == (location.0 == self.spec_position().0),
    {
        location.0 == self.left_boundary()
    }

    fn top_boundary(&self) -> (r: u16)
        ensures
            r == self.spec_position().1,
    {
        self.position().1
    }

    fn is_top_boundary(&self, location: &Location) -> (r: bool)
        ensures
            r == (location.1 == self.spec_position().1),
    {
        location.1 == self.top_boundary()
    }

    fn bottom_boundary(&self) -> (r: u16)
        requires
            fits(self.spec_position(), self.spec_size()),
        ensures
            r == far_corner(self.spec_position(), self.spec_size()).1,
    {
        self.position().1 + self.size().1
    }

    /// Computed without overflow for any position and size.
    fn is_bottom_boundary(&self, location: &Location) -> (r: bool)
        ensures
            r == (location.1 == far_corner(self.spec_position(), self.spec_size()).1),
    {
        location.1 as u32 == self.position().1 as u32 + self.size().1 as u32
    }

    fn right_boundary(&self) -> (r: u16)
        requires
            fits(self.spec_position(), self.spec_size()),
        ensures
            r == far_corner(self.spec_position(), self.spec_size()).0,
    {
        self.position().0 + self.size().0
    }

    /// Computed without overflow for any position and size.
    fn is_right_boundary(&self, location: &Location) -> (r: bool)
        ensures
            r == (location.0 == far_corner(self.spec_position(), self.spec_size()).0),
    {
        location.0 as u32 == self.position().0 as u32 + self.size().0 as u32
    }

    fn is_boundary(&self, location: &Location) -> (r: bool)
        ensures
            r == is_boundary_of(self.spec_position(), self.spec_size(), *location),
    {
        self.is_right_boundary(location) || self.is_left_boundary(location)
            || self.is_top_boundary(location) || self.is_bottom_boundary(location)
    }

    /// Whether the closed rectangle holds `location`. A far edge beyond the
    /// addressable screen does not wrap: it simply holds every larger
    /// coordinate that exists.
    fn covers(&self, location: &Location) -> (r: bool)
        ensures
            r == rect_covers(self.spec_position(), self.spec_size(), as_ints(*location)),
    {
        let (x, y) = *location;
        let (px, py) = self.position();
        let (w, h) = self.size();
        x >= px && x as u32 <= px as u32 + w as u32 && y >= py && y as u32 <= py as u32 + h as u32
    }

    /// Whether this rectangle covers both the top-left and the bottom-right
    /// corner of `other`.
    fn can_contain(&self, other: &Rect) -> (r: bool)
        ensures
            r == {
                let (position, size) = (self.spec_position(), self.spec_size());
                &&& rect_covers(position, size, as_ints(other.position))
                &&& rect_covers(position, size, far_corner(other.position, other.size))
            },
    {
        let (px, py) = self.position();
        let (w, h) = self.size();
        let x2 = px as u32 + w as u32;
        let y2 = py as u32 + h as u32;
        let ox2 = other.position.0 as u32 + other.size.0 as u32;
        let oy2 = other.position.1 as u32 + other.size.1 as u32;
        let far_covered = px as u32 <= ox2 && ox2 <= x2 && py as u32 <= oy2 && oy2 <= y2;
        self.covers(&other.position) && far_covered
    }
}

/// Whether the object's closed rectangle lies within the addressable screen.
pub fn fits_on_screen<O: Object>(object: &O) -> (r: bool)
    ensures
        r == fits(object.spec_position(), object.spec_size()),
{
    let (x, y) = object.position();
    let (w, h) = object.size();
    x as u32 + w as u32 <= u16::MAX as u32 && y as u32 + h as u32 <= u16::MAX as u32
}

/// A bare rectangle: a position and a size, and nothing drawn.
#[derive(Clone, Copy, Debug, PartialEq, Eq)]
pub struct Rect {
    pub position: Location,
    pub size: Size,
}

impl Rect {
    pub fn new(position: Location, size: Size) -> (r: Rect)
        ensures
            r.position == position,
            r.size == size,
    {
        Rect { position, size }
    }

    /// The rectangle that `object` occupies.
    pub fn of<O: Object>(object: &O) -> (r: Rect)
        ensures
            r.position == object.spec_position(),
            r.size == object.spec_size(),
    {
        Rect { position: object.position(), size: object.size() }
    }
}

impl Object for Rect {
    open spec fn spec_position(&self) -> Location {
        self.position
    }

    open spec fn spec_size(&self) -> Size {
        self.size
    }

    fn position(&self) -> (r: Location) {
        self.position
    }

    fn set_position(&mut self, location: &Location) {
        self.position = *location;
    }

    fn size(&self) -> (r: Size) {
        self.size
    }

    fn set_size(&mut self, size: &Size) {
        self.size = *size;
    }
}

} // verus!
