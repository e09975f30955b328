use vstd::prelude::*;
use vstd::view::View as _;
use crate::event::{is_interrupt, is_interrupt_spec, Event};
use crate::failure::Failure;
use crate::object::{far_corner, fits, Location, Object, TermPixel};
use crate::screen::{
    diff_of, distinct_locations, lemma_diff_idempotent, lemma_first_frame_paints_all, painted, Painted,
};
use crate::style::Style;

verus! {

/// The content of a widget: what it paints at each location, if anything.
/// Both queries depend on the widget's state alone.
pub trait Paint: Object {
    spec fn paint_ascii(&self, location: Location) -> Option<char>;

    spec fn paint_style(&self, location: Location) -> Style;

    fn paint_ascii_for(&self, location: &Location) -> (r: Option<char>)
        ensures
            r == self.paint_ascii(*location),
    ;

    fn paint_style_for(&self, location: &Location) -> (r: Style)
        ensures
            r == self.paint_style(*location),
    ;
}

/// The background of a widget: what is drawn where it paints nothing.
pub trait Clear: Object {
    spec fn clear_ascii(&self, location: Location) -> Option<char>;

    spec fn clear_style(&self, location: Location) -> Style;

    fn clear_ascii_for(&self, location: &Location) -> (r: Option<char>)
        ensures
            r == self.clear_ascii(*location),
    ;

    fn clear_style_for(&self, location: &Location) -> (r: Style)
        ensures
            r == self.clear_style(*location),
    ;
}

/// The cell a widget shows at `location`: its paint where it paints, else its
/// background, else no cell at all.
pub open spec fn cell_at<W: Paint + Clear + ?Sized>(w: &W, location: Location) -> Option<TermPixel> {
    match w.paint_ascii(location) {
        Some(glyph) => Some((location, glyph, w.paint_style(location))),
        None => match w.clear_ascii(location) {
            Some(glyph) => Some((location, glyph, w.clear_style(location))),
            None => None,
        },
    }
}

/// The cells of row `y` for the columns from `x1` up to, not including, `x`,
/// left to right.
pub open spec fn row_cells<W: Paint + Clear + ?Sized>(w: &W, y: u16, x1: int, x: int) -> Seq<TermPixel>
    decreases x - x1,
{
    if x <= x1 {
        seq![]
    } else {
        let earlier = row_cells(w, y, x1, x - 1);
        match cell_at(w, ((x - 1) as u16, y)) {
            Some(cell) => earlier.push(cell),
            None => earlier,
        }
    }
}

/// The cells of the rows from `y1` up to, not including, `y`, top to bottom,
/// each row over the columns `x1` to `x2` inclusive.
pub open spec fn rows_cells<W: Paint + Clear + ?Sized>(w: &W, x1: int, x2: int, y1: int, y: int) -> Seq<
    TermPixel,
>
    decreases y - y1,
{
    if y <= y1 {
        seq![]
    } else {
        rows_cells(w, x1, x2, y1, y - 1) + row_cells(w, (y - 1) as u16, x1, x2 + 1)
    }
}

/// The frame of a widget: one cell per location of its closed rectangle that
/// shows something, in row-major order (rows top to bottom, each row left to
/// right).
pub open spec fn frame_of<W: Paint + Clear + ?Sized>(w: &W) -> Seq<TermPixel> {
    let position = w.spec_position();
    let corner = far_corner(position, w.spec_size());
    rows_cells(w, position.0 as int, corner.0, position.1 as int, corner.1 + 1)
}

/// Location `a` comes strictly before location `b` in row-major order.
pub open spec fn row_major_before(a: Location, b: Location) -> bool {
    a.1 < b.1 || (a.1 == b.1 && a.0 < b.0)
}

proof fn lemma_row_cells_ordered<W: Paint + Clear + ?Sized>(w: &W, y: u16, x1: int, x: int)
    requires
        0 <= x1,
        x <= 0x1_0000,
    ensures
        forall|i: int|
            0 <= i < row_cells(w, y, x1, x).len() ==> {
                &&& (#[trigger] row_cells(w, y, x1, x)[i]).0.1 == y
                &&& x1 <= row_cells(w, y, x1, x)[i].0.0 < x
            },
        forall|i: int, j: int|
            0 <= i < j < row_cells(w, y, x1, x).len() ==> (#[trigger] row_cells(w, y, x1, x)[i]).0.0
                < (#[trigger] row_cells(w, y, x1, x)[j]).0.0,
    decreases x - x1,
{
    if x > x1 {
        lemma_row_cells_ordered(w, y, x1, x - 1);
        let earlier = row_cells(w, y, x1, x - 1);
        let all = row_cells(w, y, x1, x);
        if let Some(cell) = cell_at(w, ((x - 1) as u16, y)) {
            assert(all == earlier.push(cell));
            assert(cell.0 == ((x - 1) as u16, y));
            assert forall|i: int| 0 <= i < all.len() implies (#[trigger] all[i]).0.1 == y && x1
                <= all[i].0.0 < x by {
                if i < earlier.len() {
                    assert(all[i] == earlier[i]);
                }
            }
            assert forall|i: int, j: int| 0 <= i < j < all.len() implies (#[trigger] all[i]).0.0
                < (#[trigger] all[j]).0.0 by {
                assert(all[i] == earlier[i]);
                if j < earlier.len() {
                    assert(all[j] == earlier[j]);
                }
            }
        }
    }
}

proof fn lemma_rows_cells_ordered<W: Paint + Clear + ?Sized>(w: &W, x1: int, x2: int, y1: int, y: int)
    requires
        0 <= x1,
        x2 < 0x1_0000,
        0 <= y1,
        y <= 0x1_0000,
    ensures
        forall|i: int|
            0 <= i < rows_cells(w, x1, x2, y1, y).len() ==> y1 <= (
            #[trigger] rows_cells(w, x1, x2, y1, y)[i]).0.1 < y,
        forall|i: int, j: int|
            0 <= i < j < rows_cells(w, x1, x2, y1, y).len() ==> row_major_before(
                (#[trigger] rows_cells(w, x1, x2, y1, y)[i]).0,
                (#[trigger] rows_cells(w, x1, x2, y1, y)[j]).0,
            ),
    decreases y - y1,
{
    if y > y1 {
        let upper = rows_cells(w, x1, x2, y1, y - 1);
        let row = row_cells(w, (y - 1) as u16, x1, x2 + 1);
        lemma_rows_cells_ordered(w, x1, x2, y1, y - 1);
        lemma_row_cells_ordered(w, (y - 1) as u16, x1, x2 + 1);
        let all = rows_cells(w, x1, x2, y1, y);
        assert(all == upper + row);
        assert forall|i: int| 0 <= i < all.len() implies y1 <= (#[trigger] all[i]).0.1 < y by {
            if i >= upper.len() {
                assert(all[i] == row[i - upper.len()]);
            }
        }
        assert forall|i: int, j: int| 0 <= i < j < all.len() implies row_major_before(
            (#[trigger] all[i]).0,
            (#[trigger] all[j]).0,
        ) by {
            if j < upper.len() {
            } else if i >= upper.len() {
                assert(all[i] == row[i - upper.len()]);
                assert(all[j] == row[j - upper.len()]);
            } else {
                assert(all[j] == row[j - upper.len()]);
            }
        }
    }
}

/// A widget's frame lists its cells in strict row-major order, so no
/// location occurs in it twice.
pub proof fn lemma_frame_row_major<W: Paint + Clear + ?Sized>(w: &W)
    requires
        fits(w.spec_position(), w.spec_size()),
    ensures
        forall|i: int, j: int|
            0 <= i < j < frame_of(w).len() ==> row_major_before(
                (#[trigger] frame_of(w)[i]).0,
                (#[trigger] frame_of(w)[j]).0,
            ),
        distinct_locations(frame_of(w)),
{
    let position = w.spec_position();
    let corner = far_corner(position, w.spec_size());
    lemma_rows_cells_ordered(w, position.0 as int, corner.0, position.1 as int, corner.1 + 1);
}

/// Diffing a widget's frame against a screen that already shows it, with the
/// widget's state unchanged, emits no update.
pub proof fn lemma_unchanged_widget_repaints_nothing<W: Paint + Clear + ?Sized>(
    w: &W,
    screen: Map<Location, Painted>,
)
    requires
        fits(w.spec_position(), w.spec_size()),
    ensures
        diff_of(painted(screen, frame_of(w)), frame_of(w)) == Seq::<TermPixel>::empty(),
{
    lemma_frame_row_major(w);
    lemma_diff_idempotent(screen, frame_of(w));
}

/// On an empty screen, a widget's first frame is painted in full: one update
/// per cell of the frame.
pub proof fn lemma_first_frame_of_widget<W: Paint + Clear + ?Sized>(w: &W)
    requires
        fits(w.spec_position(), w.spec_size()),
    ensures
        diff_of(Map::<Location, Painted>::empty(), frame_of(w)) == frame_of(w),
{
    lemma_frame_row_major(w);
    lemma_first_frame_paints_all(frame_of(w));
}

/// Something that can be drawn: its frame is produced from its content and
/// background.
pub trait View: Paint + Clear {
    /// The frame producer: walks the closed rectangle row by row, top to
    /// bottom and left to right, and lists the cell shown at each location.
    fn view(&self) -> (r: Vec<TermPixel>)
        requires
            fits(self.spec_position(), self.spec_size()),
        ensures
            r@ == frame_of(self),
    {
        let (px, py) = self.position();
        let (w, h) = self.size();
        let x2: u32 = px as u32 + w as u32;
        let y2: u32 = py as u32 + h as u32;
        let mut cells: Vec<TermPixel> = Vec::new();
        let mut y: u32 = py as u32;
        while y <= y2
            invariant
                x2 == far_corner(self.spec_position(), self.spec_size()).0,
                y2 == far_corner(self.spec_position(), self.spec_size()).1,
                px == self.spec_position().0,
                py == self.spec_position().1,
                x2 <= u16::MAX,
                y2 <= u16::MAX,
                py <= y <= y2 + 1,
                cells@ == rows_cells(self, px as int, x2 as int, py as int, y as int),
            decreases y2 + 1 - y,
        {
            let ghost upper = cells@;
            let mut x: u32 = px as u32;
            while x <= x2
                invariant
                    x2 <= u16::MAX,
                    y <= y2 <= u16::MAX,
                    px <= x <= x2 + 1,
                    cells@ == upper + row_cells(self, y as u16, px as int, x as int),
                decreases x2 + 1 - x,
            {
                let location: Location = (x as u16, y as u16);
                let ghost before = cells@;
                match self.paint_ascii_for(&location) {
                    Some(glyph) => {
                        let style = self.paint_style_for(&location);
                        cells.push((location, glyph, style));
                    },
                    None => match self.clear_ascii_for(&location) {
                        Some(glyph) => {
                            let style = self.clear_style_for(&location);
                            cells.push((location, glyph, style));
                        },
                        None => {},
                    },
                }
                assert(((x + 1 - 1) as u16, y as u16) == location);
                assert(cells@ =~= upper + row_cells(self, y as u16, px as int, x + 1));
                x += 1;
            }
            assert(((y + 1 - 1) as u16) == y as u16);
            y += 1;
        }
        cells
    }
}

/// The widget's own step, run once per cycle after event handling. By
/// default it does nothing.
pub trait Update: Object + Sized {
    fn update(&mut self) -> (r: Result<(), Failure>)
        default_ensures
            r == Ok::<(), Failure>(()),
            *final(self) == *old(self),
    {
        Ok(())
    }
}

/// The widget's reaction to an event: it returns the next event to process.
/// Failing with `Failure::Interrupted` asks for a graceful shutdown. By
/// default the interrupt key asks for that, and every other event is taken
/// with nothing to follow.
pub trait EventHandler<T>: Sized {
    fn on_event(&mut self, event: &Event<T>) -> (r: Result<Event<T>, Failure>)
        default_ensures
            r == (match *event {
                Event::Input(input) => if is_interrupt_spec(input) {
                    Err::<Event<T>, Failure>(Failure::Interrupted)
                } else {
                    Ok(Event::NoOp)
                },
                _ => Ok(Event::NoOp),
            }),
            *final(self) == *old(self),
    {
        match event {
            Event::Input(input) => if is_interrupt(input) {
                Err(Failure::Interrupted)
            } else {
                Ok(Event::NoOp)
            },
            _ => Ok(Event::NoOp),
        }
    }
}

} // verus!
