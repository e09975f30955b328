use vstd::prelude::*;
use std::collections::HashMap;
use crate::object::{Location, TermPixel};
use crate::style::Style;

verus! {

broadcast use vstd::std_specs::hash::group_hash_axioms;

/// What the screen shows at one location: a glyph and its style.
pub type Painted = (char, Style);

/// The key under which a location's cell is kept: row-major, one `u32` per
/// location, so that distinct locations have distinct keys.
pub open spec fn cell_key(location: Location) -> u32 {
    (location.1 * 0x1_0000 + location.0) as u32
}

/// Whether the screen already shows `cell`.
pub open spec fn shows(screen: Map<Location, Painted>, cell: TermPixel) -> bool {
    screen.contains_key(cell.0) && screen[cell.0] == (cell.1, cell.2)
}

/// The screen after painting every cell of `frame` in order.
pub open spec fn painted(screen: Map<Location, Painted>, frame: Seq<TermPixel>) -> Map<
    Location,
    Painted,
>
    decreases frame.len(),
{
    if frame.len() == 0 {
        screen
    } else {
        let cell = frame.last();
        painted(screen, frame.drop_last()).insert(cell.0, (cell.1, cell.2))
    }
}

/// The updates that painting `frame` over `screen` emits, in frame order: each
/// cell that the screen, as painted so far, does not already show.
pub open spec fn diff_of(screen: Map<Location, Painted>, frame: Seq<TermPixel>) -> Seq<TermPixel>
    decreases frame.len(),
{
    if frame.len() == 0 {
        seq![]
    } else {
        let cell = frame.last();
        let earlier = diff_of(screen, frame.drop_last());
        if shows(painted(screen, frame.drop_last()), cell) {
            earlier
        } else {
            earlier.push(cell)
        }
    }
}

/// No location occurs twice in `frame`.
pub open spec fn distinct_locations(frame: Seq<TermPixel>) -> bool {
    forall|i: int, j: int| 0 <= i < j < frame.len() ==> frame[i].0 != frame[j].0
}

/// Painting a frame leaves untouched every location that the frame does not
/// mention.
pub proof fn lemma_painted_elsewhere(screen: Map<Location, Painted>, frame: Seq<TermPixel>, l: Location)
    requires
        forall|i: int| 0 <= i < frame.len() ==> frame[i].0 != l,
    ensures
        painted(screen, frame).contains_key(l) == screen.contains_key(l),
        painted(screen, frame).contains_key(l) ==> painted(screen, frame)[l] == screen[l],
    decreases frame.len(),
{
    if frame.len() > 0 {
        lemma_painted_elsewhere(screen, frame.drop_last(), l);
    }
}

/// After painting a frame with distinct locations, the screen shows every
/// cell of that frame.
pub proof fn lemma_painted_shows(screen: Map<Location, Painted>, frame: Seq<TermPixel>, i: int)
    requires
        distinct_locations(frame),
        0 <= i < frame.len(),
    ensures
        shows(painted(screen, frame), frame[i]),
    decreases frame.len(),
{
    let prefix = frame.drop_last();
    if i == frame.len() - 1 {
    } else {
        lemma_painted_shows(screen, prefix, i);
    }
}

/// On a frame with distinct locations, the diff engine emits exactly the
/// cells that the screen did not show before, in frame order.
pub proof fn lemma_diff_is_filter(screen: Map<Location, Painted>, frame: Seq<TermPixel>)
    requires
        distinct_locations(frame),
    ensures
        diff_of(screen, frame) == frame.filter(|c: TermPixel| !shows(screen, c)),
    decreases frame.len(),
{
    reveal(Seq::filter);
    if frame.len() > 0 {
        let prefix = frame.drop_last();
        lemma_diff_is_filter(screen, prefix);
        lemma_painted_elsewhere(screen, prefix, frame.last().0);
    }
}

/// Idempotence: once a frame with distinct locations has been painted,
/// diffing the same frame again emits nothing and changes nothing.
pub proof fn lemma_diff_idempotent(screen: Map<Location, Painted>, frame: Seq<TermPixel>)
    requires
        distinct_locations(frame),
    ensures
        diff_of(painted(screen, frame), frame) == Seq::<TermPixel>::empty(),
        painted(painted(screen, frame), frame) == painted(screen, frame),
{
    let once = painted(screen, frame);
    let unseen = |c: TermPixel| !shows(once, c);
    lemma_diff_is_filter(once, frame);
    assert forall|i: int| 0 <= i < frame.len() implies !unseen(frame[i]) by {
        lemma_painted_shows(screen, frame, i);
    }
    lemma_filter_none(frame, unseen);
    lemma_repaint_shown(once, frame);
}

/// Painting cells that the screen already shows leaves it as it was.
proof fn lemma_repaint_shown(screen: Map<Location, Painted>, frame: Seq<TermPixel>)
    requires
        forall|i: int| 0 <= i < frame.len() ==> shows(screen, frame[i]),
    ensures
        painted(screen, frame) == screen,
    decreases frame.len(),
{
    if frame.len() > 0 {
        let prefix = frame.drop_last();
        lemma_repaint_shown(screen, prefix);
        let cell = frame.last();
        assert(shows(screen, frame[frame.len() - 1]));
        assert(screen.insert(cell.0, (cell.1, cell.2)) =~= screen);
    }
}

proof fn lemma_filter_none(frame: Seq<TermPixel>, keep: spec_fn(TermPixel) -> bool)
    requires
        forall|i: int| 0 <= i < frame.len() ==> !keep(frame[i]),
    ensures
        frame.filter(keep) == Seq::<TermPixel>::empty(),
    decreases frame.len(),
{
    reveal(Seq::filter);
    if frame.len() > 0 {
        lemma_filter_none(frame.drop_last(), keep);
        assert(!keep(frame[frame.len() - 1]));
    }
    else {
        assert(frame.filter(keep) =~= Seq::<TermPixel>::empty());
    }
}

proof fn lemma_filter_all(frame: Seq<TermPixel>, keep: spec_fn(TermPixel) -> bool)
    requires
        forall|i: int| 0 <= i < frame.len() ==> keep(frame[i]),
    ensures
        frame.filter(keep) == frame,
    decreases frame.len(),
{
    reveal(Seq::filter);
    if frame.len() > 0 {
        lemma_filter_all(frame.drop_last(), keep);
        assert(keep(frame[frame.len() - 1]));
        assert(frame.drop_last().push(frame.last()) =~= frame);
    }
}

proof fn lemma_filter_one(frame: Seq<TermPixel>, keep: spec_fn(TermPixel) -> bool, k: int)
    requires
        0 <= k < frame.len(),
        keep(frame[k]),
        forall|i: int| 0 <= i < frame.len() && i != k ==> !keep(frame[i]),
    ensures
        frame.filter(keep) == seq![frame[k]],
    decreases frame.len(),
{
    reveal(Seq::filter);
    let prefix = frame.drop_last();
    if k == frame.len() - 1 {
        lemma_filter_none(prefix, keep);
        assert(seq![].push(frame[k]) =~= seq![frame[k]]);
    } else {
        lemma_filter_one(prefix, keep, k);
        assert(!keep(frame[frame.len() - 1]));
    }
}

/// First frame: on an empty screen, a frame with distinct locations is
/// painted in full, one update per cell, in frame order.
pub proof fn lemma_first_frame_paints_all(frame: Seq<TermPixel>)
    requires
        distinct_locations(frame),
    ensures
        diff_of(Map::<Location, Painted>::empty(), frame) == frame,
{
    let empty = Map::<Location, Painted>::empty();
    lemma_diff_is_filter(empty, frame);
    lemma_filter_all(frame, |c: TermPixel| !shows(empty, c));
}

/// Completeness: when a frame with distinct locations has been painted and
/// the next frame differs from it in the glyph of exactly one cell, the diff
/// engine emits exactly that cell, and the screen then shows its new glyph.
pub proof fn lemma_single_change(
    screen: Map<Location, Painted>,
    first: Seq<TermPixel>,
    next: Seq<TermPixel>,
    k: int,
)
    requires
        distinct_locations(first),
        next.len() == first.len(),
        0 <= k < next.len(),
        forall|i: int| 0 <= i < next.len() && i != k ==> next[i] == first[i],
        next[k].0 == first[k].0,
        next[k].2 == first[k].2,
        next[k].1 != first[k].1,
    ensures
        diff_of(painted(screen, first), next) == seq![next[k]],
        painted(painted(screen, first), next)[next[k].0] == (next[k].1, next[k].2),
{
    let once = painted(screen, first);
    let unseen = |c: TermPixel| !shows(once, c);
    assert(distinct_locations(next)) by {
        assert forall|i: int, j: int| 0 <= i < j < next.len() implies next[i].0 != next[j].0 by {
            assert(first[i].0 != first[j].0);
        }
    }
    lemma_diff_is_filter(once, next);
    assert forall|i: int| 0 <= i < next.len() && i != k implies !unseen(next[i]) by {
        lemma_painted_shows(screen, first, i);
    }
    lemma_painted_shows(screen, first, k);
    lemma_filter_one(next, unseen, k);
    lemma_painted_shows(once, next, k);
}

/// The last painted glyph and style of every location, for one session.
pub struct ScreenCache {
    cells: HashMap<u32, Painted>,
}

impl View for ScreenCache {
    type V = Map<Location, Painted>;

    closed spec fn view(&self) -> Map<Location, Painted> {
        Map::new(
            |l: Location| self.cells@.contains_key(cell_key(l)),
            |l: Location| self.cells@[cell_key(l)],
        )
    }
}

/// The key of `location` in the cache's table.
fn key_of(location: &Location) -> (r: u32)
    ensures
        r == cell_key(*location),
{
    location.1 as u32 * 0x1_0000 + location.0 as u32
}

proof fn lemma_cell_key_injective(a: Location, b: Location)
    ensures
        cell_key(a) == cell_key(b) ==> a == b,
{
}

impl ScreenCache {
    /// An empty cache: nothing has been painted.
    pub fn new() -> (r: ScreenCache)
        ensures
            r@ == Map::<Location, Painted>::empty(),
    {
        let r = ScreenCache { cells: HashMap::new() };
        assert(r@ =~= Map::<Location, Painted>::empty());
        r
    }

    /// What was last painted at `location`, if anything.
    pub fn get(&self, location: &Location) -> (r: Option<Painted>)
        ensures
            r == (if self@.contains_key(*location) {
                Some(self@[*location])
            } else {
                None
            }),
    {
        match self.cells.get(&key_of(location)) {
            Some(p) => Some(*p),
            None => None,
        }
    }

    /// The diff engine: compares `frame` with what was last painted and
    /// returns, in frame order, the cells whose glyph or style differ or that
    /// were never painted; records each of them as painted. Cells already
    /// shown are skipped and leave the cache as it was.
    pub fn diff(&mut self, frame: &Vec<TermPixel>) -> (updates: Vec<TermPixel>)
        ensures
            updates@ == diff_of(old(self)@, frame@),
            final(self)@ == painted(old(self)@, frame@),
    {
        let mut updates: Vec<TermPixel> = Vec::new();
        let mut i: usize = 0;
        while i < frame.len()
            invariant
                i <= frame.len(),
                updates@ == diff_of(old(self)@, frame@.take(i as int)),
                self@ == painted(old(self)@, frame@.take(i as int)),
            decreases frame.len() - i,
        {
            let (location, glyph, style) = frame[i];
            let key = key_of(&location);
            let same = match self.cells.get(&key) {
                Some(prev) => prev.0 == glyph && prev.1 == style,
                None => false,
            };
            let ghost before = self@;
            proof {
                assert(frame@.take(i + 1).drop_last() =~= frame@.take(i as int));
                assert(frame@.take(i + 1).last() == frame@[i as int]);
                assert(same == shows(before, frame@[i as int]));
            }
            if !same {
                updates.push((location, glyph, style));
                self.cells.insert(key, (glyph, style));
                proof {
                    assert forall|l: Location| cell_key(l) == key implies l == location by {
                        lemma_cell_key_injective(l, location);
                    }
                    assert(self@ =~= before.insert(location, (glyph, style)));
                }
            } else {
                assert(before.insert(location, (glyph, style)) =~= before);
            }
            i += 1;
        }
        assert(frame@.take(frame.len() as int) =~= frame@);
        updates
    }
}

} // verus!
