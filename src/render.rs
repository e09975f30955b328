use vstd::prelude::*;
use vstd::view::View as _;
use crate::canvas::{corners, Canvas};
use crate::failure::Failure;
use crate::types::{Model, Position, TermPixel, View};
use crate::widget::row_major_before;

verus! {

/// Whether `p` lies in the closed rectangle from `a` to `b`.
pub open spec fn in_rect(a: Position, b: Position, p: Position) -> bool {
    a.0 <= p.0 <= b.0 && a.1 <= p.1 <= b.1
}

/// Whether a call of `view` at `p` may come back with nothing to show.
pub open spec fn shows_nothing<C: Canvas, M: Model, V: View<C, M>>(
    canvas: &C,
    model: &M,
    view: &V,
    p: Position,
) -> bool {
    view.ensures((canvas, model, &p), Ok(None))
}

/// Whether a call of `view` at `p` may come back without failing.
pub open spec fn answered<C: Canvas, M: Model, V: View<C, M>>(
    canvas: &C,
    model: &M,
    view: &V,
    p: Position,
) -> bool {
    exists|o: Option<TermPixel>| #[trigger] view.ensures((canvas, model, &p), Ok(o))
}

/// `p` is a position of the rectangle from `a` to `b` where `view` may fail
/// with `failure`, and `view` may answer without failing at every position
/// of the rectangle before `p` in row-major order.
pub open spec fn first_failure<C: Canvas, M: Model, V: View<C, M>>(
    canvas: &C,
    model: &M,
    view: &V,
    a: Position,
    b: Position,
    p: Position,
    failure: Failure,
) -> bool {
    &&& in_rect(a, b, p)
    &&& view.ensures((canvas, model, &p), Err(failure))
    &&& forall|q: Position|
        in_rect(a, b, q) && row_major_before(q, p) ==> #[trigger] answered(canvas, model, view, q)
}

/// `view` may fail with `failure` at some position of the rectangle from `a`
/// to `b`, after answering without failing at every earlier position in
/// row-major order.
pub open spec fn fails_first_with<C: Canvas, M: Model, V: View<C, M>>(
    canvas: &C,
    model: &M,
    view: &V,
    a: Position,
    b: Position,
    failure: Failure,
) -> bool {
    exists|p: Position| #[trigger] first_failure(canvas, model, view, a, b, p, failure)
}

/// Whether some entry of `cells` is at `p`.
pub open spec fn listed(cells: Seq<(Position, TermPixel)>, p: Position) -> bool {
    exists|i: int| 0 <= i < cells.len() && (#[trigger] cells[i]).0 == p
}

/// Asks `view` for every position of the canvas's closed rectangle, rows top
/// to bottom and each row left to right, and lists the positions that show a
/// glyph, with that glyph; a position where `view` shows nothing is left
/// out. Fails where a corner of the canvas cannot be had, and otherwise with
/// the failure of `view` at the first position, in that order, where it
/// fails.
pub fn render<C: Canvas, M: Model, V: View<C, M>>(canvas: &C, model: &M, view: &V) -> (r: Result<
    Vec<(Position, TermPixel)>,
    Failure,
>)
    requires
        forall|p: Position| view.requires((canvas, model, &p)),
    ensures
        match corners(canvas.spec_top_left(), canvas.spec_bottom_right()) {
            None => r is Err,
            Some((a, b)) => match r {
                Ok(cells) => {
                    &&& forall|i: int|
                        0 <= i < cells.len() ==> {
                            &&& in_rect(a, b, (#[trigger] cells[i]).0)
                            &&& view.ensures((canvas, model, &cells[i].0), Ok(Some(cells[i].1)))
                        }
                    &&& forall|i: int, j: int|
                        0 <= i < j < cells.len() ==> row_major_before(
                            (#[trigger] cells[i]).0,
                            (#[trigger] cells[j]).0,
                        )
                    &&& forall|p: Position|
                        in_rect(a, b, p) && !#[trigger] listed(cells@, p) ==> shows_nothing(
                            canvas,
                            model,
                            view,
                            p,
                        )
                },
                Err(failure) => fails_first_with(canvas, model, view, a, b, failure),
            },
        },
{
    let mut cells: Vec<(Position, TermPixel)> = Vec::new();
    let (x1, y1) = match canvas.top_left_corner() {
        Ok(p) => p,
        Err(e) => return Err(e),
    };
    let (x2, y2) = match canvas.bottom_right_corner() {
        Ok(p) => p,
        Err(e) => return Err(e),
    };
    let ghost a: Position = (x1, y1);
    let ghost b: Position = (x2, y2);
    let mut y: u32 = y1 as u32;
    while y <= y2 as u32
        invariant
            forall|p: Position| view.requires((canvas, model, &p)),
            canvas.spec_top_left() == Some(a),
            canvas.spec_bottom_right() == Some(b),
            a == (x1, y1),
            b == (x2, y2),
            y1 <= y <= 0x1_0000,
            forall|i: int|
                0 <= i < cells.len() ==> {
                    &&& in_rect(a, b, (#[trigger] cells[i]).0)
                    &&& cells[i].0.1 < y
                    &&& view.ensures((canvas, model, &cells[i].0), Ok(Some(cells[i].1)))
                },
            forall|i: int, j: int|
                0 <= i < j < cells.len() ==> row_major_before(
                    (#[trigger] cells[i]).0,
                    (#[trigger] cells[j]).0,
                ),
            forall|p: Position|
                in_rect(a, b, p) && p.1 < y && !#[trigger] listed(cells@, p) ==> shows_nothing(
                    canvas,
                    model,
                    view,
                    p,
                ),
            forall|p: Position|
                in_rect(a, b, p) && p.1 < y ==> #[trigger] answered(canvas, model, view, p),
        decreases 0x1_0000 - y,
    {
        let mut x: u32 = x1 as u32;
        while x <= x2 as u32
            invariant
                forall|p: Position| view.requires((canvas, model, &p)),
                canvas.spec_top_left() == Some(a),
                canvas.spec_bottom_right() == Some(b),
                a == (x1, y1),
                b == (x2, y2),
                y1 <= y <= y2,
                x1 <= x <= 0x1_0000,
                forall|i: int|
                    0 <= i < cells.len() ==> {
                        &&& in_rect(a, b, (#[trigger] cells[i]).0)
                        &&& cells[i].0.1 <= y
                        &&& (cells[i].0.1 == y ==> cells[i].0.0 < x)
                        &&& view.ensures((canvas, model, &cells[i].0), Ok(Some(cells[i].1)))
                    },
                forall|i: int, j: int|
                    0 <= i < j < cells.len() ==> row_major_before(
                        (#[trigger] cells[i]).0,
                        (#[trigger] cells[j]).0,
                    ),
                forall|p: Position|
                    in_rect(a, b, p) && (p.1 < y || (p.1 == y && p.0 < x)) && !#[trigger] listed(
                        cells@,
                        p,
                    ) ==> shows_nothing(canvas, model, view, p),
                forall|p: Position|
                    in_rect(a, b, p) && (p.1 < y || (p.1 == y && p.0 < x)) ==> #[trigger] answered(
                        canvas,
                        model,
                        view,
                        p,
                    ),
            decreases 0x1_0000 - x,
        {
            let p: Position = (x as u16, y as u16);
            let shown = view(canvas, model, &p);
            let ghost before = cells@;
            match shown {
                Ok(Some(tp)) => {
                    cells.push((p, tp));
                    proof {
                        assert(cells@[before.len() as int].0 == p);
                        assert(listed(cells@, p));
                        assert(answered(canvas, model, view, p));
                    }
                },
                Ok(None) => {
                    assert(shows_nothing(canvas, model, view, p));
                    assert(answered(canvas, model, view, p));
                },
                Err(e) => {
                    proof {
                        assert forall|q: Position|
                            in_rect(a, b, q) && row_major_before(q, p) implies #[trigger] answered(
                            canvas,
                            model,
                            view,
                            q,
                        ) by {}
                        assert(first_failure(canvas, model, view, a, b, p, e));
                        assert(corners(canvas.spec_top_left(), canvas.spec_bottom_right()) == Some(
                            (a, b),
                        ));
                    }
                    assert(fails_first_with(canvas, model, view, a, b, e));
                    return Err(e);
                },
            }
            proof {
                assert forall|q: Position| #[trigger] listed(before, q) implies listed(cells@, q) by {
                    let i = choose|i: int| 0 <= i < before.len() && (#[trigger] before[i]).0 == q;
                    assert(cells@[i] == before[i]);
                }
                assert forall|q: Position|
                    in_rect(a, b, q) && (q.1 < y || (q.1 == y && q.0 < x + 1)) && !#[trigger] listed(
                        cells@,
                        q,
                    ) implies shows_nothing(canvas, model, view, q) by {
                    if q.1 == y && q.0 == x {
                        assert(q == p);
                    } else {
                        assert(!listed(before, q));
                    }
                }
                assert forall|q: Position|
                    in_rect(a, b, q) && (q.1 < y || (q.1 == y && q.0 < x + 1)) implies #[trigger] answered(
                    canvas,
                    model,
                    view,
                    q,
                ) by {
                    if q.1 == y && q.0 == x {
                        assert(q == p);
                    }
                }
            }
            x += 1;
        }
        y += 1;
    }
    Ok(cells)
}

} // verus!
