use vstd::prelude::*;
use crate::canvas::Canvas;
use crate::event::Event;
use crate::failure::Failure;
use crate::style::Style;

verus! {

/// A 1-based (x, y) screen position.
pub type Position = (u16, u16);

/// A (width, height) extent.
pub type Size = (u16, u16);

/// A glyph and the style it is drawn in.
pub type TermPixel = (char, Style);

/// Any state that an application renders from.
pub trait Model: Sized {}

impl<T: Sized> Model for T {}

/// Builds the canvas and the initial model of an application.
pub trait Init<C: Canvas, M: Model>: Fn() -> Result<(C, M), Failure> {}

impl<T, C, M> Init<C, M> for T where C: Canvas, M: Model, T: Fn() -> Result<(C, M), Failure> {}

/// What an application shows at a position of its canvas, if anything.
pub trait View<C: Canvas, M: Model>: Fn(&C, &M, &Position) -> Result<Option<TermPixel>, Failure> {}

impl<T, C, M> View<C, M> for T where
    C: Canvas,
    M: Model,
    T: Fn(&C, &M, &Position) -> Result<Option<TermPixel>, Failure>,
 {}

/// An application's reaction to an event: it may change the model and
/// returns the next event to process.
pub trait Update<C: Canvas, M: Model, E>: Fn(&C, &mut M, &Event<E>) -> Result<Event<E>, Failure> {}

impl<T, C, M, E> Update<C, M, E> for T where
    C: Canvas,
    M: Model,
    T: Fn(&C, &mut M, &Event<E>) -> Result<Event<E>, Failure>,
 {}

} // verus!
