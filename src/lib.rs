//! A character-cell terminal rendering engine: widgets describe their content
//! per screen location, frames are diffed against what was last painted, and a
//! controller drives the render / poll / dispatch cycle with a two-stage
//! interrupt protocol.
pub mod style;
pub mod event;
pub mod failure;
pub mod object;
pub mod border;
pub mod screen;
pub mod widget;
pub mod control;
pub mod session;
pub mod types;
pub mod canvas;
pub mod render;
pub mod views;
