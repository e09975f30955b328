use vstd::prelude::*;

verus! {

/// A mouse button, as reported with a press.
#[derive(Clone, Copy, Debug, PartialEq, Eq, Structural)]
pub enum MouseButton {
    Left,
    Right,
    Middle,
    WheelUp,
    WheelDown,
}

/// A mouse event at a 1-based (column, row) cell.
#[derive(Clone, Copy, Debug, PartialEq, Eq, Structural)]
pub enum Mouse {
    Press(MouseButton, u16, u16),
    Release(u16, u16),
    Hold(u16, u16),
}

/// A key press, with its modifier where it has one.
#[derive(Clone, Copy, Debug, PartialEq, Eq, Structural)]
pub enum Key {
    Backspace,
    Left,
    Right,
    Up,
    Down,
    Home,
    End,
    PageUp,
    PageDown,
    BackTab,
    Delete,
    Insert,
    F(u8),
    Char(char),
    Alt(char),
    Ctrl(char),
    Null,
    Esc,
}

/// One decoded event of the input device.
#[derive(Clone, Debug, PartialEq, Eq)]
pub enum Input {
    Key(Key),
    Mouse(Mouse),
    Unsupported(Vec<u8>),
}

/// What the controller hands to a widget, and what a widget hands back.
/// `Msg` carries a payload of the application's own.
#[derive(Clone, Debug, PartialEq)]
pub enum Event<T> {
    NoOp,
    Input(Input),
    Msg(T),
    GracefulStop,
    Stop,
}

/// Whether an input is the interrupt signal (Ctrl-C).
pub open spec fn is_interrupt_spec(input: Input) -> bool {
    input == Input::Key(Key::Ctrl('c'))
}

/// Whether an input is the interrupt signal (Ctrl-C).
pub fn is_interrupt(input: &Input) -> (r: bool)
    ensures
        r == is_interrupt_spec(*input),
{
    match input {
        Input::Key(Key::Ctrl(c)) => *c == 'c',
        _ => false,
    }
}

} // verus!
