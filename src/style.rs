use vstd::prelude::*;

verus! {

/// A terminal colour: the eight basic colours, a 256-colour palette index,
/// or a 24-bit colour.
#[derive(Clone, Copy, Debug, PartialEq, Eq, Structural)]
pub enum Colour {
    Black,
    Red,
    Green,
    Yellow,
    Blue,
    Purple,
    Cyan,
    White,
    Fixed(u8),
    RGB(u8, u8, u8),
}

/// How a glyph is drawn: optional foreground and background colours plus
/// text attributes. Two styles are equal exactly when all their parts are.
#[derive(Clone, Copy, Debug, PartialEq, Eq, Structural)]
pub struct Style {
    pub foreground: Option<Colour>,
    pub background: Option<Colour>,
    pub is_bold: bool,
    pub is_dimmed: bool,
    pub is_italic: bool,
    pub is_underline: bool,
    pub is_blink: bool,
    pub is_reverse: bool,
    pub is_hidden: bool,
    pub is_strikethrough: bool,
}

/// The style with no colour and no attribute set.
pub open spec fn plain_style() -> Style {
    Style {
        foreground: None,
        background: None,
        is_bold: false,
        is_dimmed: false,
        is_italic: false,
        is_underline: false,
        is_blink: false,
        is_reverse: false,
        is_hidden: false,
        is_strikethrough: false,
    }
}

impl Default for Style {
    fn default() -> (r: Style)
        ensures
            r == plain_style(),
    {
        Style::new()
    }
}

impl Style {
    /// The style with no colour and no attribute set.
    pub fn new() -> (r: Style)
        ensures
            r == plain_style(),
    {
        Style {
            foreground: None,
            background: None,
            is_bold: false,
            is_dimmed: false,
            is_italic: false,
            is_underline: false,
            is_blink: false,
            is_reverse: false,
            is_hidden: false,
            is_strikethrough: false,
        }
    }

    /// This style with the foreground colour set.
    pub fn fg(self, colour: Colour) -> (r: Style)
        ensures
            r == (Style { foreground: Some(colour), ..self }),
    {
        Style { foreground: Some(colour), ..self }
    }

    /// This style with the background colour set.
    pub fn on(self, colour: Colour) -> (r: Style)
        ensures
            r == (Style { background: Some(colour), ..self }),
    {
        Style { background: Some(colour), ..self }
    }

    /// This style made bold.
    pub fn bold(self) -> (r: Style)
        ensures
            r == (Style { is_bold: true, ..self }),
    {
        Style { is_bold: true, ..self }
    }

    /// This style with foreground and background swapped when drawn.
    pub fn reverse(self) -> (r: Style)
        ensures
            r == (Style { is_reverse: true, ..self }),
    {
        Style { is_reverse: true, ..self }
    }

    /// This style underlined.
    pub fn underline(self) -> (r: Style)
        ensures
            r == (Style { is_underline: true, ..self }),
    {
        Style { is_underline: true, ..self }
    }
}

} // verus!
