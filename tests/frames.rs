use termpixels::object::{Location, Object, Size, TermPixel};
use termpixels::screen::ScreenCache;
use termpixels::style::{Colour, Style};
use termpixels::widget::{Clear, Paint, View};

struct Marker {
    position: Location,
    size: Size,
    mark: char,
}

impl Marker {
    fn mark_at(&self, location: &Location) -> char {
        if self.is_center(location) {
            self.mark
        } else {
            ' '
        }
    }
}

impl Object for Marker {
    fn spec_position(&self) -> Location {
        self.position
    }
    fn spec_size(&self) -> Size {
        self.size
    }
    fn position(&self) -> Location {
        self.position
    }
    fn set_position(&mut self, location: &Location) {
        self.position = *location;
    }
    fn size(&self) -> Size {
        self.size
    }
    fn set_size(&mut self, size: &Size) {
        self.size = *size;
    }
}

impl Paint for Marker {
    fn paint_ascii(&self, location: Location) -> Option<char> {
        Some(self.mark_at(&location))
    }
    fn paint_style(&self, _location: Location) -> Style {
        Style::default()
    }
    fn paint_ascii_for(&self, location: &Location) -> Option<char> {
        Some(self.mark_at(location))
    }
    fn paint_style_for(&self, _location: &Location) -> Style {
        Style::default()
    }
}

impl Clear for Marker {
    fn clear_ascii(&self, _location: Location) -> Option<char> {
        Some(' ')
    }
    fn clear_style(&self, _location: Location) -> Style {
        Style::default()
    }
    fn clear_ascii_for(&self, _location: &Location) -> Option<char> {
        Some(' ')
    }
    fn clear_style_for(&self, _location: &Location) -> Style {
        Style::default()
    }
}

impl View for Marker {}

/// Paints only the diagonal; clears nothing.
struct Diagonal {
    position: Location,
    size: Size,
}

impl Object for Diagonal {
    fn spec_position(&self) -> Location {
        self.position
    }
    fn spec_size(&self) -> Size {
        self.size
    }
    fn position(&self) -> Location {
        self.position
    }
    fn set_position(&mut self, location: &Location) {
        self.position = *location;
    }
    fn size(&self) -> Size {
        self.size
    }
    fn set_size(&mut self, size: &Size) {
        self.size = *size;
    }
}

impl Paint for Diagonal {
    fn paint_ascii(&self, location: Location) -> Option<char> {
        self.paint_ascii_for(&location)
    }
    fn paint_style(&self, _location: Location) -> Style {
        Style::default().bold()
    }
    fn paint_ascii_for(&self, location: &Location) -> Option<char> {
        if location.0 - self.position.0 == location.1 - self.position.1 {
            Some('\\')
        } else {
            None
        }
    }
    fn paint_style_for(&self, _location: &Location) -> Style {
        Style::default().bold()
    }
}

impl Clear for Diagonal {
    fn clear_ascii(&self, _location: Location) -> Option<char> {
        None
    }
    fn clear_style(&self, _location: Location) -> Style {
        Style::default()
    }
    fn clear_ascii_for(&self, _location: &Location) -> Option<char> {
        None
    }
    fn clear_style_for(&self, _location: &Location) -> Style {
        Style::default()
    }
}

impl View for Diagonal {}

fn marker() -> Marker {
    Marker { position: (1, 1), size: (3, 1), mark: 'x' }
}

fn cell(x: u16, y: u16, glyph: char) -> TermPixel {
    ((x, y), glyph, Style::default())
}

#[test]
fn frame_covers_inclusive_rectangle_row_major() {
    let frame = marker().view();
    let locations: Vec<Location> = frame.iter().map(|c| c.0).collect();
    assert_eq!(
        locations,
        vec![(1, 1), (2, 1), (3, 1), (4, 1), (1, 2), (2, 2), (3, 2), (4, 2)]
    );
    assert_eq!(frame[1], cell(2, 1, 'x'));
    assert_eq!(frame[0], cell(1, 1, ' '));
}

#[test]
fn frame_skips_locations_without_glyph() {
    let d = Diagonal { position: (3, 3), size: (2, 2) };
    let frame = d.view();
    let bold = Style::default().bold();
    assert_eq!(
        frame,
        vec![((3, 3), '\\', bold), ((4, 4), '\\', bold), ((5, 5), '\\', bold)]
    );
}

#[test]
fn marker_widget_scenario() {
    let mut widget = marker();
    let mut screen = ScreenCache::new();
    let first = screen.diff(&widget.view());
    assert_eq!(first.len(), 8);
    let second = screen.diff(&widget.view());
    assert_eq!(second.len(), 0);
    let third = screen.diff(&widget.view());
    assert_eq!(third.len(), 0);
    widget.mark = 'y';
    let changed = screen.diff(&widget.view());
    assert_eq!(changed, vec![cell(2, 1, 'y')]);
    assert_eq!(screen.get(&(2, 1)), Some(('y', Style::default())));
}

#[test]
fn diff_twice_emits_nothing_the_second_time() {
    let frame = vec![cell(5, 5, 'a'), cell(6, 5, 'b'), cell(5, 6, 'c')];
    let mut screen = ScreenCache::new();
    assert_eq!(screen.diff(&frame), frame);
    assert_eq!(screen.diff(&frame), vec![]);
}

#[test]
fn diff_single_glyph_change() {
    let first = vec![cell(1, 1, 'a'), cell(2, 1, 'b'), cell(3, 1, 'c')];
    let next = vec![cell(1, 1, 'a'), cell(2, 1, 'z'), cell(3, 1, 'c')];
    let mut screen = ScreenCache::new();
    screen.diff(&first);
    assert_eq!(screen.diff(&next), vec![cell(2, 1, 'z')]);
    assert_eq!(screen.get(&(2, 1)), Some(('z', Style::default())));
    assert_eq!(screen.get(&(1, 1)), Some(('a', Style::default())));
}

#[test]
fn diff_style_change_is_an_update() {
    let first = vec![cell(1, 1, 'a')];
    let red = Style::default().fg(Colour::Red);
    let next = vec![((1, 1), 'a', red)];
    let mut screen = ScreenCache::new();
    screen.diff(&first);
    assert_eq!(screen.diff(&next), next);
    assert_eq!(screen.get(&(1, 1)), Some(('a', red)));
}

#[test]
fn diff_first_frame_paints_every_cell() {
    let d = Diagonal { position: (0, 0), size: (4, 4) };
    let frame = d.view();
    let mut screen = ScreenCache::new();
    assert_eq!(screen.diff(&frame), frame);
}

#[test]
fn diff_empty_frame_and_untouched_locations() {
    let mut screen = ScreenCache::new();
    assert_eq!(screen.diff(&vec![]), vec![]);
    screen.diff(&vec![cell(7, 7, 'q')]);
    assert_eq!(screen.get(&(7, 8)), None);
    assert_eq!(screen.get(&(8, 7)), None);
    assert_eq!(screen.get(&(7, 7)), Some(('q', Style::default())));
}

#[test]
fn diff_keys_distinct_at_extremes() {
    let mut screen = ScreenCache::new();
    let frame = vec![cell(65535, 0, 'a'), cell(0, 1, 'b'), cell(65535, 65535, 'c')];
    assert_eq!(screen.diff(&frame), frame);
    assert_eq!(screen.get(&(65535, 0)), Some(('a', Style::default())));
    assert_eq!(screen.get(&(0, 1)), Some(('b', Style::default())));
}

#[test]
fn style_builders() {
    let s = Style::new().fg(Colour::Green).on(Colour::Fixed(8)).bold().underline().reverse();
    assert_eq!(s.foreground, Some(Colour::Green));
    assert_eq!(s.background, Some(Colour::Fixed(8)));
    assert!(s.is_bold && s.is_underline && s.is_reverse);
    assert!(!s.is_italic);
    assert_eq!(Style::default(), Style::new());
}
