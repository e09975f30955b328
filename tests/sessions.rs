use termpixels::control::{Controller, Dispatch, Phase};
use termpixels::event::{is_interrupt, Event, Input, Key, Mouse, MouseButton};
use termpixels::failure::{ExitCode, Failure};
use termpixels::object::{Location, Object, Size};
use termpixels::session::Session;
use termpixels::style::Style;
use termpixels::widget::{Clear, EventHandler, Paint, Update, View};

/// Counts what it is told; answers each key with a message of its code,
/// stops on `q`, fails on `!`.
struct Counter {
    position: Location,
    size: Size,
    seen: Vec<Event<u32>>,
    updates: u32,
}

impl Object for Counter {
    fn spec_position(&self) -> Location {
        self.position
    }
    fn spec_size(&self) -> Size {
        self.size
    }
    fn position(&self) -> Location {
        self.position
    }
    fn set_position(&mut self, location: &Location) {
        self.position = *location;
    }
    fn size(&self) -> Size {
        self.size
    }
    fn set_size(&mut self, size: &Size) {
        self.size = *size;
    }
}

impl Paint for Counter {
    fn paint_ascii(&self, _location: Location) -> Option<char> {
        char::from_digit(self.seen.len() as u32 % 10, 10)
    }
    fn paint_style(&self, _location: Location) -> Style {
        Style::default()
    }
    fn paint_ascii_for(&self, _location: &Location) -> Option<char> {
        char::from_digit(self.seen.len() as u32 % 10, 10)
    }
    fn paint_style_for(&self, _location: &Location) -> Style {
        Style::default()
    }
}

impl Clear for Counter {
    fn clear_ascii(&self, _location: Location) -> Option<char> {
        None
    }
    fn clear_style(&self, _location: Location) -> Style {
        Style::default()
    }
    fn clear_ascii_for(&self, _location: &Location) -> Option<char> {
        None
    }
    fn clear_style_for(&self, _location: &Location) -> Style {
        Style::default()
    }
}

impl View for Counter {}

impl Update for Counter {
    fn update(&mut self) -> Result<(), Failure> {
        self.updates += 1;
        Ok(())
    }
}

impl EventHandler<u32> for Counter {
    fn on_event(&mut self, event: &Event<u32>) -> Result<Event<u32>, Failure> {
        self.seen.push(event.clone());
        match event {
            Event::Input(Input::Key(Key::Char('q'))) => Err(Failure::Interrupted),
            Event::Input(Input::Key(Key::Char('!'))) => Err(Failure::Io(String::from("broken"))),
            Event::Input(Input::Key(Key::Char(c))) => Ok(Event::Msg(*c as u32)),
            _ => Ok(Event::NoOp),
        }
    }
}

fn session() -> Session<Counter, u32> {
    Session::new(Counter { position: (1, 1), size: (1, 0), seen: vec![], updates: 0 })
}

fn ctrl_c() -> Option<Input> {
    Some(Input::Key(Key::Ctrl('c')))
}

fn key(c: char) -> Option<Input> {
    Some(Input::Key(Key::Char(c)))
}

#[test]
fn interrupt_detection() {
    assert!(is_interrupt(&Input::Key(Key::Ctrl('c'))));
    assert!(!is_interrupt(&Input::Key(Key::Ctrl('d'))));
    assert!(!is_interrupt(&Input::Key(Key::Char('c'))));
    assert!(!is_interrupt(&Input::Mouse(Mouse::Press(MouseButton::Left, 1, 1))));
    assert!(!is_interrupt(&Input::Unsupported(vec![3])));
}

#[test]
fn first_interrupt_stops_gracefully_after_one_callback() {
    let mut s = session();
    assert_eq!(s.render_step().len(), 2);
    assert!(s.awaits_input());
    assert!(s.input_step(ctrl_c()).is_ok());
    assert_eq!(s.widget.seen, vec![Event::GracefulStop]);
    assert_eq!(s.control.phase, Phase::Interrupted);
    assert_eq!(s.render_step().len(), 0);
    assert_eq!(s.dispatch_step().unwrap(), Some(ExitCode::OK));
    assert_eq!(s.exit_code(), Some(ExitCode::OK));
    assert_eq!(s.widget.seen, vec![Event::GracefulStop]);
    assert_eq!(s.widget.updates, 0);
}

#[test]
fn second_interrupt_forces_stop_without_callback() {
    let mut s = session();
    s.render_step();
    assert!(s.input_step(ctrl_c()).is_ok());
    assert!(s.awaits_input());
    assert!(s.input_step(ctrl_c()).is_ok());
    assert_eq!(s.exit_code(), Some(ExitCode::ForcefulStop));
    assert_eq!(s.dispatch_step().unwrap(), Some(ExitCode::ForcefulStop));
    assert_eq!(s.widget.seen, vec![Event::GracefulStop]);
    assert_ne!(ExitCode::OK.code(), ExitCode::ForcefulStop.code());
    assert_ne!(ExitCode::Failed.code(), ExitCode::ForcefulStop.code());
    assert_eq!(ExitCode::OK.code(), 0);
}

#[test]
fn no_input_dispatches_no_op_and_updates() {
    let mut s = session();
    assert!(s.input_step(None).is_ok());
    assert_eq!(s.dispatch_step().unwrap(), None);
    assert_eq!(s.widget.seen, vec![Event::NoOp]);
    assert_eq!(s.widget.updates, 1);
    assert!(s.awaits_input());
}

#[test]
fn widget_messages_are_fed_back_before_polling() {
    let mut s = session();
    assert!(s.input_step(key('a')).is_ok());
    assert_eq!(s.dispatch_step().unwrap(), None);
    assert!(!s.awaits_input());
    assert_eq!(s.control.pending, Event::Msg('a' as u32));
    assert_eq!(s.dispatch_step().unwrap(), None);
    assert_eq!(
        s.widget.seen,
        vec![Event::Input(Input::Key(Key::Char('a'))), Event::Msg('a' as u32)]
    );
    assert!(s.awaits_input());
}

#[test]
fn render_repaints_only_changes() {
    let mut s = session();
    assert_eq!(s.render_step().len(), 2);
    assert_eq!(s.render_step().len(), 0);
    s.input_step(None).unwrap();
    s.dispatch_step().unwrap();
    let updates = s.render_step();
    assert_eq!(updates, vec![((1, 1), '1', Style::default()), ((2, 1), '1', Style::default())]);
}

#[test]
fn interrupt_sentinel_from_widget_stops_gracefully() {
    let mut s = session();
    s.input_step(key('q')).unwrap();
    assert_eq!(s.dispatch_step().unwrap(), Some(ExitCode::OK));
    assert_eq!(s.exit_code(), Some(ExitCode::OK));
    assert_eq!(s.widget.updates, 0);
}

#[test]
fn io_failure_from_widget_is_fatal() {
    let mut s = session();
    s.input_step(key('!')).unwrap();
    match s.dispatch_step() {
        Err(Failure::Io(message)) => assert_eq!(message, "broken"),
        other => panic!("expected a failure, got {:?}", other),
    }
    assert_eq!(s.exit_code(), Some(ExitCode::Failed));
    assert_eq!(s.dispatch_step().unwrap(), Some(ExitCode::Failed));
}

#[test]
fn controller_transitions() {
    let mut c: Controller<u32> = Controller::new();
    assert!(c.renders());
    assert!(c.awaits_input());
    assert!(!c.take_input(Some(Input::Mouse(Mouse::Hold(3, 4)))));
    assert_eq!(c.pending, Event::Input(Input::Mouse(Mouse::Hold(3, 4))));
    assert!(!c.awaits_input());
    match c.dispatch() {
        Dispatch::Deliver(e) => assert_eq!(e, Event::Input(Input::Mouse(Mouse::Hold(3, 4)))),
        other => panic!("expected a delivery, got {:?}", other),
    }
    assert_eq!(c.pending, Event::NoOp);
    c.settle(Ok(Event::Stop));
    match c.dispatch() {
        Dispatch::Exit(code) => assert_eq!(code, ExitCode::OK),
        other => panic!("expected an exit, got {:?}", other),
    }
    assert_eq!(c.phase, Phase::Stopped(ExitCode::OK));
    assert!(!c.take_input(ctrl_c()));
    assert_eq!(c.phase, Phase::Stopped(ExitCode::OK));
}

#[test]
fn interrupted_controller_skips_dispatch_and_ignores_input() {
    let mut c: Controller<u32> = Controller::new();
    c.phase = Phase::Interrupted;
    match c.dispatch() {
        Dispatch::Skip => {}
        other => panic!("expected a skip, got {:?}", other),
    }
    assert!(!c.renders());
    assert!(!c.take_input(key('x')));
    assert_eq!(c.pending, Event::NoOp);
    assert!(!c.take_input(ctrl_c()));
    assert_eq!(c.exit_code(), Some(ExitCode::ForcefulStop));
}

#[test]
fn into_widget_hands_back_state() {
    let mut s = session();
    s.input_step(None).unwrap();
    s.dispatch_step().unwrap();
    let w = s.into_widget();
    assert_eq!(w.updates, 1);
}
