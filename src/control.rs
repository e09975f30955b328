use vstd::prelude::*;
use crate::event::{is_interrupt, is_interrupt_spec, Event, Input};
use crate::failure::{ExitCode, Failure};

verus! {

/// Where a session is in its life.
#[derive(Clone, Copy, Debug, PartialEq, Eq, Structural)]
pub enum Phase {
    /// Rendering and dispatching events.
    Running,
    /// Interrupted once: rendering and dispatch are suspended until the
    /// graceful stop completes or a second interrupt forces termination.
    Interrupted,
    /// Finished, with the given outcome.
    Stopped(ExitCode),
}

/// What the dispatch step decided.
#[derive(Debug)]
pub enum Dispatch<T> {
    /// Hand this event to the widget and settle its reply.
    Deliver(Event<T>),
    /// Nothing to do in this cycle.
    Skip,
    /// The session ends with this outcome.
    Exit(ExitCode),
}

/// The decisions of the render / poll / dispatch cycle, apart from the
/// widget and the terminal: the phase and the event waiting for dispatch.
#[derive(Debug)]
pub struct Controller<T> {
    pub phase: Phase,
    pub pending: Event<T>,
}

/// The state after one polled input (or none) was taken in.
pub open spec fn after_input<T>(c: Controller<T>, polled: Option<Input>) -> Controller<T> {
    match polled {
        None => c,
        Some(input) => if is_interrupt_spec(input) {
            match c.phase {
                Phase::Running => Controller { phase: Phase::Interrupted, pending: Event::Stop },
                Phase::Interrupted => Controller {
                    phase: Phase::Stopped(ExitCode::ForcefulStop),
                    pending: c.pending,
                },
                Phase::Stopped(_) => c,
            }
        } else {
            match c.phase {
                Phase::Running => Controller { phase: Phase::Running, pending: Event::Input(input) },
                _ => c,
            }
        },
    }
}

/// Whether taking in `polled` calls the widget once with `GracefulStop`.
pub open spec fn notifies<T>(c: Controller<T>, polled: Option<Input>) -> bool {
    match polled {
        Some(input) => is_interrupt_spec(input) && c.phase == Phase::Running,
        None => false,
    }
}

/// What the dispatch step does in state `c`.
pub open spec fn dispatch_of<T>(c: Controller<T>) -> Dispatch<T> {
    match c.phase {
        Phase::Stopped(code) => Dispatch::Exit(code),
        _ => match c.pending {
            Event::Stop => Dispatch::Exit(ExitCode::OK),
            _ => if c.phase == Phase::Running {
                Dispatch::Deliver(c.pending)
            } else {
                Dispatch::Skip
            },
        },
    }
}

/// The state after the dispatch step. A delivered event leaves nothing
/// pending until the widget's reply is settled.
pub open spec fn after_dispatch<T>(c: Controller<T>) -> Controller<T> {
    match dispatch_of(c) {
        Dispatch::Exit(code) => Controller { phase: Phase::Stopped(code), pending: c.pending },
        Dispatch::Deliver(_) => Controller { phase: c.phase, pending: Event::NoOp },
        Dispatch::Skip => c,
    }
}

/// The state after the widget's reply to a delivered event: its next event
/// is pending; the interrupt sentinel stops gracefully; any other failure is
/// fatal.
pub open spec fn after_reply<T>(c: Controller<T>, reply: Result<Event<T>, Failure>) -> Controller<T> {
    match reply {
        Ok(next) => Controller { phase: c.phase, pending: next },
        Err(Failure::Interrupted) => Controller {
            phase: Phase::Stopped(ExitCode::OK),
            pending: Event::NoOp,
        },
        Err(Failure::Io(_)) => Controller {
            phase: Phase::Stopped(ExitCode::Failed),
            pending: Event::NoOp,
        },
    }
}

/// The two-stage interrupt protocol. While running, a first interrupt asks
/// for exactly one widget call with `GracefulStop` and suspends the session;
/// the following dispatch then stops it with the graceful status and delivers
/// nothing. A second interrupt before that dispatch stops the session with the
/// forceful status instead: it asks for no widget call, and no dispatch after
/// it delivers anything. The two statuses differ.
pub proof fn lemma_interrupt_protocol<T>(c: Controller<T>, interrupt: Input)
    requires
        c.phase == Phase::Running,
        is_interrupt_spec(interrupt),
    ensures
        notifies(c, Some(interrupt)),
        after_input(c, Some(interrupt)).phase == Phase::Interrupted,
        after_input(c, Some(interrupt)).pending == Event::<T>::Stop,
        dispatch_of(after_input(c, Some(interrupt))) == Dispatch::<T>::Exit(ExitCode::OK),
        after_dispatch(after_input(c, Some(interrupt))).phase == Phase::Stopped(ExitCode::OK),
        !notifies(after_input(c, Some(interrupt)), Some(interrupt)),
        after_input(after_input(c, Some(interrupt)), Some(interrupt)).phase == Phase::Stopped(
            ExitCode::ForcefulStop,
        ),
        forall|later: Option<Input>|
            !notifies(after_input(after_input(c, Some(interrupt)), Some(interrupt)), later),
        dispatch_of(after_input(after_input(c, Some(interrupt)), Some(interrupt)))
            == Dispatch::<T>::Exit(ExitCode::ForcefulStop),
        ExitCode::OK != ExitCode::ForcefulStop,
{
}

impl<T> Controller<T> {
    /// A running controller with nothing pending.
    pub fn new() -> (r: Controller<T>)
        ensures
            r.phase == Phase::Running,
            r.pending == Event::<T>::NoOp,
    {
        Controller { phase: Phase::Running, pending: Event::NoOp }
    }

    /// Whether the render step draws in this state.
    pub fn renders(&self) -> (r: bool)
        ensures
            r == (self.phase == Phase::Running),
    {
        match self.phase {
            Phase::Running => true,
            _ => false,
        }
    }

    /// Whether the input device is to be polled in this cycle: while running
    /// with nothing pending, and while interrupted.
    pub fn awaits_input(&self) -> (r: bool)
        ensures
            r == (self.phase == Phase::Interrupted || (self.phase == Phase::Running
                && self.pending is NoOp)),
    {
        match self.phase {
            Phase::Running => match self.pending {
                Event::NoOp => true,
                _ => false,
            },
            Phase::Interrupted => true,
            Phase::Stopped(_) => false,
        }
    }

    /// Whether the session has ended, and how.
    pub fn exit_code(&self) -> (r: Option<ExitCode>)
        ensures
            r == (match self.phase {
                Phase::Stopped(code) => Some(code),
                _ => None,
            }),
    {
        match self.phase {
            Phase::Stopped(code) => Some(code),
            _ => None,
        }
    }

    /// Takes in what one poll of the input device gave. Returns whether the
    /// widget must now be called once with `GracefulStop`.
    pub fn take_input(&mut self, polled: Option<Input>) -> (notify: bool)
        ensures
            *final(self) == after_input(*old(self), polled),
            notify == notifies(*old(self), polled),
    {
        match polled {
            None => false,
            Some(input) => {
                if is_interrupt(&input) {
                    match self.phase {
                        Phase::Running => {
                            self.phase = Phase::Interrupted;
                            self.pending = Event::Stop;
                            true
                        },
                        Phase::Interrupted => {
                            self.phase = Phase::Stopped(ExitCode::ForcefulStop);
                            false
                        },
                        Phase::Stopped(_) => false,
                    }
                } else {
                    match self.phase {
                        Phase::Running => {
                            self.pending = Event::Input(input);
                        },
                        _ => {},
                    }
                    false
                }
            },
        }
    }

    /// The dispatch step: stop if a stop is pending, skip while interrupted,
    /// otherwise hand the pending event out for delivery.
    pub fn dispatch(&mut self) -> (d: Dispatch<T>)
        ensures
            d == dispatch_of(*old(self)),
            *final(self) == after_dispatch(*old(self)),
    {
        match self.phase {
            Phase::Stopped(code) => Dispatch::Exit(code),
            _ => {
                let stopping = match self.pending {
                    Event::Stop => true,
                    _ => false,
                };
                if stopping {
                    self.phase = Phase::Stopped(ExitCode::OK);
                    Dispatch::Exit(ExitCode::OK)
                } else if self.renders() {
                    let mut event = Event::NoOp;
                    std::mem::swap(&mut event, &mut self.pending);
                    Dispatch::Deliver(event)
                } else {
                    Dispatch::Skip
                }
            },
        }
    }

    /// Settles the widget's reply to a delivered event.
    pub fn settle(&mut self, reply: Result<Event<T>, Failure>)
        ensures
            *final(self) == after_reply(*old(self), reply),
    {
        match reply {
            Ok(next) => {
                self.pending = next;
            },
            Err(Failure::Interrupted) => {
                self.phase = Phase::Stopped(ExitCode::OK);
                self.pending = Event::NoOp;
            },
            Err(Failure::Io(_)) => {
                self.phase = Phase::Stopped(ExitCode::Failed);
                self.pending = Event::NoOp;
            },
        }
    }
}

} // verus!
