use vstd::prelude::*;
use crate::control::{after_dispatch, after_input, after_reply, dispatch_of, notifies, Controller, Dispatch, Phase};
use crate::event::{Event, Input};
use crate::failure::{ExitCode, Failure};
use crate::object::{fits, TermPixel};
use crate::screen::{diff_of, painted, ScreenCache};
use crate::widget::{frame_of, EventHandler, Update};

verus! {

/// What the dispatch step reports for a widget's reply: carry on, stop
/// gracefully on the interrupt sentinel, or fail on any other failure.
pub open spec fn outcome_of<T>(reply: Result<Event<T>, Failure>) -> Result<Option<ExitCode>, Failure> {
    match reply {
        Ok(_) => Ok(None),
        Err(Failure::Interrupted) => Ok(Some(ExitCode::OK)),
        Err(Failure::Io(message)) => Err(Failure::Io(message)),
    }
}

/// One rendering session: the widget, the screen cache, and the controller.
/// The input device and the terminal stay outside: the caller polls, hands
/// over what it got, and writes the updates it is given.
pub struct Session<W, T> {
    pub widget: W,
    pub screen: ScreenCache,
    pub control: Controller<T>,
    /// Every event handed to the widget so far, in order.
    pub delivered: Ghost<Seq<Event<T>>>,
}

impl<T, W: crate::widget::View + Update + EventHandler<T>> Session<W, T> {
    /// A running session over `widget`, with an empty screen cache.
    pub fn new(widget: W) -> (r: Session<W, T>)
        ensures
            r.widget == widget,
            r.screen@ == Map::<crate::object::Location, crate::screen::Painted>::empty(),
            r.control.phase == Phase::Running,
            r.control.pending == Event::<T>::NoOp,
            r.delivered@ == Seq::<Event<T>>::empty(),
    {
        Session {
            widget,
            screen: ScreenCache::new(),
            control: Controller::new(),
            delivered: Ghost(Seq::empty()),
        }
    }

    /// The render step. While running: produces the widget's frame, diffs it
    /// against the screen cache and returns the updates to write, in
    /// row-major order. Otherwise returns no update and changes nothing.
    pub fn render_step(&mut self) -> (updates: Vec<TermPixel>)
        requires
            old(self).control.phase == Phase::Running ==> fits(
                old(self).widget.spec_position(),
                old(self).widget.spec_size(),
            ),
        ensures
            final(self).widget == old(self).widget,
            final(self).control == old(self).control,
            final(self).delivered == old(self).delivered,
            old(self).control.phase == Phase::Running ==> {
                &&& updates@ == diff_of(old(self).screen@, frame_of(&old(self).widget))
                &&& final(self).screen@ == painted(old(self).screen@, frame_of(&old(self).widget))
            },
            old(self).control.phase != Phase::Running ==> {
                &&& updates@ == Seq::<TermPixel>::empty()
                &&& final(self).screen@ == old(self).screen@
            },
    {
        if self.control.renders() {
            let frame = self.widget.view();
            self.screen.diff(&frame)
        } else {
            Vec::new()
        }
    }

    /// Whether the caller is to poll the input device in this cycle.
    pub fn awaits_input(&self) -> (r: bool)
        ensures
            r == (self.control.phase == Phase::Interrupted || (self.control.phase
                == Phase::Running && self.control.pending is NoOp)),
    {
        self.control.awaits_input()
    }

    /// The input step: takes in what one poll gave (`None` when nothing was
    /// available). A first interrupt calls the widget exactly once with
    /// `GracefulStop`; a failure of that call other than the interrupt
    /// sentinel is fatal and returned. Nothing else reaches the widget here.
    pub fn input_step(&mut self, polled: Option<Input>) -> (r: Result<(), Failure>)
        ensures
            notifies(old(self).control, polled) ==> final(self).delivered@ == old(
                self,
            ).delivered@.push(Event::GracefulStop),
            !notifies(old(self).control, polled) ==> {
                &&& final(self).delivered == old(self).delivered
                &&& final(self).widget == old(self).widget
                &&& r is Ok
            },
            final(self).screen == old(self).screen,
            r is Ok ==> final(self).control == after_input(old(self).control, polled),
            r matches Err(failure) ==> {
                &&& failure is Io
                &&& final(self).control.phase == Phase::Stopped(ExitCode::Failed)
            },
    {
        let notify = self.control.take_input(polled);
        if notify {
            let reply = self.widget.on_event(&Event::GracefulStop);
            self.delivered = Ghost(self.delivered@.push(Event::GracefulStop));
            match reply {
                Err(Failure::Io(message)) => {
                    self.control.phase = Phase::Stopped(ExitCode::Failed);
                    Err(Failure::Io(message))
                },
                _ => Ok(()),
            }
        } else {
            Ok(())
        }
    }

    /// The dispatch step: exits if a stop is pending or the session has
    /// ended, skips while interrupted, and otherwise hands the pending event
    /// to the widget, then runs the widget's own update. The widget's reply
    /// becomes the pending event; its interrupt sentinel stops the session
    /// gracefully; any other failure stops it as failed and is returned.
    pub fn dispatch_step(&mut self) -> (r: Result<Option<ExitCode>, Failure>)
        ensures
            final(self).screen == old(self).screen,
            match dispatch_of(old(self).control) {
                Dispatch::Exit(code) => {
                    &&& r == Ok::<Option<ExitCode>, Failure>(Some(code))
                    &&& final(self).control == after_dispatch(old(self).control)
                    &&& final(self).delivered == old(self).delivered
                    &&& final(self).widget == old(self).widget
                },
                Dispatch::Skip => {
                    &&& r == Ok::<Option<ExitCode>, Failure>(None)
                    &&& final(self).control == old(self).control
                    &&& final(self).delivered == old(self).delivered
                    &&& final(self).widget == old(self).widget
                },
                Dispatch::Deliver(event) => {
                    &&& final(self).delivered@ == old(self).delivered@.push(event)
                    &&& exists|reply: Result<Event<T>, Failure>|
                        {
                            &&& final(self).control == #[trigger] after_reply(
                                after_dispatch(old(self).control),
                                reply,
                            )
                            &&& r == outcome_of(reply)
                        }
                },
            },
    {
        match self.control.dispatch() {
            Dispatch::Exit(code) => Ok(Some(code)),
            Dispatch::Skip => Ok(None),
            Dispatch::Deliver(event) => {
                let ghost mid = self.control;
                let reply = match self.widget.on_event(&event) {
                    Ok(next) => match self.widget.update() {
                        Ok(()) => Ok(next),
                        Err(failure) => Err(failure),
                    },
                    Err(failure) => Err(failure),
                };
                self.delivered = Ghost(self.delivered@.push(event));
                let ghost settled = reply;
                match reply {
                    Ok(next) => {
                        self.control.settle(Ok(next));
                        assert(self.control == after_reply(mid, settled));
                        Ok(None)
                    },
                    Err(Failure::Interrupted) => {
                        self.control.settle(Err(Failure::Interrupted));
                        assert(self.control == after_reply(mid, settled));
                        Ok(Some(ExitCode::OK))
                    },
                    Err(Failure::Io(message)) => {
                        self.control.phase = Phase::Stopped(ExitCode::Failed);
                        self.control.pending = Event::NoOp;
                        assert(self.control == after_reply(mid, settled));
                        Err(Failure::Io(message))
                    },
                }
            },
        }
    }

    /// Whether the session has ended, and how.
    pub fn exit_code(&self) -> (r: Option<ExitCode>)
        ensures
            r == (match self.control.phase {
                Phase::Stopped(code) => Some(code),
                _ => None,
            }),
    {
        self.control.exit_code()
    }

    /// Ends the session, dropping the screen cache, and hands the widget back.
    pub fn into_widget(self) -> (r: W)
        ensures
            r == self.widget,
    {
        self.widget
    }
}

} // verus!
