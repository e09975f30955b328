use vstd::prelude::*;

verus! {

/// Why a widget operation or a terminal operation did not complete.
#[derive(Clone, Debug)]
pub enum Failure {
    /// Not a fault: the widget asks for the session to shut down gracefully.
    Interrupted,
    /// An input/output fault, with its message; fatal to the session.
    Io(String),
}

/// How a session ended. Each outcome has its own process status.
#[derive(Clone, Copy, Debug, PartialEq, Eq, Structural)]
pub enum ExitCode {
    /// Stopped after the graceful shutdown path.
    OK,
    /// Stopped by a second interrupt, with no further widget code run.
    ForcefulStop,
    /// Stopped by a fatal fault.
    Failed,
}

impl ExitCode {
    /// The process status for this outcome.
    pub fn code(&self) -> (r: i32)
        ensures
            *self == ExitCode::OK <==> r == 0,
            *self == ExitCode::Failed <==> r == 1,
            *self == ExitCode::ForcefulStop <==> r == 130,
    {
        match self {
            ExitCode::OK => 0,
            ExitCode::ForcefulStop => 130,
            ExitCode::Failed => 1,
        }
    }
}

} // verus!
