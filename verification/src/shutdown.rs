use vstd::prelude::*;

verus! {

/// What the framework's blocking run loop reported when it gave control
/// back: a normal return at application shutdown, or a failure to start
/// (for example a window-system initialization failure).
#[derive(Clone, Copy, Debug, PartialEq, Eq, Structural)]
pub enum RunOutcome {
    Completed,
    Failed,
}

/// How the process ends once the run loop has reported its outcome.
#[derive(Clone, Copy, Debug, PartialEq, Eq, Structural)]
pub enum Termination {
    /// Return normally from the bootstrap.
    NormalExit,
    /// Terminate the process with the fixed fatal diagnostic.
    FatalAbort,
}

/// Decides how the process ends for a run-loop outcome: fail fast on any
/// run-loop failure, with no retry and no fallback, and return normally
/// otherwise.
pub fn termination_for(outcome: RunOutcome) -> (t: Termination)
    ensures
        t == Termination::FatalAbort <==> outcome == RunOutcome::Failed,
        t == Termination::NormalExit <==> outcome == RunOutcome::Completed,
{
    match outcome {
        RunOutcome::Completed => Termination::NormalExit,
        RunOutcome::Failed => Termination::FatalAbort,
    }
}

/// The fixed diagnostic carried by the fatal abort path.
pub fn fatal_diagnostic() -> (s: &'static str)
    ensures
        s@ == "error while running tauri application"@,
{
    "error while running tauri application"
}

} // verus!
