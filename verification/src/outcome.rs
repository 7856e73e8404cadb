//! How a run ends, and the exit code the launcher reports for it.

use vstd::prelude::*;

verus! {

/// Exit code of a run that did what it was asked.
pub const EXIT_SUCCESS: i32 = 0;

/// Exit code of a run in which acquiring, parsing or launching failed.
pub const EXIT_FAILURE: i32 = 1;

/// How a launch ended.
#[derive(Clone, Copy, Debug, PartialEq, Eq, Structural)]
pub enum LaunchOutcome {
    /// The payload ran and ended with this code.
    Exited(i32),
    /// The payload never started.
    Failed,
}

/// The launcher's own exit code: that of the payload where it ran, the
/// code for failures where it did not.
pub open spec fn code_of(outcome: LaunchOutcome) -> i32 {
    match outcome {
        LaunchOutcome::Exited(code) => code,
        LaunchOutcome::Failed => EXIT_FAILURE,
    }
}

/// The launcher's own exit code for an outcome.
pub fn exit_code(outcome: LaunchOutcome) -> (r: i32)
    ensures
        r == code_of(outcome),
{
    match outcome {
        LaunchOutcome::Exited(code) => code,
        LaunchOutcome::Failed => EXIT_FAILURE,
    }
}

} // verus!
