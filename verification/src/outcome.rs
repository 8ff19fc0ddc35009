//! How a run ends: the command's streams and the exit code to pass on.

use vstd::prelude::*;

verus! {

/// The exit code to pass on for a command that has ended: its own code
/// where it has one; else 0 where it succeeded and 1 where it did not.
pub open spec fn exit_code_of(success: bool, code: Option<i32>) -> i32 {
    match code {
        Some(code) => code,
        None => if success {
            0
        } else {
            1
        },
    }
}

/// Computes the exit code to pass on for a command that has ended.
pub fn exit_code(success: bool, code: Option<i32>) -> (passed_on: i32)
    ensures
        passed_on == exit_code_of(success, code),
{
    match code {
        Some(code) => code,
        None => if success {
            0
        } else {
            1
        },
    }
}

/// The exit code of a run that failed before or instead of the command.
pub const FAILURE_EXIT_CODE: i32 = 1;

/// What a command left behind.
#[derive(Debug, PartialEq, Eq)]
pub struct ExitOutcome {
    /// All that the command wrote to its standard output.
    pub stdout: Vec<u8>,
    /// All that the command wrote to its standard error.
    pub stderr: Vec<u8>,
    /// The exit code to pass on.
    pub code: i32,
}

/// The mathematical content of an [`ExitOutcome`].
pub struct ExitOutcomeView {
    pub stdout: Seq<u8>,
    pub stderr: Seq<u8>,
    pub code: i32,
}

impl View for ExitOutcome {
    type V = ExitOutcomeView;

    open spec fn view(&self) -> ExitOutcomeView {
        ExitOutcomeView { stdout: self.stdout@, stderr: self.stderr@, code: self.code }
    }
}

impl ExitOutcome {
    /// Joins the streams of a command that has ended with the exit code to
    /// pass on for it.
    pub fn new(success: bool, code: Option<i32>, stdout: Vec<u8>, stderr: Vec<u8>) -> (outcome:
        ExitOutcome)
        ensures
            outcome == (ExitOutcome { stdout, stderr, code: exit_code_of(success, code) }),
    {
        ExitOutcome { stdout, stderr, code: exit_code(success, code) }
    }
}

} // verus!
