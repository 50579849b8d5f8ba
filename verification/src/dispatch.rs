//! The outcome of a child process, and what the adapter makes of it.

use crate::error::{DubError, StartFailure};
use vstd::prelude::*;
use vstd::string::*;

verus! {

/// How an attempt to run a child process ended.
#[derive(Clone, Copy, Debug, PartialEq, Eq, Structural)]
pub enum ChildOutcome {
    /// The child ran and terminated, with its exit code where the
    /// operating system reports one (a child killed by a signal has none).
    Exited(Option<i32>),
    /// The child could not be started.
    NotStarted(StartFailure),
}

impl ChildOutcome {
    /// Whether the child ran and exited with status zero.
    pub open spec fn spec_succeeded(self) -> bool {
        self == ChildOutcome::Exited(Some(0i32))
    }

    /// Whether the child ran and exited with status zero.
    #[verifier::when_used_as_spec(spec_succeeded)]
    pub fn succeeded(self) -> (ok: bool)
        ensures
            ok == self.spec_succeeded(),
    {
        match self {
            ChildOutcome::Exited(Some(code)) => code == 0,
            _ => false,
        }
    }

    /// The outcome of an attempt that the operating system refused with an
    /// error of the given category.
    pub fn not_started(kind: std::io::ErrorKind) -> (outcome: ChildOutcome)
        ensures
            outcome == ChildOutcome::NotStarted(StartFailure::spec_classify(kind)),
    {
        ChildOutcome::NotStarted(StartFailure::classify(kind))
    }
}

/// The exit code that a terminated child hands on: its own, or 1 where the
/// operating system reports none.
pub open spec fn reported_code(code: Option<i32>) -> i32 {
    match code {
        Some(c) => c,
        None => 1i32,
    }
}

/// What the adapter makes of a dispatched child: the exit code to pass on,
/// or the failure to report.
pub open spec fn dispatch_result(outcome: ChildOutcome) -> Result<i32, DubError> {
    match outcome {
        ChildOutcome::Exited(code) => Ok(reported_code(code)),
        ChildOutcome::NotStarted(failure) => Err(DubError::Start(failure)),
    }
}

/// Turns the outcome of the dispatched child into the adapter's own
/// result: the child's exit code unchanged, whatever its value, or the
/// classified start failure.
pub fn execute_command(outcome: ChildOutcome) -> (result: Result<i32, DubError>)
    ensures
        result == dispatch_result(outcome),
{
    match outcome {
        ChildOutcome::Exited(Some(code)) => Ok(code),
        ChildOutcome::Exited(None) => Ok(1),
        ChildOutcome::NotStarted(failure) => Err(DubError::Start(failure)),
    }
}

/// How the adapter's own process ends.
#[derive(Clone, Debug, PartialEq, Eq)]
pub struct Termination {
    /// The exit code.
    pub code: i32,
    /// The line to print on the error stream first, where there is one.
    pub error_line: Option<String>,
}

/// The mathematical model of [`Termination`].
pub struct TerminationView {
    pub code: i32,
    pub error_line: Option<Seq<char>>,
}

impl View for Termination {
    type V = TerminationView;

    open spec fn view(&self) -> TerminationView {
        TerminationView { code: self.code, error_line: self.error_line.deep_view() }
    }
}

/// The end that a result calls for: an exit code is passed on as it is
/// and nothing is printed; a failure is reported on one line and ends the
/// process with code 1.
pub open spec fn termination(result: Result<i32, DubError>) -> TerminationView {
    match result {
        Ok(code) => TerminationView { code, error_line: None },
        Err(e) => TerminationView {
            code: 1i32,
            error_line: Some("Error: "@ + e.spec_message()),
        },
    }
}

/// Maps the adapter's result to the way its process ends.
pub fn propagate(result: Result<i32, DubError>) -> (end: Termination)
    ensures
        end@ == termination(result),
{
    match result {
        Ok(code) => Termination { code, error_line: None },
        Err(e) => {
            let mut line = String::from_str("Error: ");
            let message = e.message();
            line.append(message.as_str());
            Termination { code: 1, error_line: Some(line) }
        },
    }
}

} // verus!
