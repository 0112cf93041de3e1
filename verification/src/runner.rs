//! The decisions of the program runner.
//!
//! The runner calls a program's `main` as a resumable call. Each time the
//! call stops, [`next_step`] decides from how it stopped and from the host
//! state what to do: finish with the program's exit status, yield to the
//! executor and resume, wait for a key and resume with its code, or fail.

use vstd::prelude::*;
use crate::state::{exit_status_of, HostState};

verus! {

/// Which host signal stopped the call.
#[derive(Clone, Copy, Debug, PartialEq, Eq, Structural)]
pub enum Signal {
    /// `os::io::yield_now`.
    Yield,
    /// `os::io::read_key`.
    Key,
    /// `os::proc::exit`.
    Exit,
    /// Any other host error.
    Other,
}

/// How a resumable call stopped.
#[derive(Clone, Copy, Debug, PartialEq, Eq, Structural)]
pub enum CallOutcome {
    /// `main` returned.
    Finished,
    /// A host function trapped with a signal.
    HostTrap(Signal),
    /// The program used up its fuel.
    OutOfFuel,
}

/// Why a run failed.
#[derive(Clone, Copy, Debug, PartialEq, Eq, Structural)]
pub enum RunError {
    /// The program exports no `main` function.
    NoMain,
    /// A host function failed with an error that is no runner signal.
    HostError,
    /// The program used up its fuel.
    OutOfFuel,
}

/// What the runner does next.
#[derive(Clone, Copy, Debug, PartialEq, Eq, Structural)]
pub enum Step {
    /// Stop; the program's result is this exit status.
    Finish(i32),
    /// Yield to the executor, then resume with no values.
    YieldThenResume,
    /// Wait for a key, then resume with the key's code as one `i32`.
    ReadKeyThenResume,
    /// Stop with an error.
    Fail(RunError),
}

/// The step for an outcome, given the exit code the host state holds.
pub open spec fn step_for(outcome: CallOutcome, exit_code: Option<i32>) -> Step {
    match outcome {
        CallOutcome::Finished => Step::Finish(exit_status_of(exit_code)),
        CallOutcome::HostTrap(Signal::Yield) => Step::YieldThenResume,
        CallOutcome::HostTrap(Signal::Key) => Step::ReadKeyThenResume,
        CallOutcome::HostTrap(Signal::Exit) => Step::Finish(exit_status_of(exit_code)),
        CallOutcome::HostTrap(Signal::Other) => Step::Fail(RunError::HostError),
        CallOutcome::OutOfFuel => Step::Fail(RunError::OutOfFuel),
    }
}

/// Decides what to do after the call stopped with `outcome`.
pub fn next_step(outcome: CallOutcome, state: &HostState) -> (r: Step)
    ensures
        r == step_for(outcome, state.exit_code),
{
    match outcome {
        CallOutcome::Finished => Step::Finish(state.exit_status()),
        CallOutcome::HostTrap(signal) => match signal {
            Signal::Yield => Step::YieldThenResume,
            Signal::Key => Step::ReadKeyThenResume,
            Signal::Exit => Step::Finish(state.exit_status()),
            Signal::Other => Step::Fail(RunError::HostError),
        },
        CallOutcome::OutOfFuel => Step::Fail(RunError::OutOfFuel),
    }
}

impl RunError {
    /// How the error describes itself.
    pub fn message(&self) -> (r: &'static str)
        ensures
            *self == RunError::NoMain ==> r@ == "program has no `main` export"@,
            *self == RunError::HostError ==> r@ == "host function failed"@,
            *self == RunError::OutOfFuel ==> r@ == "program ran out of fuel"@,
    {
        match self {
            RunError::NoMain => "program has no `main` export",
            RunError::HostError => "host function failed",
            RunError::OutOfFuel => "program ran out of fuel",
        }
    }
}

/// A program's exit code reaches its caller: once `os::proc::exit` has
/// recorded `code`, the runner finishes with `code`, whether it stops at
/// the exit signal or the program returns from `main` afterwards.
pub proof fn lemma_exit_code_reported(code: i32)
    ensures
        step_for(CallOutcome::HostTrap(Signal::Exit), Some(code)) == Step::Finish(code),
        step_for(CallOutcome::Finished, Some(code)) == Step::Finish(code),
{
}

/// A program that returns from `main` without calling `os::proc::exit`
/// finishes with 0.
pub proof fn lemma_plain_return_is_zero()
    ensures
        step_for(CallOutcome::Finished, None) == Step::Finish(0),
{
}

/// Yielding and waiting for a key never end the run: the runner resumes
/// the program.
pub proof fn lemma_waits_resume(signal: Signal, exit_code: Option<i32>)
    requires
        signal == Signal::Yield || signal == Signal::Key,
    ensures
        step_for(CallOutcome::HostTrap(signal), exit_code) !is Finish,
        step_for(CallOutcome::HostTrap(signal), exit_code) !is Fail,
{
}


/// A host error that is no runner signal, and running out of fuel, end the
/// run with a failure, whatever exit code was recorded.
pub proof fn lemma_failures(exit_code: Option<i32>)
    ensures
        step_for(CallOutcome::HostTrap(Signal::Other), exit_code) == Step::Fail(RunError::HostError),
        step_for(CallOutcome::OutOfFuel, exit_code) == Step::Fail(RunError::OutOfFuel),
{
}

} // verus!
