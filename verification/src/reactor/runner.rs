//! Decisions of the bounded turn-and-wait loop of one owned reactor.
//!
//! The loop alternates host steps, backend waits, and termination checks.
//! Each observation the loop makes is a [`RunEvent`]; [`next_command`] says
//! what the loop does about it.

use vstd::prelude::*;

use crate::time::Span;

use super::failure::{ReactorFailure, ReactorOutcome};

verus! {

/// What the host asks for after one bounded step.
#[derive(Clone, Copy, Debug, PartialEq, Eq, Structural)]
pub enum HostAction {
    /// Another step is immediately runnable.
    Continue,
    /// The duty permanently stopped.
    Stop,
    /// Wait at most the given span for external progress.
    Wait(Span),
}

/// One observation of the run loop.
#[derive(Debug, PartialEq, Eq)]
pub enum RunEvent<HostError, WaitError> {
    /// The termination flag was read at the top of an iteration.
    Checked { termination_requested: bool },
    /// The host step returned.
    Stepped(Result<HostAction, HostError>),
    /// The owner recorded its exit after a stop; the flag tells whether
    /// termination had been requested.
    Finished { termination_requested: bool },
    /// The termination flag was read again before a wait of `maximum`.
    WaitChecked { termination_requested: bool, maximum: Span },
    /// The backend wait returned.
    Waited(Result<(), WaitError>),
}

/// What the run loop does next.
#[derive(Debug, PartialEq, Eq)]
pub enum RunCommand<HostError, WaitError> {
    /// Run one bounded host step.
    Step,
    /// Start a new iteration by reading the termination flag.
    Check,
    /// Record the owner's exit and report whether termination was requested.
    Finish,
    /// Read the termination flag before waiting at most `maximum`.
    CheckBeforeWait(Span),
    /// Wait at most the given span on the backend.
    Wait(Span),
    /// Terminate the host and return `Terminated`. After a check, the exit
    /// is recorded once the host is terminated; after a stop, the exit was
    /// already recorded by `Finish`, so the host is only terminated.
    Terminate,
    /// Record the exit and return this terminal outcome; a wait failure also
    /// marks the host failed first.
    Exit(ReactorOutcome<HostError, WaitError>),
}

/// The command that answers `event`.
pub open spec fn next_command_spec<HostError, WaitError>(event: RunEvent<HostError, WaitError>) -> RunCommand<HostError, WaitError> {
    match event {
        RunEvent::Checked { termination_requested } => if termination_requested {
            RunCommand::Terminate
        } else {
            RunCommand::Step
        },
        RunEvent::Stepped(Err(source)) => RunCommand::Exit(
            ReactorOutcome::Failed(ReactorFailure::Host(source)),
        ),
        RunEvent::Stepped(Ok(HostAction::Continue)) => RunCommand::Check,
        RunEvent::Stepped(Ok(HostAction::Stop)) => RunCommand::Finish,
        RunEvent::Stepped(Ok(HostAction::Wait(maximum))) => RunCommand::CheckBeforeWait(maximum),
        RunEvent::Finished { termination_requested } => if termination_requested {
            RunCommand::Terminate
        } else {
            RunCommand::Exit(ReactorOutcome::Stopped)
        },
        RunEvent::WaitChecked { termination_requested, maximum } => if termination_requested {
            RunCommand::Check
        } else {
            RunCommand::Wait(maximum)
        },
        RunEvent::Waited(Ok(())) => RunCommand::Check,
        RunEvent::Waited(Err(source)) => RunCommand::Exit(
            ReactorOutcome::Failed(ReactorFailure::Wait(source)),
        ),
    }
}

/// Decides what the run loop does about one observation.
///
/// A termination request seen at the top of an iteration terminates before
/// any further step; a stop reports `Terminated` when termination had been
/// requested and `Stopped` otherwise; a request seen before a wait skips the
/// wait; host and backend failures end the loop with their exact source.
pub fn next_command<HostError, WaitError>(event: RunEvent<HostError, WaitError>) -> (command: RunCommand<
    HostError,
    WaitError,
>)
    ensures
        command == next_command_spec(event),
{
    match event {
        RunEvent::Checked { termination_requested } => {
            if termination_requested {
                RunCommand::Terminate
            } else {
                RunCommand::Step
            }
        },
        RunEvent::Stepped(Err(source)) => RunCommand::Exit(
            ReactorOutcome::Failed(ReactorFailure::Host(source)),
        ),
        RunEvent::Stepped(Ok(HostAction::Continue)) => RunCommand::Check,
        RunEvent::Stepped(Ok(HostAction::Stop)) => RunCommand::Finish,
        RunEvent::Stepped(Ok(HostAction::Wait(maximum))) => RunCommand::CheckBeforeWait(maximum),
        RunEvent::Finished { termination_requested } => {
            if termination_requested {
                RunCommand::Terminate
            } else {
                RunCommand::Exit(ReactorOutcome::Stopped)
            }
        },
        RunEvent::WaitChecked { termination_requested, maximum } => {
            if termination_requested {
                RunCommand::Check
            } else {
                RunCommand::Wait(maximum)
            }
        },
        RunEvent::Waited(Ok(())) => RunCommand::Check,
        RunEvent::Waited(Err(source)) => RunCommand::Exit(
            ReactorOutcome::Failed(ReactorFailure::Wait(source)),
        ),
    }
}

/// A pending termination request always wins over further work: seen at an
/// iteration's top it terminates, seen before a wait it skips the wait and
/// returns to the top, and seen at exit after a stop it reports
/// `Terminated` rather than `Stopped`.
pub proof fn lemma_termination_wins<HostError, WaitError>(maximum: Span)
    ensures
        next_command_spec(RunEvent::<HostError, WaitError>::Checked { termination_requested: true })
            == RunCommand::<HostError, WaitError>::Terminate,
        next_command_spec(
            RunEvent::<HostError, WaitError>::WaitChecked { termination_requested: true, maximum },
        ) == RunCommand::<HostError, WaitError>::Check,
        next_command_spec(RunEvent::<HostError, WaitError>::Finished { termination_requested: true })
            == RunCommand::<HostError, WaitError>::Terminate,
{
}

/// Waits happen only when no termination request was seen just before them.
pub proof fn lemma_waits_only_without_request<HostError, WaitError>(event: RunEvent<HostError, WaitError>)
    ensures
        next_command_spec(event) is Wait ==> (event matches RunEvent::WaitChecked {
            termination_requested,
            ..
        } && !termination_requested),
{
}

} // verus!
