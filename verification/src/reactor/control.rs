//! Linearized external termination state of one reactor owner.
//!
//! The phase lives under a lock shared by the owner and its controllers;
//! each locked step is a transition of [`ControlPhase`].

use vstd::prelude::*;

use super::termination::ReactorTerminationStatus;

verus! {

/// Termination lifecycle of one reactor owner.
#[derive(Clone, Copy, Debug, PartialEq, Eq, Structural)]
pub enum ControlPhase {
    /// The owner runs and no termination was requested.
    Running,
    /// Termination was requested and the owner has not exited.
    TerminationRequested,
    /// The owner exited.
    Exited,
}

/// What one termination request published.
#[derive(Clone, Copy, Debug, PartialEq, Eq, Structural)]
pub struct Publication {
    /// The phase after the request.
    pub phase: ControlPhase,
    /// The state the request observed.
    pub status: ReactorTerminationStatus,
    /// Whether this request must wake the owner.
    pub wake: bool,
}

/// What the owner's exit observed.
#[derive(Clone, Copy, Debug, PartialEq, Eq, Structural)]
pub struct Finish {
    /// The phase after exiting, always `Exited`.
    pub phase: ControlPhase,
    /// Whether termination had been requested before the exit.
    pub termination_requested: bool,
}

impl ControlPhase {
    /// The effect of a termination request on this phase.
    pub open spec fn publish_spec(self) -> Publication {
        match self {
            ControlPhase::Running => Publication {
                phase: ControlPhase::TerminationRequested,
                status: ReactorTerminationStatus::Requested,
                wake: true,
            },
            ControlPhase::TerminationRequested => Publication {
                phase: ControlPhase::TerminationRequested,
                status: ReactorTerminationStatus::AlreadyRequested,
                wake: false,
            },
            ControlPhase::Exited => Publication {
                phase: ControlPhase::Exited,
                status: ReactorTerminationStatus::Exited,
                wake: false,
            },
        }
    }

    /// Publishes a termination request: the first request against a running
    /// owner moves it to requested and is the only one that wakes the owner.
    pub fn publish_termination(self) -> (publication: Publication)
        ensures
            publication == self.publish_spec(),
    {
        match self {
            ControlPhase::Running => Publication {
                phase: ControlPhase::TerminationRequested,
                status: ReactorTerminationStatus::Requested,
                wake: true,
            },
            ControlPhase::TerminationRequested => Publication {
                phase: ControlPhase::TerminationRequested,
                status: ReactorTerminationStatus::AlreadyRequested,
                wake: false,
            },
            ControlPhase::Exited => Publication {
                phase: ControlPhase::Exited,
                status: ReactorTerminationStatus::Exited,
                wake: false,
            },
        }
    }

    /// Returns whether a termination request is pending for the owner.
    pub fn termination_requested(self) -> (requested: bool)
        ensures
            requested == (self == ControlPhase::TerminationRequested),
    {
        matches!(self, ControlPhase::TerminationRequested)
    }

    /// The effect of the owner's exit on this phase.
    pub open spec fn finish_spec(self) -> Finish {
        Finish {
            phase: ControlPhase::Exited,
            termination_requested: self == ControlPhase::TerminationRequested,
        }
    }

    /// Records the owner's exit and reports whether termination had been
    /// requested.
    pub fn finish(self) -> (finish: Finish)
        ensures
            finish == self.finish_spec(),
    {
        Finish {
            phase: ControlPhase::Exited,
            termination_requested: matches!(self, ControlPhase::TerminationRequested),
        }
    }
}

/// A request and an owner exit are linearized: whichever comes first, the
/// request that reports `Requested` is observed by the exit, and a request
/// after the exit reports `Exited` and wakes no one.
pub proof fn lemma_request_and_exit_linearize()
    ensures
        ControlPhase::Running.publish_spec().status == ReactorTerminationStatus::Requested,
        ControlPhase::Running.publish_spec().phase.finish_spec().termination_requested,
        ControlPhase::Running.finish_spec().phase.publish_spec().status
            == ReactorTerminationStatus::Exited,
        !ControlPhase::Running.finish_spec().phase.publish_spec().wake,
        !ControlPhase::Running.finish_spec().termination_requested,
{
}

/// Exactly one request wakes the owner: after any request, every later
/// request reports an earlier request or the exit and does not wake.
pub proof fn lemma_single_wake(phase: ControlPhase)
    ensures
        !phase.publish_spec().phase.publish_spec().wake,
        phase.publish_spec().phase.publish_spec().phase == phase.publish_spec().phase,
        phase.publish_spec().wake <==> phase == ControlPhase::Running,
{
}

/// Exit is terminal: after it every request reports `Exited`.
pub proof fn lemma_exit_is_terminal(phase: ControlPhase)
    ensures
        phase.finish_spec().phase == ControlPhase::Exited,
        phase.finish_spec().phase.publish_spec().status == ReactorTerminationStatus::Exited,
        phase.finish_spec().phase.finish_spec().phase == ControlPhase::Exited,
{
}

} // verus!
