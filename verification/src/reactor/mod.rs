//! Reactor lifecycle decisions: termination control, run-loop commands,
//! terminal outcomes, and static groups.

pub mod control;
pub mod exit;
pub mod failure;
pub mod group;
pub mod runner;
pub mod spawn_error;
pub mod termination;

pub use control::{ControlPhase, Finish, Publication};
pub use exit::{ReactorExit, ReactorGroupMemberExit};
pub use failure::{ReactorFailure, ReactorOutcome};
pub use group::{
    MemberTerminal, ReactorGroupExit, ReactorGroupLimits, ReactorGroupOutcome, ReactorGroupSendError,
    ReactorGroupSendFailure, ReactorGroupSpawnError, ReactorGroupSpawnFailure,
    ReactorGroupMember, ReactorGroupTermination, ReactorId, Lane, StartDecision, GroupSupervisor, SupervisorCommand,
};
pub use spawn_error::ReactorSpawnError;
pub use runner::{next_command, HostAction, RunCommand, RunEvent};
pub use termination::{ReactorTermination, ReactorTerminationStatus};
