//! Decisions of a static shared-nothing reactor topology with bounded typed
//! ingress.

pub mod exit;
pub mod gate;
pub mod identity;
pub mod member;
pub mod send_error;
pub mod spawn_error;
pub mod supervisor;
pub mod termination;

pub use exit::{group_outcome, is_fatal, MemberTerminal, ReactorGroupExit, ReactorGroupOutcome};
pub use gate::{decide, StartDecision};
pub use identity::{ReactorGroupLimits, ReactorId};
pub use member::{rejoin_members, split_members, ReactorGroupMember};
pub use send_error::{route, Lane, ReactorGroupSendError, ReactorGroupSendFailure};
pub use spawn_error::{validate, ReactorGroupSpawnError, ReactorGroupSpawnFailure};
pub use supervisor::{ExitLedger, GroupSupervisor, SupervisorCommand};
pub use termination::ReactorGroupTermination;
