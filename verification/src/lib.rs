//! Bounded single-owner scheduling building blocks: monotonic time, turn
//! results, generation-fenced resource tables, timer queues, shutdown
//! barriers, and the decision state of reactor lifecycles.

pub mod count;
pub mod reactor;
pub mod resource;
pub mod retained;
pub mod shutdown;
pub mod time;
pub mod timer;
pub mod turn;
pub mod wake;

pub use count::NonZeroCount;
pub use reactor::{
    ControlPhase, HostAction, Lane, MemberTerminal, ReactorFailure, ReactorGroupExit,
    ReactorGroupLimits, ReactorGroupMember, ReactorGroupOutcome, ReactorGroupSendError, ReactorGroupSendFailure,
    ReactorGroupSpawnError, ReactorGroupSpawnFailure, ReactorGroupTermination, ReactorId,
    ReactorOutcome, ReactorSpawnError, ReactorTermination, ReactorTerminationStatus, RunCommand, RunEvent,
    StartDecision, GroupSupervisor, SupervisorCommand, ReactorExit, ReactorGroupMemberExit,
    next_command,
};
pub use resource::{
    ResourceAdmissionError, ResourceAdmissionFailure, ResourceGeneration, ResourceOwnerId,
    ResourceSlotId, ResourceTable, ResourceTableSnapshot, ResourceToken, ResourceTokenFailure,
};
pub use retained::{ByRetained, Retained, RetainedBytes, RetainedMeasure};
pub use shutdown::{
    RequestFailure, RequestSuccess, ShutdownPhase, ShutdownState, ShutdownSubscribeError,
    SubscribeStep,
};
pub use time::{Deadline, DurationOverflow, Moment, Span};
pub use timer::{
    Timer, TimerDrain, TimerId, TimerLimits, TimerOwnerId, TimerQueue, TimerQueueSnapshot,
    TimerScheduleError, TimerScheduleFailure, TimerToken,
};
pub use turn::{Next, Turn, WorkCount};
pub use wake::{AcknowledgeAction, WakeAction, WakePhase};
