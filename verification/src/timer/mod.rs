//! Stable count- and retained-byte-bounded absolute-deadline ownership.

pub mod error;
pub mod identity;
pub mod laws;
pub mod limits;
pub mod queue;
pub mod snapshot;
pub mod value;

pub use error::{TimerScheduleError, TimerScheduleFailure};
pub use identity::{TimerId, TimerOwnerId, TimerToken};
pub use limits::TimerLimits;
pub use queue::TimerQueue;
pub use snapshot::{TimerDrain, TimerQueueSnapshot};
pub use value::Timer;
