//! Ownership-preserving timer admission failures.

use vstd::prelude::*;

use crate::count::NonZeroCount;
use crate::retained::RetainedBytes;
use crate::time::Deadline;

verus! {

/// Why a timer could not enter a bounded owner-local queue.
#[allow(inconsistent_fields)]
#[derive(Clone, Copy, Debug, PartialEq, Eq, Structural)]
pub enum TimerScheduleFailure {
    /// The pending-timer count reached its hard limit.
    TimerCapacity {
        /// Configured timer-count limit.
        limit: NonZeroCount,
    },
    /// Retained-byte addition overflowed the fixed-width accounting domain.
    RetainedByteOverflow {
        /// Bytes already retained.
        current: RetainedBytes,
        /// Bytes measured for the rejected timer value.
        timer: RetainedBytes,
    },
    /// The retained-byte limit would be exceeded.
    RetainedByteCapacity {
        /// Configured retained-byte limit.
        limit: RetainedBytes,
        /// Bytes already retained.
        current: RetainedBytes,
        /// Bytes measured for the rejected timer value.
        timer: RetainedBytes,
    },
    /// Every owner-local timer identity has been consumed.
    TimerIdsExhausted,
}

/// Failed timer admission with the rejected deadline and value.
#[derive(Debug)]
pub struct TimerScheduleError<T> {
    deadline: Deadline,
    value: T,
    failure: TimerScheduleFailure,
}

impl<T> TimerScheduleError<T> {
    /// The rejected absolute deadline.
    pub closed spec fn deadline_spec(self) -> Deadline {
        self.deadline
    }

    /// The rejected timer value.
    pub closed spec fn value_spec(self) -> T {
        self.value
    }

    /// The rejection reason.
    pub closed spec fn failure_spec(self) -> TimerScheduleFailure {
        self.failure
    }

    /// The error made of exactly these parts.
    pub closed spec fn from_parts(deadline: Deadline, value: T, failure: TimerScheduleFailure) -> Self {
        TimerScheduleError { deadline, value, failure }
    }

    pub(crate) fn new(deadline: Deadline, value: T, failure: TimerScheduleFailure) -> (error: Self)
        ensures
            error == TimerScheduleError::from_parts(deadline, value, failure),
    {
        TimerScheduleError { deadline, value, failure }
    }

    /// Returns the rejection reason.
    pub fn failure(&self) -> (failure: TimerScheduleFailure)
        ensures
            failure == self.failure_spec(),
    {
        self.failure
    }

    /// Returns the rejected absolute deadline.
    pub fn deadline(&self) -> (deadline: Deadline)
        ensures
            deadline == self.deadline_spec(),
    {
        self.deadline
    }

    /// Borrows the rejected timer value.
    pub fn value(&self) -> (value: &T)
        ensures
            *value == self.value_spec(),
    {
        &self.value
    }

    /// Returns ownership of the rejected timer value.
    pub fn into_value(self) -> (value: T)
        ensures
            value == self.value_spec(),
    {
        self.value
    }

    /// Splits the rejected deadline, value, and reason.
    pub fn into_parts(self) -> (parts: (Deadline, T, TimerScheduleFailure))
        ensures
            parts == (self.deadline_spec(), self.value_spec(), self.failure_spec()),
    {
        (self.deadline, self.value, self.failure)
    }
}

/// An error reports exactly the parts it was made of.
pub broadcast proof fn lemma_schedule_error_parts<T>(
    deadline: Deadline,
    value: T,
    failure: TimerScheduleFailure,
)
    ensures
        #![trigger TimerScheduleError::from_parts(deadline, value, failure)]
        TimerScheduleError::from_parts(deadline, value, failure).deadline_spec() == deadline,
        TimerScheduleError::from_parts(deadline, value, failure).value_spec() == value,
        TimerScheduleError::from_parts(deadline, value, failure).failure_spec() == failure,
{
}

} // verus!
