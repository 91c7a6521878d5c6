//! Timer drain results and bounded ownership observations.

use vstd::prelude::*;

use crate::retained::RetainedBytes;
use crate::time::Deadline;

use super::identity::{TimerId, TimerOwnerId};
use super::limits::TimerLimits;

verus! {

/// Progress made by one explicitly bounded due-timer drain.
#[derive(Clone, Copy, Debug, PartialEq, Eq, Structural)]
pub struct TimerDrain {
    fired: usize,
    more_due: bool,
}

impl TimerDrain {
    /// Timers transferred to the destination.
    pub closed spec fn fired_spec(self) -> usize {
        self.fired
    }

    /// Whether another timer is already due.
    pub closed spec fn more_due_spec(self) -> bool {
        self.more_due
    }

    pub(crate) fn new(fired: usize, more_due: bool) -> (drain: TimerDrain)
        ensures
            drain.fired_spec() == fired,
            drain.more_due_spec() == more_due,
    {
        TimerDrain { fired, more_due }
    }

    /// Returns the number of timers transferred to the destination.
    pub fn fired(self) -> (fired: usize)
        ensures
            fired == self.fired_spec(),
    {
        self.fired
    }

    /// Returns whether another timer is already due at the supplied moment.
    pub fn more_due(self) -> (more_due: bool)
        ensures
            more_due == self.more_due_spec(),
    {
        self.more_due
    }
}

/// Current bounded state for one owner-local timer queue.
#[derive(Clone, Copy, Debug, PartialEq, Eq, Structural)]
pub struct TimerQueueSnapshot {
    owner: TimerOwnerId,
    limits: TimerLimits,
    pending_timers: usize,
    retained_bytes: RetainedBytes,
    next_deadline: Option<Deadline>,
    next_id: Option<TimerId>,
}

impl TimerQueueSnapshot {
    /// The queue owner identity.
    pub closed spec fn owner_spec(self) -> TimerOwnerId {
        self.owner
    }

    /// Configured hard limits.
    pub closed spec fn limits_spec(self) -> TimerLimits {
        self.limits
    }

    /// The pending timer count.
    pub closed spec fn pending_timers_spec(self) -> usize {
        self.pending_timers
    }

    /// Variable bytes retained by timer values.
    pub closed spec fn retained_bytes_spec(self) -> RetainedBytes {
        self.retained_bytes
    }

    /// The earliest absolute deadline.
    pub closed spec fn next_deadline_spec(self) -> Option<Deadline> {
        self.next_deadline
    }

    /// The identity the next successful admission would consume.
    pub closed spec fn next_id_spec(self) -> Option<TimerId> {
        self.next_id
    }

    pub(crate) fn new(
        owner: TimerOwnerId,
        limits: TimerLimits,
        pending_timers: usize,
        retained_bytes: RetainedBytes,
        next_deadline: Option<Deadline>,
        next_id: Option<TimerId>,
    ) -> (snapshot: TimerQueueSnapshot)
        ensures
            snapshot.owner_spec() == owner,
            snapshot.limits_spec() == limits,
            snapshot.pending_timers_spec() == pending_timers,
            snapshot.retained_bytes_spec() == retained_bytes,
            snapshot.next_deadline_spec() == next_deadline,
            snapshot.next_id_spec() == next_id,
    {
        TimerQueueSnapshot { owner, limits, pending_timers, retained_bytes, next_deadline, next_id }
    }

    /// Returns the queue owner identity.
    pub fn owner(self) -> (owner: TimerOwnerId)
        ensures
            owner == self.owner_spec(),
    {
        self.owner
    }

    /// Returns configured hard limits.
    pub fn limits(self) -> (limits: TimerLimits)
        ensures
            limits == self.limits_spec(),
    {
        self.limits
    }

    /// Returns the pending timer count.
    pub fn pending_timers(self) -> (pending: usize)
        ensures
            pending == self.pending_timers_spec(),
    {
        self.pending_timers
    }

    /// Returns variable bytes retained by timer values.
    pub fn retained_bytes(self) -> (retained: RetainedBytes)
        ensures
            retained == self.retained_bytes_spec(),
    {
        self.retained_bytes
    }

    /// Returns the earliest absolute deadline.
    pub fn next_deadline(self) -> (deadline: Option<Deadline>)
        ensures
            deadline == self.next_deadline_spec(),
    {
        self.next_deadline
    }

    /// Returns the identity the next successful admission would consume.
    pub fn next_id(self) -> (id: Option<TimerId>)
        ensures
            id == self.next_id_spec(),
    {
        self.next_id
    }

    /// Returns whether no further timer identity can be issued.
    pub fn identities_exhausted(self) -> (exhausted: bool)
        ensures
            exhausted == self.next_id_spec().is_none(),
    {
        self.next_id.is_none()
    }
}

} // verus!
