//! Scheduling facts returned by one bounded owner turn.

use vstd::prelude::*;

use crate::time::{Deadline, Moment, Span};

verus! {

/// Saturating diagnostic count of work completed during a turn.
#[derive(Clone, Copy, Debug, Default, PartialEq, Eq, Hash, PartialOrd, Ord, Structural)]
pub struct WorkCount(u64);

impl WorkCount {
    /// The completed work count.
    pub closed spec fn count(self) -> u64 {
        self.0
    }

    /// Two counts with the same value are the same count.
    pub proof fn lemma_count_injective(a: WorkCount, b: WorkCount)
        ensures
            a.count() == b.count() <==> a == b,
    {
    }

    /// No completed work.
    pub fn zero() -> (work: WorkCount)
        ensures
            work.count() == 0,
    {
        WorkCount(0)
    }

    /// Creates a work count.
    pub fn new(work: u64) -> (count: WorkCount)
        ensures
            count.count() == work,
    {
        WorkCount(work)
    }

    /// Returns the completed work count.
    pub fn get(self) -> (work: u64)
        ensures
            work == self.count(),
    {
        self.0
    }

    /// The saturating sum of two counts.
    pub open spec fn saturating_sum(a: u64, b: u64) -> u64 {
        if a + b <= u64::MAX {
            (a + b) as u64
        } else {
            u64::MAX
        }
    }

    /// Adds counts without wrapping diagnostic state.
    pub fn saturating_add(self, other: WorkCount) -> (sum: WorkCount)
        ensures
            sum.count() == WorkCount::saturating_sum(self.count(), other.count()),
    {
        WorkCount(self.0.saturating_add(other.0))
    }
}

/// When an owner requires another scheduling opportunity.
#[derive(Clone, Copy, Debug, PartialEq, Eq, Structural)]
pub enum Next {
    /// Another bounded turn is immediately runnable.
    Now,
    /// It is safe to wait indefinitely for an external wake.
    Wake,
    /// Wait for an external wake or the absolute deadline.
    WakeOr(Deadline),
    /// This owner has permanently completed its lifecycle.
    Stop,
}

impl Next {
    /// Combined scheduling interest of two independent owners: immediate work
    /// wins, deadlines select the earliest moment (the left one on a tie), and
    /// `Stop` is the identity.
    pub open spec fn merge_spec(self, other: Next) -> Next {
        match (self, other) {
            (Next::Now, _) => Next::Now,
            (_, Next::Now) => Next::Now,
            (Next::WakeOr(left), Next::WakeOr(right)) => if left.nanos() <= right.nanos() {
                Next::WakeOr(left)
            } else {
                Next::WakeOr(right)
            },
            (Next::WakeOr(deadline), _) => Next::WakeOr(deadline),
            (_, Next::WakeOr(deadline)) => Next::WakeOr(deadline),
            (Next::Wake, _) => Next::Wake,
            (_, Next::Wake) => Next::Wake,
            (Next::Stop, Next::Stop) => Next::Stop,
        }
    }

    /// Combines scheduling interest from independent owners.
    ///
    /// Immediate work wins, deadlines select the earliest moment, and `Stop`
    /// acts as the identity for a host aggregating live owners.
    pub fn merge(self, other: Next) -> (merged: Next)
        ensures
            merged == self.merge_spec(other),
    {
        match (self, other) {
            (Next::Now, _) | (_, Next::Now) => Next::Now,
            (Next::WakeOr(left), Next::WakeOr(right)) => {
                if left.moment().as_nanos() <= right.moment().as_nanos() {
                    Next::WakeOr(left)
                } else {
                    Next::WakeOr(right)
                }
            },
            (Next::WakeOr(deadline), Next::Wake)
            | (Next::WakeOr(deadline), Next::Stop)
            | (Next::Wake, Next::WakeOr(deadline))
            | (Next::Stop, Next::WakeOr(deadline)) => Next::WakeOr(deadline),
            (Next::Wake, Next::Wake) | (Next::Wake, Next::Stop) | (Next::Stop, Next::Wake) => {
                Next::Wake
            },
            (Next::Stop, Next::Stop) => Next::Stop,
        }
    }

    /// The bounded host wait, in nanoseconds, for this scheduling interest.
    pub open spec fn bounded_wait_nanos(self, now: Moment, ceiling: Span) -> u64 {
        match self {
            Next::Now => 0,
            Next::Wake => ceiling.nanos(),
            Next::Stop => ceiling.nanos(),
            Next::WakeOr(deadline) => {
                let remaining: u64 = if deadline.nanos() >= now.nanos() {
                    (deadline.nanos() - now.nanos()) as u64
                } else {
                    0
                };
                if remaining <= ceiling.nanos() {
                    remaining
                } else {
                    ceiling.nanos()
                }
            },
        }
    }

    /// Returns a bounded host wait for this scheduling interest.
    ///
    /// `Stop` returns the ceiling because a mixed host may still contain live
    /// owners. A host whose aggregate is `Stop` should terminate instead of
    /// waiting.
    pub fn bounded_wait(self, now: Moment, ceiling: Span) -> (wait: Span)
        ensures
            wait.nanos() == self.bounded_wait_nanos(now, ceiling),
    {
        match self {
            Next::Now => Span::zero(),
            Next::Wake | Next::Stop => ceiling,
            Next::WakeOr(deadline) => deadline.remaining_at(now).min(ceiling),
        }
    }
}

/// Work and complete scheduling interest from one bounded turn.
#[derive(Clone, Copy, Debug, PartialEq, Eq, Structural)]
pub struct Turn {
    work: WorkCount,
    next: Next,
}

impl Turn {
    /// Work completed during this turn.
    pub closed spec fn work_spec(self) -> WorkCount {
        self.work
    }

    /// The owner's complete scheduling interest.
    pub closed spec fn next_spec(self) -> Next {
        self.next
    }

    /// Two turns with the same work and interest are the same turn.
    pub proof fn lemma_parts_injective(a: Turn, b: Turn)
        ensures
            (a.work_spec() == b.work_spec() && a.next_spec() == b.next_spec()) <==> a == b,
    {
    }

    /// Creates a turn result.
    pub fn new(work: WorkCount, next: Next) -> (turn: Turn)
        ensures
            turn.work_spec() == work,
            turn.next_spec() == next,
    {
        Turn { work, next }
    }

    /// Reports no work and a safe external-wake wait.
    pub fn waiting() -> (turn: Turn)
        ensures
            turn.work_spec().count() == 0,
            turn.next_spec() == Next::Wake,
    {
        Turn::new(WorkCount::zero(), Next::Wake)
    }

    /// Reports immediately runnable work.
    pub fn runnable(work: WorkCount) -> (turn: Turn)
        ensures
            turn.work_spec() == work,
            turn.next_spec() == Next::Now,
    {
        Turn::new(work, Next::Now)
    }

    /// Reports an absolute next deadline.
    pub fn until(work: WorkCount, deadline: Deadline) -> (turn: Turn)
        ensures
            turn.work_spec() == work,
            turn.next_spec() == Next::WakeOr(deadline),
    {
        Turn::new(work, Next::WakeOr(deadline))
    }

    /// Reports terminal lifecycle completion.
    pub fn stopped(work: WorkCount) -> (turn: Turn)
        ensures
            turn.work_spec() == work,
            turn.next_spec() == Next::Stop,
    {
        Turn::new(work, Next::Stop)
    }

    /// Returns work completed during this turn.
    pub fn work(self) -> (work: WorkCount)
        ensures
            work == self.work_spec(),
    {
        self.work
    }

    /// Returns the owner's complete scheduling interest.
    pub fn next(self) -> (next: Next)
        ensures
            next == self.next_spec(),
    {
        self.next
    }

    /// Combines results from independent owners or mechanisms.
    pub fn merge(self, other: Turn) -> (merged: Turn)
        ensures
            merged.work_spec().count() == WorkCount::saturating_sum(
                self.work_spec().count(),
                other.work_spec().count(),
            ),
            merged.next_spec() == self.next_spec().merge_spec(other.next_spec()),
    {
        Turn { work: self.work.saturating_add(other.work), next: self.next.merge(other.next) }
    }
}

/// Merging scheduling interest is commutative: the order in which a host
/// combines two owners does not change the result.
pub proof fn lemma_next_merge_commutative(a: Next, b: Next)
    ensures
        a.merge_spec(b) == b.merge_spec(a),
{
    if let (Next::WakeOr(x), Next::WakeOr(y)) = (a, b) {
        if x.nanos() == y.nanos() {
            Moment::lemma_nanos_injective(x.moment_spec(), y.moment_spec());
            Deadline::lemma_moment_injective(x, y);
        }
    }
}

/// Merging scheduling interest is associative, so any grouping of owners
/// yields the same aggregate.
pub proof fn lemma_next_merge_associative(a: Next, b: Next, c: Next)
    ensures
        a.merge_spec(b).merge_spec(c) == a.merge_spec(b.merge_spec(c)),
{
}

/// `Stop` is the identity of merging and `Now` absorbs every interest.
pub proof fn lemma_next_merge_identity_and_absorption(a: Next)
    ensures
        a.merge_spec(Next::Stop) == a,
        Next::Stop.merge_spec(a) == a,
        a.merge_spec(Next::Now) == Next::Now,
        Next::Now.merge_spec(a) == Next::Now,
        a.merge_spec(a) == a,
{
}

/// A merged deadline is never later than either merged deadline: the
/// aggregate wait never overshoots an owner's requested deadline.
pub proof fn lemma_next_merge_earliest_deadline(a: Deadline, b: Deadline)
    ensures
        Next::WakeOr(a).merge_spec(Next::WakeOr(b)) matches Next::WakeOr(d) && d.nanos()
            <= a.nanos() && d.nanos() <= b.nanos() && (d == a || d == b),
{
}

/// A bounded wait never exceeds its ceiling, and only immediate work yields
/// a zero wait without an elapsed deadline.
pub proof fn lemma_bounded_wait_within_ceiling(next: Next, now: Moment, ceiling: Span)
    ensures
        next.bounded_wait_nanos(now, ceiling) <= ceiling.nanos(),
        next == Next::Now ==> next.bounded_wait_nanos(now, ceiling) == 0,
{
}

/// Saturating work addition is commutative and never decreases either count.
pub proof fn lemma_work_saturating_add(a: u64, b: u64)
    ensures
        WorkCount::saturating_sum(a, b) == WorkCount::saturating_sum(b, a),
        WorkCount::saturating_sum(a, b) >= a,
        WorkCount::saturating_sum(a, b) >= b,
        WorkCount::saturating_sum(a, 0) == a,
{
}

} // verus!
