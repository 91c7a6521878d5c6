//! Single-owner stable deadline ordering with eager exact cancellation.

use vstd::prelude::*;

use crate::count::NonZeroCount;
use crate::retained::{ByRetained, Retained, RetainedBytes, RetainedMeasure};
use crate::time::{Deadline, Moment};

use super::error::{lemma_schedule_error_parts, TimerScheduleError, TimerScheduleFailure};
use super::identity::{group_timer_identity, TimerId, TimerOwnerId, TimerToken};
use super::limits::TimerLimits;
use super::snapshot::{TimerDrain, TimerQueueSnapshot};
use super::value::{lemma_timer_parts, Timer};

verus! {

broadcast use {group_timer_identity, lemma_timer_parts, lemma_schedule_error_parts};

/// Stable count- and retained-byte-bounded owner-local timer queue.
///
/// Pending timers are kept latest-due first, so the timer that fires next is
/// always the last one.
#[derive(Debug)]
pub struct TimerQueue<T, M = ByRetained> {
    owner: TimerOwnerId,
    limits: TimerLimits,
    measure: M,
    timers: Vec<Timer<T>>,
    next_id: Option<TimerId>,
    retained: RetainedBytes,
}

/// Timer `a` fires before timer `b`: an earlier deadline, or the same
/// deadline and an earlier admission identity.
pub open spec fn due_before(a: TimerToken, b: TimerToken) -> bool {
    ||| a.deadline_spec().nanos() < b.deadline_spec().nanos()
    ||| (a.deadline_spec().nanos() == b.deadline_spec().nanos() && a.id_spec().value()
        < b.id_spec().value())
}

/// The timers are ordered latest-due first.
pub open spec fn latest_first<T>(timers: Seq<Timer<T>>) -> bool {
    forall|i: int, j: int|
        0 <= i < j < timers.len() ==> due_before(
            #[trigger] timers[j].token_spec(),
            #[trigger] timers[i].token_spec(),
        )
}

/// The total bytes measured for the timers at admission.
pub open spec fn sum_retained<T>(timers: Seq<Timer<T>>) -> nat
    decreases timers.len(),
{
    if timers.len() == 0 {
        0
    } else {
        sum_retained(timers.drop_last()) + timers.last().retained_spec().bytes() as nat
    }
}

/// The timer is due at `now`.
pub open spec fn is_due<T>(timer: Timer<T>, now: Moment) -> bool {
    timer.token_spec().deadline_spec().nanos() <= now.nanos()
}

/// The earliest pending timer, if any.
pub open spec fn earliest<T>(timers: Seq<Timer<T>>) -> Option<Timer<T>> {
    if timers.len() == 0 {
        None
    } else {
        Some(timers.last())
    }
}

/// `after` is `before` with `timer` inserted at some position.
pub open spec fn inserted<T>(before: Seq<Timer<T>>, after: Seq<Timer<T>>, timer: Timer<T>) -> bool {
    exists|k: int| 0 <= k <= before.len() && after == before.insert(k, timer)
}

/// Inserting a timer adds its measurement to the sum.
pub proof fn lemma_sum_insert<T>(timers: Seq<Timer<T>>, k: int, timer: Timer<T>)
    requires
        0 <= k <= timers.len(),
    ensures
        sum_retained(timers.insert(k, timer)) == sum_retained(timers) + timer.retained_spec().bytes(),
    decreases timers.len(),
{
    let after = timers.insert(k, timer);
    if k < timers.len() {
        assert(after.drop_last() =~= timers.drop_last().insert(k, timer));
        lemma_sum_insert(timers.drop_last(), k, timer);
    } else {
        assert(after.drop_last() =~= timers);
    }
}

/// Removing a timer takes its measurement away from the sum.
pub proof fn lemma_sum_remove<T>(timers: Seq<Timer<T>>, i: int)
    requires
        0 <= i < timers.len(),
    ensures
        sum_retained(timers.remove(i)) + timers[i].retained_spec().bytes() == sum_retained(timers),
    decreases timers.len(),
{
    let after = timers.remove(i);
    if i < timers.len() - 1 {
        assert(after.drop_last() =~= timers.drop_last().remove(i));
        lemma_sum_remove(timers.drop_last(), i);
    } else {
        assert(after =~= timers.drop_last());
    }
}

impl<T: Retained> TimerQueue<T, ByRetained> {
    /// Creates an empty queue whose first timer identity is zero, measuring
    /// values by their own retained-byte report.
    pub fn new(owner: TimerOwnerId, limits: TimerLimits) -> (queue: Self)
        ensures
            queue.wf(),
            queue.owner_spec() == owner,
            queue.limits_spec() == limits,
            queue.pending().len() == 0,
            queue.next_id_spec() == Some(TimerId::from_value(0)),
            queue.retained_spec().bytes() == 0,
    {
        Self::with_measure(owner, limits, ByRetained)
    }

    /// Creates an empty queue whose first successful admission uses
    /// `first_id`.
    ///
    /// This supports restored identity floors and deterministic exhaustion
    /// tests. A queue must never restart below an identity that can still be
    /// presented for cancellation.
    pub fn starting_at(owner: TimerOwnerId, limits: TimerLimits, first_id: TimerId) -> (queue: Self)
        ensures
            queue.wf(),
            queue.owner_spec() == owner,
            queue.limits_spec() == limits,
            queue.pending().len() == 0,
            queue.next_id_spec() == Some(first_id),
            queue.retained_spec().bytes() == 0,
    {
        Self::starting_at_with_measure(owner, limits, first_id, ByRetained)
    }
}

impl<T, M> TimerQueue<T, M> {
    /// The stable owner identity.
    pub closed spec fn owner_spec(self) -> TimerOwnerId {
        self.owner
    }

    /// The configured hard limits.
    pub closed spec fn limits_spec(self) -> TimerLimits {
        self.limits
    }

    /// The retained-byte measurement.
    pub closed spec fn measure_spec(self) -> M {
        self.measure
    }

    /// The pending timers, latest-due first.
    pub closed spec fn pending(self) -> Seq<Timer<T>> {
        self.timers@
    }

    /// The identity the next successful admission would consume.
    pub closed spec fn next_id_spec(self) -> Option<TimerId> {
        self.next_id
    }

    /// The variable bytes retained by pending timers.
    pub closed spec fn retained_spec(self) -> RetainedBytes {
        self.retained
    }

    /// Internal consistency: bounded, ordered, owned, uniquely identified,
    /// and exactly accounted pending timers.
    pub open spec fn wf(self) -> bool {
        let pending = self.pending();
        &&& pending.len() <= self.limits_spec().timers_spec().value()
        &&& latest_first(pending)
        &&& forall|i: int|
            0 <= i < pending.len() ==> (#[trigger] pending[i]).token_spec().owner_spec()
                == self.owner_spec()
        &&& forall|i: int|
            0 <= i < pending.len() ==> match self.next_id_spec() {
                Some(next) => (#[trigger] pending[i]).token_spec().id_spec().value() < next.value(),
                None => true,
            }
        &&& forall|i: int, j: int|
            0 <= i < pending.len() && 0 <= j < pending.len() && i != j ==> (#[trigger] pending[i]).token_spec().id_spec()
                != (#[trigger] pending[j]).token_spec().id_spec()
        &&& self.retained_spec().bytes() == sum_retained(pending)
        &&& self.retained_spec().bytes() <= self.limits_spec().retained_bytes_spec().bytes()
    }

    /// The result of admitting `value` at `deadline` with a measurement of
    /// `retained` bytes: capacity is checked first, then retained-byte
    /// overflow, then the retained-byte limit, then identity exhaustion.
    pub open spec fn schedule_outcome(
        self,
        after: Self,
        deadline: Deadline,
        value: T,
        retained: RetainedBytes,
        result: Result<TimerToken, TimerScheduleError<T>>,
    ) -> bool {
        let limit = self.limits_spec().timers_spec();
        let current = self.retained_spec();
        let total = current.bytes() + retained.bytes();
        let rejected = |failure: TimerScheduleFailure|
            {
                &&& result == Err::<TimerToken, TimerScheduleError<T>>(
                    TimerScheduleError::from_parts(deadline, value, failure),
                )
                &&& after.pending() == self.pending()
                &&& after.next_id_spec() == self.next_id_spec()
                &&& after.retained_spec() == self.retained_spec()
            };
        &&& after.owner_spec() == self.owner_spec()
        &&& after.limits_spec() == self.limits_spec()
        &&& after.measure_spec() == self.measure_spec()
        &&& if self.pending().len() >= limit.value() {
            rejected(TimerScheduleFailure::TimerCapacity { limit })
        } else if total > u64::MAX {
            rejected(TimerScheduleFailure::RetainedByteOverflow { current, timer: retained })
        } else if total > self.limits_spec().retained_bytes_spec().bytes() {
            rejected(
                TimerScheduleFailure::RetainedByteCapacity {
                    limit: self.limits_spec().retained_bytes_spec(),
                    current,
                    timer: retained,
                },
            )
        } else {
            match self.next_id_spec() {
                None => rejected(TimerScheduleFailure::TimerIdsExhausted),
                Some(id) => {
                    let token = TimerToken::from_parts(self.owner_spec(), id, deadline);
                    &&& result == Ok::<TimerToken, TimerScheduleError<T>>(token)
                    &&& inserted(self.pending(), after.pending(), Timer::from_parts(token, value, retained))
                    &&& after.next_id_spec() == (if id.value() < u64::MAX {
                        Some(TimerId::from_value((id.value() + 1) as u64))
                    } else {
                        None
                    })
                    &&& after.retained_spec().bytes() == total
                },
            }
        }
    }

    /// Creates an empty queue using an explicit retained-byte measurement.
    pub fn with_measure(owner: TimerOwnerId, limits: TimerLimits, measure: M) -> (queue: Self)
        ensures
            queue.wf(),
            queue.owner_spec() == owner,
            queue.limits_spec() == limits,
            queue.measure_spec() == measure,
            queue.pending().len() == 0,
            queue.next_id_spec() == Some(TimerId::from_value(0)),
            queue.retained_spec().bytes() == 0,
    {
        Self::starting_at_with_measure(owner, limits, TimerId::zero(), measure)
    }

    /// Creates a measured queue whose first successful admission uses
    /// `first_id`.
    pub fn starting_at_with_measure(
        owner: TimerOwnerId,
        limits: TimerLimits,
        first_id: TimerId,
        measure: M,
    ) -> (queue: Self)
        ensures
            queue.wf(),
            queue.owner_spec() == owner,
            queue.limits_spec() == limits,
            queue.measure_spec() == measure,
            queue.pending().len() == 0,
            queue.next_id_spec() == Some(first_id),
            queue.retained_spec().bytes() == 0,
    {
        let capacity = limits.timers().get();
        TimerQueue {
            owner,
            limits,
            measure,
            timers: Vec::with_capacity(capacity),
            next_id: Some(first_id),
            retained: RetainedBytes::zero(),
        }
    }

    /// Returns this queue's stable owner identity.
    pub fn owner(&self) -> (owner: TimerOwnerId)
        ensures
            owner == self.owner_spec(),
    {
        self.owner
    }

    /// Returns configured hard limits.
    pub fn limits(&self) -> (limits: TimerLimits)
        ensures
            limits == self.limits_spec(),
    {
        self.limits
    }

    /// Returns whether no timers are pending.
    pub fn is_empty(&self) -> (empty: bool)
        ensures
            empty == (self.pending().len() == 0),
    {
        self.timers.len() == 0
    }

    /// Returns the pending timer count.
    pub fn len(&self) -> (len: usize)
        ensures
            len == self.pending().len(),
    {
        self.timers.len()
    }

    /// Returns the earliest deadline without changing ownership.
    pub fn next_deadline(&self) -> (deadline: Option<Deadline>)
        ensures
            deadline == (match earliest(self.pending()) {
                Some(timer) => Some(timer.token_spec().deadline_spec()),
                None => None,
            }),
    {
        if self.timers.len() == 0 {
            None
        } else {
            Some(self.timers[self.timers.len() - 1].deadline())
        }
    }
}

impl<T, M> TimerQueue<T, M> {
    /// Admits `value` at `deadline` given its measured retained bytes.
    ///
    /// On rejection the queue is unchanged and the deadline and value come
    /// back inside the error.
    pub fn schedule_measured(&mut self, deadline: Deadline, value: T, retained: RetainedBytes) -> (result:
        Result<TimerToken, TimerScheduleError<T>>)
        requires
            old(self).wf(),
        ensures
            final(self).wf(),
            old(self).schedule_outcome(*final(self), deadline, value, retained, result),
    {
        if self.timers.len() >= self.limits.timers().get() {
            return Err(
                TimerScheduleError::new(
                    deadline,
                    value,
                    TimerScheduleFailure::TimerCapacity { limit: self.limits.timers() },
                ),
            );
        }
        let total = match self.retained.checked_add(retained) {
            Some(total) => total,
            None => {
                return Err(
                    TimerScheduleError::new(
                        deadline,
                        value,
                        TimerScheduleFailure::RetainedByteOverflow {
                            current: self.retained,
                            timer: retained,
                        },
                    ),
                );
            },
        };
        if total.get() > self.limits.retained_bytes().get() {
            return Err(
                TimerScheduleError::new(
                    deadline,
                    value,
                    TimerScheduleFailure::RetainedByteCapacity {
                        limit: self.limits.retained_bytes(),
                        current: self.retained,
                        timer: retained,
                    },
                ),
            );
        }
        let id = match self.next_id {
            Some(id) => id,
            None => {
                return Err(
                    TimerScheduleError::new(
                        deadline,
                        value,
                        TimerScheduleFailure::TimerIdsExhausted,
                    ),
                );
            },
        };
        let token = TimerToken::new(self.owner, id, deadline);
        let timer = Timer::new(token, value, retained);
        let position = self.insertion_point(token);
        let ghost before = self.timers@;
        proof {
            lemma_sum_insert(before, position as int, timer);
            assert(self.timers@.insert(position as int, timer).len() == before.len() + 1);
        }
        self.timers.insert(position, timer);
        self.next_id = id.checked_next();
        self.retained = total;
        proof {
            let after = self.timers@;
            assert(after == before.insert(position as int, timer));
            assert forall|i: int, j: int| 0 <= i < j < after.len() implies due_before(
                #[trigger] after[j].token_spec(),
                #[trigger] after[i].token_spec(),
            ) by {
                if j < position {
                } else if j == position {
                } else if i < position {
                    assert(due_before(before[position as int].token_spec(), token) || position == before.len());
                } else if i == position {
                } else {
                }
            }
        }
        Ok(token)
    }

    fn insertion_point(&self, token: TimerToken) -> (position: usize)
        requires
            self.wf(),
            self.next_id_spec() == Some(token.id_spec()),
        ensures
            position <= self.pending().len(),
            forall|j: int| 0 <= j < position ==> due_before(token, #[trigger] self.pending()[j].token_spec()),
            forall|j: int|
                position <= j < self.pending().len() ==> due_before(#[trigger] self.pending()[j].token_spec(), token),
    {
        let mut i: usize = 0;
        while i < self.timers.len()
            invariant
                self.wf(),
                self.next_id_spec() == Some(token.id_spec()),
                i <= self.timers@.len(),
                forall|j: int| 0 <= j < i ==> due_before(token, #[trigger] self.timers@[j].token_spec()),
            decreases self.timers@.len() - i,
        {
            let current = self.timers[i].token();
            if current.deadline().moment().as_nanos() < token.deadline().moment().as_nanos()
                || (current.deadline().moment().as_nanos() == token.deadline().moment().as_nanos()
                && current.id().get() < token.id().get()) {
                proof {
                    assert forall|j: int| i <= j < self.timers@.len() implies due_before(
                        #[trigger] self.timers@[j].token_spec(),
                        token,
                    ) by {
                        if j > i {
                            assert(due_before(self.timers@[j].token_spec(), self.timers@[i as int].token_spec()));
                        }
                    }
                }
                return i;
            }
            proof {
                assert(self.timers@[i as int].token_spec().id_spec().value() < token.id_spec().value());
            }
            i = i + 1;
        }
        i
    }
}

/// The last `count` pending timers in firing order: earliest first.
pub open spec fn fire_order<T>(pending: Seq<Timer<T>>, count: int) -> Seq<Timer<T>> {
    Seq::new(count as nat, |m: int| pending[pending.len() - 1 - m])
}

/// The number of timers of `timers` that are due at `now`.
pub open spec fn due_count<T>(timers: Seq<Timer<T>>, now: Moment) -> nat
    decreases timers.len(),
{
    if timers.len() == 0 {
        0
    } else {
        due_count(timers.drop_last(), now) + if is_due(timers.last(), now) {
            1nat
        } else {
            0nat
        }
    }
}

/// A sequence with no due timer has a due count of zero.
proof fn lemma_due_count_none<T>(timers: Seq<Timer<T>>, now: Moment)
    requires
        forall|i: int| 0 <= i < timers.len() ==> !is_due(#[trigger] timers[i], now),
    ensures
        due_count(timers, now) == 0,
    decreases timers.len(),
{
    if timers.len() > 0 {
        let shorter = timers.drop_last();
        assert forall|i: int| 0 <= i < shorter.len() implies !is_due(#[trigger] shorter[i], now) by {
            assert(shorter[i] == timers[i]);
        }
        lemma_due_count_none(shorter, now);
        assert(!is_due(timers[timers.len() - 1], now));
    }
}

/// In a latest-first sequence whose last `fired` timers are due, at least
/// `fired` timers are due; exactly `fired` when the next one is not due, and
/// more when it is.
pub proof fn lemma_due_count_suffix<T>(timers: Seq<Timer<T>>, now: Moment, fired: int)
    requires
        latest_first(timers),
        0 <= fired <= timers.len(),
        forall|m: int| 0 <= m < fired ==> is_due(#[trigger] timers[timers.len() - 1 - m], now),
    ensures
        due_count(timers, now) >= fired,
        (fired == timers.len() || !is_due(timers[timers.len() - 1 - fired], now)) ==> due_count(
            timers,
            now,
        ) == fired,
        (fired < timers.len() && is_due(timers[timers.len() - 1 - fired], now)) ==> due_count(
            timers,
            now,
        ) > fired,
    decreases timers.len(), timers.len() - fired,
{
    let len = timers.len() as int;
    if fired < len && is_due(timers[len - 1 - fired], now) {
        assert forall|m: int| 0 <= m < fired + 1 implies is_due(#[trigger] timers[len - 1 - m], now) by {
        }
        lemma_due_count_suffix(timers, now, fired + 1);
    } else if fired > 0 {
        let shorter = timers.drop_last();
        assert forall|m: int| 0 <= m < fired - 1 implies is_due(
            #[trigger] shorter[shorter.len() - 1 - m],
            now,
        ) by {
            assert(shorter[shorter.len() - 1 - m] == timers[len - 1 - (m + 1)]);
            assert(is_due(timers[len - 1 - (m + 1)], now));
        }
        assert forall|i: int, j: int| 0 <= i < j < shorter.len() implies due_before(
            #[trigger] shorter[j].token_spec(),
            #[trigger] shorter[i].token_spec(),
        ) by {
            assert(shorter[i] == timers[i] && shorter[j] == timers[j]);
        }
        if fired < len {
            assert(shorter[shorter.len() - 1 - (fired - 1)] == timers[len - 1 - fired]);
        }
        lemma_due_count_suffix(shorter, now, fired - 1);
        assert(is_due(timers[len - 1 - 0], now));
    } else {
        if len > 0 {
            assert forall|i: int| 0 <= i < len implies !is_due(#[trigger] timers[i], now) by {
                if i < len - 1 {
                    assert(due_before(timers[len - 1].token_spec(), timers[i].token_spec()));
                }
            }
        }
        lemma_due_count_none(timers, now);
    }
}

impl<T, M: RetainedMeasure<T>> TimerQueue<T, M> {
    /// Admits one value at an absolute deadline.
    ///
    /// The value is measured only once the timer-count limit admits it; the
    /// outcome is then exactly that of [`Self::schedule_measured`] for the
    /// measured bytes.
    pub fn schedule(&mut self, deadline: Deadline, value: T) -> (result: Result<
        TimerToken,
        TimerScheduleError<T>,
    >)
        requires
            old(self).wf(),
        ensures
            final(self).wf(),
            exists|retained: RetainedBytes|
                {
                    &&& old(self).pending().len() < old(self).limits_spec().timers_spec().value()
                        ==> call_ensures(M::measure, (&old(self).measure_spec(), &value), retained)
                    &&& old(self).schedule_outcome(*final(self), deadline, value, retained, result)
                },
    {
        if self.timers.len() >= self.limits.timers().get() {
            let result = Err(
                TimerScheduleError::new(
                    deadline,
                    value,
                    TimerScheduleFailure::TimerCapacity { limit: self.limits.timers() },
                ),
            );
            assert(old(self).schedule_outcome(*self, deadline, value, RetainedBytes::zero_spec(), result));
            return result;
        }
        let retained = self.measure.measure(&value);
        self.schedule_measured(deadline, value, retained)
    }
}

impl<T, M> TimerQueue<T, M> {
    /// Cancels exactly the named pending timer and returns ownership.
    pub fn cancel(&mut self, token: TimerToken) -> (removed: Option<Timer<T>>)
        requires
            old(self).wf(),
        ensures
            final(self).wf(),
            final(self).owner_spec() == old(self).owner_spec(),
            final(self).limits_spec() == old(self).limits_spec(),
            final(self).measure_spec() == old(self).measure_spec(),
            final(self).next_id_spec() == old(self).next_id_spec(),
            match removed {
                Some(timer) => exists|i: int|
                    {
                        &&& 0 <= i < old(self).pending().len()
                        &&& #[trigger] old(self).pending()[i] == timer
                        &&& timer.token_spec() == token
                        &&& final(self).pending() == old(self).pending().remove(i)
                        &&& final(self).retained_spec().bytes() + timer.retained_spec().bytes()
                            == old(self).retained_spec().bytes()
                    },
                None => {
                    &&& forall|i: int|
                        0 <= i < old(self).pending().len() ==> (#[trigger] old(self).pending()[i]).token_spec()
                            != token
                    &&& final(self).pending() == old(self).pending()
                    &&& final(self).retained_spec() == old(self).retained_spec()
                },
            },
    {
        if token.owner() != self.owner {
            return None;
        }
        let mut i: usize = 0;
        while i < self.timers.len()
            invariant
                *self == *old(self),
                old(self).wf(),
                i <= self.timers@.len(),
                forall|j: int| 0 <= j < i ==> (#[trigger] self.timers@[j]).token_spec() != token,
            decreases self.timers@.len() - i,
        {
            if self.timers[i].token() == token {
                let ghost before = self.timers@;
                proof {
                    lemma_sum_remove(before, i as int);
                }
                let timer = self.timers.remove(i);
                self.retained = RetainedBytes::new(
                    self.retained.get() - timer.measured_retained_bytes().get(),
                );
                proof {
                    let after = self.timers@;
                    assert(after == before.remove(i as int));
                    assert forall|a: int, b: int| 0 <= a < b < after.len() implies due_before(
                        #[trigger] after[b].token_spec(),
                        #[trigger] after[a].token_spec(),
                    ) by {
                        let a0 = if a < i { a } else { a + 1 };
                        let b0 = if b < i { b } else { b + 1 };
                        assert(after[a] == before[a0]);
                        assert(after[b] == before[b0]);
                    }
                    assert forall|a: int, b: int|
                        0 <= a < after.len() && 0 <= b < after.len() && a != b implies (#[trigger] after[a]).token_spec().id_spec()
                        != (#[trigger] after[b]).token_spec().id_spec() by {
                        let a0 = if a < i { a } else { a + 1 };
                        let b0 = if b < i { b } else { b + 1 };
                        assert(after[a] == before[a0]);
                        assert(after[b] == before[b0]);
                    }
                }
                return Some(timer);
            }
            i = i + 1;
        }
        None
    }

    /// Removes the first timer when it is due at `now`.
    pub fn pop_due(&mut self, now: Moment) -> (popped: Option<Timer<T>>)
        requires
            old(self).wf(),
        ensures
            final(self).wf(),
            final(self).owner_spec() == old(self).owner_spec(),
            final(self).limits_spec() == old(self).limits_spec(),
            final(self).measure_spec() == old(self).measure_spec(),
            final(self).next_id_spec() == old(self).next_id_spec(),
            match popped {
                Some(timer) => {
                    &&& earliest(old(self).pending()) == Some(timer)
                    &&& is_due(timer, now)
                    &&& final(self).pending() == old(self).pending().drop_last()
                    &&& final(self).retained_spec().bytes() + timer.retained_spec().bytes()
                        == old(self).retained_spec().bytes()
                },
                None => {
                    &&& match earliest(old(self).pending()) {
                        Some(timer) => !is_due(timer, now),
                        None => true,
                    }
                    &&& final(self).pending() == old(self).pending()
                    &&& final(self).retained_spec() == old(self).retained_spec()
                },
            },
    {
        let len = self.timers.len();
        if len == 0 {
            return None;
        }
        if !self.timers[len - 1].deadline().is_elapsed_at(now) {
            return None;
        }
        let ghost before = self.timers@;
        proof {
            lemma_sum_remove(before, before.len() - 1);
            assert(before.remove(before.len() - 1) =~= before.drop_last());
        }
        match self.timers.pop() {
            Some(timer) => {
                self.retained = RetainedBytes::new(
                    self.retained.get() - timer.measured_retained_bytes().get(),
                );
                Some(timer)
            },
            None => None,
        }
    }

    /// Transfers no more than `budget` due timers, earliest first.
    pub fn drain_due_into(
        &mut self,
        now: Moment,
        destination: &mut Vec<Timer<T>>,
        budget: NonZeroCount,
    ) -> (drain: TimerDrain)
        requires
            old(self).wf(),
        ensures
            final(self).wf(),
            final(self).owner_spec() == old(self).owner_spec(),
            final(self).limits_spec() == old(self).limits_spec(),
            final(self).measure_spec() == old(self).measure_spec(),
            final(self).next_id_spec() == old(self).next_id_spec(),
            ({
                let pending = old(self).pending();
                let len = pending.len() as int;
                let fired = drain.fired_spec() as int;
                &&& fired <= budget.value()
                &&& fired <= len
                &&& final(self).pending() == pending.subrange(0, len - fired)
                &&& final(destination)@ == old(destination)@ + fire_order(pending, fired)
                &&& forall|m: int| 0 <= m < fired ==> is_due(#[trigger] pending[len - 1 - m], now)
                &&& fired < budget.value() ==> (fired == len || !is_due(pending[len - 1 - fired], now))
                &&& drain.more_due_spec() == (fired < len && is_due(pending[len - 1 - fired], now))
                &&& fired == (if budget.value() <= due_count(pending, now) {
                    budget.value() as int
                } else {
                    due_count(pending, now) as int
                })
                &&& drain.more_due_spec() == (due_count(pending, now) > fired)
                &&& drain.more_due_spec() == (match earliest(final(self).pending()) {
                    Some(timer) => is_due(timer, now),
                    None => false,
                })
            }),
    {
        let ghost pending = self.timers@;
        let ghost start = destination@;
        let limit = budget.get();
        let mut fired: usize = 0;
        while fired < limit
            invariant
                self.wf(),
                self.owner_spec() == old(self).owner_spec(),
                self.limits_spec() == old(self).limits_spec(),
                self.measure_spec() == old(self).measure_spec(),
                self.next_id_spec() == old(self).next_id_spec(),
                pending == old(self).pending(),
                start == old(destination)@,
                limit == budget.value(),
                fired <= limit,
                fired <= pending.len(),
                self.pending() == pending.subrange(0, pending.len() - fired),
                destination@ == start + fire_order(pending, fired as int),
                forall|m: int| 0 <= m < fired ==> is_due(#[trigger] pending[pending.len() - 1 - m], now),
            ensures
                fired == limit || fired == pending.len() || !is_due(pending[pending.len() - 1 - fired], now),
            decreases limit - fired,
        {
            match self.pop_due(now) {
                Some(timer) => {
                    destination.push(timer);
                    fired = fired + 1;
                    proof {
                        assert(self.pending() =~= pending.subrange(0, pending.len() - fired));
                        assert(destination@ =~= start + fire_order(pending, fired as int));
                    }
                },
                None => {
                    break;
                },
            }
        }
        let more_due = match self.next_deadline() {
            Some(deadline) => deadline.is_elapsed_at(now),
            None => false,
        };
        proof {
            lemma_due_count_suffix(pending, now, fired as int);
        }
        TimerDrain::new(fired, more_due)
    }

    /// Returns current limits and retained ownership.
    pub fn snapshot(&self) -> (snapshot: TimerQueueSnapshot)
        requires
            self.wf(),
        ensures
            snapshot.owner_spec() == self.owner_spec(),
            snapshot.limits_spec() == self.limits_spec(),
            snapshot.pending_timers_spec() == self.pending().len(),
            snapshot.retained_bytes_spec() == self.retained_spec(),
            snapshot.next_deadline_spec() == (match earliest(self.pending()) {
                Some(timer) => Some(timer.token_spec().deadline_spec()),
                None => None,
            }),
            snapshot.next_id_spec() == self.next_id_spec(),
    {
        TimerQueueSnapshot::new(
            self.owner,
            self.limits,
            self.timers.len(),
            self.retained,
            self.next_deadline(),
            self.next_id,
        )
    }

    /// Borrows every pending timer.
    ///
    /// The order is unspecified; callers must not infer deadline order from
    /// it.
    pub fn iter(&self) -> (timers: Vec<&Timer<T>>)
        ensures
            timers@.len() == self.pending().len(),
            forall|i: int| 0 <= i < timers@.len() ==> *timers@[i] == self.pending()[i],
    {
        let mut timers: Vec<&Timer<T>> = Vec::with_capacity(self.timers.len());
        let mut i: usize = 0;
        while i < self.timers.len()
            invariant
                i <= self.timers@.len(),
                timers@.len() == i,
                forall|j: int| 0 <= j < i ==> *timers@[j] == self.timers@[j],
            decreases self.timers@.len() - i,
        {
            timers.push(&self.timers[i]);
            i = i + 1;
        }
        timers
    }
}

} // verus!
