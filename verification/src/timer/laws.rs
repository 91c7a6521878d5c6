//! Laws of the timer queue: stable firing order, exact cancellation, and
//! identity freshness.

use vstd::prelude::*;

use super::identity::group_timer_identity;
use crate::retained::RetainedBytes;
use crate::time::Deadline;

use super::error::TimerScheduleError;
use super::identity::TimerToken;
use super::queue::{due_before, earliest, fire_order, latest_first, TimerQueue};
use super::value::Timer;

verus! {

broadcast use group_timer_identity;

/// Stable firing order: the next timer to fire has the earliest deadline of
/// all pending timers, and among equal deadlines the earliest admission.
pub proof fn lemma_earliest_fires_first<T, M>(queue: TimerQueue<T, M>)
    requires
        queue.wf(),
        queue.pending().len() > 0,
    ensures
        earliest(queue.pending()) matches Some(first) && forall|i: int|
            0 <= i < queue.pending().len() - 1 ==> due_before(
                first.token_spec(),
                #[trigger] queue.pending()[i].token_spec(),
            ),
{
}

/// Timers sharing a deadline fire in admission order.
pub proof fn lemma_equal_deadlines_fire_in_admission_order<T, M>(
    queue: TimerQueue<T, M>,
    i: int,
    j: int,
)
    requires
        queue.wf(),
        0 <= i < queue.pending().len(),
        0 <= j < queue.pending().len(),
        queue.pending()[i].token_spec().deadline_spec() == queue.pending()[j].token_spec().deadline_spec(),
        queue.pending()[i].token_spec().id_spec().value() < queue.pending()[j].token_spec().id_spec().value(),
    ensures
        j < i,
{
    if i < j {
        assert(due_before(queue.pending()[j].token_spec(), queue.pending()[i].token_spec()));
    }
}

/// A drained batch comes out earliest first: each fired timer is due no
/// later than the next one.
pub proof fn lemma_drained_in_due_order<T>(pending: Seq<Timer<T>>, fired: int)
    requires
        latest_first(pending),
        0 <= fired <= pending.len(),
    ensures
        forall|a: int, b: int|
            0 <= a < b < fired ==> due_before(
                #[trigger] fire_order(pending, fired)[a].token_spec(),
                #[trigger] fire_order(pending, fired)[b].token_spec(),
            ),
{
    assert forall|a: int, b: int| 0 <= a < b < fired implies due_before(
        #[trigger] fire_order(pending, fired)[a].token_spec(),
        #[trigger] fire_order(pending, fired)[b].token_spec(),
    ) by {
        let ia = pending.len() - 1 - a;
        let ib = pending.len() - 1 - b;
        assert(ib < ia);
        assert(due_before(pending[ia].token_spec(), pending[ib].token_spec()));
    }
}

/// Cancellation is exact and happens once: after a pending timer is removed,
/// no remaining timer carries its token.
pub proof fn lemma_cancelled_token_gone<T, M>(before: TimerQueue<T, M>, after: TimerQueue<T, M>, i: int)
    requires
        before.wf(),
        0 <= i < before.pending().len(),
        after.pending() == before.pending().remove(i),
    ensures
        forall|j: int|
            0 <= j < after.pending().len() ==> (#[trigger] after.pending()[j]).token_spec()
                != before.pending()[i].token_spec(),
{
    assert forall|j: int| 0 <= j < after.pending().len() implies (#[trigger] after.pending()[j]).token_spec()
        != before.pending()[i].token_spec() by {
        let j0 = if j < i { j } else { j + 1 };
        assert(after.pending()[j] == before.pending()[j0]);
        assert(before.pending()[j0].token_spec().id_spec() != before.pending()[i].token_spec().id_spec());
    }
}

/// Fresh identities: an identity about to be issued differs from every
/// pending timer's identity, so a new token never aliases a pending one.
pub proof fn lemma_next_id_is_fresh<T, M>(queue: TimerQueue<T, M>)
    requires
        queue.wf(),
    ensures
        queue.next_id_spec() matches Some(next) ==> forall|i: int|
            0 <= i < queue.pending().len() ==> (#[trigger] queue.pending()[i]).token_spec().id_spec()
                != next,
{
}

/// Read after schedule: a successful admission leaves exactly the admitted
/// timer pending under the returned token, so cancelling that token returns
/// the value.
pub proof fn lemma_scheduled_timer_is_pending<T, M>(
    before: TimerQueue<T, M>,
    after: TimerQueue<T, M>,
    deadline: Deadline,
    value: T,
    retained: RetainedBytes,
    token: TimerToken,
)
    requires
        before.schedule_outcome(
            after,
            deadline,
            value,
            retained,
            Ok::<TimerToken, TimerScheduleError<T>>(token),
        ),
    ensures
        exists|i: int|
            0 <= i < after.pending().len() && #[trigger] after.pending()[i] == Timer::from_parts(
                token,
                value,
                retained,
            ),
        token.deadline_spec() == deadline,
        token.owner_spec() == before.owner_spec(),
        after.pending().len() == before.pending().len() + 1,
{
    let k = choose|k: int|
        0 <= k <= before.pending().len() && after.pending() == before.pending().insert(
            k,
            Timer::from_parts(token, value, retained),
        );
    assert(after.pending()[k] == Timer::from_parts(token, value, retained));
}

/// After a successful admission the next deadline is the earlier of the
/// previous next deadline and the admitted deadline.
pub proof fn lemma_schedule_next_deadline<T, M>(
    before: TimerQueue<T, M>,
    after: TimerQueue<T, M>,
    deadline: Deadline,
    value: T,
    retained: RetainedBytes,
    token: TimerToken,
)
    requires
        before.wf(),
        after.wf(),
        before.schedule_outcome(
            after,
            deadline,
            value,
            retained,
            Ok::<TimerToken, TimerScheduleError<T>>(token),
        ),
    ensures
        earliest(after.pending()) matches Some(first) && first.token_spec().deadline_spec().nanos()
            == (match earliest(before.pending()) {
            Some(previous) => if previous.token_spec().deadline_spec().nanos() <= deadline.nanos() {
                previous.token_spec().deadline_spec().nanos()
            } else {
                deadline.nanos()
            },
            None => deadline.nanos(),
        }),
{
    let timer = Timer::from_parts(token, value, retained);
    super::value::lemma_timer_parts(token, value, retained);
    let k = choose|k: int|
        0 <= k <= before.pending().len() && after.pending() == before.pending().insert(k, timer);
    let b = before.pending();
    let a = after.pending();
    let last = a.len() - 1;
    assert(a[k] == timer);
    assert(timer.token_spec() == token);
    assert(token.deadline_spec() == deadline);
    if k < b.len() {
        assert(a[last] == b[b.len() - 1]);
        assert(due_before(a[last].token_spec(), a[k].token_spec()));
    } else {
        assert(a[last] == timer);
        if b.len() > 0 {
            assert(a[last - 1] == b[b.len() - 1]);
            assert(due_before(a[last].token_spec(), a[last - 1].token_spec()));
        }
    }
}

/// A queue whose retained-byte limit is zero admits only values measured at
/// zero bytes.
pub proof fn lemma_zero_byte_limit<T, M>(
    before: TimerQueue<T, M>,
    after: TimerQueue<T, M>,
    deadline: Deadline,
    value: T,
    retained: RetainedBytes,
    result: Result<TimerToken, TimerScheduleError<T>>,
)
    requires
        before.wf(),
        before.limits_spec().retained_bytes_spec().bytes() == 0,
        before.schedule_outcome(after, deadline, value, retained, result),
        result is Ok,
    ensures
        retained.bytes() == 0,
{
}

/// Owner identities keep queues apart: a token carrying another owner never
/// names a pending timer, so cancelling it changes nothing.
pub proof fn lemma_foreign_token_not_pending<T, M>(queue: TimerQueue<T, M>, token: TimerToken)
    requires
        queue.wf(),
        token.owner_spec() != queue.owner_spec(),
    ensures
        forall|i: int|
            0 <= i < queue.pending().len() ==> (#[trigger] queue.pending()[i]).token_spec() != token,
{
}

} // verus!
