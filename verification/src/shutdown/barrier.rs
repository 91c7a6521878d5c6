//! Phase and bounded subscriber ownership of one shutdown barrier.
//!
//! Every decision the barrier makes under its lock is a transition of
//! [`ShutdownState`]; the caller holds the lock, runs the first request
//! outside it, and completes or drops the subscriber handles handed back.

use vstd::prelude::*;

use crate::count::NonZeroCount;

verus! {

/// Lifecycle phase of a shutdown barrier.
#[derive(Clone, Copy, Debug, PartialEq, Eq, Structural)]
pub enum ShutdownPhase {
    /// No request has been published.
    Open,
    /// One subscriber is publishing the first request outside the lock.
    Requesting,
    /// The request was published; observers are being retained.
    Requested,
    /// Successful shutdown was published to every observer.
    Completed,
    /// The barrier closed without successful shutdown.
    Closed,
}

/// What one subscription attempt must do next, with the subscriber handle
/// returned whenever the barrier does not retain it.
#[derive(Debug, PartialEq, Eq)]
pub enum SubscribeStep<S> {
    /// This caller must publish the first request and then report it.
    PublishRequest(S),
    /// Another caller is publishing; wait for the phase to change and retry.
    Wait(S),
    /// The subscriber was retained until the barrier settles.
    Admitted,
    /// Shutdown already completed: complete the subscriber now.
    CompleteNow(S),
    /// The configured subscriber count is already retained.
    Full(S),
    /// The barrier closed.
    Closed(S),
}

/// How a successful first request ends.
#[derive(Debug, PartialEq, Eq)]
pub enum RequestSuccess<S> {
    /// The requesting subscriber was retained.
    Admitted,
    /// The barrier completed meanwhile: complete the subscriber now.
    Completed(S),
    /// The barrier closed meanwhile.
    Closed(S),
}

/// How a failed first request ends.
#[derive(Clone, Copy, Debug, PartialEq, Eq, Structural)]
pub enum RequestFailure {
    /// The barrier reopened so that a later subscriber may retry.
    Reopened,
    /// The barrier completed meanwhile.
    Completed,
    /// The barrier closed meanwhile.
    Closed,
}

/// Phase and retained subscribers of one bounded shutdown barrier.
#[derive(Debug)]
pub struct ShutdownState<S> {
    capacity: NonZeroCount,
    phase: ShutdownPhase,
    subscribers: Vec<S>,
}

impl<S> ShutdownState<S> {
    /// The maximum number of retained subscribers.
    pub closed spec fn capacity_spec(self) -> NonZeroCount {
        self.capacity
    }

    /// The current phase.
    pub closed spec fn phase_spec(self) -> ShutdownPhase {
        self.phase
    }

    /// The retained subscribers, in admission order.
    pub closed spec fn subscribers_spec(self) -> Seq<S> {
        self.subscribers@
    }

    /// Subscribers are retained only while requested, never beyond capacity.
    pub open spec fn wf(self) -> bool {
        &&& self.capacity_spec().value() > 0
        &&& self.subscribers_spec().len() <= self.capacity_spec().value()
        &&& self.phase_spec() != ShutdownPhase::Requested ==> self.subscribers_spec().len() == 0
    }

    /// A fresh open barrier retaining at most `capacity` subscribers.
    pub fn new(capacity: NonZeroCount) -> (state: Self)
        ensures
            state.wf(),
            state.capacity_spec() == capacity,
            state.phase_spec() == ShutdownPhase::Open,
            state.subscribers_spec().len() == 0,
    {
        proof {
            use_type_invariant(&capacity);
        }
        ShutdownState { capacity, phase: ShutdownPhase::Open, subscribers: Vec::new() }
    }

    /// Returns the maximum number of retained subscribers.
    pub fn capacity(&self) -> (capacity: usize)
        ensures
            capacity == self.capacity_spec().value(),
    {
        self.capacity.get()
    }

    /// Returns the current phase.
    pub fn phase(&self) -> (phase: ShutdownPhase)
        ensures
            phase == self.phase_spec(),
    {
        self.phase
    }

    /// Returns the number of retained subscribers.
    pub fn retained(&self) -> (retained: usize)
        ensures
            retained == self.subscribers_spec().len(),
    {
        self.subscribers.len()
    }

    /// What one subscription attempt does: the first caller that observes an
    /// open barrier becomes the requester; callers that find a request in
    /// flight wait; after success subscribers are retained up to capacity; a
    /// completed barrier answers at once without retaining; a closed barrier
    /// rejects.
    pub open spec fn subscribe_outcome(self, after: Self, subscriber: S, step: SubscribeStep<S>) -> bool {
        &&& after.capacity_spec() == self.capacity_spec()
        &&& match self.phase_spec() {
            ShutdownPhase::Open => {
                &&& step == SubscribeStep::PublishRequest(subscriber)
                &&& after.phase_spec() == ShutdownPhase::Requesting
                &&& after.subscribers_spec() == self.subscribers_spec()
            },
            ShutdownPhase::Requesting => {
                &&& step == SubscribeStep::Wait(subscriber)
                &&& after == self
            },
            ShutdownPhase::Requested => if self.subscribers_spec().len()
                >= self.capacity_spec().value() {
                &&& step == SubscribeStep::Full(subscriber)
                &&& after == self
            } else {
                &&& step == SubscribeStep::<S>::Admitted
                &&& after.phase_spec() == ShutdownPhase::Requested
                &&& after.subscribers_spec() == self.subscribers_spec().push(subscriber)
            },
            ShutdownPhase::Completed => {
                &&& step == SubscribeStep::CompleteNow(subscriber)
                &&& after == self
            },
            ShutdownPhase::Closed => {
                &&& step == SubscribeStep::Closed(subscriber)
                &&& after == self
            },
        }
    }

    /// One subscription attempt under the barrier lock.
    pub fn subscribe(&mut self, subscriber: S) -> (step: SubscribeStep<S>)
        requires
            old(self).wf(),
        ensures
            final(self).wf(),
            old(self).subscribe_outcome(*final(self), subscriber, step),
    {
        match self.phase {
            ShutdownPhase::Open => {
                self.phase = ShutdownPhase::Requesting;
                SubscribeStep::PublishRequest(subscriber)
            },
            ShutdownPhase::Requesting => SubscribeStep::Wait(subscriber),
            ShutdownPhase::Requested => {
                if self.subscribers.len() >= self.capacity.get() {
                    SubscribeStep::Full(subscriber)
                } else {
                    self.subscribers.push(subscriber);
                    SubscribeStep::Admitted
                }
            },
            ShutdownPhase::Completed => SubscribeStep::CompleteNow(subscriber),
            ShutdownPhase::Closed => SubscribeStep::Closed(subscriber),
        }
    }

    /// Records that the first request was published.
    ///
    /// Only the requester, while the barrier is requesting or after it
    /// settled, reports the outcome of its request.
    pub fn finish_request_success(&mut self, subscriber: S) -> (outcome: RequestSuccess<S>)
        requires
            old(self).wf(),
            old(self).phase_spec() == ShutdownPhase::Requesting || old(self).phase_spec()
                == ShutdownPhase::Completed || old(self).phase_spec() == ShutdownPhase::Closed,
        ensures
            final(self).wf(),
            final(self).capacity_spec() == old(self).capacity_spec(),
            match old(self).phase_spec() {
                ShutdownPhase::Requesting => {
                    &&& outcome == RequestSuccess::<S>::Admitted
                    &&& final(self).phase_spec() == ShutdownPhase::Requested
                    &&& final(self).subscribers_spec() == seq![subscriber]
                },
                ShutdownPhase::Completed => {
                    &&& outcome == RequestSuccess::Completed(subscriber)
                    &&& *final(self) == *old(self)
                },
                _ => {
                    &&& outcome == RequestSuccess::Closed(subscriber)
                    &&& *final(self) == *old(self)
                },
            },
    {
        match self.phase {
            ShutdownPhase::Requesting => {
                self.subscribers.push(subscriber);
                self.phase = ShutdownPhase::Requested;
                assert(self.subscribers@ =~= seq![subscriber]);
                RequestSuccess::Admitted
            },
            ShutdownPhase::Completed => RequestSuccess::Completed(subscriber),
            _ => RequestSuccess::Closed(subscriber),
        }
    }

    /// What reporting a failed first request does: a requesting barrier
    /// reopens, a settled one keeps its phase.
    pub open spec fn failure_outcome(self, after: Self, outcome: RequestFailure) -> bool {
        &&& after.capacity_spec() == self.capacity_spec()
        &&& after.subscribers_spec() == self.subscribers_spec()
        &&& match self.phase_spec() {
            ShutdownPhase::Requesting => outcome == RequestFailure::Reopened && after.phase_spec()
                == ShutdownPhase::Open,
            ShutdownPhase::Completed => outcome == RequestFailure::Completed && after.phase_spec()
                == ShutdownPhase::Completed,
            _ => outcome == RequestFailure::Closed && after.phase_spec() == ShutdownPhase::Closed,
        }
    }

    /// Records that publishing the first request failed.
    pub fn finish_request_failure(&mut self) -> (outcome: RequestFailure)
        requires
            old(self).wf(),
            old(self).phase_spec() == ShutdownPhase::Requesting || old(self).phase_spec()
                == ShutdownPhase::Completed || old(self).phase_spec() == ShutdownPhase::Closed,
        ensures
            final(self).wf(),
            old(self).failure_outcome(*final(self), outcome),
    {
        match self.phase {
            ShutdownPhase::Requesting => {
                self.phase = ShutdownPhase::Open;
                RequestFailure::Reopened
            },
            ShutdownPhase::Completed => RequestFailure::Completed,
            _ => RequestFailure::Closed,
        }
    }

    /// Abandons a request attempt that ended without reporting, reopening a
    /// barrier that is still requesting.
    pub fn abort_request(&mut self)
        requires
            old(self).wf(),
        ensures
            final(self).wf(),
            final(self).capacity_spec() == old(self).capacity_spec(),
            final(self).subscribers_spec() == old(self).subscribers_spec(),
            final(self).phase_spec() == (if old(self).phase_spec() == ShutdownPhase::Requesting {
                ShutdownPhase::Open
            } else {
                old(self).phase_spec()
            }),
    {
        if self.phase == ShutdownPhase::Requesting {
            self.phase = ShutdownPhase::Open;
        }
    }

    /// What settling does: an unsettled barrier moves to the chosen
    /// terminal phase and releases every retained subscriber; a settled one
    /// releases none and keeps its phase.
    pub open spec fn settle_outcome(self, after: Self, completed: bool, released: Seq<S>) -> bool {
        &&& after.capacity_spec() == self.capacity_spec()
        &&& after.subscribers_spec().len() == 0
        &&& if is_settled(self.phase_spec()) {
            released.len() == 0 && after.phase_spec() == self.phase_spec()
        } else {
            &&& released == self.subscribers_spec()
            &&& after.phase_spec() == (if completed {
                ShutdownPhase::Completed
            } else {
                ShutdownPhase::Closed
            })
        }
    }

    /// Settles the barrier once, completed or closed, and hands back every
    /// retained subscriber.
    pub fn settle(&mut self, completed: bool) -> (released: Vec<S>)
        requires
            old(self).wf(),
        ensures
            final(self).wf(),
            old(self).settle_outcome(*final(self), completed, released@),
    {
        match self.phase {
            ShutdownPhase::Completed | ShutdownPhase::Closed => Vec::new(),
            _ => {
                self.phase = if completed {
                    ShutdownPhase::Completed
                } else {
                    ShutdownPhase::Closed
                };
                let mut released = Vec::new();
                core::mem::swap(&mut released, &mut self.subscribers);
                released
            },
        }
    }
}

/// Settled phases are terminal.
pub open spec fn is_settled(phase: ShutdownPhase) -> bool {
    phase == ShutdownPhase::Completed || phase == ShutdownPhase::Closed
}

/// Concurrent subscribers publish one request: after the first subscriber
/// of an open barrier becomes the requester, the next subscriber waits.
pub proof fn lemma_single_requester<S>(
    first: ShutdownState<S>,
    second: ShutdownState<S>,
    third: ShutdownState<S>,
    a: S,
    b: S,
    step_a: SubscribeStep<S>,
    step_b: SubscribeStep<S>,
)
    requires
        first.phase_spec() == ShutdownPhase::Open,
        first.subscribe_outcome(second, a, step_a),
        second.subscribe_outcome(third, b, step_b),
    ensures
        step_a == SubscribeStep::PublishRequest(a),
        step_b == SubscribeStep::Wait(b),
        third == second,
{
}

/// A failed request reopens the barrier for exactly one retry: the next
/// subscriber becomes the requester again.
pub proof fn lemma_failed_request_allows_retry<S>(
    requesting: ShutdownState<S>,
    reopened: ShutdownState<S>,
    retried: ShutdownState<S>,
    outcome: RequestFailure,
    b: S,
    step_b: SubscribeStep<S>,
)
    requires
        requesting.phase_spec() == ShutdownPhase::Requesting,
        requesting.failure_outcome(reopened, outcome),
        reopened.subscribe_outcome(retried, b, step_b),
    ensures
        outcome == RequestFailure::Reopened,
        step_b == SubscribeStep::PublishRequest(b),
        retried.phase_spec() == ShutdownPhase::Requesting,
{
}

/// Settlement happens once: a second settlement releases nobody and keeps
/// the first terminal phase, whichever phase it asks for.
pub proof fn lemma_settles_once<S>(
    start: ShutdownState<S>,
    settled: ShutdownState<S>,
    again: ShutdownState<S>,
    first_completed: bool,
    second_completed: bool,
    released: Seq<S>,
    released_again: Seq<S>,
)
    requires
        start.settle_outcome(settled, first_completed, released),
        settled.settle_outcome(again, second_completed, released_again),
    ensures
        is_settled(settled.phase_spec()),
        released_again.len() == 0,
        again.phase_spec() == settled.phase_spec(),
{
}

/// A settled barrier never retains subscribers and answers every later
/// subscriber without admitting it.
pub proof fn lemma_settled_barrier_retains_nobody<S>(
    settled: ShutdownState<S>,
    after: ShutdownState<S>,
    subscriber: S,
    step: SubscribeStep<S>,
)
    requires
        settled.wf(),
        is_settled(settled.phase_spec()),
        settled.subscribe_outcome(after, subscriber, step),
    ensures
        after == settled,
        after.subscribers_spec().len() == 0,
        step == SubscribeStep::CompleteNow(subscriber) || step == SubscribeStep::Closed(subscriber),
{
}

/// Settling decides the terminal phase from the completer's verdict alone:
/// from every phase that is not yet settled, the open phase included, a
/// completed shutdown settles as `Completed` and any other as `Closed`, and
/// every retained subscriber is released.
pub proof fn lemma_settle_follows_verdict<S>(
    start: ShutdownState<S>,
    settled: ShutdownState<S>,
    completed: bool,
    released: Seq<S>,
)
    requires
        start.phase_spec() != ShutdownPhase::Completed,
        start.phase_spec() != ShutdownPhase::Closed,
        start.settle_outcome(settled, completed, released),
    ensures
        completed ==> settled.phase_spec() == ShutdownPhase::Completed,
        !completed ==> settled.phase_spec() == ShutdownPhase::Closed,
        released == start.subscribers_spec(),
        settled.subscribers_spec().len() == 0,
{
}

/// A late subscriber is answered by the settlement: after an unsettled barrier settles
/// as completed, every later subscriber is completed at once, and after it
/// settles as not completed, every later subscriber is told it closed.
pub proof fn lemma_late_subscriber_sees_verdict<S>(
    start: ShutdownState<S>,
    settled: ShutdownState<S>,
    completed: bool,
    released: Seq<S>,
    after: ShutdownState<S>,
    subscriber: S,
    step: SubscribeStep<S>,
)
    requires
        start.phase_spec() != ShutdownPhase::Completed,
        start.phase_spec() != ShutdownPhase::Closed,
        start.settle_outcome(settled, completed, released),
        settled.subscribe_outcome(after, subscriber, step),
    ensures
        completed ==> step == SubscribeStep::CompleteNow(subscriber),
        !completed ==> step == SubscribeStep::Closed(subscriber),
        after == settled,
{
}

} // verus!
