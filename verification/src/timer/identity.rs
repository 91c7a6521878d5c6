//! Stable owner-local timer identity and cancellation token.

use vstd::prelude::*;

use crate::time::Deadline;

verus! {

/// Stable identity for one timer owner.
///
/// Callers must assign distinct values to queues whose tokens may be mixed.
#[derive(Clone, Copy, Debug, PartialEq, Eq, Hash, PartialOrd, Ord, Structural)]
pub struct TimerOwnerId(u64);

/// Monotonic owner-local identity for one admitted timer.
#[derive(Clone, Copy, Debug, PartialEq, Eq, Hash, PartialOrd, Ord, Structural)]
pub struct TimerId(u64);

/// Exact handle for one admitted timer.
///
/// When queues whose tokens may meet use distinct owner identities, the owner
/// field prevents a coincidental local identity and deadline match.
#[derive(Clone, Copy, Debug, PartialEq, Eq, Hash, PartialOrd, Ord, Structural)]
pub struct TimerToken {
    owner: TimerOwnerId,
    id: TimerId,
    deadline: Deadline,
}

impl TimerOwnerId {
    /// The fixed-width identity value.
    pub closed spec fn value(self) -> u64 {
        self.0
    }

    /// Creates a timer-owner identity.
    pub fn new(value: u64) -> (id: TimerOwnerId)
        ensures
            id.value() == value,
    {
        TimerOwnerId(value)
    }

    /// Returns the fixed-width identity value.
    pub fn get(self) -> (value: u64)
        ensures
            value == self.value(),
    {
        self.0
    }
}

impl TimerId {
    /// The fixed-width identity value.
    pub closed spec fn value(self) -> u64 {
        self.0
    }

    /// The timer identity holding `value`.
    pub closed spec fn from_value(value: u64) -> TimerId {
        TimerId(value)
    }

    /// The first identity used by a fresh queue.
    pub fn zero() -> (id: TimerId)
        ensures
            id == TimerId::from_value(0),
    {
        TimerId(0)
    }

    /// Creates an identity from its fixed-width value.
    pub fn new(value: u64) -> (id: TimerId)
        ensures
            id == TimerId::from_value(value),
    {
        TimerId(value)
    }

    /// Returns the fixed-width identity value.
    pub fn get(self) -> (value: u64)
        ensures
            value == self.value(),
    {
        self.0
    }

    pub(crate) fn checked_next(self) -> (next: Option<TimerId>)
        ensures
            self.value() < u64::MAX ==> next == Some(TimerId::from_value((self.value() + 1) as u64)),
            self.value() == u64::MAX ==> next is None,
    {
        match self.0.checked_add(1) {
            Some(value) => Some(TimerId(value)),
            None => None,
        }
    }
}

impl TimerToken {
    /// The timer-owner identity.
    pub closed spec fn owner_spec(self) -> TimerOwnerId {
        self.owner
    }

    /// The timer identity.
    pub closed spec fn id_spec(self) -> TimerId {
        self.id
    }

    /// The absolute deadline captured at admission.
    pub closed spec fn deadline_spec(self) -> Deadline {
        self.deadline
    }

    /// The token made of exactly these parts.
    pub closed spec fn from_parts(owner: TimerOwnerId, id: TimerId, deadline: Deadline) -> TimerToken {
        TimerToken { owner, id, deadline }
    }

    pub(crate) fn new(owner: TimerOwnerId, id: TimerId, deadline: Deadline) -> (token: TimerToken)
        ensures
            token == TimerToken::from_parts(owner, id, deadline),
    {
        TimerToken { owner, id, deadline }
    }

    /// Returns the timer-owner identity.
    pub fn owner(self) -> (owner: TimerOwnerId)
        ensures
            owner == self.owner_spec(),
    {
        self.owner
    }

    /// Returns the timer identity.
    pub fn id(self) -> (id: TimerId)
        ensures
            id == self.id_spec(),
    {
        self.id
    }

    /// Returns the absolute deadline captured at admission.
    pub fn deadline(self) -> (deadline: Deadline)
        ensures
            deadline == self.deadline_spec(),
    {
        self.deadline
    }
}

/// The timer identity holding `value` reports `value`.
pub broadcast proof fn lemma_timer_id_value(value: u64)
    ensures
        #[trigger] TimerId::from_value(value).value() == value,
{
}

/// A timer identity is determined by its value.
pub broadcast proof fn lemma_timer_id_injective(a: TimerId, b: TimerId)
    ensures
        #![trigger a.value(), b.value()]
        a.value() == b.value() ==> a == b,
{
}

/// A token reports exactly the parts it was made of.
pub broadcast proof fn lemma_timer_token_parts(owner: TimerOwnerId, id: TimerId, deadline: Deadline)
    ensures
        #![trigger TimerToken::from_parts(owner, id, deadline)]
        TimerToken::from_parts(owner, id, deadline).owner_spec() == owner,
        TimerToken::from_parts(owner, id, deadline).id_spec() == id,
        TimerToken::from_parts(owner, id, deadline).deadline_spec() == deadline,
{
}

/// A token is determined by its parts.
pub broadcast proof fn lemma_timer_token_injective(a: TimerToken, b: TimerToken)
    ensures
        #![trigger a.id_spec(), b.id_spec()]
        (a.owner_spec() == b.owner_spec() && a.id_spec() == b.id_spec() && a.deadline_spec()
            == b.deadline_spec()) ==> a == b,
{
}

pub broadcast group group_timer_identity {
    lemma_timer_id_value,
    lemma_timer_id_injective,
    lemma_timer_token_parts,
    lemma_timer_token_injective,
}

} // verus!
