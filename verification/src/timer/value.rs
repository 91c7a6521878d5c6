//! Owned timer envelope preserving admission-time measurement.

use vstd::prelude::*;

use crate::retained::{Retained, RetainedBytes};
use crate::time::Deadline;

use super::identity::TimerToken;

verus! {

/// One owned timer removed by cancellation or due delivery.
#[derive(Debug, PartialEq, Eq)]
pub struct Timer<T> {
    token: TimerToken,
    value: T,
    retained: RetainedBytes,
}

impl<T> Timer<T> {
    /// The exact queue-local token.
    pub closed spec fn token_spec(self) -> TimerToken {
        self.token
    }

    /// The timer value.
    pub closed spec fn value_spec(self) -> T {
        self.value
    }

    /// The admission-time retained-byte measurement.
    pub closed spec fn retained_spec(self) -> RetainedBytes {
        self.retained
    }

    /// The timer made of exactly these parts.
    pub closed spec fn from_parts(token: TimerToken, value: T, retained: RetainedBytes) -> Timer<T> {
        Timer { token, value, retained }
    }

    pub(crate) fn new(token: TimerToken, value: T, retained: RetainedBytes) -> (timer: Timer<T>)
        ensures
            timer == Timer::from_parts(token, value, retained),
    {
        Timer { token, value, retained }
    }

    /// Returns the exact queue-local token.
    pub fn token(&self) -> (token: TimerToken)
        ensures
            token == self.token_spec(),
    {
        self.token
    }

    /// Returns the absolute deadline.
    pub fn deadline(&self) -> (deadline: Deadline)
        ensures
            deadline == self.token_spec().deadline_spec(),
    {
        self.token.deadline()
    }

    /// Borrows the timer value.
    pub fn value(&self) -> (value: &T)
        ensures
            *value == self.value_spec(),
    {
        &self.value
    }

    /// Returns the admission-time retained-byte measurement.
    pub fn measured_retained_bytes(&self) -> (retained: RetainedBytes)
        ensures
            retained == self.retained_spec(),
    {
        self.retained
    }

    /// Consumes the timer and returns its value.
    pub fn into_value(self) -> (value: T)
        ensures
            value == self.value_spec(),
    {
        self.value
    }

    /// Splits the exact token from the owned value.
    pub fn into_parts(self) -> (parts: (TimerToken, T))
        ensures
            parts == (self.token_spec(), self.value_spec()),
    {
        (self.token, self.value)
    }
}

impl<T> Retained for Timer<T> {
    /// Reports the admission-time measurement.
    fn retained_bytes(&self) -> (retained: RetainedBytes)
        ensures
            retained == self.retained_spec(),
    {
        self.retained
    }
}

/// A timer reports exactly the parts it was made of.
pub broadcast proof fn lemma_timer_parts<T>(token: TimerToken, value: T, retained: RetainedBytes)
    ensures
        #![trigger Timer::from_parts(token, value, retained)]
        Timer::from_parts(token, value, retained).token_spec() == token,
        Timer::from_parts(token, value, retained).value_spec() == value,
        Timer::from_parts(token, value, retained).retained_spec() == retained,
{
}

} // verus!
