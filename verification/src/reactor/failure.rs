//! Exact terminal reasons for one reactor run loop.

use vstd::prelude::*;

verus! {

/// Failure that terminally ended one reactor loop.
#[derive(Debug, PartialEq, Eq)]
pub enum ReactorFailure<HostError, WaitError> {
    /// Clock, duty, regression, or invalid-phase failure from the host.
    Host(HostError),
    /// Failure returned by the configured waiting backend.
    Wait(WaitError),
}

/// Terminal reason published by one reactor owner.
#[derive(Debug, PartialEq, Eq)]
pub enum ReactorOutcome<HostError, WaitError> {
    /// The duty returned [`crate::Next::Stop`].
    Stopped,
    /// The framework's explicit fail-safe termination was observed.
    Terminated,
    /// The host or waiting backend failed before a clean stop.
    Failed(ReactorFailure<HostError, WaitError>),
}

} // verus!
