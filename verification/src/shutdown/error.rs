//! Subscription failures at the explicit shutdown boundary.

use vstd::prelude::*;

verus! {

/// Why a shutdown observer could not be admitted.
#[non_exhaustive]
#[derive(Debug, PartialEq, Eq)]
pub enum ShutdownSubscribeError<E> {
    /// The configured subscriber count is already retained.
    Full,
    /// The unique terminal owner closed before successful shutdown.
    Closed,
    /// Publishing the first shutdown request failed.
    Request(E),
}

} // verus!
