//! Observable result of requesting bounded reactor termination.

use vstd::prelude::*;

verus! {

#[verifier::external_type_specification]
#[verifier::external_body]
pub struct ExIoError(std::io::Error);

/// Lifecycle state observed by one termination request.
#[derive(Clone, Copy, Debug, PartialEq, Eq, Structural)]
pub enum ReactorTerminationStatus {
    /// This call published the first termination request.
    Requested,
    /// A previous call already published termination.
    AlreadyRequested,
    /// The reactor had already exited.
    Exited,
}

/// Result of one reactor termination request.
///
/// A wake failure does not retract a first request. The reactor still observes
/// termination through its configured bounded wait ceiling.
#[must_use]
#[derive(Debug)]
pub struct ReactorTermination {
    status: ReactorTerminationStatus,
    wake_error: Option<std::io::Error>,
}

impl ReactorTermination {
    /// The lifecycle state observed by this request.
    pub closed spec fn status_spec(self) -> ReactorTerminationStatus {
        self.status
    }

    /// The failure of the best-effort wake, if any.
    pub closed spec fn wake_error_spec(self) -> Option<std::io::Error> {
        self.wake_error
    }

    /// Whether a best-effort wake failed.
    pub open spec fn has_wake_error(self) -> bool {
        self.wake_error_spec() is Some
    }

    /// The result of a request that observed `status`, with the failure of
    /// its best-effort wake, if any.
    pub fn new(status: ReactorTerminationStatus, wake_error: Option<std::io::Error>) -> (termination:
        ReactorTermination)
        ensures
            termination.status_spec() == status,
            termination.wake_error_spec() == wake_error,
    {
        ReactorTermination { status, wake_error }
    }

    /// Returns the lifecycle state observed by this request.
    pub fn status(&self) -> (status: ReactorTerminationStatus)
        ensures
            status == self.status_spec(),
    {
        self.status
    }

    /// Returns a failed best-effort wake associated with an accepted request.
    pub fn wake_error(&self) -> (error: Option<&std::io::Error>)
        ensures
            match error {
                Some(e) => self.wake_error_spec() == Some(*e),
                None => self.wake_error_spec() is None,
            },
    {
        self.wake_error.as_ref()
    }

    /// Consumes the result and returns a failed best-effort wake, if any.
    pub fn into_wake_error(self) -> (error: Option<std::io::Error>)
        ensures
            error == self.wake_error_spec(),
    {
        self.wake_error
    }
}

} // verus!
