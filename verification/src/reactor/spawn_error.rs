//! Ownership-preserving failure to start one reactor thread.

use vstd::prelude::*;

verus! {

/// Failed reactor thread creation with the unstarted reactor returned.
pub struct ReactorSpawnError<R> {
    source: std::io::Error,
    reactor: R,
}

impl<R> ReactorSpawnError<R> {
    /// The operating-system thread creation failure.
    pub closed spec fn source_spec(self) -> std::io::Error {
        self.source
    }

    /// The unstarted reactor.
    pub closed spec fn reactor_spec(self) -> R {
        self.reactor
    }

    /// A thread-creation failure that hands `reactor` back.
    pub fn new(source: std::io::Error, reactor: R) -> (error: Self)
        ensures
            error.source_spec() == source,
            error.reactor_spec() == reactor,
    {
        ReactorSpawnError { source, reactor }
    }

    /// Returns the operating-system thread creation failure.
    pub fn source_error(&self) -> (source: &std::io::Error)
        ensures
            *source == self.source_spec(),
    {
        &self.source
    }

    /// Consumes the error and returns the unstarted reactor.
    pub fn into_reactor(self) -> (reactor: R)
        ensures
            reactor == self.reactor_spec(),
    {
        self.reactor
    }

    /// Consumes the error and returns both failure and unstarted reactor.
    pub fn into_parts(self) -> (parts: (std::io::Error, R))
        ensures
            parts == (self.source_spec(), self.reactor_spec()),
    {
        (self.source, self.reactor)
    }
}

} // verus!
