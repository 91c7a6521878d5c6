//! Group topology validation and ownership-preserving startup failures.

use vstd::prelude::*;

use crate::count::NonZeroCount;

use super::identity::{ReactorGroupLimits, ReactorId};

verus! {

/// Exact boundary that rejected reactor-group startup.
#[derive(Debug)]
pub enum ReactorGroupSpawnFailure {
    /// A static group must contain at least one reactor.
    Empty,
    /// The supplied topology exceeded its hard reactor count limit.
    Capacity {
        /// Configured maximum reactor count.
        limit: NonZeroCount,
        /// Supplied member count.
        actual: usize,
    },
    /// One reactor owner thread could not be created.
    ReactorThread {
        /// Reactor whose thread creation failed.
        reactor: ReactorId,
        /// Operating-system thread creation failure.
        source: std::io::Error,
    },
    /// The bounded group supervisor thread could not be created.
    SupervisorThread {
        /// Operating-system thread creation failure.
        source: std::io::Error,
    },
}

/// Failed group startup with every unstarted member returned in topology
/// order.
pub struct ReactorGroupSpawnError<M> {
    failure: ReactorGroupSpawnFailure,
    members: Vec<M>,
}

impl<M> ReactorGroupSpawnError<M> {
    /// The startup failure boundary.
    pub closed spec fn failure_spec(self) -> ReactorGroupSpawnFailure {
        self.failure
    }

    /// The unstarted members, in topology order.
    pub closed spec fn members_spec(self) -> Seq<M> {
        self.members@
    }

    /// Creates a startup failure returning every member.
    pub fn new(failure: ReactorGroupSpawnFailure, members: Vec<M>) -> (error: Self)
        ensures
            error.failure_spec() == failure,
            error.members_spec() == members@,
    {
        ReactorGroupSpawnError { failure, members }
    }

    /// Returns the startup failure boundary.
    pub fn failure(&self) -> (failure: &ReactorGroupSpawnFailure)
        ensures
            *failure == self.failure_spec(),
    {
        &self.failure
    }

    /// Consumes the error and returns every unstarted member.
    pub fn into_members(self) -> (members: Vec<M>)
        ensures
            members@ == self.members_spec(),
    {
        self.members
    }

    /// Consumes the error and returns its failure and all members.
    pub fn into_parts(self) -> (parts: (ReactorGroupSpawnFailure, Vec<M>))
        ensures
            parts.0 == self.failure_spec(),
            parts.1@ == self.members_spec(),
    {
        (self.failure, self.members)
    }
}

/// Validates a static topology of `actual` members against `limits`.
pub fn validate(limits: ReactorGroupLimits, actual: usize) -> (valid: Result<(), ReactorGroupSpawnFailure>)
    ensures
        actual == 0 ==> valid matches Err(ReactorGroupSpawnFailure::Empty),
        0 < actual <= limits.reactors_spec().value() ==> valid is Ok,
        actual > limits.reactors_spec().value() ==> (valid matches Err(
            ReactorGroupSpawnFailure::Capacity { limit, actual: reported },
        ) && limit == limits.reactors_spec() && reported == actual),
{
    if actual == 0 {
        return Err(ReactorGroupSpawnFailure::Empty);
    }
    if actual > limits.reactors().get() {
        return Err(ReactorGroupSpawnFailure::Capacity { limit: limits.reactors(), actual });
    }
    Ok(())
}

} // verus!
