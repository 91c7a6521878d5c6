//! Immutable resource-table ownership observations.

use vstd::prelude::*;

use crate::count::NonZeroCount;

use super::identity::ResourceOwnerId;

verus! {

/// Current bounded slot state for one resource owner.
#[derive(Clone, Copy, Debug, PartialEq, Eq, Structural)]
pub struct ResourceTableSnapshot {
    owner: ResourceOwnerId,
    capacity: NonZeroCount,
    active: usize,
    vacant: usize,
    exhausted: usize,
}

impl ResourceTableSnapshot {
    /// The table owner identity.
    pub closed spec fn owner_spec(self) -> ResourceOwnerId {
        self.owner
    }

    /// The fixed slot count.
    pub closed spec fn capacity_spec(self) -> NonZeroCount {
        self.capacity
    }

    /// The live resource count.
    pub closed spec fn active_spec(self) -> usize {
        self.active
    }

    /// Slots that may accept another resource.
    pub closed spec fn vacant_spec(self) -> usize {
        self.vacant
    }

    /// Permanently retired slots.
    pub closed spec fn exhausted_spec(self) -> usize {
        self.exhausted
    }

    pub(crate) fn new(
        owner: ResourceOwnerId,
        capacity: NonZeroCount,
        active: usize,
        vacant: usize,
        exhausted: usize,
    ) -> (snapshot: ResourceTableSnapshot)
        ensures
            snapshot.owner_spec() == owner,
            snapshot.capacity_spec() == capacity,
            snapshot.active_spec() == active,
            snapshot.vacant_spec() == vacant,
            snapshot.exhausted_spec() == exhausted,
    {
        ResourceTableSnapshot { owner, capacity, active, vacant, exhausted }
    }

    /// Returns the table owner identity.
    pub fn owner(self) -> (owner: ResourceOwnerId)
        ensures
            owner == self.owner_spec(),
    {
        self.owner
    }

    /// Returns the fixed slot count.
    pub fn capacity(self) -> (capacity: NonZeroCount)
        ensures
            capacity == self.capacity_spec(),
    {
        self.capacity
    }

    /// Returns the live resource count.
    pub fn active(self) -> (active: usize)
        ensures
            active == self.active_spec(),
    {
        self.active
    }

    /// Returns slots that may accept another resource.
    pub fn vacant(self) -> (vacant: usize)
        ensures
            vacant == self.vacant_spec(),
    {
        self.vacant
    }

    /// Returns permanently retired slots.
    pub fn exhausted(self) -> (exhausted: usize)
        ensures
            exhausted == self.exhausted_spec(),
    {
        self.exhausted
    }
}

} // verus!
