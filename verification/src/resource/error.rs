//! Ownership-preserving admission and exact stale-token failures.

use vstd::prelude::*;

use crate::count::NonZeroCount;

use super::identity::{ResourceGeneration, ResourceOwnerId, ResourceSlotId};

verus! {

/// Why a resource could not enter a bounded owner-local table.
#[derive(Clone, Copy, Debug, PartialEq, Eq, Structural)]
pub enum ResourceAdmissionFailure {
    /// Another live resource already owns the supplied identity.
    IdentityInUse,
    /// Every configured slot currently owns a live resource.
    CapacityReached {
        /// Configured slot count.
        limit: NonZeroCount,
    },
    /// Every non-live slot has exhausted its generation space.
    TokenSpaceExhausted,
}

/// Failed resource admission preserving both supplied values.
#[derive(Debug)]
pub struct ResourceAdmissionError<K, R> {
    identity: K,
    resource: R,
    failure: ResourceAdmissionFailure,
}

impl<K, R> ResourceAdmissionError<K, R> {
    /// The rejected identity.
    pub closed spec fn identity_spec(self) -> K {
        self.identity
    }

    /// The rejected resource.
    pub closed spec fn resource_spec(self) -> R {
        self.resource
    }

    /// The rejection reason.
    pub closed spec fn failure_spec(self) -> ResourceAdmissionFailure {
        self.failure
    }

    pub(crate) fn new(identity: K, resource: R, failure: ResourceAdmissionFailure) -> (error: Self)
        ensures
            error.identity_spec() == identity,
            error.resource_spec() == resource,
            error.failure_spec() == failure,
    {
        ResourceAdmissionError { identity, resource, failure }
    }

    /// Returns the rejection reason.
    pub fn failure(&self) -> (failure: ResourceAdmissionFailure)
        ensures
            failure == self.failure_spec(),
    {
        self.failure
    }

    /// Returns ownership of the rejected identity and resource.
    pub fn into_values(self) -> (values: (K, R))
        ensures
            values == (self.identity_spec(), self.resource_spec()),
    {
        (self.identity, self.resource)
    }

    /// Splits both rejected values from their reason.
    pub fn into_parts(self) -> (parts: (K, R, ResourceAdmissionFailure))
        ensures
            parts == (self.identity_spec(), self.resource_spec(), self.failure_spec()),
    {
        (self.identity, self.resource, self.failure)
    }
}

/// Why a resource token cannot name a current live resource.
#[derive(Clone, Copy, Debug, PartialEq, Eq, Structural)]
pub enum ResourceTokenFailure {
    /// The token belongs to another resource owner.
    OwnerMismatch {
        /// Owner expected by the table.
        expected: ResourceOwnerId,
        /// Owner carried by the token.
        actual: ResourceOwnerId,
    },
    /// The token names a slot outside the table's fixed capacity.
    SlotOutOfBounds {
        /// Rejected slot.
        slot: ResourceSlotId,
        /// Configured slot count.
        capacity: NonZeroCount,
    },
    /// The slot is vacant at its next admissible generation.
    Vacant {
        /// Vacant slot.
        slot: ResourceSlotId,
        /// Generation that a future admission will use.
        generation: ResourceGeneration,
    },
    /// The token generation does not match the live resource generation.
    GenerationMismatch {
        /// Named slot.
        slot: ResourceSlotId,
        /// Live generation required by the table.
        current: ResourceGeneration,
        /// Stale or forged generation carried by the token.
        supplied: ResourceGeneration,
    },
    /// The named slot can never be reused.
    Exhausted {
        /// Permanently retired slot.
        slot: ResourceSlotId,
    },
}

} // verus!
