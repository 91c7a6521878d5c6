//! Preallocated owner-local slots, bounded admission, exact token resolution,
//! and generation retirement.

use vstd::prelude::*;
use vstd::std_specs::cmp::PartialEqSpec;

use crate::count::NonZeroCount;

use super::error::{ResourceAdmissionError, ResourceAdmissionFailure, ResourceTokenFailure};
use super::identity::{
    group_resource_identity, ResourceGeneration, ResourceOwnerId, ResourceSlotId, ResourceToken,
};
use super::slot::{
    count_kind, lemma_count_partition, lemma_count_positive, lemma_count_uniform,
    lemma_count_update, lemma_count_zero, slot_kind, token_failure, token_failure_spec, Slot,
};
use super::snapshot::ResourceTableSnapshot;

verus! {

broadcast use group_resource_identity;

/// Bounded owner-local resource slots fenced by monotonic generations.
#[derive(Debug)]
pub struct ResourceTable<K, R> {
    owner: ResourceOwnerId,
    capacity: NonZeroCount,
    slots: Vec<Slot<K, R>>,
    active: usize,
    exhausted: usize,
}

/// The slot that replaces a removed resource of generation `generation`:
/// vacant at the next generation, or permanently exhausted after the last.
pub open spec fn retired_slot<K, R>(generation: ResourceGeneration) -> Slot<K, R> {
    if generation.value() < u64::MAX {
        Slot::Vacant { generation: ResourceGeneration::from_value((generation.value() + 1) as u64) }
    } else {
        Slot::Exhausted
    }
}

/// The lowest generation a slot can still report: its current generation, or
/// one past the last generation once exhausted.
pub open spec fn generation_floor<K, R>(slot: Slot<K, R>) -> int {
    match slot {
        Slot::Vacant { generation } => generation.value() as int,
        Slot::Occupied { generation, .. } => generation.value() as int,
        Slot::Exhausted => u64::MAX as int + 1,
    }
}

/// `index` is the first vacant slot of `slots`.
pub open spec fn is_first_vacant<K, R>(slots: Seq<Slot<K, R>>, index: int) -> bool {
    &&& 0 <= index < slots.len()
    &&& slots[index] is Vacant
    &&& forall|j: int| 0 <= j < index ==> !(#[trigger] slots[j] is Vacant)
}

/// `index` is the first slot whose live identity compares equal to `identity`.
pub open spec fn is_first_holder<K: PartialEq, R>(slots: Seq<Slot<K, R>>, identity: K, index: int) -> bool {
    &&& 0 <= index < slots.len()
    &&& slot_holds(slots[index], identity)
    &&& forall|j: int| 0 <= j < index ==> !slot_holds(#[trigger] slots[j], identity)
}

/// The slot is occupied by an identity that compares equal to `identity`.
pub open spec fn slot_holds<K: PartialEq, R>(slot: Slot<K, R>, identity: K) -> bool {
    slot matches Slot::Occupied { identity: current, .. } && current.eq_spec(&identity)
}

impl<K, R> ResourceTable<K, R> {
    /// The table owner identity.
    pub closed spec fn owner_spec(self) -> ResourceOwnerId {
        self.owner
    }

    /// The fixed slot count.
    pub closed spec fn capacity_spec(self) -> NonZeroCount {
        self.capacity
    }

    /// The fixed slots, in slot-index order.
    pub closed spec fn slots_spec(self) -> Seq<Slot<K, R>> {
        self.slots@
    }

    /// The number of live resources.
    pub open spec fn active_count(self) -> nat {
        count_kind(self.slots_spec(), 1)
    }

    /// The number of permanently retired slots.
    pub open spec fn exhausted_count(self) -> nat {
        count_kind(self.slots_spec(), 2)
    }

    /// The number of slots that may accept another resource.
    pub open spec fn vacant_count(self) -> nat {
        count_kind(self.slots_spec(), 0)
    }

    /// Internal consistency of the slot accounting.
    pub closed spec fn wf(self) -> bool {
        &&& self.slots@.len() == self.capacity.value()
        &&& self.capacity.value() > 0
        &&& self.active == count_kind(self.slots@, 1)
        &&& self.exhausted == count_kind(self.slots@, 2)
    }

    /// Slot-index bound and positivity implied by well-formedness.
    pub proof fn lemma_wf_shape(self)
        requires
            self.wf(),
        ensures
            self.slots_spec().len() == self.capacity_spec().value(),
            self.slots_spec().len() > 0,
            self.active_count() + self.vacant_count() + self.exhausted_count()
                == self.capacity_spec().value(),
    {
        lemma_count_partition(self.slots@);
    }

    /// No slot is vacant exactly when the vacant count is zero.
    pub proof fn lemma_vacant_count_zero(self)
        ensures
            self.vacant_count() == 0 <==> !self.has_vacant(),
    {
        lemma_count_zero(self.slots_spec(), 0);
        if self.has_vacant() {
            let i = choose|i: int| 0 <= i < self.slots_spec().len() && #[trigger] self.slots_spec()[i] is Vacant;
            assert(slot_kind(self.slots_spec()[i]) == 0);
        } else {
            assert forall|i: int| 0 <= i < self.slots_spec().len() implies slot_kind(
                #[trigger] self.slots_spec()[i],
            ) != 0 by {
                if slot_kind(self.slots_spec()[i]) == 0 {
                    assert(self.slots_spec()[i] is Vacant);
                }
            }
        }
    }

    /// What resolving `token` yields: the live identity and resource of the
    /// exact generation it names, or the first check it fails.
    pub open spec fn lookup(self, token: ResourceToken) -> Result<(K, R), ResourceTokenFailure> {
        if token.owner_spec() != self.owner_spec() {
            Err(ResourceTokenFailure::OwnerMismatch {
                expected: self.owner_spec(),
                actual: token.owner_spec(),
            })
        } else if token.slot_spec().value() >= self.capacity_spec().value() {
            Err(ResourceTokenFailure::SlotOutOfBounds {
                slot: token.slot_spec(),
                capacity: self.capacity_spec(),
            })
        } else {
            let slot = self.slots_spec()[token.slot_spec().value() as int];
            match slot {
                Slot::Occupied { generation, identity, resource } => {
                    if generation == token.generation_spec() {
                        Ok((identity, resource))
                    } else {
                        Err(token_failure_spec(slot, token))
                    }
                },
                _ => Err(token_failure_spec(slot, token)),
            }
        }
    }

    /// Some live slot holds an identity that compares equal to `identity`.
    pub open spec fn holds_identity(self, identity: K) -> bool where K: PartialEq {
        exists|i: int|
            0 <= i < self.slots_spec().len() && slot_holds(#[trigger] self.slots_spec()[i], identity)
    }

    /// Some slot is vacant.
    pub open spec fn has_vacant(self) -> bool {
        exists|i: int| 0 <= i < self.slots_spec().len() && #[trigger] self.slots_spec()[i] is Vacant
    }

    /// The token naming the live resource in slot `index`.
    pub open spec fn token_at(self, index: int) -> ResourceToken {
        ResourceToken::from_parts(
            self.owner_spec(),
            ResourceSlotId::from_value(index as u64),
            match self.slots_spec()[index] {
                Slot::Occupied { generation, .. } => generation,
                Slot::Vacant { generation } => generation,
                Slot::Exhausted => ResourceGeneration::from_value(u64::MAX),
            },
        )
    }

    /// `after` is this table with `identity` and `resource` admitted under
    /// `token` in the first vacant slot, at that slot's generation.
    pub open spec fn admission_of(self, after: Self, identity: K, resource: R, token: ResourceToken) -> bool {
        let index = token.slot_spec().value() as int;
        &&& is_first_vacant(self.slots_spec(), index)
        &&& token == self.token_at(index)
        &&& after.owner_spec() == self.owner_spec()
        &&& after.capacity_spec() == self.capacity_spec()
        &&& after.slots_spec() == self.slots_spec().update(
            index,
            Slot::Occupied { generation: token.generation_spec(), identity, resource },
        )
    }

    /// `after` is this table with the live resource named by `token` removed
    /// and its slot retired to the next generation.
    pub open spec fn removal_of(self, after: Self, token: ResourceToken) -> bool {
        &&& self.lookup(token) is Ok
        &&& after.owner_spec() == self.owner_spec()
        &&& after.capacity_spec() == self.capacity_spec()
        &&& after.slots_spec() == self.slots_spec().update(
            token.slot_spec().value() as int,
            retired_slot(token.generation_spec()),
        )
    }

    /// Creates empty slots beginning at generation zero.
    pub fn new(owner: ResourceOwnerId, capacity: NonZeroCount) -> (table: Self)
        ensures
            table.wf(),
            table.owner_spec() == owner,
            table.capacity_spec() == capacity,
            table.slots_spec().len() == capacity.value(),
            table.active_count() == 0,
            table.exhausted_count() == 0,
            table.vacant_count() == capacity.value(),
            forall|i: int|
                0 <= i < capacity.value() ==> #[trigger] table.slots_spec()[i] == (Slot::<
                    K,
                    R,
                >::Vacant { generation: ResourceGeneration::from_value(0) }),
    {
        Self::starting_at(owner, capacity, ResourceGeneration::initial())
    }

    /// Creates empty slots beginning at an explicit generation floor.
    ///
    /// This supports restoring an externally persisted floor and deterministic
    /// exhaustion tests. Never lower the floor while an old token may exist.
    pub fn starting_at(
        owner: ResourceOwnerId,
        capacity: NonZeroCount,
        generation: ResourceGeneration,
    ) -> (table: Self)
        ensures
            table.wf(),
            table.owner_spec() == owner,
            table.capacity_spec() == capacity,
            table.slots_spec().len() == capacity.value(),
            table.active_count() == 0,
            table.exhausted_count() == 0,
            table.vacant_count() == capacity.value(),
            forall|i: int|
                0 <= i < capacity.value() ==> #[trigger] table.slots_spec()[i] == (Slot::<
                    K,
                    R,
                >::Vacant { generation }),
    {
        let count = capacity.get();
        let mut slots: Vec<Slot<K, R>> = Vec::with_capacity(count);
        let mut i: usize = 0;
        while i < count
            invariant
                i <= count,
                slots@.len() == i,
                forall|j: int| 0 <= j < i ==> #[trigger] slots@[j] == (Slot::<K, R>::Vacant { generation }),
            decreases count - i,
        {
            slots.push(Slot::Vacant { generation });
            i = i + 1;
        }
        proof {
            lemma_count_uniform(slots@, 0, 1);
            lemma_count_uniform(slots@, 0, 2);
        }
        ResourceTable { owner, capacity, slots, active: 0, exhausted: 0 }
    }

    /// Returns the table owner identity.
    pub fn owner(&self) -> (owner: ResourceOwnerId)
        ensures
            owner == self.owner_spec(),
    {
        self.owner
    }

    /// Returns the fixed slot count.
    pub fn capacity(&self) -> (capacity: NonZeroCount)
        ensures
            capacity == self.capacity_spec(),
    {
        self.capacity
    }

    /// Returns whether no live resources are admitted.
    pub fn is_empty(&self) -> (empty: bool)
        requires
            self.wf(),
        ensures
            empty == (self.active_count() == 0),
    {
        self.active == 0
    }

    /// Returns the live resource count.
    pub fn len(&self) -> (len: usize)
        requires
            self.wf(),
        ensures
            len == self.active_count(),
    {
        self.active
    }

    /// Returns whether a live resource owns `identity`.
    pub fn contains_identity(&self, identity: &K) -> (contains: bool) where K: PartialEq
        ensures
            K::obeys_eq_spec() ==> (contains == self.holds_identity(*identity)),
            contains ==> self.active_count() > 0,
    {
        let mut i: usize = 0;
        while i < self.slots.len()
            invariant
                i <= self.slots@.len(),
                K::obeys_eq_spec() ==> forall|j: int|
                    0 <= j < i ==> !slot_holds(#[trigger] self.slots@[j], *identity),
            decreases self.slots@.len() - i,
        {
            match &self.slots[i] {
                Slot::Occupied { identity: current, .. } => {
                    if current.eq(identity) {
                        proof {
                            if K::obeys_eq_spec() {
                                assert(slot_holds(self.slots_spec()[i as int], *identity));
                            }
                            lemma_count_positive(self.slots@, i as int, 1);
                        }
                        return true;
                    }
                },
                _ => {},
            }
            i = i + 1;
        }
        false
    }

    fn next_vacant(&self) -> (found: Option<(usize, ResourceGeneration)>)
        ensures
            match found {
                Some((index, generation)) => is_first_vacant(self.slots@, index as int)
                    && self.slots@[index as int] == (Slot::<K, R>::Vacant { generation }),
                None => !self.has_vacant(),
            },
    {
        let mut i: usize = 0;
        while i < self.slots.len()
            invariant
                i <= self.slots@.len(),
                forall|j: int| 0 <= j < i ==> !(#[trigger] self.slots@[j] is Vacant),
            decreases self.slots@.len() - i,
        {
            match &self.slots[i] {
                Slot::Vacant { generation } => {
                    return Some((i, *generation));
                },
                _ => {},
            }
            i = i + 1;
        }
        None
    }

    /// Admits one unique identity and returns its exact generation token.
    ///
    /// Admission fails, returning both values, when a live resource already
    /// owns the identity, when every slot is live, or when every non-live
    /// slot is exhausted. Otherwise the first vacant slot takes the resource
    /// at its current generation.
    pub fn admit_resource(&mut self, identity: K, resource: R) -> (admitted: Result<
        ResourceToken,
        ResourceAdmissionError<K, R>,
    >) where K: PartialEq
        requires
            old(self).wf(),
        ensures
            final(self).wf(),
            final(self).owner_spec() == old(self).owner_spec(),
            final(self).capacity_spec() == old(self).capacity_spec(),
            final(self).exhausted_count() == old(self).exhausted_count(),
            K::obeys_eq_spec() ==> (admitted matches Err(e) && e.failure_spec()
                == ResourceAdmissionFailure::IdentityInUse <==> old(self).holds_identity(identity)),
            K::obeys_eq_spec() ==> (admitted is Err <==> (old(self).holds_identity(identity)
                || old(self).vacant_count() == 0)),
            match admitted {
                Ok(token) => {
                    &&& K::obeys_eq_spec() ==> !old(self).holds_identity(identity)
                    &&& old(self).admission_of(*final(self), identity, resource, token)
                    &&& old(self).active_count() < old(self).capacity_spec().value()
                    &&& final(self).active_count() == old(self).active_count() + 1
                },
                Err(error) => {
                    &&& error.identity_spec() == identity
                    &&& error.resource_spec() == resource
                    &&& final(self).slots_spec() == old(self).slots_spec()
                    &&& match error.failure_spec() {
                        ResourceAdmissionFailure::IdentityInUse => old(self).active_count() > 0,
                        ResourceAdmissionFailure::CapacityReached { limit } => {
                            &&& limit == old(self).capacity_spec()
                            &&& old(self).active_count() == old(self).capacity_spec().value()
                        },
                        ResourceAdmissionFailure::TokenSpaceExhausted => {
                            &&& old(self).active_count() < old(self).capacity_spec().value()
                            &&& !old(self).has_vacant()
                        },
                    }
                },
            },
    {
        proof {
            self.lemma_vacant_count_zero();
            lemma_count_partition(self.slots@);
        }
        if self.contains_identity(&identity) {
            return Err(
                ResourceAdmissionError::new(
                    identity,
                    resource,
                    ResourceAdmissionFailure::IdentityInUse,
                ),
            );
        }
        if self.active == self.capacity.get() {
            return Err(
                ResourceAdmissionError::new(
                    identity,
                    resource,
                    ResourceAdmissionFailure::CapacityReached { limit: self.capacity },
                ),
            );
        }
        proof {
            lemma_count_partition(self.slots@);
        }
        let found = self.next_vacant();
        match found {
            None => Err(
                ResourceAdmissionError::new(
                    identity,
                    resource,
                    ResourceAdmissionFailure::TokenSpaceExhausted,
                ),
            ),
            Some((index, generation)) => {
                let ghost before = self.slots@;
                proof {
                    lemma_count_update(
                        before,
                        index as int,
                        Slot::Occupied { generation, identity, resource },
                        1,
                    );
                    lemma_count_update(
                        before,
                        index as int,
                        Slot::Occupied { generation, identity, resource },
                        2,
                    );
                    lemma_count_partition(
                        before.update(index as int, Slot::Occupied { generation, identity, resource }),
                    );
                }
                self.slots.set(index, Slot::Occupied { generation, identity, resource });
                self.active = self.active + 1;
                Ok(ResourceToken::new(self.owner, ResourceSlotId::new(index as u64), generation))
            },
        }
    }

    /// Returns the current token for one exact live identity.
    pub fn token_for(&self, identity: &K) -> (token: Option<ResourceToken>) where K: PartialEq
        ensures
            K::obeys_eq_spec() ==> (token is Some <==> self.holds_identity(*identity)),
            match token {
                Some(t) => {
                    let index = t.slot_spec().value() as int;
                    &&& 0 <= index < self.slots_spec().len()
                    &&& self.slots_spec()[index] is Occupied
                    &&& t == self.token_at(index)
                    &&& K::obeys_eq_spec() ==> is_first_holder(self.slots_spec(), *identity, index)
                },
                None => true,
            },
            token is Some ==> self.active_count() > 0,
    {
        let mut i: usize = 0;
        while i < self.slots.len()
            invariant
                i <= self.slots@.len(),
                K::obeys_eq_spec() ==> forall|j: int|
                    0 <= j < i ==> !slot_holds(#[trigger] self.slots@[j], *identity),
            decreases self.slots@.len() - i,
        {
            match &self.slots[i] {
                Slot::Occupied { generation, identity: current, .. } => {
                    if current.eq(identity) {
                        proof {
                            if K::obeys_eq_spec() {
                                assert(slot_holds(self.slots_spec()[i as int], *identity));
                            }
                            lemma_count_positive(self.slots@, i as int, 1);
                        }
                        return Some(
                            ResourceToken::new(self.owner, ResourceSlotId::new(i as u64), *generation),
                        );
                    }
                },
                _ => {},
            }
            i = i + 1;
        }
        None
    }

    fn validate_owner_and_slot(&self, token: ResourceToken) -> (index: Result<
        usize,
        ResourceTokenFailure,
    >)
        requires
            self.wf(),
        ensures
            match index {
                Ok(i) => {
                    &&& token.owner_spec() == self.owner_spec()
                    &&& i == token.slot_spec().value()
                    &&& i < self.slots_spec().len()
                },
                Err(failure) => self.lookup(token) == Err::<(K, R), ResourceTokenFailure>(failure),
            },
    {
        if token.owner() != self.owner {
            return Err(
                ResourceTokenFailure::OwnerMismatch { expected: self.owner, actual: token.owner() },
            );
        }
        let slot = token.slot().get();
        if slot >= self.capacity.get() as u64 {
            return Err(
                ResourceTokenFailure::SlotOutOfBounds { slot: token.slot(), capacity: self.capacity },
            );
        }
        Ok(slot as usize)
    }

    fn validate_token(&self, token: ResourceToken) -> (index: Result<usize, ResourceTokenFailure>)
        requires
            self.wf(),
        ensures
            match index {
                Ok(i) => {
                    &&& i == token.slot_spec().value()
                    &&& i < self.slots_spec().len()
                    &&& self.lookup(token) is Ok
                },
                Err(failure) => self.lookup(token) == Err::<(K, R), ResourceTokenFailure>(failure),
            },
    {
        let index = self.validate_owner_and_slot(token)?;
        match &self.slots[index] {
            Slot::Occupied { generation, .. } => {
                if *generation == token.generation() {
                    Ok(index)
                } else {
                    Err(token_failure(&self.slots[index], token))
                }
            },
            slot => Err(token_failure(slot, token)),
        }
    }

    /// Borrows the exact live identity and resource named by `token`.
    pub fn get(&self, token: ResourceToken) -> (found: Result<(&K, &R), ResourceTokenFailure>)
        requires
            self.wf(),
        ensures
            match found {
                Ok((identity, resource)) => self.lookup(token) == Ok::<
                    (K, R),
                    ResourceTokenFailure,
                >((*identity, *resource)),
                Err(failure) => self.lookup(token) == Err::<(K, R), ResourceTokenFailure>(failure),
            },
    {
        let index = self.validate_owner_and_slot(token)?;
        match &self.slots[index] {
            Slot::Occupied { generation, identity, resource } => {
                if *generation == token.generation() {
                    Ok((identity, resource))
                } else {
                    Err(token_failure(&self.slots[index], token))
                }
            },
            slot => Err(token_failure(slot, token)),
        }
    }

    /// Mutably borrows the exact live resource named by `token`, beside its
    /// identity.
    pub fn get_mut(&mut self, token: ResourceToken) -> (found: Result<
        (&K, &mut R),
        ResourceTokenFailure,
    >)
        requires
            old(self).wf(),
        ensures
            match found {
                Ok((identity, resource)) => {
                    &&& old(self).lookup(token) == Ok::<(K, R), ResourceTokenFailure>(
                        (*identity, *resource),
                    )
                    &&& final(self).wf()
                    &&& final(self).owner_spec() == old(self).owner_spec()
                    &&& final(self).capacity_spec() == old(self).capacity_spec()
                    &&& final(self).active_count() == old(self).active_count()
                    &&& final(self).exhausted_count() == old(self).exhausted_count()
                    &&& final(self).slots_spec() == old(self).slots_spec().update(
                        token.slot_spec().value() as int,
                        Slot::Occupied {
                            generation: token.generation_spec(),
                            identity: *identity,
                            resource: *final(resource),
                        },
                    )
                },
                Err(failure) => {
                    &&& old(self).lookup(token) == Err::<(K, R), ResourceTokenFailure>(failure)
                    &&& *final(self) == *old(self)
                },
            },
    {
        let index = self.validate_token(token)?;
        proof {
            let before = self.slots@;
            assert forall|slot: Slot<K, R>| slot is Occupied implies count_kind(
                #[trigger] before.update(index as int, slot),
                1,
            ) == count_kind(before, 1) && count_kind(before.update(index as int, slot), 2)
                == count_kind(before, 2) by {
                lemma_count_update(before, index as int, slot, 1);
                lemma_count_update(before, index as int, slot, 2);
            }
        }
        match &mut self.slots[index] {
            Slot::Occupied { identity, resource, .. } => Ok((identity, resource)),
            _ => {
                proof {
                    assert(false);
                }
                Err(ResourceTokenFailure::Exhausted { slot: token.slot() })
            },
        }
    }

    /// Removes the exact live generation and returns both owned values.
    ///
    /// The slot becomes vacant at the next generation, or permanently
    /// exhausted when the removed generation was the last one.
    pub fn remove(&mut self, token: ResourceToken) -> (removed: Result<(K, R), ResourceTokenFailure>)
        requires
            old(self).wf(),
        ensures
            final(self).wf(),
            final(self).owner_spec() == old(self).owner_spec(),
            final(self).capacity_spec() == old(self).capacity_spec(),
            removed == old(self).lookup(token),
            removed is Ok ==> old(self).removal_of(*final(self), token),
            removed is Ok ==> final(self).active_count() + 1 == old(self).active_count(),
            removed is Ok ==> final(self).exhausted_count() == old(self).exhausted_count() + (
            if token.generation_spec().value() == u64::MAX {
                1int
            } else {
                0int
            }),
            removed is Err ==> final(self).slots_spec() == old(self).slots_spec(),
            final(self).exhausted_count() >= old(self).exhausted_count(),
    {
        let index = self.validate_token(token)?;
        let ghost before = self.slots@;
        let mut current = Slot::Exhausted;
        core::mem::swap(&mut self.slots[index], &mut current);
        match current {
            Slot::Occupied { generation, identity, resource } => {
                proof {
                    lemma_count_positive(before, index as int, 1);
                    lemma_count_update(before, index as int, retired_slot::<K, R>(generation), 1);
                    lemma_count_update(before, index as int, retired_slot::<K, R>(generation), 2);
                    lemma_count_update(before, index as int, Slot::<K, R>::Exhausted, 1);
                    lemma_count_update(before, index as int, Slot::<K, R>::Exhausted, 2);
                    lemma_count_partition(before.update(index as int, Slot::<K, R>::Exhausted));
                }
                self.active = self.active - 1;
                match generation.checked_next() {
                    Some(next) => {
                        self.slots.set(index, Slot::Vacant { generation: next });
                        assert(self.slots@ =~= before.update(
                            index as int,
                            retired_slot::<K, R>(generation),
                        ));
                    },
                    None => {
                        self.exhausted = self.exhausted + 1;
                        assert(self.slots@ =~= before.update(
                            index as int,
                            retired_slot::<K, R>(generation),
                        ));
                    },
                }
                Ok((identity, resource))
            },
            _ => {
                proof {
                    assert(false);
                }
                Err(ResourceTokenFailure::Exhausted { slot: token.slot() })
            },
        }
    }

    /// Returns current live, vacant, and exhausted slot counts.
    pub fn snapshot(&self) -> (snapshot: ResourceTableSnapshot)
        requires
            self.wf(),
        ensures
            snapshot.owner_spec() == self.owner_spec(),
            snapshot.capacity_spec() == self.capacity_spec(),
            snapshot.active_spec() == self.active_count(),
            snapshot.vacant_spec() == self.vacant_count(),
            snapshot.exhausted_spec() == self.exhausted_count(),
    {
        proof {
            lemma_count_partition(self.slots@);
        }
        let unavailable = self.active + self.exhausted;
        let vacant = self.capacity.get() - unavailable;
        ResourceTableSnapshot::new(self.owner, self.capacity, self.active, vacant, self.exhausted)
    }
}

} // verus!
