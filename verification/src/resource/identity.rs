//! Explicit owner, slot, and generation identity for resource tokens.

use vstd::prelude::*;

verus! {

/// Stable identity for one mutable resource owner.
///
/// Callers must assign distinct values to tables whose tokens may be mixed.
#[derive(Clone, Copy, Debug, PartialEq, Eq, Hash, PartialOrd, Ord, Structural)]
pub struct ResourceOwnerId(u64);

/// Fixed-width slot identity inside one resource owner.
#[derive(Clone, Copy, Debug, PartialEq, Eq, Hash, PartialOrd, Ord, Structural)]
pub struct ResourceSlotId(u64);

/// Monotonic reuse generation for one resource slot.
#[derive(Clone, Copy, Debug, PartialEq, Eq, Hash, PartialOrd, Ord, Structural)]
pub struct ResourceGeneration(u64);

/// Exact identity for one admitted resource generation.
#[derive(Clone, Copy, Debug, PartialEq, Eq, Hash, PartialOrd, Ord, Structural)]
pub struct ResourceToken {
    owner: ResourceOwnerId,
    slot: ResourceSlotId,
    generation: ResourceGeneration,
}

impl ResourceOwnerId {
    /// The fixed-width identity value.
    pub closed spec fn value(self) -> u64 {
        self.0
    }

    /// The owner identity holding `value`.
    pub closed spec fn from_value(value: u64) -> ResourceOwnerId {
        ResourceOwnerId(value)
    }

    /// Creates an owner identity.
    pub fn new(value: u64) -> (id: ResourceOwnerId)
        ensures
            id == ResourceOwnerId::from_value(value),
    {
        ResourceOwnerId(value)
    }

    /// Returns the fixed-width identity value.
    pub fn get(self) -> (value: u64)
        ensures
            value == self.value(),
    {
        self.0
    }
}

impl ResourceSlotId {
    /// The owner-local slot index.
    pub closed spec fn value(self) -> u64 {
        self.0
    }

    /// The slot identity holding `value`.
    pub closed spec fn from_value(value: u64) -> ResourceSlotId {
        ResourceSlotId(value)
    }

    /// Creates a slot identity from its fixed-width value.
    pub fn new(value: u64) -> (id: ResourceSlotId)
        ensures
            id == ResourceSlotId::from_value(value),
    {
        ResourceSlotId(value)
    }

    /// Returns the owner-local slot index.
    pub fn get(self) -> (value: u64)
        ensures
            value == self.value(),
    {
        self.0
    }
}

impl ResourceGeneration {
    /// The fixed-width generation value.
    pub closed spec fn value(self) -> u64 {
        self.0
    }

    /// The generation holding `value`.
    pub closed spec fn from_value(value: u64) -> ResourceGeneration {
        ResourceGeneration(value)
    }

    /// Initial generation for a new table.
    pub fn initial() -> (generation: ResourceGeneration)
        ensures
            generation == ResourceGeneration::from_value(0),
    {
        ResourceGeneration(0)
    }

    /// Last representable generation.
    pub fn max() -> (generation: ResourceGeneration)
        ensures
            generation == ResourceGeneration::from_value(u64::MAX),
    {
        ResourceGeneration(u64::MAX)
    }

    /// Creates a generation from its fixed-width value.
    pub fn new(value: u64) -> (generation: ResourceGeneration)
        ensures
            generation == ResourceGeneration::from_value(value),
    {
        ResourceGeneration(value)
    }

    /// Returns the fixed-width generation value.
    pub fn get(self) -> (value: u64)
        ensures
            value == self.value(),
    {
        self.0
    }

    /// Returns the next generation, or `None` when reuse is exhausted.
    pub fn checked_next(self) -> (next: Option<ResourceGeneration>)
        ensures
            self.value() < u64::MAX ==> next == Some(
                ResourceGeneration::from_value((self.value() + 1) as u64),
            ),
            self.value() == u64::MAX ==> next is None,
    {
        match self.0.checked_add(1) {
            Some(value) => Some(ResourceGeneration(value)),
            None => None,
        }
    }
}

impl ResourceToken {
    /// The resource owner identity.
    pub closed spec fn owner_spec(self) -> ResourceOwnerId {
        self.owner
    }

    /// The owner-local slot identity.
    pub closed spec fn slot_spec(self) -> ResourceSlotId {
        self.slot
    }

    /// The exact slot generation.
    pub closed spec fn generation_spec(self) -> ResourceGeneration {
        self.generation
    }

    /// The token made of exactly these three identities.
    pub closed spec fn from_parts(
        owner: ResourceOwnerId,
        slot: ResourceSlotId,
        generation: ResourceGeneration,
    ) -> ResourceToken {
        ResourceToken { owner, slot, generation }
    }

    /// Creates a token from explicit owner, slot, and generation identities.
    ///
    /// Constructing a token does not make it valid: a resource table checks
    /// every component before exposing or removing a resource.
    pub fn new(
        owner: ResourceOwnerId,
        slot: ResourceSlotId,
        generation: ResourceGeneration,
    ) -> (token: ResourceToken)
        ensures
            token == ResourceToken::from_parts(owner, slot, generation),
    {
        ResourceToken { owner, slot, generation }
    }

    /// Returns the resource owner identity.
    pub fn owner(self) -> (owner: ResourceOwnerId)
        ensures
            owner == self.owner_spec(),
    {
        self.owner
    }

    /// Returns the owner-local slot identity.
    pub fn slot(self) -> (slot: ResourceSlotId)
        ensures
            slot == self.slot_spec(),
    {
        self.slot
    }

    /// Returns the exact slot generation.
    pub fn generation(self) -> (generation: ResourceGeneration)
        ensures
            generation == self.generation_spec(),
    {
        self.generation
    }
}

/// Identity values and their spec constructors agree, and equal values give
/// equal identities.
pub broadcast proof fn lemma_owner_value(value: u64)
    ensures
        #[trigger] ResourceOwnerId::from_value(value).value() == value,
{
}

/// The slot identity holding `value` reports `value`.
pub broadcast proof fn lemma_slot_value(value: u64)
    ensures
        #[trigger] ResourceSlotId::from_value(value).value() == value,
{
}

/// The generation holding `value` reports `value`.
pub broadcast proof fn lemma_generation_value(value: u64)
    ensures
        #[trigger] ResourceGeneration::from_value(value).value() == value,
{
}

/// A slot identity is determined by its value.
pub broadcast proof fn lemma_slot_injective(a: ResourceSlotId, b: ResourceSlotId)
    ensures
        #![trigger a.value(), b.value()]
        a.value() == b.value() ==> a == b,
{
}

/// A generation is determined by its value.
pub broadcast proof fn lemma_generation_injective(a: ResourceGeneration, b: ResourceGeneration)
    ensures
        #![trigger a.value(), b.value()]
        a.value() == b.value() ==> a == b,
{
}

/// A token reports exactly the identities it was made of.
pub broadcast proof fn lemma_token_parts(
    owner: ResourceOwnerId,
    slot: ResourceSlotId,
    generation: ResourceGeneration,
)
    ensures
        #![trigger ResourceToken::from_parts(owner, slot, generation)]
        ResourceToken::from_parts(owner, slot, generation).owner_spec() == owner,
        ResourceToken::from_parts(owner, slot, generation).slot_spec() == slot,
        ResourceToken::from_parts(owner, slot, generation).generation_spec() == generation,
{
}

/// A token is determined by its three identities.
pub broadcast proof fn lemma_token_injective(a: ResourceToken, b: ResourceToken)
    ensures
        #![trigger a.owner_spec(), b.owner_spec()]
        (a.owner_spec() == b.owner_spec() && a.slot_spec() == b.slot_spec()
            && a.generation_spec() == b.generation_spec()) ==> a == b,
{
}

pub broadcast group group_resource_identity {
    lemma_owner_value,
    lemma_slot_value,
    lemma_generation_value,
    lemma_slot_injective,
    lemma_generation_injective,
    lemma_token_parts,
    lemma_token_injective,
}

} // verus!
