//! Vacant, occupied, and permanently retired resource slots.

use vstd::prelude::*;

use super::error::ResourceTokenFailure;
use super::identity::{ResourceGeneration, ResourceToken};

verus! {

/// One fixed slot of a resource table.
#[derive(Debug)]
pub enum Slot<K, R> {
    /// Free, awaiting admission at `generation`.
    Vacant { generation: ResourceGeneration },
    /// Holding one live resource admitted at `generation`.
    Occupied { generation: ResourceGeneration, identity: K, resource: R },
    /// Permanently retired after its last generation.
    Exhausted,
}

/// The failure reported for a token whose owner and slot are valid but that
/// does not name the live generation of `slot`.
pub open spec fn token_failure_spec<K, R>(slot: Slot<K, R>, token: ResourceToken) -> ResourceTokenFailure {
    match slot {
        Slot::Vacant { generation } => ResourceTokenFailure::Vacant {
            slot: token.slot_spec(),
            generation,
        },
        Slot::Occupied { generation, .. } => ResourceTokenFailure::GenerationMismatch {
            slot: token.slot_spec(),
            current: generation,
            supplied: token.generation_spec(),
        },
        Slot::Exhausted => ResourceTokenFailure::Exhausted { slot: token.slot_spec() },
    }
}

pub(crate) fn token_failure<K, R>(slot: &Slot<K, R>, token: ResourceToken) -> (failure:
    ResourceTokenFailure)
    ensures
        failure == token_failure_spec(*slot, token),
{
    match slot {
        Slot::Vacant { generation } => ResourceTokenFailure::Vacant {
            slot: token.slot(),
            generation: *generation,
        },
        Slot::Occupied { generation, .. } => ResourceTokenFailure::GenerationMismatch {
            slot: token.slot(),
            current: *generation,
            supplied: token.generation(),
        },
        Slot::Exhausted => ResourceTokenFailure::Exhausted { slot: token.slot() },
    }
}

/// Kind codes of slots: vacant, occupied, exhausted.
pub open spec fn slot_kind<K, R>(slot: Slot<K, R>) -> int {
    match slot {
        Slot::Vacant { .. } => 0,
        Slot::Occupied { .. } => 1,
        Slot::Exhausted => 2,
    }
}

/// The number of slots of `kind` in `slots`.
pub open spec fn count_kind<K, R>(slots: Seq<Slot<K, R>>, kind: int) -> nat
    decreases slots.len(),
{
    if slots.len() == 0 {
        0
    } else {
        count_kind(slots.drop_last(), kind) + if slot_kind(slots.last()) == kind {
            1nat
        } else {
            0nat
        }
    }
}

/// Replacing one slot moves it from its old kind count to its new one.
pub proof fn lemma_count_update<K, R>(slots: Seq<Slot<K, R>>, i: int, slot: Slot<K, R>, kind: int)
    requires
        0 <= i < slots.len(),
    ensures
        count_kind(slots.update(i, slot), kind) + (if slot_kind(slots[i]) == kind {
            1int
        } else {
            0int
        }) == count_kind(slots, kind) + (if slot_kind(slot) == kind {
            1int
        } else {
            0int
        }),
    decreases slots.len(),
{
    let updated = slots.update(i, slot);
    if i < slots.len() - 1 {
        assert(updated.drop_last() =~= slots.drop_last().update(i, slot));
        lemma_count_update(slots.drop_last(), i, slot, kind);
    } else {
        assert(updated.drop_last() =~= slots.drop_last());
    }
}

/// Every slot has exactly one of the three kinds.
pub proof fn lemma_count_partition<K, R>(slots: Seq<Slot<K, R>>)
    ensures
        count_kind(slots, 0) + count_kind(slots, 1) + count_kind(slots, 2) == slots.len(),
    decreases slots.len(),
{
    if slots.len() > 0 {
        lemma_count_partition(slots.drop_last());
    }
}

/// A kind that occurs somewhere has a positive count.
pub proof fn lemma_count_positive<K, R>(slots: Seq<Slot<K, R>>, i: int, kind: int)
    requires
        0 <= i < slots.len(),
        slot_kind(slots[i]) == kind,
    ensures
        count_kind(slots, kind) > 0,
    decreases slots.len(),
{
    if i < slots.len() - 1 {
        lemma_count_positive(slots.drop_last(), i, kind);
    }
}

/// A kind has count zero exactly when no slot has that kind.
pub proof fn lemma_count_zero<K, R>(slots: Seq<Slot<K, R>>, kind: int)
    ensures
        count_kind(slots, kind) == 0 <==> forall|i: int|
            0 <= i < slots.len() ==> slot_kind(#[trigger] slots[i]) != kind,
    decreases slots.len(),
{
    if slots.len() > 0 {
        let shorter = slots.drop_last();
        lemma_count_zero(shorter, kind);
        if count_kind(slots, kind) == 0 {
            assert forall|i: int| 0 <= i < slots.len() implies slot_kind(#[trigger] slots[i])
                != kind by {
                if i < slots.len() - 1 {
                    assert(shorter[i] == slots[i]);
                }
            }
        } else if forall|i: int| 0 <= i < slots.len() ==> slot_kind(#[trigger] slots[i]) != kind {
            assert forall|i: int| 0 <= i < shorter.len() implies slot_kind(#[trigger] shorter[i])
                != kind by {
                assert(shorter[i] == slots[i]);
            }
            assert(slot_kind(slots[slots.len() - 1]) != kind);
        }
    }
}

/// Sequences of one uniform kind count their whole length.
pub proof fn lemma_count_uniform<K, R>(slots: Seq<Slot<K, R>>, kind: int, other: int)
    requires
        forall|i: int| 0 <= i < slots.len() ==> slot_kind(#[trigger] slots[i]) == kind,
        other != kind,
    ensures
        count_kind(slots, kind) == slots.len(),
        count_kind(slots, other) == 0,
    decreases slots.len(),
{
    if slots.len() > 0 {
        let shorter = slots.drop_last();
        assert forall|i: int| 0 <= i < shorter.len() implies slot_kind(#[trigger] shorter[i])
            == kind by {
            assert(shorter[i] == slots[i]);
        }
        lemma_count_uniform(shorter, kind, other);
        assert(slot_kind(slots[slots.len() - 1]) == kind);
    }
}

} // verus!
