//! Laws of the resource table: what admission and removal do to token
//! resolution, slot accounting, generation fencing, and identity uniqueness.

use vstd::prelude::*;
use vstd::std_specs::cmp::PartialEqSpec;

use super::error::ResourceTokenFailure;
use super::identity::{group_resource_identity, ResourceGeneration, ResourceToken};
use super::slot::{lemma_count_update, lemma_count_zero, slot_kind, Slot};
use super::table::{generation_floor, is_first_holder, retired_slot, slot_holds, ResourceTable};

verus! {

broadcast use group_resource_identity;

/// No slot's generation floor went down between `before` and `after`.
pub open spec fn floors_grow<K, R>(before: ResourceTable<K, R>, after: ResourceTable<K, R>) -> bool {
    &&& after.slots_spec().len() == before.slots_spec().len()
    &&& forall|i: int|
        0 <= i < before.slots_spec().len() ==> generation_floor(#[trigger] after.slots_spec()[i])
            >= generation_floor(before.slots_spec()[i])
}

/// No two live identities compare equal.
pub open spec fn identities_unique<K: PartialEq, R>(table: ResourceTable<K, R>) -> bool {
    forall|i: int, j: int|
        0 <= i < table.slots_spec().len() && 0 <= j < table.slots_spec().len() && i != j
            && #[trigger] table.slots_spec()[i] is Occupied && #[trigger] table.slots_spec()[j] is Occupied
            ==> !table.slots_spec()[i]->identity.eq_spec(&table.slots_spec()[j]->identity)
}

/// Identity comparison obeys its specification and is an equivalence:
/// reflexive, symmetric and transitive, as an `Eq` implementation promises.
pub open spec fn equivalence_identities<K: PartialEq>() -> bool {
    &&& vstd::laws_eq::obeys_eq::<K>()
    &&& forall|x: K| #[trigger] x.eq_spec(&x)
}

/// The symmetric and transitive laws of an equivalence on identities.
proof fn lemma_equivalence_laws<K: PartialEq>()
    requires
        equivalence_identities::<K>(),
    ensures
        forall|x: K, y: K| #[trigger] x.eq_spec(&y) <==> y.eq_spec(&x),
        forall|x: K, y: K, z: K| x.eq_spec(&y) && #[trigger] y.eq_spec(&z) ==> #[trigger] x.eq_spec(&z),
{
    reveal(vstd::laws_eq::obeys_eq_spec_properties);
}

/// Read after admission: before admission the returned token named a vacant
/// slot at its generation; afterwards it resolves to exactly the admitted
/// identity and resource.
pub proof fn lemma_admitted_token_resolves<K, R>(
    before: ResourceTable<K, R>,
    after: ResourceTable<K, R>,
    identity: K,
    resource: R,
    token: ResourceToken,
)
    requires
        before.wf(),
        before.admission_of(after, identity, resource, token),
    ensures
        before.lookup(token) == Err::<(K, R), ResourceTokenFailure>(
            ResourceTokenFailure::Vacant {
                slot: token.slot_spec(),
                generation: token.generation_spec(),
            },
        ),
        after.lookup(token) == Ok::<(K, R), ResourceTokenFailure>((identity, resource)),
{
    before.lemma_wf_shape();
}

/// Admission leaves every other slot alone: a token naming another slot
/// resolves afterwards exactly as before, and in particular every token that
/// resolved before still resolves to the same identity and resource.
pub proof fn lemma_admission_keeps_other_tokens<K, R>(
    before: ResourceTable<K, R>,
    after: ResourceTable<K, R>,
    identity: K,
    resource: R,
    token: ResourceToken,
    other: ResourceToken,
)
    requires
        before.wf(),
        before.admission_of(after, identity, resource, token),
    ensures
        other.slot_spec() != token.slot_spec() ==> after.lookup(other) == before.lookup(other),
        before.lookup(other) is Ok ==> after.lookup(other) == before.lookup(other),
{
    before.lemma_wf_shape();
}

/// Removal returns ownership once: afterwards the removed token is rejected,
/// because its slot moved past the token's generation, either to a vacant
/// slot at the next generation or to a permanently exhausted slot.
pub proof fn lemma_removed_token_rejected<K, R>(
    before: ResourceTable<K, R>,
    after: ResourceTable<K, R>,
    token: ResourceToken,
)
    requires
        before.wf(),
        before.removal_of(after, token),
    ensures
        after.lookup(token) is Err,
        generation_floor(after.slots_spec()[token.slot_spec().value() as int])
            > token.generation_spec().value(),
        token.generation_spec().value() < u64::MAX ==> after.lookup(token) == Err::<
            (K, R),
            ResourceTokenFailure,
        >(
            ResourceTokenFailure::Vacant {
                slot: token.slot_spec(),
                generation: ResourceGeneration::from_value(
                    (token.generation_spec().value() + 1) as u64,
                ),
            },
        ),
        token.generation_spec().value() == u64::MAX ==> after.lookup(token) == Err::<
            (K, R),
            ResourceTokenFailure,
        >(ResourceTokenFailure::Exhausted { slot: token.slot_spec() }),
{
    before.lemma_wf_shape();
}

/// Removal leaves every other slot alone: a token naming another slot
/// resolves afterwards exactly as before, and every token other than the
/// removed one that resolved before still resolves to the same pair.
pub proof fn lemma_removal_keeps_other_tokens<K, R>(
    before: ResourceTable<K, R>,
    after: ResourceTable<K, R>,
    token: ResourceToken,
    other: ResourceToken,
)
    requires
        before.wf(),
        before.removal_of(after, token),
    ensures
        other.slot_spec() != token.slot_spec() ==> after.lookup(other) == before.lookup(other),
        before.lookup(other) is Ok && other != token ==> after.lookup(other) == before.lookup(
            other,
        ),
{
    before.lemma_wf_shape();
    if before.lookup(other) is Ok && other != token && other.slot_spec() == token.slot_spec() {
        assert(other.owner_spec() == token.owner_spec());
        assert(other.generation_spec() == token.generation_spec());
    }
}

/// Admission and removal never lower a slot's generation floor; removal
/// strictly raises the floor of the removed slot.
pub proof fn lemma_floors_grow<K, R>(
    before: ResourceTable<K, R>,
    after: ResourceTable<K, R>,
    identity: K,
    resource: R,
    token: ResourceToken,
)
    requires
        before.wf(),
    ensures
        before.admission_of(after, identity, resource, token) ==> floors_grow(before, after),
        before.removal_of(after, token) ==> floors_grow(before, after),
{
    before.lemma_wf_shape();
}

/// Replacing a live resource in place, as a mutable borrow does, keeps every
/// generation floor.
pub proof fn lemma_in_place_update_keeps_floors<K, R>(
    before: ResourceTable<K, R>,
    after: ResourceTable<K, R>,
    index: int,
    resource: R,
)
    requires
        0 <= index < before.slots_spec().len(),
        before.slots_spec()[index] is Occupied,
        after.slots_spec() == before.slots_spec().update(
            index,
            Slot::Occupied {
                generation: before.slots_spec()[index]->Occupied_generation,
                identity: before.slots_spec()[index]->Occupied_identity,
                resource,
            },
        ),
    ensures
        floors_grow(before, after),
        floors_grow(after, before),
{
}

/// Generation fencing: a token whose generation lies below its slot's floor
/// can never resolve.
pub proof fn lemma_stale_token_rejected<K, R>(table: ResourceTable<K, R>, token: ResourceToken)
    requires
        table.wf(),
        token.slot_spec().value() < table.slots_spec().len(),
        token.generation_spec().value() < generation_floor(
            table.slots_spec()[token.slot_spec().value() as int],
        ),
    ensures
        table.lookup(token) is Err,
{
    table.lemma_wf_shape();
}

/// A token that was stale stays stale across any history in which floors
/// only grow.
pub proof fn lemma_stale_token_stays_rejected<K, R>(
    before: ResourceTable<K, R>,
    after: ResourceTable<K, R>,
    token: ResourceToken,
)
    requires
        before.wf(),
        after.wf(),
        floors_grow(before, after),
        token.slot_spec().value() < before.slots_spec().len(),
        token.generation_spec().value() < generation_floor(
            before.slots_spec()[token.slot_spec().value() as int],
        ),
    ensures
        after.lookup(token) is Err,
{
    after.lemma_wf_shape();
}

/// Slot accounting: live, vacant, and exhausted slots always sum to the
/// capacity; admission adds one live slot and removal takes one away, adding
/// an exhausted slot exactly when the last generation was removed.
pub proof fn lemma_accounting<K, R>(
    before: ResourceTable<K, R>,
    after: ResourceTable<K, R>,
    identity: K,
    resource: R,
    token: ResourceToken,
)
    requires
        before.wf(),
    ensures
        before.active_count() + before.vacant_count() + before.exhausted_count()
            == before.capacity_spec().value(),
        before.admission_of(after, identity, resource, token) ==> {
            &&& after.active_count() == before.active_count() + 1
            &&& after.exhausted_count() == before.exhausted_count()
            &&& after.vacant_count() + 1 == before.vacant_count()
        },
        before.removal_of(after, token) ==> {
            &&& after.active_count() + 1 == before.active_count()
            &&& token.generation_spec().value() < u64::MAX ==> after.exhausted_count()
                == before.exhausted_count() && after.vacant_count() == before.vacant_count() + 1
            &&& token.generation_spec().value() == u64::MAX ==> after.exhausted_count()
                == before.exhausted_count() + 1 && after.vacant_count() == before.vacant_count()
        },
{
    before.lemma_wf_shape();
    let slots = before.slots_spec();
    let index = token.slot_spec().value() as int;
    if before.admission_of(after, identity, resource, token) {
        let slot = Slot::Occupied { generation: token.generation_spec(), identity, resource };
        lemma_count_update(slots, index, slot, 0);
        lemma_count_update(slots, index, slot, 1);
        lemma_count_update(slots, index, slot, 2);
    }
    if before.removal_of(after, token) {
        let slot = retired_slot::<K, R>(token.generation_spec());
        lemma_count_update(slots, index, slot, 0);
        lemma_count_update(slots, index, slot, 1);
        lemma_count_update(slots, index, slot, 2);
    }
}

/// When identity comparison is an equivalence, admission of an identity
/// that is not live keeps live identities distinct, and so does removal.
pub proof fn lemma_identities_stay_unique<K: PartialEq, R>(
    before: ResourceTable<K, R>,
    after: ResourceTable<K, R>,
    identity: K,
    resource: R,
    token: ResourceToken,
)
    requires
        before.wf(),
        identities_unique(before),
        equivalence_identities::<K>(),
    ensures
        before.admission_of(after, identity, resource, token) && !before.holds_identity(identity)
            ==> identities_unique(after),
        before.removal_of(after, token) ==> identities_unique(after),
{
    before.lemma_wf_shape();
    lemma_equivalence_laws::<K>();
    let slots = before.slots_spec();
    let index = token.slot_spec().value() as int;
    if before.admission_of(after, identity, resource, token) && !before.holds_identity(identity) {
        assert forall|i: int, j: int|
            0 <= i < after.slots_spec().len() && 0 <= j < after.slots_spec().len() && i != j
                && #[trigger] after.slots_spec()[i] is Occupied
                && #[trigger] after.slots_spec()[j] is Occupied implies !after.slots_spec()[i]->identity.eq_spec(
            &after.slots_spec()[j]->identity,
        ) by {
            if i == index {
                if identity.eq_spec(&slots[j]->identity) {
                    assert(slots[j]->identity.eq_spec(&identity));
                    assert(slot_holds(slots[j], identity));
                }
            } else if j == index {
                if slots[i]->identity.eq_spec(&identity) {
                    assert(slot_holds(slots[i], identity));
                }
            } else {
                assert(slots[i] is Occupied && slots[j] is Occupied);
            }
        }
    }
    if before.removal_of(after, token) {
        assert forall|i: int, j: int|
            0 <= i < after.slots_spec().len() && 0 <= j < after.slots_spec().len() && i != j
                && #[trigger] after.slots_spec()[i] is Occupied
                && #[trigger] after.slots_spec()[j] is Occupied implies !after.slots_spec()[i]->identity.eq_spec(
            &after.slots_spec()[j]->identity,
        ) by {
            assert(i != index && j != index);
            assert(slots[i] is Occupied && slots[j] is Occupied);
        }
    }
}

/// A table without live resources holds no identity twice; in particular a
/// freshly created table does not.
pub proof fn lemma_empty_identities_unique<K: PartialEq, R>(table: ResourceTable<K, R>)
    requires
        table.active_count() == 0,
    ensures
        identities_unique(table),
{
    lemma_count_zero(table.slots_spec(), 1);
    assert forall|i: int| 0 <= i < table.slots_spec().len() implies !(
    #[trigger] table.slots_spec()[i] is Occupied) by {
        assert(slot_kind(table.slots_spec()[i]) != 1);
    }
}

/// Replacing a live resource in place, as a mutable borrow does, keeps live
/// identities distinct.
pub proof fn lemma_in_place_update_keeps_identities<K: PartialEq, R>(
    before: ResourceTable<K, R>,
    after: ResourceTable<K, R>,
    index: int,
    resource: R,
)
    requires
        identities_unique(before),
        0 <= index < before.slots_spec().len(),
        before.slots_spec()[index] is Occupied,
        after.slots_spec() == before.slots_spec().update(
            index,
            Slot::Occupied {
                generation: before.slots_spec()[index]->Occupied_generation,
                identity: before.slots_spec()[index]->Occupied_identity,
                resource,
            },
        ),
    ensures
        identities_unique(after),
{
    let slots = before.slots_spec();
    assert forall|i: int, j: int|
        0 <= i < after.slots_spec().len() && 0 <= j < after.slots_spec().len() && i != j
            && #[trigger] after.slots_spec()[i] is Occupied
            && #[trigger] after.slots_spec()[j] is Occupied implies !after.slots_spec()[i]->identity.eq_spec(
        &after.slots_spec()[j]->identity,
    ) by {
        assert(slots[i] is Occupied && slots[j] is Occupied);
        assert(after.slots_spec()[i]->identity == slots[i]->identity);
        assert(after.slots_spec()[j]->identity == slots[j]->identity);
    }
}

/// When identity comparison is an equivalence, an admitted identity that was
/// not live before is held afterwards by exactly one slot, the admitted one,
/// and the token of that slot is the token that admission returned.
pub proof fn lemma_admitted_identity_held<K: PartialEq, R>(
    before: ResourceTable<K, R>,
    after: ResourceTable<K, R>,
    identity: K,
    resource: R,
    token: ResourceToken,
)
    requires
        before.wf(),
        equivalence_identities::<K>(),
        before.admission_of(after, identity, resource, token),
        !before.holds_identity(identity),
    ensures
        after.holds_identity(identity),
        is_first_holder(after.slots_spec(), identity, token.slot_spec().value() as int),
        forall|j: int|
            0 <= j < after.slots_spec().len() && j != token.slot_spec().value() ==> !slot_holds(
                #[trigger] after.slots_spec()[j],
                identity,
            ),
        after.token_at(token.slot_spec().value() as int) == token,
{
    before.lemma_wf_shape();
    let index = token.slot_spec().value() as int;
    let slots = before.slots_spec();
    assert(identity.eq_spec(&identity));
    assert(slot_holds(after.slots_spec()[index], identity));
    assert forall|j: int| 0 <= j < after.slots_spec().len() && j != index implies !slot_holds(
        #[trigger] after.slots_spec()[j],
        identity,
    ) by {
        assert(after.slots_spec()[j] == slots[j]);
        if slot_holds(slots[j], identity) {
            assert(before.holds_identity(identity));
        }
    }
}

/// With distinct live identities, the identity of a removed resource is no
/// longer live afterwards.
pub proof fn lemma_removed_identity_released<K: PartialEq, R>(
    before: ResourceTable<K, R>,
    after: ResourceTable<K, R>,
    token: ResourceToken,
    identity: K,
    resource: R,
)
    requires
        before.wf(),
        identities_unique(before),
        before.removal_of(after, token),
        before.lookup(token) == Ok::<(K, R), ResourceTokenFailure>((identity, resource)),
    ensures
        !after.holds_identity(identity),
{
    before.lemma_wf_shape();
    let index = token.slot_spec().value() as int;
    let slots = before.slots_spec();
    assert forall|j: int| 0 <= j < after.slots_spec().len() implies !slot_holds(
        #[trigger] after.slots_spec()[j],
        identity,
    ) by {
        if j != index {
            assert(after.slots_spec()[j] == slots[j]);
            if slot_holds(slots[j], identity) {
                assert(slots[j]->identity.eq_spec(&identity));
                assert(slots[index] is Occupied && slots[j] is Occupied);
            }
        }
    }
}

/// When identity comparison is an equivalence and live identities are
/// distinct, the first slot holding an identity is the only one, and its
/// token is the only token that resolves to that identity.
pub proof fn lemma_sole_holder<K: PartialEq, R>(
    table: ResourceTable<K, R>,
    identity: K,
    index: int,
    other: ResourceToken,
)
    requires
        table.wf(),
        equivalence_identities::<K>(),
        identities_unique(table),
        is_first_holder(table.slots_spec(), identity, index),
    ensures
        forall|j: int|
            0 <= j < table.slots_spec().len() && j != index ==> !slot_holds(
                #[trigger] table.slots_spec()[j],
                identity,
            ),
        (table.lookup(other) matches Ok((found, _)) && found == identity) ==> other
            == table.token_at(index),
{
    table.lemma_wf_shape();
    lemma_equivalence_laws::<K>();
    let slots = table.slots_spec();
    assert(slots[index]->identity.eq_spec(&identity));
    assert forall|j: int| 0 <= j < slots.len() && j != index implies !slot_holds(
        #[trigger] slots[j],
        identity,
    ) by {
        if slot_holds(slots[j], identity) {
            assert(slots[j]->identity.eq_spec(&identity));
            assert(identity.eq_spec(&slots[index]->identity));
            assert(slots[j]->identity.eq_spec(&slots[index]->identity));
            assert(slots[index] is Occupied && slots[j] is Occupied);
        }
    }
    if table.lookup(other) matches Ok((found, _)) && found == identity {
        let j = other.slot_spec().value() as int;
        assert(slots[j] is Occupied);
        assert(identity.eq_spec(&identity));
        assert(slot_holds(slots[j], identity));
        assert(j == index);
        let expected = table.token_at(index);
        assert(expected.slot_spec().value() == other.slot_spec().value());
        assert(expected.slot_spec() == other.slot_spec());
        assert(expected.owner_spec() == other.owner_spec());
        assert(expected.generation_spec() == other.generation_spec());
    }
}

} // verus!
