use calandria::{
    NonZeroCount, ResourceAdmissionFailure, ResourceGeneration, ResourceOwnerId, ResourceSlotId,
    ResourceTable, ResourceToken, ResourceTokenFailure,
};

fn count(value: usize) -> NonZeroCount {
    NonZeroCount::new(value).expect("test counts are nonzero")
}

#[test]
fn admitted_resources_resolve_exactly() {
    let owner = ResourceOwnerId::new(7);
    let mut table: ResourceTable<u64, String> = ResourceTable::new(owner, count(2));
    assert!(table.is_empty());
    let token = table.admit_resource(11, "first".to_string()).expect("room for one");
    assert_eq!(token.owner(), owner);
    assert_eq!(token.slot(), ResourceSlotId::new(0));
    assert_eq!(token.generation(), ResourceGeneration::initial());
    assert_eq!(table.len(), 1);
    assert!(table.contains_identity(&11));
    assert!(!table.contains_identity(&12));
    assert_eq!(table.token_for(&11), Some(token));
    assert_eq!(table.token_for(&12), None);
    let (identity, resource) = table.get(token).expect("live token");
    assert_eq!((*identity, resource.as_str()), (11, "first"));
}

#[test]
fn admission_rejections_return_both_values() {
    let mut table: ResourceTable<u64, &str> = ResourceTable::new(ResourceOwnerId::new(1), count(1));
    table.admit_resource(5, "a").expect("room for one");
    let duplicate = table.admit_resource(5, "b").expect_err("identity in use");
    assert_eq!(duplicate.failure(), ResourceAdmissionFailure::IdentityInUse);
    assert_eq!(duplicate.into_values(), (5, "b"));
    let full = table.admit_resource(6, "c").expect_err("capacity reached");
    assert_eq!(full.failure(), ResourceAdmissionFailure::CapacityReached { limit: count(1) });
    assert_eq!(full.into_parts(), (6, "c", ResourceAdmissionFailure::CapacityReached { limit: count(1) }));
}

#[test]
fn removal_retires_the_generation() {
    let owner = ResourceOwnerId::new(3);
    let mut table: ResourceTable<u64, u64> = ResourceTable::new(owner, count(1));
    let first = table.admit_resource(1, 100).expect("room");
    assert_eq!(table.remove(first), Ok((1, 100)));
    assert!(table.is_empty());
    assert_eq!(
        table.get(first).err(),
        Some(ResourceTokenFailure::Vacant {
            slot: ResourceSlotId::new(0),
            generation: ResourceGeneration::new(1),
        })
    );
    assert_eq!(table.remove(first).err(), table.get(first).err());
    let second = table.admit_resource(1, 200).expect("slot reused");
    assert_eq!(second.generation(), ResourceGeneration::new(1));
    assert_eq!(
        table.get(first).err(),
        Some(ResourceTokenFailure::GenerationMismatch {
            slot: ResourceSlotId::new(0),
            current: ResourceGeneration::new(1),
            supplied: ResourceGeneration::new(0),
        })
    );
    assert_eq!(table.get(second).ok().map(|(k, v)| (*k, *v)), Some((1, 200)));
}

#[test]
fn last_generation_exhausts_the_slot() {
    let owner = ResourceOwnerId::new(9);
    let mut table: ResourceTable<u8, u8> =
        ResourceTable::starting_at(owner, count(1), ResourceGeneration::max());
    let token = table.admit_resource(1, 1).expect("room");
    assert_eq!(table.remove(token), Ok((1, 1)));
    assert_eq!(
        table.get(token).err(),
        Some(ResourceTokenFailure::Exhausted { slot: ResourceSlotId::new(0) })
    );
    let rejected = table.admit_resource(2, 2).expect_err("no generation left");
    assert_eq!(rejected.failure(), ResourceAdmissionFailure::TokenSpaceExhausted);
    let snapshot = table.snapshot();
    assert_eq!((snapshot.active(), snapshot.vacant(), snapshot.exhausted()), (0, 0, 1));
    assert_eq!(snapshot.capacity(), count(1));
    assert_eq!(snapshot.owner(), owner);
}

#[test]
fn foreign_and_out_of_range_tokens_are_rejected() {
    let owner = ResourceOwnerId::new(1);
    let table: ResourceTable<u8, u8> = ResourceTable::new(owner, count(2));
    let foreign = ResourceToken::new(ResourceOwnerId::new(2), ResourceSlotId::new(0), ResourceGeneration::initial());
    assert_eq!(
        table.get(foreign).err(),
        Some(ResourceTokenFailure::OwnerMismatch { expected: owner, actual: ResourceOwnerId::new(2) })
    );
    let outside = ResourceToken::new(owner, ResourceSlotId::new(2), ResourceGeneration::initial());
    assert_eq!(
        table.get(outside).err(),
        Some(ResourceTokenFailure::SlotOutOfBounds { slot: ResourceSlotId::new(2), capacity: count(2) })
    );
    assert_eq!(table.owner(), owner);
    assert_eq!(table.capacity(), count(2));
}

#[test]
fn mutable_access_changes_only_the_resource() {
    let mut table: ResourceTable<u64, Vec<u8>> = ResourceTable::new(ResourceOwnerId::new(4), count(3));
    let a = table.admit_resource(1, vec![1]).expect("room");
    let b = table.admit_resource(2, vec![2]).expect("room");
    assert_eq!(b.slot(), ResourceSlotId::new(1));
    {
        let (identity, resource) = table.get_mut(a).expect("live");
        assert_eq!(*identity, 1);
        resource.push(9);
    }
    assert_eq!(table.get(a).ok().map(|(_, v)| v.clone()), Some(vec![1, 9]));
    assert_eq!(table.get(b).ok().map(|(_, v)| v.clone()), Some(vec![2]));
    let snapshot = table.snapshot();
    assert_eq!(snapshot.active() + snapshot.vacant() + snapshot.exhausted(), 3);
    assert_eq!(snapshot.active(), 2);
}

#[test]
fn first_vacant_slot_is_reused_first() {
    let mut table: ResourceTable<u64, u64> = ResourceTable::new(ResourceOwnerId::new(0), count(3));
    let a = table.admit_resource(1, 1).expect("room");
    let _b = table.admit_resource(2, 2).expect("room");
    table.remove(a).expect("live");
    let c = table.admit_resource(3, 3).expect("room");
    assert_eq!(c.slot(), ResourceSlotId::new(0));
    assert_eq!(c.generation(), ResourceGeneration::new(1));
}

#[test]
fn admission_fails_exactly_when_held_or_no_vacant_slot() {
    let owner = ResourceOwnerId::new(4);
    let mut table: ResourceTable<u64, u64> =
        ResourceTable::starting_at(owner, count(2), ResourceGeneration::max());
    let a = table.admit_resource(1, 10).expect("vacant slot");
    let b = table.admit_resource(2, 20).expect("vacant slot");
    assert_eq!(table.snapshot().vacant(), 0);
    assert!(table.admit_resource(3, 30).is_err());
    assert_eq!(table.remove(a), Ok((1, 10)));
    let after_first = table.snapshot();
    assert_eq!((after_first.vacant(), after_first.exhausted()), (0, 1));
    let rejected = table.admit_resource(3, 30).expect_err("the freed slot is exhausted");
    assert_eq!(rejected.failure(), ResourceAdmissionFailure::TokenSpaceExhausted);
    assert_eq!(table.get(b).ok().map(|(k, v)| (*k, *v)), Some((2, 20)));
    assert_eq!(table.remove(b), Ok((2, 20)));
    assert_eq!(table.snapshot().exhausted(), 2);
    assert!(table.is_empty());
}

#[test]
fn exhausted_count_never_decreases() {
    let mut table: ResourceTable<u64, u64> =
        ResourceTable::starting_at(ResourceOwnerId::new(8), count(3), ResourceGeneration::new(u64::MAX - 1));
    let mut last = table.snapshot().exhausted();
    for round in 0..4u64 {
        let admitted = table.admit_resource(round, round);
        assert!(table.snapshot().exhausted() >= last);
        last = table.snapshot().exhausted();
        if let Ok(token) = admitted {
            if let Ok((_, value)) = table.get_mut(token) {
                *value += 1;
            }
            assert_eq!(table.snapshot().exhausted(), last);
            table.remove(token).expect("live token");
            assert!(table.snapshot().exhausted() >= last);
            last = table.snapshot().exhausted();
        }
    }
}

#[test]
fn removal_and_admission_leave_other_tokens_alone() {
    let mut table: ResourceTable<u64, &str> = ResourceTable::new(ResourceOwnerId::new(6), count(3));
    let a = table.admit_resource(1, "a").expect("room");
    let b = table.admit_resource(2, "b").expect("room");
    let c = table.admit_resource(3, "c").expect("room");
    table.remove(b).expect("live");
    assert_eq!(table.get(a).ok().map(|(k, v)| (*k, *v)), Some((1, "a")));
    assert_eq!(table.get(c).ok().map(|(k, v)| (*k, *v)), Some((3, "c")));
    assert!(!table.contains_identity(&2));
    let d = table.admit_resource(2, "d").expect("slot reused");
    assert_eq!(table.token_for(&2), Some(d));
    assert_eq!(table.get(a).ok().map(|(k, v)| (*k, *v)), Some((1, "a")));
    assert_eq!(table.get(c).ok().map(|(k, v)| (*k, *v)), Some((3, "c")));
}

#[test]
fn exhausted_empty_table_reports_token_space_exhaustion() {
    let mut table: ResourceTable<&str, u32> =
        ResourceTable::starting_at(ResourceOwnerId::new(1), count(1), ResourceGeneration::max());
    let token = table.admit_resource("a", 1).expect("vacant slot");
    assert_eq!(table.remove(token), Ok(("a", 1)));
    assert_eq!(table.len(), 0);
    assert!(!table.contains_identity(&"a"));
    assert_eq!(table.token_for(&"a"), None);
    let snapshot = table.snapshot();
    assert_eq!((snapshot.vacant(), snapshot.exhausted()), (0, 1));
    assert_eq!(
        table.get(token).err(),
        Some(ResourceTokenFailure::Exhausted { slot: ResourceSlotId::new(0) })
    );
    let rejected = table.admit_resource("b", 2).expect_err("no generation left");
    assert_eq!(rejected.failure(), ResourceAdmissionFailure::TokenSpaceExhausted);
}
