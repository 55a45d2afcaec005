use std::collections::{BTreeMap, BTreeSet};

use lib::content_directory::{
    calculate_entities_inbound_rcs_delta, calculate_updated_inbound_rcs_delta, filter_references_to_the_same_entity,
    get_updated_inbound_rcs_delta, make_side_effects_for_clear_property_vector_operation,
    perform_entities_inbound_rcs_delta_calculation, stored_values_for_existing_properties, ContentDirectoryError,
    DeltaMode, EntityReferenceCounterSideEffect, Property, ReferenceCounterSideEffects, StoredPropertyValue,
    StoredValueForExistingProperty,
};
use lib::content_directory_checks::{
    compute_unused_property_ids, ensure_all_property_values_are_already_added, ensure_all_required_properties_provided,
    ensure_non_empty_schema, ensure_only_reference_ids_with_same_owner_flag_set_provided,
    ensure_schema_properties_are_valid_indices, get_property_id_references_with_same_owner_flag_set,
    insert_at_in_class_schema_property_id, make_updated_class_properties,
};
use lib::content_directory_limits::{
    create_class_schema, ensure_all_property_names_are_unique, ensure_class_description_is_valid,
    ensure_class_limit_not_reached, ensure_class_maintainers_are_valid, ensure_class_name_is_valid,
    ensure_curator_groups_exist, ensure_entities_creation_limits_are_valid, ensure_maintainers_limit_not_reached,
    ensure_number_of_operations_during_atomic_batching_limit_not_reached, InputValidationLengthConstraint,
};
use lib::content_directory_permissions::{
    make_updated_class_permissions, make_updated_entity_permissions, ClassPermissions, EntityController,
    EntityPermissions,
};

fn effect(total: i32, same_owner: i32) -> EntityReferenceCounterSideEffect {
    EntityReferenceCounterSideEffect { total, same_owner }
}

fn effects(entries: &[(u64, i32, i32)]) -> ReferenceCounterSideEffects {
    let mut map = BTreeMap::new();
    for &(id, total, same_owner) in entries {
        map.insert(id, effect(total, same_owner));
    }
    ReferenceCounterSideEffects { map }
}

fn refs(ids: &[u64]) -> StoredPropertyValue {
    StoredPropertyValue { involved_entities: Some(ids.to_vec()) }
}

fn plain() -> StoredPropertyValue {
    StoredPropertyValue { involved_entities: None }
}

fn property(name: &str, required: bool, same_controller: bool) -> Property {
    Property { name: name.as_bytes().to_vec(), required, same_controller }
}

fn value(same_controller_status: bool, value: StoredPropertyValue) -> StoredValueForExistingProperty {
    StoredValueForExistingProperty { same_controller_status, value }
}

#[test]
fn atomic_side_effects() {
    assert_eq!(EntityReferenceCounterSideEffect::atomic(true, DeltaMode::Increment), effect(1, 1));
    assert_eq!(EntityReferenceCounterSideEffect::atomic(false, DeltaMode::Increment), effect(1, 0));
    assert_eq!(EntityReferenceCounterSideEffect::atomic(true, DeltaMode::Decrement), effect(-1, -1));
    assert_eq!(EntityReferenceCounterSideEffect::atomic(false, DeltaMode::Decrement), effect(-1, 0));
}

#[test]
fn side_effects_add_up() {
    let mut a = effect(2, 1);
    a.add_assign(effect(-3, 4));
    assert_eq!(a, effect(-1, 5));
}

#[test]
fn perform_counts_each_occurrence() {
    let r = perform_entities_inbound_rcs_delta_calculation(
        ReferenceCounterSideEffects::new(),
        vec![5, 5, 7],
        true,
        DeltaMode::Increment,
    );
    assert_eq!(r.map, effects(&[(5, 2, 2), (7, 1, 1)]).map);
}

#[test]
fn perform_adds_to_existing_side_effects() {
    let r = perform_entities_inbound_rcs_delta_calculation(effects(&[(5, 3, 1)]), vec![5, 8], false, DeltaMode::Decrement);
    assert_eq!(r.map, effects(&[(5, 2, 1), (8, -1, 0)]).map);
}

#[test]
fn references_to_self_are_filtered() {
    assert_eq!(filter_references_to_the_same_entity(1, vec![1, 2, 1, 3]), vec![2, 3]);
    assert_eq!(filter_references_to_the_same_entity(4, vec![]), Vec::<u64>::new());
}

#[test]
fn inbound_delta_of_values() {
    let mut values = BTreeMap::new();
    values.insert(0u16, value(true, refs(&[2, 3, 2])));
    values.insert(1u16, value(false, refs(&[3, 9])));
    values.insert(2u16, value(false, plain()));
    let up = calculate_entities_inbound_rcs_delta(9, &values, DeltaMode::Increment).unwrap();
    assert_eq!(up.map, effects(&[(2, 2, 2), (3, 2, 1)]).map);
    let down = calculate_entities_inbound_rcs_delta(9, &values, DeltaMode::Decrement).unwrap();
    assert_eq!(down.map, effects(&[(2, -2, -2), (3, -2, -1)]).map);
}

#[test]
fn inbound_delta_none_without_foreign_references() {
    let mut values = BTreeMap::new();
    values.insert(0u16, value(true, refs(&[9, 9])));
    values.insert(1u16, value(false, plain()));
    values.insert(2u16, value(false, refs(&[])));
    assert!(calculate_entities_inbound_rcs_delta(9, &values, DeltaMode::Increment).is_none());
    assert!(calculate_entities_inbound_rcs_delta(9, &BTreeMap::new(), DeltaMode::Decrement).is_none());
}

#[test]
fn update_merges_entity_by_entity() {
    let r = effects(&[(1, 1, 1)]).update(effects(&[(1, -1, 0), (2, 1, 0)]));
    assert_eq!(r.map, effects(&[(1, 0, 1), (2, 1, 0)]).map);
}

#[test]
fn updated_inbound_delta_combinations() {
    assert!(calculate_updated_inbound_rcs_delta(None, None).is_none());
    let only_first = calculate_updated_inbound_rcs_delta(Some(effects(&[(1, 1, 0)])), None).unwrap();
    assert_eq!(only_first.map, effects(&[(1, 1, 0)]).map);
    let only_second = calculate_updated_inbound_rcs_delta(None, Some(effects(&[(2, -1, -1)]))).unwrap();
    assert_eq!(only_second.map, effects(&[(2, -1, -1)]).map);
    let both = calculate_updated_inbound_rcs_delta(Some(effects(&[(1, -1, -1)])), Some(effects(&[(1, 1, 1), (3, 1, 0)])))
        .unwrap();
    assert_eq!(both.map, effects(&[(1, 0, 0), (3, 1, 0)]).map);
}

#[test]
fn stored_values_pair_with_properties() {
    let props = vec![property("a", false, true), property("b", false, false)];
    let mut values = BTreeMap::new();
    values.insert(1u16, refs(&[4]));
    let paired = stored_values_for_existing_properties(&props, &values).unwrap();
    let v = paired.get(&1).unwrap();
    assert!(!v.same_controller_status);
    assert_eq!(v.value.involved_entities, Some(vec![4]));
    values.insert(2u16, plain());
    assert!(matches!(
        stored_values_for_existing_properties(&props, &values),
        Err(ContentDirectoryError::ClassPropNotFound)
    ));
}

#[test]
fn updated_inbound_delta_replaces_references() {
    let props = vec![property("a", false, true), property("b", false, false)];
    let mut old = BTreeMap::new();
    old.insert(0u16, refs(&[4]));
    old.insert(1u16, refs(&[5]));
    let mut new = BTreeMap::new();
    new.insert(0u16, refs(&[6]));
    let r = get_updated_inbound_rcs_delta(1, &props, &old, &new).unwrap().unwrap();
    assert_eq!(r.map, effects(&[(4, -1, -1), (6, 1, 1)]).map);
}

#[test]
fn updated_inbound_delta_unknown_property() {
    let props = vec![property("a", false, true), property("b", false, false)];
    let old = BTreeMap::new();
    let mut new = BTreeMap::new();
    new.insert(5u16, refs(&[6]));
    assert!(matches!(get_updated_inbound_rcs_delta(1, &props, &old, &new), Err(ContentDirectoryError::ClassPropNotFound)));
}

#[test]
fn rewriting_same_values_nets_zero() {
    let props = vec![property("a", false, true), property("b", false, false)];
    let mut old = BTreeMap::new();
    old.insert(0u16, refs(&[4, 4]));
    old.insert(1u16, refs(&[5]));
    let mut new = BTreeMap::new();
    new.insert(0u16, refs(&[4, 4]));
    new.insert(1u16, refs(&[5]));
    let r = get_updated_inbound_rcs_delta(1, &props, &old, &new).unwrap().unwrap();
    assert_eq!(r.map, effects(&[(4, 0, 0), (5, 0, 0)]).map);
}

#[test]
fn clearing_vector_side_effects() {
    let p = property("v", false, false);
    let r = make_side_effects_for_clear_property_vector_operation(&refs(&[3, 3]), &p).unwrap();
    assert_eq!(r.map, effects(&[(3, -2, 0)]).map);
    let q = property("w", false, true);
    let r = make_side_effects_for_clear_property_vector_operation(&refs(&[3]), &q).unwrap();
    assert_eq!(r.map, effects(&[(3, -1, -1)]).map);
    assert!(make_side_effects_for_clear_property_vector_operation(&refs(&[]), &p).is_none());
    assert!(make_side_effects_for_clear_property_vector_operation(&plain(), &p).is_none());
}

#[test]
fn unused_property_ids() {
    let mut values = BTreeMap::new();
    values.insert(1u16, ());
    values.insert(3u16, ());
    let ids: BTreeSet<u16> = [0, 1, 2].into_iter().collect();
    let expected: BTreeSet<u16> = [0, 2].into_iter().collect();
    assert_eq!(compute_unused_property_ids(&values, &ids), expected);
}

#[test]
fn required_properties_must_be_provided() {
    let props = vec![property("a", true, false), property("b", false, false)];
    let none: BTreeSet<u16> = BTreeSet::new();
    assert_eq!(ensure_all_required_properties_provided(&props, &none), Ok(()));
    let optional: BTreeSet<u16> = [1].into_iter().collect();
    assert_eq!(ensure_all_required_properties_provided(&props, &optional), Ok(()));
    let required: BTreeSet<u16> = [0, 1].into_iter().collect();
    assert_eq!(ensure_all_required_properties_provided(&props, &required), Err(ContentDirectoryError::MissingRequiredProp));
    let unknown: BTreeSet<u16> = [1, 7].into_iter().collect();
    assert_eq!(ensure_all_required_properties_provided(&props, &unknown), Err(ContentDirectoryError::ClassPropNotFound));
    let both: BTreeSet<u16> = [0, 7].into_iter().collect();
    assert_eq!(ensure_all_required_properties_provided(&props, &both), Err(ContentDirectoryError::MissingRequiredProp));
}

#[test]
fn property_values_already_added() {
    let mut entity = BTreeMap::new();
    entity.insert(0u16, ());
    entity.insert(1u16, ());
    let mut new = BTreeMap::new();
    new.insert(1u16, 5u8);
    assert_eq!(ensure_all_property_values_are_already_added(&entity, &new), Ok(()));
    new.insert(2u16, 6u8);
    assert_eq!(ensure_all_property_values_are_already_added(&entity, &new), Err(ContentDirectoryError::UnknownEntityPropId));
}

#[test]
fn same_owner_reference_ids() {
    let mut values = BTreeMap::new();
    values.insert(0u16, value(true, refs(&[2])));
    values.insert(1u16, value(false, refs(&[3])));
    values.insert(4u16, value(true, plain()));
    let expected: BTreeSet<u16> = [0, 4].into_iter().collect();
    let ids = get_property_id_references_with_same_owner_flag_set(&values);
    assert_eq!(ids, expected);
    let mut new = BTreeMap::new();
    new.insert(4u16, ());
    assert_eq!(ensure_only_reference_ids_with_same_owner_flag_set_provided(&ids, &new), Ok(()));
    new.insert(1u16, ());
    assert_eq!(
        ensure_only_reference_ids_with_same_owner_flag_set_provided(&ids, &new),
        Err(ContentDirectoryError::AllProvidedPropertyValueIdsMustBeReferencesWithSameOwnerFlagSet)
    );
}

#[test]
fn inserting_and_appending() {
    let mut values = BTreeMap::new();
    values.insert(0u16, 1u8);
    let values = insert_at_in_class_schema_property_id(values, 0, 7u8);
    let values = insert_at_in_class_schema_property_id(values, 3, 9u8);
    assert_eq!(values.get(&0), Some(&7));
    assert_eq!(values.get(&3), Some(&9));
    assert_eq!(values.len(), 2);
    let props = make_updated_class_properties(vec![property("a", false, false)], vec![property("b", true, true)]);
    assert_eq!(props.len(), 2);
    assert_eq!(props[1].name, b"b".to_vec());
    assert!(props[1].required);
}

#[test]
fn schema_checks() {
    let empty: BTreeSet<u16> = BTreeSet::new();
    assert_eq!(ensure_non_empty_schema(&empty, &vec![]), Err(ContentDirectoryError::NoPropsInClassSchema));
    assert_eq!(ensure_non_empty_schema(&empty, &vec![property("a", false, false)]), Ok(()));
    let existing: BTreeSet<u16> = [1].into_iter().collect();
    assert_eq!(ensure_non_empty_schema(&existing, &vec![]), Ok(()));
    let props = vec![property("a", false, false), property("b", false, false)];
    assert_eq!(ensure_schema_properties_are_valid_indices(&existing, &props), Ok(()));
    let unknown: BTreeSet<u16> = [0, 2].into_iter().collect();
    assert_eq!(
        ensure_schema_properties_are_valid_indices(&unknown, &props),
        Err(ContentDirectoryError::ClassSchemaRefersUnknownPropIndex)
    );
}

#[test]
fn class_schema_gets_following_ids() {
    let existing: BTreeSet<u16> = [0].into_iter().collect();
    let class_props = vec![property("a", false, false), property("b", false, false)];
    let new_props = vec![property("c", false, false), property("d", false, false)];
    let schema = create_class_schema(existing, &class_props, &new_props);
    let expected: BTreeSet<u16> = [0, 2, 3].into_iter().collect();
    assert_eq!(schema.properties, expected);
    assert!(schema.is_active);
}

#[test]
fn property_names_must_be_unique() {
    let class_props = vec![property("a", false, false), property("b", false, false)];
    assert_eq!(ensure_all_property_names_are_unique(&class_props, &vec![property("c", false, false)]), Ok(()));
    assert_eq!(
        ensure_all_property_names_are_unique(&class_props, &vec![property("c", false, false), property("b", false, false)]),
        Err(ContentDirectoryError::PropNameNotUniqueInAClass)
    );
    assert_eq!(
        ensure_all_property_names_are_unique(&class_props, &vec![property("c", false, false), property("c", true, false)]),
        Err(ContentDirectoryError::PropNameNotUniqueInAClass)
    );
    assert_eq!(ensure_all_property_names_are_unique(&vec![], &vec![]), Ok(()));
}

#[test]
fn maintainer_and_curator_group_checks() {
    let groups: BTreeSet<u64> = [1, 2].into_iter().collect();
    assert_eq!(ensure_maintainers_limit_not_reached(&groups, 3), Ok(()));
    assert_eq!(
        ensure_maintainers_limit_not_reached(&groups, 2),
        Err(ContentDirectoryError::NumberOfMaintainersPerClassLimitReached)
    );
    let existing: BTreeSet<u64> = [1, 2, 3].into_iter().collect();
    assert_eq!(ensure_curator_groups_exist(&groups, &existing), Ok(()));
    let missing: BTreeSet<u64> = [1, 4].into_iter().collect();
    assert_eq!(ensure_curator_groups_exist(&missing, &existing), Err(ContentDirectoryError::CuratorGroupDoesNotExist));
    assert_eq!(ensure_class_maintainers_are_valid(&groups, 2, &existing), Ok(()));
    assert_eq!(
        ensure_class_maintainers_are_valid(&groups, 1, &existing),
        Err(ContentDirectoryError::NumberOfMaintainersPerClassLimitReached)
    );
    assert_eq!(ensure_class_maintainers_are_valid(&missing, 2, &existing), Err(ContentDirectoryError::CuratorGroupDoesNotExist));
}

#[test]
fn class_text_and_limit_checks() {
    let c = InputValidationLengthConstraint { min: 2, max_min_diff: 3 };
    assert_eq!(c.max(), 5);
    assert_eq!(ensure_class_name_is_valid(b"a", c), Err(ContentDirectoryError::ClassNameTooShort));
    assert_eq!(ensure_class_name_is_valid(b"abcde", c), Ok(()));
    assert_eq!(ensure_class_name_is_valid(b"abcdef", c), Err(ContentDirectoryError::ClassNameTooLong));
    assert_eq!(ensure_class_description_is_valid(b"", c), Err(ContentDirectoryError::ClassDescriptionTooShort));
    assert_eq!(ensure_class_description_is_valid(b"abcdefg", c), Err(ContentDirectoryError::ClassDescriptionTooLong));
    assert_eq!(ensure_class_limit_not_reached(2, 3), Ok(()));
    assert_eq!(ensure_class_limit_not_reached(3, 3), Err(ContentDirectoryError::ClassLimitReached));
}

#[test]
fn entities_creation_limits() {
    assert_eq!(ensure_entities_creation_limits_are_valid(10, 5, 10, 5), Ok(()));
    assert_eq!(
        ensure_entities_creation_limits_are_valid(10, 10, 20, 20),
        Err(ContentDirectoryError::PerControllerEntitiesCreationLimitExceedsOverallLimit)
    );
    assert_eq!(
        ensure_entities_creation_limits_are_valid(11, 5, 10, 5),
        Err(ContentDirectoryError::EntitiesNumberPerClassConstraintViolated)
    );
    assert_eq!(
        ensure_entities_creation_limits_are_valid(10, 6, 10, 5),
        Err(ContentDirectoryError::NumberOfClassEntitiesPerActorConstraintViolated)
    );
    assert_eq!(ensure_number_of_operations_during_atomic_batching_limit_not_reached(&[1u8, 2], 2), Ok(()));
    assert_eq!(
        ensure_number_of_operations_during_atomic_batching_limit_not_reached(&[1u8, 2, 3], 2),
        Err(ContentDirectoryError::MaxNumberOfOperationsDuringAtomicBatchingLimitReached)
    );
}

#[test]
fn class_permissions_updates() {
    let maintainers: BTreeSet<u64> = [1].into_iter().collect();
    let perms = || ClassPermissions {
        any_member: false,
        entity_creation_blocked: false,
        all_entity_property_values_locked: false,
        maintainers: maintainers.clone(),
    };
    assert!(make_updated_class_permissions(perms(), None, None, None, None).is_none());
    assert!(make_updated_class_permissions(perms(), Some(false), None, None, Some(maintainers.clone())).is_none());
    let updated = make_updated_class_permissions(perms(), Some(true), None, Some(true), None).unwrap();
    assert!(updated.any_member);
    assert!(!updated.entity_creation_blocked);
    assert!(updated.all_entity_property_values_locked);
    assert_eq!(updated.maintainers, maintainers);
    let other: BTreeSet<u64> = [1, 2].into_iter().collect();
    let updated = make_updated_class_permissions(perms(), None, None, None, Some(other.clone())).unwrap();
    assert_eq!(updated.maintainers, other);
}

#[test]
fn entity_permissions_updates() {
    let perms = EntityPermissions { controller: EntityController::Member(3), frozen: false, referenceable: true };
    assert_eq!(make_updated_entity_permissions(perms, None, Some(true)), None);
    assert_eq!(
        make_updated_entity_permissions(perms, Some(true), Some(false)),
        Some(EntityPermissions { controller: EntityController::Member(3), frozen: true, referenceable: false })
    );
}

#[test]
fn increment_then_decrement_cancels() {
    let up = perform_entities_inbound_rcs_delta_calculation(effects(&[(1, 4, 2)]), vec![1, 2, 2], true, DeltaMode::Increment);
    let down = perform_entities_inbound_rcs_delta_calculation(up, vec![1, 2, 2], true, DeltaMode::Decrement);
    assert_eq!(down.map, effects(&[(1, 4, 2), (2, 0, 0)]).map);
}

#[test]
fn merging_commutes() {
    let a = || effects(&[(1, 2, 1), (3, -1, 0)]);
    let b = || effects(&[(1, -1, -1), (4, 1, 1)]);
    let ab = calculate_updated_inbound_rcs_delta(Some(a()), Some(b())).unwrap();
    let ba = calculate_updated_inbound_rcs_delta(Some(b()), Some(a())).unwrap();
    assert_eq!(ab.map, ba.map);
    assert_eq!(ab.map, effects(&[(1, 1, 0), (3, -1, 0), (4, 1, 1)]).map);
}
