use vstd::prelude::*;
use std::collections::{BTreeMap, BTreeSet};
use vstd::std_specs::iter::IteratorSpec;

use crate::sorted::lemma_take_succ_to_set;
use crate::content_directory::{
    properties_view, ContentDirectoryError, Property, PropertyId, PropertyView, StoredValueForExistingProperty,
    values_view,
};

verus! {

/// The property IDs of a set, each once.
pub fn set_elements(s: &BTreeSet<PropertyId>) -> (v: Vec<PropertyId>)
    ensures
        v@.to_set() == s@,
        v@.no_duplicates(),
{
    let ghost r = vstd::std_specs::btree::spec_btree_keys_iter(s).remaining();
    let iter = s.iter();
    proof {
        broadcast use vstd::std_specs::btree::group_btree_axioms;
        vstd::std_specs::btree::axiom_spec_btree_keys_iter(s);
    }
    let mut v: Vec<PropertyId> = Vec::new();
    for x in it: iter
        invariant
            r == vstd::std_specs::btree::spec_btree_keys_iter(s).remaining(),
            r.unref().to_set() == s@,
            r.no_duplicates(),
            it.seq() == r,
            v@.len() == it.index(),
            forall|j: int| 0 <= j < it.index() ==> v@[j] == *r[j],
    {
        v.push(*x);
    }
    proof {
        assert(v@ =~= r.unref());
        assert forall|i: int, j: int| 0 <= i < v@.len() && 0 <= j < v@.len() && i != j implies v@[i] != v@[j] by {
            assert(r[i] != r[j]);
        }
    }
    v
}

/// The property IDs of a map, each once.
pub fn map_keys<V>(m: &BTreeMap<PropertyId, V>) -> (v: Vec<PropertyId>)
    ensures
        v@.to_set() == m@.dom(),
        v@.no_duplicates(),
{
    let ghost r = vstd::std_specs::btree::spec_btree_map_iter(m).remaining();
    let mut v: Vec<PropertyId> = Vec::new();
    let iter = m.iter();
    proof {
        broadcast use vstd::std_specs::btree::group_btree_axioms;
        assert(r.no_duplicates());
    }
    for e in it: iter
        invariant
            r.no_duplicates(),
            r == vstd::std_specs::btree::spec_btree_map_iter(m).remaining(),
            it.seq() == r,
            v@.len() == it.index(),
            forall|j: int| 0 <= j < it.index() ==> v@[j] == *r[j].0,
    {
        let (k, _) = e;
        v.push(*k);
    }
    proof {
        broadcast use vstd::std_specs::btree::group_btree_axioms;
        assert forall|k: PropertyId| v@.to_set().contains(k) <==> m@.dom().contains(k) by {
            if m@.dom().contains(k) {
                assert(r.contains((&k, &m@[k])));
                let j = choose|j: int| 0 <= j < r.len() && r[j] == (&k, &m@[k]);
                assert(v@[j] == k);
                assert(v@.contains(k));
            }
            if v@.to_set().contains(k) {
                let j = choose|j: int| 0 <= j < v@.len() && v@[j] == k;
                assert(m@.contains_key(*r[j].0));
            }
        }
        assert(v@.to_set() =~= m@.dom());
        assert forall|i: int, j: int| 0 <= i < v@.len() && 0 <= j < v@.len() && i != j implies v@[i] != v@[j] by {
            assert(r[i] != r[j]);
            assert(m@.contains_key(*r[i].0) && m@[*r[i].0] == *r[i].1);
            assert(m@.contains_key(*r[j].0) && m@[*r[j].0] == *r[j].1);
        }
    }
    v
}

/// The IDs in `property_ids` that `property_values` has no value for.
pub fn compute_unused_property_ids<V>(
    property_values: &BTreeMap<PropertyId, V>,
    property_ids: &BTreeSet<PropertyId>,
) -> (r: BTreeSet<PropertyId>)
    ensures
        r@ == property_ids@.difference(property_values@.dom()),
{
    let ids = set_elements(property_ids);
    let mut r: BTreeSet<PropertyId> = BTreeSet::new();
    let mut i: usize = 0;
    while i < ids.len()
        invariant
            0 <= i <= ids.len(),
            ids@.to_set() == property_ids@,
            r@ == ids@.take(i as int).to_set().difference(property_values@.dom()),
        decreases ids.len() - i,
    {
        let id = ids[i];
        proof {
            lemma_take_succ_to_set(ids@, i as int);
        }
        if !property_values.contains_key(&id) {
            r.insert(id);
        }
        proof {
            assert(r@ =~= ids@.take(i as int + 1).to_set().difference(property_values@.dom()));
        }
        i = i + 1;
    }
    proof {
        assert(ids@.take(i as int) =~= ids@);
    }
    r
}

/// Whether some ID in `ids` names a property of the class that requires a value.
pub open spec fn misses_required(props: Seq<PropertyView>, ids: Set<PropertyId>) -> bool {
    exists|id: PropertyId| #[trigger] ids.contains(id) && id < props.len() && props[id as int].required
}

/// Whether some ID in `ids` names no property of the class.
pub open spec fn names_unknown(n: nat, ids: Set<PropertyId>) -> bool {
    exists|id: PropertyId| #[trigger] ids.contains(id) && id >= n
}

/// Checks that the schema properties left without a value require none. The IDs are checked in
/// ascending order, so a known property that requires a value is reported before an ID that
/// names no property, all of which are larger.
pub fn ensure_all_required_properties_provided(
    class_properties: &Vec<Property>,
    unused_schema_property_ids: &BTreeSet<PropertyId>,
) -> (r: Result<(), ContentDirectoryError>)
    ensures
        r == if misses_required(properties_view(*class_properties), unused_schema_property_ids@) {
            Err(ContentDirectoryError::MissingRequiredProp)
        } else if names_unknown(class_properties.len() as nat, unused_schema_property_ids@) {
            Err(ContentDirectoryError::ClassPropNotFound)
        } else {
            Ok(())
        },
{
    let ghost props = properties_view(*class_properties);
    let ids = set_elements(unused_schema_property_ids);
    let mut missing = false;
    let mut unknown = false;
    let mut i: usize = 0;
    while i < ids.len()
        invariant
            0 <= i <= ids.len(),
            props == properties_view(*class_properties),
            ids@.to_set() == unused_schema_property_ids@,
            missing == misses_required(props, ids@.take(i as int).to_set()),
            unknown == names_unknown(class_properties.len() as nat, ids@.take(i as int).to_set()),
        decreases ids.len() - i,
    {
        let id = ids[i];
        proof {
            lemma_take_succ_to_set(ids@, i as int);
        }
        let index = id as usize;
        if index < class_properties.len() {
            if class_properties[index].required {
                missing = true;
            }
        } else {
            unknown = true;
        }
        proof {
            let s = ids@.take(i as int + 1).to_set();
            let o = ids@.take(i as int).to_set();
            if id < props.len() {
                assert(props[id as int] == class_properties@[id as int]@);
            }
            assert(misses_required(props, s) == (misses_required(props, o) || (id < props.len()
                && props[id as int].required))) by {
                if misses_required(props, s) {
                    let x = choose|x: PropertyId| #[trigger] s.contains(x) && x < props.len() && props[x as int].required;
                    if x != id {
                        assert(o.contains(x));
                    }
                }
                if misses_required(props, o) {
                    let x = choose|x: PropertyId| #[trigger] o.contains(x) && x < props.len() && props[x as int].required;
                    assert(s.contains(x));
                }
                if id < props.len() && props[id as int].required {
                    assert(s.contains(id));
                }
            }
            assert(names_unknown(class_properties.len() as nat, s) == (names_unknown(
                class_properties.len() as nat,
                o,
            ) || id >= class_properties.len())) by {
                if names_unknown(class_properties.len() as nat, s) {
                    let x = choose|x: PropertyId| #[trigger] s.contains(x) && x >= class_properties.len();
                    if x != id {
                        assert(o.contains(x));
                    }
                }
                if names_unknown(class_properties.len() as nat, o) {
                    let x = choose|x: PropertyId| #[trigger] o.contains(x) && x >= class_properties.len();
                    assert(s.contains(x));
                }
                if id >= class_properties.len() {
                    assert(s.contains(id));
                }
            }
        }
        i = i + 1;
    }
    proof {
        assert(ids@.take(i as int) =~= ids@);
    }
    if missing {
        Err(ContentDirectoryError::MissingRequiredProp)
    } else if unknown {
        Err(ContentDirectoryError::ClassPropNotFound)
    } else {
        Ok(())
    }
}

/// Checks that the entity already has a value under every ID of `new_property_values`.
pub fn ensure_all_property_values_are_already_added<V, W>(
    entity_property_values: &BTreeMap<PropertyId, V>,
    new_property_values: &BTreeMap<PropertyId, W>,
) -> (r: Result<(), ContentDirectoryError>)
    ensures
        r == if new_property_values@.dom().subset_of(entity_property_values@.dom()) {
            Ok(())
        } else {
            Err(ContentDirectoryError::UnknownEntityPropId)
        },
{
    let keys = map_keys(new_property_values);
    let mut i: usize = 0;
    while i < keys.len()
        invariant
            0 <= i <= keys.len(),
            keys@.to_set() == new_property_values@.dom(),
            forall|j: int| 0 <= j < i ==> entity_property_values@.dom().contains(#[trigger] keys@[j]),
        decreases keys.len() - i,
    {
        if !entity_property_values.contains_key(&keys[i]) {
            proof {
                assert(new_property_values@.dom().contains(keys@[i as int]));
            }
            return Err(ContentDirectoryError::UnknownEntityPropId);
        }
        i = i + 1;
    }
    proof {
        assert forall|k: PropertyId| new_property_values@.dom().contains(k) implies entity_property_values@.dom().contains(
            k,
        ) by {
            assert(keys@.to_set().contains(k));
            let j = choose|j: int| 0 <= j < keys@.len() && keys@[j] == k;
        }
    }
    Ok(())
}

/// The IDs of the values whose property requires referenced entities to share the controller.
pub fn get_property_id_references_with_same_owner_flag_set(
    values_for_existing_properties: &BTreeMap<PropertyId, StoredValueForExistingProperty>,
) -> (r: BTreeSet<PropertyId>)
    ensures
        r@ == Set::new(
            |k: PropertyId|
                values_view(*values_for_existing_properties).contains_key(k) && values_view(
                    *values_for_existing_properties,
                )[k].0,
        ),
{
    let ghost vals = values_view(*values_for_existing_properties);
    let keys = map_keys(values_for_existing_properties);
    let mut r: BTreeSet<PropertyId> = BTreeSet::new();
    let mut i: usize = 0;
    while i < keys.len()
        invariant
            0 <= i <= keys.len(),
            vals == values_view(*values_for_existing_properties),
            keys@.to_set() == values_for_existing_properties@.dom(),
            r@ == Set::new(|k: PropertyId| keys@.take(i as int).to_set().contains(k) && vals[k].0),
        decreases keys.len() - i,
    {
        let k = keys[i];
        proof {
            lemma_take_succ_to_set(keys@, i as int);
            assert(keys@.to_set().contains(k));
        }
        match values_for_existing_properties.get(&k) {
            Some(v) => {
                if v.same_controller_status {
                    r.insert(k);
                }
            },
            None => {},
        }
        proof {
            assert(r@ =~= Set::new(|x: PropertyId| keys@.take(i as int + 1).to_set().contains(x) && vals[x].0));
        }
        i = i + 1;
    }
    proof {
        assert(keys@.take(i as int) =~= keys@);
        assert(r@ =~= Set::new(|k: PropertyId| vals.contains_key(k) && vals[k].0));
    }
    r
}

/// Checks that every ID of `new_property_value_references_with_same_owner_flag_set` is one of
/// `entity_property_id_references_with_same_owner_flag_set`.
pub fn ensure_only_reference_ids_with_same_owner_flag_set_provided<V>(
    entity_property_id_references_with_same_owner_flag_set: &BTreeSet<PropertyId>,
    new_property_value_references_with_same_owner_flag_set: &BTreeMap<PropertyId, V>,
) -> (r: Result<(), ContentDirectoryError>)
    ensures
        r == if new_property_value_references_with_same_owner_flag_set@.dom().subset_of(
            entity_property_id_references_with_same_owner_flag_set@,
        ) {
            Ok(())
        } else {
            Err(ContentDirectoryError::AllProvidedPropertyValueIdsMustBeReferencesWithSameOwnerFlagSet)
        },
{
    let keys = map_keys(new_property_value_references_with_same_owner_flag_set);
    let mut i: usize = 0;
    while i < keys.len()
        invariant
            0 <= i <= keys.len(),
            keys@.to_set() == new_property_value_references_with_same_owner_flag_set@.dom(),
            forall|j: int|
                0 <= j < i ==> entity_property_id_references_with_same_owner_flag_set@.contains(#[trigger] keys@[j]),
        decreases keys.len() - i,
    {
        if !entity_property_id_references_with_same_owner_flag_set.contains(&keys[i]) {
            proof {
                assert(new_property_value_references_with_same_owner_flag_set@.dom().contains(keys@[i as int]));
            }
            return Err(ContentDirectoryError::AllProvidedPropertyValueIdsMustBeReferencesWithSameOwnerFlagSet);
        }
        i = i + 1;
    }
    proof {
        assert forall|k: PropertyId|
            new_property_value_references_with_same_owner_flag_set@.dom().contains(
                k,
            ) implies entity_property_id_references_with_same_owner_flag_set@.contains(k) by {
            assert(keys@.to_set().contains(k));
            let j = choose|j: int| 0 <= j < keys@.len() && keys@[j] == k;
        }
    }
    Ok(())
}

/// Stores a property value under its ID.
pub fn insert_at_in_class_schema_property_id<V>(
    entity_property_values: BTreeMap<PropertyId, V>,
    in_class_schema_property_id: PropertyId,
    property_value: V,
) -> (r: BTreeMap<PropertyId, V>)
    ensures
        r@ == entity_property_values@.insert(in_class_schema_property_id, property_value),
{
    let mut entity_property_values = entity_property_values;
    entity_property_values.insert(in_class_schema_property_id, property_value);
    entity_property_values
}

/// The properties of a class followed by new ones.
pub fn make_updated_class_properties(class_properties: Vec<Property>, new_properties: Vec<Property>) -> (r: Vec<
    Property,
>)
    ensures
        r@ == class_properties@ + new_properties@,
{
    let mut class_properties = class_properties;
    let mut new_properties = new_properties;
    class_properties.append(&mut new_properties);
    class_properties
}

/// Checks that a schema would have a property, old or new.
pub fn ensure_non_empty_schema(existing_properties: &BTreeSet<PropertyId>, new_properties: &Vec<Property>) -> (r:
    Result<(), ContentDirectoryError>)
    ensures
        r == if existing_properties@.is_empty() && new_properties.len() == 0 {
            Err(ContentDirectoryError::NoPropsInClassSchema)
        } else {
            Ok(())
        },
{
    let existing = set_elements(existing_properties);
    proof {
        if existing@.len() > 0 {
            assert(existing_properties@.contains(existing@[0]));
        } else {
            assert(existing_properties@ =~= Set::empty());
        }
    }
    if existing.len() == 0 && new_properties.len() == 0 {
        Err(ContentDirectoryError::NoPropsInClassSchema)
    } else {
        Ok(())
    }
}

/// Checks that every property ID of a schema names a property of the class.
pub fn ensure_schema_properties_are_valid_indices(
    existing_properties: &BTreeSet<PropertyId>,
    class_properties: &Vec<Property>,
) -> (r: Result<(), ContentDirectoryError>)
    ensures
        r == if names_unknown(class_properties.len() as nat, existing_properties@) {
            Err(ContentDirectoryError::ClassSchemaRefersUnknownPropIndex)
        } else {
            Ok(())
        },
{
    let ids = set_elements(existing_properties);
    let mut i: usize = 0;
    while i < ids.len()
        invariant
            0 <= i <= ids.len(),
            ids@.to_set() == existing_properties@,
            forall|j: int| 0 <= j < i ==> (#[trigger] ids@[j]) < class_properties.len(),
        decreases ids.len() - i,
    {
        if ids[i] as usize >= class_properties.len() {
            proof {
                assert(existing_properties@.contains(ids@[i as int]));
            }
            return Err(ContentDirectoryError::ClassSchemaRefersUnknownPropIndex);
        }
        i = i + 1;
    }
    proof {
        if names_unknown(class_properties.len() as nat, existing_properties@) {
            let id = choose|id: PropertyId| #[trigger] existing_properties@.contains(id) && id >= class_properties.len();
            assert(ids@.to_set().contains(id));
            let j = choose|j: int| 0 <= j < ids@.len() && ids@[j] == id;
        }
    }
    Ok(())
}

} // verus!
