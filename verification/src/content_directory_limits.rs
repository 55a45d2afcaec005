use vstd::prelude::*;
use std::collections::BTreeSet;

use crate::content::CuratorGroupId;
use crate::content_directory::{properties_view, ContentDirectoryError, EntityId, Property, PropertyId, PropertyView};
use crate::sorted::{ascending_vec, lemma_set_len};

verus! {

/// Checks that a class can take one more maintainer.
pub fn ensure_maintainers_limit_not_reached(
    curator_groups: &BTreeSet<CuratorGroupId>,
    max_number_of_maintainers_per_class: u32,
) -> (r: Result<(), ContentDirectoryError>)
    ensures
        r == if curator_groups@.len() < max_number_of_maintainers_per_class {
            Ok(())
        } else {
            Err(ContentDirectoryError::NumberOfMaintainersPerClassLimitReached)
        },
{
    proof {
        lemma_set_len(curator_groups);
    }
    if curator_groups.len() < max_number_of_maintainers_per_class as usize {
        Ok(())
    } else {
        Err(ContentDirectoryError::NumberOfMaintainersPerClassLimitReached)
    }
}

/// Checks that a curator group exists.
pub fn ensure_curator_group_under_given_id_exists(
    curator_group_id: CuratorGroupId,
    existing_curator_groups: &BTreeSet<CuratorGroupId>,
) -> (r: Result<(), ContentDirectoryError>)
    ensures
        r == if existing_curator_groups@.contains(curator_group_id) {
            Ok(())
        } else {
            Err(ContentDirectoryError::CuratorGroupDoesNotExist)
        },
{
    if existing_curator_groups.contains(&curator_group_id) {
        Ok(())
    } else {
        Err(ContentDirectoryError::CuratorGroupDoesNotExist)
    }
}

/// Checks that all the given curator groups exist.
pub fn ensure_curator_groups_exist(
    curator_groups: &BTreeSet<CuratorGroupId>,
    existing_curator_groups: &BTreeSet<CuratorGroupId>,
) -> (r: Result<(), ContentDirectoryError>)
    ensures
        r == if curator_groups@.subset_of(existing_curator_groups@) {
            Ok(())
        } else {
            Err(ContentDirectoryError::CuratorGroupDoesNotExist)
        },
{
    let groups = ascending_vec(curator_groups);
    let mut i: usize = 0;
    while i < groups.len()
        invariant
            0 <= i <= groups.len(),
            groups@.to_set() == curator_groups@,
            forall|j: int| 0 <= j < i ==> existing_curator_groups@.contains(#[trigger] groups@[j]),
        decreases groups.len() - i,
    {
        let result = ensure_curator_group_under_given_id_exists(groups[i], existing_curator_groups);
        if result.is_err() {
            proof {
                assert(curator_groups@.contains(groups@[i as int]));
            }
            return result;
        }
        i = i + 1;
    }
    proof {
        assert forall|g: CuratorGroupId| curator_groups@.contains(g) implies existing_curator_groups@.contains(g) by {
            assert(groups@.to_set().contains(g));
            let j = choose|j: int| 0 <= j < groups@.len() && groups@[j] == g;
        }
    }
    Ok(())
}

/// Checks that a class may have the given maintainers: not more than the limit, and all
/// existing curator groups.
pub fn ensure_class_maintainers_are_valid(
    class_maintainers: &BTreeSet<CuratorGroupId>,
    max_number_of_maintainers_per_class: u32,
    existing_curator_groups: &BTreeSet<CuratorGroupId>,
) -> (r: Result<(), ContentDirectoryError>)
    ensures
        r == if class_maintainers@.len() > max_number_of_maintainers_per_class {
            Err(ContentDirectoryError::NumberOfMaintainersPerClassLimitReached)
        } else if !class_maintainers@.subset_of(existing_curator_groups@) {
            Err(ContentDirectoryError::CuratorGroupDoesNotExist)
        } else {
            Ok(())
        },
{
    proof {
        lemma_set_len(class_maintainers);
    }
    if class_maintainers.len() > max_number_of_maintainers_per_class as usize {
        return Err(ContentDirectoryError::NumberOfMaintainersPerClassLimitReached);
    }
    ensure_curator_groups_exist(class_maintainers, existing_curator_groups)
}

/// Minimal length of a text and how much longer than that it may be.
#[derive(Clone, Copy, Debug, PartialEq, Eq, Structural)]
pub struct InputValidationLengthConstraint {
    pub min: u16,
    pub max_min_diff: u16,
}

impl InputValidationLengthConstraint {
    /// Maximal length of a text.
    pub fn max(&self) -> (m: u16)
        requires
            self.min + self.max_min_diff <= u16::MAX,
        ensures
            m == self.min + self.max_min_diff,
    {
        self.min + self.max_min_diff
    }

    /// Checks the length of a text: `too_short` below the minimum, `too_long` above the maximum.
    pub fn ensure_valid(
        &self,
        len: usize,
        too_short: ContentDirectoryError,
        too_long: ContentDirectoryError,
    ) -> (r: Result<(), ContentDirectoryError>)
        requires
            self.min + self.max_min_diff <= u16::MAX,
        ensures
            r == if len < self.min {
                Err(too_short)
            } else if len > self.min + self.max_min_diff {
                Err(too_long)
            } else {
                Ok(())
            },
    {
        if len < self.min as usize {
            Err(too_short)
        } else if len > self.max() as usize {
            Err(too_long)
        } else {
            Ok(())
        }
    }
}

/// Checks the length of a class name.
pub fn ensure_class_name_is_valid(text: &[u8], constraint: InputValidationLengthConstraint) -> (r: Result<
    (),
    ContentDirectoryError,
>)
    requires
        constraint.min + constraint.max_min_diff <= u16::MAX,
    ensures
        r == if text@.len() < constraint.min {
            Err(ContentDirectoryError::ClassNameTooShort)
        } else if text@.len() > constraint.min + constraint.max_min_diff {
            Err(ContentDirectoryError::ClassNameTooLong)
        } else {
            Ok(())
        },
{
    constraint.ensure_valid(text.len(), ContentDirectoryError::ClassNameTooShort, ContentDirectoryError::ClassNameTooLong)
}

/// Checks the length of a class description.
pub fn ensure_class_description_is_valid(text: &[u8], constraint: InputValidationLengthConstraint) -> (r: Result<
    (),
    ContentDirectoryError,
>)
    requires
        constraint.min + constraint.max_min_diff <= u16::MAX,
    ensures
        r == if text@.len() < constraint.min {
            Err(ContentDirectoryError::ClassDescriptionTooShort)
        } else if text@.len() > constraint.min + constraint.max_min_diff {
            Err(ContentDirectoryError::ClassDescriptionTooLong)
        } else {
            Ok(())
        },
{
    constraint.ensure_valid(
        text.len(),
        ContentDirectoryError::ClassDescriptionTooShort,
        ContentDirectoryError::ClassDescriptionTooLong,
    )
}

/// Checks that one more class may be created.
pub fn ensure_class_limit_not_reached(number_of_classes: u32, max_number_of_classes: u32) -> (r: Result<
    (),
    ContentDirectoryError,
>)
    ensures
        r == if number_of_classes < max_number_of_classes {
            Ok(())
        } else {
            Err(ContentDirectoryError::ClassLimitReached)
        },
{
    if number_of_classes < max_number_of_classes {
        Ok(())
    } else {
        Err(ContentDirectoryError::ClassLimitReached)
    }
}

/// Checks a class's maximal number of entities against the runtime limit.
pub fn ensure_valid_number_of_entities_per_class(
    maximum_entities_count: EntityId,
    max_number_of_entities_per_class: EntityId,
) -> (r: Result<(), ContentDirectoryError>)
    ensures
        r == if maximum_entities_count <= max_number_of_entities_per_class {
            Ok(())
        } else {
            Err(ContentDirectoryError::EntitiesNumberPerClassConstraintViolated)
        },
{
    if maximum_entities_count <= max_number_of_entities_per_class {
        Ok(())
    } else {
        Err(ContentDirectoryError::EntitiesNumberPerClassConstraintViolated)
    }
}

/// Checks a per actor entities creation limit against the runtime limit.
pub fn ensure_valid_number_of_class_entities_per_actor_constraint(
    number_of_class_entities_per_actor: EntityId,
    individual_entities_creation_limit: EntityId,
) -> (r: Result<(), ContentDirectoryError>)
    ensures
        r == if number_of_class_entities_per_actor <= individual_entities_creation_limit {
            Ok(())
        } else {
            Err(ContentDirectoryError::NumberOfClassEntitiesPerActorConstraintViolated)
        },
{
    if number_of_class_entities_per_actor <= individual_entities_creation_limit {
        Ok(())
    } else {
        Err(ContentDirectoryError::NumberOfClassEntitiesPerActorConstraintViolated)
    }
}

/// Checks the entities creation limits of a class: the per controller limit must be below the
/// class's overall limit, and both within the runtime limits.
pub fn ensure_entities_creation_limits_are_valid(
    maximum_entities_count: EntityId,
    default_entity_creation_voucher_upper_bound: EntityId,
    max_number_of_entities_per_class: EntityId,
    individual_entities_creation_limit: EntityId,
) -> (r: Result<(), ContentDirectoryError>)
    ensures
        r == if default_entity_creation_voucher_upper_bound >= maximum_entities_count {
            Err(ContentDirectoryError::PerControllerEntitiesCreationLimitExceedsOverallLimit)
        } else if maximum_entities_count > max_number_of_entities_per_class {
            Err(ContentDirectoryError::EntitiesNumberPerClassConstraintViolated)
        } else if default_entity_creation_voucher_upper_bound > individual_entities_creation_limit {
            Err(ContentDirectoryError::NumberOfClassEntitiesPerActorConstraintViolated)
        } else {
            Ok(())
        },
{
    if default_entity_creation_voucher_upper_bound >= maximum_entities_count {
        return Err(ContentDirectoryError::PerControllerEntitiesCreationLimitExceedsOverallLimit);
    }
    let r = ensure_valid_number_of_entities_per_class(maximum_entities_count, max_number_of_entities_per_class);
    if r.is_err() {
        return r;
    }
    ensure_valid_number_of_class_entities_per_actor_constraint(
        default_entity_creation_voucher_upper_bound,
        individual_entities_creation_limit,
    )
}

/// Checks that a transaction has no more operations than allowed.
pub fn ensure_number_of_operations_during_atomic_batching_limit_not_reached<Op>(
    operations: &[Op],
    max_number_of_operations_during_atomic_batching: u32,
) -> (r: Result<(), ContentDirectoryError>)
    ensures
        r == if operations@.len() <= max_number_of_operations_during_atomic_batching {
            Ok(())
        } else {
            Err(ContentDirectoryError::MaxNumberOfOperationsDuringAtomicBatchingLimitReached)
        },
{
    if operations.len() <= max_number_of_operations_during_atomic_batching as usize {
        Ok(())
    } else {
        Err(ContentDirectoryError::MaxNumberOfOperationsDuringAtomicBatchingLimitReached)
    }
}

/// Whether two byte strings are equal.
fn bytes_equal(a: &Vec<u8>, b: &Vec<u8>) -> (r: bool)
    ensures
        r == (a@ == b@),
{
    if a.len() != b.len() {
        return false;
    }
    let mut i: usize = 0;
    while i < a.len()
        invariant
            0 <= i <= a.len(),
            a.len() == b.len(),
            forall|j: int| 0 <= j < i ==> a@[j] == b@[j],
        decreases a.len() - i,
    {
        if a[i] != b[i] {
            return false;
        }
        i = i + 1;
    }
    proof {
        assert(a@ =~= b@);
    }
    true
}

/// Whether the name of the `i`-th new property is used by a property of the class or by an
/// earlier new property.
pub open spec fn name_taken(class_properties: Seq<PropertyView>, new_properties: Seq<PropertyView>, i: int) -> bool {
    ||| exists|j: int| 0 <= j < class_properties.len() && #[trigger] class_properties[j].name == new_properties[i].name
    ||| exists|j: int| 0 <= j < i && #[trigger] new_properties[j].name == new_properties[i].name
}

/// Whether `name` is the name of one of the first `n` properties.
fn name_among(properties: &Vec<Property>, n: usize, name: &Vec<u8>) -> (r: bool)
    requires
        n <= properties.len(),
    ensures
        r == exists|j: int| 0 <= j < n && #[trigger] properties_view(*properties)[j].name == name@,
{
    let ghost props = properties_view(*properties);
    let mut j: usize = 0;
    while j < n
        invariant
            0 <= j <= n,
            n <= properties.len(),
            props == properties_view(*properties),
            forall|k: int| 0 <= k < j ==> #[trigger] props[k].name != name@,
        decreases n - j,
    {
        if bytes_equal(&properties[j].name, name) {
            proof {
                assert(props[j as int].name == name@);
            }
            return true;
        }
        proof {
            assert(props[j as int] == properties@[j as int]@);
        }
        j = j + 1;
    }
    false
}

/// Checks that the names of the new properties are unique within the class: none is the name
/// of a property of the class or of an earlier new property.
pub fn ensure_all_property_names_are_unique(class_properties: &Vec<Property>, new_properties: &Vec<Property>) -> (r:
    Result<(), ContentDirectoryError>)
    ensures
        r == if exists|i: int|
            0 <= i < new_properties.len() && #[trigger] name_taken(
                properties_view(*class_properties),
                properties_view(*new_properties),
                i,
            ) {
            Err(ContentDirectoryError::PropNameNotUniqueInAClass)
        } else {
            Ok(())
        },
{
    let ghost cp = properties_view(*class_properties);
    let ghost np = properties_view(*new_properties);
    let mut i: usize = 0;
    while i < new_properties.len()
        invariant
            0 <= i <= new_properties.len(),
            cp == properties_view(*class_properties),
            np == properties_view(*new_properties),
            forall|k: int| 0 <= k < i ==> !#[trigger] name_taken(cp, np, k),
        decreases new_properties.len() - i,
    {
        let name = &new_properties[i].name;
        proof {
            assert(np[i as int].name == name@);
        }
        let in_class = name_among(class_properties, class_properties.len(), name);
        let in_new = name_among(new_properties, i, name);
        if in_class || in_new {
            proof {
                assert(name_taken(cp, np, i as int));
            }
            return Err(ContentDirectoryError::PropNameNotUniqueInAClass);
        }
        i = i + 1;
    }
    Ok(())
}

/// A schema: a set of property IDs of a class, and whether entities may still take it up.
pub struct Schema {
    pub properties: BTreeSet<PropertyId>,
    pub is_active: bool,
}

impl Schema {
    /// An active schema with the given properties.
    pub fn new(properties: BTreeSet<PropertyId>) -> (s: Self)
        ensures
            s.properties@ == properties@,
            s.is_active,
    {
        Schema { properties, is_active: true }
    }
}

/// The ID that the `i`-th new property gets in a class with `n` properties: its index, taken
/// modulo the range of property IDs.
pub open spec fn new_property_id(n: nat, i: int) -> int {
    (n + i) % 65536
}

/// A schema with the given existing properties and the new ones, which get the IDs that follow
/// those of the class's properties.
pub fn create_class_schema(
    existing_properties: BTreeSet<PropertyId>,
    class_properties: &Vec<Property>,
    new_properties: &Vec<Property>,
) -> (s: Schema)
    ensures
        s.is_active,
        s.properties@ == existing_properties@.union(
            Set::new(
                |p: PropertyId|
                    exists|i: int|
                        0 <= i < new_properties.len() && p == #[trigger] new_property_id(class_properties.len() as nat, i),
            ),
        ),
{
    let ghost n = class_properties.len() as nat;
    let ghost target = existing_properties@.union(
        Set::new(
            |p: PropertyId| exists|i: int| 0 <= i < new_properties.len() && p == #[trigger] new_property_id(n, i),
        ),
    );
    let offset: usize = class_properties.len() % 65536;
    let mut properties = existing_properties;
    let ghost existing = properties@;
    let mut i: usize = 0;
    while i < new_properties.len()
        invariant
            0 <= i <= new_properties.len(),
            n == class_properties.len(),
            offset == n % 65536,
            properties@ == existing.union(
                Set::new(|p: PropertyId| exists|k: int| 0 <= k < i && p == #[trigger] new_property_id(n, k)),
            ),
        decreases new_properties.len() - i,
    {
        let id_value: usize = (offset + i % 65536) % 65536;
        proof {
            vstd::arithmetic::div_mod::lemma_add_mod_noop(n as int, i as int, 65536);
            assert(id_value == new_property_id(n, i as int));
        }
        let id = id_value as PropertyId;
        properties.insert(id);
        proof {
            let next = existing.union(
                Set::new(|p: PropertyId| exists|k: int| 0 <= k < i + 1 && p == #[trigger] new_property_id(n, k)),
            );
            assert forall|p: PropertyId| #[trigger] next.contains(p) implies properties@.contains(p) by {
                if !existing.contains(p) && p != id {
                    let k = choose|k: int| 0 <= k < i + 1 && p == #[trigger] new_property_id(n, k);
                    assert(0 <= k < i && p == new_property_id(n, k));
                }
            }
            assert forall|p: PropertyId| #[trigger] properties@.contains(p) implies next.contains(p) by {
                if p == id {
                    assert(0 <= i < i + 1 && p == new_property_id(n, i as int));
                } else if !existing.contains(p) {
                    let k = choose|k: int| 0 <= k < i && p == #[trigger] new_property_id(n, k);
                    assert(0 <= k < i + 1 && p == new_property_id(n, k));
                }
            }
            assert(properties@ =~= next);
        }
        i = i + 1;
    }
    Schema::new(properties)
}

} // verus!
