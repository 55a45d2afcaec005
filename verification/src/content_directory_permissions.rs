use vstd::prelude::*;
use std::collections::BTreeSet;

use crate::content::CuratorGroupId;
use crate::primitives::MemberId;
use crate::sorted::{ascending_vec, enumerates_ascending};

verus! {

/// Who may act on a class's entities, and how.
pub struct ClassPermissions {
    /// Whether any member may create entities of the class.
    pub any_member: bool,
    /// Whether entity creation is blocked.
    pub entity_creation_blocked: bool,
    /// Whether all property values of the class's entities are locked.
    pub all_entity_property_values_locked: bool,
    /// The curator groups that maintain the class.
    pub maintainers: BTreeSet<CuratorGroupId>,
}

/// The view of class permissions.
pub struct ClassPermissionsView {
    pub any_member: bool,
    pub entity_creation_blocked: bool,
    pub all_entity_property_values_locked: bool,
    pub maintainers: Set<CuratorGroupId>,
}

impl View for ClassPermissions {
    type V = ClassPermissionsView;

    open spec fn view(&self) -> ClassPermissionsView {
        ClassPermissionsView {
            any_member: self.any_member,
            entity_creation_blocked: self.entity_creation_blocked,
            all_entity_property_values_locked: self.all_entity_property_values_locked,
            maintainers: self.maintainers@,
        }
    }
}

/// Whether two sets of curator groups are equal.
fn same_groups(a: &BTreeSet<CuratorGroupId>, b: &BTreeSet<CuratorGroupId>) -> (r: bool)
    ensures
        r == (a@ == b@),
{
    let va = ascending_vec(a);
    let vb = ascending_vec(b);
    if va.len() != vb.len() {
        proof {
            if a@ == b@ {
                crate::sorted::lemma_ascending_unique(va@, vb@, a@);
            }
        }
        return false;
    }
    let mut i: usize = 0;
    while i < va.len()
        invariant
            0 <= i <= va.len(),
            va.len() == vb.len(),
            enumerates_ascending(va@, a@),
            enumerates_ascending(vb@, b@),
            forall|j: int| 0 <= j < i ==> va@[j] == vb@[j],
        decreases va.len() - i,
    {
        if va[i] != vb[i] {
            proof {
                if a@ == b@ {
                    crate::sorted::lemma_ascending_unique(va@, vb@, a@);
                }
            }
            return false;
        }
        i = i + 1;
    }
    proof {
        assert(va@ =~= vb@);
    }
    true
}

/// The class permissions with each given setting replaced; `None` where nothing changes.
pub fn make_updated_class_permissions(
    class_permissions: ClassPermissions,
    updated_any_member: Option<bool>,
    updated_entity_creation_blocked: Option<bool>,
    updated_all_entity_property_values_locked: Option<bool>,
    updated_maintainers: Option<BTreeSet<CuratorGroupId>>,
) -> (r: Option<ClassPermissions>)
    ensures
        ({
            let u = ClassPermissionsView {
                any_member: match updated_any_member {
                    Some(v) => v,
                    None => class_permissions.any_member,
                },
                entity_creation_blocked: match updated_entity_creation_blocked {
                    Some(v) => v,
                    None => class_permissions.entity_creation_blocked,
                },
                all_entity_property_values_locked: match updated_all_entity_property_values_locked {
                    Some(v) => v,
                    None => class_permissions.all_entity_property_values_locked,
                },
                maintainers: match updated_maintainers {
                    Some(m) => m@,
                    None => class_permissions.maintainers@,
                },
            };
            match r {
                Some(p) => u != class_permissions@ && p@ == u,
                None => u == class_permissions@,
            }
        }),
{
    let any_member = match updated_any_member {
        Some(v) => v,
        None => class_permissions.any_member,
    };
    let entity_creation_blocked = match updated_entity_creation_blocked {
        Some(v) => v,
        None => class_permissions.entity_creation_blocked,
    };
    let all_entity_property_values_locked = match updated_all_entity_property_values_locked {
        Some(v) => v,
        None => class_permissions.all_entity_property_values_locked,
    };
    let maintainers = match updated_maintainers {
        Some(m) => m,
        None => class_permissions.maintainers.clone(),
    };
    let unchanged = any_member == class_permissions.any_member && entity_creation_blocked
        == class_permissions.entity_creation_blocked && all_entity_property_values_locked
        == class_permissions.all_entity_property_values_locked && same_groups(
        &maintainers,
        &class_permissions.maintainers,
    );
    if unchanged {
        None
    } else {
        Some(ClassPermissions { any_member, entity_creation_blocked, all_entity_property_values_locked, maintainers })
    }
}

/// Who controls an entity.
#[derive(Clone, Copy, Debug, PartialEq, Eq, Structural)]
pub enum EntityController {
    Maintainers,
    Member(MemberId),
    Lead,
}

/// The permissions of an entity.
#[derive(Clone, Copy, Debug, PartialEq, Eq, Structural)]
pub struct EntityPermissions {
    /// Who controls the entity.
    pub controller: EntityController,
    /// Whether the controller may no longer change the entity's values.
    pub frozen: bool,
    /// Whether other entities may refer to this one.
    pub referenceable: bool,
}

/// The entity permissions with each given setting replaced; `None` where nothing changes.
pub fn make_updated_entity_permissions(
    entity_permissions: EntityPermissions,
    updated_frozen: Option<bool>,
    updated_referenceable: Option<bool>,
) -> (r: Option<EntityPermissions>)
    ensures
        ({
            let u = EntityPermissions {
                frozen: match updated_frozen {
                    Some(v) => v,
                    None => entity_permissions.frozen,
                },
                referenceable: match updated_referenceable {
                    Some(v) => v,
                    None => entity_permissions.referenceable,
                },
                ..entity_permissions
            };
            r == if u != entity_permissions {
                Some(u)
            } else {
                None
            }
        }),
{
    let mut updated_entity_permissions = entity_permissions;
    if let Some(frozen) = updated_frozen {
        updated_entity_permissions.frozen = frozen;
    }
    if let Some(referenceable) = updated_referenceable {
        updated_entity_permissions.referenceable = referenceable;
    }
    if updated_entity_permissions != entity_permissions {
        Some(updated_entity_permissions)
    } else {
        None
    }
}

} // verus!
