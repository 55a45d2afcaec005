use vstd::prelude::*;

use crate::content_directory::{
    base, counted, inbound_rcs_delta, merged, merged_opt, rcs_delta_over, updated_inbound_rcs_delta,
    with_properties, DeltaMode, EntityId, PropertyId, PropertyView,
};

verus! {

/// Adding up side effects does not depend on their order.
pub proof fn law_merge_commutes(a: Option<Map<EntityId, (int, int)>>, b: Option<Map<EntityId, (int, int)>>)
    ensures
        merged_opt(a, b) == merged_opt(b, a),
{
    match (a, b) {
        (Some(x), Some(y)) => {
            assert(merged(x, y) =~= merged(y, x));
        },
        _ => {},
    }
}

/// Adding no side effect changes nothing.
pub proof fn law_merge_with_none(a: Option<Map<EntityId, (int, int)>>)
    ensures
        merged_opt(a, None) == a,
        merged_opt(None, a) == a,
{
}

/// The references of some values counted up and then down again leave every entity's side
/// effect as it was before, at zero for the entities that had none.
pub proof fn law_increment_then_decrement_cancels(
    d: Map<EntityId, (int, int)>,
    ids: Seq<EntityId>,
    same_owner: bool,
)
    ensures
        ({
            let up = counted(d, ids, same_owner, DeltaMode::Increment);
            let down = counted(up, ids, same_owner, DeltaMode::Decrement);
            &&& down.dom() == up.dom()
            &&& forall|e: EntityId| #[trigger] down.contains_key(e) ==> down[e] == base(d, e)
        }),
{
    let up = counted(d, ids, same_owner, DeltaMode::Increment);
    let down = counted(up, ids, same_owner, DeltaMode::Decrement);
    assert(down.dom() =~= up.dom());
}

/// Rewriting an entity's values with the values that it already holds has no net side effect:
/// every affected entity's counters change by zero.
pub proof fn law_rewriting_same_values_nets_zero(
    props: Seq<PropertyView>,
    entity_values: Map<PropertyId, Option<Seq<EntityId>>>,
    new_values: Map<PropertyId, Option<Seq<EntityId>>>,
    current: EntityId,
)
    requires
        entity_values.restrict(new_values.dom()) == new_values,
    ensures
        match updated_inbound_rcs_delta(props, entity_values, new_values, current) {
            Some(m) => forall|e: EntityId| #[trigger] m.contains_key(e) ==> m[e] == (0int, 0int),
            None => true,
        },
{
    let vals = with_properties(props, new_values);
    let down = rcs_delta_over(vals, vals.dom(), current, DeltaMode::Decrement);
    let up = rcs_delta_over(vals, vals.dom(), current, DeltaMode::Increment);
    assert(down.dom() =~= up.dom());
    if !down.dom().is_empty() {
        assert(inbound_rcs_delta(vals, current, DeltaMode::Decrement) == Some(down));
        assert(inbound_rcs_delta(vals, current, DeltaMode::Increment) == Some(up));
        let m = merged(down, up);
        assert forall|e: EntityId| #[trigger] m.contains_key(e) implies m[e] == (0int, 0int) by {}
    }
}

} // verus!
