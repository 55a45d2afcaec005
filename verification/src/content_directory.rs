use vstd::prelude::*;
use std::collections::BTreeMap;
use vstd::set::fold::is_fun_commutative;
use vstd::std_specs::iter::IteratorSpec;

verus! {

/// Entity identifier.
pub type EntityId = u64;

/// Index of a property among the properties of its class.
pub type PropertyId = u16;

/// Whether a reference counter side effect adds or removes references.
#[derive(Clone, Copy, Debug, PartialEq, Eq, Structural)]
pub enum DeltaMode {
    Increment,
    Decrement,
}

/// Net change of the inbound reference counters of one entity: of all references, and of those
/// made through properties whose value must share the entity's controller.
#[derive(Clone, Copy, Debug, PartialEq, Eq, Structural)]
pub struct EntityReferenceCounterSideEffect {
    pub total: i32,
    pub same_owner: i32,
}

/// `n` references counted in the direction of `mode`.
pub open spec fn signed(mode: DeltaMode, n: int) -> int {
    match mode {
        DeltaMode::Increment => n,
        DeltaMode::Decrement => -n,
    }
}

/// The side effect of a single reference, as a pair (total, same owner).
pub open spec fn atomic_delta(same_owner: bool, mode: DeltaMode) -> (int, int) {
    (signed(mode, 1), if same_owner { signed(mode, 1) } else { 0 })
}

/// Whether a number fits in an `i32`.
pub open spec fn fits_i32(x: int) -> bool {
    i32::MIN <= x <= i32::MAX
}

impl EntityReferenceCounterSideEffect {
    /// The pair (total, same owner) as integers.
    pub open spec fn pair(self) -> (int, int) {
        (self.total as int, self.same_owner as int)
    }

    /// The side effect of one reference added or removed.
    pub fn atomic(same_owner: bool, delta_mode: DeltaMode) -> (r: Self)
        ensures
            r.pair() == atomic_delta(same_owner, delta_mode),
    {
        let counter: i32 = match delta_mode {
            DeltaMode::Increment => 1,
            DeltaMode::Decrement => -1,
        };
        if same_owner {
            EntityReferenceCounterSideEffect { total: counter, same_owner: counter }
        } else {
            EntityReferenceCounterSideEffect { total: counter, same_owner: 0 }
        }
    }

    /// Adds another side effect to this one, field by field.
    pub fn add_assign(&mut self, other: Self)
        requires
            fits_i32(old(self).total + other.total),
            fits_i32(old(self).same_owner + other.same_owner),
        ensures
            final(self).total == old(self).total + other.total,
            final(self).same_owner == old(self).same_owner + other.same_owner,
    {
        self.total = self.total + other.total;
        self.same_owner = self.same_owner + other.same_owner;
    }
}

/// Reference counter side effects of an operation, by entity.
pub struct ReferenceCounterSideEffects {
    pub map: BTreeMap<EntityId, EntityReferenceCounterSideEffect>,
}

impl View for ReferenceCounterSideEffects {
    type V = Map<EntityId, (int, int)>;

    open spec fn view(&self) -> Map<EntityId, (int, int)> {
        self.map@.map_values(|v: EntityReferenceCounterSideEffect| v.pair())
    }
}

/// The side effect recorded for `e`, zero where none is.
pub open spec fn base(d: Map<EntityId, (int, int)>, e: EntityId) -> (int, int) {
    if d.contains_key(e) {
        d[e]
    } else {
        (0, 0)
    }
}

/// How often `e` occurs in `s`.
pub open spec fn occurrences(s: Seq<EntityId>, e: EntityId) -> nat
    decreases s.len(),
{
    if s.len() == 0 {
        0
    } else {
        occurrences(s.drop_last(), e) + if s.last() == e {
            1nat
        } else {
            0nat
        }
    }
}

/// The side effects `d` after one reference to each entry of `ids` was counted.
pub open spec fn counted(d: Map<EntityId, (int, int)>, ids: Seq<EntityId>, same_owner: bool, mode: DeltaMode) -> Map<
    EntityId,
    (int, int),
> {
    Map::new(
        |e: EntityId| d.contains_key(e) || ids.contains(e),
        |e: EntityId|
            (
                base(d, e).0 + signed(mode, occurrences(ids, e) as int),
                base(d, e).1 + if same_owner {
                    signed(mode, occurrences(ids, e) as int)
                } else {
                    0
                },
            ),
    )
}

/// The counts of `counted` fit in an `i32`.
pub open spec fn counted_fits(d: Map<EntityId, (int, int)>, ids: Seq<EntityId>, same_owner: bool, mode: DeltaMode) -> bool {
    forall|e: EntityId|
        #[trigger] ids.contains(e) ==> fits_i32(counted(d, ids, same_owner, mode)[e].0) && fits_i32(
            counted(d, ids, same_owner, mode)[e].1,
        )
}

/// Occurrences in a prefix are at most those in the whole sequence.
pub proof fn lemma_occurrences_prefix(s: Seq<EntityId>, i: int, e: EntityId)
    requires
        0 <= i <= s.len(),
    ensures
        occurrences(s.take(i), e) <= occurrences(s, e),
    decreases s.len(),
{
    if i < s.len() {
        assert(s.drop_last().take(i) =~= s.take(i));
        lemma_occurrences_prefix(s.drop_last(), i, e);
    } else {
        assert(s.take(i) =~= s);
    }
}

/// An element that occurs is contained, and conversely.
pub proof fn lemma_occurrences_contains(s: Seq<EntityId>, e: EntityId)
    ensures
        occurrences(s, e) > 0 <==> s.contains(e),
    decreases s.len(),
{
    if s.len() > 0 {
        lemma_occurrences_contains(s.drop_last(), e);
        if s.drop_last().contains(e) {
            let j = choose|j: int| 0 <= j < s.drop_last().len() && s.drop_last()[j] == e;
            assert(s[j] == e);
        }
        if s.contains(e) && s.last() != e {
            let j = choose|j: int| 0 <= j < s.len() && s[j] == e;
            assert(s.drop_last()[j] == e);
        }
    }
}

/// Counting one more reference, to `x`.
proof fn lemma_counted_push(d: Map<EntityId, (int, int)>, s: Seq<EntityId>, x: EntityId, same_owner: bool, mode: DeltaMode)
    ensures
        counted(d, s.push(x), same_owner, mode) =~= counted(d, s, same_owner, mode).insert(
            x,
            (
                base(counted(d, s, same_owner, mode), x).0 + atomic_delta(same_owner, mode).0,
                base(counted(d, s, same_owner, mode), x).1 + atomic_delta(same_owner, mode).1,
            ),
        ),
{
    let t = s.push(x);
    assert(t.drop_last() =~= s);
    assert forall|e: EntityId| t.contains(e) <==> s.contains(e) || e == x by {
        if t.contains(e) && e != x {
            let j = choose|j: int| 0 <= j < t.len() && t[j] == e;
            assert(s[j] == e);
        }
        if s.contains(e) {
            let j = choose|j: int| 0 <= j < s.len() && s[j] == e;
            assert(t[j] == e);
        }
        if e == x {
            assert(t[s.len() as int] == x);
        }
    }
    lemma_occurrences_contains(s, x);
}

impl ReferenceCounterSideEffects {
    /// No side effects.
    pub fn new() -> (r: Self)
        ensures
            r@ == Map::<EntityId, (int, int)>::empty(),
    {
        let r = ReferenceCounterSideEffects { map: BTreeMap::new() };
        assert(r@ =~= Map::<EntityId, (int, int)>::empty());
        r
    }

    /// Whether no entity is affected.
    pub fn is_empty(&self) -> (b: bool)
        ensures
            b <==> self@.dom().is_empty(),
    {
        let b = self.map.is_empty();
        proof {
            if !b {
                let k = self.map@.dom().choose();
                assert(self.map@.dom().contains(k));
                assert(self@.dom().contains(k));
            }
        }
        b
    }

    /// The side effect on the given entity, if any.
    pub fn get(&self, entity_id: EntityId) -> (r: Option<EntityReferenceCounterSideEffect>)
        ensures
            match r {
                Some(v) => self@.contains_key(entity_id) && self@[entity_id] == v.pair(),
                None => !self@.contains_key(entity_id),
            },
    {
        match self.map.get(&entity_id) {
            Some(v) => Some(*v),
            None => None,
        }
    }

    /// Records the side effect of an entity.
    fn put(&mut self, entity_id: EntityId, v: EntityReferenceCounterSideEffect)
        ensures
            final(self)@ == old(self)@.insert(entity_id, v.pair()),
    {
        let ghost prev = self.map@;
        self.map.insert(entity_id, v);
        proof {
            assert(self.map@.map_values(|v: EntityReferenceCounterSideEffect| v.pair()) =~= prev.map_values(
                |v: EntityReferenceCounterSideEffect| v.pair(),
            ).insert(entity_id, v.pair()));
        }
    }
}

/// Counts one reference to each of `involved_entity_ids` in `inbound_rcs_delta`: a reference
/// through a property whose value must share the controller also counts as a same owner reference.
pub fn perform_entities_inbound_rcs_delta_calculation(
    inbound_rcs_delta: ReferenceCounterSideEffects,
    involved_entity_ids: Vec<EntityId>,
    same_controller_status: bool,
    delta_mode: DeltaMode,
) -> (r: ReferenceCounterSideEffects)
    requires
        counted_fits(inbound_rcs_delta@, involved_entity_ids@, same_controller_status, delta_mode),
    ensures
        r@ == counted(inbound_rcs_delta@, involved_entity_ids@, same_controller_status, delta_mode),
{
    let mut inbound_rcs_delta = inbound_rcs_delta;
    let ghost d = inbound_rcs_delta@;
    let ghost ids = involved_entity_ids@;
    let mut i: usize = 0;
    proof {
        assert(counted(d, ids.take(0), same_controller_status, delta_mode) =~= d);
        assert forall|e: EntityId| d.contains_key(e) implies fits_i32(d[e].0) && fits_i32(d[e].1) by {
            assert(inbound_rcs_delta.map@.contains_key(e));
        }
    }
    while i < involved_entity_ids.len()
        invariant
            0 <= i <= involved_entity_ids.len(),
            ids == involved_entity_ids@,
            forall|e: EntityId| d.contains_key(e) ==> fits_i32(d[e].0) && fits_i32(d[e].1),
            counted_fits(d, ids, same_controller_status, delta_mode),
            inbound_rcs_delta@ == counted(d, ids.take(i as int), same_controller_status, delta_mode),
        decreases involved_entity_ids.len() - i,
    {
        let involved_entity_id = involved_entity_ids[i];
        let ghost prev = inbound_rcs_delta@;
        proof {
            assert(ids.take(i as int + 1) =~= ids.take(i as int).push(involved_entity_id));
            lemma_counted_push(d, ids.take(i as int), involved_entity_id, same_controller_status, delta_mode);
            lemma_occurrences_prefix(ids, i as int + 1, involved_entity_id);
            assert(ids.contains(involved_entity_id)) by {
                assert(ids[i as int] == involved_entity_id);
            }
            let full = counted(d, ids, same_controller_status, delta_mode);
            assert(fits_i32(full[involved_entity_id].0) && fits_i32(full[involved_entity_id].1));
            let next = counted(d, ids.take(i as int + 1), same_controller_status, delta_mode);
            assert(next.contains_key(involved_entity_id));
            assert(fits_i32(next[involved_entity_id].0) && fits_i32(next[involved_entity_id].1));
        }
        let atomic = EntityReferenceCounterSideEffect::atomic(same_controller_status, delta_mode);
        match inbound_rcs_delta.get(involved_entity_id) {
            Some(v) => {
                let mut v = v;
                v.add_assign(atomic);
                inbound_rcs_delta.put(involved_entity_id, v);
            },
            None => {
                inbound_rcs_delta.put(involved_entity_id, atomic);
            },
        }
        i = i + 1;
    }
    proof {
        assert(ids.take(i as int) =~= ids);
    }
    inbound_rcs_delta
}

/// Leaves out the references of an entity to itself.
pub fn filter_references_to_the_same_entity(current_entity_id: EntityId, involved_entity_ids: Vec<EntityId>) -> (r: Vec<
    EntityId,
>)
    ensures
        r@ == involved_entity_ids@.filter(|id: EntityId| id != current_entity_id),
{
    let ghost ids = involved_entity_ids@;
    let ghost f = |id: EntityId| id != current_entity_id;
    let mut r: Vec<EntityId> = Vec::new();
    let mut i: usize = 0;
    proof {
        reveal(Seq::filter);
        assert(ids.take(0).filter(f) =~= Seq::<EntityId>::empty());
    }
    while i < involved_entity_ids.len()
        invariant
            0 <= i <= involved_entity_ids.len(),
            ids == involved_entity_ids@,
            f == (|id: EntityId| id != current_entity_id),
            r@ == ids.take(i as int).filter(f),
        decreases involved_entity_ids.len() - i,
    {
        let id = involved_entity_ids[i];
        proof {
            reveal(Seq::filter);
            assert(ids.take(i as int + 1).drop_last() =~= ids.take(i as int));
            assert(ids.take(i as int + 1).last() == id);
        }
        if id != current_entity_id {
            r.push(id);
        }
        i = i + 1;
    }
    proof {
        assert(ids.take(i as int) =~= ids);
    }
    r
}

/// What the reference counting reads of a stored property value: the entities that it refers
/// to, when it is a reference or a vector of references.
pub struct StoredPropertyValue {
    pub involved_entities: Option<Vec<EntityId>>,
}

/// A sequence view of an optional vector.
pub open spec fn opt_seq(v: Option<Vec<EntityId>>) -> Option<Seq<EntityId>> {
    match v {
        Some(ids) => Some(ids@),
        None => None,
    }
}

impl View for StoredPropertyValue {
    type V = Option<Seq<EntityId>>;

    open spec fn view(&self) -> Option<Seq<EntityId>> {
        opt_seq(self.involved_entities)
    }
}

impl StoredPropertyValue {
    /// The entities that the value refers to, if it is a reference or a vector of references.
    pub fn get_involved_entities(&self) -> (r: Option<Vec<EntityId>>)
        ensures
            opt_seq(r) == self@,
    {
        match &self.involved_entities {
            Some(ids) => Some(ids.clone()),
            None => None,
        }
    }

    /// A copy of the value.
    pub fn duplicate(&self) -> (r: Self)
        ensures
            r@ == self@,
    {
        StoredPropertyValue { involved_entities: self.get_involved_entities() }
    }
}

/// A stored value together with what the reference counting reads of its property: whether a
/// referenced entity must share the controller of the referring one.
pub struct StoredValueForExistingProperty {
    pub same_controller_status: bool,
    pub value: StoredPropertyValue,
}

impl View for StoredValueForExistingProperty {
    type V = (bool, Option<Seq<EntityId>>);

    open spec fn view(&self) -> (bool, Option<Seq<EntityId>>) {
        (self.same_controller_status, self.value@)
    }
}

/// The view of the values for existing properties, by property.
pub open spec fn values_view(m: BTreeMap<PropertyId, StoredValueForExistingProperty>) -> Map<
    PropertyId,
    (bool, Option<Seq<EntityId>>),
> {
    m@.map_values(|v: StoredValueForExistingProperty| v@)
}

/// The references to `e` that one value makes, other than references of the entity to itself;
/// with `same_owner_only`, only those through properties that require the same controller.
pub open spec fn references_of(
    v: (bool, Option<Seq<EntityId>>),
    current: EntityId,
    e: EntityId,
    same_owner_only: bool,
) -> nat {
    if same_owner_only && !v.0 {
        0
    } else {
        match v.1 {
            Some(ids) => if e == current {
                0
            } else {
                occurrences(ids, e)
            },
            None => 0,
        }
    }
}

/// Adds the references of the value of a property to a count.
pub open spec fn reference_adder(
    vals: Map<PropertyId, (bool, Option<Seq<EntityId>>)>,
    current: EntityId,
    e: EntityId,
    same_owner_only: bool,
) -> spec_fn(nat, PropertyId) -> nat {
    |acc: nat, k: PropertyId| acc + references_of(vals[k], current, e, same_owner_only)
}

/// The references to `e` that the values of the properties in `keys` make.
pub open spec fn references_over(
    vals: Map<PropertyId, (bool, Option<Seq<EntityId>>)>,
    keys: Set<PropertyId>,
    current: EntityId,
    e: EntityId,
    same_owner_only: bool,
) -> nat {
    keys.fold(0nat, reference_adder(vals, current, e, same_owner_only))
}

/// The references to `e` that all the values make.
pub open spec fn inbound_references(
    vals: Map<PropertyId, (bool, Option<Seq<EntityId>>)>,
    current: EntityId,
    e: EntityId,
    same_owner_only: bool,
) -> nat {
    references_over(vals, vals.dom(), current, e, same_owner_only)
}

/// The side effects of the references that the values of the properties in `keys` make, counted
/// in the direction of `mode`, for every entity that they refer to.
pub open spec fn rcs_delta_over(
    vals: Map<PropertyId, (bool, Option<Seq<EntityId>>)>,
    keys: Set<PropertyId>,
    current: EntityId,
    mode: DeltaMode,
) -> Map<EntityId, (int, int)> {
    Map::new(
        |e: EntityId| references_over(vals, keys, current, e, false) > 0,
        |e: EntityId|
            (
                signed(mode, references_over(vals, keys, current, e, false) as int),
                signed(mode, references_over(vals, keys, current, e, true) as int),
            ),
    )
}

/// The side effects of all references that the values make, if they refer to any entity but
/// their own.
pub open spec fn inbound_rcs_delta(
    vals: Map<PropertyId, (bool, Option<Seq<EntityId>>)>,
    current: EntityId,
    mode: DeltaMode,
) -> Option<Map<EntityId, (int, int)>> {
    let d = rcs_delta_over(vals, vals.dom(), current, mode);
    if d.dom().is_empty() {
        None
    } else {
        Some(d)
    }
}

/// The view of optional side effects.
pub open spec fn opt_view(r: Option<ReferenceCounterSideEffects>) -> Option<Map<EntityId, (int, int)>> {
    match r {
        Some(x) => Some(x@),
        None => None,
    }
}

/// Adding up references does not depend on the order of the properties.
pub proof fn lemma_reference_adder_commutative(
    vals: Map<PropertyId, (bool, Option<Seq<EntityId>>)>,
    current: EntityId,
    e: EntityId,
    same_owner_only: bool,
)
    ensures
        is_fun_commutative(reference_adder(vals, current, e, same_owner_only)),
{
}

/// Counting one more property.
pub proof fn lemma_references_insert(
    vals: Map<PropertyId, (bool, Option<Seq<EntityId>>)>,
    keys: Set<PropertyId>,
    k: PropertyId,
    current: EntityId,
    e: EntityId,
    same_owner_only: bool,
)
    requires
        keys.finite(),
        !keys.contains(k),
    ensures
        references_over(vals, keys.insert(k), current, e, same_owner_only) == references_over(
            vals,
            keys,
            current,
            e,
            same_owner_only,
        ) + references_of(vals[k], current, e, same_owner_only),
{
    lemma_reference_adder_commutative(vals, current, e, same_owner_only);
    vstd::set::fold::lemma_fold_insert(keys, 0nat, reference_adder(vals, current, e, same_owner_only), k);
}

/// No property makes no reference.
pub proof fn lemma_references_empty(
    vals: Map<PropertyId, (bool, Option<Seq<EntityId>>)>,
    current: EntityId,
    e: EntityId,
    same_owner_only: bool,
)
    ensures
        references_over(vals, Set::empty(), current, e, same_owner_only) == 0,
{
    vstd::set::fold::lemma_fold_empty(0nat, reference_adder(vals, current, e, same_owner_only));
}

/// Same owner references are among all references.
pub proof fn lemma_same_owner_references_bounded(
    vals: Map<PropertyId, (bool, Option<Seq<EntityId>>)>,
    keys: Set<PropertyId>,
    current: EntityId,
    e: EntityId,
)
    requires
        keys.finite(),
    ensures
        references_over(vals, keys, current, e, true) <= references_over(vals, keys, current, e, false),
    decreases keys.len(),
{
    if keys.is_empty() {
        assert(keys =~= Set::empty());
        lemma_references_empty(vals, current, e, true);
        lemma_references_empty(vals, current, e, false);
    } else {
        let k = keys.choose();
        let rest = keys.remove(k);
        assert(rest.insert(k) =~= keys);
        lemma_same_owner_references_bounded(vals, rest, current, e);
        lemma_references_insert(vals, rest, k, current, e, true);
        lemma_references_insert(vals, rest, k, current, e, false);
    }
}

/// Fewer properties make no more references.
pub proof fn lemma_references_subset(
    vals: Map<PropertyId, (bool, Option<Seq<EntityId>>)>,
    small: Set<PropertyId>,
    large: Set<PropertyId>,
    current: EntityId,
    e: EntityId,
    same_owner_only: bool,
)
    requires
        large.finite(),
        small.subset_of(large),
    ensures
        references_over(vals, small, current, e, same_owner_only) <= references_over(
            vals,
            large,
            current,
            e,
            same_owner_only,
        ),
    decreases large.len(),
{
    if small =~= large {
    } else {
        let k = choose|k: PropertyId| large.contains(k) && !small.contains(k);
        let rest = large.remove(k);
        assert(rest.insert(k) =~= large);
        lemma_references_subset(vals, small, rest, current, e, same_owner_only);
        lemma_references_insert(vals, rest, k, current, e, same_owner_only);
    }
}

/// Leaving out the references to `current` leaves out exactly its occurrences.
pub proof fn lemma_occurrences_filter(ids: Seq<EntityId>, current: EntityId, e: EntityId)
    ensures
        occurrences(ids.filter(|id: EntityId| id != current), e) == if e == current {
            0
        } else {
            occurrences(ids, e)
        },
    decreases ids.len(),
{
    reveal(Seq::filter);
    if ids.len() > 0 {
        lemma_occurrences_filter(ids.drop_last(), current, e);
        let sub = ids.drop_last().filter(|id: EntityId| id != current);
        if ids.last() != current {
            assert(sub.push(ids.last()).drop_last() =~= sub);
        }
    }
}

/// Counting the references of one more property.
proof fn lemma_rcs_delta_insert(
    vals: Map<PropertyId, (bool, Option<Seq<EntityId>>)>,
    keys: Set<PropertyId>,
    k: PropertyId,
    current: EntityId,
    mode: DeltaMode,
)
    requires
        keys.finite(),
        !keys.contains(k),
    ensures
        match vals[k].1 {
            Some(ids) => rcs_delta_over(vals, keys.insert(k), current, mode) =~= counted(
                rcs_delta_over(vals, keys, current, mode),
                ids.filter(|id: EntityId| id != current),
                vals[k].0,
                mode,
            ),
            None => rcs_delta_over(vals, keys.insert(k), current, mode) =~= rcs_delta_over(
                vals,
                keys,
                current,
                mode,
            ),
        },
{
    let d = rcs_delta_over(vals, keys, current, mode);
    let n = rcs_delta_over(vals, keys.insert(k), current, mode);
    assert forall|e: EntityId|
        references_over(vals, keys.insert(k), current, e, false) == references_over(vals, keys, current, e, false)
            + references_of(vals[k], current, e, false) && references_over(vals, keys.insert(k), current, e, true)
            == references_over(vals, keys, current, e, true) + references_of(vals[k], current, e, true) by {
        lemma_references_insert(vals, keys, k, current, e, false);
        lemma_references_insert(vals, keys, k, current, e, true);
    }
    assert forall|e: EntityId|
        references_over(vals, keys, current, e, true) <= references_over(vals, keys, current, e, false) by {
        lemma_same_owner_references_bounded(vals, keys, current, e);
    }
    match vals[k].1 {
        Some(ids) => {
            let f = ids.filter(|id: EntityId| id != current);
            let c = counted(d, f, vals[k].0, mode);
            assert forall|e: EntityId| occurrences(f, e) == (if e == current {
                0
            } else {
                occurrences(ids, e)
            }) && (occurrences(f, e) > 0 <==> f.contains(e)) by {
                lemma_occurrences_filter(ids, current, e);
                lemma_occurrences_contains(f, e);
            }
            assert forall|e: EntityId| n.contains_key(e) <==> c.contains_key(e) by {}
            assert forall|e: EntityId| n.contains_key(e) implies n[e] == c[e] by {}
        },
        None => {},
    }
}

/// The side effects on the inbound reference counters of the entities that the values for
/// existing properties of `current_entity_id` refer to, when those references are added or
/// removed; references of the entity to itself are left out, and `None` stands for no side
/// effect at all.
pub fn calculate_entities_inbound_rcs_delta(
    current_entity_id: EntityId,
    values_for_existing_properties: &BTreeMap<PropertyId, StoredValueForExistingProperty>,
    delta_mode: DeltaMode,
) -> (r: Option<ReferenceCounterSideEffects>)
    requires
        forall|e: EntityId|
            #[trigger] inbound_references(values_view(*values_for_existing_properties), current_entity_id, e, false)
                <= i32::MAX,
    ensures
        opt_view(r) == inbound_rcs_delta(values_view(*values_for_existing_properties), current_entity_id, delta_mode),
{
    let ghost vals = values_view(*values_for_existing_properties);
    let ghost entries = vstd::std_specs::btree::spec_btree_map_iter(values_for_existing_properties).remaining();
    let ghost mut keys: Set<PropertyId> = Set::empty();
    let mut inbound_rcs_delta = ReferenceCounterSideEffects::new();
    proof {
        assert forall|e: EntityId| !rcs_delta_over(vals, keys, current_entity_id, delta_mode).contains_key(e) by {
            lemma_references_empty(vals, current_entity_id, e, false);
        }
        assert(rcs_delta_over(vals, keys, current_entity_id, delta_mode) =~= inbound_rcs_delta@);
    }
    let iter = values_for_existing_properties.iter();
    proof {
        broadcast use vstd::std_specs::btree::group_btree_axioms;
        assert(vstd::laws_cmp::obeys_cmp::<PropertyId>());
        assert(entries.no_duplicates());
    }
    for entry in it: iter
        invariant
            entries.no_duplicates(),
            vals == values_view(*values_for_existing_properties),
            entries == vstd::std_specs::btree::spec_btree_map_iter(values_for_existing_properties).remaining(),
            it.seq() == entries,
            keys.finite(),
            keys.subset_of(vals.dom()),
            forall|j: int| 0 <= j < it.index() ==> #[trigger] keys.contains(*entries[j].0),
            forall|k: PropertyId| keys.contains(k) ==> exists|j: int| 0 <= j < it.index() && *entries[j].0 == k,
            inbound_rcs_delta@ == rcs_delta_over(vals, keys, current_entity_id, delta_mode),
            forall|e: EntityId| #[trigger] inbound_references(vals, current_entity_id, e, false) <= i32::MAX,
    {
        let (property_id, value_for_existing_property) = entry;
        let ghost j = it.index();
        proof {
            broadcast use vstd::std_specs::btree::group_btree_axioms;
            assert(entry == entries[j]);
            assert(values_for_existing_properties@.contains_key(*entries[j].0));
            assert(!keys.contains(*property_id)) by {
                if keys.contains(*property_id) {
                    let j2 = choose|j2: int| 0 <= j2 < j && *entries[j2].0 == *property_id;
                    assert(values_for_existing_properties@.contains_key(*entries[j2].0));
                    assert(entries[j2] == entries[j]);
                }
            }
            assert(vals[*property_id] == value_for_existing_property@);
            lemma_rcs_delta_insert(vals, keys, *property_id, current_entity_id, delta_mode);
            assert(values_for_existing_properties@.dom().finite());
            assert(vals.dom() =~= values_for_existing_properties@.dom());
            assert forall|e: EntityId|
                references_over(vals, keys.insert(*property_id), current_entity_id, e, false) <= i32::MAX
                    && references_over(vals, keys.insert(*property_id), current_entity_id, e, true) <= i32::MAX by {
                assert(inbound_references(vals, current_entity_id, e, false) <= i32::MAX);
                lemma_references_subset(vals, keys.insert(*property_id), vals.dom(), current_entity_id, e, false);
                lemma_same_owner_references_bounded(vals, keys.insert(*property_id), current_entity_id, e);
            }
        }
        let same_controller_status = value_for_existing_property.same_controller_status;
        match value_for_existing_property.value.get_involved_entities() {
            Some(involved_entity_ids) => {
                let filtered = filter_references_to_the_same_entity(current_entity_id, involved_entity_ids);
                if filtered.len() > 0 {
                    inbound_rcs_delta = perform_entities_inbound_rcs_delta_calculation(
                        inbound_rcs_delta,
                        filtered,
                        same_controller_status,
                        delta_mode,
                    );
                } else {
                    proof {
                        assert(counted(inbound_rcs_delta@, filtered@, same_controller_status, delta_mode)
                            =~= inbound_rcs_delta@);
                    }
                }
            },
            None => {},
        }
        proof {
            keys = keys.insert(*property_id);
        }
    }
    proof {
        broadcast use vstd::std_specs::btree::group_btree_axioms;
        assert forall|k: PropertyId| vals.dom().contains(k) implies keys.contains(k) by {
            assert(values_for_existing_properties@.contains_key(k));
            assert(entries.contains((&k, &values_for_existing_properties@[k])));
            let j = choose|j: int|
                0 <= j < entries.len() && entries[j] == (&k, &values_for_existing_properties@[k]);
            assert(*entries[j].0 == k);
            assert(keys.contains(*entries[j].0));
        }
        assert(keys =~= vals.dom());
    }
    if !inbound_rcs_delta.is_empty() {
        Some(inbound_rcs_delta)
    } else {
        None
    }
}

/// Errors of the content directory.
#[derive(Clone, Copy, Debug, PartialEq, Eq, Structural)]
pub enum ContentDirectoryError {
    /// A property ID does not name a property of the class.
    ClassPropNotFound,
    /// A required property was given no value.
    MissingRequiredProp,
    /// A property value ID names no property value of the entity.
    UnknownEntityPropId,
    /// The class already has the maximal number of maintainers.
    NumberOfMaintainersPerClassLimitReached,
    /// The schema would have no property.
    NoPropsInClassSchema,
    /// The per controller entities creation limit exceeds the overall one.
    PerControllerEntitiesCreationLimitExceedsOverallLimit,
    /// The maximal number of entities of the class exceeds the runtime limit.
    EntitiesNumberPerClassConstraintViolated,
    /// The per actor entities creation limit exceeds the runtime limit.
    NumberOfClassEntitiesPerActorConstraintViolated,
    /// Too many operations in one transaction.
    MaxNumberOfOperationsDuringAtomicBatchingLimitReached,
    /// A property name is already used in the class.
    PropNameNotUniqueInAClass,
    /// A schema refers to a property index that the class does not have.
    ClassSchemaRefersUnknownPropIndex,
    /// A property value ID is not one of a reference with the same owner flag set.
    AllProvidedPropertyValueIdsMustBeReferencesWithSameOwnerFlagSet,
    /// A curator group does not exist.
    CuratorGroupDoesNotExist,
    /// The class name is shorter than allowed.
    ClassNameTooShort,
    /// The class name is longer than allowed.
    ClassNameTooLong,
    /// The class description is shorter than allowed.
    ClassDescriptionTooShort,
    /// The class description is longer than allowed.
    ClassDescriptionTooLong,
    /// The maximal number of classes is reached.
    ClassLimitReached,
}

/// Two side effects added up, entity by entity.
pub open spec fn merged(a: Map<EntityId, (int, int)>, b: Map<EntityId, (int, int)>) -> Map<EntityId, (int, int)> {
    Map::new(
        |e: EntityId| a.contains_key(e) || b.contains_key(e),
        |e: EntityId| (base(a, e).0 + base(b, e).0, base(a, e).1 + base(b, e).1),
    )
}

/// The sums of `merged` fit in an `i32`.
pub open spec fn merged_fits(a: Map<EntityId, (int, int)>, b: Map<EntityId, (int, int)>) -> bool {
    forall|e: EntityId|
        #[trigger] a.contains_key(e) && b.contains_key(e) ==> fits_i32(a[e].0 + b[e].0) && fits_i32(a[e].1 + b[e].1)
}

/// Two optional side effects added up.
pub open spec fn merged_opt(a: Option<Map<EntityId, (int, int)>>, b: Option<Map<EntityId, (int, int)>>) -> Option<
    Map<EntityId, (int, int)>,
> {
    match (a, b) {
        (Some(x), Some(y)) => Some(merged(x, y)),
        (Some(x), None) => Some(x),
        (None, Some(y)) => Some(y),
        (None, None) => None,
    }
}

impl ReferenceCounterSideEffects {
    /// Adds the side effects of `second_change` to these, entity by entity.
    pub fn update(self, second_change: Self) -> (r: Self)
        requires
            merged_fits(self@, second_change@),
        ensures
            r@ == merged(self@, second_change@),
    {
        let ghost a = self@;
        let ghost b = second_change@;
        let mut acc = self;
        let ghost entries = vstd::std_specs::btree::spec_btree_map_iter(&second_change.map).remaining();
        let ghost mut keys: Set<EntityId> = Set::empty();
        let iter = second_change.map.iter();
        proof {
            broadcast use vstd::std_specs::btree::group_btree_axioms;
            assert(entries.no_duplicates());
            assert(merged(a, b.restrict(keys)) =~= a);
            assert forall|e: EntityId| a.contains_key(e) implies fits_i32(a[e].0) && fits_i32(a[e].1) by {
                assert(acc.map@.contains_key(e));
            }
        }
        for entry in it: iter
            invariant
                entries.no_duplicates(),
                b == second_change@,
                entries == vstd::std_specs::btree::spec_btree_map_iter(&second_change.map).remaining(),
                it.seq() == entries,
                keys.subset_of(b.dom()),
                forall|j: int| 0 <= j < it.index() ==> #[trigger] keys.contains(*entries[j].0),
                forall|k: EntityId| keys.contains(k) ==> exists|j: int| 0 <= j < it.index() && *entries[j].0 == k,
                acc@ == merged(a, b.restrict(keys)),
                merged_fits(a, b),
                forall|e: EntityId| a.contains_key(e) ==> fits_i32(a[e].0) && fits_i32(a[e].1),
        {
            let (entity_id, side_effect) = entry;
            let ghost j = it.index();
            proof {
                broadcast use vstd::std_specs::btree::group_btree_axioms;
                assert(entry == entries[j]);
                assert(second_change.map@.contains_key(*entries[j].0));
                assert(!keys.contains(*entity_id)) by {
                    if keys.contains(*entity_id) {
                        let j2 = choose|j2: int| 0 <= j2 < j && *entries[j2].0 == *entity_id;
                        assert(second_change.map@.contains_key(*entries[j2].0));
                        assert(entries[j2] == entries[j]);
                    }
                }
                assert(b[*entity_id] == side_effect.pair());
                assert(b.contains_key(*entity_id));
                assert(merged(a, b.restrict(keys.insert(*entity_id))) =~= merged(a, b.restrict(keys)).insert(
                    *entity_id,
                    (base(a, *entity_id).0 + b[*entity_id].0, base(a, *entity_id).1 + b[*entity_id].1),
                ));
            }
            match acc.get(*entity_id) {
                Some(v) => {
                    let mut v = v;
                    v.add_assign(*side_effect);
                    acc.put(*entity_id, v);
                },
                None => {
                    acc.put(*entity_id, *side_effect);
                },
            }
            proof {
                keys = keys.insert(*entity_id);
            }
        }
        proof {
            broadcast use vstd::std_specs::btree::group_btree_axioms;
            assert forall|k: EntityId| b.dom().contains(k) implies keys.contains(k) by {
                assert(second_change.map@.contains_key(k));
                assert(entries.contains((&k, &second_change.map@[k])));
                let j = choose|j: int| 0 <= j < entries.len() && entries[j] == (&k, &second_change.map@[k]);
                assert(*entries[j].0 == k);
                assert(keys.contains(*entries[j].0));
            }
            assert(b.restrict(keys) =~= b);
        }
        acc
    }
}

/// Adds up both optional side effects, entity by entity, into one net side effect per entity.
pub fn calculate_updated_inbound_rcs_delta(
    first_reference_counter_side_effects: Option<ReferenceCounterSideEffects>,
    second_reference_counter_side_effects: Option<ReferenceCounterSideEffects>,
) -> (r: Option<ReferenceCounterSideEffects>)
    requires
        match (first_reference_counter_side_effects, second_reference_counter_side_effects) {
            (Some(x), Some(y)) => merged_fits(x@, y@),
            _ => true,
        },
    ensures
        opt_view(r) == merged_opt(
            opt_view(first_reference_counter_side_effects),
            opt_view(second_reference_counter_side_effects),
        ),
{
    match (first_reference_counter_side_effects, second_reference_counter_side_effects) {
        (Some(first), Some(second)) => Some(first.update(second)),
        (Some(first), None) => Some(first),
        (None, Some(second)) => Some(second),
        (None, None) => None,
    }
}

/// What the content directory reads of a class property: its name, whether a value is required,
/// and whether an entity that a value refers to must share the controller of the referring one.
pub struct Property {
    pub name: Vec<u8>,
    pub required: bool,
    pub same_controller: bool,
}

/// The view of a class property.
pub struct PropertyView {
    pub name: Seq<u8>,
    pub required: bool,
    pub same_controller: bool,
}

impl View for Property {
    type V = PropertyView;

    open spec fn view(&self) -> PropertyView {
        PropertyView { name: self.name@, required: self.required, same_controller: self.same_controller }
    }
}

impl Property {
    /// Whether an entity that a value of this property refers to must share the controller of
    /// the referring entity.
    pub fn same_controller_status(&self) -> (b: bool)
        ensures
            b == self.same_controller,
    {
        self.same_controller
    }
}

/// The views of the properties of a class.
pub open spec fn properties_view(v: Vec<Property>) -> Seq<PropertyView> {
    v@.map_values(|p: Property| p@)
}

/// The views of stored property values, by property.
pub open spec fn stored_values_view(m: BTreeMap<PropertyId, StoredPropertyValue>) -> Map<PropertyId, Option<Seq<EntityId>>> {
    m@.map_values(|v: StoredPropertyValue| v@)
}

/// Every ID in `keys` names one of `n` properties.
pub open spec fn keys_known(n: nat, keys: Set<PropertyId>) -> bool {
    forall|k: PropertyId| #[trigger] keys.contains(k) ==> k < n
}

/// Stored values paired with their properties.
pub open spec fn with_properties(props: Seq<PropertyView>, vals: Map<PropertyId, Option<Seq<EntityId>>>) -> Map<
    PropertyId,
    (bool, Option<Seq<EntityId>>),
> {
    Map::new(|k: PropertyId| vals.contains_key(k), |k: PropertyId| (props[k as int].same_controller, vals[k]))
}

/// Pairs each stored value with the property of the class under its ID; fails where an ID names
/// no property of the class.
pub fn stored_values_for_existing_properties(
    properties: &Vec<Property>,
    property_values: &BTreeMap<PropertyId, StoredPropertyValue>,
) -> (r: Result<BTreeMap<PropertyId, StoredValueForExistingProperty>, ContentDirectoryError>)
    ensures
        match r {
            Ok(m) => keys_known(properties.len() as nat, property_values@.dom()) && values_view(m) == with_properties(
                properties_view(*properties),
                stored_values_view(*property_values),
            ),
            Err(e) => e == ContentDirectoryError::ClassPropNotFound && !keys_known(
                properties.len() as nat,
                property_values@.dom(),
            ),
        },
{
    let ghost props = properties_view(*properties);
    let ghost vals = stored_values_view(*property_values);
    let ghost entries = vstd::std_specs::btree::spec_btree_map_iter(property_values).remaining();
    let ghost mut keys: Set<PropertyId> = Set::empty();
    let mut result: BTreeMap<PropertyId, StoredValueForExistingProperty> = BTreeMap::new();
    let iter = property_values.iter();
    proof {
        broadcast use vstd::std_specs::btree::group_btree_axioms;
        assert(entries.no_duplicates());
        assert(values_view(result) =~= with_properties(props, vals.restrict(keys)));
    }
    for entry in it: iter
        invariant
            entries.no_duplicates(),
            props == properties_view(*properties),
            vals == stored_values_view(*property_values),
            entries == vstd::std_specs::btree::spec_btree_map_iter(property_values).remaining(),
            it.seq() == entries,
            keys.subset_of(vals.dom()),
            keys_known(properties.len() as nat, keys),
            forall|j: int| 0 <= j < it.index() ==> #[trigger] keys.contains(*entries[j].0),
            forall|k: PropertyId| keys.contains(k) ==> exists|j: int| 0 <= j < it.index() && *entries[j].0 == k,
            values_view(result) == with_properties(props, vals.restrict(keys)),
    {
        let (property_id, property_value) = entry;
        let ghost j = it.index();
        proof {
            broadcast use vstd::std_specs::btree::group_btree_axioms;
            assert(entry == entries[j]);
            assert(property_values@.contains_key(*entries[j].0));
        }
        let index = *property_id as usize;
        if index >= properties.len() {
            proof {
                assert(property_values@.dom().contains(*property_id));
            }
            return Err(ContentDirectoryError::ClassPropNotFound);
        }
        let value = StoredValueForExistingProperty {
            same_controller_status: properties[index].same_controller_status(),
            value: property_value.duplicate(),
        };
        let ghost prev = result@;
        result.insert(*property_id, value);
        proof {
            assert(vals[*property_id] == property_value@);
            assert(result@.map_values(|v: StoredValueForExistingProperty| v@) =~= prev.map_values(
                |v: StoredValueForExistingProperty| v@,
            ).insert(*property_id, value@));
            assert(with_properties(props, vals.restrict(keys.insert(*property_id))) =~= with_properties(
                props,
                vals.restrict(keys),
            ).insert(*property_id, value@));
            keys = keys.insert(*property_id);
        }
    }
    proof {
        broadcast use vstd::std_specs::btree::group_btree_axioms;
        assert forall|k: PropertyId| vals.dom().contains(k) implies keys.contains(k) by {
            assert(property_values@.contains_key(k));
            assert(entries.contains((&k, &property_values@[k])));
            let j = choose|j: int| 0 <= j < entries.len() && entries[j] == (&k, &property_values@[k]);
            assert(*entries[j].0 == k);
            assert(keys.contains(*entries[j].0));
        }
        assert(vals.restrict(keys) =~= vals);
        assert(vals.dom() =~= property_values@.dom());
    }
    Ok(result)
}

/// The stored values under the IDs that `new_values` has.
fn values_to_update(
    entity_property_values: &BTreeMap<PropertyId, StoredPropertyValue>,
    new_values: &BTreeMap<PropertyId, StoredPropertyValue>,
) -> (r: BTreeMap<PropertyId, StoredPropertyValue>)
    ensures
        stored_values_view(r) == stored_values_view(*entity_property_values).restrict(new_values@.dom()),
{
    let ghost vals = stored_values_view(*entity_property_values);
    let ghost wanted = new_values@.dom();
    let ghost entries = vstd::std_specs::btree::spec_btree_map_iter(entity_property_values).remaining();
    let ghost mut keys: Set<PropertyId> = Set::empty();
    let mut result: BTreeMap<PropertyId, StoredPropertyValue> = BTreeMap::new();
    let iter = entity_property_values.iter();
    proof {
        broadcast use vstd::std_specs::btree::group_btree_axioms;
        assert(entries.no_duplicates());
        assert(stored_values_view(result) =~= vals.restrict(keys.intersect(wanted)));
    }
    for entry in it: iter
        invariant
            entries.no_duplicates(),
            vals == stored_values_view(*entity_property_values),
            wanted == new_values@.dom(),
            entries == vstd::std_specs::btree::spec_btree_map_iter(entity_property_values).remaining(),
            it.seq() == entries,
            keys.subset_of(vals.dom()),
            forall|j: int| 0 <= j < it.index() ==> #[trigger] keys.contains(*entries[j].0),
            forall|k: PropertyId| keys.contains(k) ==> exists|j: int| 0 <= j < it.index() && *entries[j].0 == k,
            stored_values_view(result) == vals.restrict(keys.intersect(wanted)),
    {
        let (property_id, property_value) = entry;
        let ghost j = it.index();
        proof {
            broadcast use vstd::std_specs::btree::group_btree_axioms;
            assert(entry == entries[j]);
            assert(entity_property_values@.contains_key(*entries[j].0));
            assert(vals[*property_id] == property_value@);
        }
        if new_values.contains_key(property_id) {
            let value = property_value.duplicate();
            let ghost prev = result@;
            result.insert(*property_id, value);
            proof {
                assert(result@.map_values(|v: StoredPropertyValue| v@) =~= prev.map_values(
                    |v: StoredPropertyValue| v@,
                ).insert(*property_id, value@));
                assert(vals.restrict(keys.insert(*property_id).intersect(wanted)) =~= vals.restrict(
                    keys.intersect(wanted),
                ).insert(*property_id, value@));
            }
        } else {
            proof {
                assert(vals.restrict(keys.insert(*property_id).intersect(wanted)) =~= vals.restrict(
                    keys.intersect(wanted),
                ));
            }
        }
        proof {
            keys = keys.insert(*property_id);
        }
    }
    proof {
        broadcast use vstd::std_specs::btree::group_btree_axioms;
        assert forall|k: PropertyId| vals.dom().contains(k) implies keys.contains(k) by {
            assert(entity_property_values@.contains_key(k));
            assert(entries.contains((&k, &entity_property_values@[k])));
            let j = choose|j: int| 0 <= j < entries.len() && entries[j] == (&k, &entity_property_values@[k]);
            assert(*entries[j].0 == k);
            assert(keys.contains(*entries[j].0));
        }
        assert(vals.restrict(keys.intersect(wanted)) =~= vals.restrict(wanted));
    }
    result
}

/// The net side effects of replacing the entity's values under the IDs of
/// `new_output_property_values` by those values: the references of the replaced values are
/// counted down, those of the new values up, both with the properties of the class.
pub open spec fn updated_inbound_rcs_delta(
    props: Seq<PropertyView>,
    entity_values: Map<PropertyId, Option<Seq<EntityId>>>,
    new_values: Map<PropertyId, Option<Seq<EntityId>>>,
    current: EntityId,
) -> Option<Map<EntityId, (int, int)>> {
    merged_opt(
        inbound_rcs_delta(with_properties(props, entity_values.restrict(new_values.dom())), current, DeltaMode::Decrement),
        inbound_rcs_delta(with_properties(props, new_values), current, DeltaMode::Increment),
    )
}

/// The references that the values make are few enough to be counted in an `i32`.
pub open spec fn references_countable(vals: Map<PropertyId, (bool, Option<Seq<EntityId>>)>, current: EntityId) -> bool {
    forall|e: EntityId| #[trigger] inbound_references(vals, current, e, false) <= i32::MAX
}

/// The side effects of references counted in one direction have that direction's sign, and the
/// same owner part is at most the total.
proof fn lemma_rcs_delta_signs(vals: Map<PropertyId, (bool, Option<Seq<EntityId>>)>, current: EntityId, mode: DeltaMode)
    requires
        vals.dom().finite(),
        references_countable(vals, current),
    ensures
        forall|e: EntityId| #[trigger]
            rcs_delta_over(vals, vals.dom(), current, mode).contains_key(e) ==> {
                let v = rcs_delta_over(vals, vals.dom(), current, mode)[e];
                match mode {
                    DeltaMode::Increment => 0 <= v.1 <= v.0 <= i32::MAX,
                    DeltaMode::Decrement => -i32::MAX <= v.0 <= v.1 <= 0,
                }
            },
{
    assert forall|e: EntityId| #[trigger]
        rcs_delta_over(vals, vals.dom(), current, mode).contains_key(e) implies {
            let v = rcs_delta_over(vals, vals.dom(), current, mode)[e];
            match mode {
                DeltaMode::Increment => 0 <= v.1 <= v.0 <= i32::MAX,
                DeltaMode::Decrement => -i32::MAX <= v.0 <= v.1 <= 0,
            }
        } by {
        assert(inbound_references(vals, current, e, false) <= i32::MAX);
        lemma_same_owner_references_bounded(vals, vals.dom(), current, e);
    }
}

/// The side effects on inbound reference counters of updating the entity's values under the IDs
/// of `new_output_property_values` with those values; fails where such an ID names no property
/// of the class.
pub fn get_updated_inbound_rcs_delta(
    current_entity_id: EntityId,
    class_properties: &Vec<Property>,
    entity_property_values: &BTreeMap<PropertyId, StoredPropertyValue>,
    new_output_property_values: &BTreeMap<PropertyId, StoredPropertyValue>,
) -> (r: Result<Option<ReferenceCounterSideEffects>, ContentDirectoryError>)
    requires
        keys_known(class_properties.len() as nat, new_output_property_values@.dom()) ==> {
            &&& references_countable(
                with_properties(
                    properties_view(*class_properties),
                    stored_values_view(*entity_property_values).restrict(new_output_property_values@.dom()),
                ),
                current_entity_id,
            )
            &&& references_countable(
                with_properties(properties_view(*class_properties), stored_values_view(*new_output_property_values)),
                current_entity_id,
            )
        },
    ensures
        match r {
            Ok(x) => keys_known(class_properties.len() as nat, new_output_property_values@.dom()) && opt_view(x)
                == updated_inbound_rcs_delta(
                properties_view(*class_properties),
                stored_values_view(*entity_property_values),
                stored_values_view(*new_output_property_values),
                current_entity_id,
            ),
            Err(e) => e == ContentDirectoryError::ClassPropNotFound && !keys_known(
                class_properties.len() as nat,
                new_output_property_values@.dom(),
            ),
        },
{
    let ghost props = properties_view(*class_properties);
    let ghost n = class_properties.len() as nat;
    let entity_property_values_to_update = values_to_update(entity_property_values, new_output_property_values);
    let stored_values_to_update = match stored_values_for_existing_properties(
        class_properties,
        &entity_property_values_to_update,
    ) {
        Ok(values) => values,
        Err(e) => {
            proof {
                let k = choose|k: PropertyId| #[trigger]
                    entity_property_values_to_update@.dom().contains(k) && !(k < n);
                assert(stored_values_view(entity_property_values_to_update).dom().contains(k));
                assert(new_output_property_values@.dom().contains(k));
            }
            return Err(e);
        },
    };
    let new_stored_values = match stored_values_for_existing_properties(class_properties, new_output_property_values) {
        Ok(values) => values,
        Err(e) => {
            return Err(e);
        },
    };
    proof {
        broadcast use vstd::std_specs::btree::group_btree_axioms;
        assert(stored_values_view(*new_output_property_values).dom() =~= new_output_property_values@.dom());
        assert(stored_values_to_update@.dom().finite());
        assert(new_stored_values@.dom().finite());
        assert(values_view(stored_values_to_update).dom() =~= stored_values_to_update@.dom());
        assert(values_view(new_stored_values).dom() =~= new_stored_values@.dom());
    }
    let decremental_reference_counter_side_effects = calculate_entities_inbound_rcs_delta(
        current_entity_id,
        &stored_values_to_update,
        DeltaMode::Decrement,
    );
    let incremental_reference_counter_side_effects = calculate_entities_inbound_rcs_delta(
        current_entity_id,
        &new_stored_values,
        DeltaMode::Increment,
    );
    proof {
        lemma_rcs_delta_signs(values_view(stored_values_to_update), current_entity_id, DeltaMode::Decrement);
        lemma_rcs_delta_signs(values_view(new_stored_values), current_entity_id, DeltaMode::Increment);
    }
    Ok(calculate_updated_inbound_rcs_delta(
        decremental_reference_counter_side_effects,
        incremental_reference_counter_side_effects,
    ))
}

/// The side effects of clearing a vector property value: one reference fewer to each entity in
/// the vector, per occurrence; `None` where the vector refers to no entity.
pub fn make_side_effects_for_clear_property_vector_operation(
    property_value_vector: &StoredPropertyValue,
    property: &Property,
) -> (r: Option<ReferenceCounterSideEffects>)
    requires
        match property_value_vector@ {
            Some(ids) => counted_fits(Map::empty(), ids, property.same_controller, DeltaMode::Decrement),
            None => true,
        },
    ensures
        opt_view(r) == match property_value_vector@ {
            Some(ids) => if ids.len() == 0 {
                None
            } else {
                Some(counted(Map::empty(), ids, property.same_controller, DeltaMode::Decrement))
            },
            None => None,
        },
{
    match property_value_vector.get_involved_entities() {
        Some(entity_ids_to_decrease_rcs) => {
            let same_controller_status = property.same_controller_status();
            let ghost ids = entity_ids_to_decrease_rcs@;
            let entities_inbound_rcs_delta = perform_entities_inbound_rcs_delta_calculation(
                ReferenceCounterSideEffects::new(),
                entity_ids_to_decrease_rcs,
                same_controller_status,
                DeltaMode::Decrement,
            );
            proof {
                if ids.len() > 0 {
                    assert(entities_inbound_rcs_delta@.contains_key(ids[0]));
                }
            }
            if !entities_inbound_rcs_delta.is_empty() {
                Some(entities_inbound_rcs_delta)
            } else {
                None
            }
        },
        None => None,
    }
}

} // verus!
