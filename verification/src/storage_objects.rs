use vstd::prelude::*;
use std::collections::{BTreeMap, BTreeSet};
use vstd::std_specs::iter::IteratorSpec;

use crate::storage_state::{find_object, has_id, ids_below, objects_view, unique_ids};
use crate::storage_types::{DataObject, DataObjectView, DistributionBucketRecord, StorageBucketRecord};

verus! {

/// The position of the entry stored under `id` (meaningful when the list holds `id`).
pub open spec fn index_of(s: Seq<(u64, DataObjectView)>, id: u64) -> int {
    choose|i: int| 0 <= i < s.len() && s[i].0 == id
}

/// The list with `o` stored under `id`: replaces the entry under `id`, or appends a new one.
pub open spec fn put_object(s: Seq<(u64, DataObjectView)>, id: u64, o: DataObjectView) -> Seq<(u64, DataObjectView)> {
    if has_id(s, id) {
        s.update(index_of(s, id), (id, o))
    } else {
        s.push((id, o))
    }
}

/// Stores `objs` one after the other under the IDs counted from `next` (the counter saturates);
/// returns the list and the next free ID.
pub open spec fn insert_objects(s: Seq<(u64, DataObjectView)>, next: u64, objs: Seq<DataObjectView>) -> (Seq<
    (u64, DataObjectView),
>, u64)
    decreases objs.len(),
{
    if objs.len() == 0 {
        (s, next)
    } else {
        let prev = insert_objects(s, next, objs.drop_last());
        (put_object(prev.0, prev.1, objs.last()), prev.1.saturating_add(1))
    }
}

/// The list without the entries stored under the given IDs.
pub open spec fn remove_ids(s: Seq<(u64, DataObjectView)>, ids: Set<u64>) -> Seq<(u64, DataObjectView)> {
    s.filter(|e: (u64, DataObjectView)| !ids.contains(e.0))
}

/// Storing an object keeps IDs distinct.
pub proof fn lemma_put_object_unique(s: Seq<(u64, DataObjectView)>, id: u64, o: DataObjectView)
    requires
        unique_ids(s),
    ensures
        unique_ids(put_object(s, id, o)),
        has_id(put_object(s, id, o), id),
{
    if has_id(s, id) {
        let i = index_of(s, id);
        let t = put_object(s, id, o);
        assert(t[i].0 == id);
    } else {
        let t = put_object(s, id, o);
        assert(t[s.len() as int].0 == id);
    }
}

/// Storing objects keeps IDs distinct.
pub proof fn lemma_insert_objects_unique(s: Seq<(u64, DataObjectView)>, next: u64, objs: Seq<DataObjectView>)
    requires
        unique_ids(s),
    ensures
        unique_ids(insert_objects(s, next, objs).0),
    decreases objs.len(),
{
    if objs.len() > 0 {
        lemma_insert_objects_unique(s, next, objs.drop_last());
        let prev = insert_objects(s, next, objs.drop_last());
        lemma_put_object_unique(prev.0, prev.1, objs.last());
    }
}

/// Removing entries keeps IDs distinct.
pub proof fn lemma_remove_ids_unique(s: Seq<(u64, DataObjectView)>, ids: Set<u64>)
    requires
        unique_ids(s),
    ensures
        unique_ids(remove_ids(s, ids)),
    decreases s.len(),
{
    reveal(Seq::filter);
    if s.len() > 0 {
        let pred = |e: (u64, DataObjectView)| !ids.contains(e.0);
        let d = s.drop_last();
        assert(unique_ids(d));
        lemma_remove_ids_unique(d, ids);
        let f = remove_ids(d, ids);
        if pred(s.last()) {
            assert forall|j: int| 0 <= j < f.len() implies f[j].0 != s.last().0 by {
                assert(d.filter(pred).contains(f[j]));
                d.lemma_filter_contains_rev(pred, f[j]);
                let k = choose|k: int| 0 <= k < d.len() && d[k] == f[j];
                assert(s[k] == d[k]);
            }
            let t = f.push(s.last());
            assert(remove_ids(s, ids) == t);
        }
    }
}

/// A larger bound still bounds the IDs.
pub proof fn lemma_ids_below_mono(s: Seq<(u64, DataObjectView)>, b: u64, b2: u64)
    requires
        ids_below(s, b),
        b <= b2,
    ensures
        ids_below(s, b2),
{
}

/// Storing an object under an ID below the bound keeps the IDs below it.
pub proof fn lemma_put_object_below(s: Seq<(u64, DataObjectView)>, id: u64, o: DataObjectView, b: u64)
    requires
        ids_below(s, b),
        id < b || b == u64::MAX,
    ensures
        ids_below(put_object(s, id, o), b),
{
    if b != u64::MAX {
        let t = put_object(s, id, o);
        assert forall|i: int| 0 <= i < t.len() implies t[i].0 < b by {
            if i < s.len() {
                if t[i] != s[i] {
                    assert(t[i].0 == id);
                }
            }
        }
    }
}

/// Removing entries keeps the IDs below the bound.
pub proof fn lemma_remove_ids_below(s: Seq<(u64, DataObjectView)>, ids: Set<u64>, b: u64)
    requires
        ids_below(s, b),
    ensures
        ids_below(remove_ids(s, ids), b),
{
    if b != u64::MAX {
        let pred = |e: (u64, DataObjectView)| !ids.contains(e.0);
        let t = remove_ids(s, ids);
        assert forall|i: int| 0 <= i < t.len() implies t[i].0 < b by {
            assert(s.filter(pred).contains(t[i]));
            s.lemma_filter_contains_rev(pred, t[i]);
        }
    }
}

/// Storing objects under the counter keeps the IDs below the advanced counter, which never
/// goes back.
pub proof fn lemma_insert_objects_below(s: Seq<(u64, DataObjectView)>, next: u64, objs: Seq<DataObjectView>)
    requires
        ids_below(s, next),
    ensures
        ids_below(insert_objects(s, next, objs).0, insert_objects(s, next, objs).1),
        insert_objects(s, next, objs).1 >= next,
    decreases objs.len(),
{
    if objs.len() > 0 {
        lemma_insert_objects_below(s, next, objs.drop_last());
        let prev = insert_objects(s, next, objs.drop_last());
        let nb = prev.1.saturating_add(1);
        lemma_ids_below_mono(prev.0, prev.1, nb);
        lemma_put_object_below(prev.0, prev.1, objs.last(), nb);
    }
}

/// Stores `obj` under `id` in a list of entries.
pub fn put_object_exec(list: &mut Vec<(u64, DataObject)>, id: u64, obj: DataObject)
    requires
        unique_ids(objects_view(old(list)@)),
    ensures
        objects_view(final(list)@) == put_object(objects_view(old(list)@), id, obj@),
{
    let ghost s = objects_view(list@);
    let ghost o = obj@;
    match find_object(list, id) {
        Some(i) => {
            proof {
                assert(s[i as int].0 == id);
                assert(has_id(s, id));
                let c = index_of(s, id);
                assert(c == i);
            }
            list.set(i, (id, obj));
            proof {
                assert(objects_view(list@) =~= s.update(i as int, (id, o)));
            }
        },
        None => {
            proof {
                assert(!has_id(s, id)) by {
                    if has_id(s, id) {
                        let c = choose|c: int| 0 <= c < s.len() && s[c].0 == id;
                        assert(list@[c].0 == id);
                    }
                }
            }
            list.push((id, obj));
            proof {
                assert(objects_view(list@) =~= s.push((id, o)));
            }
        },
    }
}

/// The list without the entries stored under the given IDs.
pub fn remove_ids_exec(list: &Vec<(u64, DataObject)>, ids: &BTreeSet<u64>) -> (r: Vec<(u64, DataObject)>)
    ensures
        objects_view(r@) == remove_ids(objects_view(list@), ids@),
{
    let ghost s = objects_view(list@);
    let ghost pred = |e: (u64, DataObjectView)| !ids@.contains(e.0);
    let mut r: Vec<(u64, DataObject)> = Vec::new();
    let mut i: usize = 0;
    while i < list.len()
        invariant
            s == objects_view(list@),
            pred == (|e: (u64, DataObjectView)| !ids@.contains(e.0)),
            i <= list@.len(),
            objects_view(r@) == s.take(i as int).filter(pred),
        decreases list@.len() - i,
    {
        let id: u64 = list[i].0;
        proof {
            reveal(Seq::filter);
            assert(s.take(i + 1).drop_last() =~= s.take(i as int));
            assert(s.take(i + 1).last() == s[i as int]);
        }
        if !ids.contains(&id) {
            let o = list[i].1.copy();
            let ghost prev = r@;
            r.push((id, o));
            proof {
                assert(objects_view(r@) =~= objects_view(prev).push(s[i as int]));
            }
        }
        i = i + 1;
    }
    proof {
        assert(s.take(s.len() as int) =~= s);
    }
    r
}

/// The IDs of a map of storage buckets.
pub fn storage_bucket_ids(m: &BTreeMap<u64, StorageBucketRecord>) -> (r: BTreeSet<u64>)
    ensures
        r@ == m@.dom(),
{
    let ghost v = vstd::std_specs::btree::spec_btree_map_iter(m).remaining();
    let mut r: BTreeSet<u64> = BTreeSet::new();
    for e in it: m.iter()
        invariant
            v == vstd::std_specs::btree::spec_btree_map_iter(m).remaining(),
            it.seq() == v,
            forall|k: u64| r@.contains(k) <==> exists|j: int| 0 <= j < it.index() && *v[j].0 == k,
    {
        let (k, _) = e;
        r.insert(*k);
    }
    proof {
        assert forall|k: u64| r@.contains(k) <==> m@.dom().contains(k) by {
            if m@.dom().contains(k) {
                assert(v.contains((&k, &m@[k])));
                let j = choose|j: int| 0 <= j < v.len() && v[j] == (&k, &m@[k]);
                assert(*v[j].0 == k);
            }
            if r@.contains(k) {
                let j = choose|j: int| 0 <= j < v.len() && *v[j].0 == k;
                assert(m@.contains_key(*v[j].0));
            }
        }
        assert(r@ =~= m@.dom());
    }
    r
}

/// The IDs of a map of distribution buckets.
pub fn distribution_bucket_ids(m: &BTreeMap<(u64, u64), DistributionBucketRecord>) -> (r: BTreeSet<(u64, u64)>)
    ensures
        r@ == m@.dom(),
{
    let ghost v = vstd::std_specs::btree::spec_btree_map_iter(m).remaining();
    let mut r: BTreeSet<(u64, u64)> = BTreeSet::new();
    for e in it: m.iter()
        invariant
            v == vstd::std_specs::btree::spec_btree_map_iter(m).remaining(),
            it.seq() == v,
            forall|k: (u64, u64)| r@.contains(k) <==> exists|j: int| 0 <= j < it.index() && *v[j].0 == k,
    {
        let (k, _) = e;
        r.insert(*k);
    }
    proof {
        assert forall|k: (u64, u64)| r@.contains(k) <==> m@.dom().contains(k) by {
            if m@.dom().contains(k) {
                assert(v.contains((&k, &m@[k])));
                let j = choose|j: int| 0 <= j < v.len() && v[j] == (&k, &m@[k]);
                assert(*v[j].0 == k);
            }
            if r@.contains(k) {
                let j = choose|j: int| 0 <= j < v.len() && *v[j].0 == k;
                assert(m@.contains_key(*v[j].0));
            }
        }
        assert(r@ =~= m@.dom());
    }
    r
}

} // verus!
