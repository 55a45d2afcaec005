use vstd::prelude::*;
use std::collections::BTreeSet;

use crate::primitives::DataObjectId;
use crate::sorted::{ascending, ascending_vec, lemma_take_all};
use crate::storage_errors::StorageError;
use crate::storage_objects::{
    lemma_put_object_below, lemma_put_object_unique, lemma_remove_ids_below, lemma_remove_ids_unique, put_object,
    put_object_exec, remove_ids, remove_ids_exec,
};
use crate::storage_state::{StorageState, StorageStateView, find_object, has_id, ids_below, object_with_id, objects_view, unique_ids};
use crate::storage_mutation::take_objects;
use crate::storage_types::{BagIdType, BagUpdate, BagView, DataObject, DataObjectView, OperationType, VoucherUpdate};

verus! {

/// The bag change made of `objs`: their number, total size and total state bloat bond, each
/// added up with saturating additions.
pub open spec fn bag_update_of(objs: Seq<DataObjectView>) -> BagUpdate
    decreases objs.len(),
{
    if objs.len() == 0 {
        BagUpdate { voucher_update: VoucherUpdate { objects_number: 0, objects_total_size: 0 }, total_state_bloat_bond: 0 }
    } else {
        bag_update_of(objs.drop_last()).spec_add_object(objs.last().size, objs.last().state_bloat_bond)
    }
}

/// The two lists after the entries stored under `id` trade places: each list gets what the
/// other held under `id`, or loses its entry when the other held none.
pub open spec fn swap_entry(src: Seq<(u64, DataObjectView)>, dest: Seq<(u64, DataObjectView)>, id: u64) -> (
    Seq<(u64, DataObjectView)>,
    Seq<(u64, DataObjectView)>,
) {
    (
        if has_id(dest, id) {
            put_object(src, id, object_with_id(dest, id))
        } else {
            remove_ids(src, set![id])
        },
        if has_id(src, id) {
            put_object(dest, id, object_with_id(src, id))
        } else {
            remove_ids(dest, set![id])
        },
    )
}

/// The two lists after the entries under each of `ids`, in order, trade places.
pub open spec fn swap_entries(src: Seq<(u64, DataObjectView)>, dest: Seq<(u64, DataObjectView)>, ids: Seq<u64>) -> (
    Seq<(u64, DataObjectView)>,
    Seq<(u64, DataObjectView)>,
)
    decreases ids.len(),
{
    if ids.len() == 0 {
        (src, dest)
    } else {
        let prev = swap_entries(src, dest, ids.drop_last());
        swap_entry(prev.0, prev.1, ids.last())
    }
}

impl StorageStateView {
    /// The IDs of the data objects of a bag.
    pub open spec fn data_object_ids(self, bag_id: BagIdType) -> Set<u64> {
        Set::new(|id: u64| has_id((self.objects)(bag_id.spec_key()), id))
    }

    /// Validate the "move data objects between bags" operation: on success, the change that
    /// the moved objects make to the bags.
    pub open spec fn spec_validate_data_objects_on_moving(self, src: BagIdType, dest: BagIdType, ids: Set<u64>) -> Result<
        BagUpdate,
        StorageError,
    > {
        let s = (self.objects)(src.spec_key());
        if src == dest {
            Err(StorageError::SourceAndDestinationBagsAreEqual)
        } else if ids.is_empty() {
            Err(StorageError::DataObjectIdCollectionIsEmpty)
        } else if self.spec_ensure_bag_exists(src) is Err {
            Err(StorageError::DynamicBagDoesntExist)
        } else if self.spec_ensure_bag_exists(dest) is Err {
            Err(StorageError::DynamicBagDoesntExist)
        } else if exists|id: u64| ids.contains(id) && !has_id(s, id) {
            Err(StorageError::DataObjectDoesntExist)
        } else {
            let change = bag_update_of(ascending(ids).map_values(|id: u64| object_with_id(s, id)));
            match self.spec_check_buckets_for_overflow(self.bag(dest.spec_key()).stored_by, change.voucher_update) {
                Err(e) => Err(e),
                Ok(_) => Ok(change),
            }
        }
    }

    /// The state after the objects move: the object entries trade places, then the source bag
    /// and its buckets lose the change and the destination bag and its buckets gain it.
    pub open spec fn moved(self, src: BagIdType, dest: BagIdType, ids: Set<u64>, change: VoucherUpdate) -> StorageStateView {
        let sk = src.spec_key();
        let dk = dest.spec_key();
        let swapped = swap_entries((self.objects)(sk), (self.objects)(dk), ascending(ids));
        let after_swap = StorageStateView {
            objects: |k: (u64, u64)|
                if k == sk {
                    swapped.0
                } else if k == dk {
                    swapped.1
                } else {
                    (self.objects)(k)
                },
            ..self
        };
        after_swap.spec_change_storage_bucket_vouchers_for_bag(src, self.bag(sk).stored_by, change, OperationType::Decrease)
            .spec_change_storage_bucket_vouchers_for_bag(dest, self.bag(dk).stored_by, change, OperationType::Increase)
    }

    /// Move data objects to another bag: both bags must exist and the move must validate.
    pub open spec fn spec_move_data_objects(self, src: BagIdType, dest: BagIdType, ids: Set<u64>) -> Result<
        StorageStateView,
        StorageError,
    > {
        if self.spec_ensure_bag_exists(src) is Err {
            Err(StorageError::DynamicBagDoesntExist)
        } else if self.spec_ensure_bag_exists(dest) is Err {
            Err(StorageError::DynamicBagDoesntExist)
        } else {
            match self.spec_validate_data_objects_on_moving(src, dest, ids) {
                Err(e) => Err(e),
                Ok(change) => Ok(self.moved(src, dest, ids, change.voucher_update)),
            }
        }
    }
}

/// Swapping one entry keeps IDs distinct in both lists.
proof fn lemma_swap_entry_unique(src: Seq<(u64, DataObjectView)>, dest: Seq<(u64, DataObjectView)>, id: u64)
    requires
        unique_ids(src),
        unique_ids(dest),
    ensures
        unique_ids(swap_entry(src, dest, id).0),
        unique_ids(swap_entry(src, dest, id).1),
{
    lemma_put_object_unique(src, id, object_with_id(dest, id));
    lemma_put_object_unique(dest, id, object_with_id(src, id));
    lemma_remove_ids_unique(src, set![id]);
    lemma_remove_ids_unique(dest, set![id]);
}

/// Swapping entries keeps IDs distinct in both lists.
proof fn lemma_swap_entries_unique(src: Seq<(u64, DataObjectView)>, dest: Seq<(u64, DataObjectView)>, ids: Seq<u64>)
    requires
        unique_ids(src),
        unique_ids(dest),
    ensures
        unique_ids(swap_entries(src, dest, ids).0),
        unique_ids(swap_entries(src, dest, ids).1),
    decreases ids.len(),
{
    if ids.len() > 0 {
        lemma_swap_entries_unique(src, dest, ids.drop_last());
        let prev = swap_entries(src, dest, ids.drop_last());
        lemma_swap_entry_unique(prev.0, prev.1, ids.last());
    }
}

/// Swapping one entry keeps the IDs of both lists below the bound.
proof fn lemma_swap_entry_below(src: Seq<(u64, DataObjectView)>, dest: Seq<(u64, DataObjectView)>, id: u64, b: u64)
    requires
        ids_below(src, b),
        ids_below(dest, b),
    ensures
        ids_below(swap_entry(src, dest, id).0, b),
        ids_below(swap_entry(src, dest, id).1, b),
{
    if has_id(dest, id) {
        let j = choose|j: int| 0 <= j < dest.len() && dest[j].0 == id;
        lemma_put_object_below(src, id, object_with_id(dest, id), b);
    } else {
        lemma_remove_ids_below(src, set![id], b);
    }
    if has_id(src, id) {
        let j = choose|j: int| 0 <= j < src.len() && src[j].0 == id;
        lemma_put_object_below(dest, id, object_with_id(src, id), b);
    } else {
        lemma_remove_ids_below(dest, set![id], b);
    }
}

/// Swapping entries keeps the IDs of both lists below the bound.
proof fn lemma_swap_entries_below(src: Seq<(u64, DataObjectView)>, dest: Seq<(u64, DataObjectView)>, ids: Seq<u64>, b: u64)
    requires
        ids_below(src, b),
        ids_below(dest, b),
    ensures
        ids_below(swap_entries(src, dest, ids).0, b),
        ids_below(swap_entries(src, dest, ids).1, b),
    decreases ids.len(),
{
    if ids.len() > 0 {
        lemma_swap_entries_below(src, dest, ids.drop_last(), b);
        let prev = swap_entries(src, dest, ids.drop_last());
        lemma_swap_entry_below(prev.0, prev.1, ids.last(), b);
    }
}

/// A move keeps the state well formed.
pub proof fn lemma_move_keeps_wf(s: StorageStateView, src: BagIdType, dest: BagIdType, ids: Set<u64>)
    requires
        s.wf(),
        s.spec_move_data_objects(src, dest, ids) is Ok,
    ensures
        s.spec_move_data_objects(src, dest, ids)->Ok_0.wf(),
{
    let sk = src.spec_key();
    let dk = dest.spec_key();
    if sk == dk {
        crate::storage_types::lemma_bag_key_injective(src, dest);
    }
    let s_src = (s.objects)(sk);
    let s_dest = (s.objects)(dk);
    assert(unique_ids(s_src));
    assert(unique_ids(s_dest));
    assert(ids_below(s_src, s.next_data_object_id));
    assert(ids_below(s_dest, s.next_data_object_id));
    lemma_swap_entries_unique(s_src, s_dest, ascending(ids));
    lemma_swap_entries_below(s_src, s_dest, ascending(ids), s.next_data_object_id);
    let s1 = s.spec_move_data_objects(src, dest, ids)->Ok_0;
    assert forall|k: (u64, u64)| #[trigger] unique_ids((s1.objects)(k)) by {
        if k != sk && k != dk {
            assert(unique_ids((s.objects)(k)));
        }
    }
    assert forall|k: (u64, u64)| #[trigger] ids_below((s1.objects)(k), s1.next_data_object_id) by {
        if k != sk && k != dk {
            assert(ids_below((s.objects)(k), s.next_data_object_id));
        }
    }
}

/// The entries under `id` of two lists trade places.
fn swap_entry_exec(src: Vec<(u64, DataObject)>, dest: Vec<(u64, DataObject)>, id: u64) -> (r: (
    Vec<(u64, DataObject)>,
    Vec<(u64, DataObject)>,
))
    requires
        unique_ids(objects_view(src@)),
        unique_ids(objects_view(dest@)),
    ensures
        (objects_view(r.0@), objects_view(r.1@)) == swap_entry(objects_view(src@), objects_view(dest@), id),
{
    let ghost s = objects_view(src@);
    let ghost d = objects_view(dest@);
    let in_src = find_object(&src, id);
    let in_dest = find_object(&dest, id);
    let from_src: Option<DataObject> = match in_src {
        Some(i) => Some(src[i].1.copy()),
        None => None,
    };
    let from_dest: Option<DataObject> = match in_dest {
        Some(j) => Some(dest[j].1.copy()),
        None => None,
    };
    proof {
        match in_src {
            Some(i) => {
                assert(s[i as int].0 == id);
                assert(has_id(s, id));
                let c = choose|c: int| 0 <= c < s.len() && s[c].0 == id;
                assert(c == i);
            },
            None => {
                assert(!has_id(s, id)) by {
                    if has_id(s, id) {
                        let c = choose|c: int| 0 <= c < s.len() && s[c].0 == id;
                        assert(src@[c].0 == id);
                    }
                }
            },
        }
        match in_dest {
            Some(j) => {
                assert(d[j as int].0 == id);
                assert(has_id(d, id));
                let c = choose|c: int| 0 <= c < d.len() && d[c].0 == id;
                assert(c == j);
            },
            None => {
                assert(!has_id(d, id)) by {
                    if has_id(d, id) {
                        let c = choose|c: int| 0 <= c < d.len() && d[c].0 == id;
                        assert(dest@[c].0 == id);
                    }
                }
            },
        }
    }
    let mut only: BTreeSet<u64> = BTreeSet::new();
    only.insert(id);
    proof {
        assert(only@ =~= set![id]);
    }
    let new_src = match from_dest {
        Some(o) => {
            let mut l = src;
            put_object_exec(&mut l, id, o);
            l
        },
        None => remove_ids_exec(&src, &only),
    };
    let new_dest = match from_src {
        Some(o) => {
            let mut l = dest;
            put_object_exec(&mut l, id, o);
            l
        },
        None => remove_ids_exec(&dest, &only),
    };
    (new_src, new_dest)
}

impl StorageState {
    /// Get all object IDs of a bag, without checking its existence.
    pub fn get_data_objects_id(&self, bag_id: &BagIdType) -> (r: BTreeSet<DataObjectId>)
        ensures
            r@ == self@.data_object_ids(*bag_id),
    {
        let key = bag_id.key();
        let ghost s = (self@.objects)(key);
        let mut r: BTreeSet<u64> = BTreeSet::new();
        match self.data_objects.get(&key) {
            None => {
                proof {
                    assert(r@ =~= self@.data_object_ids(*bag_id));
                }
            },
            Some(list) => {
                let mut i: usize = 0;
                while i < list.len()
                    invariant
                        s == objects_view(list@),
                        i <= list@.len(),
                        forall|id: u64| r@.contains(id) <==> exists|j: int| 0 <= j < i && s[j].0 == id,
                    decreases list@.len() - i,
                {
                    r.insert(list[i].0);
                    proof {
                        assert forall|id: u64| r@.contains(id) <==> exists|j: int| 0 <= j < i + 1 && s[j].0 == id by {
                            if id == list@[i as int].0 {
                                assert(s[i as int].0 == id);
                            }
                        }
                    }
                    i = i + 1;
                }
                proof {
                    assert(r@ =~= self@.data_object_ids(*bag_id));
                }
            },
        }
        r
    }

    /// Validate the "move data objects between bags" operation data; on success, the change
    /// that the moved objects make to the bags.
    pub fn validate_data_objects_on_moving(
        &self,
        src_bag_id: &BagIdType,
        dest_bag_id: &BagIdType,
        object_ids: &BTreeSet<DataObjectId>,
    ) -> (r: Result<BagUpdate, StorageError>)
        requires
            self@.wf(),
        ensures
            r == self@.spec_validate_data_objects_on_moving(*src_bag_id, *dest_bag_id, object_ids@),
    {
        if *src_bag_id == *dest_bag_id {
            return Err(StorageError::SourceAndDestinationBagsAreEqual);
        }
        if object_ids.is_empty() {
            return Err(StorageError::DataObjectIdCollectionIsEmpty);
        }
        if let Err(e) = self.ensure_bag_exists(src_bag_id) {
            return Err(e);
        }
        let dest_bag = match self.ensure_bag_exists(dest_bag_id) {
            Err(e) => return Err(e),
            Ok(b) => b,
        };
        let ghost s = (self@.objects)(src_bag_id.spec_key());
        let ghost pick = |id: u64| object_with_id(s, id);
        let q = ascending_vec(object_ids);
        let mut bag_change = BagUpdate::default();
        let mut i: usize = 0;
        while i < q.len()
            invariant
                self@.wf(),
                *src_bag_id != *dest_bag_id,
                !object_ids@.is_empty(),
                self@.spec_ensure_bag_exists(*src_bag_id) is Ok,
                self@.spec_ensure_bag_exists(*dest_bag_id) is Ok,
                s == (self@.objects)(src_bag_id.spec_key()),
                pick == (|id: u64| object_with_id(s, id)),
                q@ == ascending(object_ids@),
                q@.to_set() == object_ids@,
                i <= q@.len(),
                forall|j: int| 0 <= j < i ==> has_id(s, #[trigger] q@[j]),
                bag_change == bag_update_of(q@.take(i as int).map_values(pick)),
            decreases q@.len() - i,
        {
            let o = match self.ensure_data_object_exists(src_bag_id, &q[i]) {
                Err(e) => {
                    proof {
                        assert(object_ids@.contains(q@[i as int]) && !has_id(s, q@[i as int]));
                    }
                    return Err(e);
                },
                Ok(o) => o,
            };
            proof {
                let t = q@.take(i + 1).map_values(pick);
                assert(t.drop_last() =~= q@.take(i as int).map_values(pick));
                assert(t.last() == o@);
            }
            bag_change.add_object(o.size, o.state_bloat_bond);
            i = i + 1;
        }
        proof {
            lemma_take_all(q@);
            assert forall|id: u64| object_ids@.contains(id) implies has_id(s, id) by {
                assert(q@.contains(id));
                let j = choose|j: int| 0 <= j < q@.len() && q@[j] == id;
                assert(has_id(s, q@[j]));
            }
            assert(q@.map_values(pick) =~= ascending(object_ids@).map_values(|id: u64| object_with_id(s, id)));
        }
        match self.check_bag_for_buckets_overflow(&dest_bag, &bag_change.voucher_update) {
            Err(e) => Err(e),
            Ok(()) => Ok(bag_change),
        }
    }

    /// Validates moving objects parameters and the voucher usage of the affected buckets.
    pub fn can_move_data_objects(
        &self,
        src_bag_id: &BagIdType,
        dest_bag_id: &BagIdType,
        objects: &BTreeSet<DataObjectId>,
    ) -> (r: Result<(), StorageError>)
        requires
            self@.wf(),
        ensures
            match self@.spec_validate_data_objects_on_moving(*src_bag_id, *dest_bag_id, objects@) {
                Ok(_) => r is Ok,
                Err(e) => r == Err::<(), StorageError>(e),
            },
    {
        match self.validate_data_objects_on_moving(src_bag_id, dest_bag_id, objects) {
            Ok(_) => Ok(()),
            Err(e) => Err(e),
        }
    }

    /// Move data objects to another bag, updating both bags' counters and their buckets'
    /// vouchers.
    pub fn move_data_objects(
        &mut self,
        src_bag_id: BagIdType,
        dest_bag_id: BagIdType,
        objects: BTreeSet<DataObjectId>,
    ) -> (r: Result<(), StorageError>)
        requires
            old(self)@.wf(),
        ensures
            final(self)@.wf(),
            match old(self)@.spec_move_data_objects(src_bag_id, dest_bag_id, objects@) {
                Ok(s) => r is Ok && final(self)@ == s,
                Err(e) => r == Err::<(), StorageError>(e) && final(self)@ == old(self)@,
            },
    {
        let ghost s0 = self@;
        let src_bag = match self.ensure_bag_exists(&src_bag_id) {
            Err(e) => return Err(e),
            Ok(b) => b,
        };
        let dest_bag = match self.ensure_bag_exists(&dest_bag_id) {
            Err(e) => return Err(e),
            Ok(b) => b,
        };
        let bag_change = match self.validate_data_objects_on_moving(&src_bag_id, &dest_bag_id, &objects) {
            Err(e) => return Err(e),
            Ok(c) => c,
        };
        //
        // == MUTATION SAFE ==
        //
        let sk = src_bag_id.key();
        let dk = dest_bag_id.key();
        proof {
            if sk == dk {
                crate::storage_types::lemma_bag_key_injective(src_bag_id, dest_bag_id);
            }
            assert(unique_ids((s0.objects)(sk)));
            assert(unique_ids((s0.objects)(dk)));
        }
        let mut src_list = take_objects(&mut self.data_objects, sk);
        let mut dest_list = take_objects(&mut self.data_objects, dk);
        let q = ascending_vec(&objects);
        let ghost s_src = (s0.objects)(sk);
        let ghost s_dest = (s0.objects)(dk);
        let mut i: usize = 0;
        while i < q.len()
            invariant
                q@ == ascending(objects@),
                i <= q@.len(),
                unique_ids(s_src),
                unique_ids(s_dest),
                (objects_view(src_list@), objects_view(dest_list@)) == swap_entries(s_src, s_dest, q@.take(i as int)),
            decreases q@.len() - i,
        {
            proof {
                assert(q@.take(i + 1).drop_last() =~= q@.take(i as int));
                lemma_swap_entries_unique(s_src, s_dest, q@.take(i as int));
            }
            let pair = swap_entry_exec(src_list, dest_list, q[i]);
            src_list = pair.0;
            dest_list = pair.1;
            i = i + 1;
        }
        proof {
            lemma_take_all(q@);
            lemma_swap_entries_unique(s_src, s_dest, q@);
            assert(ids_below(s_src, s0.next_data_object_id));
            assert(ids_below(s_dest, s0.next_data_object_id));
            lemma_swap_entries_below(s_src, s_dest, q@, s0.next_data_object_id);
        }
        self.data_objects.insert(sk, src_list);
        self.data_objects.insert(dk, dest_list);
        let ghost swapped = swap_entries(s_src, s_dest, ascending(objects@));
        proof {
            assert(self@.objects =~= (|k: (u64, u64)|
                if k == sk {
                    swapped.0
                } else if k == dk {
                    swapped.1
                } else {
                    (s0.objects)(k)
                }));
        }
        // Change source bag.
        self.change_storage_bucket_vouchers_for_bag(
            &src_bag_id,
            &src_bag,
            &bag_change.voucher_update,
            OperationType::Decrease,
        );
        // Change destination bag.
        self.change_storage_bucket_vouchers_for_bag(
            &dest_bag_id,
            &dest_bag,
            &bag_change.voucher_update,
            OperationType::Increase,
        );
        proof {
            assert(self@ =~= s0.moved(src_bag_id, dest_bag_id, objects@, bag_change.voucher_update));
            assert forall|k: (u64, u64)| #[trigger] unique_ids((self@.objects)(k)) by {
                if k != sk && k != dk {
                    assert(unique_ids((s0.objects)(k)));
                }
            }
            assert forall|k: (u64, u64)| #[trigger] ids_below((self@.objects)(k), self@.next_data_object_id) by {
                if k != sk && k != dk {
                    assert(ids_below((s0.objects)(k), s0.next_data_object_id));
                }
            }
        }
        Ok(())
    }
}

} // verus!
