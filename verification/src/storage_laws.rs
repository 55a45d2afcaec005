use vstd::prelude::*;

use crate::primitives::{AccountId, Balance, WorkerId};
use crate::storage_api::{DynBagCreationParametersView, UploadParametersView};
use crate::storage_errors::StorageError;
use crate::storage_state::StorageStateView;
use crate::storage_bag_ops::BagOperationParamsView;
use crate::storage_objects::{insert_objects, put_object, remove_ids};
use crate::sorted::{ascending, lemma_ascending_exists, lemma_first_failure_none_all};
use crate::storage_state::{has_id, ids_below, object_with_id, unique_ids};
use crate::storage_moves::swap_entries;
use crate::storage_types::{
    BagIdType, DataObjectCreationParametersView, DataObjectView, DynamicBagIdType, OperationType,
    StorageBucketOperatorStatus, Voucher, VoucherUpdate,
};

verus! {

/// Decreasing a voucher's counters by a change undoes increasing them by it, when the increase
/// did not saturate.
pub proof fn law_voucher_decrease_undoes_increase(vu: VoucherUpdate, v: Voucher)
    requires
        v.objects_used + vu.objects_number <= u64::MAX,
        v.size_used + vu.objects_total_size <= u64::MAX,
    ensures
        vu.spec_updated_voucher(vu.spec_updated_voucher(v, OperationType::Increase), OperationType::Decrease) == v,
{
}

/// Counting one more distribution bucket family and then one less gives back the state.
pub proof fn law_family_number_round_trip(s: StorageStateView)
    requires
        s.distribution_bucket_family_number < u64::MAX,
    ensures
        s.spec_increment_distribution_family_number().spec_decrement_distribution_family_number() == s,
{
    assert(s.spec_increment_distribution_family_number().spec_decrement_distribution_family_number() =~= s);
}

/// Inviting a storage operator and then having the worker accept makes it the bucket's
/// operator with its transactor account.
pub proof fn law_storage_operator_invite_then_accept(
    s: StorageStateView,
    bucket_id: u64,
    worker_id: WorkerId,
    transactor_account_id: AccountId,
)
    requires
        s.spec_invite_storage_bucket_operator(bucket_id, worker_id, true) is Ok,
    ensures
        ({
            let s1 = s.spec_invite_storage_bucket_operator(bucket_id, worker_id, true)->Ok_0;
            &&& s1.spec_accept_storage_bucket_invitation(worker_id, bucket_id, transactor_account_id) is Ok
            &&& s1.spec_accept_storage_bucket_invitation(worker_id, bucket_id, transactor_account_id)->Ok_0.storage_buckets[bucket_id].operator_status
                == StorageBucketOperatorStatus::StorageWorker(worker_id, transactor_account_id)
        }),
{
}

/// Inviting a distribution operator and then having the worker accept makes it an operator of
/// the bucket, with no invitation left pending.
pub proof fn law_distribution_operator_invite_then_accept(s: StorageStateView, bucket_id: (u64, u64), worker_id: WorkerId)
    requires
        s.spec_invite_distribution_bucket_operator(bucket_id, worker_id, true) is Ok,
    ensures
        ({
            let s1 = s.spec_invite_distribution_bucket_operator(bucket_id, worker_id, true)->Ok_0;
            let s2 = s1.spec_accept_distribution_bucket_invitation(worker_id, bucket_id);
            &&& s2 is Ok
            &&& s2->Ok_0.distribution_buckets[bucket_id].operators.contains(worker_id)
            &&& !s2->Ok_0.distribution_buckets[bucket_id].pending_invitations.contains(worker_id)
        }),
{
}

/// A created dynamic bag exists afterwards.
pub proof fn law_created_bag_exists(s: StorageStateView, p: DynBagCreationParametersView, usable_balance: Balance)
    requires
        s.spec_create_dynamic_bag(p, usable_balance) is Ok,
    ensures
        s.spec_create_dynamic_bag(p, usable_balance)->Ok_0.0.spec_ensure_bag_exists(BagIdType::Dynamic(p.bag_id)) is Ok,
{
}

/// A deleted dynamic bag no longer exists and holds no objects.
pub proof fn law_deleted_bag_is_gone(
    s: StorageStateView,
    account_id: AccountId,
    dynamic_bag_id: DynamicBagIdType,
    treasury_balance: Balance,
)
    requires
        s.spec_delete_dynamic_bag(account_id, dynamic_bag_id, treasury_balance) is Ok,
    ensures
        ({
            let s2 = s.spec_delete_dynamic_bag(account_id, dynamic_bag_id, treasury_balance)->Ok_0.0;
            let b = BagIdType::Dynamic(dynamic_bag_id);
            &&& s2.spec_ensure_bag_exists(b) == Err::<crate::storage_types::BagView, StorageError>(
                StorageError::DynamicBagDoesntExist,
            )
            &&& (s2.objects)(b.spec_key()) == Seq::<(u64, crate::storage_types::DataObjectView)>::empty()
        }),
{
}

/// Removing no IDs keeps every entry.
proof fn lemma_remove_no_ids(s: Seq<(u64, DataObjectView)>)
    ensures
        remove_ids(s, Set::empty()) == s,
    decreases s.len(),
{
    reveal(Seq::filter);
    if s.len() > 0 {
        lemma_remove_no_ids(s.drop_last());
        assert(s.drop_last().push(s.last()) =~= s);
    }
}

/// The entries that storing objects under fresh consecutive IDs appends.
pub open spec fn appended(next: u64, objs: Seq<DataObjectView>) -> Seq<(u64, DataObjectView)> {
    Seq::new(objs.len(), |i: int| ((next + i) as u64, objs[i]))
}

/// Storing objects under fresh consecutive IDs appends them in order.
proof fn lemma_insert_fresh(s: Seq<(u64, DataObjectView)>, next: u64, objs: Seq<DataObjectView>)
    requires
        ids_below(s, next),
        next + objs.len() <= u64::MAX,
    ensures
        insert_objects(s, next, objs) == (s + appended(next, objs), (next + objs.len()) as u64),
    decreases objs.len(),
{
    if objs.len() > 0 {
        let d = objs.drop_last();
        lemma_insert_fresh(s, next, d);
        let prev = insert_objects(s, next, d);
        let id = (next + d.len()) as u64;
        assert(prev.0 == s + appended(next, d));
        assert(!has_id(prev.0, id)) by {
            if has_id(prev.0, id) {
                let i = choose|i: int| 0 <= i < prev.0.len() && prev.0[i].0 == id;
                if i < s.len() {
                    assert(s[i].0 < next);
                } else {
                    assert(prev.0[i] == appended(next, d)[i - s.len()]);
                }
            }
        }
        assert(put_object(prev.0, id, objs.last()) =~= s + appended(next, objs));
    }
}

/// A successful upload appends the new objects to the bag under consecutive IDs from the data
/// object counter, which advances by their number (when it stays within its bound); the other
/// bags keep their objects.
pub proof fn law_upload_appends_objects(s: StorageStateView, p: UploadParametersView, usable_balance: Balance)
    requires
        s.wf(),
        s.spec_upload_data_objects(p, usable_balance) is Ok,
        s.next_data_object_id + p.object_creation_list.len() <= u64::MAX,
    ensures
        ({
            let s2 = s.spec_upload_data_objects(p, usable_balance)->Ok_0.0;
            let key = p.bag_id.spec_key();
            let news = p.object_creation_list.map_values(|c: DataObjectCreationParametersView| s.new_object(c));
            &&& (s2.objects)(key) == (s.objects)(key) + appended(s.next_data_object_id, news)
            &&& s2.next_data_object_id == s.next_data_object_id + p.object_creation_list.len()
            &&& forall|k: (u64, u64)| k != key ==> #[trigger] (s2.objects)(k) == (s.objects)(k)
        }),
{
    let key = p.bag_id.spec_key();
    let op = BagOperationParamsView::Update(p.object_creation_list, Set::empty());
    let news = p.object_creation_list.map_values(|c: DataObjectCreationParametersView| s.new_object(c));
    let up = s.spec_objects_to_upload(op);
    assert(up is Ok);
    assert(up->Ok_0.0 == news);
    lemma_remove_no_ids((s.objects)(key));
    assert(ids_below((s.objects)(key), s.next_data_object_id));
    lemma_insert_fresh((s.objects)(key), s.next_data_object_id, news);
}

/// Removing IDs that no entry has keeps every entry.
proof fn lemma_remove_absent_ids(s: Seq<(u64, DataObjectView)>, ids: Set<u64>)
    requires
        forall|i: int| 0 <= i < s.len() ==> !ids.contains(#[trigger] s[i].0),
    ensures
        remove_ids(s, ids) == s,
    decreases s.len(),
{
    reveal(Seq::filter);
    if s.len() > 0 {
        lemma_remove_absent_ids(s.drop_last(), ids);
        assert(s.drop_last().push(s.last()) =~= s);
    }
}

/// Removing the IDs of every entry leaves nothing.
proof fn lemma_remove_all_ids(s: Seq<(u64, DataObjectView)>, ids: Set<u64>)
    requires
        forall|i: int| 0 <= i < s.len() ==> ids.contains(#[trigger] s[i].0),
    ensures
        remove_ids(s, ids) == Seq::<(u64, DataObjectView)>::empty(),
    decreases s.len(),
{
    reveal(Seq::filter);
    if s.len() > 0 {
        lemma_remove_all_ids(s.drop_last(), ids);
    }
}

/// Removing IDs from two lists one after the other.
proof fn lemma_remove_ids_concat(a: Seq<(u64, DataObjectView)>, b: Seq<(u64, DataObjectView)>, ids: Set<u64>)
    ensures
        remove_ids(a + b, ids) == remove_ids(a, ids) + remove_ids(b, ids),
{
    Seq::filter_distributes_over_add(a, b, |e: (u64, DataObjectView)| !ids.contains(e.0));
}

/// Deleting data objects removes exactly the listed objects from the bag, refunds their total
/// state bloat bond and asks for no payment; the data object counter does not move.
pub proof fn law_delete_removes_objects(
    s: StorageStateView,
    account_id: AccountId,
    bag_id: BagIdType,
    ids: Set<u64>,
    treasury_balance: Balance,
)
    requires
        s.spec_delete_data_objects(account_id, bag_id, ids, treasury_balance) is Ok,
    ensures
        ({
            let r = s.spec_delete_data_objects(account_id, bag_id, ids, treasury_balance)->Ok_0;
            let before = (s.objects)(bag_id.spec_key());
            let after = (r.0.objects)(bag_id.spec_key());
            &&& after == remove_ids(before, ids)
            &&& forall|id: u64| ids.contains(id) ==> !has_id(after, id)
            &&& r.1.withdraw == crate::storage_bag_ops::totals(
                ascending(ids).map_values(|id: u64| object_with_id(before, id)),
            ).1
            &&& r.1.deposit == 0
            &&& r.0.next_data_object_id == s.next_data_object_id
        }),
{
    let key = bag_id.spec_key();
    let before = (s.objects)(key);
    let pred = |e: (u64, DataObjectView)| !ids.contains(e.0);
    let op = BagOperationParamsView::Update(Seq::empty(), ids);
    assert(s.spec_objects_to_upload(op) is Ok);
    assert(s.spec_objects_to_upload(op)->Ok_0.0 =~= Seq::<DataObjectView>::empty());
    assert(s.spec_objects_to_upload(op)->Ok_0.1 == 0 && s.spec_objects_to_upload(op)->Ok_0.2 == 0);
    assert(crate::storage_state::megabytes_rounded_up(0) == 0);
    assert(s.data_object_per_mega_byte_fee * 0 == 0);
    assert(crate::storage_state::spec_data_storage_fee(s.data_object_per_mega_byte_fee, 0) == 0);
    let after = remove_ids(before, ids);
    assert forall|id: u64| ids.contains(id) implies !has_id(after, id) by {
        if has_id(after, id) {
            let i = choose|i: int| 0 <= i < after.len() && after[i].0 == id;
            before.lemma_filter_pred(pred, i);
        }
    }
}

/// Uploading objects and then deleting them gives the bag back its objects.
pub proof fn law_upload_then_delete_restores_objects(
    s: StorageStateView,
    p: UploadParametersView,
    usable_balance: Balance,
    account_id: AccountId,
    treasury_balance: Balance,
)
    requires
        s.wf(),
        s.spec_upload_data_objects(p, usable_balance) is Ok,
        s.next_data_object_id + p.object_creation_list.len() <= u64::MAX,
        s.spec_upload_data_objects(p, usable_balance)->Ok_0.0.spec_delete_data_objects(
            account_id,
            p.bag_id,
            Set::new(|id: u64| s.next_data_object_id <= id < s.next_data_object_id + p.object_creation_list.len()),
            treasury_balance,
        ) is Ok,
    ensures
        (s.spec_upload_data_objects(p, usable_balance)->Ok_0.0.spec_delete_data_objects(
            account_id,
            p.bag_id,
            Set::new(|id: u64| s.next_data_object_id <= id < s.next_data_object_id + p.object_creation_list.len()),
            treasury_balance,
        )->Ok_0.0.objects)(p.bag_id.spec_key()) == (s.objects)(p.bag_id.spec_key()),
{
    let key = p.bag_id.spec_key();
    let s2 = s.spec_upload_data_objects(p, usable_balance)->Ok_0.0;
    let n = p.object_creation_list.len();
    let ids = Set::new(|id: u64| s.next_data_object_id <= id < s.next_data_object_id + n);
    let news = p.object_creation_list.map_values(|c: DataObjectCreationParametersView| s.new_object(c));
    law_upload_appends_objects(s, p, usable_balance);
    law_delete_removes_objects(s2, account_id, p.bag_id, ids, treasury_balance);
    let old_list = (s.objects)(key);
    let added = appended(s.next_data_object_id, news);
    assert(s.next_data_object_id < u64::MAX);
    assert(ids_below(old_list, s.next_data_object_id));
    lemma_remove_ids_concat(old_list, added, ids);
    lemma_remove_absent_ids(old_list, ids);
    assert forall|i: int| 0 <= i < added.len() implies ids.contains(#[trigger] added[i].0) by {}
    lemma_remove_all_ids(added, ids);
    assert(old_list + Seq::<(u64, DataObjectView)>::empty() =~= old_list);
}

/// The bucket's voucher counts exactly the bag's objects, within the voucher's limits.
pub open spec fn voucher_holds_bag(v: Voucher, b: crate::storage_types::BagView) -> bool {
    &&& v.objects_used == b.objects_number
    &&& v.size_used == b.objects_total_size
    &&& v.objects_used <= v.objects_limit
    &&& v.size_used <= v.size_limit
}

/// After a successful bag operation that keeps the bag, every storage bucket of the bag exists
/// and its voucher counts the bag's objects within its limits.
pub proof fn law_bag_operation_keeps_bucket_limits(
    s: StorageStateView,
    account_id: AccountId,
    usable_balance: Balance,
    treasury_balance: Balance,
    bag_id: BagIdType,
    op: BagOperationParamsView,
)
    requires
        s.spec_try_mutating_storage_state(account_id, usable_balance, treasury_balance, bag_id, op) is Ok,
        !(op is Delete),
        s.bag(bag_id.spec_key()).stored_by.finite(),
        op is Create ==> op->Create_1.finite(),
    ensures
        ({
            let s2 = s.spec_try_mutating_storage_state(account_id, usable_balance, treasury_balance, bag_id, op)->Ok_0.0;
            let b = s2.bags[bag_id.spec_key()];
            &&& s2.bags.contains_key(bag_id.spec_key())
            &&& forall|id: u64| #[trigger] b.stored_by.contains(id) ==> s2.storage_buckets.contains_key(id)
                && voucher_holds_bag(s2.storage_buckets[id].voucher, b)
        }),
{
    let key = bag_id.spec_key();
    let bag = s.spec_retrieve_bag(bag_id, op)->Ok_0;
    let up = s.spec_objects_to_upload(op)->Ok_0;
    let rm = s.spec_objects_to_remove(bag_id, op)->Ok_0;
    let vu = VoucherUpdate {
        objects_number: bag.objects_number.saturating_add(up.0.len() as u64).saturating_sub(rm.0.len() as u64),
        objects_total_size: bag.objects_total_size.saturating_add(up.2).saturating_sub(rm.2),
    };
    let new_sb = s.spec_update_storage_buckets(bag.stored_by, vu, op)->Ok_0;
    let s2 = s.spec_try_mutating_storage_state(account_id, usable_balance, treasury_balance, bag_id, op)->Ok_0.0;
    let b = s2.bags[key];
    assert(b.stored_by == new_sb.dom());
    if !(op is Create) {
        assert(bag == s.bag(key));
    }
    {
        lemma_ascending_exists(bag.stored_by);
        let fail = s.bucket_failure(vu);
        lemma_first_failure_none_all(ascending(bag.stored_by), fail);
        assert forall|id: u64| #[trigger] new_sb.contains_key(id) implies s.bucket_accepts(id, vu) by {
            assert(ascending(bag.stored_by).to_set().contains(id));
            let j = choose|j: int| 0 <= j < ascending(bag.stored_by).len() && ascending(bag.stored_by)[j] == id;
            assert(fail(ascending(bag.stored_by)[j]) is None);
        }
    }
    assert forall|id: u64| #[trigger] b.stored_by.contains(id) implies s2.storage_buckets.contains_key(id)
        && voucher_holds_bag(s2.storage_buckets[id].voucher, b) by {
        assert(new_sb.contains_key(id));
        assert(s.bucket_accepts(id, vu));
        assert(s2.storage_buckets[id] == new_sb[id]);
    }
}

/// With distinct IDs, the object stored under an ID is the one at its position.
proof fn lemma_object_at(s: Seq<(u64, DataObjectView)>, i: int)
    requires
        unique_ids(s),
        0 <= i < s.len(),
    ensures
        has_id(s, s[i].0),
        object_with_id(s, s[i].0) == s[i].1,
{
    let c = choose|c: int| 0 <= c < s.len() && s[c].0 == s[i].0;
    assert(c == i);
}

/// Removing one ID leaves the other entries, with their objects.
proof fn lemma_remove_one(s: Seq<(u64, DataObjectView)>, y: u64, x: u64)
    requires
        unique_ids(s),
    ensures
        has_id(remove_ids(s, set![y]), x) <==> (has_id(s, x) && x != y),
        has_id(s, x) && x != y ==> object_with_id(remove_ids(s, set![y]), x) == object_with_id(s, x),
{
    let pred = |e: (u64, DataObjectView)| !set![y].contains(e.0);
    let t = remove_ids(s, set![y]);
    crate::storage_objects::lemma_remove_ids_unique(s, set![y]);
    if has_id(t, x) {
        let i = choose|i: int| 0 <= i < t.len() && t[i].0 == x;
        s.lemma_filter_pred(pred, i);
        assert(s.filter(pred).contains(t[i]));
        s.lemma_filter_contains_rev(pred, t[i]);
        let k = choose|k: int| 0 <= k < s.len() && s[k] == t[i];
        lemma_object_at(s, k);
        lemma_object_at(t, i);
    }
    if has_id(s, x) && x != y {
        let k = choose|k: int| 0 <= k < s.len() && s[k].0 == x;
        s.lemma_filter_contains(pred, k);
        assert(t.contains(s[k]));
        let i = choose|i: int| 0 <= i < t.len() && t[i] == s[k];
        lemma_object_at(s, k);
        lemma_object_at(t, i);
    }
}

/// Storing under a new ID appends the entry and keeps the others.
proof fn lemma_put_new(d: Seq<(u64, DataObjectView)>, y: u64, o: DataObjectView, x: u64)
    requires
        unique_ids(d),
        !has_id(d, y),
    ensures
        has_id(put_object(d, y, o), x) <==> (has_id(d, x) || x == y),
        has_id(put_object(d, y, o), y) && object_with_id(put_object(d, y, o), y) == o,
        has_id(d, x) ==> object_with_id(put_object(d, y, o), x) == object_with_id(d, x),
{
    let t = put_object(d, y, o);
    crate::storage_objects::lemma_put_object_unique(d, y, o);
    assert(t == d.push((y, o)));
    lemma_object_at(t, d.len() as int);
    if has_id(d, x) {
        let k = choose|k: int| 0 <= k < d.len() && d[k].0 == x;
        lemma_object_at(d, k);
        lemma_object_at(t, k);
    }
    if has_id(t, x) && x != y {
        let k = choose|k: int| 0 <= k < t.len() && t[k].0 == x;
        assert(k < d.len());
    }
}

/// Swapping distinct IDs that only the source holds moves their objects to the destination
/// and keeps every other entry of both lists.
proof fn lemma_swap_moves(src: Seq<(u64, DataObjectView)>, dest: Seq<(u64, DataObjectView)>, ids: Seq<u64>)
    requires
        unique_ids(src),
        unique_ids(dest),
        ids.no_duplicates(),
        forall|j: int| 0 <= j < ids.len() ==> has_id(src, #[trigger] ids[j]) && !has_id(dest, ids[j]),
    ensures
        ({
            let r = swap_entries(src, dest, ids);
            &&& forall|x: u64| #[trigger] ids.contains(x) ==> has_id(r.1, x) && object_with_id(r.1, x)
                == object_with_id(src, x) && !has_id(r.0, x)
            &&& forall|x: u64| !ids.contains(x) ==> (#[trigger] has_id(r.0, x) <==> has_id(src, x)) && (has_id(
                r.1,
                x,
            ) <==> has_id(dest, x))
            &&& forall|x: u64| !ids.contains(x) && has_id(src, x) ==> #[trigger] object_with_id(r.0, x)
                == object_with_id(src, x)
            &&& forall|x: u64| !ids.contains(x) && has_id(dest, x) ==> #[trigger] object_with_id(r.1, x)
                == object_with_id(dest, x)
            &&& unique_ids(r.0)
            &&& unique_ids(r.1)
        }),
    decreases ids.len(),
{
    let r = swap_entries(src, dest, ids);
    if ids.len() == 0 {
        assert forall|x: u64| !ids.contains(x) implies (#[trigger] has_id(r.0, x) <==> has_id(src, x)) && (has_id(r.1, x)
            <==> has_id(dest, x)) by {}
    } else {
        let d = ids.drop_last();
        let y = ids.last();
        assert(d.no_duplicates());
        assert forall|j: int| 0 <= j < d.len() implies has_id(src, #[trigger] d[j]) && !has_id(dest, d[j]) by {
            assert(d[j] == ids[j]);
        }
        lemma_swap_moves(src, dest, d);
        let p = swap_entries(src, dest, d);
        assert(!d.contains(y)) by {
            if d.contains(y) {
                let j = choose|j: int| 0 <= j < d.len() && d[j] == y;
                assert(ids[j] == ids[ids.len() - 1]);
            }
        }
        assert(has_id(src, y) && !has_id(dest, y)) by {
            assert(ids[ids.len() - 1] == y);
        }
        assert(has_id(p.0, y));
        assert(!has_id(p.1, y));
        let o = object_with_id(p.0, y);
        assert(r == (remove_ids(p.0, set![y]), put_object(p.1, y, o)));
        crate::storage_objects::lemma_remove_ids_unique(p.0, set![y]);
        crate::storage_objects::lemma_put_object_unique(p.1, y, o);
        assert forall|x: u64| #[trigger] ids.contains(x) implies has_id(r.1, x) && object_with_id(r.1, x)
            == object_with_id(src, x) && !has_id(r.0, x) by {
            lemma_remove_one(p.0, y, x);
            lemma_put_new(p.1, y, o, x);
            if x != y {
                assert(d.contains(x)) by {
                    let j = choose|j: int| 0 <= j < ids.len() && ids[j] == x;
                    assert(d[j] == x);
                }
            }
        }
        assert forall|x: u64| !ids.contains(x) implies (#[trigger] has_id(r.0, x) <==> has_id(src, x)) && (has_id(r.1, x)
            <==> has_id(dest, x)) by {
            lemma_remove_one(p.0, y, x);
            lemma_put_new(p.1, y, o, x);
            assert(!d.contains(x)) by {
                if d.contains(x) {
                    let j = choose|j: int| 0 <= j < d.len() && d[j] == x;
                    assert(ids[j] == x);
                }
            }
            assert(x != y) by {
                assert(ids[ids.len() - 1] == y);
            }
        }
        assert forall|x: u64| !ids.contains(x) && has_id(src, x) implies #[trigger] object_with_id(r.0, x)
            == object_with_id(src, x) by {
            lemma_remove_one(p.0, y, x);
            assert(!d.contains(x)) by {
                if d.contains(x) {
                    let j = choose|j: int| 0 <= j < d.len() && d[j] == x;
                    assert(ids[j] == x);
                }
            }
            assert(x != y) by {
                assert(ids[ids.len() - 1] == y);
            }
        }
        assert forall|x: u64| !ids.contains(x) && has_id(dest, x) implies #[trigger] object_with_id(r.1, x)
            == object_with_id(dest, x) by {
            assert(!d.contains(x)) by {
                if d.contains(x) {
                    let j = choose|j: int| 0 <= j < d.len() && d[j] == x;
                    assert(ids[j] == x);
                }
            }
            assert(has_id(p.0, x) <==> has_id(src, x));
            assert(has_id(p.1, x));
            assert(object_with_id(p.1, x) == object_with_id(dest, x));
            lemma_put_new(p.1, y, o, x);
        }
    }
}

/// Moving data objects to a bag that does not hold their IDs puts each of them, unchanged,
/// in the destination bag and takes it out of the source bag; the other objects of both bags
/// stay where they are.
pub proof fn law_move_places_objects(s: StorageStateView, src: BagIdType, dest: BagIdType, ids: Set<u64>)
    requires
        s.wf(),
        s.spec_move_data_objects(src, dest, ids) is Ok,
        forall|id: u64| ids.contains(id) ==> !has_id((s.objects)(dest.spec_key()), id),
    ensures
        ({
            let s2 = s.spec_move_data_objects(src, dest, ids)->Ok_0;
            let from = (s.objects)(src.spec_key());
            let to = (s.objects)(dest.spec_key());
            let from2 = (s2.objects)(src.spec_key());
            let to2 = (s2.objects)(dest.spec_key());
            &&& forall|id: u64| #[trigger] ids.contains(id) ==> has_id(to2, id) && object_with_id(to2, id)
                == object_with_id(from, id) && !has_id(from2, id)
            &&& forall|id: u64| !ids.contains(id) ==> (#[trigger] has_id(from2, id) <==> has_id(from, id))
                && (has_id(to2, id) <==> has_id(to, id))
            &&& forall|id: u64| !ids.contains(id) && has_id(from, id) ==> #[trigger] object_with_id(from2, id)
                == object_with_id(from, id)
            &&& forall|id: u64| !ids.contains(id) && has_id(to, id) ==> #[trigger] object_with_id(to2, id)
                == object_with_id(to, id)
        }),
{
    let sk = src.spec_key();
    let dk = dest.spec_key();
    if sk == dk {
        crate::storage_types::lemma_bag_key_injective(src, dest);
    }
    let from = (s.objects)(sk);
    let to = (s.objects)(dk);
    assert(unique_ids(from));
    assert(unique_ids(to));
    // the validation found every object in the source bag, so the set is finite
    let q = ascending(ids);
    assert(forall|id: u64| ids.contains(id) ==> has_id(from, id));
    assert(ids.finite()) by {
        let idset = from.map_values(|e: (u64, DataObjectView)| e.0).to_set();
        assert forall|id: u64| ids.contains(id) implies idset.contains(id) by {
            let i = choose|i: int| 0 <= i < from.len() && from[i].0 == id;
            assert(from.map_values(|e: (u64, DataObjectView)| e.0)[i] == id);
        }
        vstd::seq_lib::seq_to_set_is_finite(from.map_values(|e: (u64, DataObjectView)| e.0));
        vstd::set_lib::lemma_len_subset(ids, idset);
    }
    lemma_ascending_exists(ids);
    crate::sorted::lemma_increasing_no_duplicates(q);
    assert forall|j: int| 0 <= j < q.len() implies has_id(from, #[trigger] q[j]) && !has_id(to, q[j]) by {
        assert(q.to_set().contains(q[j]));
    }
    lemma_swap_moves(from, to, q);
    assert forall|id: u64| ids.contains(id) <==> q.contains(id) by {
        assert(q.to_set().contains(id) <==> ids.contains(id));
    }
}

/// Moving data objects succeeds exactly when the move validates, which is what
/// `can_move_data_objects` reports; where both bags exist, a failed move fails with the error
/// that the validation gives.
pub proof fn law_validated_move_succeeds(s: StorageStateView, src: BagIdType, dest: BagIdType, ids: Set<u64>)
    ensures
        s.spec_validate_data_objects_on_moving(src, dest, ids) is Ok <==> s.spec_move_data_objects(src, dest, ids) is Ok,
        s.spec_ensure_bag_exists(src) is Ok && s.spec_ensure_bag_exists(dest) is Ok ==> match s.spec_validate_data_objects_on_moving(
            src,
            dest,
            ids,
        ) {
            Err(e) => s.spec_move_data_objects(src, dest, ids) == Err::<StorageStateView, StorageError>(e),
            Ok(_) => true,
        },
{
}

/// A bag's voucher change does not saturate any counter it touches: the source bag and its
/// buckets hold at least the moved objects, and the destination bag can count them.
pub open spec fn move_counts_fit(s: StorageStateView, src: BagIdType, dest: BagIdType, c: VoucherUpdate) -> bool {
    let a = s.bag(src.spec_key());
    let b = s.bag(dest.spec_key());
    &&& c.objects_number <= a.objects_number
    &&& c.objects_total_size <= a.objects_total_size
    &&& b.objects_number + c.objects_number <= u64::MAX
    &&& b.objects_total_size + c.objects_total_size <= u64::MAX
    &&& forall|id: u64| #[trigger] a.stored_by.contains(id) ==> s.storage_buckets.contains_key(id)
        && c.objects_number <= s.storage_buckets[id].voucher.objects_used
        && c.objects_total_size <= s.storage_buckets[id].voucher.size_used
}

/// Every storage bucket counts within its limits.
pub open spec fn buckets_within_limits(s: StorageStateView) -> bool {
    forall|id: u64| #[trigger] s.storage_buckets.contains_key(id) ==> {
        let v = s.storage_buckets[id].voucher;
        v.objects_used <= v.objects_limit && v.size_used <= v.size_limit
    }
}

/// What moving objects there and back needs: the move goes through, no data object ID is in
/// two bags, the buckets are within their limits and no counter saturates.
pub open spec fn round_trip_ready(s: StorageStateView, src: BagIdType, dest: BagIdType, ids: Set<u64>) -> bool {
    &&& s.wf()
    &&& s.spec_move_data_objects(src, dest, ids) is Ok
    &&& ids.finite()
    &&& s.bag(src.spec_key()).stored_by.finite()
    &&& s.bag(dest.spec_key()).stored_by.finite()
    &&& ids_distinct_across_bags(s)
    &&& buckets_within_limits(s)
    &&& move_counts_fit(s, src, dest, s.spec_validate_data_objects_on_moving(src, dest, ids)->Ok_0.voucher_update)
}

/// The capacity check of a successful move covered the destination bag's buckets.
proof fn lemma_move_checked_destination(s: StorageStateView, src: BagIdType, dest: BagIdType, ids: Set<u64>)
    requires
        round_trip_ready(s, src, dest, ids),
    ensures
        ({
            let c = s.spec_validate_data_objects_on_moving(src, dest, ids)->Ok_0.voucher_update;
            forall|x: u64| #[trigger] s.bag(dest.spec_key()).stored_by.contains(x) ==> s.storage_buckets.contains_key(x)
                && c.objects_number + s.storage_buckets[x].voucher.objects_used <= s.storage_buckets[x].voucher.objects_limit
                && c.objects_total_size + s.storage_buckets[x].voucher.size_used <= s.storage_buckets[x].voucher.size_limit
        }),
{
    let c = s.spec_validate_data_objects_on_moving(src, dest, ids)->Ok_0.voucher_update;
    let b = s.bag(dest.spec_key()).stored_by;
    lemma_ascending_exists(b);
    let chk = s.overflow_failure(c);
    lemma_first_failure_none_all(ascending(b), chk);
    assert forall|x: u64| #[trigger] b.contains(x) implies s.storage_buckets.contains_key(x) && c.objects_number
        + s.storage_buckets[x].voucher.objects_used <= s.storage_buckets[x].voucher.objects_limit
        && c.objects_total_size + s.storage_buckets[x].voucher.size_used <= s.storage_buckets[x].voucher.size_limit by {
        assert(ascending(b).to_set().contains(x));
        let j = choose|j: int| 0 <= j < ascending(b).len() && ascending(b)[j] == x;
        assert(chk(ascending(b)[j]) is None);
    }
}

/// After the move there, the move back validates with the same change.
proof fn lemma_move_back_validates(s: StorageStateView, src: BagIdType, dest: BagIdType, ids: Set<u64>)
    requires
        round_trip_ready(s, src, dest, ids),
    ensures
        ({
            let bu = s.spec_validate_data_objects_on_moving(src, dest, ids)->Ok_0;
            let s1 = s.spec_move_data_objects(src, dest, ids)->Ok_0;
            &&& s1.wf()
            &&& s1.spec_move_data_objects(dest, src, ids) == Ok::<StorageStateView, StorageError>(
                s1.moved(dest, src, ids, bu.voucher_update),
            )
        }),
{
    let sk = src.spec_key();
    let dk = dest.spec_key();
    let bu = s.spec_validate_data_objects_on_moving(src, dest, ids)->Ok_0;
    let c = bu.voucher_update;
    if sk == dk {
        crate::storage_types::lemma_bag_key_injective(src, dest);
    }
    let s1 = s.spec_move_data_objects(src, dest, ids)->Ok_0;
    law_move_places_objects(s, src, dest, ids);
    crate::storage_moves::lemma_move_keeps_wf(s, src, dest, ids);
    lemma_move_checked_destination(s, src, dest, ids);
    let from0 = (s.objects)(sk);
    let to1 = (s1.objects)(dk);
    let a = s.bag(sk).stored_by;
    let b = s.bag(dk).stored_by;
    lemma_ascending_exists(ids);
    lemma_ascending_exists(a);
    assert(s1.bag(sk).stored_by == a);
    assert(s1.bags.contains_key(sk) && s1.bags.contains_key(dk));
    let q = ascending(ids);
    assert forall|id: u64| ids.contains(id) implies has_id(from0, id) by {}
    assert(q.map_values(|id: u64| object_with_id(to1, id)) =~= q.map_values(|id: u64| object_with_id(from0, id))) by {
        assert forall|j: int| 0 <= j < q.len() implies object_with_id(to1, #[trigger] q[j]) == object_with_id(from0, q[j]) by {
            assert(q.to_set().contains(q[j]));
            assert(ids.contains(q[j]));
        }
    }
    let chk1 = s1.overflow_failure(c);
    assert forall|j: int| 0 <= j < ascending(a).len() implies chk1(#[trigger] ascending(a)[j]) is None by {
        let x = ascending(a)[j];
        assert(ascending(a).to_set().contains(x));
        assert(a.contains(x));
        assert(s.storage_buckets.contains_key(x));
    }
    crate::sorted::lemma_first_failure_none(ascending(a), chk1);
}

/// Moving there and back gives the storage buckets back.
proof fn lemma_move_back_buckets(s: StorageStateView, src: BagIdType, dest: BagIdType, ids: Set<u64>)
    requires
        round_trip_ready(s, src, dest, ids),
    ensures
        ({
            let c = s.spec_validate_data_objects_on_moving(src, dest, ids)->Ok_0.voucher_update;
            let s1 = s.spec_move_data_objects(src, dest, ids)->Ok_0;
            &&& s1.bag(src.spec_key()).stored_by == s.bag(src.spec_key()).stored_by
            &&& s1.bag(dest.spec_key()).stored_by == s.bag(dest.spec_key()).stored_by
            &&& s1.moved(dest, src, ids, c).storage_buckets == s.storage_buckets
        }),
{
    let sk = src.spec_key();
    let dk = dest.spec_key();
    let c = s.spec_validate_data_objects_on_moving(src, dest, ids)->Ok_0.voucher_update;
    if sk == dk {
        crate::storage_types::lemma_bag_key_injective(src, dest);
    }
    lemma_move_checked_destination(s, src, dest, ids);
    let s1 = s.spec_move_data_objects(src, dest, ids)->Ok_0;
    let s2 = s1.moved(dest, src, ids, c);
    let a = s.bag(sk).stored_by;
    let b = s.bag(dk).stored_by;
    assert(s1.bag(sk).stored_by == a);
    assert(s1.bag(dk).stored_by == b);
    assert forall|x: u64| #[trigger] s.storage_buckets.contains_key(x) implies s2.storage_buckets.contains_key(x)
        && s2.storage_buckets[x] == s.storage_buckets[x] by {
        if a.contains(x) {
            assert(c.objects_number <= s.storage_buckets[x].voucher.objects_used);
        }
        if b.contains(x) {
            assert(c.objects_number + s.storage_buckets[x].voucher.objects_used <= s.storage_buckets[x].voucher.objects_limit);
        }
    }
    assert(s2.storage_buckets =~= s.storage_buckets);
}

/// Moving there and back gives the bags back.
proof fn lemma_move_back_bags(s: StorageStateView, src: BagIdType, dest: BagIdType, ids: Set<u64>)
    requires
        round_trip_ready(s, src, dest, ids),
    ensures
        ({
            let c = s.spec_validate_data_objects_on_moving(src, dest, ids)->Ok_0.voucher_update;
            let s1 = s.spec_move_data_objects(src, dest, ids)->Ok_0;
            forall|k: (u64, u64)| #[trigger] s1.moved(dest, src, ids, c).bag(k) == s.bag(k)
        }),
{
    let sk = src.spec_key();
    let dk = dest.spec_key();
    let c = s.spec_validate_data_objects_on_moving(src, dest, ids)->Ok_0.voucher_update;
    if sk == dk {
        crate::storage_types::lemma_bag_key_injective(src, dest);
    }
    let s1 = s.spec_move_data_objects(src, dest, ids)->Ok_0;
    let s2 = s1.moved(dest, src, ids, c);
    assert(s1.bag(sk).objects_number == s.bag(sk).objects_number - c.objects_number);
    assert(s1.bag(sk).objects_total_size == s.bag(sk).objects_total_size - c.objects_total_size);
    assert(s1.bag(dk).objects_number == s.bag(dk).objects_number + c.objects_number);
    assert(s1.bag(dk).objects_total_size == s.bag(dk).objects_total_size + c.objects_total_size);
    assert forall|k: (u64, u64)| #[trigger] s2.bag(k) == s.bag(k) by {
        if k == sk {
            assert(s2.bag(k) == s.bag(k));
        } else if k == dk {
            assert(s2.bag(k) == s.bag(k));
        }
    }
}

/// Moving there and back gives every bag back its objects.
proof fn lemma_move_back_objects(s: StorageStateView, src: BagIdType, dest: BagIdType, ids: Set<u64>)
    requires
        round_trip_ready(s, src, dest, ids),
    ensures
        ({
            let c = s.spec_validate_data_objects_on_moving(src, dest, ids)->Ok_0.voucher_update;
            let s1 = s.spec_move_data_objects(src, dest, ids)->Ok_0;
            let s2 = s1.moved(dest, src, ids, c);
            &&& forall|k: (u64, u64), id: u64| #[trigger] has_id((s2.objects)(k), id) == has_id((s.objects)(k), id)
            &&& forall|k: (u64, u64), id: u64| #[trigger] has_id((s.objects)(k), id) ==> object_with_id(
                (s2.objects)(k),
                id,
            ) == object_with_id((s.objects)(k), id)
        }),
{
    let sk = src.spec_key();
    let dk = dest.spec_key();
    let c = s.spec_validate_data_objects_on_moving(src, dest, ids)->Ok_0.voucher_update;
    if sk == dk {
        crate::storage_types::lemma_bag_key_injective(src, dest);
    }
    lemma_move_back_validates(s, src, dest, ids);
    let s1 = s.spec_move_data_objects(src, dest, ids)->Ok_0;
    let s2 = s1.moved(dest, src, ids, c);
    law_move_places_objects(s, src, dest, ids);
    assert forall|id: u64| ids.contains(id) implies !has_id((s1.objects)(sk), id) by {}
    law_move_places_objects(s1, dest, src, ids);
    let from0 = (s.objects)(sk);
    let to0 = (s.objects)(dk);
    let from1 = (s1.objects)(sk);
    let to1 = (s1.objects)(dk);
    let from2 = (s2.objects)(sk);
    let to2 = (s2.objects)(dk);
    assert forall|id: u64| #[trigger] has_id(from2, id) == has_id(from0, id) && (has_id(from0, id) ==> object_with_id(
        from2,
        id,
    ) == object_with_id(from0, id)) by {
        if ids.contains(id) {
            assert(has_id(from2, id) && object_with_id(from2, id) == object_with_id(to1, id));
            assert(object_with_id(to1, id) == object_with_id(from0, id));
        } else {
            assert(has_id(to2, id) == has_id(to1, id));
            assert(has_id(from2, id) == has_id(from1, id));
            assert(has_id(from1, id) == has_id(from0, id));
            if has_id(from0, id) {
                assert(object_with_id(from1, id) == object_with_id(from0, id));
                assert(object_with_id(from2, id) == object_with_id(from1, id));
            }
        }
    }
    assert forall|id: u64| #[trigger] has_id(to2, id) == has_id(to0, id) && (has_id(to0, id) ==> object_with_id(
        to2,
        id,
    ) == object_with_id(to0, id)) by {
        if ids.contains(id) {
            assert(!has_id(to2, id));
        } else {
            assert(has_id(to2, id) == has_id(to1, id));
            assert(has_id(to1, id) == has_id(to0, id));
            if has_id(to0, id) {
                assert(object_with_id(to1, id) == object_with_id(to0, id));
                assert(object_with_id(to2, id) == object_with_id(to1, id));
            }
        }
    }
    assert forall|k: (u64, u64), id: u64| #[trigger] has_id((s2.objects)(k), id) == has_id((s.objects)(k), id) by {
        if k == sk {
            assert(has_id(from2, id) == has_id(from0, id));
        } else if k == dk {
            assert(has_id(to2, id) == has_id(to0, id));
        }
    }
    assert forall|k: (u64, u64), id: u64| #[trigger] has_id((s.objects)(k), id) implies object_with_id(
        (s2.objects)(k),
        id,
    ) == object_with_id((s.objects)(k), id) by {
        if k == sk {
            assert(has_id(from2, id) == has_id(from0, id));
        } else if k == dk {
            assert(has_id(to2, id) == has_id(to0, id));
        }
    }
}

/// Moving data objects to another bag and then moving them back
/// succeeds and gives back the state: the same objects in each bag, the same bags and the same
/// storage buckets, when the buckets were within their limits and no counter saturates.
pub proof fn law_move_there_and_back_restores(s: StorageStateView, src: BagIdType, dest: BagIdType, ids: Set<u64>)
    requires
        round_trip_ready(s, src, dest, ids),
    ensures
        ({
            let s1 = s.spec_move_data_objects(src, dest, ids)->Ok_0;
            &&& s1.spec_move_data_objects(dest, src, ids) is Ok
            &&& ({
                let s2 = s1.spec_move_data_objects(dest, src, ids)->Ok_0;
                &&& s2.storage_buckets == s.storage_buckets
                &&& forall|k: (u64, u64)| #[trigger] s2.bag(k) == s.bag(k)
                &&& forall|k: (u64, u64), id: u64| #[trigger]
                    has_id((s2.objects)(k), id) == has_id((s.objects)(k), id)
                &&& forall|k: (u64, u64), id: u64| #[trigger]
                    has_id((s.objects)(k), id) ==> object_with_id((s2.objects)(k), id) == object_with_id(
                        (s.objects)(k),
                        id,
                    )
                &&& s2 == (StorageStateView { objects: s2.objects, bags: s2.bags, storage_buckets: s2.storage_buckets, ..s })
            })
        }),
{
    lemma_move_back_validates(s, src, dest, ids);
    lemma_move_back_buckets(s, src, dest, ids);
    lemma_move_back_bags(s, src, dest, ids);
    lemma_move_back_objects(s, src, dest, ids);
    let c = s.spec_validate_data_objects_on_moving(src, dest, ids)->Ok_0.voucher_update;
    let s1 = s.spec_move_data_objects(src, dest, ids)->Ok_0;
    let s2 = s1.moved(dest, src, ids, c);
    assert(s1 == s.moved(src, dest, ids, c));
    assert(s2 =~= (StorageStateView { objects: s2.objects, bags: s2.bags, storage_buckets: s2.storage_buckets, ..s }));
}

/// The total size of the objects of a creation list.
pub open spec fn creation_list_size(list: Seq<DataObjectCreationParametersView>) -> int
    decreases list.len(),
{
    if list.len() == 0 {
        0
    } else {
        creation_list_size(list.drop_last()) + list.last().size
    }
}

/// A total size is not negative.
proof fn lemma_creation_list_size_nonneg(list: Seq<DataObjectCreationParametersView>)
    ensures
        creation_list_size(list) >= 0,
    decreases list.len(),
{
    if list.len() > 0 {
        lemma_creation_list_size_nonneg(list.drop_last());
    }
}

/// The new objects of a creation list carry one bond each and the sizes of the list.
proof fn lemma_new_objects_totals(s: StorageStateView, list: Seq<DataObjectCreationParametersView>)
    ensures
        ({
            let objs = list.map_values(|c: DataObjectCreationParametersView| s.new_object(c));
            &&& crate::storage_bag_ops::sum_object_bonds(objs) == list.len() * s.data_object_state_bloat_bond_value
            &&& crate::storage_bag_ops::sum_object_sizes(objs) == creation_list_size(list)
        }),
    decreases list.len(),
{
    let objs = list.map_values(|c: DataObjectCreationParametersView| s.new_object(c));
    if list.len() > 0 {
        let d = list.drop_last();
        lemma_new_objects_totals(s, d);
        assert(objs.drop_last() =~= d.map_values(|c: DataObjectCreationParametersView| s.new_object(c)));
        assert(objs.last() == s.new_object(list.last()));
        let n = d.len() as int;
        let b = s.data_object_state_bloat_bond_value as int;
        assert(n * b + b == (n + 1) * b) by (nonlinear_arith);
    } else {
        let b = s.data_object_state_bloat_bond_value as int;
        assert(0 * b == 0);
    }
}

/// A successful upload takes from the account exactly the funds that `funds_needed_for_upload`
/// gives for the number and total size of the objects, and pays nothing back.
pub proof fn law_upload_charges_funds_needed(s: StorageStateView, p: UploadParametersView, usable_balance: Balance)
    requires
        s.spec_upload_data_objects(p, usable_balance) is Ok,
        p.object_creation_list.len() <= u128::MAX,
    ensures
        ({
            let t = s.spec_upload_data_objects(p, usable_balance)->Ok_0.1;
            &&& t.deposit == crate::primitives::spec_saturating_mul(
                s.data_object_state_bloat_bond_value,
                p.object_creation_list.len() as u128,
            ).saturating_add(
                crate::storage_state::spec_data_storage_fee(
                    s.data_object_per_mega_byte_fee,
                    crate::primitives::capped(creation_list_size(p.object_creation_list), u64::MAX as int) as u64,
                ),
            )
            &&& t.withdraw == 0
        }),
{
    let list = p.object_creation_list;
    let op = BagOperationParamsView::Update(list, Set::empty());
    lemma_new_objects_totals(s, list);
    let rm = s.spec_objects_to_remove(p.bag_id, op)->Ok_0;
    let q = ascending(Set::<u64>::empty());
    lemma_ascending_exists(Set::<u64>::empty());
    if q.len() > 0 {
        assert(q.to_set().contains(q[0]));
    }
    assert(rm.1 == 0);
    let news = list.map_values(|c: DataObjectCreationParametersView| s.new_object(c));
    let up = s.spec_objects_to_upload(op)->Ok_0;
    assert(up == crate::storage_bag_ops::totals(news));
    let k = list.len() as int;
    let b = s.data_object_state_bloat_bond_value as int;
    assert(k * b == b * k) by (nonlinear_arith);
    assert(up.1 == crate::primitives::spec_saturating_mul(s.data_object_state_bloat_bond_value, list.len() as u128));
    assert(up.2 == crate::primitives::capped(creation_list_size(list), u64::MAX as int) as u64);
}

/// No data object ID is stored in two bags.
pub open spec fn ids_distinct_across_bags(s: StorageStateView) -> bool {
    forall|k1: (u64, u64), k2: (u64, u64), id: u64|
        #[trigger] has_id((s.objects)(k1), id) && #[trigger] has_id((s.objects)(k2), id) ==> k1 == k2
}

/// Storing an object adds only its own ID.
proof fn lemma_put_ids(t: Seq<(u64, DataObjectView)>, y: u64, o: DataObjectView, x: u64)
    ensures
        has_id(put_object(t, y, o), x) ==> has_id(t, x) || x == y,
{
    let p = put_object(t, y, o);
    if has_id(p, x) && x != y {
        let i = choose|i: int| 0 <= i < p.len() && p[i].0 == x;
        if has_id(t, y) {
            let j = crate::storage_objects::index_of(t, y);
            assert(i != j);
            assert(p[i] == t[i]);
        } else {
            assert(i < t.len());
            assert(p[i] == t[i]);
        }
    }
}

/// Removing IDs adds none.
proof fn lemma_remove_ids_subset(s: Seq<(u64, DataObjectView)>, ids: Set<u64>, x: u64)
    ensures
        has_id(remove_ids(s, ids), x) ==> has_id(s, x),
{
    let pred = |e: (u64, DataObjectView)| !ids.contains(e.0);
    let t = remove_ids(s, ids);
    if has_id(t, x) {
        let i = choose|i: int| 0 <= i < t.len() && t[i].0 == x;
        assert(s.filter(pred).contains(t[i]));
        s.lemma_filter_contains_rev(pred, t[i]);
    }
}

/// Storing objects under the counter adds only IDs from the counter on.
proof fn lemma_insert_objects_fresh(s: Seq<(u64, DataObjectView)>, next: u64, objs: Seq<DataObjectView>, x: u64)
    ensures
        insert_objects(s, next, objs).1 >= next,
        has_id(insert_objects(s, next, objs).0, x) ==> has_id(s, x) || x >= next,
    decreases objs.len(),
{
    if objs.len() > 0 {
        lemma_insert_objects_fresh(s, next, objs.drop_last(), x);
        let prev = insert_objects(s, next, objs.drop_last());
        lemma_put_ids(prev.0, prev.1, objs.last(), x);
    }
}

/// The first state stores no object, so no ID is in two bags.
pub proof fn law_genesis_ids_distinct(config: crate::storage_state::StorageConfig)
    ensures
        ids_distinct_across_bags(crate::storage_state::genesis(config)),
{
}

/// A bag operation that starts below the data object counter's bound keeps every data object
/// ID in at most one bag: the removed IDs leave and the new ones come from the counter, above
/// every stored ID.
pub proof fn law_bag_operation_keeps_ids_distinct(
    s: StorageStateView,
    account_id: AccountId,
    usable_balance: Balance,
    treasury_balance: Balance,
    bag_id: BagIdType,
    op: BagOperationParamsView,
)
    requires
        s.wf(),
        ids_distinct_across_bags(s),
        s.next_data_object_id < u64::MAX,
        s.spec_try_mutating_storage_state(account_id, usable_balance, treasury_balance, bag_id, op) is Ok,
    ensures
        ids_distinct_across_bags(
            s.spec_try_mutating_storage_state(account_id, usable_balance, treasury_balance, bag_id, op)->Ok_0.0,
        ),
{
    let s2 = s.spec_try_mutating_storage_state(account_id, usable_balance, treasury_balance, bag_id, op)->Ok_0.0;
    let key = bag_id.spec_key();
    let up = s.spec_objects_to_upload(op)->Ok_0;
    let old_list = (s.objects)(key);
    let kept = match op {
        BagOperationParamsView::Delete => Seq::empty(),
        BagOperationParamsView::Update(_, ids) => remove_ids(old_list, ids),
        BagOperationParamsView::Create(_, _, _) => old_list,
    };
    assert forall|x: u64| #[trigger] has_id((s2.objects)(key), x) implies has_id(old_list, x)
        || x >= s.next_data_object_id by {
        if !(op is Delete) {
            lemma_insert_objects_fresh(kept, s.next_data_object_id, up.0, x);
        }
        if op is Update {
            lemma_remove_ids_subset(old_list, op->Update_1, x);
        }
    }
    assert forall|k1: (u64, u64), k2: (u64, u64), x: u64|
        #[trigger] has_id((s2.objects)(k1), x) && #[trigger] has_id((s2.objects)(k2), x) implies k1 == k2 by {
        if k1 != key && k2 != key {
        } else if k1 == key && k2 != key {
            assert(ids_below((s.objects)(k2), s.next_data_object_id));
            if !has_id(old_list, x) {
                let l = (s.objects)(k2);
                let i = choose|i: int| 0 <= i < l.len() && #[trigger] l[i].0 == x;
                assert(l[i].0 < s.next_data_object_id);
            }
        } else if k2 == key && k1 != key {
            assert(ids_below((s.objects)(k1), s.next_data_object_id));
            if !has_id(old_list, x) {
                let l = (s.objects)(k1);
                let i = choose|i: int| 0 <= i < l.len() && #[trigger] l[i].0 == x;
                assert(l[i].0 < s.next_data_object_id);
            }
        }
    }
}

/// Moving data objects keeps every data object ID in at most one bag.
pub proof fn law_move_keeps_ids_distinct(s: StorageStateView, src: BagIdType, dest: BagIdType, ids: Set<u64>)
    requires
        s.wf(),
        ids_distinct_across_bags(s),
        s.spec_move_data_objects(src, dest, ids) is Ok,
    ensures
        ids_distinct_across_bags(s.spec_move_data_objects(src, dest, ids)->Ok_0),
{
    let sk = src.spec_key();
    let dk = dest.spec_key();
    if sk == dk {
        crate::storage_types::lemma_bag_key_injective(src, dest);
    }
    let from = (s.objects)(sk);
    let to = (s.objects)(dk);
    assert forall|id: u64| ids.contains(id) implies !has_id(to, id) by {
        assert(has_id(from, id));
    }
    law_move_places_objects(s, src, dest, ids);
    let s1 = s.spec_move_data_objects(src, dest, ids)->Ok_0;
    let from2 = (s1.objects)(sk);
    let to2 = (s1.objects)(dk);
    assert forall|x: u64| #[trigger] has_id(from2, x) implies has_id(from, x) && !ids.contains(x) by {
        if ids.contains(x) {
        }
    }
    assert forall|x: u64| #[trigger] has_id(to2, x) implies has_id(to, x) || has_id(from, x) && ids.contains(x) by {
        if ids.contains(x) {
            assert(has_id(from, x));
        } else {
            assert(has_id(from2, x) == has_id(from, x));
        }
    }
    assert forall|k1: (u64, u64), k2: (u64, u64), x: u64|
        #[trigger] has_id((s1.objects)(k1), x) && #[trigger] has_id((s1.objects)(k2), x) implies k1 == k2 by {
        if k1 == sk {
            assert(has_id(from, x));
        }
        if k2 == sk {
            assert(has_id(from, x));
        }
        if k1 == dk {
            assert(has_id(to2, x));
        }
        if k2 == dk {
            assert(has_id(to2, x));
        }
    }
}

/// Accepting pending data objects keeps every data object ID in at most one bag.
pub proof fn law_accept_pending_keeps_ids_distinct(
    s: StorageStateView,
    worker_id: WorkerId,
    storage_bucket_id: u64,
    bag_id: BagIdType,
    data_objects: Set<u64>,
    transactor_account_id: AccountId,
)
    requires
        ids_distinct_across_bags(s),
        s.spec_accept_pending_data_objects(worker_id, storage_bucket_id, bag_id, data_objects, transactor_account_id) is Ok,
    ensures
        ids_distinct_across_bags(
            s.spec_accept_pending_data_objects(worker_id, storage_bucket_id, bag_id, data_objects, transactor_account_id)->Ok_0,
        ),
{
    let s1 = s.spec_accept_pending_data_objects(worker_id, storage_bucket_id, bag_id, data_objects, transactor_account_id)->Ok_0;
    let key = bag_id.spec_key();
    let l = (s.objects)(key);
    let t = crate::storage_buckets::accept_objects(l, data_objects);
    assert forall|x: u64| #[trigger] has_id((s1.objects)(key), x) implies has_id(l, x) by {
        let i = choose|i: int| 0 <= i < t.len() && t[i].0 == x;
        assert(l[i].0 == x);
    }
    assert forall|k1: (u64, u64), k2: (u64, u64), x: u64|
        #[trigger] has_id((s1.objects)(k1), x) && #[trigger] has_id((s1.objects)(k2), x) implies k1 == k2 by {
        if k1 == key {
            assert(has_id(l, x));
        }
        if k2 == key {
            assert(has_id(l, x));
        }
    }
}

/// The objects stored in a bag, without their IDs.
pub open spec fn bag_objects(s: StorageStateView, key: (u64, u64)) -> Seq<DataObjectView> {
    (s.objects)(key).map_values(|e: (u64, DataObjectView)| e.1)
}

/// The bag's counters are the number and the total size of the objects it stores.
pub open spec fn counters_match(s: StorageStateView, key: (u64, u64)) -> bool {
    &&& s.bag(key).objects_number == bag_objects(s, key).len()
    &&& s.bag(key).objects_total_size == crate::storage_bag_ops::sum_object_sizes(bag_objects(s, key))
}

/// Deleting a dynamic bag whose counters match its objects succeeds whenever the treasury can
/// pay back the state bloat bonds of its objects.
pub proof fn law_delete_dynamic_bag_succeeds(
    s: StorageStateView,
    account_id: AccountId,
    dynamic_bag_id: DynamicBagIdType,
    treasury_balance: Balance,
)
    requires
        s.bags.contains_key(BagIdType::Dynamic(dynamic_bag_id).spec_key()),
        counters_match(s, BagIdType::Dynamic(dynamic_bag_id).spec_key()),
        treasury_balance >= crate::storage_bag_ops::totals(bag_objects(s, BagIdType::Dynamic(dynamic_bag_id).spec_key())).1,
    ensures
        s.spec_delete_dynamic_bag(account_id, dynamic_bag_id, treasury_balance) is Ok,
{
    let bag_id = BagIdType::Dynamic(dynamic_bag_id);
    let key = bag_id.spec_key();
    let op = BagOperationParamsView::Delete;
    let bag = s.spec_retrieve_bag(bag_id, op)->Ok_0;
    assert(bag == s.bag(key));
    let rm = s.spec_objects_to_remove(bag_id, op)->Ok_0;
    assert(rm == crate::storage_bag_ops::totals(bag_objects(s, key)));
    assert(crate::storage_state::megabytes_rounded_up(0) == 0);
    assert(s.data_object_per_mega_byte_fee * 0 == 0);
    let vu = VoucherUpdate {
        objects_number: bag.objects_number.saturating_add(0).saturating_sub(rm.0.len() as u64),
        objects_total_size: bag.objects_total_size.saturating_add(0).saturating_sub(rm.2),
    };
    assert(vu.objects_number == 0 && vu.objects_total_size == 0);
    let fail = s.bucket_failure(vu);
    lemma_ascending_exists_or_any(bag.stored_by, fail);
}

/// A bucket check that no bucket fails gives no failure, whatever the order.
proof fn lemma_ascending_exists_or_any(ids: Set<u64>, fail: spec_fn(u64) -> Option<StorageError>)
    requires
        forall|id: u64| #[trigger] fail(id) is None,
    ensures
        crate::sorted::first_failure(ascending(ids), fail) is None,
{
    let q = ascending(ids);
    assert forall|j: int| 0 <= j < q.len() implies fail(#[trigger] q[j]) is None by {}
    crate::sorted::lemma_first_failure_none(q, fail);
}

/// The total size of two runs of objects is the sum of their sizes.
proof fn lemma_sum_sizes_concat(a: Seq<DataObjectView>, b: Seq<DataObjectView>)
    ensures
        crate::storage_bag_ops::sum_object_sizes(a + b) == crate::storage_bag_ops::sum_object_sizes(a)
            + crate::storage_bag_ops::sum_object_sizes(b),
    decreases b.len(),
{
    if b.len() == 0 {
        assert(a + b =~= a);
    } else {
        lemma_sum_sizes_concat(a, b.drop_last());
        assert((a + b).drop_last() =~= a + b.drop_last());
    }
}

/// An upload that saturates no counter keeps every bag's counters matching its objects.
pub proof fn law_upload_keeps_counters(s: StorageStateView, p: UploadParametersView, usable_balance: Balance)
    requires
        s.wf(),
        s.spec_upload_data_objects(p, usable_balance) is Ok,
        s.next_data_object_id + p.object_creation_list.len() <= u64::MAX,
        forall|k: (u64, u64)| #[trigger] counters_match(s, k),
        s.bag(p.bag_id.spec_key()).objects_number + p.object_creation_list.len() <= u64::MAX,
        s.bag(p.bag_id.spec_key()).objects_total_size + creation_list_size(p.object_creation_list) <= u64::MAX,
    ensures
        forall|k: (u64, u64)| #[trigger] counters_match(s.spec_upload_data_objects(p, usable_balance)->Ok_0.0, k),
{
    let s2 = s.spec_upload_data_objects(p, usable_balance)->Ok_0.0;
    let key = p.bag_id.spec_key();
    let list = p.object_creation_list;
    let op = BagOperationParamsView::Update(list, Set::empty());
    let news = list.map_values(|c: DataObjectCreationParametersView| s.new_object(c));
    law_upload_appends_objects(s, p, usable_balance);
    lemma_new_objects_totals(s, list);
    let q = ascending(Set::<u64>::empty());
    lemma_ascending_exists(Set::<u64>::empty());
    if q.len() > 0 {
        assert(q.to_set().contains(q[0]));
    }
    let rm = s.spec_objects_to_remove(p.bag_id, op)->Ok_0;
    assert(rm.0.len() == 0 && rm.2 == 0);
    let up = s.spec_objects_to_upload(op)->Ok_0;
    assert(up == crate::storage_bag_ops::totals(news));
    let added = appended(s.next_data_object_id, news);
    assert(added.map_values(|e: (u64, DataObjectView)| e.1) =~= news);
    assert(((s.objects)(key) + added).map_values(|e: (u64, DataObjectView)| e.1) =~= bag_objects(s, key) + news);
    lemma_sum_sizes_concat(bag_objects(s, key), news);
    assert(counters_match(s, key));
    assert(bag_objects(s2, key) == bag_objects(s, key) + news);
    lemma_creation_list_size_nonneg(list);
    assert(up.2 == creation_list_size(list));
    assert(s2.bag(key).objects_number == s.bag(key).objects_number + list.len());
    assert(s2.bag(key).objects_total_size == s.bag(key).objects_total_size + creation_list_size(list));
    assert(counters_match(s2, key));
    assert forall|k: (u64, u64)| #[trigger] counters_match(s2, k) by {
        if k != key {
            assert(counters_match(s, k));
            assert(s2.bag(k) == s.bag(k));
            assert((s2.objects)(k) == (s.objects)(k));
        }
    }
}

/// Sizes add up to no negative total.
proof fn lemma_sum_sizes_nonneg(a: Seq<DataObjectView>)
    ensures
        crate::storage_bag_ops::sum_object_sizes(a) >= 0,
    decreases a.len(),
{
    if a.len() > 0 {
        lemma_sum_sizes_nonneg(a.drop_last());
    }
}

/// The objects of a list of entries, without their IDs.
pub open spec fn entry_objects(l: Seq<(u64, DataObjectView)>) -> Seq<DataObjectView> {
    l.map_values(|e: (u64, DataObjectView)| e.1)
}

/// In a list with distinct IDs, the object under an ID is the one of the list without its last
/// entry, when the last entry has another ID.
proof fn lemma_object_in_prefix(l: Seq<(u64, DataObjectView)>, y: u64)
    requires
        unique_ids(l),
        l.len() > 0,
        has_id(l.drop_last(), y),
    ensures
        has_id(l, y),
        object_with_id(l, y) == object_with_id(l.drop_last(), y),
{
    let d = l.drop_last();
    let i = choose|i: int| 0 <= i < d.len() && d[i].0 == y;
    assert(l[i] == d[i]);
    lemma_object_at(l, i);
    crate::storage_objects::lemma_remove_ids_unique(l, Set::empty());
    assert(unique_ids(d)) by {
        assert forall|a: int, b: int| 0 <= a < d.len() && 0 <= b < d.len() && a != b implies d[a].0 != d[b].0 by {
            assert(l[a] == d[a] && l[b] == d[b]);
        }
    }
    lemma_object_at(d, i);
}

/// Removing one stored ID takes one entry and its object's size away.
proof fn lemma_remove_one_totals(l: Seq<(u64, DataObjectView)>, y: u64)
    requires
        unique_ids(l),
        has_id(l, y),
    ensures
        remove_ids(l, set![y]).len() + 1 == l.len(),
        crate::storage_bag_ops::sum_object_sizes(entry_objects(remove_ids(l, set![y]))) + object_with_id(l, y).size
            == crate::storage_bag_ops::sum_object_sizes(entry_objects(l)),
    decreases l.len(),
{
    reveal(Seq::filter);
    let d = l.drop_last();
    let last = l.last();
    assert(entry_objects(l).drop_last() =~= entry_objects(d));
    assert(unique_ids(d)) by {
        assert forall|a: int, b: int| 0 <= a < d.len() && 0 <= b < d.len() && a != b implies d[a].0 != d[b].0 by {
            assert(l[a] == d[a] && l[b] == d[b]);
        }
    }
    lemma_object_at(l, l.len() - 1);
    if last.0 == y {
        assert forall|i: int| 0 <= i < d.len() implies !set![y].contains(#[trigger] d[i].0) by {
            assert(l[i] == d[i]);
        }
        lemma_remove_absent_ids(d, set![y]);
        assert(remove_ids(l, set![y]) == remove_ids(d, set![y]));
    } else {
        assert(has_id(d, y)) by {
            let i = choose|i: int| 0 <= i < l.len() && l[i].0 == y;
            assert(d[i] == l[i]);
        }
        lemma_object_in_prefix(l, y);
        lemma_remove_one_totals(d, y);
        let r = remove_ids(d, set![y]);
        assert(remove_ids(l, set![y]) == r.push(last));
        assert(entry_objects(r.push(last)).drop_last() =~= entry_objects(r));
    }
}

/// Removing IDs in two steps removes them all.
proof fn lemma_remove_ids_twice(l: Seq<(u64, DataObjectView)>, a: Set<u64>, y: u64)
    ensures
        remove_ids(remove_ids(l, a), set![y]) == remove_ids(l, a.insert(y)),
    decreases l.len(),
{
    reveal(Seq::filter);
    if l.len() > 0 {
        let d = l.drop_last();
        let last = l.last();
        lemma_remove_ids_twice(d, a, y);
        let ra = remove_ids(d, a);
        if !a.contains(last.0) {
            assert(remove_ids(l, a) == ra.push(last));
            assert(ra.push(last).drop_last() =~= ra);
            assert(ra.push(last).last() == last);
        } else {
            assert(remove_ids(l, a) == ra);
        }
    } else {
        assert(remove_ids(remove_ids(l, a), set![y]) =~= remove_ids(l, a.insert(y)));
    }
}

/// Removing distinct stored IDs takes away as many entries and the sizes of their objects.
proof fn lemma_remove_many_totals(l: Seq<(u64, DataObjectView)>, q: Seq<u64>)
    requires
        unique_ids(l),
        q.no_duplicates(),
        forall|j: int| 0 <= j < q.len() ==> has_id(l, #[trigger] q[j]),
    ensures
        remove_ids(l, q.to_set()).len() + q.len() == l.len(),
        crate::storage_bag_ops::sum_object_sizes(entry_objects(remove_ids(l, q.to_set())))
            + crate::storage_bag_ops::sum_object_sizes(q.map_values(|id: u64| object_with_id(l, id)))
            == crate::storage_bag_ops::sum_object_sizes(entry_objects(l)),
    decreases q.len(),
{
    if q.len() == 0 {
        assert(q.to_set() =~= Set::<u64>::empty());
        lemma_remove_no_ids(l);
    } else {
        let d = q.drop_last();
        let y = q.last();
        assert(d.no_duplicates());
        assert forall|j: int| 0 <= j < d.len() implies has_id(l, #[trigger] d[j]) by {
            assert(d[j] == q[j]);
        }
        lemma_remove_many_totals(l, d);
        let r = remove_ids(l, d.to_set());
        crate::storage_objects::lemma_remove_ids_unique(l, d.to_set());
        assert(!d.to_set().contains(y)) by {
            if d.contains(y) {
                let j = choose|j: int| 0 <= j < d.len() && d[j] == y;
                assert(q[j] == q[q.len() - 1]);
            }
        }
        assert(has_id(l, y)) by {
            assert(has_id(l, q[q.len() - 1]));
        }
        // y is still in r, with the same object
        let i = choose|i: int| 0 <= i < l.len() && l[i].0 == y;
        let pred = |e: (u64, DataObjectView)| !d.to_set().contains(e.0);
        l.lemma_filter_contains(pred, i);
        let k = choose|k: int| 0 <= k < r.len() && r[k] == l[i];
        assert(has_id(r, y));
        lemma_object_at(r, k);
        lemma_object_at(l, i);
        lemma_remove_one_totals(r, y);
        lemma_remove_ids_twice(l, d.to_set(), y);
        assert(d.to_set().insert(y) =~= q.to_set()) by {
            assert(q =~= d.push(y));
            crate::sorted::lemma_take_succ_to_set(q, q.len() - 1);
            assert(q.take(q.len() - 1) =~= d);
            assert(q.take(q.len() as int) =~= q);
        }
        assert(q.map_values(|id: u64| object_with_id(l, id)).drop_last() =~= d.map_values(
            |id: u64| object_with_id(l, id),
        ));
    }
}

/// Deleting data objects keeps every bag's counters matching its objects.
pub proof fn law_delete_keeps_counters(
    s: StorageStateView,
    account_id: AccountId,
    bag_id: BagIdType,
    ids: Set<u64>,
    treasury_balance: Balance,
)
    requires
        s.wf(),
        ids.finite(),
        s.spec_delete_data_objects(account_id, bag_id, ids, treasury_balance) is Ok,
        forall|k: (u64, u64)| #[trigger] counters_match(s, k),
    ensures
        forall|k: (u64, u64)| #[trigger] counters_match(
            s.spec_delete_data_objects(account_id, bag_id, ids, treasury_balance)->Ok_0.0,
            k,
        ),
{
    let s2 = s.spec_delete_data_objects(account_id, bag_id, ids, treasury_balance)->Ok_0.0;
    let key = bag_id.spec_key();
    let l = (s.objects)(key);
    let op = BagOperationParamsView::Update(Seq::empty(), ids);
    assert(s.spec_objects_to_upload(op)->Ok_0.0 =~= Seq::<DataObjectView>::empty());
    assert(s.spec_objects_to_upload(op)->Ok_0.2 == 0);
    law_delete_removes_objects(s, account_id, bag_id, ids, treasury_balance);
    let q = ascending(ids);
    lemma_ascending_exists(ids);
    crate::sorted::lemma_increasing_no_duplicates(q);
    assert forall|j: int| 0 <= j < q.len() implies has_id(l, #[trigger] q[j]) by {
        assert(q.to_set().contains(q[j]));
    }
    assert(unique_ids(l));
    lemma_remove_many_totals(l, q);
    let rest = remove_ids(l, ids);
    lemma_sum_sizes_nonneg(entry_objects(rest));
    lemma_sum_sizes_nonneg(q.map_values(|id: u64| object_with_id(l, id)));
    assert(counters_match(s, key));
    assert((s2.objects)(key) == rest);
    assert(bag_objects(s2, key) == entry_objects(rest));
    assert(s2.bag(key).objects_number == bag_objects(s2, key).len());
    assert(s2.bag(key).objects_total_size == crate::storage_bag_ops::sum_object_sizes(bag_objects(s2, key)));
    assert forall|k: (u64, u64)| #[trigger] counters_match(s2, k) by {
        if k != key {
            assert(counters_match(s, k));
            assert(s2.bag(k) == s.bag(k));
            assert((s2.objects)(k) == (s.objects)(k));
        }
    }
}

/// The change that objects make to a bag counts them and adds up their sizes, when neither
/// total reaches the counters' bound.
proof fn lemma_bag_update_counts(objs: Seq<DataObjectView>)
    requires
        objs.len() <= u64::MAX,
        crate::storage_bag_ops::sum_object_sizes(objs) <= u64::MAX,
    ensures
        crate::storage_moves::bag_update_of(objs).voucher_update.objects_number == objs.len(),
        crate::storage_moves::bag_update_of(objs).voucher_update.objects_total_size == crate::storage_bag_ops::sum_object_sizes(objs),
    decreases objs.len(),
{
    if objs.len() > 0 {
        lemma_sum_sizes_nonneg(objs.drop_last());
        lemma_bag_update_counts(objs.drop_last());
    }
}

/// The entries that moving `q` out of `src` appends to the destination.
pub open spec fn moved_entries(src: Seq<(u64, DataObjectView)>, q: Seq<u64>) -> Seq<(u64, DataObjectView)> {
    q.map_values(|id: u64| (id, object_with_id(src, id)))
}

/// Moving distinct IDs of `src` that `dest` does not hold removes them from `src` and appends
/// their entries to `dest`, in order.
proof fn lemma_swap_entries_shape(src: Seq<(u64, DataObjectView)>, dest: Seq<(u64, DataObjectView)>, q: Seq<u64>)
    requires
        unique_ids(src),
        q.no_duplicates(),
        forall|j: int| 0 <= j < q.len() ==> has_id(src, #[trigger] q[j]) && !has_id(dest, q[j]),
    ensures
        swap_entries(src, dest, q) == (remove_ids(src, q.to_set()), dest + moved_entries(src, q)),
    decreases q.len(),
{
    if q.len() == 0 {
        assert(q.to_set() =~= Set::<u64>::empty());
        lemma_remove_no_ids(src);
        assert(dest + moved_entries(src, q) =~= dest);
    } else {
        let d = q.drop_last();
        let y = q.last();
        assert(d.no_duplicates());
        assert forall|j: int| 0 <= j < d.len() implies has_id(src, #[trigger] d[j]) && !has_id(dest, d[j]) by {
            assert(d[j] == q[j]);
        }
        lemma_swap_entries_shape(src, dest, d);
        let r = remove_ids(src, d.to_set());
        let t = dest + moved_entries(src, d);
        assert(!d.to_set().contains(y)) by {
            if d.contains(y) {
                let j = choose|j: int| 0 <= j < d.len() && d[j] == y;
                assert(q[j] == q[q.len() - 1]);
            }
        }
        assert(has_id(src, y) && !has_id(dest, y)) by {
            assert(q[q.len() - 1] == y);
        }
        assert(!has_id(t, y)) by {
            if has_id(t, y) {
                let i = choose|i: int| 0 <= i < t.len() && t[i].0 == y;
                if i < dest.len() {
                    assert(dest[i] == t[i]);
                } else {
                    assert(t[i] == moved_entries(src, d)[i - dest.len()]);
                    assert(d[i - dest.len()] == y);
                }
            }
        }
        let i = choose|i: int| 0 <= i < src.len() && src[i].0 == y;
        let pred = |e: (u64, DataObjectView)| !d.to_set().contains(e.0);
        src.lemma_filter_contains(pred, i);
        crate::storage_objects::lemma_remove_ids_unique(src, d.to_set());
        let k = choose|k: int| 0 <= k < r.len() && r[k] == src[i];
        assert(has_id(r, y));
        lemma_object_at(r, k);
        lemma_object_at(src, i);
        lemma_remove_ids_twice(src, d.to_set(), y);
        assert(d.to_set().insert(y) =~= q.to_set()) by {
            crate::sorted::lemma_take_succ_to_set(q, q.len() - 1);
            assert(q.take(q.len() - 1) =~= d);
            assert(q.take(q.len() as int) =~= q);
        }
        assert(put_object(t, y, object_with_id(r, y)) == t.push((y, object_with_id(src, y))));
        assert(t.push((y, object_with_id(src, y))) =~= dest + moved_entries(src, q));
    }
}

/// Moving data objects keeps every bag's counters matching its objects, when no data object ID
/// is in two bags and the destination bag's counters can take the moved objects.
pub proof fn law_move_keeps_counters(s: StorageStateView, src: BagIdType, dest: BagIdType, ids: Set<u64>)
    requires
        s.wf(),
        ids_distinct_across_bags(s),
        ids.finite(),
        s.spec_move_data_objects(src, dest, ids) is Ok,
        forall|k: (u64, u64)| #[trigger] counters_match(s, k),
        ({
            let c = s.spec_validate_data_objects_on_moving(src, dest, ids)->Ok_0.voucher_update;
            &&& s.bag(dest.spec_key()).objects_number + c.objects_number <= u64::MAX
            &&& s.bag(dest.spec_key()).objects_total_size + c.objects_total_size <= u64::MAX
        }),
    ensures
        forall|k: (u64, u64)| #[trigger] counters_match(s.spec_move_data_objects(src, dest, ids)->Ok_0, k),
{
    let sk = src.spec_key();
    let dk = dest.spec_key();
    if sk == dk {
        crate::storage_types::lemma_bag_key_injective(src, dest);
    }
    let from = (s.objects)(sk);
    let to = (s.objects)(dk);
    let q = ascending(ids);
    lemma_ascending_exists(ids);
    crate::sorted::lemma_increasing_no_duplicates(q);
    assert forall|j: int| 0 <= j < q.len() implies has_id(from, #[trigger] q[j]) && !has_id(to, q[j]) by {
        assert(q.to_set().contains(q[j]));
        assert(has_id(from, q[j]));
    }
    assert(unique_ids(from));
    lemma_swap_entries_shape(from, to, q);
    lemma_remove_many_totals(from, q);
    let objs = q.map_values(|id: u64| object_with_id(from, id));
    let rest = remove_ids(from, q.to_set());
    assert(q.to_set() =~= ids);
    lemma_sum_sizes_nonneg(entry_objects(rest));
    assert(counters_match(s, sk));
    assert(counters_match(s, dk));
    lemma_bag_update_counts(objs);
    let c = s.spec_validate_data_objects_on_moving(src, dest, ids)->Ok_0.voucher_update;
    assert(c.objects_number == q.len() && c.objects_total_size == crate::storage_bag_ops::sum_object_sizes(objs));
    let s1 = s.spec_move_data_objects(src, dest, ids)->Ok_0;
    assert(s1 == s.moved(src, dest, ids, c));
    assert((s1.objects)(sk) == rest);
    assert((s1.objects)(dk) == to + moved_entries(from, q));
    assert(entry_objects(to + moved_entries(from, q)) =~= entry_objects(to) + objs);
    lemma_sum_sizes_concat(entry_objects(to), objs);
    assert(counters_match(s1, sk));
    assert(counters_match(s1, dk));
    assert forall|k: (u64, u64)| #[trigger] counters_match(s1, k) by {
        if k != sk && k != dk {
            assert(counters_match(s, k));
            assert(s1.bag(k) == s.bag(k));
            assert((s1.objects)(k) == (s.objects)(k));
        }
    }
}

/// Creating a dynamic bag that saturates no counter keeps every bag's counters matching its
/// objects: the new bag counts the objects uploaded with it.
pub proof fn law_create_keeps_counters(s: StorageStateView, p: DynBagCreationParametersView, usable_balance: Balance)
    requires
        s.wf(),
        s.spec_create_dynamic_bag(p, usable_balance) is Ok,
        s.next_data_object_id + p.object_creation_list.len() <= u64::MAX,
        creation_list_size(p.object_creation_list) <= u64::MAX,
        forall|k: (u64, u64)| #[trigger] counters_match(s, k),
    ensures
        forall|k: (u64, u64)| #[trigger] counters_match(s.spec_create_dynamic_bag(p, usable_balance)->Ok_0.0, k),
{
    let s2 = s.spec_create_dynamic_bag(p, usable_balance)->Ok_0.0;
    let bag_id = BagIdType::Dynamic(p.bag_id);
    let key = bag_id.spec_key();
    let list = p.object_creation_list;
    let op = BagOperationParamsView::Create(list, p.storage_buckets, p.distribution_buckets);
    let news = list.map_values(|c: DataObjectCreationParametersView| s.new_object(c));
    lemma_new_objects_totals(s, list);
    lemma_creation_list_size_nonneg(list);
    let up = s.spec_objects_to_upload(op)->Ok_0;
    assert(up == crate::storage_bag_ops::totals(news));
    assert(counters_match(s, key));
    let old_list = (s.objects)(key);
    assert(!s.bags.contains_key(key));
    assert(old_list.len() == 0);
    assert(ids_below(old_list, s.next_data_object_id));
    lemma_insert_fresh(old_list, s.next_data_object_id, news);
    let added = appended(s.next_data_object_id, news);
    assert((s2.objects)(key) == old_list + added);
    assert(old_list + added =~= added);
    assert(added.map_values(|e: (u64, DataObjectView)| e.1) =~= news);
    assert(bag_objects(s2, key) == news);
    assert(counters_match(s2, key));
    assert forall|k: (u64, u64)| #[trigger] counters_match(s2, k) by {
        if k != key {
            assert(counters_match(s, k));
            assert(s2.bag(k) == s.bag(k));
            assert((s2.objects)(k) == (s.objects)(k));
        }
    }
}

/// Deleting a dynamic bag keeps every bag's counters matching its objects: the deleted bag is
/// empty and stores nothing.
pub proof fn law_delete_bag_keeps_counters(
    s: StorageStateView,
    account_id: AccountId,
    dynamic_bag_id: DynamicBagIdType,
    treasury_balance: Balance,
)
    requires
        s.spec_delete_dynamic_bag(account_id, dynamic_bag_id, treasury_balance) is Ok,
        forall|k: (u64, u64)| #[trigger] counters_match(s, k),
    ensures
        forall|k: (u64, u64)| #[trigger] counters_match(
            s.spec_delete_dynamic_bag(account_id, dynamic_bag_id, treasury_balance)->Ok_0.0,
            k,
        ),
{
    let s2 = s.spec_delete_dynamic_bag(account_id, dynamic_bag_id, treasury_balance)->Ok_0.0;
    let key = BagIdType::Dynamic(dynamic_bag_id).spec_key();
    assert(bag_objects(s2, key) =~= Seq::<DataObjectView>::empty());
    assert(counters_match(s2, key));
    assert forall|k: (u64, u64)| #[trigger] counters_match(s2, k) by {
        if k != key {
            assert(counters_match(s, k));
            assert(s2.bag(k) == s.bag(k));
            assert((s2.objects)(k) == (s.objects)(k));
        }
    }
}

/// Marking objects accepted keeps the number of entries and the total size.
proof fn lemma_accept_keeps_sizes(l: Seq<(u64, DataObjectView)>, d: Set<u64>)
    ensures
        entry_objects(crate::storage_buckets::accept_objects(l, d)).len() == entry_objects(l).len(),
        crate::storage_bag_ops::sum_object_sizes(entry_objects(crate::storage_buckets::accept_objects(l, d)))
            == crate::storage_bag_ops::sum_object_sizes(entry_objects(l)),
    decreases l.len(),
{
    if l.len() > 0 {
        let t = crate::storage_buckets::accept_objects(l, d);
        lemma_accept_keeps_sizes(l.drop_last(), d);
        assert(crate::storage_buckets::accept_objects(l.drop_last(), d) =~= t.drop_last());
        assert(entry_objects(t).drop_last() =~= entry_objects(t.drop_last()));
        assert(entry_objects(l).drop_last() =~= entry_objects(l.drop_last()));
    }
}

/// Accepting pending data objects keeps every bag's counters matching its objects.
pub proof fn law_accept_pending_keeps_counters(
    s: StorageStateView,
    worker_id: WorkerId,
    storage_bucket_id: u64,
    bag_id: BagIdType,
    data_objects: Set<u64>,
    transactor_account_id: AccountId,
)
    requires
        s.spec_accept_pending_data_objects(worker_id, storage_bucket_id, bag_id, data_objects, transactor_account_id) is Ok,
        forall|k: (u64, u64)| #[trigger] counters_match(s, k),
    ensures
        forall|k: (u64, u64)| #[trigger] counters_match(
            s.spec_accept_pending_data_objects(worker_id, storage_bucket_id, bag_id, data_objects, transactor_account_id)->Ok_0,
            k,
        ),
{
    let s1 = s.spec_accept_pending_data_objects(worker_id, storage_bucket_id, bag_id, data_objects, transactor_account_id)->Ok_0;
    let key = bag_id.spec_key();
    lemma_accept_keeps_sizes((s.objects)(key), data_objects);
    assert forall|k: (u64, u64)| #[trigger] counters_match(s1, k) by {
        assert(counters_match(s, k));
        assert(s1.bag(k) == s.bag(k));
    }
}

/// Changing the storage buckets of a bag keeps every bag's counters matching its objects.
pub proof fn law_bucket_update_keeps_counters(s: StorageStateView, bag_id: BagIdType, add: Set<u64>, remove: Set<u64>)
    requires
        s.spec_update_storage_buckets_for_bag(bag_id, add, remove) is Ok,
        forall|k: (u64, u64)| #[trigger] counters_match(s, k),
    ensures
        forall|k: (u64, u64)| #[trigger] counters_match(s.spec_update_storage_buckets_for_bag(bag_id, add, remove)->Ok_0, k),
{
    let s1 = s.spec_update_storage_buckets_for_bag(bag_id, add, remove)->Ok_0;
    assert forall|k: (u64, u64)| #[trigger] counters_match(s1, k) by {
        assert(counters_match(s, k));
    }
}

/// Changing the distribution buckets of a bag keeps every bag's counters matching its objects.
pub proof fn law_distribution_update_keeps_counters(
    s: StorageStateView,
    bag_id: BagIdType,
    family_id: u64,
    add: Set<u64>,
    remove: Set<u64>,
)
    requires
        s.spec_update_distribution_buckets_for_bag(bag_id, family_id, add, remove) is Ok,
        forall|k: (u64, u64)| #[trigger] counters_match(s, k),
    ensures
        forall|k: (u64, u64)| #[trigger] counters_match(
            s.spec_update_distribution_buckets_for_bag(bag_id, family_id, add, remove)->Ok_0,
            k,
        ),
{
    let s1 = s.spec_update_distribution_buckets_for_bag(bag_id, family_id, add, remove)->Ok_0;
    assert forall|k: (u64, u64)| #[trigger] counters_match(s1, k) by {
        assert(counters_match(s, k));
    }
}

/// The first state's bags count their objects: none.
pub proof fn law_genesis_counters_match(config: crate::storage_state::StorageConfig)
    ensures
        forall|k: (u64, u64)| #[trigger] counters_match(crate::storage_state::genesis(config), k),
{
    let s = crate::storage_state::genesis(config);
    assert forall|k: (u64, u64)| #[trigger] counters_match(s, k) by {
        assert(bag_objects(s, k) =~= Seq::<DataObjectView>::empty());
    }
}

} // verus!
