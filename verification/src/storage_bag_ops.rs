use vstd::prelude::*;
use std::collections::{BTreeMap, BTreeSet};

use crate::primitives::{capped, contains_bytes, AccountId, DataObjectId, StorageBucketId};
use crate::sorted::{ascending, ascending_vec, first_failure, lemma_first_failure_at, lemma_first_failure_none, lemma_take_succ_to_set, pair_vec};
use crate::storage_errors::StorageError;
use crate::storage_state::{StorageState, StorageStateView, has_id, object_with_id, objects_view, unique_ids, view_result};
use crate::storage_types::{
    BagIdType, BagRecord, BagView, DataObject, DistributionBucketRecord, DistributionBucketView, StorageBucketRecord, VoucherUpdate, DataObjectCreationParameters, DataObjectCreationParametersView, DataObjectView,
    copy_bytes,
};

verus! {

/// Bag operation: upload and/or remove objects, create a bag with objects, or delete a bag.
pub enum BagOperationParamsTypes {
    /// Update operation: both upload and removal allowed.
    Update(Vec<DataObjectCreationParameters>, BTreeSet<DataObjectId>),
    /// Create operation: create bag with upload objects, storage and distribution buckets.
    Create(Vec<DataObjectCreationParameters>, BTreeSet<StorageBucketId>, BTreeSet<(u64, u64)>),
    /// Delete bag & its content.
    Delete,
}

/// The mathematical value of a bag operation.
pub enum BagOperationParamsView {
    Update(Seq<DataObjectCreationParametersView>, Set<u64>),
    Create(Seq<DataObjectCreationParametersView>, Set<u64>, Set<(u64, u64)>),
    Delete,
}

/// The values of a list of creation parameters.
pub open spec fn params_view(v: Seq<DataObjectCreationParameters>) -> Seq<DataObjectCreationParametersView> {
    v.map_values(|p: DataObjectCreationParameters| p@)
}

/// The values of a list of data objects.
pub open spec fn data_objects_view(v: Seq<DataObject>) -> Seq<DataObjectView> {
    v.map_values(|o: DataObject| o@)
}

impl View for BagOperationParamsTypes {
    type V = BagOperationParamsView;

    open spec fn view(&self) -> BagOperationParamsView {
        match self {
            BagOperationParamsTypes::Update(l, r) => BagOperationParamsView::Update(params_view(l@), r@),
            BagOperationParamsTypes::Create(l, s, d) => BagOperationParamsView::Create(params_view(l@), s@, d@),
            BagOperationParamsTypes::Delete => BagOperationParamsView::Delete,
        }
    }
}

impl BagOperationParamsTypes {
    /// Whether this is the bag deletion.
    pub fn is_delete(&self) -> (r: bool)
        ensures
            r == (self@ is Delete),
    {
        match self {
            BagOperationParamsTypes::Delete => true,
            _ => false,
        }
    }
}

/// A bag operation on a given bag.
pub struct BagOperationRecord {
    /// The bag.
    pub bag_id: BagIdType,
    /// The operation.
    pub params: BagOperationParamsTypes,
}

/// Sum of the sizes of creation parameters.
pub open spec fn sum_param_sizes(s: Seq<DataObjectCreationParametersView>) -> int
    decreases s.len(),
{
    if s.len() == 0 {
        0
    } else {
        sum_param_sizes(s.drop_last()) + s.last().size
    }
}

/// Sum of the sizes of data objects.
pub open spec fn sum_object_sizes(s: Seq<DataObjectView>) -> int
    decreases s.len(),
{
    if s.len() == 0 {
        0
    } else {
        sum_object_sizes(s.drop_last()) + s.last().size
    }
}

/// Sum of the state bloat bonds of data objects.
pub open spec fn sum_object_bonds(s: Seq<DataObjectView>) -> int
    decreases s.len(),
{
    if s.len() == 0 {
        0
    } else {
        sum_object_bonds(s.drop_last()) + s.last().state_bloat_bond
    }
}

/// Objects, their total state bloat bond and total size (each saturating at its bound).
pub open spec fn totals(objs: Seq<DataObjectView>) -> (Seq<DataObjectView>, u128, u64) {
    (objs, capped(sum_object_bonds(objs), u128::MAX as int) as u128, capped(sum_object_sizes(objs), u64::MAX as int) as u64)
}

impl StorageStateView {
    /// The first rule that uploading an object with parameters `p` breaks.
    pub open spec fn upload_check(self, p: DataObjectCreationParametersView) -> Option<StorageError> {
        if self.uploading_blocked {
            Some(StorageError::UploadingBlocked)
        } else if p.size >= self.config.max_data_object_size {
            Some(StorageError::MaxDataObjectSizeExceeded)
        } else if p.size == 0 {
            Some(StorageError::ZeroObjectSize)
        } else if p.ipfs_content_id.len() == 0 {
            Some(StorageError::EmptyContentId)
        } else if self.blacklist.contains(p.ipfs_content_id) {
            Some(StorageError::DataObjectBlacklisted)
        } else {
            None
        }
    }

    /// The data object that uploading with parameters `p` creates.
    pub open spec fn new_object(self, p: DataObjectCreationParametersView) -> DataObjectView {
        DataObjectView {
            accepted: false,
            state_bloat_bond: self.data_object_state_bloat_bond_value,
            size: p.size,
            ipfs_content_id: p.ipfs_content_id,
        }
    }

    /// The objects created from a creation list with their total bond and size, or the first
    /// rule that an entry breaks.
    pub open spec fn spec_objects_from_list(self, list: Seq<DataObjectCreationParametersView>) -> Result<
        (Seq<DataObjectView>, u128, u64),
        StorageError,
    > {
        match first_failure(list, |p: DataObjectCreationParametersView| self.upload_check(p)) {
            Some(e) => Err(e),
            None => Ok(totals(list.map_values(|p: DataObjectCreationParametersView| self.new_object(p)))),
        }
    }

    /// The objects that an operation removes, with their total bond and size.
    pub open spec fn spec_objects_to_remove(self, bag_id: BagIdType, op: BagOperationParamsView) -> Result<
        (Seq<DataObjectView>, u128, u64),
        StorageError,
    > {
        let s = (self.objects)(bag_id.spec_key());
        match op {
            BagOperationParamsView::Delete => Ok(totals(s.map_values(|e: (u64, DataObjectView)| e.1))),
            BagOperationParamsView::Create(_, _, _) => Ok((Seq::empty(), 0, 0)),
            BagOperationParamsView::Update(_, ids) => {
                if exists|id: u64| ids.contains(id) && !has_id(s, id) {
                    Err(StorageError::DataObjectDoesntExist)
                } else {
                    Ok(totals(ascending(ids).map_values(|id: u64| object_with_id(s, id))))
                }
            },
        }
    }

    /// The bag that an operation works on: a new one for the creation, the existing one otherwise.
    pub open spec fn spec_retrieve_bag(self, bag_id: BagIdType, op: BagOperationParamsView) -> Result<
        BagView,
        StorageError,
    > {
        match op {
            BagOperationParamsView::Create(_, storage_buckets, distribution_buckets) => {
                if !(bag_id is Dynamic) {
                    Err(StorageError::DynamicBagDoesntExist)
                } else if self.spec_ensure_bag_exists(bag_id) is Ok {
                    Err(StorageError::DynamicBagExists)
                } else {
                    Ok(BagView {
                        stored_by: storage_buckets,
                        distributed_by: distribution_buckets,
                        objects_total_size: 0,
                        objects_number: 0,
                    })
                }
            },
            _ => self.spec_ensure_bag_exists(bag_id),
        }
    }

    /// The storage bucket `id` after the operation, given that its voucher takes the new totals.
    pub open spec fn bucket_after(self, id: u64, vu: VoucherUpdate, op: BagOperationParamsView) -> StorageBucketRecord {
        let b = self.storage_buckets[id];
        let v = b.voucher.spec_try_update(vu)->Ok_0;
        match op {
            BagOperationParamsView::Create(_, _, _) => StorageBucketRecord {
                voucher: v,
                assigned_bags: b.assigned_bags.saturating_add(1),
                ..b
            },
            BagOperationParamsView::Delete => StorageBucketRecord {
                voucher: v,
                assigned_bags: b.assigned_bags.saturating_sub(1),
                ..b
            },
            BagOperationParamsView::Update(_, _) => StorageBucketRecord { voucher: v, ..b },
        }
    }

    /// Whether the storage bucket `id` exists and its voucher takes the new totals.
    pub open spec fn bucket_accepts(self, id: u64, vu: VoucherUpdate) -> bool {
        self.storage_buckets.contains_key(id) && self.storage_buckets[id].voucher.spec_try_update(vu) is Ok
    }

    /// The voucher error of an existing storage bucket that cannot take the new totals.
    pub open spec fn bucket_failure(self, vu: VoucherUpdate) -> spec_fn(u64) -> Option<StorageError> {
        |id: u64|
            if self.storage_buckets.contains_key(id) {
                match self.storage_buckets[id].voucher.spec_try_update(vu) {
                    Err(e) => Some(e),
                    Ok(_) => None,
                }
            } else {
                None
            }
    }

    /// The updated storage buckets of a bag (missing buckets are left out): the first (by ID)
    /// whose voucher cannot take the new totals fails the operation, and a new bag must have at
    /// least one existing bucket.
    pub open spec fn spec_update_storage_buckets(self, ids: Set<u64>, vu: VoucherUpdate, op: BagOperationParamsView) -> Result<
        Map<u64, StorageBucketRecord>,
        StorageError,
    > {
        match first_failure(ascending(ids), self.bucket_failure(vu)) {
            Some(e) => Err(e),
            None => if (op is Create) && !exists|id: u64| ids.contains(id) && self.storage_buckets.contains_key(id) {
                Err(StorageError::StorageBucketIdCollectionsAreEmpty)
            } else {
                Ok(Map::new(|id: u64| ids.contains(id) && self.storage_buckets.contains_key(id), |id: u64| self.bucket_after(id, vu, op)))
            },
        }
    }

    /// The distribution bucket `id` after the operation.
    pub open spec fn distribution_bucket_after(self, id: (u64, u64), op: BagOperationParamsView) -> DistributionBucketView {
        let b = self.distribution_buckets[id];
        match op {
            BagOperationParamsView::Create(_, _, _) => DistributionBucketView {
                assigned_bags: b.assigned_bags.saturating_add(1),
                ..b
            },
            BagOperationParamsView::Delete => DistributionBucketView {
                assigned_bags: b.assigned_bags.saturating_sub(1),
                ..b
            },
            BagOperationParamsView::Update(_, _) => b,
        }
    }

    /// The updated existing distribution buckets of a bag.
    pub open spec fn spec_update_distribution_buckets(self, ids: Set<(u64, u64)>, op: BagOperationParamsView) -> Map<
        (u64, u64),
        DistributionBucketView,
    > {
        Map::new(
            |id: (u64, u64)| ids.contains(id) && self.distribution_buckets.contains_key(id),
            |id: (u64, u64)| self.distribution_bucket_after(id, op),
        )
    }

    /// The objects that an operation uploads.
    pub open spec fn spec_objects_to_upload(self, op: BagOperationParamsView) -> Result<
        (Seq<DataObjectView>, u128, u64),
        StorageError,
    > {
        match op {
            BagOperationParamsView::Delete => Ok((Seq::empty(), 0, 0)),
            BagOperationParamsView::Create(list, _, _) => self.spec_objects_from_list(list),
            BagOperationParamsView::Update(list, _) => self.spec_objects_from_list(list),
        }
    }
}

/// Sums the accumulated state bloat bond and size with the new object and appends it.
pub fn calculate_acc_size_and_acc_obj_state_bloat_bond(
    acc_obj: Vec<DataObject>,
    acc_state_bloat_bond: u128,
    acc_size: u64,
    obj: DataObject,
) -> (r: (Vec<DataObject>, u128, u64))
    ensures
        data_objects_view(r.0@) == data_objects_view(acc_obj@).push(obj@),
        r.1 == acc_state_bloat_bond.saturating_add(obj.state_bloat_bond),
        r.2 == acc_size.saturating_add(obj.size),
{
    let acc_state_bloat_bond: u128 = acc_state_bloat_bond.saturating_add(obj.state_bloat_bond);
    let acc_size: u64 = acc_size.saturating_add(obj.size);
    let mut acc_obj = acc_obj;
    let ghost before = acc_obj@;
    acc_obj.push(obj);
    proof {
        assert(data_objects_view(acc_obj@) =~= data_objects_view(before).push(obj@));
    }
    (acc_obj, acc_state_bloat_bond, acc_size)
}

/// Folding one more object into saturating totals.
proof fn lemma_totals_push(objs: Seq<DataObjectView>, o: DataObjectView)
    ensures
        totals(objs.push(o)).1 == totals(objs).1.saturating_add(o.state_bloat_bond),
        totals(objs.push(o)).2 == totals(objs).2.saturating_add(o.size),
{
    let p = objs.push(o);
    assert(p.drop_last() =~= objs);
    assert(sum_object_bonds(p) == sum_object_bonds(objs) + o.state_bloat_bond);
    assert(sum_object_sizes(p) == sum_object_sizes(objs) + o.size);
    lemma_sums_nonneg(objs);
}

/// Sums of non-negative numbers are non-negative.
proof fn lemma_sums_nonneg(objs: Seq<DataObjectView>)
    ensures
        sum_object_bonds(objs) >= 0,
        sum_object_sizes(objs) >= 0,
    decreases objs.len(),
{
    if objs.len() > 0 {
        lemma_sums_nonneg(objs.drop_last());
    }
}

impl StorageState {
    /// Checks the rules for uploading one object.
    pub fn upload_data_objects_checks(&self, obj: &DataObjectCreationParameters) -> (r: Result<(), StorageError>)
        ensures
            r == (match self@.upload_check(obj@) {
                Some(e) => Err(e),
                None => Ok(()),
            }),
    {
        if self.uploading_blocked {
            return Err(StorageError::UploadingBlocked);
        }
        if obj.size >= self.config.max_data_object_size {
            return Err(StorageError::MaxDataObjectSizeExceeded);
        }
        if obj.size == 0 {
            return Err(StorageError::ZeroObjectSize);
        }
        if obj.ipfs_content_id.len() == 0 {
            return Err(StorageError::EmptyContentId);
        }
        if contains_bytes(&self.blacklist, &obj.ipfs_content_id) {
            return Err(StorageError::DataObjectBlacklisted);
        }
        Ok(())
    }

    /// Checks every entry of a creation list and builds the data objects, with their total
    /// state bloat bond and size; stops at the first entry that breaks a rule.
    pub fn construct_objects_from_list(&self, list: &Vec<DataObjectCreationParameters>) -> (r: Result<
        (Vec<DataObject>, u128, u64),
        StorageError,
    >)
        ensures
            match (r, self@.spec_objects_from_list(params_view(list@))) {
                (Ok(a), Ok(b)) => data_objects_view(a.0@) == b.0 && a.1 == b.1 && a.2 == b.2,
                (Err(a), Err(b)) => a == b,
                _ => false,
            },
    {
        let state_bloat_bond: u128 = self.data_object_state_bloat_bond_value;
        let ghost pv = params_view(list@);
        let ghost check = |p: DataObjectCreationParametersView| self@.upload_check(p);
        let ghost mk = |p: DataObjectCreationParametersView| self@.new_object(p);
        let mut acc: Vec<DataObject> = Vec::new();
        let mut acc_bond: u128 = 0;
        let mut acc_size: u64 = 0;
        let mut i: usize = 0;
        while i < list.len()
            invariant
                pv == params_view(list@),
                check == (|p: DataObjectCreationParametersView| self@.upload_check(p)),
                mk == (|p: DataObjectCreationParametersView| self@.new_object(p)),
                state_bloat_bond == self.data_object_state_bloat_bond_value,
                i <= list@.len(),
                forall|j: int| 0 <= j < i ==> check(#[trigger] pv[j]) is None,
                data_objects_view(acc@) == pv.take(i as int).map_values(mk),
                acc_bond == totals(pv.take(i as int).map_values(mk)).1,
                acc_size == totals(pv.take(i as int).map_values(mk)).2,
            decreases list@.len() - i,
        {
            let p = &list[i];
            match self.upload_data_objects_checks(p) {
                Err(e) => {
                    proof {
                        lemma_first_failure_at(pv, check, i as int);
                    }
                    return Err(e);
                },
                Ok(()) => {},
            }
            let obj = DataObject {
                accepted: false,
                state_bloat_bond,
                size: p.size,
                ipfs_content_id: copy_bytes(&p.ipfs_content_id),
            };
            proof {
                assert(obj@ == mk(pv[i as int]));
                assert(pv.take(i + 1).map_values(mk) =~= pv.take(i as int).map_values(mk).push(obj@));
                lemma_totals_push(pv.take(i as int).map_values(mk), obj@);
            }
            let res = calculate_acc_size_and_acc_obj_state_bloat_bond(acc, acc_bond, acc_size, obj);
            acc = res.0;
            acc_bond = res.1;
            acc_size = res.2;
            i = i + 1;
        }
        proof {
            lemma_first_failure_none(pv, check);
            assert(pv.take(pv.len() as int) =~= pv);
            assert(pv.map_values(mk) =~= pv.map_values(|p: DataObjectCreationParametersView| self@.new_object(p)));
        }
        Ok((acc, acc_bond, acc_size))
    }

    /// The objects that an operation uploads, with their total bond and size.
    pub fn construct_objects_to_upload(&self, op: &BagOperationRecord) -> (r: Result<
        (Vec<DataObject>, u128, u64),
        StorageError,
    >)
        ensures
            match (r, self@.spec_objects_to_upload(op.params@)) {
                (Ok(a), Ok(b)) => data_objects_view(a.0@) == b.0 && a.1 == b.1 && a.2 == b.2,
                (Err(a), Err(b)) => a == b,
                _ => false,
            },
    {
        match &op.params {
            BagOperationParamsTypes::Delete => {
                let v: Vec<DataObject> = Vec::new();
                proof {
                    assert(data_objects_view(v@) =~= Seq::empty());
                }
                Ok((v, 0, 0))
            },
            BagOperationParamsTypes::Create(list, _, _) => self.construct_objects_from_list(list),
            BagOperationParamsTypes::Update(list, _) => self.construct_objects_from_list(list),
        }
    }

    /// The objects that an operation removes, with their total bond and size: all objects of
    /// the bag for the deletion, the listed ones (each must exist) for the update.
    pub fn construct_objects_to_remove(&self, op: &BagOperationRecord) -> (r: Result<
        (Vec<DataObject>, u128, u64),
        StorageError,
    >)
        requires
            self@.wf(),
        ensures
            match (r, self@.spec_objects_to_remove(op.bag_id, op.params@)) {
                (Ok(a), Ok(b)) => data_objects_view(a.0@) == b.0 && a.1 == b.1 && a.2 == b.2,
                (Err(a), Err(b)) => a == b,
                _ => false,
            },
    {
        let key = op.bag_id.key();
        let ghost s = (self@.objects)(key);
        match &op.params {
            BagOperationParamsTypes::Create(_, _, _) => {
                let v: Vec<DataObject> = Vec::new();
                proof {
                    assert(data_objects_view(v@) =~= Seq::empty());
                }
                Ok((v, 0, 0))
            },
            BagOperationParamsTypes::Delete => {
                let mut acc: Vec<DataObject> = Vec::new();
                let mut acc_bond: u128 = 0;
                let mut acc_size: u64 = 0;
                let ghost all = s.map_values(|e: (u64, DataObjectView)| e.1);
                match self.data_objects.get(&key) {
                    None => {
                        proof {
                            assert(all =~= Seq::empty());
                            assert(data_objects_view(acc@) =~= Seq::empty());
                        }
                    },
                    Some(list) => {
                        let mut i: usize = 0;
                        while i < list.len()
                            invariant
                                s == objects_view(list@),
                                all == s.map_values(|e: (u64, DataObjectView)| e.1),
                                i <= list@.len(),
                                data_objects_view(acc@) == all.take(i as int),
                                acc_bond == totals(all.take(i as int)).1,
                                acc_size == totals(all.take(i as int)).2,
                            decreases list@.len() - i,
                        {
                            let o = list[i].1.copy();
                            proof {
                                assert(o@ == all[i as int]);
                                assert(all.take(i + 1) =~= all.take(i as int).push(o@));
                                lemma_totals_push(all.take(i as int), o@);
                            }
                            let res = calculate_acc_size_and_acc_obj_state_bloat_bond(acc, acc_bond, acc_size, o);
                            acc = res.0;
                            acc_bond = res.1;
                            acc_size = res.2;
                            i = i + 1;
                        }
                        proof {
                            assert(all.take(all.len() as int) =~= all);
                        }
                    },
                }
                Ok((acc, acc_bond, acc_size))
            },
            BagOperationParamsTypes::Update(_, ids) => {
                let q = ascending_vec(ids);
                let ghost pick = |id: u64| object_with_id(s, id);
                let mut acc: Vec<DataObject> = Vec::new();
                let mut acc_bond: u128 = 0;
                let mut acc_size: u64 = 0;
                let mut i: usize = 0;
                while i < q.len()
                    invariant
                        self@.wf(),
                        op.params@ is Update && op.params@->Update_1 == ids@,
                        s == (self@.objects)(op.bag_id.spec_key()),
                        pick == (|id: u64| object_with_id(s, id)),
                        q@ == ascending(ids@),
                        q@.to_set() == ids@,
                        i <= q@.len(),
                        forall|j: int| 0 <= j < i ==> has_id(s, #[trigger] q@[j]),
                        data_objects_view(acc@) == q@.take(i as int).map_values(pick),
                        acc_bond == totals(q@.take(i as int).map_values(pick)).1,
                        acc_size == totals(q@.take(i as int).map_values(pick)).2,
                    decreases q@.len() - i,
                {
                    match self.ensure_data_object_exists(&op.bag_id, &q[i]) {
                        Err(e) => {
                            proof {
                                assert(ids@.contains(q@[i as int]));
                                assert(!has_id(s, q@[i as int]));
                                assert(exists|id: u64| ids@.contains(id) && !has_id(s, id));
                            }
                            return Err(e);
                        },
                        Ok(o) => {
                            proof {
                                assert(o@ == pick(q@[i as int]));
                                assert(q@.take(i + 1).map_values(pick) =~= q@.take(i as int).map_values(pick).push(o@));
                                lemma_totals_push(q@.take(i as int).map_values(pick), o@);
                            }
                            let res = calculate_acc_size_and_acc_obj_state_bloat_bond(acc, acc_bond, acc_size, o);
                            acc = res.0;
                            acc_bond = res.1;
                            acc_size = res.2;
                        },
                    }
                    i = i + 1;
                }
                proof {
                    assert(q@.take(q@.len() as int) =~= q@);
                    assert forall|id: u64| ids@.contains(id) implies has_id(s, id) by {
                        assert(q@.to_set().contains(id));
                        let j = choose|j: int| 0 <= j < q@.len() && q@[j] == id;
                        assert(has_id(s, q@[j]));
                    }
                    assert(q@.map_values(pick) =~= ascending(ids@).map_values(|id: u64| object_with_id(s, id)));
                }
                Ok((acc, acc_bond, acc_size))
            },
        }
    }

    /// The updated storage buckets of a bag for an operation (see `spec_update_storage_buckets`).
    pub fn update_storage_buckets(
        &self,
        bucket_ids: &BTreeSet<StorageBucketId>,
        all_objects_with_update_voucher: VoucherUpdate,
        op: &BagOperationParamsTypes,
    ) -> (r: Result<BTreeMap<StorageBucketId, StorageBucketRecord>, StorageError>)
        ensures
            match (r, self@.spec_update_storage_buckets(bucket_ids@, all_objects_with_update_voucher, op@)) {
                (Ok(a), Ok(b)) => a@ == b,
                (Err(a), Err(b)) => a == b,
                _ => false,
            },
    {
        let vu = all_objects_with_update_voucher;
        let ghost opv = op@;
        let ghost fail = self@.bucket_failure(vu);
        let is_create: bool = match op {
            BagOperationParamsTypes::Create(_, _, _) => true,
            _ => false,
        };
        let q = ascending_vec(bucket_ids);
        let mut result: BTreeMap<u64, StorageBucketRecord> = BTreeMap::new();
        let mut i: usize = 0;
        while i < q.len()
            invariant
                opv == op@,
                vu == all_objects_with_update_voucher,
                is_create == (opv is Create),
                fail == self@.bucket_failure(vu),
                q@ == ascending(bucket_ids@),
                q@.to_set() == bucket_ids@,
                i <= q@.len(),
                forall|j: int| 0 <= j < i ==> fail(#[trigger] q@[j]) is None,
                result@ == Map::new(
                    |id: u64| q@.take(i as int).to_set().contains(id) && self@.storage_buckets.contains_key(id),
                    |id: u64| self@.bucket_after(id, vu, opv),
                ),
            decreases q@.len() - i,
        {
            let id: u64 = q[i];
            proof {
                lemma_take_succ_to_set(q@, i as int);
            }
            match self.storage_buckets.get(&id) {
                None => {
                    proof {
                        assert(result@ =~= Map::new(
                            |id: u64| q@.take(i + 1).to_set().contains(id) && self@.storage_buckets.contains_key(id),
                            |id: u64| self@.bucket_after(id, vu, opv),
                        ));
                    }
                },
                Some(bk) => {
                    match bk.voucher.try_update(vu) {
                        Err(e) => {
                            proof {
                                assert(fail(q@[i as int]) == Some(e));
                                lemma_first_failure_at(q@, fail, i as int);
                                assert(first_failure(ascending(bucket_ids@), self@.bucket_failure(vu)) == Some(e));
                            }
                            return Err(e);
                        },
                        Ok(voucher) => {
                            let mut nb = StorageBucketRecord { voucher, ..*bk };
                            match op {
                                BagOperationParamsTypes::Create(_, _, _) => nb.register_bag_assignment(),
                                BagOperationParamsTypes::Delete => nb.unregister_bag_assignment(),
                                _ => {},
                            }
                            proof {
                                assert(nb == self@.bucket_after(id, vu, opv));
                            }
                            result.insert(id, nb);
                            proof {
                                assert(result@ =~= Map::new(
                                    |id: u64| q@.take(i + 1).to_set().contains(id) && self@.storage_buckets.contains_key(id),
                                    |id: u64| self@.bucket_after(id, vu, opv),
                                ));
                            }
                        },
                    }
                },
            }
            i = i + 1;
        }
        proof {
            assert(q@.take(q@.len() as int) =~= q@);
            lemma_first_failure_none(q@, fail);
            assert(result@ =~= Map::new(|id: u64| bucket_ids@.contains(id) && self@.storage_buckets.contains_key(id), |id: u64| self@.bucket_after(id, vu, opv)));
        }
        if is_create && result.is_empty() {
            proof {
                assert(!exists|id: u64| bucket_ids@.contains(id) && self@.storage_buckets.contains_key(id)) by {
                    if exists|id: u64| bucket_ids@.contains(id) && self@.storage_buckets.contains_key(id) {
                        let id = choose|id: u64| bucket_ids@.contains(id) && self@.storage_buckets.contains_key(id);
                        assert(result@.contains_key(id));
                    }
                }
            }
            return Err(StorageError::StorageBucketIdCollectionsAreEmpty);
        }
        proof {
            if is_create {
                let id = choose|id: u64| result@.contains_key(id);
                assert(bucket_ids@.contains(id) && self@.storage_buckets.contains_key(id));
            }
        }
        Ok(result)
    }

    /// The updated existing distribution buckets of a bag for an operation: one more assigned
    /// bag for the creation, one less for the deletion, unchanged otherwise.
    pub fn update_distribution_buckets(
        &self,
        bucket_ids: &BTreeSet<(u64, u64)>,
        op: &BagOperationParamsTypes,
    ) -> (r: BTreeMap<(u64, u64), DistributionBucketRecord>)
        ensures
            r@.map_values(|b: DistributionBucketRecord| b@) == self@.spec_update_distribution_buckets(bucket_ids@, op@),
    {
        let ghost opv = op@;
        let q = pair_vec(bucket_ids);
        let mut result: BTreeMap<(u64, u64), DistributionBucketRecord> = BTreeMap::new();
        let mut i: usize = 0;
        while i < q.len()
            invariant
                opv == op@,
                q@.to_set() == bucket_ids@,
                i <= q@.len(),
                result@.map_values(|b: DistributionBucketRecord| b@) == Map::new(
                    |id: (u64, u64)| q@.take(i as int).to_set().contains(id) && self@.distribution_buckets.contains_key(id),
                    |id: (u64, u64)| self@.distribution_bucket_after(id, opv),
                ),
            decreases q@.len() - i,
        {
            let id: (u64, u64) = q[i];
            proof {
                lemma_take_succ_to_set(q@, i as int);
            }
            match self.distribution_buckets.get(&id) {
                None => {
                    proof {
                        assert(result@.map_values(|b: DistributionBucketRecord| b@) =~= Map::new(
                            |id: (u64, u64)| q@.take(i + 1).to_set().contains(id) && self@.distribution_buckets.contains_key(id),
                            |id: (u64, u64)| self@.distribution_bucket_after(id, opv),
                        ));
                    }
                },
                Some(bk) => {
                    let mut nb = bk.copy();
                    match op {
                        BagOperationParamsTypes::Create(_, _, _) => nb.register_bag_assignment(),
                        BagOperationParamsTypes::Delete => nb.unregister_bag_assignment(),
                        _ => {},
                    }
                    proof {
                        assert(nb@ == self@.distribution_bucket_after(id, opv));
                    }
                    let ghost prev = result@;
                    result.insert(id, nb);
                    proof {
                        assert(result@ == prev.insert(id, nb));
                        assert(result@.map_values(|b: DistributionBucketRecord| b@) =~= prev.map_values(|b: DistributionBucketRecord| b@).insert(id, nb@));
                        assert(result@.map_values(|b: DistributionBucketRecord| b@) =~= Map::new(
                            |id: (u64, u64)| q@.take(i + 1).to_set().contains(id) && self@.distribution_buckets.contains_key(id),
                            |id: (u64, u64)| self@.distribution_bucket_after(id, opv),
                        ));
                    }
                },
            }
            i = i + 1;
        }
        proof {
            assert(q@.take(q@.len() as int) =~= q@);
            assert(result@.map_values(|b: DistributionBucketRecord| b@) =~= self@.spec_update_distribution_buckets(bucket_ids@, opv));
        }
        result
    }

    /// Utility function that checks existence for bag deletion / update &
    /// verifies that dynamic bag does not exists in case of bag creation
    /// returning a new one.
    pub fn retrieve_dynamic_bag(&self, bag_op: &BagOperationRecord) -> (r: Result<BagRecord, StorageError>)
        ensures
            view_result(r) == self@.spec_retrieve_bag(bag_op.bag_id, bag_op.params@),
    {
        if let BagOperationParamsTypes::Create(_, storage_buckets, distribution_buckets) = &bag_op.params {
            if let Err(e) = bag_op.bag_id.ensure_is_dynamic_bag() {
                return Err(e);
            }
            match self.ensure_bag_exists(&bag_op.bag_id) {
                Err(_) => {
                    let bag = BagRecord::default()
                        .with_storage_buckets(storage_buckets.clone())
                        .with_distribution_buckets(distribution_buckets.clone());
                    Ok(bag)
                },
                Ok(_) => Err(StorageError::DynamicBagExists),
            }
        } else {
            self.ensure_bag_exists(&bag_op.bag_id)
        }
    }
}

} // verus!
