use vstd::prelude::*;
use std::collections::{BTreeMap, BTreeSet};

use crate::primitives::{AccountId, Balance};
use crate::storage_bag_ops::{BagOperationParamsTypes, BagOperationParamsView, BagOperationRecord, data_objects_view};
use crate::storage_errors::StorageError;
use crate::storage_objects::{
    distribution_bucket_ids, insert_objects, lemma_insert_objects_unique, lemma_put_object_unique,
    lemma_remove_ids_unique, put_object_exec, remove_ids, remove_ids_exec, storage_bucket_ids,
};
use crate::storage_state::{StorageState, StorageStateView, ids_below, objects_view, spec_data_storage_fee, unique_ids};
use crate::sorted::{ascending_vec, lemma_take_all, lemma_take_succ_to_set, pair_vec};
use crate::storage_types::{
    BagIdType, BagRecord, BagView, DataObject, DataObjectView, DistributionBucketRecord, DistributionBucketView,
    StorageBucketRecord, VoucherUpdate,
};

verus! {

/// The net balance transfer that a bag operation asks for: `deposit` from `account` to the
/// storage treasury (the state bloat bonds and the storage fee of new objects, less the bonds
/// refunded for removed objects), or `withdraw` from the storage treasury to `account` when the
/// refund is the larger. At most one of them is nonzero; a zero amount means no transfer.
#[derive(Clone, Copy, Debug, PartialEq, Eq, Structural)]
pub struct BalanceTransfers {
    /// The account that pays or is refunded.
    pub account: AccountId,
    /// Amount paid into the treasury.
    pub deposit: Balance,
    /// Amount paid out of the treasury.
    pub withdraw: Balance,
}

/// Ensure that the account, counting the refund it gets, can pay the state bloat bond and the
/// storage fee (saturating sums): it must cover the net expense.
pub fn ensure_sufficient_balance(
    usable_balance: Balance,
    state_bloat_bond_request: Balance,
    storage_fee: Balance,
    state_bloat_bond_refund: Balance,
) -> (r: Result<(), StorageError>)
    ensures
        r == (if usable_balance.saturating_add(state_bloat_bond_refund) >= state_bloat_bond_request.saturating_add(
            storage_fee,
        ) {
            Ok::<(), StorageError>(())
        } else {
            Err(StorageError::InsufficientBalance)
        }),
{
    if usable_balance.saturating_add(state_bloat_bond_refund) >= state_bloat_bond_request.saturating_add(storage_fee) {
        Ok(())
    } else {
        Err(StorageError::InsufficientBalance)
    }
}

/// Ensure that the storage treasury can pay what the refund exceeds the cost by.
pub fn ensure_sufficient_treasury_balance(treasury_balance: Balance, cost: Balance, state_bloat_bond_refund: Balance) -> (r:
    Result<(), StorageError>)
    ensures
        r == (if state_bloat_bond_refund <= cost || treasury_balance >= state_bloat_bond_refund - cost {
            Ok::<(), StorageError>(())
        } else {
            Err(StorageError::InsufficientTreasuryBalance)
        }),
{
    if state_bloat_bond_refund <= cost || treasury_balance >= state_bloat_bond_refund - cost {
        Ok(())
    } else {
        Err(StorageError::InsufficientTreasuryBalance)
    }
}

/// The net transfer between an account and the treasury for a cost and a refund.
pub open spec fn net_transfers(account: AccountId, cost: Balance, refund: Balance) -> BalanceTransfers {
    BalanceTransfers {
        account,
        deposit: if cost > refund { (cost - refund) as Balance } else { 0 },
        withdraw: if refund > cost { (refund - cost) as Balance } else { 0 },
    }
}

impl StorageStateView {
    /// The state after a bag operation passed all checks: `uploads` are the new objects,
    /// `new_sb` and `new_db` the updated buckets of the bag, `vu` its new totals.
    pub open spec fn spec_apply_bag_operation(
        self,
        bag_id: BagIdType,
        op: BagOperationParamsView,
        uploads: Seq<DataObjectView>,
        new_sb: Map<u64, StorageBucketRecord>,
        new_db: Map<(u64, u64), DistributionBucketView>,
        vu: VoucherUpdate,
    ) -> StorageStateView {
        let key = bag_id.spec_key();
        let kept = match op {
            BagOperationParamsView::Delete => Seq::empty(),
            BagOperationParamsView::Update(_, ids) => remove_ids((self.objects)(key), ids),
            BagOperationParamsView::Create(_, _, _) => (self.objects)(key),
        };
        let stored = if op is Delete {
            (kept, self.next_data_object_id)
        } else {
            insert_objects(kept, self.next_data_object_id, uploads)
        };
        StorageStateView {
            storage_buckets: self.storage_buckets.union_prefer_right(new_sb),
            distribution_buckets: self.distribution_buckets.union_prefer_right(new_db),
            objects: |k: (u64, u64)| if k == key { stored.0 } else { (self.objects)(k) },
            next_data_object_id: stored.1,
            bags: if op is Delete {
                self.bags.remove(key)
            } else {
                self.bags.insert(
                    key,
                    BagView {
                        stored_by: new_sb.dom(),
                        distributed_by: new_db.dom(),
                        objects_total_size: vu.objects_total_size,
                        objects_number: vu.objects_number,
                    },
                )
            },
            ..self
        }
    }

    /// A bag operation: the bag, the objects to upload and to remove, the new bucket vouchers,
    /// the account's balance and the treasury's balance are checked in this order; on success,
    /// the new state and the net transfer.
    pub open spec fn spec_try_mutating_storage_state(
        self,
        account_id: AccountId,
        usable_balance: Balance,
        treasury_balance: Balance,
        bag_id: BagIdType,
        op: BagOperationParamsView,
    ) -> Result<(StorageStateView, BalanceTransfers), StorageError> {
        match self.spec_retrieve_bag(bag_id, op) {
            Err(e) => Err(e),
            Ok(bag) => match self.spec_objects_to_upload(op) {
                Err(e) => Err(e),
                Ok(up) => match self.spec_objects_to_remove(bag_id, op) {
                    Err(e) => Err(e),
                    Ok(rm) => {
                        let storage_fee = spec_data_storage_fee(self.data_object_per_mega_byte_fee, up.2);
                        let vu = VoucherUpdate {
                            objects_number: bag.objects_number.saturating_add(up.0.len() as u64).saturating_sub(
                                rm.0.len() as u64,
                            ),
                            objects_total_size: bag.objects_total_size.saturating_add(up.2).saturating_sub(rm.2),
                        };
                        match self.spec_update_storage_buckets(bag.stored_by, vu, op) {
                            Err(e) => Err(e),
                            Ok(new_sb) => {
                                let new_db = self.spec_update_distribution_buckets(bag.distributed_by, op);
                                let cost = up.1.saturating_add(storage_fee);
                                if usable_balance.saturating_add(rm.1) < cost {
                                    Err(StorageError::InsufficientBalance)
                                } else if rm.1 > cost && treasury_balance < rm.1 - cost {
                                    Err(StorageError::InsufficientTreasuryBalance)
                                } else {
                                    Ok((
                                        self.spec_apply_bag_operation(bag_id, op, up.0, new_sb, new_db, vu),
                                        net_transfers(account_id, cost, rm.1),
                                    ))
                                }
                            },
                        }
                    },
                },
            },
        }
    }
}


/// Stores each bucket of `src` into `dst` (replacing what `dst` held under the same ID).
pub fn store_storage_buckets(dst: &mut BTreeMap<u64, StorageBucketRecord>, src: &BTreeMap<u64, StorageBucketRecord>)
    ensures
        final(dst)@ == old(dst)@.union_prefer_right(src@),
{
    let ids = storage_bucket_ids(src);
    let q = ascending_vec(&ids);
    let ghost d0 = dst@;
    let mut i: usize = 0;
    while i < q.len()
        invariant
            q@.to_set() == src@.dom(),
            i <= q@.len(),
            dst@ == d0.union_prefer_right(src@.restrict(q@.take(i as int).to_set())),
        decreases q@.len() - i,
    {
        let k: u64 = q[i];
        proof {
            lemma_take_succ_to_set(q@, i as int);
            assert(q@.to_set().contains(k));
        }
        let b: StorageBucketRecord = *src.get(&k).unwrap();
        dst.insert(k, b);
        proof {
            assert(dst@ =~= d0.union_prefer_right(src@.restrict(q@.take(i + 1).to_set())));
        }
        i = i + 1;
    }
    proof {
        lemma_take_all(q@);
        assert(src@.restrict(src@.dom()) =~= src@);
    }
}

/// Stores each bucket of `src` into `dst` (replacing what `dst` held under the same ID).
pub fn store_distribution_buckets(
    dst: &mut BTreeMap<(u64, u64), DistributionBucketRecord>,
    src: &BTreeMap<(u64, u64), DistributionBucketRecord>,
)
    ensures
        final(dst)@.map_values(|b: DistributionBucketRecord| b@) == old(dst)@.map_values(
            |b: DistributionBucketRecord| b@,
        ).union_prefer_right(src@.map_values(|b: DistributionBucketRecord| b@)),
{
    let ids = distribution_bucket_ids(src);
    let q = pair_vec(&ids);
    let ghost d0 = dst@.map_values(|b: DistributionBucketRecord| b@);
    let ghost sv = src@.map_values(|b: DistributionBucketRecord| b@);
    let mut i: usize = 0;
    while i < q.len()
        invariant
            q@.to_set() == src@.dom(),
            sv == src@.map_values(|b: DistributionBucketRecord| b@),
            i <= q@.len(),
            dst@.map_values(|b: DistributionBucketRecord| b@) == d0.union_prefer_right(sv.restrict(q@.take(i as int).to_set())),
        decreases q@.len() - i,
    {
        let k: (u64, u64) = q[i];
        proof {
            lemma_take_succ_to_set(q@, i as int);
            assert(q@.to_set().contains(k));
        }
        let b = src.get(&k).unwrap().copy();
        let ghost prev = dst@;
        dst.insert(k, b);
        proof {
            assert(dst@ == prev.insert(k, b));
            assert(dst@.map_values(|b: DistributionBucketRecord| b@) =~= prev.map_values(|b: DistributionBucketRecord| b@).insert(k, b@));
            assert(dst@.map_values(|b: DistributionBucketRecord| b@) =~= d0.union_prefer_right(sv.restrict(q@.take(i + 1).to_set())));
        }
        i = i + 1;
    }
    proof {
        lemma_take_all(q@);
        assert(sv.restrict(src@.dom()) =~= sv);
    }
}

/// Takes the data object list of a bag out of the map (an empty list when there is none).
pub fn take_objects(m: &mut BTreeMap<(u64, u64), Vec<(u64, DataObject)>>, key: (u64, u64)) -> (r: Vec<(u64, DataObject)>)
    ensures
        final(m)@ == old(m)@.remove(key),
        objects_view(r@) == (if old(m)@.contains_key(key) { objects_view(old(m)@[key]@) } else { Seq::empty() }),
{
    match m.remove(&key) {
        Some(v) => v,
        None => {
            let v: Vec<(u64, DataObject)> = Vec::new();
            proof {
                assert(objects_view(v@) =~= Seq::empty());
            }
            v
        },
    }
}

impl StorageState {
    /// Utility function that does the bulk of bag / data objects operation: checks the
    /// operation and, when it passes, changes the state and returns the net balance transfer to
    /// make. `usable_balance` is the usable balance of `account_id`, `treasury_balance` that of
    /// the storage treasury.
    pub fn try_mutating_storage_state(
        &mut self,
        account_id: AccountId,
        usable_balance: Balance,
        treasury_balance: Balance,
        bag_op: BagOperationRecord,
    ) -> (r: Result<BalanceTransfers, StorageError>)
        requires
            old(self)@.wf(),
        ensures
            final(self)@.wf(),
            match (r, old(self)@.spec_try_mutating_storage_state(account_id, usable_balance, treasury_balance, bag_op.bag_id, bag_op.params@)) {
                (Ok(t), Ok(s)) => final(self)@ == s.0 && t == s.1,
                (Err(e), Err(f)) => e == f && final(self)@ == old(self)@,
                _ => false,
            },
    {
        let ghost s0 = self@;
        let ghost opv = bag_op.params@;
        let bag = match self.retrieve_dynamic_bag(&bag_op) {
            Err(e) => return Err(e),
            Ok(b) => b,
        };
        let (object_creation_list, state_bloat_bond_request, upload_objs_size) =
            match self.construct_objects_to_upload(&bag_op) {
                Err(e) => return Err(e),
                Ok(x) => x,
            };
        let (objects_removal_list, state_bloat_bond_refund, remove_objs_size) =
            match self.construct_objects_to_remove(&bag_op) {
                Err(e) => return Err(e),
                Ok(x) => x,
            };
        let storage_fee: u128 = self.calculate_data_storage_fee(upload_objs_size);
        let objects_number: u64 = bag.objects_number.saturating_add(object_creation_list.len() as u64).saturating_sub(
            objects_removal_list.len() as u64,
        );
        let objects_total_size: u64 = bag.objects_total_size.saturating_add(upload_objs_size).saturating_sub(
            remove_objs_size,
        );
        let all_objects_with_update_voucher = VoucherUpdate { objects_total_size, objects_number };
        let new_storage_buckets = match self.update_storage_buckets(
            &bag.stored_by,
            all_objects_with_update_voucher,
            &bag_op.params,
        ) {
            Err(e) => return Err(e),
            Ok(m) => m,
        };
        let new_distribution_buckets = self.update_distribution_buckets(&bag.distributed_by, &bag_op.params);
        let stored_ids = storage_bucket_ids(&new_storage_buckets);
        let distributed_ids = distribution_bucket_ids(&new_distribution_buckets);
        if let Err(e) = ensure_sufficient_balance(usable_balance, state_bloat_bond_request, storage_fee, state_bloat_bond_refund) {
            return Err(e);
        }
        let cost: u128 = state_bloat_bond_request.saturating_add(storage_fee);
        if let Err(e) = ensure_sufficient_treasury_balance(treasury_balance, cost, state_bloat_bond_refund) {
            return Err(e);
        }
        let ghost up = data_objects_view(object_creation_list@);
        let ghost new_sb = new_storage_buckets@;
        let ghost new_db = new_distribution_buckets@.map_values(|b: DistributionBucketRecord| b@);
        let ghost target = s0.spec_apply_bag_operation(
            bag_op.bag_id,
            opv,
            up,
            new_sb,
            new_db,
            all_objects_with_update_voucher,
        );
        proof {
            assert(object_creation_list@.len() == up.len());
            assert(objects_removal_list@.len() == data_objects_view(objects_removal_list@).len());
        }
        //
        // == MUTATION SAFE ==
        //
        let transfers = BalanceTransfers {
            account: account_id,
            deposit: if cost > state_bloat_bond_refund { cost - state_bloat_bond_refund } else { 0 },
            withdraw: if state_bloat_bond_refund > cost { state_bloat_bond_refund - cost } else { 0 },
        };
        // insert candidate storage buckets
        store_storage_buckets(&mut self.storage_buckets, &new_storage_buckets);
        // insert candidate distribution buckets
        store_distribution_buckets(&mut self.distribution_buckets, &new_distribution_buckets);
        let key = bag_op.bag_id.key();
        let ghost kept_view = match opv {
            BagOperationParamsView::Delete => Seq::empty(),
            BagOperationParamsView::Update(_, ids) => remove_ids((s0.objects)(key), ids),
            BagOperationParamsView::Create(_, _, _) => (s0.objects)(key),
        };
        proof {
            assert(unique_ids((s0.objects)(key)));
            lemma_remove_ids_unique((s0.objects)(key), opv->Update_1);
        }
        // remove objects
        let list = take_objects(&mut self.data_objects, key);
        let mut list = match &bag_op.params {
            BagOperationParamsTypes::Delete => {
                let v: Vec<(u64, DataObject)> = Vec::new();
                proof {
                    assert(objects_view(v@) =~= Seq::empty());
                }
                v
            },
            BagOperationParamsTypes::Update(_, ids) => remove_ids_exec(&list, ids),
            BagOperationParamsTypes::Create(_, _, _) => list,
        };
        // add objects
        let mut next: u64 = self.next_data_object_id;
        if !bag_op.params.is_delete() {
            let ghost next0 = next;
            let mut i: usize = 0;
            while i < object_creation_list.len()
                invariant
                    up == data_objects_view(object_creation_list@),
                    i <= up.len(),
                    unique_ids(kept_view),
                    (objects_view(list@), next) == insert_objects(kept_view, next0, up.take(i as int)),
                decreases up.len() - i,
            {
                proof {
                    assert(up.take(i + 1).drop_last() =~= up.take(i as int));
                    lemma_insert_objects_unique(kept_view, next0, up.take(i as int));
                }
                let o = object_creation_list[i].copy();
                put_object_exec(&mut list, next, o);
                next = next.saturating_add(1);
                i = i + 1;
            }
            proof {
                lemma_take_all(up);
            }
        }
        proof {
            if !(opv is Delete) {
                lemma_insert_objects_unique(kept_view, s0.next_data_object_id, up);
            }
        }
        self.next_data_object_id = next;
        // mutate bags set
        if bag_op.params.is_delete() {
            let ghost prev = self.bags@;
            self.bags.remove(&key);
            proof {
                assert(self.bags@.map_values(|b: BagRecord| b@) =~= prev.map_values(|b: BagRecord| b@).remove(key));
            }
        } else {
            self.data_objects.insert(key, list);
            let new_bag = BagRecord {
                stored_by: stored_ids,
                distributed_by: distributed_ids,
                objects_total_size: all_objects_with_update_voucher.objects_total_size,
                objects_number: all_objects_with_update_voucher.objects_number,
            };
            let ghost prev = self.bags@;
            self.bags.insert(key, new_bag);
            proof {
                assert(new_db.dom() =~= new_distribution_buckets@.dom());
                assert(new_bag@ == (BagView {
                    stored_by: new_sb.dom(),
                    distributed_by: new_db.dom(),
                    objects_total_size: all_objects_with_update_voucher.objects_total_size,
                    objects_number: all_objects_with_update_voucher.objects_number,
                }));
                assert(self.bags@.map_values(|b: BagRecord| b@) =~= prev.map_values(|b: BagRecord| b@).insert(key, new_bag@));
            }
        }
        proof {
            assert(self@.objects =~= target.objects);
            assert(self@.bags =~= target.bags);
            assert(self@ =~= target);
            assert forall|k: (u64, u64)| #[trigger] unique_ids((self@.objects)(k)) by {
                if k != key {
                    assert(unique_ids((s0.objects)(k)));
                }
            }
            assert(ids_below((s0.objects)(key), s0.next_data_object_id));
            crate::storage_objects::lemma_remove_ids_below((s0.objects)(key), opv->Update_1, s0.next_data_object_id);
            crate::storage_objects::lemma_insert_objects_below(kept_view, s0.next_data_object_id, up);
            assert forall|k: (u64, u64)| #[trigger] ids_below((self@.objects)(k), self@.next_data_object_id) by {
                if k != key {
                    assert(ids_below((s0.objects)(k), s0.next_data_object_id));
                    crate::storage_objects::lemma_ids_below_mono((s0.objects)(k), s0.next_data_object_id, self@.next_data_object_id);
                }
            }
        }
        Ok(transfers)
    }
}

} // verus!
