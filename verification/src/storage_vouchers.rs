use vstd::prelude::*;
use std::collections::BTreeSet;

use crate::sorted::{ascending, ascending_vec, first_failure, lemma_first_failure_at, lemma_first_failure_none, pair_vec};
use crate::storage_errors::StorageError;
use crate::storage_state::{StorageState, StorageStateView};
use crate::storage_types::{
    BagIdType, BagRecord, BagView, DistributionBucketRecord, DistributionBucketView, OperationType, StorageBucketRecord,
    VoucherUpdate,
};

verus! {

/// `a` changed by `b` as the operation says (saturating at the bounds).
pub open spec fn apply_operation(a: u64, b: u64, op: OperationType) -> u64 {
    match op {
        OperationType::Increase => a.saturating_add(b),
        OperationType::Decrease => a.saturating_sub(b),
    }
}

/// The storage buckets with the vouchers of the existing buckets among `ids` changed by `vu`.
pub open spec fn vouchers_changed(
    buckets: Map<u64, StorageBucketRecord>,
    ids: Set<u64>,
    vu: VoucherUpdate,
    op: OperationType,
) -> Map<u64, StorageBucketRecord> {
    Map::new(
        |id: u64| buckets.contains_key(id),
        |id: u64|
            if ids.contains(id) {
                StorageBucketRecord { voucher: vu.spec_updated_voucher(buckets[id].voucher, op), ..buckets[id] }
            } else {
                buckets[id]
            },
    )
}

/// A bucket's assigned bag count after it is added to a bag (`added`) and then removed from
/// one (`removed`), each saturating.
pub open spec fn assignments_changed(assigned: u64, added: bool, removed: bool) -> u64 {
    let a = if added { assigned.saturating_add(1) } else { assigned };
    if removed { a.saturating_sub(1) } else { a }
}

/// The storage buckets after the bag assignment changes: added ones get one more bag, removed
/// ones one less (missing buckets are skipped).
pub open spec fn storage_assignments_changed(
    buckets: Map<u64, StorageBucketRecord>,
    add: Set<u64>,
    remove: Set<u64>,
) -> Map<u64, StorageBucketRecord> {
    Map::new(
        |id: u64| buckets.contains_key(id),
        |id: u64|
            StorageBucketRecord {
                assigned_bags: assignments_changed(buckets[id].assigned_bags, add.contains(id), remove.contains(id)),
                ..buckets[id]
            },
    )
}

/// The distribution buckets after the bag assignment changes: added ones get one more bag,
/// removed ones one less (missing buckets are skipped).
pub open spec fn distribution_assignments_changed(
    buckets: Map<(u64, u64), DistributionBucketView>,
    add: Set<(u64, u64)>,
    remove: Set<(u64, u64)>,
) -> Map<(u64, u64), DistributionBucketView> {
    Map::new(
        |id: (u64, u64)| buckets.contains_key(id),
        |id: (u64, u64)|
            DistributionBucketView {
                assigned_bags: assignments_changed(buckets[id].assigned_bags, add.contains(id), remove.contains(id)),
                ..buckets[id]
            },
    )
}

impl StorageStateView {
    /// The limit that a storage bucket would break if it took `vu` more objects (a missing
    /// bucket fails too).
    pub open spec fn overflow_failure(self, vu: VoucherUpdate) -> spec_fn(u64) -> Option<StorageError> {
        |id: u64|
            if !self.storage_buckets.contains_key(id) {
                Some(StorageError::StorageBucketDoesntExist)
            } else if vu.objects_number + self.storage_buckets[id].voucher.objects_used
                > self.storage_buckets[id].voucher.objects_limit {
                Some(StorageError::StorageBucketObjectNumberLimitReached)
            } else if vu.objects_total_size + self.storage_buckets[id].voucher.size_used
                > self.storage_buckets[id].voucher.size_limit {
                Some(StorageError::StorageBucketObjectSizeLimitReached)
            } else {
                None
            }
    }

    /// Whether the buckets can take `vu` more objects: the first bucket (by ID) that cannot
    /// gives the error.
    pub open spec fn spec_check_buckets_for_overflow(self, ids: Set<u64>, vu: VoucherUpdate) -> Result<(), StorageError> {
        match first_failure(ascending(ids), self.overflow_failure(vu)) {
            Some(e) => Err(e),
            None => Ok(()),
        }
    }

    /// The state after the bag counters and the vouchers of `stored_by` change by `vu`.
    pub open spec fn spec_change_storage_bucket_vouchers_for_bag(
        self,
        bag_id: BagIdType,
        stored_by: Set<u64>,
        vu: VoucherUpdate,
        op: OperationType,
    ) -> StorageStateView {
        let key = bag_id.spec_key();
        let b = self.bag(key);
        StorageStateView {
            bags: self.bags.insert(
                key,
                BagView {
                    objects_total_size: apply_operation(b.objects_total_size, vu.objects_total_size, op),
                    objects_number: apply_operation(b.objects_number, vu.objects_number, op),
                    ..b
                },
            ),
            storage_buckets: vouchers_changed(self.storage_buckets, stored_by, vu, op),
            ..self
        }
    }
}

impl StorageState {
    /// Iterates through buckets. Verifies voucher parameters to fit the new limits: objects
    /// number and total objects size.
    pub fn check_buckets_for_overflow(&self, bucket_ids: &BTreeSet<u64>, voucher_update: &VoucherUpdate) -> (r: Result<
        (),
        StorageError,
    >)
        ensures
            r == self@.spec_check_buckets_for_overflow(bucket_ids@, *voucher_update),
    {
        let ghost fail = self@.overflow_failure(*voucher_update);
        let q = ascending_vec(bucket_ids);
        let mut i: usize = 0;
        while i < q.len()
            invariant
                fail == self@.overflow_failure(*voucher_update),
                q@ == ascending(bucket_ids@),
                i <= q@.len(),
                forall|j: int| 0 <= j < i ==> fail(#[trigger] q@[j]) is None,
            decreases q@.len() - i,
        {
            let id: u64 = q[i];
            let e = match self.storage_buckets.get(&id) {
                None => Some(StorageError::StorageBucketDoesntExist),
                Some(bucket) => {
                    let v = bucket.voucher;
                    let number_fits = match voucher_update.objects_number.checked_add(v.objects_used) {
                        Some(n) => n <= v.objects_limit,
                        None => false,
                    };
                    let size_fits = match voucher_update.objects_total_size.checked_add(v.size_used) {
                        Some(n) => n <= v.size_limit,
                        None => false,
                    };
                    if !number_fits {
                        Some(StorageError::StorageBucketObjectNumberLimitReached)
                    } else if !size_fits {
                        Some(StorageError::StorageBucketObjectSizeLimitReached)
                    } else {
                        None
                    }
                },
            };
            proof {
                assert(e == fail(q@[i as int]));
            }
            if let Some(err) = e {
                proof {
                    lemma_first_failure_at(q@, fail, i as int);
                }
                return Err(err);
            }
            i = i + 1;
        }
        proof {
            lemma_first_failure_none(q@, fail);
        }
        Ok(())
    }

    /// Checks the storage buckets of a bag for the new objects number and total objects size.
    pub fn check_bag_for_buckets_overflow(&self, bag: &BagRecord, voucher_update: &VoucherUpdate) -> (r: Result<
        (),
        StorageError,
    >)
        ensures
            r == self@.spec_check_buckets_for_overflow(bag@.stored_by, *voucher_update),
    {
        self.check_buckets_for_overflow(&bag.stored_by, voucher_update)
    }

    /// Update total objects size and number for provided storage buckets.
    pub fn change_storage_buckets_vouchers(
        &mut self,
        bucket_ids: &BTreeSet<u64>,
        voucher_update: &VoucherUpdate,
        voucher_operation: OperationType,
    )
        ensures
            final(self)@ == (StorageStateView {
                storage_buckets: vouchers_changed(old(self)@.storage_buckets, bucket_ids@, *voucher_update, voucher_operation),
                ..old(self)@
            }),
    {
        let ghost s0 = self@;
        let q = ascending_vec(bucket_ids);
        proof {
            crate::sorted::lemma_increasing_no_duplicates(q@);
        }
        let mut i: usize = 0;
        while i < q.len()
            invariant
                q@.to_set() == bucket_ids@,
                q@.no_duplicates(),
                i <= q@.len(),
                self@ == (StorageStateView {
                    storage_buckets: vouchers_changed(s0.storage_buckets, q@.take(i as int).to_set(), *voucher_update, voucher_operation),
                    ..s0
                }),
            decreases q@.len() - i,
        {
            let id: u64 = q[i];
            proof {
                crate::sorted::lemma_take_succ_to_set(q@, i as int);
                crate::sorted::lemma_not_in_prefix(q@, i as int);
            }
            let current = match self.storage_buckets.get(&id) {
                Some(b) => Some(*b),
                None => None,
            };
            if let Some(bucket) = current {
                let updated = StorageBucketRecord {
                    voucher: voucher_update.get_updated_voucher(&bucket.voucher, voucher_operation),
                    ..bucket
                };
                self.storage_buckets.insert(id, updated);
            }
            proof {
                assert(self@.storage_buckets =~= vouchers_changed(
                    s0.storage_buckets,
                    q@.take(i + 1).to_set(),
                    *voucher_update,
                    voucher_operation,
                ));
                assert(self@ =~= (StorageStateView {
                    storage_buckets: vouchers_changed(s0.storage_buckets, q@.take(i + 1).to_set(), *voucher_update, voucher_operation),
                    ..s0
                }));
            }
            i = i + 1;
        }
        proof {
            crate::sorted::lemma_take_all(q@);
        }
    }

    /// Update total objects size and number for all storage buckets assigned to a bag and the
    /// bag counters.
    pub fn change_storage_bucket_vouchers_for_bag(
        &mut self,
        bag_id: &BagIdType,
        bag: &BagRecord,
        voucher_update: &VoucherUpdate,
        voucher_operation: OperationType,
    )
        ensures
            final(self)@ == old(self)@.spec_change_storage_bucket_vouchers_for_bag(
                *bag_id,
                bag@.stored_by,
                *voucher_update,
                voucher_operation,
            ),
    {
        let key = bag_id.key();
        let mut current = self.bag(bag_id);
        match voucher_operation {
            OperationType::Increase => {
                current.objects_total_size = current.objects_total_size.saturating_add(voucher_update.objects_total_size);
                current.objects_number = current.objects_number.saturating_add(voucher_update.objects_number);
            },
            OperationType::Decrease => {
                current.objects_total_size = current.objects_total_size.saturating_sub(voucher_update.objects_total_size);
                current.objects_number = current.objects_number.saturating_sub(voucher_update.objects_number);
            },
        }
        let ghost prev = self.bags@;
        self.bags.insert(key, current);
        proof {
            assert(self.bags@.map_values(|b: BagRecord| b@) =~= prev.map_values(|b: BagRecord| b@).insert(key, current@));
        }
        self.change_storage_buckets_vouchers(&bag.stored_by, voucher_update, voucher_operation);
    }

    /// Add and/or remove storage buckets assignments to bags.
    pub fn change_bag_assignments_for_storage_buckets(
        &mut self,
        add_buckets: &BTreeSet<u64>,
        remove_buckets: &BTreeSet<u64>,
    )
        ensures
            final(self)@ == (StorageStateView {
                storage_buckets: storage_assignments_changed(old(self)@.storage_buckets, add_buckets@, remove_buckets@),
                ..old(self)@
            }),
    {
        let ghost s0 = self@;
        let adds = ascending_vec(add_buckets);
        proof {
            crate::sorted::lemma_increasing_no_duplicates(adds@);
        }
        let mut i: usize = 0;
        while i < adds.len()
            invariant
                adds@.to_set() == add_buckets@,
                adds@.no_duplicates(),
                i <= adds@.len(),
                self@ == (StorageStateView {
                    storage_buckets: storage_assignments_changed(s0.storage_buckets, adds@.take(i as int).to_set(), Set::empty()),
                    ..s0
                }),
            decreases adds@.len() - i,
        {
            let id: u64 = adds[i];
            proof {
                crate::sorted::lemma_take_succ_to_set(adds@, i as int);
                crate::sorted::lemma_not_in_prefix(adds@, i as int);
            }
            let current = match self.storage_buckets.get(&id) {
                Some(b) => Some(*b),
                None => None,
            };
            if let Some(bucket) = current {
                let mut bucket = bucket;
                bucket.register_bag_assignment();
                self.storage_buckets.insert(id, bucket);
            }
            proof {
                assert(self@.storage_buckets =~= storage_assignments_changed(
                    s0.storage_buckets,
                    adds@.take(i + 1).to_set(),
                    Set::empty(),
                ));
                assert(self@ =~= (StorageStateView {
                    storage_buckets: storage_assignments_changed(s0.storage_buckets, adds@.take(i + 1).to_set(), Set::empty()),
                    ..s0
                }));
            }
            i = i + 1;
        }
        proof {
            crate::sorted::lemma_take_all(adds@);
        }
        let removes = ascending_vec(remove_buckets);
        proof {
            crate::sorted::lemma_increasing_no_duplicates(removes@);
        }
        let mut i: usize = 0;
        while i < removes.len()
            invariant
                removes@.to_set() == remove_buckets@,
                removes@.no_duplicates(),
                i <= removes@.len(),
                self@ == (StorageStateView {
                    storage_buckets: storage_assignments_changed(s0.storage_buckets, add_buckets@, removes@.take(i as int).to_set()),
                    ..s0
                }),
            decreases removes@.len() - i,
        {
            let id: u64 = removes[i];
            proof {
                crate::sorted::lemma_take_succ_to_set(removes@, i as int);
                crate::sorted::lemma_not_in_prefix(removes@, i as int);
            }
            let current = match self.storage_buckets.get(&id) {
                Some(b) => Some(*b),
                None => None,
            };
            if let Some(bucket) = current {
                let mut bucket = bucket;
                bucket.unregister_bag_assignment();
                self.storage_buckets.insert(id, bucket);
            }
            proof {
                assert(self@.storage_buckets =~= storage_assignments_changed(
                    s0.storage_buckets,
                    add_buckets@,
                    removes@.take(i + 1).to_set(),
                ));
                assert(self@ =~= (StorageStateView {
                    storage_buckets: storage_assignments_changed(s0.storage_buckets, add_buckets@, removes@.take(i + 1).to_set()),
                    ..s0
                }));
            }
            i = i + 1;
        }
        proof {
            crate::sorted::lemma_take_all(removes@);
        }
    }

    /// Add and/or remove distribution buckets assignments to bags.
    pub fn change_bag_assignments_for_distribution_buckets(
        &mut self,
        add_buckets: &BTreeSet<(u64, u64)>,
        remove_buckets: &BTreeSet<(u64, u64)>,
    )
        ensures
            final(self)@ == (StorageStateView {
                distribution_buckets: distribution_assignments_changed(
                    old(self)@.distribution_buckets,
                    add_buckets@,
                    remove_buckets@,
                ),
                ..old(self)@
            }),
    {
        let ghost s0 = self@;
        let adds = pair_vec(add_buckets);
        let mut i: usize = 0;
        while i < adds.len()
            invariant
                adds@.to_set() == add_buckets@,
                adds@.no_duplicates(),
                i <= adds@.len(),
                self@ == (StorageStateView {
                    distribution_buckets: distribution_assignments_changed(
                        s0.distribution_buckets,
                        adds@.take(i as int).to_set(),
                        Set::empty(),
                    ),
                    ..s0
                }),
            decreases adds@.len() - i,
        {
            let id: (u64, u64) = adds[i];
            proof {
                crate::sorted::lemma_take_succ_to_set(adds@, i as int);
                crate::sorted::lemma_not_in_prefix(adds@, i as int);
            }
            let current = match self.distribution_buckets.get(&id) {
                Some(b) => Some(b.copy()),
                None => None,
            };
            let ghost prev = self.distribution_buckets@;
            if let Some(bucket) = current {
                let mut bucket = bucket;
                bucket.register_bag_assignment();
                self.distribution_buckets.insert(id, bucket);
                proof {
                    assert(self.distribution_buckets@.map_values(|b: DistributionBucketRecord| b@)
                        =~= prev.map_values(|b: DistributionBucketRecord| b@).insert(id, bucket@));
                    assert(self@.distribution_buckets == prev.map_values(|b: DistributionBucketRecord| b@).insert(id, bucket@));
                    let m1 = distribution_assignments_changed(s0.distribution_buckets, adds@.take(i as int).to_set(), Set::empty());
                    let m2 = distribution_assignments_changed(s0.distribution_buckets, adds@.take(i + 1).to_set(), Set::empty());
                    assert(m1.contains_key(id));
                    assert(m1[id].assigned_bags == s0.distribution_buckets[id].assigned_bags);
                    assert(m2[id] == bucket@);
                }
            }
            proof {
                assert(self@.distribution_buckets =~= distribution_assignments_changed(
                    s0.distribution_buckets,
                    adds@.take(i + 1).to_set(),
                    Set::empty(),
                ));
                assert(self@ =~= (StorageStateView {
                    distribution_buckets: distribution_assignments_changed(
                        s0.distribution_buckets,
                        adds@.take(i + 1).to_set(),
                        Set::empty(),
                    ),
                    ..s0
                }));
            }
            i = i + 1;
        }
        proof {
            crate::sorted::lemma_take_all(adds@);
        }
        let removes = pair_vec(remove_buckets);
        let mut i: usize = 0;
        while i < removes.len()
            invariant
                removes@.to_set() == remove_buckets@,
                removes@.no_duplicates(),
                i <= removes@.len(),
                self@ == (StorageStateView {
                    distribution_buckets: distribution_assignments_changed(
                        s0.distribution_buckets,
                        add_buckets@,
                        removes@.take(i as int).to_set(),
                    ),
                    ..s0
                }),
            decreases removes@.len() - i,
        {
            let id: (u64, u64) = removes[i];
            proof {
                crate::sorted::lemma_take_succ_to_set(removes@, i as int);
                crate::sorted::lemma_not_in_prefix(removes@, i as int);
            }
            let current = match self.distribution_buckets.get(&id) {
                Some(b) => Some(b.copy()),
                None => None,
            };
            let ghost prev = self.distribution_buckets@;
            if let Some(bucket) = current {
                let mut bucket = bucket;
                bucket.unregister_bag_assignment();
                self.distribution_buckets.insert(id, bucket);
                proof {
                    assert(self.distribution_buckets@.map_values(|b: DistributionBucketRecord| b@)
                        =~= prev.map_values(|b: DistributionBucketRecord| b@).insert(id, bucket@));
                    assert(self@.distribution_buckets == prev.map_values(|b: DistributionBucketRecord| b@).insert(id, bucket@));
                    let m1 = distribution_assignments_changed(s0.distribution_buckets, add_buckets@, removes@.take(i as int).to_set());
                    let m2 = distribution_assignments_changed(s0.distribution_buckets, add_buckets@, removes@.take(i + 1).to_set());
                    assert(m1.contains_key(id));
                    assert(current.unwrap()@ == m1[id]);
                    assert(m2[id] == bucket@);
                }
            }
            proof {
                assert(self@.distribution_buckets =~= distribution_assignments_changed(
                    s0.distribution_buckets,
                    add_buckets@,
                    removes@.take(i + 1).to_set(),
                ));
                assert(self@ =~= (StorageStateView {
                    distribution_buckets: distribution_assignments_changed(
                        s0.distribution_buckets,
                        add_buckets@,
                        removes@.take(i + 1).to_set(),
                    ),
                    ..s0
                }));
            }
            i = i + 1;
        }
        proof {
            crate::sorted::lemma_take_all(removes@);
        }
    }
}

} // verus!
