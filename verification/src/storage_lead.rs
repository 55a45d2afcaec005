use vstd::prelude::*;
use std::collections::BTreeSet;

use crate::primitives::{AccountId, Balance, StorageBucketId, WorkerId};
use crate::storage_buckets::{
    accept_objects, bound_error, changes, ensure_bucket_invitation_accepted, ensure_bucket_missing_invitation_status,
    ensure_bucket_pending_invitation_status, ensure_bucket_storage_provider_invitation_status,
    ensure_bucket_storage_provider_invitation_status_for_removal, ensure_bucket_transactor_access,
    ensure_storage_provider_operator_exists,
};
use crate::storage_errors::StorageError;
use crate::storage_state::{StorageState, StorageStateView, bag_type_key, objects_view, unique_ids};
use crate::storage_types::{
    BagIdType, BagRecord, DataObject, DataObjectView, DynamicBagCreationPolicyView, DynamicBagType, OperationType,
    StorageBucketOperatorStatus, StorageBucketRecord, Voucher,
};

verus! {

impl StorageStateView {
    /// Invite a storage bucket operator: the bucket must have neither an operator nor an
    /// invitation, and the worker (whose existence is `operator_exists`) must exist.
    pub open spec fn spec_invite_storage_bucket_operator(self, id: u64, operator_id: WorkerId, operator_exists: bool) -> Result<
        StorageStateView,
        StorageError,
    > {
        self.bucket_change(
            id,
            |b: StorageBucketRecord|
                if b.operator_status is StorageWorker {
                    Err(StorageError::StorageProviderAlreadySet)
                } else if b.operator_status is InvitedStorageWorker {
                    Err(StorageError::InvitedStorageProvider)
                } else if !operator_exists {
                    Err(StorageError::StorageProviderOperatorDoesntExist)
                } else {
                    Ok(())
                },
            |b: StorageBucketRecord|
                StorageBucketRecord { operator_status: StorageBucketOperatorStatus::InvitedStorageWorker(operator_id), ..b },
        )
    }

    /// Accept a storage bucket invitation: the worker must be the invited one; it becomes the
    /// operator with its transactor account.
    pub open spec fn spec_accept_storage_bucket_invitation(self, worker_id: WorkerId, id: u64, transactor_account_id: AccountId) -> Result<
        StorageStateView,
        StorageError,
    > {
        self.bucket_change(
            id,
            |b: StorageBucketRecord| b.spec_provider_invitation_status(worker_id),
            |b: StorageBucketRecord|
                StorageBucketRecord {
                    operator_status: StorageBucketOperatorStatus::StorageWorker(worker_id, transactor_account_id),
                    ..b
                },
        )
    }

    /// Update the number of storage buckets of a dynamic bag creation policy (the policy is
    /// created from the default one when none is stored).
    pub open spec fn spec_update_number_of_storage_buckets_in_dynamic_bag_creation_policy(
        self,
        dynamic_bag_type: DynamicBagType,
        number_of_storage_buckets: u64,
    ) -> Result<StorageStateView, StorageError> {
        match bound_error(
            self.config.storage_buckets_per_bag_value_constraint.spec_check(number_of_storage_buckets),
            StorageError::NumberOfStorageBucketsOutsideOfAllowedContraints,
            StorageError::NumberOfStorageBucketsOutsideOfAllowedContraints,
        ) {
            Some(e) => Err(e),
            None => Ok(StorageStateView {
                dynamic_bag_creation_policies: self.dynamic_bag_creation_policies.insert(
                    bag_type_key(dynamic_bag_type),
                    DynamicBagCreationPolicyView { number_of_storage_buckets, ..self.policy(dynamic_bag_type) },
                ),
                ..self
            }),
        }
    }
}

/// Marks the objects of a list whose IDs are in `ids` as accepted.
fn accept_objects_exec(list: &mut Vec<(u64, DataObject)>, ids: &BTreeSet<u64>)
    ensures
        objects_view(final(list)@) == accept_objects(objects_view(old(list)@), ids@),
{
    let ghost s = objects_view(list@);
    let mut i: usize = 0;
    while i < list.len()
        invariant
            s == objects_view(old(list)@),
            list@.len() == old(list)@.len(),
            i <= list@.len(),
            forall|j: int| 0 <= j < i ==> #[trigger] objects_view(list@)[j] == accept_objects(s, ids@)[j],
            forall|j: int| i <= j < list@.len() ==> #[trigger] list@[j] == old(list)@[j],
        decreases list@.len() - i,
    {
        let id: u64 = list[i].0;
        if ids.contains(&id) {
            let o = list[i].1.copy();
            let accepted = DataObject { accepted: true, ..o };
            let ghost before = list@;
            list.set(i, (id, accepted));
            proof {
                assert(ids@.contains(id));
                assert(before[i as int] == old(list)@[i as int]);
                assert(s[i as int] == (id, o@));
                assert(objects_view(list@)[i as int] == accept_objects(s, ids@)[i as int]);
                assert forall|j: int| 0 <= j < i + 1 implies #[trigger] objects_view(list@)[j] == accept_objects(s, ids@)[j] by {
                    if j < i {
                        assert(list@[j] == before[j]);
                        assert(objects_view(before)[j] == accept_objects(s, ids@)[j]);
                    }
                }
            }
        }
        i = i + 1;
    }
    proof {
        assert(objects_view(list@) =~= accept_objects(s, ids@));
    }
}

impl StorageState {
    /// Delete storage bucket. Must be empty. No bags may be assigned to it.
    pub fn delete_storage_bucket(&mut self, storage_bucket_id: StorageBucketId) -> (r: Result<(), StorageError>)
        ensures
            changes(r, old(self)@, final(self)@, old(self)@.spec_delete_storage_bucket(storage_bucket_id)),
    {
        let bucket = match self.ensure_storage_bucket_exists(&storage_bucket_id) {
            Err(e) => return Err(e),
            Ok(b) => b,
        };
        if bucket.voucher.objects_used != 0 {
            return Err(StorageError::CannotDeleteNonEmptyStorageBucket);
        }
        if !bucket.no_bags_assigned() {
            return Err(StorageError::StorageBucketIsBoundToBag);
        }
        self.storage_buckets.remove(&storage_bucket_id);
        Ok(())
    }

    /// Updates global uploading flag.
    pub fn update_uploading_blocked_status(&mut self, new_status: bool)
        ensures
            final(self)@ == (StorageStateView { uploading_blocked: new_status, ..old(self)@ }),
    {
        self.uploading_blocked = new_status;
    }

    /// Updates size-based pricing of new objects uploaded.
    pub fn update_data_size_fee(&mut self, new_data_size_fee: Balance)
        ensures
            final(self)@ == (StorageStateView { data_object_per_mega_byte_fee: new_data_size_fee, ..old(self)@ }),
    {
        self.data_object_per_mega_byte_fee = new_data_size_fee;
    }

    /// Updates "Storage buckets per bag" number limit, which must satisfy the configured
    /// constraint.
    pub fn update_storage_buckets_per_bag_limit(&mut self, new_limit: u64) -> (r: Result<(), StorageError>)
        ensures
            changes(
                r,
                old(self)@,
                final(self)@,
                match bound_error(
                    old(self)@.config.storage_buckets_per_bag_value_constraint.spec_check(new_limit),
                    StorageError::StorageBucketsPerBagLimitTooLow,
                    StorageError::StorageBucketsPerBagLimitTooHigh,
                ) {
                    Some(e) => Err(e),
                    None => Ok(StorageStateView { storage_buckets_per_bag_limit: new_limit, ..old(self)@ }),
                },
            ),
    {
        match self.config.storage_buckets_per_bag_value_constraint.check(new_limit) {
            crate::primitives::BoundCheck::TooLow => return Err(StorageError::StorageBucketsPerBagLimitTooLow),
            crate::primitives::BoundCheck::TooHigh => return Err(StorageError::StorageBucketsPerBagLimitTooHigh),
            crate::primitives::BoundCheck::Valid => {},
        }
        self.storage_buckets_per_bag_limit = new_limit;
        Ok(())
    }

    /// Updates "Storage buckets voucher max limits".
    pub fn update_storage_buckets_voucher_max_limits(&mut self, new_objects_size: u64, new_objects_number: u64)
        ensures
            final(self)@ == (StorageStateView {
                voucher_max_objects_size_limit: new_objects_size,
                voucher_max_objects_number_limit: new_objects_number,
                ..old(self)@
            }),
    {
        self.voucher_max_objects_size_limit = new_objects_size;
        self.voucher_max_objects_number_limit = new_objects_number;
    }

    /// Updates data object state bloat bond value.
    pub fn update_data_object_state_bloat_bond(&mut self, state_bloat_bond: Balance)
        ensures
            final(self)@ == (StorageStateView { data_object_state_bloat_bond_value: state_bloat_bond, ..old(self)@ }),
    {
        self.data_object_state_bloat_bond_value = state_bloat_bond;
    }

    /// Update number of storage buckets used in given dynamic bag creation policy.
    pub fn update_number_of_storage_buckets_in_dynamic_bag_creation_policy(
        &mut self,
        dynamic_bag_type: DynamicBagType,
        number_of_storage_buckets: u64,
    ) -> (r: Result<(), StorageError>)
        ensures
            changes(
                r,
                old(self)@,
                final(self)@,
                old(self)@.spec_update_number_of_storage_buckets_in_dynamic_bag_creation_policy(
                    dynamic_bag_type,
                    number_of_storage_buckets,
                ),
            ),
    {
        match self.config.storage_buckets_per_bag_value_constraint.check(number_of_storage_buckets) {
            crate::primitives::BoundCheck::Valid => {},
            _ => return Err(StorageError::NumberOfStorageBucketsOutsideOfAllowedContraints),
        }
        let mut creation_policy = self.get_dynamic_bag_creation_policy(dynamic_bag_type);
        creation_policy.number_of_storage_buckets = number_of_storage_buckets;
        let key: u64 = match dynamic_bag_type {
            DynamicBagType::Member => 0,
            DynamicBagType::Channel => 1,
        };
        let ghost prev = self.dynamic_bag_creation_policies@;
        self.dynamic_bag_creation_policies.insert(key, creation_policy);
        proof {
            assert(self@.dynamic_bag_creation_policies =~= prev.map_values(
                |p: crate::storage_types::DynamicBagCreationPolicy| p@,
            ).insert(key, creation_policy@));
        }
        Ok(())
    }

    /// Create storage bucket under the next storage bucket ID.
    /// `invite_worker_exists`: whether the storage working group has the invited worker.
    pub fn create_storage_bucket(
        &mut self,
        invite_worker: Option<WorkerId>,
        invite_worker_exists: bool,
        accepting_new_bags: bool,
        size_limit: u64,
        objects_limit: u64,
    ) -> (r: Result<(), StorageError>)
        requires
            old(self).next_storage_bucket_id < u64::MAX,
        ensures
            changes(
                r,
                old(self)@,
                final(self)@,
                old(self)@.spec_create_storage_bucket(
                    invite_worker,
                    invite_worker_exists,
                    accepting_new_bags,
                    size_limit,
                    objects_limit,
                ),
            ),
    {
        let voucher = Voucher { size_limit, objects_limit, ..Voucher::default() };
        if let Err(e) = self.can_create_storage_bucket(&voucher, &invite_worker, invite_worker_exists) {
            return Err(e);
        }
        let operator_status = match invite_worker {
            Some(w) => StorageBucketOperatorStatus::InvitedStorageWorker(w),
            None => StorageBucketOperatorStatus::Missing,
        };
        let storage_bucket = StorageBucketRecord { operator_status, accepting_new_bags, voucher, assigned_bags: 0 };
        let storage_bucket_id = self.next_storage_bucket_id;
        self.next_storage_bucket_id = storage_bucket_id + 1;
        self.storage_buckets.insert(storage_bucket_id, storage_bucket);
        Ok(())
    }

    /// Updates storage buckets for a bag.
    pub fn update_storage_buckets_for_bag(
        &mut self,
        bag_id: BagIdType,
        add_buckets: BTreeSet<StorageBucketId>,
        remove_buckets: BTreeSet<StorageBucketId>,
    ) -> (r: Result<(), StorageError>)
        ensures
            changes(
                r,
                old(self)@,
                final(self)@,
                old(self)@.spec_update_storage_buckets_for_bag(bag_id, add_buckets@, remove_buckets@),
            ),
    {
        let ghost s0 = self@;
        if let Err(e) = self.ensure_bag_exists(&bag_id) {
            return Err(e);
        }
        let voucher_update = match self.validate_update_storage_buckets_for_bag_params(
            &bag_id,
            &add_buckets,
            &remove_buckets,
        ) {
            Err(e) => return Err(e),
            Ok(v) => v,
        };
        // Update vouchers.
        if !add_buckets.is_empty() {
            self.change_storage_buckets_vouchers(&add_buckets, &voucher_update, OperationType::Increase);
        }
        let ghost s1 = self@;
        proof {
            assert(s1.storage_buckets =~= crate::storage_vouchers::vouchers_changed(
                s0.storage_buckets,
                add_buckets@,
                voucher_update,
                OperationType::Increase,
            ));
        }
        if !remove_buckets.is_empty() {
            self.change_storage_buckets_vouchers(&remove_buckets, &voucher_update, OperationType::Decrease);
        }
        proof {
            assert(self@.storage_buckets =~= crate::storage_vouchers::vouchers_changed(
                s1.storage_buckets,
                remove_buckets@,
                voucher_update,
                OperationType::Decrease,
            ));
        }
        // Update bag counters.
        self.change_bag_assignments_for_storage_buckets(&add_buckets, &remove_buckets);
        let mut bag = self.bag(&bag_id);
        let mut adds = add_buckets.clone();
        bag.update_storage_buckets(&mut adds, &remove_buckets);
        let key = bag_id.key();
        let ghost prev = self.bags@;
        self.bags.insert(key, bag);
        proof {
            assert(self.bags@.map_values(|b: BagRecord| b@) =~= prev.map_values(|b: BagRecord| b@).insert(key, bag@));
        }
        Ok(())
    }

    /// Cancel pending storage bucket invite. An invitation must be pending.
    pub fn cancel_storage_bucket_operator_invite(&mut self, storage_bucket_id: StorageBucketId) -> (r: Result<
        (),
        StorageError,
    >)
        ensures
            changes(
                r,
                old(self)@,
                final(self)@,
                old(self)@.bucket_change(
                    storage_bucket_id,
                    |b: StorageBucketRecord|
                        if b.operator_status is InvitedStorageWorker {
                            Ok(())
                        } else if b.operator_status is Missing {
                            Err(StorageError::NoStorageBucketInvitation)
                        } else {
                            Err(StorageError::StorageProviderAlreadySet)
                        },
                    |b: StorageBucketRecord| StorageBucketRecord { operator_status: StorageBucketOperatorStatus::Missing, ..b },
                ),
            ),
    {
        let bucket = match self.ensure_storage_bucket_exists(&storage_bucket_id) {
            Err(e) => return Err(e),
            Ok(b) => b,
        };
        if let Err(e) = ensure_bucket_pending_invitation_status(&bucket) {
            return Err(e);
        }
        self.storage_buckets.insert(
            storage_bucket_id,
            StorageBucketRecord { operator_status: StorageBucketOperatorStatus::Missing, ..bucket },
        );
        Ok(())
    }

    /// Invite storage bucket operator. Must be missing.
    /// `operator_exists`: whether the storage working group has the worker.
    pub fn invite_storage_bucket_operator(
        &mut self,
        storage_bucket_id: StorageBucketId,
        operator_id: WorkerId,
        operator_exists: bool,
    ) -> (r: Result<(), StorageError>)
        ensures
            changes(
                r,
                old(self)@,
                final(self)@,
                old(self)@.spec_invite_storage_bucket_operator(storage_bucket_id, operator_id, operator_exists),
            ),
    {
        let bucket = match self.ensure_storage_bucket_exists(&storage_bucket_id) {
            Err(e) => return Err(e),
            Ok(b) => b,
        };
        if let Err(e) = ensure_bucket_missing_invitation_status(&bucket) {
            return Err(e);
        }
        if let Err(e) = ensure_storage_provider_operator_exists(operator_exists) {
            return Err(e);
        }
        self.storage_buckets.insert(
            storage_bucket_id,
            StorageBucketRecord { operator_status: StorageBucketOperatorStatus::InvitedStorageWorker(operator_id), ..bucket },
        );
        Ok(())
    }

    /// Removes storage bucket operator.
    pub fn remove_storage_bucket_operator(&mut self, storage_bucket_id: StorageBucketId) -> (r: Result<(), StorageError>)
        ensures
            changes(
                r,
                old(self)@,
                final(self)@,
                old(self)@.bucket_change(
                    storage_bucket_id,
                    |b: StorageBucketRecord|
                        if b.operator_status is StorageWorker {
                            Ok(())
                        } else {
                            Err(StorageError::StorageProviderMustBeSet)
                        },
                    |b: StorageBucketRecord| StorageBucketRecord { operator_status: StorageBucketOperatorStatus::Missing, ..b },
                ),
            ),
    {
        let bucket = match self.ensure_storage_bucket_exists(&storage_bucket_id) {
            Err(e) => return Err(e),
            Ok(b) => b,
        };
        if let Err(e) = ensure_bucket_storage_provider_invitation_status_for_removal(&bucket) {
            return Err(e);
        }
        self.storage_buckets.insert(
            storage_bucket_id,
            StorageBucketRecord { operator_status: StorageBucketOperatorStatus::Missing, ..bucket },
        );
        Ok(())
    }

    /// Update whether new bags are being accepted for storage.
    pub fn update_storage_bucket_status(&mut self, storage_bucket_id: StorageBucketId, accepting_new_bags: bool) -> (r:
        Result<(), StorageError>)
        ensures
            changes(
                r,
                old(self)@,
                final(self)@,
                old(self)@.bucket_change(
                    storage_bucket_id,
                    |b: StorageBucketRecord| Ok(()),
                    |b: StorageBucketRecord| StorageBucketRecord { accepting_new_bags, ..b },
                ),
            ),
    {
        let bucket = match self.ensure_storage_bucket_exists(&storage_bucket_id) {
            Err(e) => return Err(e),
            Ok(b) => b,
        };
        self.storage_buckets.insert(storage_bucket_id, StorageBucketRecord { accepting_new_bags, ..bucket });
        Ok(())
    }

    /// Sets storage bucket voucher limits, within the voucher max limits.
    pub fn set_storage_bucket_voucher_limits(
        &mut self,
        storage_bucket_id: StorageBucketId,
        new_objects_size_limit: u64,
        new_objects_number_limit: u64,
    ) -> (r: Result<(), StorageError>)
        ensures
            changes(
                r,
                old(self)@,
                final(self)@,
                old(self)@.bucket_change(
                    storage_bucket_id,
                    |b: StorageBucketRecord|
                        if new_objects_size_limit > old(self)@.voucher_max_objects_size_limit {
                            Err(StorageError::VoucherMaxObjectSizeLimitExceeded)
                        } else if new_objects_number_limit > old(self)@.voucher_max_objects_number_limit {
                            Err(StorageError::VoucherMaxObjectNumberLimitExceeded)
                        } else {
                            Ok(())
                        },
                    |b: StorageBucketRecord|
                        StorageBucketRecord {
                            voucher: Voucher {
                                size_limit: new_objects_size_limit,
                                objects_limit: new_objects_number_limit,
                                ..b.voucher
                            },
                            ..b
                        },
                ),
            ),
    {
        let bucket = match self.ensure_storage_bucket_exists(&storage_bucket_id) {
            Err(e) => return Err(e),
            Ok(b) => b,
        };
        if new_objects_size_limit > self.voucher_max_objects_size_limit {
            return Err(StorageError::VoucherMaxObjectSizeLimitExceeded);
        }
        if new_objects_number_limit > self.voucher_max_objects_number_limit {
            return Err(StorageError::VoucherMaxObjectNumberLimitExceeded);
        }
        self.storage_buckets.insert(
            storage_bucket_id,
            StorageBucketRecord {
                voucher: Voucher {
                    size_limit: new_objects_size_limit,
                    objects_limit: new_objects_number_limit,
                    ..bucket.voucher
                },
                ..bucket
            },
        );
        Ok(())
    }

    /// Accept the storage bucket invitation. An invitation must match the worker ID.
    pub fn accept_storage_bucket_invitation(
        &mut self,
        worker_id: WorkerId,
        storage_bucket_id: StorageBucketId,
        transactor_account_id: AccountId,
    ) -> (r: Result<(), StorageError>)
        ensures
            changes(
                r,
                old(self)@,
                final(self)@,
                old(self)@.spec_accept_storage_bucket_invitation(worker_id, storage_bucket_id, transactor_account_id),
            ),
    {
        let bucket = match self.ensure_storage_bucket_exists(&storage_bucket_id) {
            Err(e) => return Err(e),
            Ok(b) => b,
        };
        if let Err(e) = ensure_bucket_storage_provider_invitation_status(&bucket, worker_id) {
            return Err(e);
        }
        self.storage_buckets.insert(
            storage_bucket_id,
            StorageBucketRecord {
                operator_status: StorageBucketOperatorStatus::StorageWorker(worker_id, transactor_account_id),
                ..bucket
            },
        );
        Ok(())
    }

    /// Sets storage operator metadata: the worker must be the bucket's accepted operator; the
    /// state does not change (the metadata goes to the event).
    pub fn set_storage_operator_metadata(
        &self,
        worker_id: WorkerId,
        storage_bucket_id: StorageBucketId,
        metadata: &Vec<u8>,
    ) -> (r: Result<(), StorageError>)
        ensures
            r == (if !self@.storage_buckets.contains_key(storage_bucket_id) {
                Err(StorageError::StorageBucketDoesntExist)
            } else {
                self@.storage_buckets[storage_bucket_id].spec_invitation_accepted(worker_id)
            }),
    {
        let bucket = match self.ensure_storage_bucket_exists(&storage_bucket_id) {
            Err(e) => return Err(e),
            Ok(b) => b,
        };
        ensure_bucket_invitation_accepted(&bucket, worker_id)
    }

    /// A storage provider signals that the data objects were successfully uploaded to its
    /// storage: they are marked as accepted.
    pub fn accept_pending_data_objects(
        &mut self,
        worker_id: WorkerId,
        storage_bucket_id: StorageBucketId,
        bag_id: BagIdType,
        data_objects: BTreeSet<u64>,
        transactor_account_id: AccountId,
    ) -> (r: Result<(), StorageError>)
        requires
            old(self)@.wf(),
        ensures
            final(self)@.wf(),
            changes(
                r,
                old(self)@,
                final(self)@,
                old(self)@.spec_accept_pending_data_objects(
                    worker_id,
                    storage_bucket_id,
                    bag_id,
                    data_objects@,
                    transactor_account_id,
                ),
            ),
    {
        let ghost s0 = self@;
        let bucket = match self.ensure_storage_bucket_exists(&storage_bucket_id) {
            Err(e) => return Err(e),
            Ok(b) => b,
        };
        if let Err(e) = ensure_bucket_transactor_access(&bucket, worker_id, transactor_account_id) {
            return Err(e);
        }
        if let Err(e) = self.ensure_bag_exists(&bag_id) {
            return Err(e);
        }
        if let Err(e) = self.validate_accept_pending_data_objects_params(&bag_id, &data_objects, &storage_bucket_id) {
            return Err(e);
        }
        let key = bag_id.key();
        let mut list = crate::storage_mutation::take_objects(&mut self.data_objects, key);
        accept_objects_exec(&mut list, &data_objects);
        self.data_objects.insert(key, list);
        proof {
            let s = (s0.objects)(key);
            assert(unique_ids(s));
            assert(unique_ids(accept_objects(s, data_objects@))) by {
                assert forall|i: int, j: int| 0 <= i < s.len() && 0 <= j < s.len() && i != j
                    implies accept_objects(s, data_objects@)[i].0 != accept_objects(s, data_objects@)[j].0 by {
                    assert(s[i].0 != s[j].0);
                }
            }
            assert(self@.objects =~= (|k: (u64, u64)|
                if k == key {
                    accept_objects((s0.objects)(key), data_objects@)
                } else {
                    (s0.objects)(k)
                }));
            assert forall|k: (u64, u64)| #[trigger] unique_ids((self@.objects)(k)) by {
                if k != key {
                    assert(unique_ids((s0.objects)(k)));
                }
            }
            assert(crate::storage_state::ids_below(s, s0.next_data_object_id));
            assert forall|k: (u64, u64)| #[trigger] crate::storage_state::ids_below((self@.objects)(k), self@.next_data_object_id) by {
                if k != key {
                    assert(crate::storage_state::ids_below((s0.objects)(k), s0.next_data_object_id));
                } else {
                    let t = accept_objects(s, data_objects@);
                    if s0.next_data_object_id != u64::MAX {
                        assert forall|i: int| 0 <= i < t.len() implies t[i].0 < s0.next_data_object_id by {
                            assert(t[i].0 == s[i].0);
                        }
                    }
                }
            }
        }
        Ok(())
    }

    /// A remark of the storage operator: the worker must be the bucket's accepted operator;
    /// the state does not change (the message goes to the event).
    pub fn storage_operator_remark(&self, worker_id: WorkerId, storage_bucket_id: StorageBucketId, msg: &Vec<u8>) -> (r:
        Result<(), StorageError>)
        ensures
            r == (if !self@.storage_buckets.contains_key(storage_bucket_id) {
                Err(StorageError::StorageBucketDoesntExist)
            } else {
                self@.storage_buckets[storage_bucket_id].spec_invitation_accepted(worker_id)
            }),
    {
        self.set_storage_operator_metadata(worker_id, storage_bucket_id, msg)
    }
}

} // verus!
