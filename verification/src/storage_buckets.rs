use vstd::prelude::*;
use std::collections::BTreeSet;

use crate::primitives::{AccountId, BoundCheck, StorageBucketId, WorkerId};
use crate::sorted::{ascending, ascending_vec, first_failure, lemma_first_failure_at, lemma_first_failure_none, lemma_set_len};
use crate::storage_errors::StorageError;
use crate::storage_state::{StorageState, StorageStateView, bag_type_key, has_id, objects_view};
use crate::storage_types::{
    BagIdType, BagRecord, BagView, DataObject, DataObjectView, DynamicBagCreationPolicyView, DynamicBagType,
    OperationType, StorageBucketOperatorStatus, StorageBucketRecord, Voucher, VoucherUpdate,
};
use crate::storage_vouchers::{storage_assignments_changed, vouchers_changed};

verus! {

/// A call returned `r` and went from `before` to `after` as `expected` says: on success the
/// expected new state, on failure the expected error and no change.
pub open spec fn changes(
    r: Result<(), StorageError>,
    before: StorageStateView,
    after: StorageStateView,
    expected: Result<StorageStateView, StorageError>,
) -> bool {
    match (r, expected) {
        (Ok(_), Ok(s)) => after == s,
        (Err(e), Err(f)) => e == f && after == before,
        _ => false,
    }
}

/// The error of a bounded value check: `too_low` below the minimum, `too_high` above the maximum.
pub open spec fn bound_error(check: BoundCheck, too_low: StorageError, too_high: StorageError) -> Option<StorageError> {
    match check {
        BoundCheck::Valid => None,
        BoundCheck::TooLow => Some(too_low),
        BoundCheck::TooHigh => Some(too_high),
    }
}

impl StorageBucketRecord {
    /// The storage provider must be invited, and be `worker_id`.
    pub open spec fn spec_provider_invitation_status(self, worker_id: WorkerId) -> Result<(), StorageError> {
        match self.operator_status {
            StorageBucketOperatorStatus::Missing => Err(StorageError::NoStorageBucketInvitation),
            StorageBucketOperatorStatus::StorageWorker(..) => Err(StorageError::StorageProviderAlreadySet),
            StorageBucketOperatorStatus::InvitedStorageWorker(invited) => if invited == worker_id {
                Ok(())
            } else {
                Err(StorageError::DifferentStorageProviderInvited)
            },
        }
    }

    /// The storage provider must have accepted the invitation, and be `worker_id`.
    pub open spec fn spec_invitation_accepted(self, worker_id: WorkerId) -> Result<(), StorageError> {
        match self.operator_status {
            StorageBucketOperatorStatus::Missing => Err(StorageError::StorageProviderMustBeSet),
            StorageBucketOperatorStatus::InvitedStorageWorker(_) => Err(StorageError::InvalidStorageProvider),
            StorageBucketOperatorStatus::StorageWorker(w, _) => if w == worker_id {
                Ok(())
            } else {
                Err(StorageError::InvalidStorageProvider)
            },
        }
    }

    /// The storage provider must be `worker_id` with `transactor_account_id` as its transactor.
    pub open spec fn spec_transactor_access(self, worker_id: WorkerId, transactor_account_id: AccountId) -> Result<
        (),
        StorageError,
    > {
        match self.operator_status {
            StorageBucketOperatorStatus::Missing => Err(StorageError::StorageProviderMustBeSet),
            StorageBucketOperatorStatus::InvitedStorageWorker(_) => Err(StorageError::InvalidStorageProvider),
            StorageBucketOperatorStatus::StorageWorker(w, account) => if w != worker_id {
                Err(StorageError::InvalidStorageProvider)
            } else if account != transactor_account_id {
                Err(StorageError::InvalidTransactorAccount)
            } else {
                Ok(())
            },
        }
    }
}

/// Ensures the correct invitation for the storage bucket and storage provider. Storage provider
/// must be invited.
pub fn ensure_bucket_storage_provider_invitation_status(bucket: &StorageBucketRecord, worker_id: WorkerId) -> (r:
    Result<(), StorageError>)
    ensures
        r == bucket.spec_provider_invitation_status(worker_id),
{
    match bucket.operator_status {
        StorageBucketOperatorStatus::Missing => Err(StorageError::NoStorageBucketInvitation),
        StorageBucketOperatorStatus::StorageWorker(..) => Err(StorageError::StorageProviderAlreadySet),
        StorageBucketOperatorStatus::InvitedStorageWorker(invited_worker_id) => {
            if worker_id != invited_worker_id {
                return Err(StorageError::DifferentStorageProviderInvited);
            }
            Ok(())
        },
    }
}

/// Ensures the storage provider is set, for its removal.
pub fn ensure_bucket_storage_provider_invitation_status_for_removal(bucket: &StorageBucketRecord) -> (r: Result<
    (),
    StorageError,
>)
    ensures
        r == (if bucket.operator_status is StorageWorker {
            Ok::<(), StorageError>(())
        } else {
            Err(StorageError::StorageProviderMustBeSet)
        }),
{
    if let StorageBucketOperatorStatus::StorageWorker(..) = bucket.operator_status {
        Ok(())
    } else {
        Err(StorageError::StorageProviderMustBeSet)
    }
}

/// Ensures the invitation of the storage bucket is pending.
pub fn ensure_bucket_pending_invitation_status(bucket: &StorageBucketRecord) -> (r: Result<(), StorageError>)
    ensures
        r == (match bucket.operator_status {
            StorageBucketOperatorStatus::Missing => Err(StorageError::NoStorageBucketInvitation),
            StorageBucketOperatorStatus::StorageWorker(..) => Err(StorageError::StorageProviderAlreadySet),
            StorageBucketOperatorStatus::InvitedStorageWorker(_) => Ok::<(), StorageError>(()),
        }),
{
    match bucket.operator_status {
        StorageBucketOperatorStatus::Missing => Err(StorageError::NoStorageBucketInvitation),
        StorageBucketOperatorStatus::StorageWorker(..) => Err(StorageError::StorageProviderAlreadySet),
        StorageBucketOperatorStatus::InvitedStorageWorker(_) => Ok(()),
    }
}

/// Ensures the storage bucket has neither an operator nor an invitation.
pub fn ensure_bucket_missing_invitation_status(bucket: &StorageBucketRecord) -> (r: Result<(), StorageError>)
    ensures
        r == (match bucket.operator_status {
            StorageBucketOperatorStatus::Missing => Ok::<(), StorageError>(()),
            StorageBucketOperatorStatus::StorageWorker(..) => Err(StorageError::StorageProviderAlreadySet),
            StorageBucketOperatorStatus::InvitedStorageWorker(_) => Err(StorageError::InvitedStorageProvider),
        }),
{
    match bucket.operator_status {
        StorageBucketOperatorStatus::Missing => Ok(()),
        StorageBucketOperatorStatus::StorageWorker(..) => Err(StorageError::StorageProviderAlreadySet),
        StorageBucketOperatorStatus::InvitedStorageWorker(_) => Err(StorageError::InvitedStorageProvider),
    }
}

/// Ensures correct storage provider for the storage bucket.
pub fn ensure_bucket_invitation_accepted(bucket: &StorageBucketRecord, worker_id: WorkerId) -> (r: Result<
    (),
    StorageError,
>)
    ensures
        r == bucket.spec_invitation_accepted(worker_id),
{
    match bucket.operator_status {
        StorageBucketOperatorStatus::Missing => Err(StorageError::StorageProviderMustBeSet),
        StorageBucketOperatorStatus::InvitedStorageWorker(_) => Err(StorageError::InvalidStorageProvider),
        StorageBucketOperatorStatus::StorageWorker(invited_worker_id, _) => {
            if worker_id != invited_worker_id {
                return Err(StorageError::InvalidStorageProvider);
            }
            Ok(())
        },
    }
}

/// Ensures correct storage provider transactor account for the storage bucket.
pub fn ensure_bucket_transactor_access(
    bucket: &StorageBucketRecord,
    worker_id: WorkerId,
    transactor_account_id: AccountId,
) -> (r: Result<(), StorageError>)
    ensures
        r == bucket.spec_transactor_access(worker_id, transactor_account_id),
{
    match bucket.operator_status {
        StorageBucketOperatorStatus::Missing => Err(StorageError::StorageProviderMustBeSet),
        StorageBucketOperatorStatus::InvitedStorageWorker(_) => Err(StorageError::InvalidStorageProvider),
        StorageBucketOperatorStatus::StorageWorker(invited_worker_id, bucket_transactor_account_id) => {
            if worker_id != invited_worker_id {
                return Err(StorageError::InvalidStorageProvider);
            }
            if transactor_account_id != bucket_transactor_account_id {
                return Err(StorageError::InvalidTransactorAccount);
            }
            Ok(())
        },
    }
}

/// Verifies the storage operator's existence (`operator_exists`: whether the storage working
/// group has the worker).
pub fn ensure_storage_provider_operator_exists(operator_exists: bool) -> (r: Result<(), StorageError>)
    ensures
        r == (if operator_exists {
            Ok::<(), StorageError>(())
        } else {
            Err(StorageError::StorageProviderOperatorDoesntExist)
        }),
{
    if !operator_exists {
        return Err(StorageError::StorageProviderOperatorDoesntExist);
    }
    Ok(())
}

/// Check the storage bucket binding for a bag.
pub fn ensure_storage_bucket_bound(bag: &BagRecord, storage_bucket_id: &StorageBucketId) -> (r: Result<
    (),
    StorageError,
>)
    ensures
        r == (if bag@.stored_by.contains(*storage_bucket_id) {
            Ok::<(), StorageError>(())
        } else {
            Err(StorageError::StorageBucketIsNotBoundToBag)
        }),
{
    if !bag.stored_by.contains(storage_bucket_id) {
        return Err(StorageError::StorageBucketIsNotBoundToBag);
    }
    Ok(())
}

impl StorageStateView {
    /// The state with the storage bucket `id` replaced by `b`.
    pub open spec fn with_storage_bucket(self, id: u64, b: StorageBucketRecord) -> StorageStateView {
        StorageStateView { storage_buckets: self.storage_buckets.insert(id, b), ..self }
    }

    /// Ensure a new bucket with this voucher (and invited worker, whose existence is
    /// `invited_worker_exists`) could be created.
    pub open spec fn spec_can_create_storage_bucket(
        self,
        voucher: Voucher,
        invited_worker: Option<WorkerId>,
        invited_worker_exists: bool,
    ) -> Result<(), StorageError> {
        if voucher.size_limit > self.voucher_max_objects_size_limit {
            Err(StorageError::VoucherMaxObjectSizeLimitExceeded)
        } else if voucher.objects_limit > self.voucher_max_objects_number_limit {
            Err(StorageError::VoucherMaxObjectNumberLimitExceeded)
        } else if invited_worker is Some && !invited_worker_exists {
            Err(StorageError::StorageProviderOperatorDoesntExist)
        } else {
            Ok(())
        }
    }

    /// Validate the `update_storage_buckets_for_bag` parameters: on success, the bag's totals,
    /// which the added buckets must be able to take.
    pub open spec fn spec_validate_update_storage_buckets_for_bag_params(
        self,
        bag_id: BagIdType,
        add: Set<u64>,
        remove: Set<u64>,
    ) -> Result<VoucherUpdate, StorageError> {
        let bag = self.bag(bag_id.spec_key());
        let vu = VoucherUpdate { objects_number: bag.objects_number, objects_total_size: bag.objects_total_size };
        if add.is_empty() && remove.is_empty() {
            Err(StorageError::StorageBucketIdCollectionsAreEmpty)
        } else if self.spec_ensure_bag_exists(bag_id) is Err {
            Err(StorageError::DynamicBagDoesntExist)
        } else if crate::primitives::capped((bag.stored_by.len() + add.len()) as int, usize::MAX as int) - remove.len() > self.storage_buckets_per_bag_limit {
            Err(StorageError::StorageBucketPerBagLimitExceeded)
        } else if first_failure(ascending(remove), self.remove_check(bag)) is Some {
            Err(first_failure(ascending(remove), self.remove_check(bag))->Some_0)
        } else if first_failure(ascending(add), self.add_check(bag)) is Some {
            Err(first_failure(ascending(add), self.add_check(bag))->Some_0)
        } else {
            match self.spec_check_buckets_for_overflow(add, vu) {
                Err(e) => Err(e),
                Ok(_) => Ok(vu),
            }
        }
    }

    /// Why a bucket cannot be removed from the bag: it is missing or not bound to the bag.
    pub open spec fn remove_check(self, bag: BagView) -> spec_fn(u64) -> Option<StorageError> {
        |id: u64|
            if !self.storage_buckets.contains_key(id) {
                Some(StorageError::StorageBucketDoesntExist)
            } else if !bag.stored_by.contains(id) {
                Some(StorageError::StorageBucketIsNotBoundToBag)
            } else {
                None
            }
    }

    /// Why a bucket cannot be added to the bag: it is missing, does not accept new bags or is
    /// already bound to the bag.
    pub open spec fn add_check(self, bag: BagView) -> spec_fn(u64) -> Option<StorageError> {
        |id: u64|
            if !self.storage_buckets.contains_key(id) {
                Some(StorageError::StorageBucketDoesntExist)
            } else if !self.storage_buckets[id].accepting_new_bags {
                Some(StorageError::StorageBucketDoesntAcceptNewBags)
            } else if bag.stored_by.contains(id) {
                Some(StorageError::StorageBucketIsBoundToBag)
            } else {
                None
            }
    }
}

/// The object list with the objects under `ids` marked as accepted.
pub open spec fn accept_objects(s: Seq<(u64, DataObjectView)>, ids: Set<u64>) -> Seq<(u64, DataObjectView)> {
    s.map_values(|e: (u64, DataObjectView)|
        if ids.contains(e.0) {
            (e.0, DataObjectView { accepted: true, ..e.1 })
        } else {
            e
        })
}

impl StorageStateView {
    /// Delete a storage bucket: it must exist, hold no objects and have no bags assigned.
    pub open spec fn spec_delete_storage_bucket(self, id: u64) -> Result<StorageStateView, StorageError> {
        if !self.storage_buckets.contains_key(id) {
            Err(StorageError::StorageBucketDoesntExist)
        } else if self.storage_buckets[id].voucher.objects_used != 0 {
            Err(StorageError::CannotDeleteNonEmptyStorageBucket)
        } else if self.storage_buckets[id].assigned_bags != 0 {
            Err(StorageError::StorageBucketIsBoundToBag)
        } else {
            Ok(StorageStateView { storage_buckets: self.storage_buckets.remove(id), ..self })
        }
    }

    /// Create a storage bucket under the next storage bucket ID.
    pub open spec fn spec_create_storage_bucket(
        self,
        invite_worker: Option<WorkerId>,
        invite_worker_exists: bool,
        accepting_new_bags: bool,
        size_limit: u64,
        objects_limit: u64,
    ) -> Result<StorageStateView, StorageError> {
        let voucher = Voucher { size_limit, objects_limit, size_used: 0, objects_used: 0 };
        match self.spec_can_create_storage_bucket(voucher, invite_worker, invite_worker_exists) {
            Err(e) => Err(e),
            Ok(_) => Ok(StorageStateView {
                next_storage_bucket_id: (self.next_storage_bucket_id + 1) as u64,
                storage_buckets: self.storage_buckets.insert(
                    self.next_storage_bucket_id,
                    StorageBucketRecord {
                        operator_status: match invite_worker {
                            Some(w) => StorageBucketOperatorStatus::InvitedStorageWorker(w),
                            None => StorageBucketOperatorStatus::Missing,
                        },
                        accepting_new_bags,
                        voucher,
                        assigned_bags: 0,
                    },
                ),
                ..self
            }),
        }
    }

    /// Update the storage buckets of a bag: the added ones take the bag's totals on their
    /// vouchers and one more assigned bag, the removed ones give them back.
    pub open spec fn spec_update_storage_buckets_for_bag(self, bag_id: BagIdType, add: Set<u64>, remove: Set<u64>) -> Result<
        StorageStateView,
        StorageError,
    > {
        if self.spec_ensure_bag_exists(bag_id) is Err {
            Err(StorageError::DynamicBagDoesntExist)
        } else {
            match self.spec_validate_update_storage_buckets_for_bag_params(bag_id, add, remove) {
                Err(e) => Err(e),
                Ok(vu) => {
                    let key = bag_id.spec_key();
                    let b = self.bag(key);
                    let with_add = vouchers_changed(self.storage_buckets, add, vu, OperationType::Increase);
                    let with_remove = vouchers_changed(with_add, remove, vu, OperationType::Decrease);
                    Ok(StorageStateView {
                        storage_buckets: storage_assignments_changed(with_remove, add, remove),
                        bags: self.bags.insert(key, BagView { stored_by: b.stored_by.union(add).difference(remove), ..b }),
                        ..self
                    })
                },
            }
        }
    }

    /// The storage bucket `id` changed by `f`, when it exists and `check` passes on it.
    pub open spec fn bucket_change(
        self,
        id: u64,
        check: spec_fn(StorageBucketRecord) -> Result<(), StorageError>,
        f: spec_fn(StorageBucketRecord) -> StorageBucketRecord,
    ) -> Result<StorageStateView, StorageError> {
        if !self.storage_buckets.contains_key(id) {
            Err(StorageError::StorageBucketDoesntExist)
        } else {
            match check(self.storage_buckets[id]) {
                Err(e) => Err(e),
                Ok(_) => Ok(self.with_storage_bucket(id, f(self.storage_buckets[id]))),
            }
        }
    }

    /// Validate the `accept_pending_data_objects` parameters.
    pub open spec fn spec_validate_accept_pending_data_objects_params(
        self,
        bag_id: BagIdType,
        data_objects: Set<u64>,
        storage_bucket_id: u64,
    ) -> Result<(), StorageError> {
        if data_objects.is_empty() {
            Err(StorageError::DataObjectIdParamsAreEmpty)
        } else if self.spec_ensure_bag_exists(bag_id) is Err {
            Err(StorageError::DynamicBagDoesntExist)
        } else if !self.bag(bag_id.spec_key()).stored_by.contains(storage_bucket_id) {
            Err(StorageError::StorageBucketIsNotBoundToBag)
        } else if exists|id: u64| data_objects.contains(id) && !has_id((self.objects)(bag_id.spec_key()), id) {
            Err(StorageError::DataObjectDoesntExist)
        } else {
            Ok(())
        }
    }

    /// A storage provider accepts pending data objects of a bag that its bucket stores.
    pub open spec fn spec_accept_pending_data_objects(
        self,
        worker_id: WorkerId,
        storage_bucket_id: u64,
        bag_id: BagIdType,
        data_objects: Set<u64>,
        transactor_account_id: AccountId,
    ) -> Result<StorageStateView, StorageError> {
        let key = bag_id.spec_key();
        if !self.storage_buckets.contains_key(storage_bucket_id) {
            Err(StorageError::StorageBucketDoesntExist)
        } else if self.storage_buckets[storage_bucket_id].spec_transactor_access(worker_id, transactor_account_id) is Err {
            Err(self.storage_buckets[storage_bucket_id].spec_transactor_access(worker_id, transactor_account_id)->Err_0)
        } else if self.spec_ensure_bag_exists(bag_id) is Err {
            Err(StorageError::DynamicBagDoesntExist)
        } else {
            match self.spec_validate_accept_pending_data_objects_params(bag_id, data_objects, storage_bucket_id) {
                Err(e) => Err(e),
                Ok(_) => Ok(StorageStateView {
                    objects: |k: (u64, u64)|
                        if k == key {
                            accept_objects((self.objects)(key), data_objects)
                        } else {
                            (self.objects)(k)
                        },
                    ..self
                }),
            }
        }
    }
}

impl StorageState {
    /// Ensure the new bucket could be created. It also validates some parameters.
    pub fn can_create_storage_bucket(
        &self,
        voucher: &Voucher,
        invited_worker: &Option<WorkerId>,
        invited_worker_exists: bool,
    ) -> (r: Result<(), StorageError>)
        ensures
            r == self@.spec_can_create_storage_bucket(*voucher, *invited_worker, invited_worker_exists),
    {
        if voucher.size_limit > self.voucher_max_objects_size_limit {
            return Err(StorageError::VoucherMaxObjectSizeLimitExceeded);
        }
        if voucher.objects_limit > self.voucher_max_objects_number_limit {
            return Err(StorageError::VoucherMaxObjectNumberLimitExceeded);
        }
        if let Some(_) = invited_worker {
            if let Err(e) = ensure_storage_provider_operator_exists(invited_worker_exists) {
                return Err(e);
            }
        }
        Ok(())
    }

    /// Ensures validity of the `update_storage_buckets_for_bag` parameters; returns the bag's
    /// totals.
    pub fn validate_update_storage_buckets_for_bag_params(
        &self,
        bag_id: &BagIdType,
        add_buckets: &BTreeSet<StorageBucketId>,
        remove_buckets: &BTreeSet<StorageBucketId>,
    ) -> (r: Result<VoucherUpdate, StorageError>)
        ensures
            r == self@.spec_validate_update_storage_buckets_for_bag_params(*bag_id, add_buckets@, remove_buckets@),
    {
        if add_buckets.is_empty() && remove_buckets.is_empty() {
            return Err(StorageError::StorageBucketIdCollectionsAreEmpty);
        }
        let bag = match self.ensure_bag_exists(bag_id) {
            Err(e) => return Err(e),
            Ok(b) => b,
        };
        proof {
            lemma_set_len(&bag.stored_by);
            lemma_set_len(add_buckets);
            lemma_set_len(remove_buckets);
        }
        let new_bucket_number: usize = bag.stored_by.len().saturating_add(add_buckets.len()).saturating_sub(
            remove_buckets.len(),
        );
        if new_bucket_number as u64 > self.storage_buckets_per_bag_limit {
            return Err(StorageError::StorageBucketPerBagLimitExceeded);
        }
        let ghost bv = bag@;
        let ghost rm = self@.remove_check(bv);
        let removes = ascending_vec(remove_buckets);
        let mut i: usize = 0;
        while i < removes.len()
            invariant
                rm == self@.remove_check(bv),
                bv == bag@,
                !(add_buckets@.is_empty() && remove_buckets@.is_empty()),
                self@.spec_ensure_bag_exists(*bag_id) is Ok,
                bv == self@.bag(bag_id.spec_key()),
                !(crate::primitives::capped((bv.stored_by.len() + add_buckets@.len()) as int, usize::MAX as int)
                    - remove_buckets@.len() > self@.storage_buckets_per_bag_limit),
                removes@ == ascending(remove_buckets@),
                i <= removes@.len(),
                forall|j: int| 0 <= j < i ==> rm(#[trigger] removes@[j]) is None,
            decreases removes@.len() - i,
        {
            let id: u64 = removes[i];
            let e = if !self.storage_buckets.contains_key(&id) {
                Some(StorageError::StorageBucketDoesntExist)
            } else if !bag.stored_by.contains(&id) {
                Some(StorageError::StorageBucketIsNotBoundToBag)
            } else {
                None
            };
            proof {
                assert(e == rm(removes@[i as int]));
            }
            if let Some(err) = e {
                proof {
                    lemma_first_failure_at(removes@, rm, i as int);
                }
                return Err(err);
            }
            i = i + 1;
        }
        proof {
            lemma_first_failure_none(removes@, rm);
        }
        let ghost ad = self@.add_check(bv);
        let adds = ascending_vec(add_buckets);
        let mut i: usize = 0;
        while i < adds.len()
            invariant
                ad == self@.add_check(bv),
                bv == bag@,
                !(add_buckets@.is_empty() && remove_buckets@.is_empty()),
                self@.spec_ensure_bag_exists(*bag_id) is Ok,
                bv == self@.bag(bag_id.spec_key()),
                !(crate::primitives::capped((bv.stored_by.len() + add_buckets@.len()) as int, usize::MAX as int)
                    - remove_buckets@.len() > self@.storage_buckets_per_bag_limit),
                first_failure(ascending(remove_buckets@), self@.remove_check(bv)) is None,
                adds@ == ascending(add_buckets@),
                i <= adds@.len(),
                forall|j: int| 0 <= j < i ==> ad(#[trigger] adds@[j]) is None,
            decreases adds@.len() - i,
        {
            let id: u64 = adds[i];
            let e = match self.storage_buckets.get(&id) {
                None => Some(StorageError::StorageBucketDoesntExist),
                Some(bucket) => if !bucket.accepting_new_bags {
                    Some(StorageError::StorageBucketDoesntAcceptNewBags)
                } else if bag.stored_by.contains(&id) {
                    Some(StorageError::StorageBucketIsBoundToBag)
                } else {
                    None
                },
            };
            proof {
                assert(e == ad(adds@[i as int]));
            }
            if let Some(err) = e {
                proof {
                    lemma_first_failure_at(adds@, ad, i as int);
                }
                return Err(err);
            }
            i = i + 1;
        }
        proof {
            lemma_first_failure_none(adds@, ad);
        }
        let voucher_update = VoucherUpdate { objects_number: bag.objects_number, objects_total_size: bag.objects_total_size };
        if let Err(e) = self.check_buckets_for_overflow(add_buckets, &voucher_update) {
            return Err(e);
        }
        Ok(voucher_update)
    }

    /// Ensures validity of the `accept_pending_data_objects` parameters.
    pub fn validate_accept_pending_data_objects_params(
        &self,
        bag_id: &BagIdType,
        data_objects: &BTreeSet<u64>,
        storage_bucket_id: &StorageBucketId,
    ) -> (r: Result<(), StorageError>)
        requires
            self@.wf(),
        ensures
            r == self@.spec_validate_accept_pending_data_objects_params(*bag_id, data_objects@, *storage_bucket_id),
    {
        if data_objects.is_empty() {
            return Err(StorageError::DataObjectIdParamsAreEmpty);
        }
        let bag = match self.ensure_bag_exists(bag_id) {
            Err(e) => return Err(e),
            Ok(b) => b,
        };
        if let Err(e) = ensure_storage_bucket_bound(&bag, storage_bucket_id) {
            return Err(e);
        }
        let ghost s = (self@.objects)(bag_id.spec_key());
        let q = ascending_vec(data_objects);
        let mut i: usize = 0;
        while i < q.len()
            invariant
                self@.wf(),
                !data_objects@.is_empty(),
                self@.spec_ensure_bag_exists(*bag_id) is Ok,
                self@.bag(bag_id.spec_key()).stored_by.contains(*storage_bucket_id),
                s == (self@.objects)(bag_id.spec_key()),
                q@.to_set() == data_objects@,
                i <= q@.len(),
                forall|j: int| 0 <= j < i ==> has_id(s, #[trigger] q@[j]),
            decreases q@.len() - i,
        {
            if let Err(e) = self.ensure_data_object_exists(bag_id, &q[i]) {
                proof {
                    assert(data_objects@.contains(q@[i as int]) && !has_id(s, q@[i as int]));
                }
                return Err(e);
            }
            i = i + 1;
        }
        proof {
            assert forall|id: u64| data_objects@.contains(id) implies has_id(s, id) by {
                assert(q@.contains(id));
                let j = choose|j: int| 0 <= j < q@.len() && q@[j] == id;
                assert(has_id(s, q@[j]));
            }
        }
        Ok(())
    }
}

} // verus!
