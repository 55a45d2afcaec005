use std::collections::{BTreeMap, BTreeSet};

use lib::primitives::BoundedValueConstraint;
use lib::storage_api::{DynBagCreationParametersRecord, UploadParametersRecord};
use lib::storage_errors::StorageError;
use lib::storage_mutation::BalanceTransfers;
use lib::storage_state::{StorageConfig, StorageState};
use lib::storage_types::{
    BagIdType, DataObjectCreationParameters, DistributionBucketIdRecord, DynamicBagIdType, DynamicBagType,
    OperationType, StaticBagId, StorageBucketOperatorStatus, Voucher, VoucherUpdate, WorkingGroup,
};

const MB: u64 = 1_048_576;

fn config() -> StorageConfig {
    StorageConfig {
        blacklist_size_limit: 3,
        storage_buckets_per_bag_value_constraint: BoundedValueConstraint { max_min_diff: 9, min: 1 },
        distribution_buckets_per_bag_value_constraint: BoundedValueConstraint { max_min_diff: 9, min: 1 },
        default_member_dynamic_bag_number_of_storage_buckets: 1,
        default_channel_dynamic_bag_number_of_storage_buckets: 1,
        max_distribution_bucket_family_number: 2,
        max_number_of_pending_invitations_per_distribution_bucket: 1,
        max_data_object_size: 10 * MB,
    }
}

fn cid(c: u8) -> Vec<u8> {
    vec![c; 46]
}

fn object(size: u64, c: u8) -> DataObjectCreationParameters {
    DataObjectCreationParameters { size, ipfs_content_id: cid(c) }
}

fn council() -> BagIdType {
    BagIdType::Static(StaticBagId::Council)
}

fn set(ids: &[u64]) -> BTreeSet<u64> {
    ids.iter().cloned().collect()
}

/// A state with bucket 0 (limits: 100 MB, 10 objects) storing the council bag, a data fee of
/// 10 per megabyte and a state bloat bond of 5 per object.
fn storage_with_bucket() -> StorageState {
    let mut s = StorageState::new(config());
    s.update_storage_buckets_voucher_max_limits(100 * MB, 10);
    assert_eq!(s.create_storage_bucket(None, false, true, 100 * MB, 10), Ok(()));
    assert_eq!(s.update_storage_buckets_per_bag_limit(5), Ok(()));
    assert_eq!(s.update_storage_buckets_for_bag(council(), set(&[0]), BTreeSet::new()), Ok(()));
    s.update_data_size_fee(10);
    s.update_data_object_state_bloat_bond(5);
    s
}

fn upload(bag_id: BagIdType, objects: Vec<DataObjectCreationParameters>) -> UploadParametersRecord {
    UploadParametersRecord {
        bag_id,
        object_creation_list: objects,
        state_bloat_bond_source_account_id: 7,
        expected_data_size_fee: 10,
        expected_data_object_state_bloat_bond: 5,
    }
}

#[test]
fn new_state_has_only_static_bags() {
    let s = StorageState::new(config());
    assert!(s.ensure_bag_exists(&council()).is_ok());
    assert!(s.ensure_bag_exists(&BagIdType::Static(StaticBagId::WorkingGroup(WorkingGroup::Storage))).is_ok());
    assert_eq!(
        s.ensure_bag_exists(&BagIdType::Dynamic(DynamicBagIdType::Member(1))).err(),
        Some(StorageError::DynamicBagDoesntExist)
    );
    assert_eq!(s.next_data_object_id, 0);
}

#[test]
fn data_storage_fee_rounds_up_to_megabytes() {
    let mut s = StorageState::new(config());
    s.update_data_size_fee(10);
    assert_eq!(s.calculate_data_storage_fee(0), 0);
    assert_eq!(s.calculate_data_storage_fee(1), 10);
    assert_eq!(s.calculate_data_storage_fee(MB), 10);
    assert_eq!(s.calculate_data_storage_fee(MB + 1), 20);
    s.update_data_size_fee(u128::MAX);
    assert_eq!(s.calculate_data_storage_fee(2 * MB), u128::MAX);
}

#[test]
fn funds_needed_for_upload_adds_bonds_and_fee() {
    let s = storage_with_bucket();
    assert_eq!(s.funds_needed_for_upload(3, 2 * MB + 1), 3 * 5 + 3 * 10);
    assert_eq!(s.funds_needed_for_upload(0, 0), 0);
}

#[test]
fn next_data_object_ids_are_consecutive() {
    let mut s = storage_with_bucket();
    assert_eq!(s.get_next_data_object_ids(3), set(&[0, 1, 2]));
    assert_eq!(s.upload_data_objects(upload(council(), vec![object(1, 1)]), 100), Ok(BalanceTransfers {
        account: 7,
        deposit: 15,
        withdraw: 0,
    }));
    assert_eq!(s.get_next_data_object_ids(2), set(&[1, 2]));
}

#[test]
fn upload_stores_objects_and_charges_account() {
    let mut s = storage_with_bucket();
    let r = s.upload_data_objects(upload(council(), vec![object(MB, 1), object(1, 2)]), 1000);
    assert_eq!(r, Ok(BalanceTransfers { account: 7, deposit: 30, withdraw: 0 }));
    // the charge is what funds_needed_for_upload reports for two objects of MB + 1 bytes
    assert_eq!(s.funds_needed_for_upload(2, MB + 1), 30);
    assert_eq!(s.get_data_objects_id(&council()), set(&[0, 1]));
    assert_eq!(s.next_data_object_id, 2);
    let bag = s.bag(&council());
    assert_eq!(bag.objects_number, 2);
    assert_eq!(bag.objects_total_size, MB + 1);
    let bucket = s.ensure_storage_bucket_exists(&0).unwrap();
    assert_eq!(bucket.voucher.objects_used, 2);
    assert_eq!(bucket.voucher.size_used, MB + 1);
    let obj = s.ensure_data_object_exists(&council(), &1).unwrap();
    assert_eq!(obj.size, 1);
    assert_eq!(obj.state_bloat_bond, 5);
    assert!(!obj.accepted);
    assert_eq!(obj.ipfs_content_id, cid(2));
}

#[test]
fn upload_errors() {
    let mut s = storage_with_bucket();
    assert_eq!(s.upload_data_objects(upload(council(), vec![]), 1000), Err(StorageError::NoObjectsOnUpload));
    let mut p = upload(council(), vec![object(1, 1)]);
    p.expected_data_size_fee = 11;
    assert_eq!(s.upload_data_objects(p, 1000), Err(StorageError::DataSizeFeeChanged));
    let mut p = upload(council(), vec![object(1, 1)]);
    p.expected_data_object_state_bloat_bond = 4;
    assert_eq!(s.upload_data_objects(p, 1000), Err(StorageError::DataObjectStateBloatBondChanged));
    assert_eq!(
        s.upload_data_objects(upload(council(), vec![object(0, 1)]), 1000),
        Err(StorageError::ZeroObjectSize)
    );
    assert_eq!(
        s.upload_data_objects(upload(council(), vec![object(10 * MB + 1, 1)]), 1000),
        Err(StorageError::MaxDataObjectSizeExceeded)
    );
    // each object must be smaller than the maximal size
    assert_eq!(
        s.upload_data_objects(upload(council(), vec![object(10 * MB, 1)]), 1000),
        Err(StorageError::MaxDataObjectSizeExceeded)
    );
    let empty = DataObjectCreationParameters { size: 1, ipfs_content_id: vec![] };
    assert_eq!(s.upload_data_objects(upload(council(), vec![empty]), 1000), Err(StorageError::EmptyContentId));
    assert_eq!(
        s.upload_data_objects(upload(council(), vec![object(1, 1)]), 14),
        Err(StorageError::InsufficientBalance)
    );
    assert_eq!(
        s.upload_data_objects(upload(BagIdType::Dynamic(DynamicBagIdType::Channel(3)), vec![object(1, 1)]), 1000),
        Err(StorageError::DynamicBagDoesntExist)
    );
    let many: Vec<DataObjectCreationParameters> = (0..11).map(|i| object(1, i)).collect();
    assert_eq!(
        s.upload_data_objects(upload(council(), many), 100_000),
        Err(StorageError::StorageBucketObjectNumberLimitReached)
    );
    s.update_uploading_blocked_status(true);
    assert_eq!(
        s.upload_data_objects(upload(council(), vec![object(1, 1)]), 1000),
        Err(StorageError::UploadingBlocked)
    );
    // nothing changed
    assert_eq!(s.next_data_object_id, 0);
    assert_eq!(s.get_data_objects_id(&council()), BTreeSet::new());
}

#[test]
fn blacklisted_content_cannot_be_uploaded() {
    let mut s = storage_with_bucket();
    assert_eq!(s.update_blacklist(&vec![], &vec![cid(9)]), Ok(()));
    assert_eq!(
        s.upload_data_objects(upload(council(), vec![object(1, 9)]), 1000),
        Err(StorageError::DataObjectBlacklisted)
    );
}

#[test]
fn delete_data_objects_refunds_bond() {
    let mut s = storage_with_bucket();
    s.upload_data_objects(upload(council(), vec![object(MB, 1), object(1, 2), object(2, 3)]), 1000).unwrap();
    // the treasury must be able to pay the refund
    assert_eq!(s.delete_data_objects(8, council(), set(&[0, 2]), 9), Err(StorageError::InsufficientTreasuryBalance));
    let r = s.delete_data_objects(8, council(), set(&[0, 2]), 10);
    assert_eq!(r, Ok(BalanceTransfers { account: 8, deposit: 0, withdraw: 10 }));
    assert_eq!(s.get_data_objects_id(&council()), set(&[1]));
    let bag = s.bag(&council());
    assert_eq!(bag.objects_number, 1);
    assert_eq!(bag.objects_total_size, 1);
    assert_eq!(s.ensure_storage_bucket_exists(&0).unwrap().voucher.objects_used, 1);
    assert_eq!(s.delete_data_objects(8, council(), BTreeSet::new(), 1000), Err(StorageError::DataObjectIdCollectionIsEmpty));
    assert_eq!(s.delete_data_objects(8, council(), set(&[0]), 1000), Err(StorageError::DataObjectDoesntExist));
}

#[test]
fn upload_then_delete_restores_bag() {
    let mut s = storage_with_bucket();
    s.upload_data_objects(upload(council(), vec![object(3, 1)]), 1000).unwrap();
    let before = s.get_data_objects_id(&council());
    s.upload_data_objects(upload(council(), vec![object(1, 2), object(2, 3)]), 1000).unwrap();
    s.delete_data_objects(7, council(), set(&[1, 2]), 1000).unwrap();
    assert_eq!(s.get_data_objects_id(&council()), before);
    assert_eq!(s.ensure_data_object_exists(&council(), &0).unwrap().size, 3);
}

#[test]
fn upload_and_delete_at_once() {
    let mut s = storage_with_bucket();
    s.upload_data_objects(upload(council(), vec![object(3, 1)]), 1000).unwrap();
    // the upload costs 5 + 10 and removing object 0 refunds 5: the account pays the net 10
    assert_eq!(
        s.upload_and_delete_data_objects(upload(council(), vec![object(1, 2)]), set(&[0]), 9, 0),
        Err(StorageError::InsufficientBalance)
    );
    let r = s.upload_and_delete_data_objects(upload(council(), vec![object(1, 2)]), set(&[0]), 10, 0);
    assert_eq!(r, Ok(BalanceTransfers { account: 7, deposit: 10, withdraw: 0 }));
    assert_eq!(s.get_data_objects_id(&council()), set(&[1]));
    // an empty upload list is refused
    assert_eq!(
        s.upload_and_delete_data_objects(upload(council(), vec![]), set(&[1]), 1000, 1000),
        Err(StorageError::NoObjectsOnUpload)
    );
    assert_eq!(s.get_data_objects_id(&council()), set(&[1]));
}

#[test]
fn storage_bucket_voucher_change_round_trip() {
    let vu = VoucherUpdate { objects_number: 2, objects_total_size: 30 };
    let v = Voucher { size_limit: 100, objects_limit: 5, size_used: 10, objects_used: 1 };
    let up = vu.get_updated_voucher(&v, OperationType::Increase);
    assert_eq!(up, Voucher { size_limit: 100, objects_limit: 5, size_used: 40, objects_used: 3 });
    assert_eq!(vu.get_updated_voucher(&up, OperationType::Decrease), v);
    let down = vu.get_updated_voucher(&Voucher::default(), OperationType::Decrease);
    assert_eq!(down, Voucher::default());
}

#[test]
fn voucher_try_update_checks_limits() {
    let v = Voucher { size_limit: 100, objects_limit: 5, size_used: 0, objects_used: 0 };
    assert_eq!(
        v.try_update(VoucherUpdate { objects_number: 6, objects_total_size: 1 }),
        Err(StorageError::StorageBucketObjectNumberLimitReached)
    );
    assert_eq!(
        v.try_update(VoucherUpdate { objects_number: 5, objects_total_size: 101 }),
        Err(StorageError::StorageBucketObjectSizeLimitReached)
    );
    assert_eq!(
        v.try_update(VoucherUpdate { objects_number: 5, objects_total_size: 100 }),
        Ok(Voucher { size_limit: 100, objects_limit: 5, size_used: 100, objects_used: 5 })
    );
}

#[test]
fn voucher_update_add_object_saturates() {
    let vu = VoucherUpdate { objects_number: u64::MAX, objects_total_size: u64::MAX - 1 };
    assert_eq!(vu.add_object(5), VoucherUpdate { objects_number: u64::MAX, objects_total_size: u64::MAX });
    let vu = VoucherUpdate::default().add_object(7).add_object(3);
    assert_eq!(vu, VoucherUpdate { objects_number: 2, objects_total_size: 10 });
}

#[test]
fn storage_bucket_creation_and_deletion() {
    let mut s = StorageState::new(config());
    assert_eq!(
        s.create_storage_bucket(None, false, true, 1, 0),
        Err(StorageError::VoucherMaxObjectSizeLimitExceeded)
    );
    s.update_storage_buckets_voucher_max_limits(10, 0);
    assert_eq!(
        s.create_storage_bucket(None, false, true, 1, 1),
        Err(StorageError::VoucherMaxObjectNumberLimitExceeded)
    );
    assert_eq!(
        s.create_storage_bucket(Some(3), false, true, 1, 0),
        Err(StorageError::StorageProviderOperatorDoesntExist)
    );
    assert_eq!(s.create_storage_bucket(Some(3), true, true, 1, 0), Ok(()));
    assert_eq!(s.next_storage_bucket_id, 1);
    let b = s.ensure_storage_bucket_exists(&0).unwrap();
    assert_eq!(b.operator_status, StorageBucketOperatorStatus::InvitedStorageWorker(3));
    assert_eq!(s.delete_storage_bucket(1), Err(StorageError::StorageBucketDoesntExist));
    assert_eq!(s.delete_storage_bucket(0), Ok(()));
    assert_eq!(s.ensure_storage_bucket_exists(&0).err(), Some(StorageError::StorageBucketDoesntExist));
}

#[test]
fn storage_bucket_bound_to_bag_cannot_be_deleted() {
    let mut s = storage_with_bucket();
    assert_eq!(s.delete_storage_bucket(0), Err(StorageError::StorageBucketIsBoundToBag));
    s.upload_data_objects(upload(council(), vec![object(1, 1)]), 100).unwrap();
    assert_eq!(s.delete_storage_bucket(0), Err(StorageError::CannotDeleteNonEmptyStorageBucket));
    // removing the bucket from the bag gives back its voucher and its bag assignment
    assert_eq!(s.update_storage_buckets_for_bag(council(), BTreeSet::new(), set(&[0])), Ok(()));
    assert_eq!(s.delete_storage_bucket(0), Ok(()));
}

#[test]
fn storage_buckets_for_bag_updates() {
    let mut s = storage_with_bucket();
    assert_eq!(
        s.update_storage_buckets_for_bag(council(), BTreeSet::new(), BTreeSet::new()),
        Err(StorageError::StorageBucketIdCollectionsAreEmpty)
    );
    assert_eq!(
        s.update_storage_buckets_for_bag(council(), set(&[0]), BTreeSet::new()),
        Err(StorageError::StorageBucketIsBoundToBag)
    );
    assert_eq!(
        s.update_storage_buckets_for_bag(council(), set(&[5]), BTreeSet::new()),
        Err(StorageError::StorageBucketDoesntExist)
    );
    s.create_storage_bucket(None, false, false, 10, 1).unwrap();
    assert_eq!(
        s.update_storage_buckets_for_bag(council(), set(&[1]), BTreeSet::new()),
        Err(StorageError::StorageBucketDoesntAcceptNewBags)
    );
    s.update_storage_bucket_status(1, true).unwrap();
    s.upload_data_objects(upload(council(), vec![object(11, 1)]), 1000).unwrap();
    assert_eq!(
        s.update_storage_buckets_for_bag(council(), set(&[1]), BTreeSet::new()),
        Err(StorageError::StorageBucketObjectSizeLimitReached)
    );
    s.set_storage_bucket_voucher_limits(1, 20, 1).unwrap();
    assert_eq!(s.update_storage_buckets_for_bag(council(), set(&[1]), set(&[0])), Ok(()));
    assert_eq!(s.bag(&council()).stored_by, set(&[1]));
    let b1 = s.ensure_storage_bucket_exists(&1).unwrap();
    assert_eq!((b1.voucher.objects_used, b1.voucher.size_used, b1.assigned_bags), (1, 11, 1));
    let b0 = s.ensure_storage_bucket_exists(&0).unwrap();
    assert_eq!((b0.voucher.objects_used, b0.voucher.size_used, b0.assigned_bags), (0, 0, 0));
    assert_eq!(s.update_storage_buckets_per_bag_limit(0), Err(StorageError::StorageBucketsPerBagLimitTooLow));
    assert_eq!(s.update_storage_buckets_per_bag_limit(11), Err(StorageError::StorageBucketsPerBagLimitTooHigh));
    s.update_storage_buckets_per_bag_limit(1).unwrap();
    s.create_storage_bucket(None, false, true, 100, 10).unwrap();
    assert_eq!(
        s.update_storage_buckets_for_bag(council(), set(&[2]), BTreeSet::new()),
        Err(StorageError::StorageBucketPerBagLimitExceeded)
    );
}

#[test]
fn storage_operator_invitation_protocol() {
    let mut s = storage_with_bucket();
    assert_eq!(s.invite_storage_bucket_operator(0, 4, false), Err(StorageError::StorageProviderOperatorDoesntExist));
    assert_eq!(s.accept_storage_bucket_invitation(4, 0, 40), Err(StorageError::NoStorageBucketInvitation));
    assert_eq!(s.invite_storage_bucket_operator(0, 4, true), Ok(()));
    assert_eq!(s.invite_storage_bucket_operator(0, 5, true), Err(StorageError::InvitedStorageProvider));
    assert_eq!(s.accept_storage_bucket_invitation(5, 0, 40), Err(StorageError::DifferentStorageProviderInvited));
    assert_eq!(s.set_storage_operator_metadata(4, 0, &vec![1]), Err(StorageError::InvalidStorageProvider));
    assert_eq!(s.accept_storage_bucket_invitation(4, 0, 40), Ok(()));
    assert_eq!(
        s.ensure_storage_bucket_exists(&0).unwrap().operator_status,
        StorageBucketOperatorStatus::StorageWorker(4, 40)
    );
    assert_eq!(s.set_storage_operator_metadata(4, 0, &vec![1]), Ok(()));
    assert_eq!(s.storage_operator_remark(5, 0, &vec![1]), Err(StorageError::InvalidStorageProvider));
    assert_eq!(s.cancel_storage_bucket_operator_invite(0), Err(StorageError::StorageProviderAlreadySet));
    assert_eq!(s.remove_storage_bucket_operator(0), Ok(()));
    assert_eq!(s.remove_storage_bucket_operator(0), Err(StorageError::StorageProviderMustBeSet));
    assert_eq!(s.invite_storage_bucket_operator(0, 6, true), Ok(()));
    assert_eq!(s.cancel_storage_bucket_operator_invite(0), Ok(()));
    assert_eq!(s.ensure_storage_bucket_exists(&0).unwrap().operator_status, StorageBucketOperatorStatus::Missing);
}

#[test]
fn accept_pending_data_objects_marks_objects() {
    let mut s = storage_with_bucket();
    s.upload_data_objects(upload(council(), vec![object(1, 1), object(1, 2)]), 1000).unwrap();
    s.invite_storage_bucket_operator(0, 4, true).unwrap();
    s.accept_storage_bucket_invitation(4, 0, 40).unwrap();
    assert_eq!(
        s.accept_pending_data_objects(4, 0, council(), set(&[1]), 41),
        Err(StorageError::InvalidTransactorAccount)
    );
    assert_eq!(
        s.accept_pending_data_objects(4, 0, council(), BTreeSet::new(), 40),
        Err(StorageError::DataObjectIdParamsAreEmpty)
    );
    assert_eq!(
        s.accept_pending_data_objects(4, 0, council(), set(&[9]), 40),
        Err(StorageError::DataObjectDoesntExist)
    );
    assert_eq!(s.accept_pending_data_objects(4, 0, council(), set(&[1]), 40), Ok(()));
    assert!(!s.ensure_data_object_exists(&council(), &0).unwrap().accepted);
    assert!(s.ensure_data_object_exists(&council(), &1).unwrap().accepted);
}

#[test]
fn blacklist_updates_keep_counter() {
    let mut s = StorageState::new(config());
    assert_eq!(s.update_blacklist(&vec![], &vec![vec![1, 2, 3]]), Err(StorageError::InvalidCidLength));
    assert_eq!(s.update_blacklist(&vec![], &vec![cid(1), cid(2), cid(1)]), Ok(()));
    assert_eq!(s.current_blacklist_size, 2);
    assert_eq!(s.blacklist.len(), 2);
    assert_eq!(s.update_blacklist(&vec![cid(1), cid(5)], &vec![cid(2), cid(3)]), Ok(()));
    assert_eq!(s.current_blacklist_size, 2);
    assert_eq!(s.get_existing_hashes(&vec![cid(1), cid(2), cid(3)]), Ok(vec![cid(2), cid(3)]));
    assert_eq!(s.get_nonexisting_hashes(&vec![cid(1), cid(2)]), Ok(vec![cid(1)]));
    assert_eq!(s.update_blacklist(&vec![], &vec![cid(6), cid(7)]), Err(StorageError::BlacklistSizeLimitExceeded));
    assert_eq!(s.current_blacklist_size, 2);
}

fn distribution_ready() -> StorageState {
    let mut s = storage_with_bucket();
    assert_eq!(s.create_distribution_bucket_family(), Ok(()));
    assert_eq!(s.create_distribution_bucket(0, true), Ok(()));
    assert_eq!(s.create_distribution_bucket(0, true), Ok(()));
    s
}

fn channel_bag(params_buckets: &[(u64, u64)]) -> DynBagCreationParametersRecord {
    DynBagCreationParametersRecord {
        bag_id: DynamicBagIdType::Channel(1),
        object_creation_list: vec![object(2, 1)],
        state_bloat_bond_source_account_id: 7,
        expected_data_size_fee: 10,
        expected_data_object_state_bloat_bond: 5,
        storage_buckets: set(&[0]),
        distribution_buckets: params_buckets.iter().cloned().collect(),
    }
}

#[test]
fn dynamic_bag_lifecycle() {
    let mut s = distribution_ready();
    let mut families = BTreeMap::new();
    families.insert(0u64, 1u32);
    assert_eq!(s.update_families_in_dynamic_bag_creation_policy(DynamicBagType::Channel, families), Ok(()));
    assert_eq!(
        s.create_dynamic_bag(channel_bag(&[]), 1000),
        Err(StorageError::DistributionBucketsViolatesDynamicBagCreationPolicy)
    );
    assert_eq!(
        s.create_dynamic_bag(channel_bag(&[(0, 0), (0, 1)]), 1000),
        Err(StorageError::DistributionBucketsViolatesDynamicBagCreationPolicy)
    );
    assert_eq!(
        s.create_dynamic_bag(channel_bag(&[(0, 7)]), 1000),
        Err(StorageError::DistributionBucketDoesntExist)
    );
    let r = s.create_dynamic_bag(channel_bag(&[(0, 1)]), 1000);
    assert_eq!(r, Ok(BalanceTransfers { account: 7, deposit: 15, withdraw: 0 }));
    let bag_id = BagIdType::Dynamic(DynamicBagIdType::Channel(1));
    let bag = s.ensure_bag_exists(&bag_id).unwrap();
    assert_eq!(bag.stored_by, set(&[0]));
    assert_eq!(bag.distributed_by, [(0u64, 1u64)].iter().cloned().collect::<BTreeSet<_>>());
    assert_eq!(s.ensure_storage_bucket_exists(&0).unwrap().assigned_bags, 2);
    let db = s.ensure_distribution_bucket_exists(&DistributionBucketIdRecord {
        distribution_bucket_family_id: 0,
        distribution_bucket_index: 1,
    }).unwrap();
    assert_eq!(db.assigned_bags, 1);
    assert_eq!(s.create_dynamic_bag(channel_bag(&[(0, 1)]), 1000), Err(StorageError::DynamicBagExists));
    assert_eq!(s.delete_dynamic_bag(9, DynamicBagIdType::Channel(1), 4), Err(StorageError::InsufficientTreasuryBalance));
    let r = s.delete_dynamic_bag(9, DynamicBagIdType::Channel(1), 5);
    assert_eq!(r, Ok(BalanceTransfers { account: 9, deposit: 0, withdraw: 5 }));
    assert_eq!(s.ensure_bag_exists(&bag_id).err(), Some(StorageError::DynamicBagDoesntExist));
    assert_eq!(s.ensure_storage_bucket_exists(&0).unwrap().assigned_bags, 1);
    assert_eq!(s.delete_dynamic_bag(9, DynamicBagIdType::Channel(1), 1000), Err(StorageError::DynamicBagDoesntExist));
}

#[test]
fn dynamic_bag_storage_bucket_policy() {
    let mut s = distribution_ready();
    let mut p = channel_bag(&[]);
    p.storage_buckets = BTreeSet::new();
    assert_eq!(
        s.create_dynamic_bag(p, 1000),
        Err(StorageError::StorageBucketsNumberViolatesDynamicBagCreationPolicy)
    );
    let mut p = channel_bag(&[]);
    p.storage_buckets = set(&[4]);
    assert_eq!(s.create_dynamic_bag(p, 1000), Err(StorageError::StorageBucketDoesntExist));
    assert_eq!(
        s.update_number_of_storage_buckets_in_dynamic_bag_creation_policy(DynamicBagType::Member, 0),
        Err(StorageError::NumberOfStorageBucketsOutsideOfAllowedContraints)
    );
    assert_eq!(s.update_number_of_storage_buckets_in_dynamic_bag_creation_policy(DynamicBagType::Member, 2), Ok(()));
    assert_eq!(s.get_dynamic_bag_creation_policy(DynamicBagType::Member).number_of_storage_buckets, 2);
    assert_eq!(s.get_dynamic_bag_creation_policy(DynamicBagType::Channel).number_of_storage_buckets, 1);
}

#[test]
fn moving_objects_between_bags() {
    let mut s = distribution_ready();
    let member_bag = BagIdType::Dynamic(DynamicBagIdType::Member(2));
    let mut p = channel_bag(&[]);
    p.bag_id = DynamicBagIdType::Member(2);
    p.object_creation_list = vec![];
    s.create_dynamic_bag(p, 0).unwrap();
    s.upload_data_objects(upload(council(), vec![object(1, 1), object(2, 2), object(4, 3)]), 1000).unwrap();
    assert_eq!(
        s.move_data_objects(council(), council(), set(&[0])),
        Err(StorageError::SourceAndDestinationBagsAreEqual)
    );
    assert_eq!(s.can_move_data_objects(&council(), &member_bag, &set(&[5])), Err(StorageError::DataObjectDoesntExist));
    assert_eq!(s.move_data_objects(council(), member_bag, set(&[0, 2])), Ok(()));
    assert_eq!(s.get_data_objects_id(&council()), set(&[1]));
    assert_eq!(s.get_data_objects_id(&member_bag), set(&[0, 2]));
    assert_eq!(s.ensure_data_object_exists(&member_bag, &2).unwrap().size, 4);
    assert_eq!(s.bag(&council()).objects_total_size, 2);
    assert_eq!(s.bag(&member_bag).objects_total_size, 5);
    assert_eq!(s.bag(&member_bag).objects_number, 2);
    // both bags are stored by bucket 0: its totals count both
    let v = s.ensure_storage_bucket_exists(&0).unwrap().voucher;
    assert_eq!((v.objects_used, v.size_used), (3, 7));
}

#[test]
fn distribution_families_and_buckets() {
    let mut s = StorageState::new(config());
    assert_eq!(s.create_distribution_bucket(0, true), Err(StorageError::DistributionBucketFamilyDoesntExist));
    s.create_distribution_bucket_family().unwrap();
    s.create_distribution_bucket_family().unwrap();
    assert_eq!(s.create_distribution_bucket_family(), Err(StorageError::MaxDistributionBucketFamilyNumberLimitExceeded));
    assert_eq!(s.distribution_bucket_family_number, 2);
    s.create_distribution_bucket(1, false).unwrap();
    let id = DistributionBucketIdRecord { distribution_bucket_family_id: 1, distribution_bucket_index: 0 };
    assert!(!s.ensure_distribution_bucket_exists(&id).unwrap().accepting_new_bags);
    s.update_distribution_bucket_status(id, true).unwrap();
    s.update_distribution_bucket_mode(id, false).unwrap();
    let b = s.ensure_distribution_bucket_exists(&id).unwrap();
    assert!(b.accepting_new_bags && !b.distributing);
    let mut families = BTreeMap::new();
    families.insert(1u64, 1u32);
    s.update_families_in_dynamic_bag_creation_policy(DynamicBagType::Member, families).unwrap();
    assert_eq!(
        s.delete_distribution_bucket_family(1),
        Err(StorageError::DistributionFamilyBoundToBagCreationPolicy)
    );
    assert_eq!(s.delete_distribution_bucket_family(0), Ok(()));
    assert_eq!(s.distribution_bucket_family_number, 1);
    assert_eq!(s.delete_distribution_bucket_family(0), Err(StorageError::DistributionBucketFamilyDoesntExist));
    let mut families = BTreeMap::new();
    families.insert(0u64, 1u32);
    assert_eq!(
        s.update_families_in_dynamic_bag_creation_policy(DynamicBagType::Member, families),
        Err(StorageError::DistributionBucketFamilyDoesntExist)
    );
    let mut families = BTreeMap::new();
    families.insert(1u64, 11u32);
    assert_eq!(
        s.update_families_in_dynamic_bag_creation_policy(DynamicBagType::Member, families),
        Err(StorageError::NumberOfDistributionBucketsOutsideOfAllowedContraints)
    );
    assert_eq!(s.delete_distribution_bucket(id), Ok(()));
    assert_eq!(s.delete_distribution_bucket(id), Err(StorageError::DistributionBucketDoesntExist));
}

#[test]
fn distribution_buckets_for_bag_updates() {
    let mut s = distribution_ready();
    assert_eq!(
        s.update_distribution_buckets_for_bag(council(), 0, set(&[0]), BTreeSet::new()),
        Err(StorageError::MaxDistributionBucketNumberPerBagLimitExceeded)
    );
    assert_eq!(s.update_distribution_buckets_per_bag_limit(0), Err(StorageError::DistributionBucketsPerBagLimitTooLow));
    s.update_distribution_buckets_per_bag_limit(2).unwrap();
    assert_eq!(
        s.update_distribution_buckets_for_bag(council(), 1, set(&[0]), BTreeSet::new()),
        Err(StorageError::DistributionBucketFamilyDoesntExist)
    );
    assert_eq!(s.update_distribution_buckets_for_bag(council(), 0, set(&[0, 1]), BTreeSet::new()), Ok(()));
    let id0 = DistributionBucketIdRecord { distribution_bucket_family_id: 0, distribution_bucket_index: 0 };
    assert_eq!(s.ensure_distribution_bucket_exists(&id0).unwrap().assigned_bags, 1);
    assert!(!s.no_bags_assigned(&0));
    assert_eq!(s.delete_distribution_bucket(id0), Err(StorageError::DistributionBucketIsBoundToBag));
    assert_eq!(s.delete_distribution_bucket_family(0), Err(StorageError::DistributionBucketIsBoundToBag));
    assert_eq!(
        s.update_distribution_buckets_for_bag(council(), 0, BTreeSet::new(), set(&[0, 1])),
        Ok(())
    );
    assert_eq!(s.bag(&council()).distributed_by, BTreeSet::new());
    assert!(s.no_bags_assigned(&0));
    assert_eq!(
        s.update_distribution_buckets_for_bag(council(), 0, BTreeSet::new(), set(&[0])),
        Err(StorageError::DistributionBucketIsNotBoundToBag)
    );
}

#[test]
fn distribution_operator_invitation_protocol() {
    let mut s = distribution_ready();
    let id = DistributionBucketIdRecord { distribution_bucket_family_id: 0, distribution_bucket_index: 0 };
    assert_eq!(
        s.invite_distribution_bucket_operator(id, 3, false),
        Err(StorageError::DistributionProviderOperatorDoesntExist)
    );
    assert_eq!(s.invite_distribution_bucket_operator(id, 3, true), Ok(()));
    assert_eq!(
        s.invite_distribution_bucket_operator(id, 3, true),
        Err(StorageError::DistributionProviderOperatorAlreadyInvited)
    );
    assert_eq!(
        s.invite_distribution_bucket_operator(id, 4, true),
        Err(StorageError::MaxNumberOfPendingInvitationsLimitForDistributionBucketReached)
    );
    assert_eq!(s.accept_distribution_bucket_invitation(4, id), Err(StorageError::NoDistributionBucketInvitation));
    assert_eq!(s.accept_distribution_bucket_invitation(3, id), Ok(()));
    let b = s.ensure_distribution_bucket_exists(&id).unwrap();
    assert!(b.operators.contains(&3) && b.pending_invitations.is_empty());
    assert_eq!(s.set_distribution_operator_metadata(3, id, &vec![]), Ok(()));
    assert_eq!(
        s.distribution_operator_remark(4, id, &vec![]),
        Err(StorageError::MustBeDistributionProviderOperatorForBucket)
    );
    assert_eq!(s.delete_distribution_bucket(id), Err(StorageError::DistributionProviderOperatorSet));
    assert_eq!(s.remove_distribution_bucket_operator(id, 3), Ok(()));
    assert_eq!(
        s.remove_distribution_bucket_operator(id, 3),
        Err(StorageError::MustBeDistributionProviderOperatorForBucket)
    );
    s.invite_distribution_bucket_operator(id, 5, true).unwrap();
    assert_eq!(s.cancel_distribution_bucket_operator_invite(id, 5), Ok(()));
    assert_eq!(s.cancel_distribution_bucket_operator_invite(id, 5), Err(StorageError::NoDistributionBucketInvitation));
    assert_eq!(s.set_distribution_bucket_family_metadata(0, &vec![1]), Ok(()));
    assert_eq!(
        s.set_distribution_bucket_family_metadata(3, &vec![1]),
        Err(StorageError::DistributionBucketFamilyDoesntExist)
    );
}

#[test]
fn family_number_round_trip() {
    let mut s = StorageState::new(config());
    s.increment_distribution_family_number();
    assert_eq!(s.distribution_bucket_family_number, 1);
    s.decrement_distribution_family_number();
    assert_eq!(s.distribution_bucket_family_number, 0);
    s.decrement_distribution_family_number();
    assert_eq!(s.distribution_bucket_family_number, 0);
}

#[test]
fn bounded_value_constraint_checks() {
    let c = BoundedValueConstraint { max_min_diff: 3, min: 2 };
    assert_eq!(c.check(1), lib::primitives::BoundCheck::TooLow);
    assert_eq!(c.check(2), lib::primitives::BoundCheck::Valid);
    assert_eq!(c.check(5), lib::primitives::BoundCheck::Valid);
    assert_eq!(c.check(6), lib::primitives::BoundCheck::TooHigh);
    let wide = BoundedValueConstraint { max_min_diff: u64::MAX, min: 1 };
    assert_eq!(wide.check(u64::MAX), lib::primitives::BoundCheck::Valid);
}

#[test]
fn dynamic_bag_buckets_must_hold_the_objects() {
    let mut s = distribution_ready();
    let mut families = BTreeMap::new();
    families.insert(0u64, 1u32);
    assert_eq!(s.update_families_in_dynamic_bag_creation_policy(DynamicBagType::Channel, families), Ok(()));
    let mut p = channel_bag(&[(0, 1)]);
    p.object_creation_list = (0..11).map(|i| object(1, i)).collect();
    assert_eq!(s.create_dynamic_bag(p, 100_000), Err(StorageError::StorageBucketObjectNumberLimitReached));
    let mut p = channel_bag(&[(0, 1)]);
    p.object_creation_list = (0..10).map(|i| object(9 * MB, i)).collect();
    assert_eq!(s.create_dynamic_bag(p, 1_000_000), Ok(BalanceTransfers { account: 7, deposit: 50 + 900, withdraw: 0 }));
}

#[test]
fn move_there_and_back_restores() {
    let mut s = distribution_ready();
    let member_bag = BagIdType::Dynamic(DynamicBagIdType::Member(2));
    let mut p = channel_bag(&[]);
    p.bag_id = DynamicBagIdType::Member(2);
    p.object_creation_list = vec![];
    s.create_dynamic_bag(p, 0).unwrap();
    s.upload_data_objects(upload(council(), vec![object(1, 1), object(2, 2), object(4, 3)]), 1000).unwrap();
    let council_before = s.bag(&council());
    let member_before = s.bag(&member_bag);
    let bucket_before = s.ensure_storage_bucket_exists(&0).unwrap();
    assert_eq!(s.move_data_objects(council(), member_bag, set(&[0, 2])), Ok(()));
    assert_eq!(s.move_data_objects(member_bag, council(), set(&[0, 2])), Ok(()));
    assert_eq!(s.get_data_objects_id(&council()), set(&[0, 1, 2]));
    assert_eq!(s.get_data_objects_id(&member_bag), BTreeSet::new());
    assert_eq!(s.ensure_data_object_exists(&council(), &2).unwrap().size, 4);
    for (after, before) in [(s.bag(&council()), council_before), (s.bag(&member_bag), member_before)] {
        assert_eq!(after.objects_number, before.objects_number);
        assert_eq!(after.objects_total_size, before.objects_total_size);
        assert_eq!(after.stored_by, before.stored_by);
        assert_eq!(after.distributed_by, before.distributed_by);
    }
    assert_eq!(s.ensure_storage_bucket_exists(&0).unwrap(), bucket_before);
}

#[test]
fn object_ids_stay_in_one_bag() {
    let mut s = distribution_ready();
    let member_bag = BagIdType::Dynamic(DynamicBagIdType::Member(2));
    let mut p = channel_bag(&[]);
    p.bag_id = DynamicBagIdType::Member(2);
    p.object_creation_list = vec![object(1, 1)];
    s.create_dynamic_bag(p, 1000).unwrap();
    s.upload_data_objects(upload(council(), vec![object(1, 2), object(2, 3)]), 1000).unwrap();
    assert_eq!(s.get_data_objects_id(&member_bag), set(&[0]));
    assert_eq!(s.get_data_objects_id(&council()), set(&[1, 2]));
    s.move_data_objects(council(), member_bag, set(&[2])).unwrap();
    let council_ids = s.get_data_objects_id(&council());
    let member_ids = s.get_data_objects_id(&member_bag);
    assert!(council_ids.is_disjoint(&member_ids));
    assert_eq!(member_ids, set(&[0, 2]));
    // the member bag's counters still count its objects, so deleting it succeeds
    assert_eq!(s.bag(&member_bag).objects_number, 2);
    assert!(s.delete_dynamic_bag(9, DynamicBagIdType::Member(2), 1000).is_ok());
}
