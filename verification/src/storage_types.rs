use vstd::prelude::*;
use std::collections::{BTreeMap, BTreeSet};

use crate::primitives::{AccountId, Balance, ChannelId, DistributionBucketFamilyId, DistributionBucketIndex, MemberId, StorageBucketId, WorkerId, DataObjectId};
use crate::storage_errors::StorageError;

verus! {

/// Working groups of the platform (a static bag exists for each).
#[derive(Clone, Copy, Debug, PartialEq, Eq, Structural)]
pub enum WorkingGroup {
    Forum,
    Storage,
    Content,
    OperationsAlpha,
    App,
    Distribution,
    OperationsBeta,
    OperationsGamma,
    Membership,
}

impl WorkingGroup {
    /// A distinct number for each working group.
    pub open spec fn spec_index(self) -> u64 {
        match self {
            WorkingGroup::Forum => 0,
            WorkingGroup::Storage => 1,
            WorkingGroup::Content => 2,
            WorkingGroup::OperationsAlpha => 3,
            WorkingGroup::App => 4,
            WorkingGroup::Distribution => 5,
            WorkingGroup::OperationsBeta => 6,
            WorkingGroup::OperationsGamma => 7,
            WorkingGroup::Membership => 8,
        }
    }

    /// A distinct number for each working group.
    pub fn index(&self) -> (r: u64)
        ensures
            r == self.spec_index(),
    {
        match self {
            WorkingGroup::Forum => 0,
            WorkingGroup::Storage => 1,
            WorkingGroup::Content => 2,
            WorkingGroup::OperationsAlpha => 3,
            WorkingGroup::App => 4,
            WorkingGroup::Distribution => 5,
            WorkingGroup::OperationsBeta => 6,
            WorkingGroup::OperationsGamma => 7,
            WorkingGroup::Membership => 8,
        }
    }
}

/// A type for static bags ID.
#[derive(Clone, Copy, Debug, PartialEq, Eq, Structural)]
pub enum StaticBagId {
    /// Dedicated bag for a council.
    Council,
    /// Dedicated bag for some working group.
    WorkingGroup(WorkingGroup),
}

impl StaticBagId {
    /// The default static bag: the council bag.
    pub fn default() -> (r: StaticBagId)
        ensures
            r == StaticBagId::Council,
    {
        StaticBagId::Council
    }
}

/// Define dynamic bag types.
#[derive(Clone, Copy, Debug, PartialEq, Eq, Structural)]
pub enum DynamicBagType {
    /// Member dynamic bag type.
    Member,
    /// Channel dynamic bag type.
    Channel,
}

impl DynamicBagType {
    /// The default dynamic bag type: member.
    pub fn default() -> (r: DynamicBagType)
        ensures
            r == DynamicBagType::Member,
    {
        DynamicBagType::Member
    }
}

/// A type for dynamic bags ID.
#[derive(Clone, Copy, Debug, PartialEq, Eq, Structural)]
pub enum DynamicBagIdType {
    /// Dynamic bag assigned to a member.
    Member(MemberId),
    /// Dynamic bag assigned to media channel.
    Channel(ChannelId),
}

impl DynamicBagIdType {
    /// The default dynamic bag ID: the bag of member zero.
    pub fn default() -> (r: DynamicBagIdType)
        ensures
            r == DynamicBagIdType::Member(0),
    {
        DynamicBagIdType::Member(0)
    }

    /// The dynamic bag type of this ID.
    pub open spec fn spec_bag_type(self) -> DynamicBagType {
        match self {
            DynamicBagIdType::Member(_) => DynamicBagType::Member,
            DynamicBagIdType::Channel(_) => DynamicBagType::Channel,
        }
    }

    /// The dynamic bag type of this ID.
    pub fn into(self) -> (r: DynamicBagType)
        ensures
            r == self.spec_bag_type(),
    {
        match self {
            DynamicBagIdType::Member(_) => DynamicBagType::Member,
            DynamicBagIdType::Channel(_) => DynamicBagType::Channel,
        }
    }
}

/// Identifier for a bag.
#[derive(Clone, Copy, Debug, PartialEq, Eq, Structural)]
pub enum BagIdType {
    /// Static bag type.
    Static(StaticBagId),
    /// Dynamic bag type.
    Dynamic(DynamicBagIdType),
}

/// The key under which the bag state keeps a bag.
pub type BagKey = (u64, u64);

impl BagIdType {
    /// The default bag ID: the council bag.
    pub fn default() -> (r: BagIdType)
        ensures
            r == BagIdType::Static(StaticBagId::Council),
    {
        BagIdType::Static(StaticBagId::Council)
    }

    /// The bag ID of a static bag.
    pub fn from_static(static_bag_id: StaticBagId) -> (r: BagIdType)
        ensures
            r == BagIdType::Static(static_bag_id),
    {
        BagIdType::Static(static_bag_id)
    }

    /// The bag ID of a dynamic bag.
    pub fn from_dynamic(dynamic_bag_id: DynamicBagIdType) -> (r: BagIdType)
        ensures
            r == BagIdType::Dynamic(dynamic_bag_id),
    {
        BagIdType::Dynamic(dynamic_bag_id)
    }

    /// A pair of integers that identifies the bag (distinct for distinct bags).
    pub open spec fn spec_key(self) -> BagKey {
        match self {
            BagIdType::Static(StaticBagId::Council) => (0, 0),
            BagIdType::Static(StaticBagId::WorkingGroup(wg)) => (1, wg.spec_index()),
            BagIdType::Dynamic(DynamicBagIdType::Member(m)) => (2, m),
            BagIdType::Dynamic(DynamicBagIdType::Channel(c)) => (3, c),
        }
    }

    /// A pair of integers that identifies the bag (distinct for distinct bags).
    pub fn key(&self) -> (k: BagKey)
        ensures
            k == self.spec_key(),
    {
        match self {
            BagIdType::Static(StaticBagId::Council) => (0, 0),
            BagIdType::Static(StaticBagId::WorkingGroup(wg)) => (1, wg.index()),
            BagIdType::Dynamic(DynamicBagIdType::Member(m)) => (2, *m),
            BagIdType::Dynamic(DynamicBagIdType::Channel(c)) => (3, *c),
        }
    }

    /// Returns the dynamic bag ID, or `DynamicBagDoesntExist` for a static bag.
    pub fn ensure_is_dynamic_bag(self) -> (r: Result<DynamicBagIdType, crate::storage_errors::StorageError>)
        ensures
            match self {
                BagIdType::Dynamic(d) => r == Ok::<DynamicBagIdType, crate::storage_errors::StorageError>(d),
                BagIdType::Static(_) => r == Err::<DynamicBagIdType, crate::storage_errors::StorageError>(
                    crate::storage_errors::StorageError::DynamicBagDoesntExist),
            },
    {
        match self {
            BagIdType::Dynamic(d) => Ok(d),
            BagIdType::Static(_) => Err(crate::storage_errors::StorageError::DynamicBagDoesntExist),
        }
    }
}

/// Distinct bag IDs have distinct keys.
pub proof fn lemma_bag_key_injective(a: BagIdType, b: BagIdType)
    requires
        a.spec_key() == b.spec_key(),
    ensures
        a == b,
{
    match (a, b) {
        (BagIdType::Static(StaticBagId::WorkingGroup(x)), BagIdType::Static(StaticBagId::WorkingGroup(y))) => {
            assert(x.spec_index() == y.spec_index());
            assert(x == y);
        },
        _ => {},
    }
}

/// The fundamental concept in the system, which represents single static binary object.
#[derive(Debug)]
pub struct DataObject {
    /// Defines whether the data object was accepted by a liason.
    pub accepted: bool,
    /// A reward for the data object deletion.
    pub state_bloat_bond: Balance,
    /// Object size in bytes.
    pub size: u64,
    /// Content identifier presented as IPFS hash.
    pub ipfs_content_id: Vec<u8>,
}

/// The mathematical value of a data object.
pub struct DataObjectView {
    pub accepted: bool,
    pub state_bloat_bond: Balance,
    pub size: u64,
    pub ipfs_content_id: Seq<u8>,
}

impl View for DataObject {
    type V = DataObjectView;

    open spec fn view(&self) -> DataObjectView {
        DataObjectView {
            accepted: self.accepted,
            state_bloat_bond: self.state_bloat_bond,
            size: self.size,
            ipfs_content_id: self.ipfs_content_id@,
        }
    }
}

impl DataObject {
    /// Copies the data object.
    pub fn copy(&self) -> (r: DataObject)
        ensures
            r@ == self@,
    {
        DataObject {
            accepted: self.accepted,
            state_bloat_bond: self.state_bloat_bond,
            size: self.size,
            ipfs_content_id: copy_bytes(&self.ipfs_content_id),
        }
    }
}

/// Copies a byte string.
pub fn copy_bytes(v: &Vec<u8>) -> (r: Vec<u8>)
    ensures
        r@ == v@,
{
    let r = v.clone();
    proof {
        assert(r@ =~= v@);
    }
    r
}

/// Parameters for the data object creation.
#[derive(Debug)]
pub struct DataObjectCreationParameters {
    /// Object size in bytes.
    pub size: u64,
    /// Content identifier presented as IPFS hash.
    pub ipfs_content_id: Vec<u8>,
}

/// The mathematical value of data object creation parameters.
pub struct DataObjectCreationParametersView {
    pub size: u64,
    pub ipfs_content_id: Seq<u8>,
}

impl View for DataObjectCreationParameters {
    type V = DataObjectCreationParametersView;

    open spec fn view(&self) -> DataObjectCreationParametersView {
        DataObjectCreationParametersView { size: self.size, ipfs_content_id: self.ipfs_content_id@ }
    }
}

/// Bag container.
#[derive(Debug)]
pub struct BagRecord {
    /// Associated storage buckets.
    pub stored_by: BTreeSet<StorageBucketId>,
    /// Associated distribution buckets (family ID, bucket index).
    pub distributed_by: BTreeSet<(DistributionBucketFamilyId, DistributionBucketIndex)>,
    /// Total object size for bag.
    pub objects_total_size: u64,
    /// Total object number for bag.
    pub objects_number: u64,
}

/// The mathematical value of a bag.
pub struct BagView {
    pub stored_by: Set<u64>,
    pub distributed_by: Set<(u64, u64)>,
    pub objects_total_size: u64,
    pub objects_number: u64,
}

impl View for BagRecord {
    type V = BagView;

    open spec fn view(&self) -> BagView {
        BagView {
            stored_by: self.stored_by@,
            distributed_by: self.distributed_by@,
            objects_total_size: self.objects_total_size,
            objects_number: self.objects_number,
        }
    }
}

/// The value of a bag that was never written: no buckets, no objects.
pub open spec fn default_bag() -> BagView {
    BagView {
        stored_by: Set::empty(),
        distributed_by: Set::empty(),
        objects_total_size: 0,
        objects_number: 0,
    }
}

impl BagRecord {
    /// An empty bag.
    pub fn default() -> (r: BagRecord)
        ensures
            r@ == default_bag(),
    {
        BagRecord {
            stored_by: BTreeSet::new(),
            distributed_by: BTreeSet::new(),
            objects_total_size: 0,
            objects_number: 0,
        }
    }

    /// Copies the bag.
    pub fn copy(&self) -> (r: BagRecord)
        ensures
            r@ == self@,
    {
        BagRecord {
            stored_by: self.stored_by.clone(),
            distributed_by: self.distributed_by.clone(),
            objects_total_size: self.objects_total_size,
            objects_number: self.objects_number,
        }
    }

    /// Add and/or remove storage buckets.
    pub fn update_storage_buckets(
        &mut self,
        add_buckets: &mut BTreeSet<StorageBucketId>,
        remove_buckets: &BTreeSet<StorageBucketId>,
    )
        ensures
            final(self)@ == (BagView {
                stored_by: old(self)@.stored_by.union(old(add_buckets)@).difference(remove_buckets@),
                ..old(self)@
            }),
            final(add_buckets)@ == Set::<u64>::empty(),
    {
        let adds = crate::sorted::ascending_vec(add_buckets);
        let ghost start = self.stored_by@;
        for i in 0..adds.len()
            invariant
                self.stored_by@ == start.union(adds@.take(i as int).to_set()),
                self.distributed_by@ == old(self).distributed_by@,
                self.objects_total_size == old(self).objects_total_size,
                self.objects_number == old(self).objects_number,
        {
            self.stored_by.insert(adds[i]);
            proof {
                crate::sorted::lemma_take_succ_to_set(adds@, i as int);
            }
        }
        proof {
            assert(adds@.take(adds@.len() as int) =~= adds@);
        }
        add_buckets.clear();
        let removes = crate::sorted::ascending_vec(remove_buckets);
        let ghost mid = self.stored_by@;
        for i in 0..removes.len()
            invariant
                self.stored_by@ == mid.difference(removes@.take(i as int).to_set()),
                self.distributed_by@ == old(self).distributed_by@,
                self.objects_total_size == old(self).objects_total_size,
                self.objects_number == old(self).objects_number,
        {
            self.stored_by.remove(&removes[i]);
            proof {
                crate::sorted::lemma_take_succ_to_set(removes@, i as int);
                assert(self.stored_by@ =~= mid.difference(removes@.take(i + 1).to_set()));
            }
        }
        proof {
            assert(removes@.take(removes@.len() as int) =~= removes@);
            assert(self.stored_by@ =~= old(self)@.stored_by.union(old(add_buckets)@).difference(remove_buckets@));
        }
    }

    /// Add and/or remove distribution buckets.
    pub fn update_distribution_buckets(
        &mut self,
        add_buckets: &mut BTreeSet<(DistributionBucketFamilyId, DistributionBucketIndex)>,
        remove_buckets: &BTreeSet<(DistributionBucketFamilyId, DistributionBucketIndex)>,
    )
        ensures
            final(self)@ == (BagView {
                distributed_by: old(self)@.distributed_by.union(old(add_buckets)@).difference(remove_buckets@),
                ..old(self)@
            }),
            final(add_buckets)@ == Set::<(u64, u64)>::empty(),
    {
        let adds = crate::sorted::pair_vec(add_buckets);
        let ghost start = self.distributed_by@;
        for i in 0..adds.len()
            invariant
                self.distributed_by@ == start.union(adds@.take(i as int).to_set()),
                self.stored_by@ == old(self).stored_by@,
                self.objects_total_size == old(self).objects_total_size,
                self.objects_number == old(self).objects_number,
        {
            self.distributed_by.insert(adds[i]);
            proof {
                crate::sorted::lemma_take_succ_to_set(adds@, i as int);
            }
        }
        proof {
            assert(adds@.take(adds@.len() as int) =~= adds@);
        }
        add_buckets.clear();
        let removes = crate::sorted::pair_vec(remove_buckets);
        let ghost mid = self.distributed_by@;
        for i in 0..removes.len()
            invariant
                self.distributed_by@ == mid.difference(removes@.take(i as int).to_set()),
                self.stored_by@ == old(self).stored_by@,
                self.objects_total_size == old(self).objects_total_size,
                self.objects_number == old(self).objects_number,
        {
            self.distributed_by.remove(&removes[i]);
            proof {
                crate::sorted::lemma_take_succ_to_set(removes@, i as int);
                assert(self.distributed_by@ =~= mid.difference(removes@.take(i + 1).to_set()));
            }
        }
        proof {
            assert(removes@.take(removes@.len() as int) =~= removes@);
            assert(self.distributed_by@ =~= old(self)@.distributed_by.union(old(add_buckets)@).difference(remove_buckets@));
        }
    }

    /// The bag with its storage buckets replaced.
    pub fn with_storage_buckets(self, stored_by: BTreeSet<StorageBucketId>) -> (r: BagRecord)
        ensures
            r@ == (BagView { stored_by: stored_by@, ..self@ }),
    {
        BagRecord { stored_by, ..self }
    }

    /// The bag with its distribution buckets replaced.
    pub fn with_distribution_buckets(
        self,
        distributed_by: BTreeSet<(DistributionBucketFamilyId, DistributionBucketIndex)>,
    ) -> (r: BagRecord)
        ensures
            r@ == (BagView { distributed_by: distributed_by@, ..self@ }),
    {
        BagRecord { distributed_by, ..self }
    }
}


/// Defines storage bucket parameters.
#[derive(Clone, Copy, Debug, PartialEq, Eq, Structural)]
pub struct Voucher {
    /// Total size limit.
    pub size_limit: u64,
    /// Object number limit.
    pub objects_limit: u64,
    /// Current size.
    pub size_used: u64,
    /// Current object number.
    pub objects_used: u64,
}

impl Voucher {
    /// A voucher with all limits and counters at zero.
    pub fn default() -> (r: Voucher)
        ensures
            r == (Voucher { size_limit: 0, objects_limit: 0, size_used: 0, objects_used: 0 }),
    {
        Voucher { size_limit: 0, objects_limit: 0, size_used: 0, objects_used: 0 }
    }

    /// The voucher with its counters set to the totals of `new_voucher`, if they fit the limits.
    pub open spec fn spec_try_update(self, new_voucher: VoucherUpdate) -> Result<Voucher, StorageError> {
        if new_voucher.objects_number > self.objects_limit {
            Err(StorageError::StorageBucketObjectNumberLimitReached)
        } else if new_voucher.objects_total_size > self.size_limit {
            Err(StorageError::StorageBucketObjectSizeLimitReached)
        } else {
            Ok(Voucher {
                objects_used: new_voucher.objects_number,
                size_used: new_voucher.objects_total_size,
                ..self
            })
        }
    }

    /// Sets the counters to the totals of `new_voucher`; fails when a total exceeds its limit
    /// (the object number is checked first).
    pub fn try_update(self, new_voucher: VoucherUpdate) -> (r: Result<Voucher, StorageError>)
        ensures
            r == self.spec_try_update(new_voucher),
    {
        if new_voucher.objects_number > self.objects_limit {
            return Err(StorageError::StorageBucketObjectNumberLimitReached);
        }
        if new_voucher.objects_total_size > self.size_limit {
            return Err(StorageError::StorageBucketObjectSizeLimitReached);
        }
        Ok(Voucher {
            objects_used: new_voucher.objects_number,
            size_used: new_voucher.objects_total_size,
            ..self
        })
    }
}

/// Defines whether we should increase or decrease parameters during some operation.
#[derive(Clone, Copy, Debug, PartialEq, Eq, Structural)]
pub enum OperationType {
    /// Increase parameters.
    Increase,
    /// Decrease parameters.
    Decrease,
}

/// Helper-struct - defines voucher changes.
#[derive(Clone, Copy, Debug, PartialEq, Eq, Structural)]
pub struct VoucherUpdate {
    /// Total number.
    pub objects_number: u64,
    /// Total objects size sum.
    pub objects_total_size: u64,
}

impl VoucherUpdate {
    /// No objects.
    pub fn default() -> (r: VoucherUpdate)
        ensures
            r == (VoucherUpdate { objects_number: 0, objects_total_size: 0 }),
    {
        VoucherUpdate { objects_number: 0, objects_total_size: 0 }
    }

    /// The voucher with this change applied to its counters (saturating at the bounds).
    pub open spec fn spec_updated_voucher(self, voucher: Voucher, op: OperationType) -> Voucher {
        match op {
            OperationType::Increase => Voucher {
                objects_used: voucher.objects_used.saturating_add(self.objects_number),
                size_used: voucher.size_used.saturating_add(self.objects_total_size),
                ..voucher
            },
            OperationType::Decrease => Voucher {
                objects_used: voucher.objects_used.saturating_sub(self.objects_number),
                size_used: voucher.size_used.saturating_sub(self.objects_total_size),
                ..voucher
            },
        }
    }

    /// Applies this change to the counters of `voucher`, keeping its limits.
    pub fn get_updated_voucher(&self, voucher: &Voucher, voucher_operation: OperationType) -> (r: Voucher)
        ensures
            r == self.spec_updated_voucher(*voucher, voucher_operation),
    {
        let (objects_used, size_used) = match voucher_operation {
            OperationType::Increase => (
                voucher.objects_used.saturating_add(self.objects_number),
                voucher.size_used.saturating_add(self.objects_total_size),
            ),
            OperationType::Decrease => (
                voucher.objects_used.saturating_sub(self.objects_number),
                voucher.size_used.saturating_sub(self.objects_total_size),
            ),
        };
        Voucher { size_used, objects_used, ..*voucher }
    }

    /// Adds a single object of `size` bytes (saturating).
    pub open spec fn spec_add_object(self, size: u64) -> VoucherUpdate {
        VoucherUpdate {
            objects_number: self.objects_number.saturating_add(1),
            objects_total_size: self.objects_total_size.saturating_add(size),
        }
    }

    /// Adds a single object data to the voucher update (updates objects size and number).
    pub fn add_object(self, size: u64) -> (r: VoucherUpdate)
        ensures
            r == self.spec_add_object(size),
    {
        VoucherUpdate {
            objects_number: self.objects_number.saturating_add(1),
            objects_total_size: self.objects_total_size.saturating_add(size),
        }
    }
}

/// Helper struct for the dynamic bag changing.
#[derive(Clone, Copy, Debug, PartialEq, Eq, Structural)]
pub struct BagUpdate {
    /// Voucher update for data objects.
    pub voucher_update: VoucherUpdate,
    /// Total state bloat bond for data objects.
    pub total_state_bloat_bond: Balance,
}

impl BagUpdate {
    /// No objects and no bond.
    pub fn default() -> (r: BagUpdate)
        ensures
            r == (BagUpdate {
                voucher_update: VoucherUpdate { objects_number: 0, objects_total_size: 0 },
                total_state_bloat_bond: 0,
            }),
    {
        BagUpdate { voucher_update: VoucherUpdate::default(), total_state_bloat_bond: 0 }
    }

    /// Adds a single object of `size` bytes with `state_bloat_bond` (saturating).
    pub open spec fn spec_add_object(self, size: u64, state_bloat_bond: Balance) -> BagUpdate {
        BagUpdate {
            voucher_update: self.voucher_update.spec_add_object(size),
            total_state_bloat_bond: self.total_state_bloat_bond.saturating_add(state_bloat_bond),
        }
    }

    /// Adds a single object data to the voucher update (updates objects size, number)
    /// and state bloat bond; returns the updated value.
    pub fn add_object(&mut self, size: u64, state_bloat_bond: Balance) -> (r: BagUpdate)
        ensures
            *final(self) == old(self).spec_add_object(size, state_bloat_bond),
            r == old(self).spec_add_object(size, state_bloat_bond),
    {
        self.voucher_update = self.voucher_update.add_object(size);
        self.total_state_bloat_bond = self.total_state_bloat_bond.saturating_add(state_bloat_bond);
        *self
    }
}

/// Defines the storage bucket connection to the storage operator (storage WG worker).
#[derive(Clone, Copy, Debug, PartialEq, Eq, Structural)]
pub enum StorageBucketOperatorStatus {
    /// No connection.
    Missing,
    /// Storage operator was invited.
    InvitedStorageWorker(WorkerId),
    /// Storage operator accepted the invitation.
    StorageWorker(WorkerId, AccountId),
}

impl StorageBucketOperatorStatus {
    /// No operator.
    pub fn default() -> (r: StorageBucketOperatorStatus)
        ensures
            r == StorageBucketOperatorStatus::Missing,
    {
        StorageBucketOperatorStatus::Missing
    }
}

/// A commitment to hold some set of bags for long term storage.
#[derive(Clone, Copy, Debug, PartialEq, Eq, Structural)]
pub struct StorageBucketRecord {
    /// Current storage operator status.
    pub operator_status: StorageBucketOperatorStatus,
    /// Defines whether the bucket accepts new bags.
    pub accepting_new_bags: bool,
    /// Defines limits for a bucket.
    pub voucher: Voucher,
    /// Number of assigned bags.
    pub assigned_bags: u64,
}

impl StorageBucketRecord {
    /// Increment the assigned bags number (saturating).
    pub fn register_bag_assignment(&mut self)
        ensures
            *final(self) == (StorageBucketRecord {
                assigned_bags: old(self).assigned_bags.saturating_add(1),
                ..*old(self)
            }),
    {
        self.assigned_bags = self.assigned_bags.saturating_add(1);
    }

    /// Decrement the assigned bags number (saturating at zero).
    pub fn unregister_bag_assignment(&mut self)
        ensures
            *final(self) == (StorageBucketRecord {
                assigned_bags: old(self).assigned_bags.saturating_sub(1),
                ..*old(self)
            }),
    {
        self.assigned_bags = self.assigned_bags.saturating_sub(1);
    }

    /// Checks the bag assignment number. Returns true if it equals zero.
    pub fn no_bags_assigned(&self) -> (r: bool)
        ensures
            r == (self.assigned_bags == 0),
    {
        self.assigned_bags == 0
    }
}

/// Distribution bucket family.
#[derive(Clone, Copy, Debug, PartialEq, Eq, Structural)]
pub struct DistributionBucketFamilyRecord {
    /// Next distribution bucket index.
    pub next_distribution_bucket_index: DistributionBucketIndex,
}

impl DistributionBucketFamilyRecord {
    /// A family whose first bucket gets index zero.
    pub fn default() -> (r: DistributionBucketFamilyRecord)
        ensures
            r.next_distribution_bucket_index == 0,
    {
        DistributionBucketFamilyRecord { next_distribution_bucket_index: 0 }
    }

    /// Increments the next distribution bucket index variable.
    pub fn increment_next_distribution_bucket_index_counter(&mut self)
        requires
            old(self).next_distribution_bucket_index < u64::MAX,
        ensures
            final(self).next_distribution_bucket_index == old(self).next_distribution_bucket_index + 1,
    {
        self.next_distribution_bucket_index = self.next_distribution_bucket_index + 1;
    }
}

/// Complex distribution bucket ID type.
/// Joins a distribution bucket family ID and a distribution bucket index within the family.
#[derive(Clone, Copy, Debug, PartialEq, Eq, Structural)]
pub struct DistributionBucketIdRecord {
    /// Distribution bucket family ID.
    pub distribution_bucket_family_id: DistributionBucketFamilyId,
    /// Distribution bucket ID.
    pub distribution_bucket_index: DistributionBucketIndex,
}

impl DistributionBucketIdRecord {
    /// The (family, index) pair under which the bucket is kept.
    pub open spec fn spec_pair(self) -> (u64, u64) {
        (self.distribution_bucket_family_id, self.distribution_bucket_index)
    }

    /// The (family, index) pair under which the bucket is kept.
    pub fn pair(&self) -> (r: (u64, u64))
        ensures
            r == self.spec_pair(),
    {
        (self.distribution_bucket_family_id, self.distribution_bucket_index)
    }

    /// The ID of the bucket kept under a (family, index) pair.
    pub fn from_pair(p: (u64, u64)) -> (r: DistributionBucketIdRecord)
        ensures
            r.spec_pair() == p,
    {
        DistributionBucketIdRecord { distribution_bucket_family_id: p.0, distribution_bucket_index: p.1 }
    }
}

/// Distribution bucket.
#[derive(Debug)]
pub struct DistributionBucketRecord {
    /// Distribution bucket accepts new bags.
    pub accepting_new_bags: bool,
    /// Distribution bucket serves objects.
    pub distributing: bool,
    /// Pending invitations for workers to distribute the bucket.
    pub pending_invitations: BTreeSet<WorkerId>,
    /// Active operators to distribute the bucket.
    pub operators: BTreeSet<WorkerId>,
    /// Number of assigned bags.
    pub assigned_bags: u64,
}

/// The mathematical value of a distribution bucket.
pub struct DistributionBucketView {
    pub accepting_new_bags: bool,
    pub distributing: bool,
    pub pending_invitations: Set<u64>,
    pub operators: Set<u64>,
    pub assigned_bags: u64,
}

impl View for DistributionBucketRecord {
    type V = DistributionBucketView;

    open spec fn view(&self) -> DistributionBucketView {
        DistributionBucketView {
            accepting_new_bags: self.accepting_new_bags,
            distributing: self.distributing,
            pending_invitations: self.pending_invitations@,
            operators: self.operators@,
            assigned_bags: self.assigned_bags,
        }
    }
}

impl DistributionBucketRecord {
    /// Copies the bucket.
    pub fn copy(&self) -> (r: DistributionBucketRecord)
        ensures
            r@ == self@,
    {
        DistributionBucketRecord {
            accepting_new_bags: self.accepting_new_bags,
            distributing: self.distributing,
            pending_invitations: self.pending_invitations.clone(),
            operators: self.operators.clone(),
            assigned_bags: self.assigned_bags,
        }
    }

    /// Increment the assigned bags number (saturating).
    pub fn register_bag_assignment(&mut self)
        ensures
            final(self)@ == (DistributionBucketView {
                assigned_bags: old(self)@.assigned_bags.saturating_add(1),
                ..old(self)@
            }),
    {
        self.assigned_bags = self.assigned_bags.saturating_add(1);
    }

    /// Decrement the assigned bags number (saturating at zero).
    pub fn unregister_bag_assignment(&mut self)
        ensures
            final(self)@ == (DistributionBucketView {
                assigned_bags: old(self)@.assigned_bags.saturating_sub(1),
                ..old(self)@
            }),
    {
        self.assigned_bags = self.assigned_bags.saturating_sub(1);
    }

    /// Checks the bag assignment number. Returns true if it equals zero.
    pub fn no_bags_assigned(&self) -> (r: bool)
        ensures
            r == (self.assigned_bags == 0),
    {
        self.assigned_bags == 0
    }
}

/// Holds parameter values impacting how exactly the creation of a new dynamic bag occurs.
#[derive(Debug)]
pub struct DynamicBagCreationPolicy {
    /// The number of storage buckets which should replicate the new bag.
    pub number_of_storage_buckets: u64,
    /// The set of distribution bucket families which should be sampled
    /// to distribute bag, and for each the number of buckets in that family
    /// which should be used.
    pub families: BTreeMap<DistributionBucketFamilyId, u32>,
}

/// The mathematical value of a dynamic bag creation policy.
pub struct DynamicBagCreationPolicyView {
    pub number_of_storage_buckets: u64,
    pub families: Map<u64, u32>,
}

impl View for DynamicBagCreationPolicy {
    type V = DynamicBagCreationPolicyView;

    open spec fn view(&self) -> DynamicBagCreationPolicyView {
        DynamicBagCreationPolicyView {
            number_of_storage_buckets: self.number_of_storage_buckets,
            families: self.families@,
        }
    }
}

impl DynamicBagCreationPolicy {
    /// Copies the policy.
    pub fn copy(&self) -> (r: DynamicBagCreationPolicy)
        ensures
            r@ == self@,
    {
        DynamicBagCreationPolicy {
            number_of_storage_buckets: self.number_of_storage_buckets,
            families: self.families.clone(),
        }
    }
}

} // verus!
