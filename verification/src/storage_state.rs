use vstd::prelude::*;
use std::collections::{BTreeMap, BTreeSet};
use vstd::std_specs::iter::IteratorSpec;

use crate::primitives::{BoundedValueConstraint, DataObjectId, DistributionBucketFamilyId, StorageBucketId};
use crate::storage_errors::StorageError;
use crate::storage_types::{
    BagIdType, BagKey, BagRecord, BagView, DataObject, DataObjectView, DistributionBucketFamilyRecord,
    DistributionBucketIdRecord, DistributionBucketRecord, DistributionBucketView, DynamicBagCreationPolicy,
    DynamicBagCreationPolicyView, DynamicBagType, StorageBucketRecord, default_bag,
};

verus! {

/// The storage module's configuration constants.
#[derive(Clone, Copy, Debug, PartialEq, Eq, Structural)]
pub struct StorageConfig {
    /// Defines maximum size of the "hash blacklist" collection.
    pub blacklist_size_limit: u64,
    /// "Storage buckets per bag" value constraint.
    pub storage_buckets_per_bag_value_constraint: BoundedValueConstraint,
    /// "Distribution buckets per bag" value constraint.
    pub distribution_buckets_per_bag_value_constraint: BoundedValueConstraint,
    /// Defines the default dynamic bag creation policy for members (storage bucket number).
    pub default_member_dynamic_bag_number_of_storage_buckets: u64,
    /// Defines the default dynamic bag creation policy for channels (storage bucket number).
    pub default_channel_dynamic_bag_number_of_storage_buckets: u64,
    /// Defines max allowed distribution bucket family number.
    pub max_distribution_bucket_family_number: u64,
    /// Max number of pending invitations per distribution bucket.
    pub max_number_of_pending_invitations_per_distribution_bucket: u64,
    /// Max data object size in bytes.
    pub max_data_object_size: u64,
}

/// The storage module's state.
pub struct StorageState {
    /// Configuration constants.
    pub config: StorageConfig,
    /// Defines whether all new uploads blocked.
    pub uploading_blocked: bool,
    /// Bags storage map (by bag key).
    pub bags: BTreeMap<BagKey, BagRecord>,
    /// Storage bucket id counter. Starts at zero.
    pub next_storage_bucket_id: StorageBucketId,
    /// Data object id counter. Starts at zero.
    pub next_data_object_id: DataObjectId,
    /// Storage buckets.
    pub storage_buckets: BTreeMap<StorageBucketId, StorageBucketRecord>,
    /// Blacklisted data object hashes.
    pub blacklist: Vec<Vec<u8>>,
    /// Blacklist collection counter.
    pub current_blacklist_size: u64,
    /// Size based pricing of new objects uploaded.
    pub data_object_per_mega_byte_fee: u128,
    /// "Storage buckets per bag" number limit.
    pub storage_buckets_per_bag_limit: u64,
    /// "Max objects size for a storage bucket voucher" number limit.
    pub voucher_max_objects_size_limit: u64,
    /// "Max objects number for a storage  bucket voucher" number limit.
    pub voucher_max_objects_number_limit: u64,
    /// The state bloat bond for the data objects (helps preventing the state bloat).
    pub data_object_state_bloat_bond_value: u128,
    /// DynamicBagCreationPolicy by bag type (0: member, 1: channel).
    pub dynamic_bag_creation_policies: BTreeMap<u64, DynamicBagCreationPolicy>,
    /// Data objects of each bag, as (data object ID, data object) entries.
    pub data_objects: BTreeMap<BagKey, Vec<(DataObjectId, DataObject)>>,
    /// Distribution bucket family id counter. Starts at zero.
    pub next_distribution_bucket_family_id: DistributionBucketFamilyId,
    /// Distribution bucket families.
    pub distribution_bucket_families: BTreeMap<DistributionBucketFamilyId, DistributionBucketFamilyRecord>,
    /// Distribution buckets by (family ID, bucket index).
    pub distribution_buckets: BTreeMap<(u64, u64), DistributionBucketRecord>,
    /// Total number of distribution bucket families in the system.
    pub distribution_bucket_family_number: u64,
    /// "Distribution buckets per bag" number limit.
    pub distribution_buckets_per_bag_limit: u64,
}

/// The mathematical value of the storage module's state.
#[verifier::ext_equal]
pub struct StorageStateView {
    pub config: StorageConfig,
    pub uploading_blocked: bool,
    pub bags: Map<BagKey, BagView>,
    pub next_storage_bucket_id: u64,
    pub next_data_object_id: u64,
    pub storage_buckets: Map<u64, StorageBucketRecord>,
    pub blacklist: Seq<Seq<u8>>,
    pub current_blacklist_size: u64,
    pub data_object_per_mega_byte_fee: u128,
    pub storage_buckets_per_bag_limit: u64,
    pub voucher_max_objects_size_limit: u64,
    pub voucher_max_objects_number_limit: u64,
    pub data_object_state_bloat_bond_value: u128,
    pub dynamic_bag_creation_policies: Map<u64, DynamicBagCreationPolicyView>,
    /// The data objects of each bag, in storage order.
    pub objects: spec_fn(BagKey) -> Seq<(u64, DataObjectView)>,
    pub next_distribution_bucket_family_id: u64,
    pub distribution_bucket_families: Map<u64, DistributionBucketFamilyRecord>,
    pub distribution_buckets: Map<(u64, u64), DistributionBucketView>,
    pub distribution_bucket_family_number: u64,
    pub distribution_buckets_per_bag_limit: u64,
}

/// The values of a list of (ID, data object) entries.
pub open spec fn objects_view(list: Seq<(u64, DataObject)>) -> Seq<(u64, DataObjectView)> {
    list.map_values(|e: (u64, DataObject)| (e.0, e.1@))
}

impl View for StorageState {
    type V = StorageStateView;

    open spec fn view(&self) -> StorageStateView {
        StorageStateView {
            config: self.config,
            uploading_blocked: self.uploading_blocked,
            bags: self.bags@.map_values(|b: BagRecord| b@),
            next_storage_bucket_id: self.next_storage_bucket_id,
            next_data_object_id: self.next_data_object_id,
            storage_buckets: self.storage_buckets@,
            blacklist: self.blacklist@.map_values(|c: Vec<u8>| c@),
            current_blacklist_size: self.current_blacklist_size,
            data_object_per_mega_byte_fee: self.data_object_per_mega_byte_fee,
            storage_buckets_per_bag_limit: self.storage_buckets_per_bag_limit,
            voucher_max_objects_size_limit: self.voucher_max_objects_size_limit,
            voucher_max_objects_number_limit: self.voucher_max_objects_number_limit,
            data_object_state_bloat_bond_value: self.data_object_state_bloat_bond_value,
            dynamic_bag_creation_policies: self.dynamic_bag_creation_policies@.map_values(
                |p: DynamicBagCreationPolicy| p@,
            ),
            objects: |k: BagKey|
                if self.data_objects@.contains_key(k) {
                    objects_view(self.data_objects@[k]@)
                } else {
                    Seq::empty()
                },
            next_distribution_bucket_family_id: self.next_distribution_bucket_family_id,
            distribution_bucket_families: self.distribution_bucket_families@,
            distribution_buckets: self.distribution_buckets@.map_values(|b: DistributionBucketRecord| b@),
            distribution_bucket_family_number: self.distribution_bucket_family_number,
            distribution_buckets_per_bag_limit: self.distribution_buckets_per_bag_limit,
        }
    }
}

/// Data object IDs in a list of entries are distinct.
pub open spec fn unique_ids(s: Seq<(u64, DataObjectView)>) -> bool {
    forall|i: int, j: int| 0 <= i < s.len() && 0 <= j < s.len() && i != j ==> s[i].0 != s[j].0
}

/// Every entry's ID is below `bound`, or `bound` is the greatest ID.
pub open spec fn ids_below(s: Seq<(u64, DataObjectView)>, bound: u64) -> bool {
    bound == u64::MAX || forall|i: int| 0 <= i < s.len() ==> s[i].0 < bound
}

/// Whether a list of entries holds an object under `id`.
pub open spec fn has_id(s: Seq<(u64, DataObjectView)>, id: u64) -> bool {
    exists|i: int| 0 <= i < s.len() && s[i].0 == id
}

/// The number of the dynamic bag type in the policy map.
pub open spec fn bag_type_key(t: DynamicBagType) -> u64 {
    match t {
        DynamicBagType::Member => 0,
        DynamicBagType::Channel => 1,
    }
}

impl StorageStateView {
    /// Data object IDs are distinct within each bag and below the data object counter (unless
    /// the counter reached its bound), and no hash is blacklisted twice.
    pub open spec fn wf(self) -> bool {
        &&& forall|k: BagKey| #[trigger] unique_ids((self.objects)(k))
        &&& forall|k: BagKey| #[trigger] ids_below((self.objects)(k), self.next_data_object_id)
        &&& self.blacklist.no_duplicates()
    }

    /// The stored bag under `key`, or an empty bag.
    pub open spec fn bag(self, key: BagKey) -> BagView {
        if self.bags.contains_key(key) {
            self.bags[key]
        } else {
            default_bag()
        }
    }

    /// Static bags always exist; a dynamic bag exists once stored.
    pub open spec fn spec_ensure_bag_exists(self, bag_id: BagIdType) -> Result<BagView, StorageError> {
        if bag_id is Dynamic && !self.bags.contains_key(bag_id.spec_key()) {
            Err(StorageError::DynamicBagDoesntExist)
        } else {
            Ok(self.bag(bag_id.spec_key()))
        }
    }

    /// The default dynamic bag creation policy of a bag type.
    pub open spec fn default_policy(self, bag_type: DynamicBagType) -> DynamicBagCreationPolicyView {
        DynamicBagCreationPolicyView {
            number_of_storage_buckets: match bag_type {
                DynamicBagType::Member => self.config.default_member_dynamic_bag_number_of_storage_buckets,
                DynamicBagType::Channel => self.config.default_channel_dynamic_bag_number_of_storage_buckets,
            },
            families: Map::empty(),
        }
    }

    /// The state with one more distribution bucket family counted.
    pub open spec fn spec_increment_distribution_family_number(self) -> StorageStateView {
        StorageStateView { distribution_bucket_family_number: (self.distribution_bucket_family_number + 1) as u64, ..self }
    }

    /// The state with one less distribution bucket family counted (none below zero).
    pub open spec fn spec_decrement_distribution_family_number(self) -> StorageStateView {
        StorageStateView {
            distribution_bucket_family_number: if self.distribution_bucket_family_number > 0 {
                (self.distribution_bucket_family_number - 1) as u64
            } else {
                0
            },
            ..self
        }
    }

    /// The stored dynamic bag creation policy of a bag type, or the default one.
    pub open spec fn policy(self, bag_type: DynamicBagType) -> DynamicBagCreationPolicyView {
        if self.dynamic_bag_creation_policies.contains_key(bag_type_key(bag_type)) {
            self.dynamic_bag_creation_policies[bag_type_key(bag_type)]
        } else {
            self.default_policy(bag_type)
        }
    }
}


/// The value of a result, taken by the view of its success value.
pub open spec fn view_result<T: View>(r: Result<T, StorageError>) -> Result<T::V, StorageError> {
    match r {
        Ok(t) => Ok(t@),
        Err(e) => Err(e),
    }
}

/// The object stored under `id` in a list of entries (meaningful when the list holds `id`).
pub open spec fn object_with_id(s: Seq<(u64, DataObjectView)>, id: u64) -> DataObjectView {
    s[choose|i: int| 0 <= i < s.len() && s[i].0 == id].1
}

/// One mebibyte: the unit of the data size fee.
pub const ONE_MB: u64 = 1_048_576;

/// The number of whole megabytes needed to hold `bytes`, rounded up.
pub open spec fn megabytes_rounded_up(bytes: u64) -> u64 {
    if bytes % ONE_MB > 0 {
        (bytes / ONE_MB + 1) as u64
    } else {
        (bytes / ONE_MB) as u64
    }
}

/// The storage fee for `bytes` at `mb_fee` per started megabyte (saturating).
pub open spec fn spec_data_storage_fee(mb_fee: u128, bytes: u64) -> u128 {
    crate::primitives::spec_saturating_mul(mb_fee, megabytes_rounded_up(bytes) as u128)
}

/// The state of a new chain: nothing stored, all counters and parameters at zero.
pub open spec fn genesis(config: StorageConfig) -> StorageStateView {
    StorageStateView {
        config,
        uploading_blocked: false,
        bags: Map::empty(),
        next_storage_bucket_id: 0,
        next_data_object_id: 0,
        storage_buckets: Map::empty(),
        blacklist: Seq::empty(),
        current_blacklist_size: 0,
        data_object_per_mega_byte_fee: 0,
        storage_buckets_per_bag_limit: 0,
        voucher_max_objects_size_limit: 0,
        voucher_max_objects_number_limit: 0,
        data_object_state_bloat_bond_value: 0,
        dynamic_bag_creation_policies: Map::empty(),
        objects: |k: BagKey| Seq::empty(),
        next_distribution_bucket_family_id: 0,
        distribution_bucket_families: Map::empty(),
        distribution_buckets: Map::empty(),
        distribution_bucket_family_number: 0,
        distribution_buckets_per_bag_limit: 0,
    }
}

/// The index of the first entry of `list` stored under `id`.
pub fn find_object(list: &Vec<(DataObjectId, DataObject)>, id: DataObjectId) -> (r: Option<usize>)
    ensures
        match r {
            Some(i) => i < list@.len() && list@[i as int].0 == id
                && forall|j: int| 0 <= j < i ==> list@[j].0 != id,
            None => forall|j: int| 0 <= j < list@.len() ==> list@[j].0 != id,
        },
{
    let mut i: usize = 0;
    while i < list.len()
        invariant
            i <= list@.len(),
            forall|j: int| 0 <= j < i ==> list@[j].0 != id,
        decreases list@.len() - i,
    {
        if list[i].0 == id {
            return Some(i);
        }
        i = i + 1;
    }
    None
}

impl StorageState {
    /// A new storage module with the given configuration and empty state.
    pub fn new(config: StorageConfig) -> (s: StorageState)
        ensures
            s@ == genesis(config),
            s@.wf(),
    {
        let s = StorageState {
            config,
            uploading_blocked: false,
            bags: BTreeMap::new(),
            next_storage_bucket_id: 0,
            next_data_object_id: 0,
            storage_buckets: BTreeMap::new(),
            blacklist: Vec::new(),
            current_blacklist_size: 0,
            data_object_per_mega_byte_fee: 0,
            storage_buckets_per_bag_limit: 0,
            voucher_max_objects_size_limit: 0,
            voucher_max_objects_number_limit: 0,
            data_object_state_bloat_bond_value: 0,
            dynamic_bag_creation_policies: BTreeMap::new(),
            data_objects: BTreeMap::new(),
            next_distribution_bucket_family_id: 0,
            distribution_bucket_families: BTreeMap::new(),
            distribution_buckets: BTreeMap::new(),
            distribution_bucket_family_number: 0,
            distribution_buckets_per_bag_limit: 0,
        };
        proof {
            assert(s@.bags =~= Map::empty());
            assert(s@.blacklist =~= Seq::empty());
            assert(s@.dynamic_bag_creation_policies =~= Map::empty());
            assert(s@.distribution_buckets =~= Map::empty());
            assert(s@.objects =~= (|k: BagKey| Seq::<(u64, DataObjectView)>::empty()));
            assert(s@ =~= genesis(config));
        }
        s
    }

    /// The bag stored under `bag_id`, or an empty bag when none is stored.
    pub fn bag(&self, bag_id: &BagIdType) -> (r: BagRecord)
        ensures
            r@ == self@.bag(bag_id.spec_key()),
    {
        let key = bag_id.key();
        match self.bags.get(&key) {
            Some(b) => b.copy(),
            None => BagRecord::default(),
        }
    }

    /// Check the dynamic bag existence. Static bags always exist.
    pub fn ensure_bag_exists(&self, bag_id: &BagIdType) -> (r: Result<BagRecord, StorageError>)
        ensures
            view_result(r) == self@.spec_ensure_bag_exists(*bag_id),
    {
        if let BagIdType::Dynamic(_) = bag_id {
            let key = bag_id.key();
            if !self.bags.contains_key(&key) {
                return Err(StorageError::DynamicBagDoesntExist);
            }
        }
        Ok(self.bag(bag_id))
    }

    /// Ensures the existence of the storage bucket. Returns the storage bucket or error.
    pub fn ensure_storage_bucket_exists(&self, storage_bucket_id: &StorageBucketId) -> (r: Result<
        StorageBucketRecord,
        StorageError,
    >)
        ensures
            r == (if self@.storage_buckets.contains_key(*storage_bucket_id) {
                Ok::<StorageBucketRecord, StorageError>(self@.storage_buckets[*storage_bucket_id])
            } else {
                Err(StorageError::StorageBucketDoesntExist)
            }),
    {
        match self.storage_buckets.get(storage_bucket_id) {
            Some(b) => Ok(*b),
            None => Err(StorageError::StorageBucketDoesntExist),
        }
    }

    /// Ensures the existence of the distribution bucket family. Returns the family or error.
    pub fn ensure_distribution_bucket_family_exists(&self, family_id: &DistributionBucketFamilyId) -> (r:
        Result<DistributionBucketFamilyRecord, StorageError>)
        ensures
            r == (if self@.distribution_bucket_families.contains_key(*family_id) {
                Ok::<DistributionBucketFamilyRecord, StorageError>(self@.distribution_bucket_families[*family_id])
            } else {
                Err(StorageError::DistributionBucketFamilyDoesntExist)
            }),
    {
        match self.distribution_bucket_families.get(family_id) {
            Some(f) => Ok(*f),
            None => Err(StorageError::DistributionBucketFamilyDoesntExist),
        }
    }

    /// Ensures the existence of the distribution bucket. Returns the bucket or error.
    pub fn ensure_distribution_bucket_exists(&self, bucket_id: &DistributionBucketIdRecord) -> (r: Result<
        DistributionBucketRecord,
        StorageError,
    >)
        ensures
            view_result(r) == (if self@.distribution_buckets.contains_key(bucket_id.spec_pair()) {
                Ok::<DistributionBucketView, StorageError>(self@.distribution_buckets[bucket_id.spec_pair()])
            } else {
                Err(StorageError::DistributionBucketDoesntExist)
            }),
    {
        let key = bucket_id.pair();
        match self.distribution_buckets.get(&key) {
            Some(b) => Ok(b.copy()),
            None => Err(StorageError::DistributionBucketDoesntExist),
        }
    }

    /// Check the data object existence inside a bag.
    pub fn ensure_data_object_exists(&self, bag_id: &BagIdType, data_object_id: &DataObjectId) -> (r:
        Result<DataObject, StorageError>)
        requires
            self@.wf(),
        ensures
            ({
                let s = (self@.objects)(bag_id.spec_key());
                view_result(r) == (if has_id(s, *data_object_id) {
                    Ok::<DataObjectView, StorageError>(object_with_id(s, *data_object_id))
                } else {
                    Err(StorageError::DataObjectDoesntExist)
                })
            }),
    {
        let key = bag_id.key();
        let ghost s = (self@.objects)(key);
        match self.data_objects.get(&key) {
            Some(list) => {
                match find_object(list, *data_object_id) {
                    Some(i) => {
                        proof {
                            assert(s[i as int].0 == *data_object_id);
                            let c = choose|c: int| 0 <= c < s.len() && s[c].0 == *data_object_id;
                            assert(unique_ids((self@.objects)(key)));
                            assert(c == i);
                        }
                        Ok(list[i].1.copy())
                    },
                    None => {
                        proof {
                            assert(!has_id(s, *data_object_id)) by {
                                if has_id(s, *data_object_id) {
                                    let c = choose|c: int| 0 <= c < s.len() && s[c].0 == *data_object_id;
                                    assert(list@[c].0 == *data_object_id);
                                }
                            }
                        }
                        Err(StorageError::DataObjectDoesntExist)
                    },
                }
            },
            None => Err(StorageError::DataObjectDoesntExist),
        }
    }

    /// Get default dynamic bag policy by bag type.
    pub fn get_default_dynamic_bag_creation_policy(&self, bag_type: DynamicBagType) -> (r:
        DynamicBagCreationPolicy)
        ensures
            r@ == self@.default_policy(bag_type),
    {
        let number_of_storage_buckets: u64 = match bag_type {
            DynamicBagType::Member => self.config.default_member_dynamic_bag_number_of_storage_buckets,
            DynamicBagType::Channel => self.config.default_channel_dynamic_bag_number_of_storage_buckets,
        };
        DynamicBagCreationPolicy { number_of_storage_buckets, families: BTreeMap::new() }
    }

    /// Loads dynamic bag creation policy or use default values.
    pub fn get_dynamic_bag_creation_policy(&self, bag_type: DynamicBagType) -> (r: DynamicBagCreationPolicy)
        ensures
            r@ == self@.policy(bag_type),
    {
        let key: u64 = match bag_type {
            DynamicBagType::Member => 0,
            DynamicBagType::Channel => 1,
        };
        match self.dynamic_bag_creation_policies.get(&key) {
            Some(p) => p.copy(),
            None => self.get_default_dynamic_bag_creation_policy(bag_type),
        }
    }

    /// Verify that the dynamic bag creation policy of `dynamic_bag_type` does not use the family.
    pub fn check_dynamic_bag_creation_policy_for_dependencies(
        &self,
        family_id: &DistributionBucketFamilyId,
        dynamic_bag_type: DynamicBagType,
    ) -> (r: Result<(), StorageError>)
        ensures
            r == (if self@.policy(dynamic_bag_type).families.contains_key(*family_id) {
                Err(StorageError::DistributionFamilyBoundToBagCreationPolicy)
            } else {
                Ok(())
            }),
    {
        let creation_policy = self.get_dynamic_bag_creation_policy(dynamic_bag_type);
        if creation_policy.families.contains_key(family_id) {
            Err(StorageError::DistributionFamilyBoundToBagCreationPolicy)
        } else {
            Ok(())
        }
    }

    /// Calculate data storage fee based on size. Fee-value uses megabytes as measure value.
    /// Data size will be rounded to nearest greater MB integer.
    pub fn calculate_data_storage_fee(&self, bytes: u64) -> (r: u128)
        ensures
            r == spec_data_storage_fee(self.data_object_per_mega_byte_fee, bytes),
    {
        let mb_fee: u128 = self.data_object_per_mega_byte_fee;
        let mut megabytes: u64 = bytes / ONE_MB;
        if bytes % ONE_MB > 0 {
            megabytes = megabytes + 1;
        }
        crate::primitives::saturating_mul(mb_fee, megabytes as u128)
    }

    /// Returns the funds needed to upload `num_of_objs_to_upload` objects of
    /// `objs_total_size_in_bytes` bytes in all: the state bloat bond per object plus the
    /// storage fee (saturating).
    pub fn funds_needed_for_upload(&self, num_of_objs_to_upload: usize, objs_total_size_in_bytes: u64) -> (r:
        u128)
        ensures
            r == crate::primitives::spec_saturating_mul(
                self.data_object_state_bloat_bond_value,
                num_of_objs_to_upload as u128,
            ).saturating_add(spec_data_storage_fee(self.data_object_per_mega_byte_fee, objs_total_size_in_bytes)),
    {
        let n: u128 = crate::primitives::saturated_balance(num_of_objs_to_upload);
        let deletion_fee: u128 = crate::primitives::saturating_mul(self.data_object_state_bloat_bond_value, n);
        let storage_fee: u128 = self.calculate_data_storage_fee(objs_total_size_in_bytes);
        deletion_fee.saturating_add(storage_fee)
    }

    /// Get a set of next `length` data object ids.
    pub fn get_next_data_object_ids(&self, length: usize) -> (r: BTreeSet<DataObjectId>)
        requires
            self.next_data_object_id + length <= u64::MAX,
        ensures
            forall|id: u64| r@.contains(id) <==> self.next_data_object_id <= id < self.next_data_object_id + length,
    {
        let mut next_data_object_id: u64 = self.next_data_object_id;
        let mut next_objects_ids: BTreeSet<u64> = BTreeSet::new();
        let mut k: usize = 0;
        while k < length
            invariant
                k <= length,
                self.next_data_object_id + length <= u64::MAX,
                next_data_object_id == self.next_data_object_id + k,
                forall|id: u64| next_objects_ids@.contains(id) <==> self.next_data_object_id <= id < next_data_object_id,
            decreases length - k,
        {
            next_objects_ids.insert(next_data_object_id);
            next_data_object_id = next_data_object_id + 1;
            k = k + 1;
        }
        next_objects_ids
    }

    /// Increment distribution family number in the storage.
    pub fn increment_distribution_family_number(&mut self)
        requires
            old(self).distribution_bucket_family_number < u64::MAX,
        ensures
            final(self)@ == old(self)@.spec_increment_distribution_family_number(),
    {
        self.distribution_bucket_family_number = self.distribution_bucket_family_number + 1;
    }

    /// Decrement distribution family number in the storage. No effect on zero number.
    pub fn decrement_distribution_family_number(&mut self)
        ensures
            final(self)@ == old(self)@.spec_decrement_distribution_family_number(),
    {
        if self.distribution_bucket_family_number > 0 {
            self.distribution_bucket_family_number = self.distribution_bucket_family_number - 1;
        }
    }

    /// Checks distribution buckets of a family for bag assignment number. Returns true only if
    /// all 'assigned_bags' are zero.
    pub fn no_bags_assigned(&self, family_id: &DistributionBucketFamilyId) -> (r: bool)
        ensures
            r == (forall|k: (u64, u64)|
                #![trigger self@.distribution_buckets[k]]
                self@.distribution_buckets.contains_key(k) && k.0 == *family_id
                    ==> self@.distribution_buckets[k].assigned_bags == 0),
    {
        let ghost r = vstd::std_specs::btree::spec_btree_map_iter(&self.distribution_buckets).remaining();
        let mut all: bool = true;
        for e in it: self.distribution_buckets.iter()
            invariant
                r == vstd::std_specs::btree::spec_btree_map_iter(&self.distribution_buckets).remaining(),
                it.seq() == r,
                all == (forall|j: int| 0 <= j < it.index() && (*r[j].0).0 == *family_id ==> (*r[j].1).assigned_bags == 0),
        {
            let (k, b) = e;
            if k.0 == *family_id && b.assigned_bags != 0 {
                all = false;
            }
        }
        proof {
            let m = self.distribution_buckets@;
            if all {
                assert forall|k: (u64, u64)|
                    #![trigger self@.distribution_buckets[k]]
                    self@.distribution_buckets.contains_key(k) && k.0 == *family_id
                        implies self@.distribution_buckets[k].assigned_bags == 0 by {
                    assert(m.contains_key(k));
                    assert(r.contains((&k, &m[k])));
                    let j = choose|j: int| 0 <= j < r.len() && r[j] == (&k, &m[k]);
                    assert((*r[j].1).assigned_bags == 0);
                }
            } else {
                let j = choose|j: int| 0 <= j < r.len() && (*r[j].0).0 == *family_id && (*r[j].1).assigned_bags != 0;
                let k = *r[j].0;
                assert(m.contains_key(k) && m[k] == *r[j].1);
                assert(self@.distribution_buckets[k].assigned_bags != 0);
            }
        }
        all
    }
}

/// Creates distribution bucket ID from family ID and bucket index.
pub fn create_distribution_bucket_id(
    distribution_bucket_family_id: DistributionBucketFamilyId,
    distribution_bucket_index: u64,
) -> (r: DistributionBucketIdRecord)
    ensures
        r == (DistributionBucketIdRecord { distribution_bucket_family_id, distribution_bucket_index }),
{
    DistributionBucketIdRecord { distribution_bucket_family_id, distribution_bucket_index }
}

} // verus!
