use vstd::prelude::*;
use std::collections::{BTreeMap, BTreeSet};

use crate::primitives::{AccountId, Balance, DataObjectId};
use crate::storage_bag_ops::{BagOperationParamsTypes, BagOperationParamsView, BagOperationRecord, params_view};
use crate::storage_errors::StorageError;
use crate::storage_mutation::BalanceTransfers;
use crate::storage_state::{StorageState, StorageStateView};
use crate::sorted::{ascending_vec, key_vec, lemma_take_succ_to_set, pair_vec};
use crate::storage_types::{
    BagIdType, DataObjectCreationParameters, DataObjectCreationParametersView, DynamicBagIdType, DynamicBagType,
};

verus! {

/// Data wrapper structure. Helps passing the parameters to the upload operations.
pub struct UploadParametersRecord {
    /// Static or dynamic bag to upload data.
    pub bag_id: BagIdType,
    /// Data object parameters.
    pub object_creation_list: Vec<DataObjectCreationParameters>,
    /// Account for the data object state bloat bond.
    pub state_bloat_bond_source_account_id: AccountId,
    /// Expected data size fee value for this call.
    pub expected_data_size_fee: Balance,
    /// Expected data object state bloat bond for the storage module.
    pub expected_data_object_state_bloat_bond: Balance,
}

/// The mathematical value of upload parameters.
pub struct UploadParametersView {
    pub bag_id: BagIdType,
    pub object_creation_list: Seq<DataObjectCreationParametersView>,
    pub state_bloat_bond_source_account_id: AccountId,
    pub expected_data_size_fee: Balance,
    pub expected_data_object_state_bloat_bond: Balance,
}

impl View for UploadParametersRecord {
    type V = UploadParametersView;

    open spec fn view(&self) -> UploadParametersView {
        UploadParametersView {
            bag_id: self.bag_id,
            object_creation_list: params_view(self.object_creation_list@),
            state_bloat_bond_source_account_id: self.state_bloat_bond_source_account_id,
            expected_data_size_fee: self.expected_data_size_fee,
            expected_data_object_state_bloat_bond: self.expected_data_object_state_bloat_bond,
        }
    }
}

/// Data wrapper structure. Helps with the dynamic bag creation.
pub struct DynBagCreationParametersRecord {
    /// The dynamic bag to create.
    pub bag_id: DynamicBagIdType,
    /// Data object parameters.
    pub object_creation_list: Vec<DataObjectCreationParameters>,
    /// Account for the data object state bloat bond.
    pub state_bloat_bond_source_account_id: AccountId,
    /// Expected data size fee value for this call.
    pub expected_data_size_fee: Balance,
    /// Expected data object state bloat bond for the storage module.
    pub expected_data_object_state_bloat_bond: Balance,
    /// Chosen storage buckets to assign on the dynamic bag creation.
    pub storage_buckets: BTreeSet<u64>,
    /// Chosen distribution buckets (family ID, bucket index) to assign on the dynamic bag creation.
    pub distribution_buckets: BTreeSet<(u64, u64)>,
}

/// The mathematical value of dynamic bag creation parameters.
pub struct DynBagCreationParametersView {
    pub bag_id: DynamicBagIdType,
    pub object_creation_list: Seq<DataObjectCreationParametersView>,
    pub state_bloat_bond_source_account_id: AccountId,
    pub expected_data_size_fee: Balance,
    pub expected_data_object_state_bloat_bond: Balance,
    pub storage_buckets: Set<u64>,
    pub distribution_buckets: Set<(u64, u64)>,
}

impl View for DynBagCreationParametersRecord {
    type V = DynBagCreationParametersView;

    open spec fn view(&self) -> DynBagCreationParametersView {
        DynBagCreationParametersView {
            bag_id: self.bag_id,
            object_creation_list: params_view(self.object_creation_list@),
            state_bloat_bond_source_account_id: self.state_bloat_bond_source_account_id,
            expected_data_size_fee: self.expected_data_size_fee,
            expected_data_object_state_bloat_bond: self.expected_data_object_state_bloat_bond,
            storage_buckets: self.storage_buckets@,
            distribution_buckets: self.distribution_buckets@,
        }
    }
}

/// A state-changing call returned `r` and went from `before` to `after`, as `expected` says:
/// on success the expected new state and transfers, on failure the expected error and no change.
pub open spec fn takes_effect(
    r: Result<BalanceTransfers, StorageError>,
    before: StorageStateView,
    after: StorageStateView,
    expected: Result<(StorageStateView, BalanceTransfers), StorageError>,
) -> bool {
    match (r, expected) {
        (Ok(t), Ok(s)) => after == s.0 && t == s.1,
        (Err(e), Err(f)) => e == f && after == before,
        _ => false,
    }
}

impl StorageStateView {
    /// Whether the caller's expected fee and bond match the current ones (first failing check).
    pub open spec fn expected_fees_check(self, expected_fee: Balance, expected_bond: Balance) -> Option<StorageError> {
        if expected_fee != self.data_object_per_mega_byte_fee {
            Some(StorageError::DataSizeFeeChanged)
        } else if expected_bond != self.data_object_state_bloat_bond_value {
            Some(StorageError::DataObjectStateBloatBondChanged)
        } else {
            None
        }
    }

    /// Upload new data objects into a bag.
    pub open spec fn spec_upload_data_objects(self, p: UploadParametersView, usable_balance: Balance) -> Result<
        (StorageStateView, BalanceTransfers),
        StorageError,
    > {
        if p.object_creation_list.len() == 0 {
            Err(StorageError::NoObjectsOnUpload)
        } else {
            match self.expected_fees_check(p.expected_data_size_fee, p.expected_data_object_state_bloat_bond) {
                Some(e) => Err(e),
                None => self.spec_try_mutating_storage_state(
                    p.state_bloat_bond_source_account_id,
                    usable_balance,
                    0,
                    p.bag_id,
                    BagOperationParamsView::Update(p.object_creation_list, Set::empty()),
                ),
            }
        }
    }

    /// Delete data objects of a bag, refunding their state bloat bond out of a treasury with
    /// the given balance.
    pub open spec fn spec_delete_data_objects(
        self,
        account_id: AccountId,
        bag_id: BagIdType,
        objects: Set<u64>,
        treasury_balance: Balance,
    ) -> Result<(StorageStateView, BalanceTransfers), StorageError> {
        if objects.is_empty() {
            Err(StorageError::DataObjectIdCollectionIsEmpty)
        } else {
            self.spec_try_mutating_storage_state(
                account_id,
                0,
                treasury_balance,
                bag_id,
                BagOperationParamsView::Update(Seq::empty(), objects),
            )
        }
    }

    /// Upload and delete data objects of a bag at the same time; the caller, counting its
    /// refund, or the treasury must cover the net expense.
    pub open spec fn spec_upload_and_delete_data_objects(
        self,
        p: UploadParametersView,
        objects_to_remove: Set<u64>,
        usable_balance: Balance,
        treasury_balance: Balance,
    ) -> Result<(StorageStateView, BalanceTransfers), StorageError> {
        if p.object_creation_list.len() == 0 {
            Err(StorageError::NoObjectsOnUpload)
        } else {
            match self.expected_fees_check(p.expected_data_size_fee, p.expected_data_object_state_bloat_bond) {
                Some(e) => Err(e),
                None => self.spec_try_mutating_storage_state(
                    p.state_bloat_bond_source_account_id,
                    usable_balance,
                    treasury_balance,
                    p.bag_id,
                    BagOperationParamsView::Update(p.object_creation_list, objects_to_remove),
                ),
            }
        }
    }

    /// Delete a dynamic bag and all its objects, refunding their state bloat bond out of a
    /// treasury with the given balance.
    pub open spec fn spec_delete_dynamic_bag(
        self,
        account_id: AccountId,
        dynamic_bag_id: DynamicBagIdType,
        treasury_balance: Balance,
    ) -> Result<(StorageStateView, BalanceTransfers), StorageError> {
        self.spec_try_mutating_storage_state(
            account_id,
            0,
            treasury_balance,
            BagIdType::Dynamic(dynamic_bag_id),
            BagOperationParamsView::Delete,
        )
    }
}
impl StorageState {
    /// Upload new data objects: the list must not be empty and the expected fee and bond must
    /// be the current ones; then the bag update goes as `try_mutating_storage_state` says.
    /// `usable_balance` is the usable balance of the bond source account.
    pub fn upload_data_objects(&mut self, params: UploadParametersRecord, usable_balance: Balance) -> (r: Result<
        BalanceTransfers,
        StorageError,
    >)
        requires
            old(self)@.wf(),
        ensures
            final(self)@.wf(),
            takes_effect(r, old(self)@, final(self)@, old(self)@.spec_upload_data_objects(params@, usable_balance)),
    {
        if params.object_creation_list.len() == 0 {
            return Err(StorageError::NoObjectsOnUpload);
        }
        if params.expected_data_size_fee != self.data_object_per_mega_byte_fee {
            return Err(StorageError::DataSizeFeeChanged);
        }
        if params.expected_data_object_state_bloat_bond != self.data_object_state_bloat_bond_value {
            return Err(StorageError::DataObjectStateBloatBondChanged);
        }
        let ghost pv = params@;
        let op = BagOperationRecord {
            bag_id: params.bag_id,
            params: BagOperationParamsTypes::Update(params.object_creation_list, BTreeSet::new()),
        };
        proof {
            assert(op.params@ == BagOperationParamsView::Update(pv.object_creation_list, Set::empty()));
        }
        self.try_mutating_storage_state(params.state_bloat_bond_source_account_id, usable_balance, 0, op)
    }

    /// Delete storage objects, refunding their state bloat bond to the given account.
    /// `treasury_balance` is the usable balance of the storage treasury.
    pub fn delete_data_objects(
        &mut self,
        state_bloat_bond_account_id: AccountId,
        bag_id: BagIdType,
        objects: BTreeSet<DataObjectId>,
        treasury_balance: Balance,
    ) -> (r: Result<BalanceTransfers, StorageError>)
        requires
            old(self)@.wf(),
        ensures
            final(self)@.wf(),
            takes_effect(
                r,
                old(self)@,
                final(self)@,
                old(self)@.spec_delete_data_objects(state_bloat_bond_account_id, bag_id, objects@, treasury_balance),
            ),
    {
        if objects.is_empty() {
            return Err(StorageError::DataObjectIdCollectionIsEmpty);
        }
        let ghost ov = objects@;
        let op = BagOperationRecord {
            bag_id,
            params: BagOperationParamsTypes::Update(Vec::new(), objects),
        };
        proof {
            assert(params_view(Seq::<DataObjectCreationParameters>::empty()) =~= Seq::empty());
            assert(op.params@ == BagOperationParamsView::Update(Seq::empty(), ov));
        }
        self.try_mutating_storage_state(state_bloat_bond_account_id, 0, treasury_balance, op)
    }

    /// Upload and delete objects at the same time: the upload list must not be empty and the
    /// expected fee and bond must be the current ones. `usable_balance` is the usable balance
    /// of the bond source account, `treasury_balance` that of the storage treasury.
    pub fn upload_and_delete_data_objects(
        &mut self,
        upload_parameters: UploadParametersRecord,
        objects_to_remove: BTreeSet<DataObjectId>,
        usable_balance: Balance,
        treasury_balance: Balance,
    ) -> (r: Result<BalanceTransfers, StorageError>)
        requires
            old(self)@.wf(),
        ensures
            final(self)@.wf(),
            takes_effect(
                r,
                old(self)@,
                final(self)@,
                old(self)@.spec_upload_and_delete_data_objects(
                    upload_parameters@,
                    objects_to_remove@,
                    usable_balance,
                    treasury_balance,
                ),
            ),
    {
        if upload_parameters.object_creation_list.len() == 0 {
            return Err(StorageError::NoObjectsOnUpload);
        }
        if upload_parameters.expected_data_size_fee != self.data_object_per_mega_byte_fee {
            return Err(StorageError::DataSizeFeeChanged);
        }
        if upload_parameters.expected_data_object_state_bloat_bond != self.data_object_state_bloat_bond_value {
            return Err(StorageError::DataObjectStateBloatBondChanged);
        }
        let ghost pv = upload_parameters@;
        let ghost ov = objects_to_remove@;
        let op = BagOperationRecord {
            bag_id: upload_parameters.bag_id,
            params: BagOperationParamsTypes::Update(upload_parameters.object_creation_list, objects_to_remove),
        };
        proof {
            assert(op.params@ == BagOperationParamsView::Update(pv.object_creation_list, ov));
        }
        self.try_mutating_storage_state(upload_parameters.state_bloat_bond_source_account_id, usable_balance, treasury_balance, op)
    }

    /// Delete dynamic bag with all its objects; updates the related bucket vouchers and
    /// assignments and refunds the state bloat bond.
    /// `treasury_balance` is the usable balance of the storage treasury.
    pub fn delete_dynamic_bag(
        &mut self,
        state_bloat_bond_account_id: AccountId,
        dynamic_bag_id: DynamicBagIdType,
        treasury_balance: Balance,
    ) -> (r: Result<BalanceTransfers, StorageError>)
        requires
            old(self)@.wf(),
        ensures
            final(self)@.wf(),
            takes_effect(
                r,
                old(self)@,
                final(self)@,
                old(self)@.spec_delete_dynamic_bag(state_bloat_bond_account_id, dynamic_bag_id, treasury_balance),
            ),
    {
        let op = BagOperationRecord { bag_id: BagIdType::Dynamic(dynamic_bag_id), params: BagOperationParamsTypes::Delete };
        self.try_mutating_storage_state(state_bloat_bond_account_id, 0, treasury_balance, op)
    }
}

/// The number of distribution buckets of family `family` among `buckets`.
pub open spec fn family_count(buckets: Set<(u64, u64)>, family: u64) -> nat {
    buckets.filter(in_family(family)).len()
}

/// Whether a distribution bucket belongs to family `family`.
pub open spec fn in_family(family: u64) -> spec_fn((u64, u64)) -> bool {
    |b: (u64, u64)| b.0 == family
}

/// The number of buckets per family among `buckets` is exactly `families`: a family is listed
/// if and only if some bucket belongs to it, with the number of its buckets.
pub open spec fn matches_families(buckets: Set<(u64, u64)>, families: Map<u64, u32>) -> bool {
    &&& forall|f: u64| #[trigger]
        families.contains_key(f) <==> exists|b: (u64, u64)| buckets.contains(b) && b.0 == f
    &&& forall|f: u64| #[trigger] families.contains_key(f) ==> families[f] == family_count(buckets, f)
}

impl StorageStateView {
    /// Validate storage bucket IDs for a dynamic bag type: their number must be the one of the
    /// creation policy and each must exist.
    pub open spec fn spec_validate_storage_buckets_for_dynamic_bag_type(
        self,
        dynamic_bag_type: DynamicBagType,
        storage_buckets: Set<u64>,
    ) -> Result<(), StorageError> {
        if self.policy(dynamic_bag_type).number_of_storage_buckets != storage_buckets.len() {
            Err(StorageError::StorageBucketsNumberViolatesDynamicBagCreationPolicy)
        } else if exists|id: u64| storage_buckets.contains(id) && !self.storage_buckets.contains_key(id) {
            Err(StorageError::StorageBucketDoesntExist)
        } else {
            Ok(())
        }
    }

    /// Validate distribution bucket IDs for a dynamic bag type: their number per family must be
    /// the one of the creation policy and each must exist.
    pub open spec fn spec_validate_distribution_buckets_for_dynamic_bag_type(
        self,
        dynamic_bag_type: DynamicBagType,
        distribution_buckets: Set<(u64, u64)>,
    ) -> Result<(), StorageError> {
        if !matches_families(distribution_buckets, self.policy(dynamic_bag_type).families) {
            Err(StorageError::DistributionBucketsViolatesDynamicBagCreationPolicy)
        } else if exists|id: (u64, u64)| distribution_buckets.contains(id) && !self.distribution_buckets.contains_key(id) {
            Err(StorageError::DistributionBucketDoesntExist)
        } else {
            Ok(())
        }
    }

    /// Create a dynamic bag: the expected bond and fee are checked, then the chosen buckets
    /// against the creation policy, then the bag creation goes as `try_mutating_storage_state`
    /// says.
    pub open spec fn spec_create_dynamic_bag(self, p: DynBagCreationParametersView, usable_balance: Balance) -> Result<
        (StorageStateView, BalanceTransfers),
        StorageError,
    > {
        let t = p.bag_id.spec_bag_type();
        if p.expected_data_object_state_bloat_bond != self.data_object_state_bloat_bond_value {
            Err(StorageError::DataObjectStateBloatBondChanged)
        } else if p.expected_data_size_fee != self.data_object_per_mega_byte_fee {
            Err(StorageError::DataSizeFeeChanged)
        } else if self.spec_validate_storage_buckets_for_dynamic_bag_type(t, p.storage_buckets) is Err {
            Err(self.spec_validate_storage_buckets_for_dynamic_bag_type(t, p.storage_buckets)->Err_0)
        } else if self.spec_validate_distribution_buckets_for_dynamic_bag_type(t, p.distribution_buckets) is Err {
            Err(self.spec_validate_distribution_buckets_for_dynamic_bag_type(t, p.distribution_buckets)->Err_0)
        } else {
            self.spec_try_mutating_storage_state(
                p.state_bloat_bond_source_account_id,
                usable_balance,
                0,
                BagIdType::Dynamic(p.bag_id),
                BagOperationParamsView::Create(p.object_creation_list, p.storage_buckets, p.distribution_buckets),
            )
        }
    }
}

/// Adding a bucket that is not yet in `s` adds one to the count of its family.
proof fn lemma_family_count_insert(s: Set<(u64, u64)>, b: (u64, u64), f: u64)
    requires
        s.finite(),
        !s.contains(b),
    ensures
        family_count(s.insert(b), f) == family_count(s, f) + (if b.0 == f { 1int } else { 0int }),
{
    let p = in_family(f);
    s.lemma_len_filter(p);
    if b.0 == f {
        assert(s.insert(b).filter(p) =~= s.filter(p).insert(b));
    } else {
        assert(s.insert(b).filter(p) =~= s.filter(p));
    }
}

impl StorageState {
    /// Validate storage bucket IDs for dynamic bag type. Checks buckets' existence and dynamic bag
    /// creation policy compatibility.
    pub fn validate_storage_buckets_for_dynamic_bag_type(
        &self,
        dynamic_bag_type: DynamicBagType,
        storage_buckets: &BTreeSet<u64>,
    ) -> (r: Result<(), StorageError>)
        ensures
            r == self@.spec_validate_storage_buckets_for_dynamic_bag_type(dynamic_bag_type, storage_buckets@),
    {
        let creation_policy = self.get_dynamic_bag_creation_policy(dynamic_bag_type);
        let n: usize = storage_buckets.len();
        proof {
            crate::sorted::lemma_set_len(storage_buckets);
        }
        if creation_policy.number_of_storage_buckets != n as u64 {
            return Err(StorageError::StorageBucketsNumberViolatesDynamicBagCreationPolicy);
        }
        let q = ascending_vec(storage_buckets);
        let mut i: usize = 0;
        while i < q.len()
            invariant
                q@.to_set() == storage_buckets@,
                self@.policy(dynamic_bag_type).number_of_storage_buckets == storage_buckets@.len(),
                i <= q@.len(),
                forall|j: int| 0 <= j < i ==> self@.storage_buckets.contains_key(#[trigger] q@[j]),
            decreases q@.len() - i,
        {
            if !self.storage_buckets.contains_key(&q[i]) {
                proof {
                    assert(storage_buckets@.contains(q@[i as int]));
                }
                return Err(StorageError::StorageBucketDoesntExist);
            }
            i = i + 1;
        }
        proof {
            assert forall|id: u64| storage_buckets@.contains(id) implies self@.storage_buckets.contains_key(id) by {
                assert(q@.contains(id));
                let j = choose|j: int| 0 <= j < q@.len() && q@[j] == id;
                assert(self@.storage_buckets.contains_key(q@[j]));
            }
        }
        Ok(())
    }

    /// Validate distribution bucket IDs for dynamic bag type. Checks buckets' existence and
    /// dynamic bag creation policy compatibility.
    pub fn validate_distribution_buckets_for_dynamic_bag_type(
        &self,
        dynamic_bag_type: DynamicBagType,
        distribution_buckets: &BTreeSet<(u64, u64)>,
    ) -> (r: Result<(), StorageError>)
        requires
            distribution_buckets@.len() <= u32::MAX,
        ensures
            r == self@.spec_validate_distribution_buckets_for_dynamic_bag_type(dynamic_bag_type, distribution_buckets@),
    {
        let creation_policy = self.get_dynamic_bag_creation_policy(dynamic_bag_type);
        let ghost fams = creation_policy.families@;
        let q = pair_vec(distribution_buckets);
        // the number of chosen buckets per family
        let mut families_match: BTreeMap<u64, u32> = BTreeMap::new();
        let mut i: usize = 0;
        while i < q.len()
            invariant
                q@.to_set() == distribution_buckets@,
                q@.no_duplicates(),
                q@.len() <= u32::MAX,
                i <= q@.len(),
                forall|f: u64| #[trigger] families_match@.contains_key(f)
                    <==> exists|b: (u64, u64)| q@.take(i as int).to_set().contains(b) && b.0 == f,
                forall|f: u64| #[trigger] families_match@.contains_key(f)
                    ==> families_match@[f] == family_count(q@.take(i as int).to_set(), f) && families_match@[f] <= i,
            decreases q@.len() - i,
        {
            let b: (u64, u64) = q[i];
            let ghost seen = q@.take(i as int).to_set();
            proof {
                lemma_take_succ_to_set(q@, i as int);
                assert(!seen.contains(b)) by {
                    if seen.contains(b) {
                        let j = choose|j: int| 0 <= j < i && q@.take(i as int)[j] == b;
                        assert(q@[j] == q@[i as int]);
                    }
                }
                vstd::seq_lib::seq_to_set_is_finite(q@.take(i as int));
                assert forall|f: u64| #[trigger] family_count(seen.insert(b), f)
                    == family_count(seen, f) + (if b.0 == f { 1int } else { 0int }) by {
                    lemma_family_count_insert(seen, b, f);
                }
            }
            let c: u32 = match families_match.get(&b.0) {
                Some(n) => *n,
                None => 0,
            };
            proof {
                if !families_match@.contains_key(b.0) {
                    assert(seen.filter(in_family(b.0)) =~= Set::empty());
                    assert(family_count(seen, b.0) == 0);
                }
            }
            let ghost prev = families_match@;
            families_match.insert(b.0, c + 1);
            proof {
                let seen2 = q@.take(i + 1).to_set();
                assert(seen2 == seen.insert(b));
                assert forall|f: u64| #[trigger] families_match@.contains_key(f)
                    <==> exists|x: (u64, u64)| seen2.contains(x) && x.0 == f by {
                    if f == b.0 {
                        assert(seen2.contains(b));
                    } else {
                        if prev.contains_key(f) {
                            let x = choose|x: (u64, u64)| seen.contains(x) && x.0 == f;
                            assert(seen2.contains(x));
                        }
                        if exists|x: (u64, u64)| seen2.contains(x) && x.0 == f {
                            let x = choose|x: (u64, u64)| seen2.contains(x) && x.0 == f;
                            assert(seen.contains(x));
                        }
                    }
                }
            }
            i = i + 1;
        }
        proof {
            crate::sorted::lemma_take_all(q@);
        }
        let ghost fm = families_match@;
        proof {
            assert forall|f: u64| #[trigger] fm.contains_key(f)
                <==> exists|b: (u64, u64)| distribution_buckets@.contains(b) && b.0 == f by {}
            assert forall|f: u64| #[trigger] fm.contains_key(f)
                implies fm[f] == family_count(distribution_buckets@, f) by {}
        }
        // every family of the policy has its number of chosen buckets
        let policy_families = key_vec(&creation_policy.families);
        let mut k: usize = 0;
        while k < policy_families.len()
            invariant
                fams == creation_policy.families@,
                fams == self@.policy(dynamic_bag_type).families,
                fm == families_match@,
                forall|f: u64| #[trigger] fm.contains_key(f)
                    <==> exists|b: (u64, u64)| distribution_buckets@.contains(b) && b.0 == f,
                forall|f: u64| #[trigger] fm.contains_key(f) ==> fm[f] == family_count(distribution_buckets@, f),
                policy_families@.to_set() == fams.dom(),
                k <= policy_families@.len(),
                forall|j: int| #![trigger policy_families@[j]] 0 <= j < k ==> families_match@.contains_key(policy_families@[j])
                    && families_match@[policy_families@[j]] == fams[policy_families@[j]],
            decreases policy_families@.len() - k,
        {
            let f: u64 = policy_families[k];
            proof {
                assert(policy_families@.to_set().contains(f));
            }
            let expected: u32 = *creation_policy.families.get(&f).unwrap();
            let same: bool = match families_match.get(&f) {
                Some(n) => *n == expected,
                None => false,
            };
            if !same {
                proof {
                    assert(!matches_families(distribution_buckets@, fams)) by {
                        if matches_families(distribution_buckets@, fams) {
                            assert(fams.contains_key(f));
                            let b = choose|b: (u64, u64)| distribution_buckets@.contains(b) && b.0 == f;
                            assert(families_match@.contains_key(f));
                        }
                    }
                }
                return Err(StorageError::DistributionBucketsViolatesDynamicBagCreationPolicy);
            }
            proof {
                assert(fams.contains_key(f));
                assert(expected == fams[f]);
                assert(families_match@.contains_key(f));
                assert(families_match@[f] == fams[f]);
                assert(policy_families@[k as int] == f);
            }
            k = k + 1;
        }
        // and no other family has chosen buckets
        let chosen_families = key_vec(&families_match);
        let mut k: usize = 0;
        while k < chosen_families.len()
            invariant
                fams == creation_policy.families@,
                fams == self@.policy(dynamic_bag_type).families,
                fm == families_match@,
                forall|f: u64| #[trigger] fm.contains_key(f)
                    <==> exists|b: (u64, u64)| distribution_buckets@.contains(b) && b.0 == f,
                forall|f: u64| #[trigger] fm.contains_key(f) ==> fm[f] == family_count(distribution_buckets@, f),
                forall|j: int| #![trigger policy_families@[j]] 0 <= j < policy_families@.len() ==> families_match@.contains_key(policy_families@[j])
                    && families_match@[policy_families@[j]] == fams[policy_families@[j]],
                policy_families@.to_set() == fams.dom(),
                chosen_families@.to_set() == families_match@.dom(),
                k <= chosen_families@.len(),
                forall|j: int| 0 <= j < k ==> #[trigger] fams.contains_key(chosen_families@[j]),
            decreases chosen_families@.len() - k,
        {
            let f: u64 = chosen_families[k];
            if !creation_policy.families.contains_key(&f) {
                proof {
                    assert(chosen_families@.to_set().contains(f));
                    assert(families_match@.contains_key(f));
                    assert(!matches_families(distribution_buckets@, fams)) by {
                        let b = choose|b: (u64, u64)| distribution_buckets@.contains(b) && b.0 == f;
                        assert(distribution_buckets@.contains(b) && b.0 == f);
                    }
                }
                return Err(StorageError::DistributionBucketsViolatesDynamicBagCreationPolicy);
            }
            k = k + 1;
        }
        proof {
            assert forall|f: u64| #[trigger] fams.contains_key(f)
                <==> exists|b: (u64, u64)| distribution_buckets@.contains(b) && b.0 == f by {
                if fams.contains_key(f) {
                    assert(policy_families@.to_set().contains(f));
                    let j = choose|j: int| 0 <= j < policy_families@.len() && policy_families@[j] == f;
                    assert(families_match@.contains_key(policy_families@[j]));
                }
                if exists|b: (u64, u64)| distribution_buckets@.contains(b) && b.0 == f {
                    assert(families_match@.contains_key(f));
                    assert(chosen_families@.to_set().contains(f));
                    let j = choose|j: int| 0 <= j < chosen_families@.len() && chosen_families@[j] == f;
                    assert(fams.contains_key(chosen_families@[j]));
                }
            }
            assert forall|f: u64| #[trigger] fams.contains_key(f) implies fams[f] == family_count(distribution_buckets@, f) by {
                assert(policy_families@.to_set().contains(f));
                let j = choose|j: int| 0 <= j < policy_families@.len() && policy_families@[j] == f;
                assert(families_match@.contains_key(policy_families@[j]));
            }
        }
        // every chosen bucket exists
        let mut i: usize = 0;
        while i < q.len()
            invariant
                q@.to_set() == distribution_buckets@,
                matches_families(distribution_buckets@, fams),
                fams == self@.policy(dynamic_bag_type).families,
                i <= q@.len(),
                forall|j: int| 0 <= j < i ==> self@.distribution_buckets.contains_key(#[trigger] q@[j]),
            decreases q@.len() - i,
        {
            if !self.distribution_buckets.contains_key(&q[i]) {
                proof {
                    assert(distribution_buckets@.contains(q@[i as int]));
                }
                return Err(StorageError::DistributionBucketDoesntExist);
            }
            i = i + 1;
        }
        proof {
            assert forall|id: (u64, u64)| distribution_buckets@.contains(id) implies self@.distribution_buckets.contains_key(id) by {
                assert(q@.contains(id));
                let j = choose|j: int| 0 <= j < q@.len() && q@[j] == id;
                assert(self@.distribution_buckets.contains_key(q@[j]));
            }
        }
        Ok(())
    }

    /// Creates a dynamic bag with the chosen buckets and the uploaded objects.
    /// `usable_balance` is the usable balance of the bond source account.
    pub fn create_dynamic_bag(&mut self, params: DynBagCreationParametersRecord, usable_balance: Balance) -> (r: Result<
        BalanceTransfers,
        StorageError,
    >)
        requires
            old(self)@.wf(),
            params.distribution_buckets@.len() <= u32::MAX,
        ensures
            final(self)@.wf(),
            takes_effect(r, old(self)@, final(self)@, old(self)@.spec_create_dynamic_bag(params@, usable_balance)),
    {
        if params.expected_data_object_state_bloat_bond != self.data_object_state_bloat_bond_value {
            return Err(StorageError::DataObjectStateBloatBondChanged);
        }
        if params.expected_data_size_fee != self.data_object_per_mega_byte_fee {
            return Err(StorageError::DataSizeFeeChanged);
        }
        let bag_type = params.bag_id.into();
        if let Err(e) = self.validate_storage_buckets_for_dynamic_bag_type(bag_type, &params.storage_buckets) {
            return Err(e);
        }
        if let Err(e) = self.validate_distribution_buckets_for_dynamic_bag_type(bag_type, &params.distribution_buckets) {
            return Err(e);
        }
        let ghost pv = params@;
        let op = BagOperationRecord {
            bag_id: BagIdType::Dynamic(params.bag_id),
            params: BagOperationParamsTypes::Create(
                params.object_creation_list,
                params.storage_buckets,
                params.distribution_buckets,
            ),
        };
        proof {
            assert(op.params@ == BagOperationParamsView::Create(
                pv.object_creation_list,
                pv.storage_buckets,
                pv.distribution_buckets,
            ));
        }
        self.try_mutating_storage_state(params.state_bloat_bond_source_account_id, usable_balance, 0, op)
    }
}

impl StorageState {
    /// Upload new data objects (development mode; the root origin is checked by the caller).
    pub fn sudo_upload_data_objects(&mut self, params: UploadParametersRecord, usable_balance: Balance) -> (r: Result<
        BalanceTransfers,
        StorageError,
    >)
        requires
            old(self)@.wf(),
        ensures
            final(self)@.wf(),
            takes_effect(r, old(self)@, final(self)@, old(self)@.spec_upload_data_objects(params@, usable_balance)),
    {
        self.upload_data_objects(params, usable_balance)
    }

    /// Create a dynamic bag (development mode; the root origin is checked by the caller).
    pub fn sudo_create_dynamic_bag(&mut self, params: DynBagCreationParametersRecord, usable_balance: Balance) -> (r:
        Result<BalanceTransfers, StorageError>)
        requires
            old(self)@.wf(),
            params.distribution_buckets@.len() <= u32::MAX,
        ensures
            final(self)@.wf(),
            takes_effect(r, old(self)@, final(self)@, old(self)@.spec_create_dynamic_bag(params@, usable_balance)),
    {
        self.create_dynamic_bag(params, usable_balance)
    }
}

} // verus!
