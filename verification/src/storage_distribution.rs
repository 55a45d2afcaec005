use vstd::prelude::*;
use std::collections::{BTreeMap, BTreeSet};

use crate::primitives::{capped, BoundCheck, DistributionBucketFamilyId, WorkerId};
use crate::sorted::{ascending, ascending_keys, ascending_vec, first_failure, lemma_first_failure_at, lemma_first_failure_none, lemma_set_len};
use crate::storage_buckets::{bound_error, changes};
use crate::storage_errors::StorageError;
use crate::storage_state::{StorageState, StorageStateView, bag_type_key, create_distribution_bucket_id};
use crate::storage_types::{
    BagIdType, BagRecord, BagView, DistributionBucketFamilyRecord, DistributionBucketIdRecord, DistributionBucketRecord,
    DistributionBucketView, DynamicBagCreationPolicyView, DynamicBagType,
};
use crate::storage_vouchers::distribution_assignments_changed;

verus! {

/// The sum of a sequence of bucket numbers.
pub open spec fn seq_sum(s: Seq<u32>) -> int
    decreases s.len(),
{
    if s.len() == 0 {
        0
    } else {
        seq_sum(s.drop_last()) + s.last()
    }
}

/// The total number of distribution buckets that a policy's families ask for (summed in family
/// order, saturating).
pub open spec fn total_family_buckets(families: Map<u64, u32>) -> u64 {
    capped(seq_sum(ascending(families.dom()).map_values(|f: u64| families[f])), u64::MAX as int) as u64
}

/// The distribution bucket IDs of the given indices in one family.
pub open spec fn family_bucket_ids(family_id: u64, indices: Set<u64>) -> Set<(u64, u64)> {
    Set::new(|b: (u64, u64)| b.0 == family_id && indices.contains(b.1))
}

/// Saturating additions of non-negative numbers add up to the capped sum.
proof fn lemma_seq_sum_push(s: Seq<u32>, x: u32)
    ensures
        seq_sum(s.push(x)) == seq_sum(s) + x,
        seq_sum(s) >= 0,
    decreases s.len(),
{
    assert(s.push(x).drop_last() =~= s);
    if s.len() > 0 {
        lemma_seq_sum_push(s.drop_last(), s.last());
        assert(s.drop_last().push(s.last()) =~= s);
    }
}

impl StorageStateView {
    /// The state with the distribution bucket `id` replaced by `b`.
    pub open spec fn with_distribution_bucket(self, id: (u64, u64), b: DistributionBucketView) -> StorageStateView {
        StorageStateView { distribution_buckets: self.distribution_buckets.insert(id, b), ..self }
    }

    /// The distribution bucket `id` changed by `f`, when it exists and `check` passes on it.
    pub open spec fn distribution_bucket_change(
        self,
        id: (u64, u64),
        check: spec_fn(DistributionBucketView) -> Result<(), StorageError>,
        f: spec_fn(DistributionBucketView) -> DistributionBucketView,
    ) -> Result<StorageStateView, StorageError> {
        if !self.distribution_buckets.contains_key(id) {
            Err(StorageError::DistributionBucketDoesntExist)
        } else {
            match check(self.distribution_buckets[id]) {
                Err(e) => Err(e),
                Ok(_) => Ok(self.with_distribution_bucket(id, f(self.distribution_buckets[id]))),
            }
        }
    }

    /// Whether the worker (whose existence in the distribution working group is
    /// `worker_exists`) can be invited to operate the bucket.
    pub open spec fn spec_provider_can_be_invited(self, bucket: DistributionBucketView, worker_id: WorkerId, worker_exists: bool) -> Result<
        (),
        StorageError,
    > {
        if !worker_exists {
            Err(StorageError::DistributionProviderOperatorDoesntExist)
        } else if bucket.pending_invitations.contains(worker_id) {
            Err(StorageError::DistributionProviderOperatorAlreadyInvited)
        } else if bucket.operators.contains(worker_id) {
            Err(StorageError::DistributionProviderOperatorSet)
        } else if bucket.pending_invitations.len() >= self.config.max_number_of_pending_invitations_per_distribution_bucket {
            Err(StorageError::MaxNumberOfPendingInvitationsLimitForDistributionBucketReached)
        } else {
            Ok(())
        }
    }

    /// Invite a distribution bucket operator.
    pub open spec fn spec_invite_distribution_bucket_operator(self, id: (u64, u64), worker_id: WorkerId, worker_exists: bool) -> Result<
        StorageStateView,
        StorageError,
    > {
        self.distribution_bucket_change(
            id,
            |b: DistributionBucketView| self.spec_provider_can_be_invited(b, worker_id, worker_exists),
            |b: DistributionBucketView|
                DistributionBucketView { pending_invitations: b.pending_invitations.insert(worker_id), ..b },
        )
    }

    /// Accept a distribution bucket invitation: the worker moves from the pending invitations
    /// to the operators.
    pub open spec fn spec_accept_distribution_bucket_invitation(self, worker_id: WorkerId, id: (u64, u64)) -> Result<
        StorageStateView,
        StorageError,
    > {
        self.distribution_bucket_change(
            id,
            |b: DistributionBucketView|
                if b.pending_invitations.contains(worker_id) {
                    Ok(())
                } else {
                    Err(StorageError::NoDistributionBucketInvitation)
                },
            |b: DistributionBucketView|
                DistributionBucketView {
                    pending_invitations: b.pending_invitations.remove(worker_id),
                    operators: b.operators.insert(worker_id),
                    ..b
                },
        )
    }

    /// Why a distribution bucket of the family cannot be removed from the bag.
    pub open spec fn distribution_remove_check(self, bag: BagView, family_id: u64) -> spec_fn(u64) -> Option<StorageError> {
        |index: u64|
            if !self.distribution_buckets.contains_key((family_id, index)) {
                Some(StorageError::DistributionBucketDoesntExist)
            } else if !bag.distributed_by.contains((family_id, index)) {
                Some(StorageError::DistributionBucketIsNotBoundToBag)
            } else {
                None
            }
    }

    /// Why a distribution bucket of the family cannot be added to the bag.
    pub open spec fn distribution_add_check(self, bag: BagView, family_id: u64) -> spec_fn(u64) -> Option<StorageError> {
        |index: u64|
            if !self.distribution_buckets.contains_key((family_id, index)) {
                Some(StorageError::DistributionBucketDoesntExist)
            } else if !self.distribution_buckets[(family_id, index)].accepting_new_bags {
                Some(StorageError::DistributionBucketDoesntAcceptNewBags)
            } else if bag.distributed_by.contains((family_id, index)) {
                Some(StorageError::DistributionBucketIsBoundToBag)
            } else {
                None
            }
    }

    /// Validate the `update_distribution_buckets_for_bag` parameters.
    pub open spec fn spec_validate_update_distribution_buckets_for_bag_params(
        self,
        bag_id: BagIdType,
        family_id: u64,
        add: Set<u64>,
        remove: Set<u64>,
    ) -> Result<(), StorageError> {
        let bag = self.bag(bag_id.spec_key());
        if add.is_empty() && remove.is_empty() {
            Err(StorageError::DistributionBucketIdCollectionsAreEmpty)
        } else if self.spec_ensure_bag_exists(bag_id) is Err {
            Err(StorageError::DynamicBagDoesntExist)
        } else if !self.distribution_bucket_families.contains_key(family_id) {
            Err(StorageError::DistributionBucketFamilyDoesntExist)
        } else if capped((bag.distributed_by.len() + add.len()) as int, usize::MAX as int) - remove.len()
            > self.distribution_buckets_per_bag_limit {
            Err(StorageError::MaxDistributionBucketNumberPerBagLimitExceeded)
        } else if first_failure(ascending(remove), self.distribution_remove_check(bag, family_id)) is Some {
            Err(first_failure(ascending(remove), self.distribution_remove_check(bag, family_id))->Some_0)
        } else if first_failure(ascending(add), self.distribution_add_check(bag, family_id)) is Some {
            Err(first_failure(ascending(add), self.distribution_add_check(bag, family_id))->Some_0)
        } else {
            Ok(())
        }
    }

    /// Update the distribution buckets of a bag within one family.
    pub open spec fn spec_update_distribution_buckets_for_bag(
        self,
        bag_id: BagIdType,
        family_id: u64,
        add: Set<u64>,
        remove: Set<u64>,
    ) -> Result<StorageStateView, StorageError> {
        match self.spec_validate_update_distribution_buckets_for_bag_params(bag_id, family_id, add, remove) {
            Err(e) => Err(e),
            Ok(_) => {
                let key = bag_id.spec_key();
                let b = self.bag(key);
                let add_ids = family_bucket_ids(family_id, add);
                let remove_ids = family_bucket_ids(family_id, remove);
                Ok(StorageStateView {
                    bags: self.bags.insert(
                        key,
                        BagView { distributed_by: b.distributed_by.union(add_ids).difference(remove_ids), ..b },
                    ),
                    distribution_buckets: distribution_assignments_changed(self.distribution_buckets, add_ids, remove_ids),
                    ..self
                })
            },
        }
    }

    /// Validate the families of a dynamic bag creation policy: the total number of buckets must
    /// satisfy the constraint and every family must exist.
    pub open spec fn spec_validate_update_families_in_dynamic_bag_creation_policy_params(self, families: Map<u64, u32>) -> Result<
        (),
        StorageError,
    > {
        if self.config.distribution_buckets_per_bag_value_constraint.spec_check(total_family_buckets(families)) != BoundCheck::Valid {
            Err(StorageError::NumberOfDistributionBucketsOutsideOfAllowedContraints)
        } else if exists|f: u64| families.contains_key(f) && !self.distribution_bucket_families.contains_key(f) {
            Err(StorageError::DistributionBucketFamilyDoesntExist)
        } else {
            Ok(())
        }
    }

    /// Create a distribution bucket family under the next family ID.
    pub open spec fn spec_create_distribution_bucket_family(self) -> Result<StorageStateView, StorageError> {
        if self.distribution_bucket_family_number >= self.config.max_distribution_bucket_family_number {
            Err(StorageError::MaxDistributionBucketFamilyNumberLimitExceeded)
        } else {
            Ok(StorageStateView {
                distribution_bucket_family_number: (self.distribution_bucket_family_number + 1) as u64,
                next_distribution_bucket_family_id: (self.next_distribution_bucket_family_id + 1) as u64,
                distribution_bucket_families: self.distribution_bucket_families.insert(
                    self.next_distribution_bucket_family_id,
                    DistributionBucketFamilyRecord { next_distribution_bucket_index: 0 },
                ),
                ..self
            })
        }
    }

    /// Delete a distribution bucket family: no bucket of it may have bags assigned and no
    /// dynamic bag creation policy may use it.
    pub open spec fn spec_delete_distribution_bucket_family(self, family_id: u64) -> Result<StorageStateView, StorageError> {
        if !self.distribution_bucket_families.contains_key(family_id) {
            Err(StorageError::DistributionBucketFamilyDoesntExist)
        } else if exists|k: (u64, u64)| self.distribution_buckets.contains_key(k) && k.0 == family_id
            && self.distribution_buckets[k].assigned_bags != 0 {
            Err(StorageError::DistributionBucketIsBoundToBag)
        } else if self.policy(DynamicBagType::Member).families.contains_key(family_id)
            || self.policy(DynamicBagType::Channel).families.contains_key(family_id) {
            Err(StorageError::DistributionFamilyBoundToBagCreationPolicy)
        } else {
            Ok(StorageStateView {
                distribution_bucket_family_number: if self.distribution_bucket_family_number > 0 {
                    (self.distribution_bucket_family_number - 1) as u64
                } else {
                    0
                },
                distribution_bucket_families: self.distribution_bucket_families.remove(family_id),
                ..self
            })
        }
    }

    /// Create a distribution bucket under the family's next bucket index.
    pub open spec fn spec_create_distribution_bucket(self, family_id: u64, accepting_new_bags: bool) -> Result<
        StorageStateView,
        StorageError,
    > {
        if !self.distribution_bucket_families.contains_key(family_id) {
            Err(StorageError::DistributionBucketFamilyDoesntExist)
        } else {
            let index = self.distribution_bucket_families[family_id].next_distribution_bucket_index;
            Ok(StorageStateView {
                distribution_bucket_families: self.distribution_bucket_families.insert(
                    family_id,
                    DistributionBucketFamilyRecord { next_distribution_bucket_index: (index + 1) as u64 },
                ),
                distribution_buckets: self.distribution_buckets.insert(
                    (family_id, index),
                    DistributionBucketView {
                        accepting_new_bags,
                        distributing: true,
                        pending_invitations: Set::empty(),
                        operators: Set::empty(),
                        assigned_bags: 0,
                    },
                ),
                ..self
            })
        }
    }
}

impl StorageState {
    /// Verify parameters for the `invite_distribution_bucket_operator` call.
    pub fn ensure_distribution_provider_can_be_invited(
        &self,
        bucket: &DistributionBucketRecord,
        worker_id: &WorkerId,
        worker_exists: bool,
    ) -> (r: Result<(), StorageError>)
        ensures
            r == self@.spec_provider_can_be_invited(bucket@, *worker_id, worker_exists),
    {
        if !worker_exists {
            return Err(StorageError::DistributionProviderOperatorDoesntExist);
        }
        if bucket.pending_invitations.contains(worker_id) {
            return Err(StorageError::DistributionProviderOperatorAlreadyInvited);
        }
        if bucket.operators.contains(worker_id) {
            return Err(StorageError::DistributionProviderOperatorSet);
        }
        proof {
            lemma_set_len(&bucket.pending_invitations);
        }
        if crate::primitives::saturated_u64(bucket.pending_invitations.len())
            >= self.config.max_number_of_pending_invitations_per_distribution_bucket {
            return Err(StorageError::MaxNumberOfPendingInvitationsLimitForDistributionBucketReached);
        }
        Ok(())
    }

    /// Ensures validity of the `update_distribution_buckets_for_bag` parameters.
    pub fn validate_update_distribution_buckets_for_bag_params(
        &self,
        bag_id: &BagIdType,
        family_id: &DistributionBucketFamilyId,
        add_buckets: &BTreeSet<u64>,
        remove_buckets: &BTreeSet<u64>,
    ) -> (r: Result<(), StorageError>)
        ensures
            r == self@.spec_validate_update_distribution_buckets_for_bag_params(
                *bag_id,
                *family_id,
                add_buckets@,
                remove_buckets@,
            ),
    {
        if add_buckets.is_empty() && remove_buckets.is_empty() {
            return Err(StorageError::DistributionBucketIdCollectionsAreEmpty);
        }
        let bag = match self.ensure_bag_exists(bag_id) {
            Err(e) => return Err(e),
            Ok(b) => b,
        };
        if let Err(e) = self.ensure_distribution_bucket_family_exists(family_id) {
            return Err(e);
        }
        proof {
            crate::sorted::lemma_pair_set_len(&bag.distributed_by);
            lemma_set_len(add_buckets);
            lemma_set_len(remove_buckets);
        }
        let new_bucket_number: usize = bag.distributed_by.len().saturating_add(add_buckets.len()).saturating_sub(
            remove_buckets.len(),
        );
        if crate::primitives::saturated_u64(new_bucket_number) > self.distribution_buckets_per_bag_limit {
            return Err(StorageError::MaxDistributionBucketNumberPerBagLimitExceeded);
        }
        let ghost bv = bag@;
        let ghost rm = self@.distribution_remove_check(bv, *family_id);
        let removes = ascending_vec(remove_buckets);
        let mut i: usize = 0;
        while i < removes.len()
            invariant
                rm == self@.distribution_remove_check(bv, *family_id),
                bv == bag@,
                !(add_buckets@.is_empty() && remove_buckets@.is_empty()),
                self@.spec_ensure_bag_exists(*bag_id) is Ok,
                bv == self@.bag(bag_id.spec_key()),
                self@.distribution_bucket_families.contains_key(*family_id),
                !(capped((bv.distributed_by.len() + add_buckets@.len()) as int, usize::MAX as int)
                    - remove_buckets@.len() > self@.distribution_buckets_per_bag_limit),
                removes@ == ascending(remove_buckets@),
                i <= removes@.len(),
                forall|j: int| 0 <= j < i ==> rm(#[trigger] removes@[j]) is None,
            decreases removes@.len() - i,
        {
            let index: u64 = removes[i];
            let bucket_id = create_distribution_bucket_id(*family_id, index);
            let e = if let Err(e) = self.ensure_distribution_bucket_exists(&bucket_id) {
                Some(e)
            } else if !bag.distributed_by.contains(&bucket_id.pair()) {
                Some(StorageError::DistributionBucketIsNotBoundToBag)
            } else {
                None
            };
            proof {
                assert(e == rm(removes@[i as int]));
            }
            if let Some(err) = e {
                proof {
                    lemma_first_failure_at(removes@, rm, i as int);
                }
                return Err(err);
            }
            i = i + 1;
        }
        proof {
            lemma_first_failure_none(removes@, rm);
        }
        let ghost ad = self@.distribution_add_check(bv, *family_id);
        let adds = ascending_vec(add_buckets);
        let mut i: usize = 0;
        while i < adds.len()
            invariant
                ad == self@.distribution_add_check(bv, *family_id),
                bv == bag@,
                !(add_buckets@.is_empty() && remove_buckets@.is_empty()),
                self@.spec_ensure_bag_exists(*bag_id) is Ok,
                bv == self@.bag(bag_id.spec_key()),
                self@.distribution_bucket_families.contains_key(*family_id),
                !(capped((bv.distributed_by.len() + add_buckets@.len()) as int, usize::MAX as int)
                    - remove_buckets@.len() > self@.distribution_buckets_per_bag_limit),
                first_failure(ascending(remove_buckets@), self@.distribution_remove_check(bv, *family_id)) is None,
                adds@ == ascending(add_buckets@),
                i <= adds@.len(),
                forall|j: int| 0 <= j < i ==> ad(#[trigger] adds@[j]) is None,
            decreases adds@.len() - i,
        {
            let index: u64 = adds[i];
            let bucket_id = create_distribution_bucket_id(*family_id, index);
            let e = match self.ensure_distribution_bucket_exists(&bucket_id) {
                Err(e) => Some(e),
                Ok(bucket) => if !bucket.accepting_new_bags {
                    Some(StorageError::DistributionBucketDoesntAcceptNewBags)
                } else if bag.distributed_by.contains(&bucket_id.pair()) {
                    Some(StorageError::DistributionBucketIsBoundToBag)
                } else {
                    None
                },
            };
            proof {
                assert(e == ad(adds@[i as int]));
            }
            if let Some(err) = e {
                proof {
                    lemma_first_failure_at(adds@, ad, i as int);
                }
                return Err(err);
            }
            i = i + 1;
        }
        proof {
            lemma_first_failure_none(adds@, ad);
        }
        Ok(())
    }

    /// Ensures validity of the `update_families_in_dynamic_bag_creation_policy` parameters.
    pub fn validate_update_families_in_dynamic_bag_creation_policy_params(&self, families: &BTreeMap<u64, u32>) -> (r:
        Result<(), StorageError>)
        ensures
            r == self@.spec_validate_update_families_in_dynamic_bag_creation_policy_params(families@),
    {
        let keys = ascending_keys(families);
        let ghost m = families@;
        let ghost vals = keys@.map_values(|f: u64| m[f]);
        let mut number_of_distribution_buckets: u64 = 0;
        let mut i: usize = 0;
        while i < keys.len()
            invariant
                m == families@,
                keys@ == ascending(m.dom()),
                keys@.to_set() == m.dom(),
                vals == keys@.map_values(|f: u64| m[f]),
                i <= keys@.len(),
                number_of_distribution_buckets == capped(seq_sum(vals.take(i as int)), u64::MAX as int),
            decreases keys@.len() - i,
        {
            proof {
                assert(keys@.to_set().contains(keys@[i as int]));
                assert(vals.take(i + 1) =~= vals.take(i as int).push(vals[i as int]));
                lemma_seq_sum_push(vals.take(i as int), vals[i as int]);
            }
            let num: u32 = *families.get(&keys[i]).unwrap();
            number_of_distribution_buckets = number_of_distribution_buckets.saturating_add(num as u64);
            i = i + 1;
        }
        proof {
            crate::sorted::lemma_take_all(vals);
        }
        match self.config.distribution_buckets_per_bag_value_constraint.check(number_of_distribution_buckets) {
            BoundCheck::Valid => {},
            _ => return Err(StorageError::NumberOfDistributionBucketsOutsideOfAllowedContraints),
        }
        let mut i: usize = 0;
        while i < keys.len()
            invariant
                m == families@,
                keys@.to_set() == m.dom(),
                self@.config.distribution_buckets_per_bag_value_constraint.spec_check(total_family_buckets(m)) == BoundCheck::Valid,
                i <= keys@.len(),
                forall|j: int| 0 <= j < i ==> self@.distribution_bucket_families.contains_key(#[trigger] keys@[j]),
            decreases keys@.len() - i,
        {
            if let Err(e) = self.ensure_distribution_bucket_family_exists(&keys[i]) {
                proof {
                    assert(keys@.to_set().contains(keys@[i as int]));
                }
                return Err(e);
            }
            i = i + 1;
        }
        proof {
            assert forall|f: u64| m.contains_key(f) implies self@.distribution_bucket_families.contains_key(f) by {
                assert(keys@.to_set().contains(f));
                let j = choose|j: int| 0 <= j < keys@.len() && keys@[j] == f;
                assert(self@.distribution_bucket_families.contains_key(keys@[j]));
            }
        }
        Ok(())
    }

    /// Create a distribution bucket family.
    pub fn create_distribution_bucket_family(&mut self) -> (r: Result<(), StorageError>)
        requires
            old(self).next_distribution_bucket_family_id < u64::MAX,
        ensures
            changes(r, old(self)@, final(self)@, old(self)@.spec_create_distribution_bucket_family()),
    {
        if self.distribution_bucket_family_number >= self.config.max_distribution_bucket_family_number {
            return Err(StorageError::MaxDistributionBucketFamilyNumberLimitExceeded);
        }
        self.increment_distribution_family_number();
        let family = DistributionBucketFamilyRecord::default();
        let family_id = self.next_distribution_bucket_family_id;
        self.next_distribution_bucket_family_id = family_id + 1;
        self.distribution_bucket_families.insert(family_id, family);
        Ok(())
    }

    /// Deletes a distribution bucket family.
    pub fn delete_distribution_bucket_family(&mut self, family_id: DistributionBucketFamilyId) -> (r: Result<
        (),
        StorageError,
    >)
        ensures
            changes(r, old(self)@, final(self)@, old(self)@.spec_delete_distribution_bucket_family(family_id)),
    {
        if let Err(e) = self.ensure_distribution_bucket_family_exists(&family_id) {
            return Err(e);
        }
        if !self.no_bags_assigned(&family_id) {
            return Err(StorageError::DistributionBucketIsBoundToBag);
        }
        if let Err(e) = self.check_dynamic_bag_creation_policy_for_dependencies(&family_id, DynamicBagType::Member) {
            return Err(e);
        }
        if let Err(e) = self.check_dynamic_bag_creation_policy_for_dependencies(&family_id, DynamicBagType::Channel) {
            return Err(e);
        }
        self.decrement_distribution_family_number();
        self.distribution_bucket_families.remove(&family_id);
        Ok(())
    }

    /// Create a distribution bucket in a family.
    pub fn create_distribution_bucket(&mut self, family_id: DistributionBucketFamilyId, accepting_new_bags: bool) -> (r:
        Result<(), StorageError>)
        requires
            old(self)@.distribution_bucket_families.contains_key(family_id)
                ==> old(self)@.distribution_bucket_families[family_id].next_distribution_bucket_index < u64::MAX,
        ensures
            changes(r, old(self)@, final(self)@, old(self)@.spec_create_distribution_bucket(family_id, accepting_new_bags)),
    {
        let mut family = match self.ensure_distribution_bucket_family_exists(&family_id) {
            Err(e) => return Err(e),
            Ok(f) => f,
        };
        let bucket = DistributionBucketRecord {
            accepting_new_bags,
            distributing: true,
            pending_invitations: BTreeSet::new(),
            operators: BTreeSet::new(),
            assigned_bags: 0,
        };
        let bucket_index = family.next_distribution_bucket_index;
        family.increment_next_distribution_bucket_index_counter();
        self.distribution_bucket_families.insert(family_id, family);
        let ghost prev = self.distribution_buckets@;
        self.distribution_buckets.insert((family_id, bucket_index), bucket);
        proof {
            assert(self.distribution_buckets@.map_values(|b: DistributionBucketRecord| b@) =~= prev.map_values(
                |b: DistributionBucketRecord| b@,
            ).insert((family_id, bucket_index), bucket@));
        }
        Ok(())
    }

    /// Stores a changed distribution bucket.
    fn put_distribution_bucket(&mut self, id: (u64, u64), bucket: DistributionBucketRecord)
        ensures
            final(self)@ == old(self)@.with_distribution_bucket(id, bucket@),
    {
        let ghost prev = self.distribution_buckets@;
        self.distribution_buckets.insert(id, bucket);
        proof {
            assert(self.distribution_buckets@.map_values(|b: DistributionBucketRecord| b@) =~= prev.map_values(
                |b: DistributionBucketRecord| b@,
            ).insert(id, bucket@));
        }
    }

    /// Updates a distribution bucket 'accepting new bags' flag.
    pub fn update_distribution_bucket_status(&mut self, bucket_id: DistributionBucketIdRecord, accepting_new_bags: bool) -> (r:
        Result<(), StorageError>)
        ensures
            changes(
                r,
                old(self)@,
                final(self)@,
                old(self)@.distribution_bucket_change(
                    bucket_id.spec_pair(),
                    |b: DistributionBucketView| Ok(()),
                    |b: DistributionBucketView| DistributionBucketView { accepting_new_bags, ..b },
                ),
            ),
    {
        let mut bucket = match self.ensure_distribution_bucket_exists(&bucket_id) {
            Err(e) => return Err(e),
            Ok(b) => b,
        };
        bucket.accepting_new_bags = accepting_new_bags;
        self.put_distribution_bucket(bucket_id.pair(), bucket);
        Ok(())
    }

    /// Delete distribution bucket. Must be empty: no bags assigned and no operators.
    pub fn delete_distribution_bucket(&mut self, bucket_id: DistributionBucketIdRecord) -> (r: Result<(), StorageError>)
        ensures
            changes(
                r,
                old(self)@,
                final(self)@,
                if !old(self)@.distribution_buckets.contains_key(bucket_id.spec_pair()) {
                    Err(StorageError::DistributionBucketDoesntExist)
                } else if old(self)@.distribution_buckets[bucket_id.spec_pair()].assigned_bags != 0 {
                    Err(StorageError::DistributionBucketIsBoundToBag)
                } else if !old(self)@.distribution_buckets[bucket_id.spec_pair()].operators.is_empty() {
                    Err(StorageError::DistributionProviderOperatorSet)
                } else {
                    Ok(StorageStateView {
                        distribution_buckets: old(self)@.distribution_buckets.remove(bucket_id.spec_pair()),
                        ..old(self)@
                    })
                },
            ),
    {
        let bucket = match self.ensure_distribution_bucket_exists(&bucket_id) {
            Err(e) => return Err(e),
            Ok(b) => b,
        };
        if !bucket.no_bags_assigned() {
            return Err(StorageError::DistributionBucketIsBoundToBag);
        }
        if !bucket.operators.is_empty() {
            return Err(StorageError::DistributionProviderOperatorSet);
        }
        let ghost prev = self.distribution_buckets@;
        self.distribution_buckets.remove(&bucket_id.pair());
        proof {
            assert(self.distribution_buckets@.map_values(|b: DistributionBucketRecord| b@) =~= prev.map_values(
                |b: DistributionBucketRecord| b@,
            ).remove(bucket_id.spec_pair()));
        }
        Ok(())
    }

    /// Updates distribution buckets for a bag (within one family).
    pub fn update_distribution_buckets_for_bag(
        &mut self,
        bag_id: BagIdType,
        family_id: DistributionBucketFamilyId,
        add_buckets_indices: BTreeSet<u64>,
        remove_buckets_indices: BTreeSet<u64>,
    ) -> (r: Result<(), StorageError>)
        ensures
            changes(
                r,
                old(self)@,
                final(self)@,
                old(self)@.spec_update_distribution_buckets_for_bag(
                    bag_id,
                    family_id,
                    add_buckets_indices@,
                    remove_buckets_indices@,
                ),
            ),
    {
        if let Err(e) = self.validate_update_distribution_buckets_for_bag_params(
            &bag_id,
            &family_id,
            &add_buckets_indices,
            &remove_buckets_indices,
        ) {
            return Err(e);
        }
        let add_buckets_ids = family_bucket_id_set(family_id, &add_buckets_indices);
        let remove_buckets_ids = family_bucket_id_set(family_id, &remove_buckets_indices);
        let mut bag = self.bag(&bag_id);
        let mut adds = add_buckets_ids.clone();
        bag.update_distribution_buckets(&mut adds, &remove_buckets_ids);
        let key = bag_id.key();
        let ghost prev = self.bags@;
        self.bags.insert(key, bag);
        proof {
            assert(self.bags@.map_values(|b: BagRecord| b@) =~= prev.map_values(|b: BagRecord| b@).insert(key, bag@));
        }
        self.change_bag_assignments_for_distribution_buckets(&add_buckets_ids, &remove_buckets_ids);
        Ok(())
    }

    /// Updates "Distribution buckets per bag" number limit, which must satisfy the configured
    /// constraint.
    pub fn update_distribution_buckets_per_bag_limit(&mut self, new_limit: u64) -> (r: Result<(), StorageError>)
        ensures
            changes(
                r,
                old(self)@,
                final(self)@,
                match bound_error(
                    old(self)@.config.distribution_buckets_per_bag_value_constraint.spec_check(new_limit),
                    StorageError::DistributionBucketsPerBagLimitTooLow,
                    StorageError::DistributionBucketsPerBagLimitTooHigh,
                ) {
                    Some(e) => Err(e),
                    None => Ok(StorageStateView { distribution_buckets_per_bag_limit: new_limit, ..old(self)@ }),
                },
            ),
    {
        match self.config.distribution_buckets_per_bag_value_constraint.check(new_limit) {
            BoundCheck::TooLow => return Err(StorageError::DistributionBucketsPerBagLimitTooLow),
            BoundCheck::TooHigh => return Err(StorageError::DistributionBucketsPerBagLimitTooHigh),
            BoundCheck::Valid => {},
        }
        self.distribution_buckets_per_bag_limit = new_limit;
        Ok(())
    }

    /// Updates 'distributing' flag for the distributing flag.
    pub fn update_distribution_bucket_mode(&mut self, bucket_id: DistributionBucketIdRecord, distributing: bool) -> (r:
        Result<(), StorageError>)
        ensures
            changes(
                r,
                old(self)@,
                final(self)@,
                old(self)@.distribution_bucket_change(
                    bucket_id.spec_pair(),
                    |b: DistributionBucketView| Ok(()),
                    |b: DistributionBucketView| DistributionBucketView { distributing, ..b },
                ),
            ),
    {
        let mut bucket = match self.ensure_distribution_bucket_exists(&bucket_id) {
            Err(e) => return Err(e),
            Ok(b) => b,
        };
        bucket.distributing = distributing;
        self.put_distribution_bucket(bucket_id.pair(), bucket);
        Ok(())
    }

    /// Update number of distributed buckets used in given dynamic bag creation policy (the
    /// policy is created from the default one when none is stored).
    pub fn update_families_in_dynamic_bag_creation_policy(
        &mut self,
        dynamic_bag_type: DynamicBagType,
        families: BTreeMap<u64, u32>,
    ) -> (r: Result<(), StorageError>)
        ensures
            changes(
                r,
                old(self)@,
                final(self)@,
                match old(self)@.spec_validate_update_families_in_dynamic_bag_creation_policy_params(families@) {
                    Err(e) => Err(e),
                    Ok(_) => Ok(StorageStateView {
                        dynamic_bag_creation_policies: old(self)@.dynamic_bag_creation_policies.insert(
                            bag_type_key(dynamic_bag_type),
                            DynamicBagCreationPolicyView { families: families@, ..old(self)@.policy(dynamic_bag_type) },
                        ),
                        ..old(self)@
                    }),
                },
            ),
    {
        if let Err(e) = self.validate_update_families_in_dynamic_bag_creation_policy_params(&families) {
            return Err(e);
        }
        let mut new_policy = self.get_dynamic_bag_creation_policy(dynamic_bag_type);
        new_policy.families = families;
        let key: u64 = match dynamic_bag_type {
            DynamicBagType::Member => 0,
            DynamicBagType::Channel => 1,
        };
        let ghost prev = self.dynamic_bag_creation_policies@;
        self.dynamic_bag_creation_policies.insert(key, new_policy);
        proof {
            assert(self@.dynamic_bag_creation_policies =~= prev.map_values(
                |p: crate::storage_types::DynamicBagCreationPolicy| p@,
            ).insert(key, new_policy@));
        }
        Ok(())
    }

    /// Invites a distribution bucket operator.
    /// `worker_exists`: whether the distribution working group has the worker.
    pub fn invite_distribution_bucket_operator(
        &mut self,
        bucket_id: DistributionBucketIdRecord,
        operator_worker_id: WorkerId,
        worker_exists: bool,
    ) -> (r: Result<(), StorageError>)
        ensures
            changes(
                r,
                old(self)@,
                final(self)@,
                old(self)@.spec_invite_distribution_bucket_operator(bucket_id.spec_pair(), operator_worker_id, worker_exists),
            ),
    {
        let mut bucket = match self.ensure_distribution_bucket_exists(&bucket_id) {
            Err(e) => return Err(e),
            Ok(b) => b,
        };
        if let Err(e) = self.ensure_distribution_provider_can_be_invited(&bucket, &operator_worker_id, worker_exists) {
            return Err(e);
        }
        bucket.pending_invitations.insert(operator_worker_id);
        self.put_distribution_bucket(bucket_id.pair(), bucket);
        Ok(())
    }

    /// Cancel pending invite. Must be pending.
    pub fn cancel_distribution_bucket_operator_invite(
        &mut self,
        bucket_id: DistributionBucketIdRecord,
        operator_worker_id: WorkerId,
    ) -> (r: Result<(), StorageError>)
        ensures
            changes(
                r,
                old(self)@,
                final(self)@,
                old(self)@.distribution_bucket_change(
                    bucket_id.spec_pair(),
                    |b: DistributionBucketView|
                        if b.pending_invitations.contains(operator_worker_id) {
                            Ok(())
                        } else {
                            Err(StorageError::NoDistributionBucketInvitation)
                        },
                    |b: DistributionBucketView|
                        DistributionBucketView { pending_invitations: b.pending_invitations.remove(operator_worker_id), ..b },
                ),
            ),
    {
        let mut bucket = match self.ensure_distribution_bucket_exists(&bucket_id) {
            Err(e) => return Err(e),
            Ok(b) => b,
        };
        if !bucket.pending_invitations.contains(&operator_worker_id) {
            return Err(StorageError::NoDistributionBucketInvitation);
        }
        bucket.pending_invitations.remove(&operator_worker_id);
        self.put_distribution_bucket(bucket_id.pair(), bucket);
        Ok(())
    }

    /// Removes distribution bucket operator.
    pub fn remove_distribution_bucket_operator(
        &mut self,
        bucket_id: DistributionBucketIdRecord,
        operator_worker_id: WorkerId,
    ) -> (r: Result<(), StorageError>)
        ensures
            changes(
                r,
                old(self)@,
                final(self)@,
                old(self)@.distribution_bucket_change(
                    bucket_id.spec_pair(),
                    |b: DistributionBucketView|
                        if b.operators.contains(operator_worker_id) {
                            Ok(())
                        } else {
                            Err(StorageError::MustBeDistributionProviderOperatorForBucket)
                        },
                    |b: DistributionBucketView| DistributionBucketView { operators: b.operators.remove(operator_worker_id), ..b },
                ),
            ),
    {
        let mut bucket = match self.ensure_distribution_bucket_exists(&bucket_id) {
            Err(e) => return Err(e),
            Ok(b) => b,
        };
        if !bucket.operators.contains(&operator_worker_id) {
            return Err(StorageError::MustBeDistributionProviderOperatorForBucket);
        }
        bucket.operators.remove(&operator_worker_id);
        self.put_distribution_bucket(bucket_id.pair(), bucket);
        Ok(())
    }

    /// Set distribution bucket family metadata: the family must exist; the state does not
    /// change (the metadata goes to the event).
    pub fn set_distribution_bucket_family_metadata(&self, family_id: DistributionBucketFamilyId, metadata: &Vec<u8>) -> (r:
        Result<(), StorageError>)
        ensures
            r == (if self@.distribution_bucket_families.contains_key(family_id) {
                Ok::<(), StorageError>(())
            } else {
                Err(StorageError::DistributionBucketFamilyDoesntExist)
            }),
    {
        match self.ensure_distribution_bucket_family_exists(&family_id) {
            Err(e) => Err(e),
            Ok(_) => Ok(()),
        }
    }

    /// Accept pending invite: the worker moves from the pending invitations to the operators.
    pub fn accept_distribution_bucket_invitation(&mut self, worker_id: WorkerId, bucket_id: DistributionBucketIdRecord) -> (r:
        Result<(), StorageError>)
        ensures
            changes(
                r,
                old(self)@,
                final(self)@,
                old(self)@.spec_accept_distribution_bucket_invitation(worker_id, bucket_id.spec_pair()),
            ),
    {
        let mut bucket = match self.ensure_distribution_bucket_exists(&bucket_id) {
            Err(e) => return Err(e),
            Ok(b) => b,
        };
        if !bucket.pending_invitations.contains(&worker_id) {
            return Err(StorageError::NoDistributionBucketInvitation);
        }
        bucket.pending_invitations.remove(&worker_id);
        bucket.operators.insert(worker_id);
        self.put_distribution_bucket(bucket_id.pair(), bucket);
        Ok(())
    }

    /// Set distribution operator metadata: the worker must operate the bucket; the state does
    /// not change (the metadata goes to the event).
    pub fn set_distribution_operator_metadata(
        &self,
        worker_id: WorkerId,
        bucket_id: DistributionBucketIdRecord,
        metadata: &Vec<u8>,
    ) -> (r: Result<(), StorageError>)
        ensures
            r == (if !self@.distribution_buckets.contains_key(bucket_id.spec_pair()) {
                Err(StorageError::DistributionBucketDoesntExist)
            } else if !self@.distribution_buckets[bucket_id.spec_pair()].operators.contains(worker_id) {
                Err(StorageError::MustBeDistributionProviderOperatorForBucket)
            } else {
                Ok(())
            }),
    {
        let bucket = match self.ensure_distribution_bucket_exists(&bucket_id) {
            Err(e) => return Err(e),
            Ok(b) => b,
        };
        if !bucket.operators.contains(&worker_id) {
            return Err(StorageError::MustBeDistributionProviderOperatorForBucket);
        }
        Ok(())
    }

    /// A remark of the distribution operator: the worker must operate the bucket; the state
    /// does not change (the message goes to the event).
    pub fn distribution_operator_remark(
        &self,
        worker_id: WorkerId,
        distribution_bucket_id: DistributionBucketIdRecord,
        msg: &Vec<u8>,
    ) -> (r: Result<(), StorageError>)
        ensures
            r == (if !self@.distribution_buckets.contains_key(distribution_bucket_id.spec_pair()) {
                Err(StorageError::DistributionBucketDoesntExist)
            } else if !self@.distribution_buckets[distribution_bucket_id.spec_pair()].operators.contains(worker_id) {
                Err(StorageError::MustBeDistributionProviderOperatorForBucket)
            } else {
                Ok(())
            }),
    {
        self.set_distribution_operator_metadata(worker_id, distribution_bucket_id, msg)
    }
}

/// The distribution bucket IDs of the given indices in one family.
pub fn family_bucket_id_set(family_id: u64, indices: &BTreeSet<u64>) -> (r: BTreeSet<(u64, u64)>)
    ensures
        r@ == family_bucket_ids(family_id, indices@),
{
    let q = ascending_vec(indices);
    let mut r: BTreeSet<(u64, u64)> = BTreeSet::new();
    let mut i: usize = 0;
    while i < q.len()
        invariant
            q@.to_set() == indices@,
            i <= q@.len(),
            r@ == family_bucket_ids(family_id, q@.take(i as int).to_set()),
        decreases q@.len() - i,
    {
        proof {
            crate::sorted::lemma_take_succ_to_set(q@, i as int);
        }
        r.insert((family_id, q[i]));
        proof {
            assert(r@ =~= family_bucket_ids(family_id, q@.take(i + 1).to_set()));
        }
        i = i + 1;
    }
    proof {
        crate::sorted::lemma_take_all(q@);
    }
    r
}

} // verus!
