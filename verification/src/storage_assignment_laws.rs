use vstd::prelude::*;

use crate::primitives::{AccountId, Balance};
use crate::storage_api::DynBagCreationParametersView;
use crate::storage_state::StorageStateView;
use crate::storage_bag_ops::BagOperationParamsView;
use crate::storage_types::{BagIdType, DistributionBucketView, DynamicBagIdType};

verus! {

/// Deleting a dynamic bag takes the bag off every bucket that served it: each existing
/// distribution bucket that distributed the bag, and each existing storage bucket that stored
/// it, has one assigned bag less (saturating); the other buckets keep their count, and no
/// bucket appears or disappears.
pub proof fn law_delete_bag_unassigns_buckets(
    s: StorageStateView,
    account_id: AccountId,
    dynamic_bag_id: DynamicBagIdType,
    treasury_balance: Balance,
)
    requires
        s.spec_delete_dynamic_bag(account_id, dynamic_bag_id, treasury_balance) is Ok,
    ensures
        ({
            let s2 = s.spec_delete_dynamic_bag(account_id, dynamic_bag_id, treasury_balance)->Ok_0.0;
            let b = s.bag(BagIdType::Dynamic(dynamic_bag_id).spec_key());
            &&& s2.distribution_buckets.dom() == s.distribution_buckets.dom()
            &&& forall|d: (u64, u64)| #[trigger] s.distribution_buckets.contains_key(d) ==> s2.distribution_buckets[d]
                == (DistributionBucketView {
                assigned_bags: if b.distributed_by.contains(d) {
                    s.distribution_buckets[d].assigned_bags.saturating_sub(1)
                } else {
                    s.distribution_buckets[d].assigned_bags
                },
                ..s.distribution_buckets[d]
            })
            &&& s2.storage_buckets.dom() == s.storage_buckets.dom()
            &&& forall|x: u64| #[trigger] s.storage_buckets.contains_key(x) ==> s2.storage_buckets[x].assigned_bags == if b.stored_by.contains(x) {
                s.storage_buckets[x].assigned_bags.saturating_sub(1)
            } else {
                s.storage_buckets[x].assigned_bags
            }
        }),
{
    let s2 = s.spec_delete_dynamic_bag(account_id, dynamic_bag_id, treasury_balance)->Ok_0.0;
    assert(s2.distribution_buckets.dom() =~= s.distribution_buckets.dom());
    assert(s2.storage_buckets.dom() =~= s.storage_buckets.dom());
}

/// Creating a dynamic bag assigns it to the buckets it names: each existing distribution bucket
/// among its distribution buckets, and each existing storage bucket among its storage buckets,
/// has one assigned bag more (saturating); the other buckets keep their count, and no bucket
/// appears or disappears. The new bag is distributed and stored by exactly those buckets.
pub proof fn law_create_bag_assigns_buckets(s: StorageStateView, p: DynBagCreationParametersView, usable_balance: Balance)
    requires
        s.spec_create_dynamic_bag(p, usable_balance) is Ok,
    ensures
        ({
            let s1 = s.spec_create_dynamic_bag(p, usable_balance)->Ok_0.0;
            let b1 = s1.bag(BagIdType::Dynamic(p.bag_id).spec_key());
            &&& s1.distribution_buckets.dom() == s.distribution_buckets.dom()
            &&& forall|d: (u64, u64)| #[trigger] s.distribution_buckets.contains_key(d) ==> s1.distribution_buckets[d]
                == (DistributionBucketView {
                assigned_bags: if p.distribution_buckets.contains(d) {
                    s.distribution_buckets[d].assigned_bags.saturating_add(1)
                } else {
                    s.distribution_buckets[d].assigned_bags
                },
                ..s.distribution_buckets[d]
            })
            &&& s1.storage_buckets.dom() == s.storage_buckets.dom()
            &&& forall|x: u64| #[trigger] s.storage_buckets.contains_key(x) ==> s1.storage_buckets[x].assigned_bags == if p.storage_buckets.contains(x) {
                s.storage_buckets[x].assigned_bags.saturating_add(1)
            } else {
                s.storage_buckets[x].assigned_bags
            }
            &&& b1.distributed_by == p.distribution_buckets.intersect(s.distribution_buckets.dom())
            &&& b1.stored_by == p.storage_buckets.intersect(s.storage_buckets.dom())
        }),
{
    let s1 = s.spec_create_dynamic_bag(p, usable_balance)->Ok_0.0;
    let b1 = s1.bag(BagIdType::Dynamic(p.bag_id).spec_key());
    assert(s1.distribution_buckets.dom() =~= s.distribution_buckets.dom());
    assert(s1.storage_buckets.dom() =~= s.storage_buckets.dom());
    assert(b1.distributed_by =~= p.distribution_buckets.intersect(s.distribution_buckets.dom()));
    assert(b1.stored_by =~= p.storage_buckets.intersect(s.storage_buckets.dom()));
}

/// Creating a dynamic bag and then deleting it leaves every bucket's count of assigned bags as
/// it was, when none of the bag's buckets was at the counter's bound.
pub proof fn law_create_then_delete_restores_assignments(
    s: StorageStateView,
    p: DynBagCreationParametersView,
    usable_balance: Balance,
    account_id: AccountId,
    treasury_balance: Balance,
)
    requires
        s.spec_create_dynamic_bag(p, usable_balance) is Ok,
        s.spec_create_dynamic_bag(p, usable_balance)->Ok_0.0.spec_delete_dynamic_bag(
            account_id,
            p.bag_id,
            treasury_balance,
        ) is Ok,
        forall|d: (u64, u64)| #[trigger] p.distribution_buckets.contains(d) && s.distribution_buckets.contains_key(d)
            ==> s.distribution_buckets[d].assigned_bags < u64::MAX,
        forall|x: u64| #[trigger] p.storage_buckets.contains(x) && s.storage_buckets.contains_key(x)
            ==> s.storage_buckets[x].assigned_bags < u64::MAX,
    ensures
        ({
            let s1 = s.spec_create_dynamic_bag(p, usable_balance)->Ok_0.0;
            let s2 = s1.spec_delete_dynamic_bag(account_id, p.bag_id, treasury_balance)->Ok_0.0;
            &&& s2.distribution_buckets == s.distribution_buckets
            &&& s2.storage_buckets.dom() == s.storage_buckets.dom()
            &&& forall|x: u64| #[trigger] s.storage_buckets.contains_key(x) ==> s2.storage_buckets[x].assigned_bags
                == s.storage_buckets[x].assigned_bags
        }),
{
    let s1 = s.spec_create_dynamic_bag(p, usable_balance)->Ok_0.0;
    let s2 = s1.spec_delete_dynamic_bag(account_id, p.bag_id, treasury_balance)->Ok_0.0;
    law_create_bag_assigns_buckets(s, p, usable_balance);
    law_delete_bag_unassigns_buckets(s1, account_id, p.bag_id, treasury_balance);
    assert forall|d: (u64, u64)| #[trigger] s.distribution_buckets.contains_key(d) implies s2.distribution_buckets[d]
        == s.distribution_buckets[d] by {
        assert(s1.distribution_buckets.contains_key(d));
    }
    assert(s2.distribution_buckets =~= s.distribution_buckets);
    assert forall|x: u64| #[trigger] s.storage_buckets.contains_key(x) implies s2.storage_buckets[x].assigned_bags
        == s.storage_buckets[x].assigned_bags by {
        assert(s1.storage_buckets.contains_key(x));
    }
}

/// Uploading and deleting data objects of a bag leaves the distribution buckets as they were
/// and every storage bucket's count of assigned bags unchanged.
pub proof fn law_object_operations_keep_assignments(
    s: StorageStateView,
    account_id: AccountId,
    usable_balance: Balance,
    treasury_balance: Balance,
    bag_id: BagIdType,
    uploads: Seq<crate::storage_types::DataObjectCreationParametersView>,
    removals: Set<u64>,
)
    requires
        s.spec_try_mutating_storage_state(
            account_id,
            usable_balance,
            treasury_balance,
            bag_id,
            BagOperationParamsView::Update(uploads, removals),
        ) is Ok,
    ensures
        ({
            let s2 = s.spec_try_mutating_storage_state(
                account_id,
                usable_balance,
                treasury_balance,
                bag_id,
                BagOperationParamsView::Update(uploads, removals),
            )->Ok_0.0;
            &&& s2.distribution_buckets == s.distribution_buckets
            &&& s2.storage_buckets.dom() == s.storage_buckets.dom()
            &&& forall|x: u64| #[trigger] s.storage_buckets.contains_key(x) ==> s2.storage_buckets[x].assigned_bags
                == s.storage_buckets[x].assigned_bags
        }),
{
    let s2 = s.spec_try_mutating_storage_state(
        account_id,
        usable_balance,
        treasury_balance,
        bag_id,
        BagOperationParamsView::Update(uploads, removals),
    )->Ok_0.0;
    assert(s2.distribution_buckets =~= s.distribution_buckets);
    assert(s2.storage_buckets.dom() =~= s.storage_buckets.dom());
}

} // verus!
