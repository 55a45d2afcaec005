use lib::membership_weights::WeightInfo as MembershipWeightInfo;
use lib::storage_weights::WeightInfo as StorageWeightInfo;
use lib::weights::RuntimeDbWeight;

fn db() -> RuntimeDbWeight {
    RuntimeDbWeight { read: 25_000_000, write: 100_000_000 }
}

#[test]
fn storage_weights_follow_the_formulas() {
    let w = lib::storage_weights::SubstrateWeight { db_weight: db() };
    assert_eq!(w.delete_storage_bucket(), 29_030_000 + 3 * 25_000_000 + 100_000_000);
    assert_eq!(
        w.update_blacklist(2, 3),
        936_534_000 + 9_191_000 * 2 + 1_383_000 * 3 + 25_000_000 * (3 + 2 + 3) + 100_000_000 * (1 + 2)
    );
    assert_eq!(StorageWeightInfo::delete_storage_bucket(&()), 0);
}

#[test]
fn weights_saturate() {
    let w = lib::storage_weights::SubstrateWeight { db_weight: RuntimeDbWeight { read: u64::MAX, write: 1 } };
    assert_eq!(w.update_storage_buckets_for_bag(u32::MAX, 1), u64::MAX);
    assert_eq!(db().reads(u64::MAX), u64::MAX);
}

#[test]
fn membership_weights_follow_the_formulas() {
    let w = lib::membership_weights::SubstrateWeight { db_weight: db() };
    assert_eq!(w.update_accounts_none(), 0);
    assert_eq!(w.member_remark(), 13_000_000 + 25_000_000);
    assert_eq!(w.buy_membership_without_referrer(10, 20), 29_016_000 + 20_000 + 20_000 + 5 * 25_000_000 + 4 * 100_000_000);
    assert_eq!(MembershipWeightInfo::member_remark(&()), 0);
}
