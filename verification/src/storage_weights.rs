use vstd::prelude::*;

use crate::weights::{RuntimeDbWeight, Weight, add_weight, capped_weight, mul_weight};

verus! {

/// Weight functions needed for storage.
pub trait WeightInfo {
    /// The weight of `delete_storage_bucket`.
    fn delete_storage_bucket(&self) -> Weight;

    /// The weight of `update_uploading_blocked_status`.
    fn update_uploading_blocked_status(&self) -> Weight;

    /// The weight of `update_data_size_fee`.
    fn update_data_size_fee(&self) -> Weight;

    /// The weight of `update_storage_buckets_per_bag_limit`.
    fn update_storage_buckets_per_bag_limit(&self) -> Weight;

    /// The weight of `update_storage_buckets_voucher_max_limits`.
    fn update_storage_buckets_voucher_max_limits(&self) -> Weight;

    /// The weight of `update_data_object_state_bloat_bond`.
    fn update_data_object_state_bloat_bond(&self) -> Weight;

    /// The weight of `update_number_of_storage_buckets_in_dynamic_bag_creation_policy`.
    fn update_number_of_storage_buckets_in_dynamic_bag_creation_policy(&self) -> Weight;

    /// The weight of `update_blacklist`.
    fn update_blacklist(&self, i: u32, j: u32) -> Weight;

    /// The weight of `create_storage_bucket`.
    fn create_storage_bucket(&self) -> Weight;

    /// The weight of `update_storage_buckets_for_bag`.
    fn update_storage_buckets_for_bag(&self, i: u32, j: u32) -> Weight;

    /// The weight of `cancel_storage_bucket_operator_invite`.
    fn cancel_storage_bucket_operator_invite(&self) -> Weight;

    /// The weight of `invite_storage_bucket_operator`.
    fn invite_storage_bucket_operator(&self) -> Weight;

    /// The weight of `remove_storage_bucket_operator`.
    fn remove_storage_bucket_operator(&self) -> Weight;

    /// The weight of `update_storage_bucket_status`.
    fn update_storage_bucket_status(&self) -> Weight;

    /// The weight of `set_storage_bucket_voucher_limits`.
    fn set_storage_bucket_voucher_limits(&self) -> Weight;

    /// The weight of `accept_storage_bucket_invitation`.
    fn accept_storage_bucket_invitation(&self) -> Weight;

    /// The weight of `set_storage_operator_metadata`.
    fn set_storage_operator_metadata(&self, _i: u32) -> Weight;

    /// The weight of `accept_pending_data_objects`.
    fn accept_pending_data_objects(&self, i: u32) -> Weight;

    /// The weight of `create_distribution_bucket_family`.
    fn create_distribution_bucket_family(&self) -> Weight;

    /// The weight of `delete_distribution_bucket_family`.
    fn delete_distribution_bucket_family(&self) -> Weight;

    /// The weight of `create_distribution_bucket`.
    fn create_distribution_bucket(&self) -> Weight;

    /// The weight of `update_distribution_bucket_status`.
    fn update_distribution_bucket_status(&self) -> Weight;

    /// The weight of `delete_distribution_bucket`.
    fn delete_distribution_bucket(&self) -> Weight;

    /// The weight of `update_distribution_buckets_for_bag`.
    fn update_distribution_buckets_for_bag(&self, i: u32, j: u32) -> Weight;

    /// The weight of `update_distribution_buckets_per_bag_limit`.
    fn update_distribution_buckets_per_bag_limit(&self) -> Weight;

    /// The weight of `update_distribution_bucket_mode`.
    fn update_distribution_bucket_mode(&self) -> Weight;

    /// The weight of `update_families_in_dynamic_bag_creation_policy`.
    fn update_families_in_dynamic_bag_creation_policy(&self, i: u32) -> Weight;

    /// The weight of `invite_distribution_bucket_operator`.
    fn invite_distribution_bucket_operator(&self) -> Weight;

    /// The weight of `cancel_distribution_bucket_operator_invite`.
    fn cancel_distribution_bucket_operator_invite(&self) -> Weight;

    /// The weight of `remove_distribution_bucket_operator`.
    fn remove_distribution_bucket_operator(&self) -> Weight;

    /// The weight of `set_distribution_bucket_family_metadata`.
    fn set_distribution_bucket_family_metadata(&self, _i: u32) -> Weight;

    /// The weight of `accept_distribution_bucket_invitation`.
    fn accept_distribution_bucket_invitation(&self) -> Weight;

    /// The weight of `set_distribution_operator_metadata`.
    fn set_distribution_operator_metadata(&self, i: u32) -> Weight;

    /// The weight of `storage_operator_remark`.
    fn storage_operator_remark(&self, i: u32) -> Weight;

    /// The weight of `distribution_operator_remark`.
    fn distribution_operator_remark(&self, i: u32) -> Weight;
}

/// Weights for storage measured on the reference hardware: a base weight, a weight per item
/// and the weight of the storage reads and writes.
#[derive(Clone, Copy, Debug, PartialEq, Eq, Structural)]
pub struct SubstrateWeight {
    /// The weight of one storage read and one storage write.
    pub db_weight: RuntimeDbWeight,
}

impl WeightInfo for SubstrateWeight {
    fn delete_storage_bucket(&self) -> (r: Weight)
        ensures
            r == capped_weight(29_030_000int + self.db_weight.read * 3 + self.db_weight.write * 1),
    {
        let mut acc: Weight = 29_030_000;
        let ghost mut exact: int = 29_030_000int;
        let t = self.db_weight.reads(3);
        acc = add_weight(acc, t, Ghost(exact), Ghost(self.db_weight.read * 3));
        proof {
            exact = exact + self.db_weight.read * 3;
        }
        let t = self.db_weight.writes(1);
        acc = add_weight(acc, t, Ghost(exact), Ghost(self.db_weight.write * 1));
        proof {
            exact = exact + self.db_weight.write * 1;
        }
        acc
    }

    fn update_uploading_blocked_status(&self) -> (r: Weight)
        ensures
            r == capped_weight(23_890_000int + self.db_weight.read * 2 + self.db_weight.write * 1),
    {
        let mut acc: Weight = 23_890_000;
        let ghost mut exact: int = 23_890_000int;
        let t = self.db_weight.reads(2);
        acc = add_weight(acc, t, Ghost(exact), Ghost(self.db_weight.read * 2));
        proof {
            exact = exact + self.db_weight.read * 2;
        }
        let t = self.db_weight.writes(1);
        acc = add_weight(acc, t, Ghost(exact), Ghost(self.db_weight.write * 1));
        proof {
            exact = exact + self.db_weight.write * 1;
        }
        acc
    }

    fn update_data_size_fee(&self) -> (r: Weight)
        ensures
            r == capped_weight(24_220_000int + self.db_weight.read * 2 + self.db_weight.write * 1),
    {
        let mut acc: Weight = 24_220_000;
        let ghost mut exact: int = 24_220_000int;
        let t = self.db_weight.reads(2);
        acc = add_weight(acc, t, Ghost(exact), Ghost(self.db_weight.read * 2));
        proof {
            exact = exact + self.db_weight.read * 2;
        }
        let t = self.db_weight.writes(1);
        acc = add_weight(acc, t, Ghost(exact), Ghost(self.db_weight.write * 1));
        proof {
            exact = exact + self.db_weight.write * 1;
        }
        acc
    }

    fn update_storage_buckets_per_bag_limit(&self) -> (r: Weight)
        ensures
            r == capped_weight(24_040_000int + self.db_weight.read * 2 + self.db_weight.write * 1),
    {
        let mut acc: Weight = 24_040_000;
        let ghost mut exact: int = 24_040_000int;
        let t = self.db_weight.reads(2);
        acc = add_weight(acc, t, Ghost(exact), Ghost(self.db_weight.read * 2));
        proof {
            exact = exact + self.db_weight.read * 2;
        }
        let t = self.db_weight.writes(1);
        acc = add_weight(acc, t, Ghost(exact), Ghost(self.db_weight.write * 1));
        proof {
            exact = exact + self.db_weight.write * 1;
        }
        acc
    }

    fn update_storage_buckets_voucher_max_limits(&self) -> (r: Weight)
        ensures
            r == capped_weight(25_380_000int + self.db_weight.read * 2 + self.db_weight.write * 2),
    {
        let mut acc: Weight = 25_380_000;
        let ghost mut exact: int = 25_380_000int;
        let t = self.db_weight.reads(2);
        acc = add_weight(acc, t, Ghost(exact), Ghost(self.db_weight.read * 2));
        proof {
            exact = exact + self.db_weight.read * 2;
        }
        let t = self.db_weight.writes(2);
        acc = add_weight(acc, t, Ghost(exact), Ghost(self.db_weight.write * 2));
        proof {
            exact = exact + self.db_weight.write * 2;
        }
        acc
    }

    fn update_data_object_state_bloat_bond(&self) -> (r: Weight)
        ensures
            r == capped_weight(25_151_000int + self.db_weight.read * 2 + self.db_weight.write * 1),
    {
        let mut acc: Weight = 25_151_000;
        let ghost mut exact: int = 25_151_000int;
        let t = self.db_weight.reads(2);
        acc = add_weight(acc, t, Ghost(exact), Ghost(self.db_weight.read * 2));
        proof {
            exact = exact + self.db_weight.read * 2;
        }
        let t = self.db_weight.writes(1);
        acc = add_weight(acc, t, Ghost(exact), Ghost(self.db_weight.write * 1));
        proof {
            exact = exact + self.db_weight.write * 1;
        }
        acc
    }

    fn update_number_of_storage_buckets_in_dynamic_bag_creation_policy(&self) -> (r: Weight)
        ensures
            r == capped_weight(28_350_000int + self.db_weight.read * 3 + self.db_weight.write * 1),
    {
        let mut acc: Weight = 28_350_000;
        let ghost mut exact: int = 28_350_000int;
        let t = self.db_weight.reads(3);
        acc = add_weight(acc, t, Ghost(exact), Ghost(self.db_weight.read * 3));
        proof {
            exact = exact + self.db_weight.read * 3;
        }
        let t = self.db_weight.writes(1);
        acc = add_weight(acc, t, Ghost(exact), Ghost(self.db_weight.write * 1));
        proof {
            exact = exact + self.db_weight.write * 1;
        }
        acc
    }

    fn update_blacklist(&self, i: u32, j: u32) -> (r: Weight)
        ensures
            r == capped_weight(936_534_000int + 9_191_000 * (i as int) + 1_383_000 * (j as int) + self.db_weight.read * 3 + self.db_weight.read * (1 * (i as int)) + self.db_weight.read * (1 * (j as int)) + self.db_weight.write * 1 + self.db_weight.write * (1 * (i as int))),
    {
        let mut acc: Weight = 936_534_000;
        let ghost mut exact: int = 936_534_000int;
        let t = mul_weight(9_191_000, i as u64);
        acc = add_weight(acc, t, Ghost(exact), Ghost(9_191_000 * (i as int)));
        proof {
            exact = exact + 9_191_000 * (i as int);
        }
        let t = mul_weight(1_383_000, j as u64);
        acc = add_weight(acc, t, Ghost(exact), Ghost(1_383_000 * (j as int)));
        proof {
            exact = exact + 1_383_000 * (j as int);
        }
        let t = self.db_weight.reads(3);
        acc = add_weight(acc, t, Ghost(exact), Ghost(self.db_weight.read * 3));
        proof {
            exact = exact + self.db_weight.read * 3;
        }
        let t = self.db_weight.reads(mul_weight(1, i as u64));
        acc = add_weight(acc, t, Ghost(exact), Ghost(self.db_weight.read * (1 * (i as int))));
        proof {
            exact = exact + self.db_weight.read * (1 * (i as int));
        }
        let t = self.db_weight.reads(mul_weight(1, j as u64));
        acc = add_weight(acc, t, Ghost(exact), Ghost(self.db_weight.read * (1 * (j as int))));
        proof {
            exact = exact + self.db_weight.read * (1 * (j as int));
        }
        let t = self.db_weight.writes(1);
        acc = add_weight(acc, t, Ghost(exact), Ghost(self.db_weight.write * 1));
        proof {
            exact = exact + self.db_weight.write * 1;
        }
        let t = self.db_weight.writes(mul_weight(1, i as u64));
        acc = add_weight(acc, t, Ghost(exact), Ghost(self.db_weight.write * (1 * (i as int))));
        proof {
            exact = exact + self.db_weight.write * (1 * (i as int));
        }
        acc
    }

    fn create_storage_bucket(&self) -> (r: Weight)
        ensures
            r == capped_weight(33_500_000int + self.db_weight.read * 5 + self.db_weight.write * 2),
    {
        let mut acc: Weight = 33_500_000;
        let ghost mut exact: int = 33_500_000int;
        let t = self.db_weight.reads(5);
        acc = add_weight(acc, t, Ghost(exact), Ghost(self.db_weight.read * 5));
        proof {
            exact = exact + self.db_weight.read * 5;
        }
        let t = self.db_weight.writes(2);
        acc = add_weight(acc, t, Ghost(exact), Ghost(self.db_weight.write * 2));
        proof {
            exact = exact + self.db_weight.write * 2;
        }
        acc
    }

    fn update_storage_buckets_for_bag(&self, i: u32, j: u32) -> (r: Weight)
        ensures
            r == capped_weight(0int + 59_819_000 * (i as int) + 31_645_000 * (j as int) + self.db_weight.read * 4 + self.db_weight.read * (1 * (i as int)) + self.db_weight.read * (1 * (j as int)) + self.db_weight.write * 1 + self.db_weight.write * (1 * (i as int)) + self.db_weight.write * (1 * (j as int))),
    {
        let mut acc: Weight = 0;
        let ghost mut exact: int = 0int;
        let t = mul_weight(59_819_000, i as u64);
        acc = add_weight(acc, t, Ghost(exact), Ghost(59_819_000 * (i as int)));
        proof {
            exact = exact + 59_819_000 * (i as int);
        }
        let t = mul_weight(31_645_000, j as u64);
        acc = add_weight(acc, t, Ghost(exact), Ghost(31_645_000 * (j as int)));
        proof {
            exact = exact + 31_645_000 * (j as int);
        }
        let t = self.db_weight.reads(4);
        acc = add_weight(acc, t, Ghost(exact), Ghost(self.db_weight.read * 4));
        proof {
            exact = exact + self.db_weight.read * 4;
        }
        let t = self.db_weight.reads(mul_weight(1, i as u64));
        acc = add_weight(acc, t, Ghost(exact), Ghost(self.db_weight.read * (1 * (i as int))));
        proof {
            exact = exact + self.db_weight.read * (1 * (i as int));
        }
        let t = self.db_weight.reads(mul_weight(1, j as u64));
        acc = add_weight(acc, t, Ghost(exact), Ghost(self.db_weight.read * (1 * (j as int))));
        proof {
            exact = exact + self.db_weight.read * (1 * (j as int));
        }
        let t = self.db_weight.writes(1);
        acc = add_weight(acc, t, Ghost(exact), Ghost(self.db_weight.write * 1));
        proof {
            exact = exact + self.db_weight.write * 1;
        }
        let t = self.db_weight.writes(mul_weight(1, i as u64));
        acc = add_weight(acc, t, Ghost(exact), Ghost(self.db_weight.write * (1 * (i as int))));
        proof {
            exact = exact + self.db_weight.write * (1 * (i as int));
        }
        let t = self.db_weight.writes(mul_weight(1, j as u64));
        acc = add_weight(acc, t, Ghost(exact), Ghost(self.db_weight.write * (1 * (j as int))));
        proof {
            exact = exact + self.db_weight.write * (1 * (j as int));
        }
        acc
    }

    fn cancel_storage_bucket_operator_invite(&self) -> (r: Weight)
        ensures
            r == capped_weight(59_740_000int + self.db_weight.read * 3 + self.db_weight.write * 1),
    {
        let mut acc: Weight = 59_740_000;
        let ghost mut exact: int = 59_740_000int;
        let t = self.db_weight.reads(3);
        acc = add_weight(acc, t, Ghost(exact), Ghost(self.db_weight.read * 3));
        proof {
            exact = exact + self.db_weight.read * 3;
        }
        let t = self.db_weight.writes(1);
        acc = add_weight(acc, t, Ghost(exact), Ghost(self.db_weight.write * 1));
        proof {
            exact = exact + self.db_weight.write * 1;
        }
        acc
    }

    fn invite_storage_bucket_operator(&self) -> (r: Weight)
        ensures
            r == capped_weight(73_360_000int + self.db_weight.read * 4 + self.db_weight.write * 1),
    {
        let mut acc: Weight = 73_360_000;
        let ghost mut exact: int = 73_360_000int;
        let t = self.db_weight.reads(4);
        acc = add_weight(acc, t, Ghost(exact), Ghost(self.db_weight.read * 4));
        proof {
            exact = exact + self.db_weight.read * 4;
        }
        let t = self.db_weight.writes(1);
        acc = add_weight(acc, t, Ghost(exact), Ghost(self.db_weight.write * 1));
        proof {
            exact = exact + self.db_weight.write * 1;
        }
        acc
    }

    fn remove_storage_bucket_operator(&self) -> (r: Weight)
        ensures
            r == capped_weight(60_469_000int + self.db_weight.read * 3 + self.db_weight.write * 1),
    {
        let mut acc: Weight = 60_469_000;
        let ghost mut exact: int = 60_469_000int;
        let t = self.db_weight.reads(3);
        acc = add_weight(acc, t, Ghost(exact), Ghost(self.db_weight.read * 3));
        proof {
            exact = exact + self.db_weight.read * 3;
        }
        let t = self.db_weight.writes(1);
        acc = add_weight(acc, t, Ghost(exact), Ghost(self.db_weight.write * 1));
        proof {
            exact = exact + self.db_weight.write * 1;
        }
        acc
    }

    fn update_storage_bucket_status(&self) -> (r: Weight)
        ensures
            r == capped_weight(59_451_000int + self.db_weight.read * 3 + self.db_weight.write * 1),
    {
        let mut acc: Weight = 59_451_000;
        let ghost mut exact: int = 59_451_000int;
        let t = self.db_weight.reads(3);
        acc = add_weight(acc, t, Ghost(exact), Ghost(self.db_weight.read * 3));
        proof {
            exact = exact + self.db_weight.read * 3;
        }
        let t = self.db_weight.writes(1);
        acc = add_weight(acc, t, Ghost(exact), Ghost(self.db_weight.write * 1));
        proof {
            exact = exact + self.db_weight.write * 1;
        }
        acc
    }

    fn set_storage_bucket_voucher_limits(&self) -> (r: Weight)
        ensures
            r == capped_weight(72_280_000int + self.db_weight.read * 5 + self.db_weight.write * 1),
    {
        let mut acc: Weight = 72_280_000;
        let ghost mut exact: int = 72_280_000int;
        let t = self.db_weight.reads(5);
        acc = add_weight(acc, t, Ghost(exact), Ghost(self.db_weight.read * 5));
        proof {
            exact = exact + self.db_weight.read * 5;
        }
        let t = self.db_weight.writes(1);
        acc = add_weight(acc, t, Ghost(exact), Ghost(self.db_weight.write * 1));
        proof {
            exact = exact + self.db_weight.write * 1;
        }
        acc
    }

    fn accept_storage_bucket_invitation(&self) -> (r: Weight)
        ensures
            r == capped_weight(55_720_000int + self.db_weight.read * 2 + self.db_weight.write * 1),
    {
        let mut acc: Weight = 55_720_000;
        let ghost mut exact: int = 55_720_000int;
        let t = self.db_weight.reads(2);
        acc = add_weight(acc, t, Ghost(exact), Ghost(self.db_weight.read * 2));
        proof {
            exact = exact + self.db_weight.read * 2;
        }
        let t = self.db_weight.writes(1);
        acc = add_weight(acc, t, Ghost(exact), Ghost(self.db_weight.write * 1));
        proof {
            exact = exact + self.db_weight.write * 1;
        }
        acc
    }

    fn set_storage_operator_metadata(&self, _i: u32) -> (r: Weight)
        ensures
            r == capped_weight(61_511_000int + self.db_weight.read * 2),
    {
        let mut acc: Weight = 61_511_000;
        let ghost mut exact: int = 61_511_000int;
        let t = self.db_weight.reads(2);
        acc = add_weight(acc, t, Ghost(exact), Ghost(self.db_weight.read * 2));
        proof {
            exact = exact + self.db_weight.read * 2;
        }
        acc
    }

    fn accept_pending_data_objects(&self, i: u32) -> (r: Weight)
        ensures
            r == capped_weight(0int + 11_648_000 * (i as int) + self.db_weight.read * 2 + self.db_weight.read * (1 * (i as int)) + self.db_weight.write * (1 * (i as int))),
    {
        let mut acc: Weight = 0;
        let ghost mut exact: int = 0int;
        let t = mul_weight(11_648_000, i as u64);
        acc = add_weight(acc, t, Ghost(exact), Ghost(11_648_000 * (i as int)));
        proof {
            exact = exact + 11_648_000 * (i as int);
        }
        let t = self.db_weight.reads(2);
        acc = add_weight(acc, t, Ghost(exact), Ghost(self.db_weight.read * 2));
        proof {
            exact = exact + self.db_weight.read * 2;
        }
        let t = self.db_weight.reads(mul_weight(1, i as u64));
        acc = add_weight(acc, t, Ghost(exact), Ghost(self.db_weight.read * (1 * (i as int))));
        proof {
            exact = exact + self.db_weight.read * (1 * (i as int));
        }
        let t = self.db_weight.writes(mul_weight(1, i as u64));
        acc = add_weight(acc, t, Ghost(exact), Ghost(self.db_weight.write * (1 * (i as int))));
        proof {
            exact = exact + self.db_weight.write * (1 * (i as int));
        }
        acc
    }

    fn create_distribution_bucket_family(&self) -> (r: Weight)
        ensures
            r == capped_weight(31_870_000int + self.db_weight.read * 4 + self.db_weight.write * 3),
    {
        let mut acc: Weight = 31_870_000;
        let ghost mut exact: int = 31_870_000int;
        let t = self.db_weight.reads(4);
        acc = add_weight(acc, t, Ghost(exact), Ghost(self.db_weight.read * 4));
        proof {
            exact = exact + self.db_weight.read * 4;
        }
        let t = self.db_weight.writes(3);
        acc = add_weight(acc, t, Ghost(exact), Ghost(self.db_weight.write * 3));
        proof {
            exact = exact + self.db_weight.write * 3;
        }
        acc
    }

    fn delete_distribution_bucket_family(&self) -> (r: Weight)
        ensures
            r == capped_weight(46_400_000int + self.db_weight.read * 7 + self.db_weight.write * 2),
    {
        let mut acc: Weight = 46_400_000;
        let ghost mut exact: int = 46_400_000int;
        let t = self.db_weight.reads(7);
        acc = add_weight(acc, t, Ghost(exact), Ghost(self.db_weight.read * 7));
        proof {
            exact = exact + self.db_weight.read * 7;
        }
        let t = self.db_weight.writes(2);
        acc = add_weight(acc, t, Ghost(exact), Ghost(self.db_weight.write * 2));
        proof {
            exact = exact + self.db_weight.write * 2;
        }
        acc
    }

    fn create_distribution_bucket(&self) -> (r: Weight)
        ensures
            r == capped_weight(33_040_000int + self.db_weight.read * 3 + self.db_weight.write * 2),
    {
        let mut acc: Weight = 33_040_000;
        let ghost mut exact: int = 33_040_000int;
        let t = self.db_weight.reads(3);
        acc = add_weight(acc, t, Ghost(exact), Ghost(self.db_weight.read * 3));
        proof {
            exact = exact + self.db_weight.read * 3;
        }
        let t = self.db_weight.writes(2);
        acc = add_weight(acc, t, Ghost(exact), Ghost(self.db_weight.write * 2));
        proof {
            exact = exact + self.db_weight.write * 2;
        }
        acc
    }

    fn update_distribution_bucket_status(&self) -> (r: Weight)
        ensures
            r == capped_weight(33_500_000int + self.db_weight.read * 3 + self.db_weight.write * 1),
    {
        let mut acc: Weight = 33_500_000;
        let ghost mut exact: int = 33_500_000int;
        let t = self.db_weight.reads(3);
        acc = add_weight(acc, t, Ghost(exact), Ghost(self.db_weight.read * 3));
        proof {
            exact = exact + self.db_weight.read * 3;
        }
        let t = self.db_weight.writes(1);
        acc = add_weight(acc, t, Ghost(exact), Ghost(self.db_weight.write * 1));
        proof {
            exact = exact + self.db_weight.write * 1;
        }
        acc
    }

    fn delete_distribution_bucket(&self) -> (r: Weight)
        ensures
            r == capped_weight(32_589_000int + self.db_weight.read * 3 + self.db_weight.write * 1),
    {
        let mut acc: Weight = 32_589_000;
        let ghost mut exact: int = 32_589_000int;
        let t = self.db_weight.reads(3);
        acc = add_weight(acc, t, Ghost(exact), Ghost(self.db_weight.read * 3));
        proof {
            exact = exact + self.db_weight.read * 3;
        }
        let t = self.db_weight.writes(1);
        acc = add_weight(acc, t, Ghost(exact), Ghost(self.db_weight.write * 1));
        proof {
            exact = exact + self.db_weight.write * 1;
        }
        acc
    }

    fn update_distribution_buckets_for_bag(&self, i: u32, j: u32) -> (r: Weight)
        ensures
            r == capped_weight(42_524_000int + 11_974_000 * (i as int) + 12_331_000 * (j as int) + self.db_weight.read * 5 + self.db_weight.read * (1 * (i as int)) + self.db_weight.read * (1 * (j as int)) + self.db_weight.write * 1 + self.db_weight.write * (1 * (i as int)) + self.db_weight.write * (1 * (j as int))),
    {
        let mut acc: Weight = 42_524_000;
        let ghost mut exact: int = 42_524_000int;
        let t = mul_weight(11_974_000, i as u64);
        acc = add_weight(acc, t, Ghost(exact), Ghost(11_974_000 * (i as int)));
        proof {
            exact = exact + 11_974_000 * (i as int);
        }
        let t = mul_weight(12_331_000, j as u64);
        acc = add_weight(acc, t, Ghost(exact), Ghost(12_331_000 * (j as int)));
        proof {
            exact = exact + 12_331_000 * (j as int);
        }
        let t = self.db_weight.reads(5);
        acc = add_weight(acc, t, Ghost(exact), Ghost(self.db_weight.read * 5));
        proof {
            exact = exact + self.db_weight.read * 5;
        }
        let t = self.db_weight.reads(mul_weight(1, i as u64));
        acc = add_weight(acc, t, Ghost(exact), Ghost(self.db_weight.read * (1 * (i as int))));
        proof {
            exact = exact + self.db_weight.read * (1 * (i as int));
        }
        let t = self.db_weight.reads(mul_weight(1, j as u64));
        acc = add_weight(acc, t, Ghost(exact), Ghost(self.db_weight.read * (1 * (j as int))));
        proof {
            exact = exact + self.db_weight.read * (1 * (j as int));
        }
        let t = self.db_weight.writes(1);
        acc = add_weight(acc, t, Ghost(exact), Ghost(self.db_weight.write * 1));
        proof {
            exact = exact + self.db_weight.write * 1;
        }
        let t = self.db_weight.writes(mul_weight(1, i as u64));
        acc = add_weight(acc, t, Ghost(exact), Ghost(self.db_weight.write * (1 * (i as int))));
        proof {
            exact = exact + self.db_weight.write * (1 * (i as int));
        }
        let t = self.db_weight.writes(mul_weight(1, j as u64));
        acc = add_weight(acc, t, Ghost(exact), Ghost(self.db_weight.write * (1 * (j as int))));
        proof {
            exact = exact + self.db_weight.write * (1 * (j as int));
        }
        acc
    }

    fn update_distribution_buckets_per_bag_limit(&self) -> (r: Weight)
        ensures
            r == capped_weight(23_900_000int + self.db_weight.read * 2 + self.db_weight.write * 1),
    {
        let mut acc: Weight = 23_900_000;
        let ghost mut exact: int = 23_900_000int;
        let t = self.db_weight.reads(2);
        acc = add_weight(acc, t, Ghost(exact), Ghost(self.db_weight.read * 2));
        proof {
            exact = exact + self.db_weight.read * 2;
        }
        let t = self.db_weight.writes(1);
        acc = add_weight(acc, t, Ghost(exact), Ghost(self.db_weight.write * 1));
        proof {
            exact = exact + self.db_weight.write * 1;
        }
        acc
    }

    fn update_distribution_bucket_mode(&self) -> (r: Weight)
        ensures
            r == capped_weight(33_030_000int + self.db_weight.read * 3 + self.db_weight.write * 1),
    {
        let mut acc: Weight = 33_030_000;
        let ghost mut exact: int = 33_030_000int;
        let t = self.db_weight.reads(3);
        acc = add_weight(acc, t, Ghost(exact), Ghost(self.db_weight.read * 3));
        proof {
            exact = exact + self.db_weight.read * 3;
        }
        let t = self.db_weight.writes(1);
        acc = add_weight(acc, t, Ghost(exact), Ghost(self.db_weight.write * 1));
        proof {
            exact = exact + self.db_weight.write * 1;
        }
        acc
    }

    fn update_families_in_dynamic_bag_creation_policy(&self, i: u32) -> (r: Weight)
        ensures
            r == capped_weight(5_738_000int + 12_923_000 * (i as int) + self.db_weight.read * 3 + self.db_weight.read * (1 * (i as int)) + self.db_weight.write * 1),
    {
        let mut acc: Weight = 5_738_000;
        let ghost mut exact: int = 5_738_000int;
        let t = mul_weight(12_923_000, i as u64);
        acc = add_weight(acc, t, Ghost(exact), Ghost(12_923_000 * (i as int)));
        proof {
            exact = exact + 12_923_000 * (i as int);
        }
        let t = self.db_weight.reads(3);
        acc = add_weight(acc, t, Ghost(exact), Ghost(self.db_weight.read * 3));
        proof {
            exact = exact + self.db_weight.read * 3;
        }
        let t = self.db_weight.reads(mul_weight(1, i as u64));
        acc = add_weight(acc, t, Ghost(exact), Ghost(self.db_weight.read * (1 * (i as int))));
        proof {
            exact = exact + self.db_weight.read * (1 * (i as int));
        }
        let t = self.db_weight.writes(1);
        acc = add_weight(acc, t, Ghost(exact), Ghost(self.db_weight.write * 1));
        proof {
            exact = exact + self.db_weight.write * 1;
        }
        acc
    }

    fn invite_distribution_bucket_operator(&self) -> (r: Weight)
        ensures
            r == capped_weight(77_011_000int + self.db_weight.read * 4 + self.db_weight.write * 1),
    {
        let mut acc: Weight = 77_011_000;
        let ghost mut exact: int = 77_011_000int;
        let t = self.db_weight.reads(4);
        acc = add_weight(acc, t, Ghost(exact), Ghost(self.db_weight.read * 4));
        proof {
            exact = exact + self.db_weight.read * 4;
        }
        let t = self.db_weight.writes(1);
        acc = add_weight(acc, t, Ghost(exact), Ghost(self.db_weight.write * 1));
        proof {
            exact = exact + self.db_weight.write * 1;
        }
        acc
    }

    fn cancel_distribution_bucket_operator_invite(&self) -> (r: Weight)
        ensures
            r == capped_weight(68_400_000int + self.db_weight.read * 3 + self.db_weight.write * 1),
    {
        let mut acc: Weight = 68_400_000;
        let ghost mut exact: int = 68_400_000int;
        let t = self.db_weight.reads(3);
        acc = add_weight(acc, t, Ghost(exact), Ghost(self.db_weight.read * 3));
        proof {
            exact = exact + self.db_weight.read * 3;
        }
        let t = self.db_weight.writes(1);
        acc = add_weight(acc, t, Ghost(exact), Ghost(self.db_weight.write * 1));
        proof {
            exact = exact + self.db_weight.write * 1;
        }
        acc
    }

    fn remove_distribution_bucket_operator(&self) -> (r: Weight)
        ensures
            r == capped_weight(67_960_000int + self.db_weight.read * 3 + self.db_weight.write * 1),
    {
        let mut acc: Weight = 67_960_000;
        let ghost mut exact: int = 67_960_000int;
        let t = self.db_weight.reads(3);
        acc = add_weight(acc, t, Ghost(exact), Ghost(self.db_weight.read * 3));
        proof {
            exact = exact + self.db_weight.read * 3;
        }
        let t = self.db_weight.writes(1);
        acc = add_weight(acc, t, Ghost(exact), Ghost(self.db_weight.write * 1));
        proof {
            exact = exact + self.db_weight.write * 1;
        }
        acc
    }

    fn set_distribution_bucket_family_metadata(&self, _i: u32) -> (r: Weight)
        ensures
            r == capped_weight(60_332_000int + self.db_weight.read * 3),
    {
        let mut acc: Weight = 60_332_000;
        let ghost mut exact: int = 60_332_000int;
        let t = self.db_weight.reads(3);
        acc = add_weight(acc, t, Ghost(exact), Ghost(self.db_weight.read * 3));
        proof {
            exact = exact + self.db_weight.read * 3;
        }
        acc
    }

    fn accept_distribution_bucket_invitation(&self) -> (r: Weight)
        ensures
            r == capped_weight(33_400_000int + self.db_weight.read * 2 + self.db_weight.write * 1),
    {
        let mut acc: Weight = 33_400_000;
        let ghost mut exact: int = 33_400_000int;
        let t = self.db_weight.reads(2);
        acc = add_weight(acc, t, Ghost(exact), Ghost(self.db_weight.read * 2));
        proof {
            exact = exact + self.db_weight.read * 2;
        }
        let t = self.db_weight.writes(1);
        acc = add_weight(acc, t, Ghost(exact), Ghost(self.db_weight.write * 1));
        proof {
            exact = exact + self.db_weight.write * 1;
        }
        acc
    }

    fn set_distribution_operator_metadata(&self, i: u32) -> (r: Weight)
        ensures
            r == capped_weight(34_362_000int + 32_000 * (i as int) + self.db_weight.read * 2),
    {
        let mut acc: Weight = 34_362_000;
        let ghost mut exact: int = 34_362_000int;
        let t = mul_weight(32_000, i as u64);
        acc = add_weight(acc, t, Ghost(exact), Ghost(32_000 * (i as int)));
        proof {
            exact = exact + 32_000 * (i as int);
        }
        let t = self.db_weight.reads(2);
        acc = add_weight(acc, t, Ghost(exact), Ghost(self.db_weight.read * 2));
        proof {
            exact = exact + self.db_weight.read * 2;
        }
        acc
    }

    fn storage_operator_remark(&self, i: u32) -> (r: Weight)
        ensures
            r == capped_weight(51_979_000int + 2_000 * (i as int) + self.db_weight.read * 2),
    {
        let mut acc: Weight = 51_979_000;
        let ghost mut exact: int = 51_979_000int;
        let t = mul_weight(2_000, i as u64);
        acc = add_weight(acc, t, Ghost(exact), Ghost(2_000 * (i as int)));
        proof {
            exact = exact + 2_000 * (i as int);
        }
        let t = self.db_weight.reads(2);
        acc = add_weight(acc, t, Ghost(exact), Ghost(self.db_weight.read * 2));
        proof {
            exact = exact + self.db_weight.read * 2;
        }
        acc
    }

    fn distribution_operator_remark(&self, i: u32) -> (r: Weight)
        ensures
            r == capped_weight(56_693_000int + 1_000 * (i as int) + self.db_weight.read * 2),
    {
        let mut acc: Weight = 56_693_000;
        let ghost mut exact: int = 56_693_000int;
        let t = mul_weight(1_000, i as u64);
        acc = add_weight(acc, t, Ghost(exact), Ghost(1_000 * (i as int)));
        proof {
            exact = exact + 1_000 * (i as int);
        }
        let t = self.db_weight.reads(2);
        acc = add_weight(acc, t, Ghost(exact), Ghost(self.db_weight.read * 2));
        proof {
            exact = exact + self.db_weight.read * 2;
        }
        acc
    }
}

/// No weights, for tests.
impl WeightInfo for () {
    fn delete_storage_bucket(&self) -> (r: Weight)
        ensures
            r == 0,
    {
        0
    }

    fn update_uploading_blocked_status(&self) -> (r: Weight)
        ensures
            r == 0,
    {
        0
    }

    fn update_data_size_fee(&self) -> (r: Weight)
        ensures
            r == 0,
    {
        0
    }

    fn update_storage_buckets_per_bag_limit(&self) -> (r: Weight)
        ensures
            r == 0,
    {
        0
    }

    fn update_storage_buckets_voucher_max_limits(&self) -> (r: Weight)
        ensures
            r == 0,
    {
        0
    }

    fn update_data_object_state_bloat_bond(&self) -> (r: Weight)
        ensures
            r == 0,
    {
        0
    }

    fn update_number_of_storage_buckets_in_dynamic_bag_creation_policy(&self) -> (r: Weight)
        ensures
            r == 0,
    {
        0
    }

    fn update_blacklist(&self, _i: u32, _j: u32) -> (r: Weight)
        ensures
            r == 0,
    {
        0
    }

    fn create_storage_bucket(&self) -> (r: Weight)
        ensures
            r == 0,
    {
        0
    }

    fn update_storage_buckets_for_bag(&self, _i: u32, _j: u32) -> (r: Weight)
        ensures
            r == 0,
    {
        0
    }

    fn cancel_storage_bucket_operator_invite(&self) -> (r: Weight)
        ensures
            r == 0,
    {
        0
    }

    fn invite_storage_bucket_operator(&self) -> (r: Weight)
        ensures
            r == 0,
    {
        0
    }

    fn remove_storage_bucket_operator(&self) -> (r: Weight)
        ensures
            r == 0,
    {
        0
    }

    fn update_storage_bucket_status(&self) -> (r: Weight)
        ensures
            r == 0,
    {
        0
    }

    fn set_storage_bucket_voucher_limits(&self) -> (r: Weight)
        ensures
            r == 0,
    {
        0
    }

    fn accept_storage_bucket_invitation(&self) -> (r: Weight)
        ensures
            r == 0,
    {
        0
    }

    fn set_storage_operator_metadata(&self, _i: u32) -> (r: Weight)
        ensures
            r == 0,
    {
        0
    }

    fn accept_pending_data_objects(&self, _i: u32) -> (r: Weight)
        ensures
            r == 0,
    {
        0
    }

    fn create_distribution_bucket_family(&self) -> (r: Weight)
        ensures
            r == 0,
    {
        0
    }

    fn delete_distribution_bucket_family(&self) -> (r: Weight)
        ensures
            r == 0,
    {
        0
    }

    fn create_distribution_bucket(&self) -> (r: Weight)
        ensures
            r == 0,
    {
        0
    }

    fn update_distribution_bucket_status(&self) -> (r: Weight)
        ensures
            r == 0,
    {
        0
    }

    fn delete_distribution_bucket(&self) -> (r: Weight)
        ensures
            r == 0,
    {
        0
    }

    fn update_distribution_buckets_for_bag(&self, _i: u32, _j: u32) -> (r: Weight)
        ensures
            r == 0,
    {
        0
    }

    fn update_distribution_buckets_per_bag_limit(&self) -> (r: Weight)
        ensures
            r == 0,
    {
        0
    }

    fn update_distribution_bucket_mode(&self) -> (r: Weight)
        ensures
            r == 0,
    {
        0
    }

    fn update_families_in_dynamic_bag_creation_policy(&self, _i: u32) -> (r: Weight)
        ensures
            r == 0,
    {
        0
    }

    fn invite_distribution_bucket_operator(&self) -> (r: Weight)
        ensures
            r == 0,
    {
        0
    }

    fn cancel_distribution_bucket_operator_invite(&self) -> (r: Weight)
        ensures
            r == 0,
    {
        0
    }

    fn remove_distribution_bucket_operator(&self) -> (r: Weight)
        ensures
            r == 0,
    {
        0
    }

    fn set_distribution_bucket_family_metadata(&self, _i: u32) -> (r: Weight)
        ensures
            r == 0,
    {
        0
    }

    fn accept_distribution_bucket_invitation(&self) -> (r: Weight)
        ensures
            r == 0,
    {
        0
    }

    fn set_distribution_operator_metadata(&self, _i: u32) -> (r: Weight)
        ensures
            r == 0,
    {
        0
    }

    fn storage_operator_remark(&self, _i: u32) -> (r: Weight)
        ensures
            r == 0,
    {
        0
    }

    fn distribution_operator_remark(&self, _i: u32) -> (r: Weight)
        ensures
            r == 0,
    {
        0
    }
}

} // verus!
