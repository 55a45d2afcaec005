use vstd::prelude::*;

use crate::weights::{RuntimeDbWeight, Weight, add_weight, capped_weight, mul_weight};

verus! {

/// Weight functions needed for membership.
pub trait WeightInfo {
    /// The weight of `buy_membership_without_referrer`.
    fn buy_membership_without_referrer(&self, i: u32, j: u32) -> Weight;

    /// The weight of `buy_membership_with_referrer`.
    fn buy_membership_with_referrer(&self, i: u32, _j: u32) -> Weight;

    /// The weight of `update_profile`.
    fn update_profile(&self, i: u32) -> Weight;

    /// The weight of `update_accounts_none`.
    fn update_accounts_none(&self) -> Weight;

    /// The weight of `update_accounts_root`.
    fn update_accounts_root(&self) -> Weight;

    /// The weight of `update_accounts_controller`.
    fn update_accounts_controller(&self) -> Weight;

    /// The weight of `update_accounts_both`.
    fn update_accounts_both(&self) -> Weight;

    /// The weight of `set_referral_cut`.
    fn set_referral_cut(&self) -> Weight;

    /// The weight of `transfer_invites`.
    fn transfer_invites(&self) -> Weight;

    /// The weight of `invite_member`.
    fn invite_member(&self, i: u32, j: u32) -> Weight;

    /// The weight of `gift_membership`.
    fn gift_membership(&self, i: u32, j: u32) -> Weight;

    /// The weight of `set_membership_price`.
    fn set_membership_price(&self) -> Weight;

    /// The weight of `update_profile_verification`.
    fn update_profile_verification(&self) -> Weight;

    /// The weight of `set_leader_invitation_quota`.
    fn set_leader_invitation_quota(&self) -> Weight;

    /// The weight of `set_initial_invitation_balance`.
    fn set_initial_invitation_balance(&self) -> Weight;

    /// The weight of `set_initial_invitation_count`.
    fn set_initial_invitation_count(&self) -> Weight;

    /// The weight of `add_staking_account_candidate`.
    fn add_staking_account_candidate(&self) -> Weight;

    /// The weight of `confirm_staking_account`.
    fn confirm_staking_account(&self) -> Weight;

    /// The weight of `remove_staking_account`.
    fn remove_staking_account(&self) -> Weight;

    /// The weight of `member_remark`.
    fn member_remark(&self) -> Weight;
}

/// Weights for membership measured on the reference hardware: a base weight, a weight per item
/// and the weight of the storage reads and writes.
#[derive(Clone, Copy, Debug, PartialEq, Eq, Structural)]
pub struct SubstrateWeight {
    /// The weight of one storage read and one storage write.
    pub db_weight: RuntimeDbWeight,
}

impl WeightInfo for SubstrateWeight {
    fn buy_membership_without_referrer(&self, i: u32, j: u32) -> (r: Weight)
        ensures
            r == capped_weight(29_016_000int + 2_000 * (i as int) + 1_000 * (j as int) + self.db_weight.read * 5 + self.db_weight.write * 4),
    {
        let mut acc: Weight = 29_016_000;
        let ghost mut exact: int = 29_016_000int;
        let t = mul_weight(2_000, i as u64);
        acc = add_weight(acc, t, Ghost(exact), Ghost(2_000 * (i as int)));
        proof {
            exact = exact + 2_000 * (i as int);
        }
        let t = mul_weight(1_000, j as u64);
        acc = add_weight(acc, t, Ghost(exact), Ghost(1_000 * (j as int)));
        proof {
            exact = exact + 1_000 * (j as int);
        }
        let t = self.db_weight.reads(5);
        acc = add_weight(acc, t, Ghost(exact), Ghost(self.db_weight.read * 5));
        proof {
            exact = exact + self.db_weight.read * 5;
        }
        let t = self.db_weight.writes(4);
        acc = add_weight(acc, t, Ghost(exact), Ghost(self.db_weight.write * 4));
        proof {
            exact = exact + self.db_weight.write * 4;
        }
        acc
    }

    fn buy_membership_with_referrer(&self, i: u32, _j: u32) -> (r: Weight)
        ensures
            r == capped_weight(45_799_000int + 1_000 * (i as int) + self.db_weight.read * 7 + self.db_weight.write * 4),
    {
        let mut acc: Weight = 45_799_000;
        let ghost mut exact: int = 45_799_000int;
        let t = mul_weight(1_000, i as u64);
        acc = add_weight(acc, t, Ghost(exact), Ghost(1_000 * (i as int)));
        proof {
            exact = exact + 1_000 * (i as int);
        }
        let t = self.db_weight.reads(7);
        acc = add_weight(acc, t, Ghost(exact), Ghost(self.db_weight.read * 7));
        proof {
            exact = exact + self.db_weight.read * 7;
        }
        let t = self.db_weight.writes(4);
        acc = add_weight(acc, t, Ghost(exact), Ghost(self.db_weight.write * 4));
        proof {
            exact = exact + self.db_weight.write * 4;
        }
        acc
    }

    fn update_profile(&self, i: u32) -> (r: Weight)
        ensures
            r == capped_weight(20_767_000int + 2_000 * (i as int) + self.db_weight.read * 2 + self.db_weight.write * 3),
    {
        let mut acc: Weight = 20_767_000;
        let ghost mut exact: int = 20_767_000int;
        let t = mul_weight(2_000, i as u64);
        acc = add_weight(acc, t, Ghost(exact), Ghost(2_000 * (i as int)));
        proof {
            exact = exact + 2_000 * (i as int);
        }
        let t = self.db_weight.reads(2);
        acc = add_weight(acc, t, Ghost(exact), Ghost(self.db_weight.read * 2));
        proof {
            exact = exact + self.db_weight.read * 2;
        }
        let t = self.db_weight.writes(3);
        acc = add_weight(acc, t, Ghost(exact), Ghost(self.db_weight.write * 3));
        proof {
            exact = exact + self.db_weight.write * 3;
        }
        acc
    }

    fn update_accounts_none(&self) -> (r: Weight)
        ensures
            r == capped_weight(0int),
    {
        0
    }

    fn update_accounts_root(&self) -> (r: Weight)
        ensures
            r == capped_weight(13_000_000int + self.db_weight.read * 1 + self.db_weight.write * 1),
    {
        let mut acc: Weight = 13_000_000;
        let ghost mut exact: int = 13_000_000int;
        let t = self.db_weight.reads(1);
        acc = add_weight(acc, t, Ghost(exact), Ghost(self.db_weight.read * 1));
        proof {
            exact = exact + self.db_weight.read * 1;
        }
        let t = self.db_weight.writes(1);
        acc = add_weight(acc, t, Ghost(exact), Ghost(self.db_weight.write * 1));
        proof {
            exact = exact + self.db_weight.write * 1;
        }
        acc
    }

    fn update_accounts_controller(&self) -> (r: Weight)
        ensures
            r == capped_weight(13_000_000int + self.db_weight.read * 1 + self.db_weight.write * 1),
    {
        let mut acc: Weight = 13_000_000;
        let ghost mut exact: int = 13_000_000int;
        let t = self.db_weight.reads(1);
        acc = add_weight(acc, t, Ghost(exact), Ghost(self.db_weight.read * 1));
        proof {
            exact = exact + self.db_weight.read * 1;
        }
        let t = self.db_weight.writes(1);
        acc = add_weight(acc, t, Ghost(exact), Ghost(self.db_weight.write * 1));
        proof {
            exact = exact + self.db_weight.write * 1;
        }
        acc
    }

    fn update_accounts_both(&self) -> (r: Weight)
        ensures
            r == capped_weight(14_000_000int + self.db_weight.read * 1 + self.db_weight.write * 1),
    {
        let mut acc: Weight = 14_000_000;
        let ghost mut exact: int = 14_000_000int;
        let t = self.db_weight.reads(1);
        acc = add_weight(acc, t, Ghost(exact), Ghost(self.db_weight.read * 1));
        proof {
            exact = exact + self.db_weight.read * 1;
        }
        let t = self.db_weight.writes(1);
        acc = add_weight(acc, t, Ghost(exact), Ghost(self.db_weight.write * 1));
        proof {
            exact = exact + self.db_weight.write * 1;
        }
        acc
    }

    fn set_referral_cut(&self) -> (r: Weight)
        ensures
            r == capped_weight(10_000_000int + self.db_weight.write * 1),
    {
        let mut acc: Weight = 10_000_000;
        let ghost mut exact: int = 10_000_000int;
        let t = self.db_weight.writes(1);
        acc = add_weight(acc, t, Ghost(exact), Ghost(self.db_weight.write * 1));
        proof {
            exact = exact + self.db_weight.write * 1;
        }
        acc
    }

    fn transfer_invites(&self) -> (r: Weight)
        ensures
            r == capped_weight(18_000_000int + self.db_weight.read * 2 + self.db_weight.write * 2),
    {
        let mut acc: Weight = 18_000_000;
        let ghost mut exact: int = 18_000_000int;
        let t = self.db_weight.reads(2);
        acc = add_weight(acc, t, Ghost(exact), Ghost(self.db_weight.read * 2));
        proof {
            exact = exact + self.db_weight.read * 2;
        }
        let t = self.db_weight.writes(2);
        acc = add_weight(acc, t, Ghost(exact), Ghost(self.db_weight.write * 2));
        proof {
            exact = exact + self.db_weight.write * 2;
        }
        acc
    }

    fn invite_member(&self, i: u32, j: u32) -> (r: Weight)
        ensures
            r == capped_weight(41_348_000int + 2_000 * (i as int) + 1_000 * (j as int) + self.db_weight.read * 7 + self.db_weight.write * 7),
    {
        let mut acc: Weight = 41_348_000;
        let ghost mut exact: int = 41_348_000int;
        let t = mul_weight(2_000, i as u64);
        acc = add_weight(acc, t, Ghost(exact), Ghost(2_000 * (i as int)));
        proof {
            exact = exact + 2_000 * (i as int);
        }
        let t = mul_weight(1_000, j as u64);
        acc = add_weight(acc, t, Ghost(exact), Ghost(1_000 * (j as int)));
        proof {
            exact = exact + 1_000 * (j as int);
        }
        let t = self.db_weight.reads(7);
        acc = add_weight(acc, t, Ghost(exact), Ghost(self.db_weight.read * 7));
        proof {
            exact = exact + self.db_weight.read * 7;
        }
        let t = self.db_weight.writes(7);
        acc = add_weight(acc, t, Ghost(exact), Ghost(self.db_weight.write * 7));
        proof {
            exact = exact + self.db_weight.write * 7;
        }
        acc
    }

    fn gift_membership(&self, i: u32, j: u32) -> (r: Weight)
        ensures
            r == capped_weight(81_081_000int + 2_000 * (i as int) + 1_000 * (j as int) + self.db_weight.read * 8 + self.db_weight.write * 8),
    {
        let mut acc: Weight = 81_081_000;
        let ghost mut exact: int = 81_081_000int;
        let t = mul_weight(2_000, i as u64);
        acc = add_weight(acc, t, Ghost(exact), Ghost(2_000 * (i as int)));
        proof {
            exact = exact + 2_000 * (i as int);
        }
        let t = mul_weight(1_000, j as u64);
        acc = add_weight(acc, t, Ghost(exact), Ghost(1_000 * (j as int)));
        proof {
            exact = exact + 1_000 * (j as int);
        }
        let t = self.db_weight.reads(8);
        acc = add_weight(acc, t, Ghost(exact), Ghost(self.db_weight.read * 8));
        proof {
            exact = exact + self.db_weight.read * 8;
        }
        let t = self.db_weight.writes(8);
        acc = add_weight(acc, t, Ghost(exact), Ghost(self.db_weight.write * 8));
        proof {
            exact = exact + self.db_weight.write * 8;
        }
        acc
    }

    fn set_membership_price(&self) -> (r: Weight)
        ensures
            r == capped_weight(9_000_000int + self.db_weight.write * 1),
    {
        let mut acc: Weight = 9_000_000;
        let ghost mut exact: int = 9_000_000int;
        let t = self.db_weight.writes(1);
        acc = add_weight(acc, t, Ghost(exact), Ghost(self.db_weight.write * 1));
        proof {
            exact = exact + self.db_weight.write * 1;
        }
        acc
    }

    fn update_profile_verification(&self) -> (r: Weight)
        ensures
            r == capped_weight(18_000_000int + self.db_weight.read * 2 + self.db_weight.write * 1),
    {
        let mut acc: Weight = 18_000_000;
        let ghost mut exact: int = 18_000_000int;
        let t = self.db_weight.reads(2);
        acc = add_weight(acc, t, Ghost(exact), Ghost(self.db_weight.read * 2));
        proof {
            exact = exact + self.db_weight.read * 2;
        }
        let t = self.db_weight.writes(1);
        acc = add_weight(acc, t, Ghost(exact), Ghost(self.db_weight.write * 1));
        proof {
            exact = exact + self.db_weight.write * 1;
        }
        acc
    }

    fn set_leader_invitation_quota(&self) -> (r: Weight)
        ensures
            r == capped_weight(21_000_000int + self.db_weight.read * 3 + self.db_weight.write * 1),
    {
        let mut acc: Weight = 21_000_000;
        let ghost mut exact: int = 21_000_000int;
        let t = self.db_weight.reads(3);
        acc = add_weight(acc, t, Ghost(exact), Ghost(self.db_weight.read * 3));
        proof {
            exact = exact + self.db_weight.read * 3;
        }
        let t = self.db_weight.writes(1);
        acc = add_weight(acc, t, Ghost(exact), Ghost(self.db_weight.write * 1));
        proof {
            exact = exact + self.db_weight.write * 1;
        }
        acc
    }

    fn set_initial_invitation_balance(&self) -> (r: Weight)
        ensures
            r == capped_weight(9_000_000int + self.db_weight.write * 1),
    {
        let mut acc: Weight = 9_000_000;
        let ghost mut exact: int = 9_000_000int;
        let t = self.db_weight.writes(1);
        acc = add_weight(acc, t, Ghost(exact), Ghost(self.db_weight.write * 1));
        proof {
            exact = exact + self.db_weight.write * 1;
        }
        acc
    }

    fn set_initial_invitation_count(&self) -> (r: Weight)
        ensures
            r == capped_weight(8_000_000int + self.db_weight.write * 1),
    {
        let mut acc: Weight = 8_000_000;
        let ghost mut exact: int = 8_000_000int;
        let t = self.db_weight.writes(1);
        acc = add_weight(acc, t, Ghost(exact), Ghost(self.db_weight.write * 1));
        proof {
            exact = exact + self.db_weight.write * 1;
        }
        acc
    }

    fn add_staking_account_candidate(&self) -> (r: Weight)
        ensures
            r == capped_weight(29_000_000int + self.db_weight.read * 4 + self.db_weight.write * 3),
    {
        let mut acc: Weight = 29_000_000;
        let ghost mut exact: int = 29_000_000int;
        let t = self.db_weight.reads(4);
        acc = add_weight(acc, t, Ghost(exact), Ghost(self.db_weight.read * 4));
        proof {
            exact = exact + self.db_weight.read * 4;
        }
        let t = self.db_weight.writes(3);
        acc = add_weight(acc, t, Ghost(exact), Ghost(self.db_weight.write * 3));
        proof {
            exact = exact + self.db_weight.write * 3;
        }
        acc
    }

    fn confirm_staking_account(&self) -> (r: Weight)
        ensures
            r == capped_weight(20_000_000int + self.db_weight.read * 2 + self.db_weight.write * 1),
    {
        let mut acc: Weight = 20_000_000;
        let ghost mut exact: int = 20_000_000int;
        let t = self.db_weight.reads(2);
        acc = add_weight(acc, t, Ghost(exact), Ghost(self.db_weight.read * 2));
        proof {
            exact = exact + self.db_weight.read * 2;
        }
        let t = self.db_weight.writes(1);
        acc = add_weight(acc, t, Ghost(exact), Ghost(self.db_weight.write * 1));
        proof {
            exact = exact + self.db_weight.write * 1;
        }
        acc
    }

    fn remove_staking_account(&self) -> (r: Weight)
        ensures
            r == capped_weight(30_000_000int + self.db_weight.read * 4 + self.db_weight.write * 3),
    {
        let mut acc: Weight = 30_000_000;
        let ghost mut exact: int = 30_000_000int;
        let t = self.db_weight.reads(4);
        acc = add_weight(acc, t, Ghost(exact), Ghost(self.db_weight.read * 4));
        proof {
            exact = exact + self.db_weight.read * 4;
        }
        let t = self.db_weight.writes(3);
        acc = add_weight(acc, t, Ghost(exact), Ghost(self.db_weight.write * 3));
        proof {
            exact = exact + self.db_weight.write * 3;
        }
        acc
    }

    fn member_remark(&self) -> (r: Weight)
        ensures
            r == capped_weight(13_000_000int + self.db_weight.read * 1),
    {
        let mut acc: Weight = 13_000_000;
        let ghost mut exact: int = 13_000_000int;
        let t = self.db_weight.reads(1);
        acc = add_weight(acc, t, Ghost(exact), Ghost(self.db_weight.read * 1));
        proof {
            exact = exact + self.db_weight.read * 1;
        }
        acc
    }
}

/// No weights, for tests.
impl WeightInfo for () {
    fn buy_membership_without_referrer(&self, _i: u32, _j: u32) -> (r: Weight)
        ensures
            r == 0,
    {
        0
    }

    fn buy_membership_with_referrer(&self, _i: u32, _j: u32) -> (r: Weight)
        ensures
            r == 0,
    {
        0
    }

    fn update_profile(&self, _i: u32) -> (r: Weight)
        ensures
            r == 0,
    {
        0
    }

    fn update_accounts_none(&self) -> (r: Weight)
        ensures
            r == 0,
    {
        0
    }

    fn update_accounts_root(&self) -> (r: Weight)
        ensures
            r == 0,
    {
        0
    }

    fn update_accounts_controller(&self) -> (r: Weight)
        ensures
            r == 0,
    {
        0
    }

    fn update_accounts_both(&self) -> (r: Weight)
        ensures
            r == 0,
    {
        0
    }

    fn set_referral_cut(&self) -> (r: Weight)
        ensures
            r == 0,
    {
        0
    }

    fn transfer_invites(&self) -> (r: Weight)
        ensures
            r == 0,
    {
        0
    }

    fn invite_member(&self, _i: u32, _j: u32) -> (r: Weight)
        ensures
            r == 0,
    {
        0
    }

    fn gift_membership(&self, _i: u32, _j: u32) -> (r: Weight)
        ensures
            r == 0,
    {
        0
    }

    fn set_membership_price(&self) -> (r: Weight)
        ensures
            r == 0,
    {
        0
    }

    fn update_profile_verification(&self) -> (r: Weight)
        ensures
            r == 0,
    {
        0
    }

    fn set_leader_invitation_quota(&self) -> (r: Weight)
        ensures
            r == 0,
    {
        0
    }

    fn set_initial_invitation_balance(&self) -> (r: Weight)
        ensures
            r == 0,
    {
        0
    }

    fn set_initial_invitation_count(&self) -> (r: Weight)
        ensures
            r == 0,
    {
        0
    }

    fn add_staking_account_candidate(&self) -> (r: Weight)
        ensures
            r == 0,
    {
        0
    }

    fn confirm_staking_account(&self) -> (r: Weight)
        ensures
            r == 0,
    {
        0
    }

    fn remove_staking_account(&self) -> (r: Weight)
        ensures
            r == 0,
    {
        0
    }

    fn member_remark(&self) -> (r: Weight)
        ensures
            r == 0,
    {
        0
    }
}

} // verus!
