use vstd::prelude::*;

verus! {

/// Account identifier.
pub type AccountId = u64;

/// Token balance.
pub type Balance = u128;

/// Membership identifier.
pub type MemberId = u64;

/// Working group worker identifier (same as the membership actor identifier).
pub type WorkerId = u64;

/// Media channel identifier.
pub type ChannelId = u64;

/// Data object identifier.
pub type DataObjectId = u64;

/// Storage bucket identifier.
pub type StorageBucketId = u64;

/// Distribution bucket family identifier.
pub type DistributionBucketFamilyId = u64;

/// Distribution bucket index within its family.
pub type DistributionBucketIndex = u64;

/// Content identifier presented as an IPFS hash.
pub type Cid = Vec<u8>;

/// `a * b`, or the greatest balance where the product does not fit.
pub open spec fn spec_saturating_mul(a: u128, b: u128) -> u128 {
    if a * b > u128::MAX {
        u128::MAX
    } else {
        (a * b) as u128
    }
}

/// Multiplies two balances, saturating at the numeric bound.
pub fn saturating_mul(a: u128, b: u128) -> (r: u128)
    ensures
        r == spec_saturating_mul(a, b),
{
    match a.checked_mul(b) {
        Some(p) => p,
        None => u128::MAX,
    }
}

/// Converts a collection length into a 64-bit counter.
pub fn saturated_u64(n: usize) -> (r: u64)
    ensures
        r == n,
{
    n as u64
}

/// Converts a collection length into a balance.
pub fn saturated_balance(n: usize) -> (r: u128)
    ensures
        r == n,
{
    n as u128
}

/// The outcome of checking a value against a bounded value constraint.
#[derive(Clone, Copy, Debug, PartialEq, Eq, Structural)]
pub enum BoundCheck {
    /// The value lies within the bounds.
    Valid,
    /// The value is below the minimum.
    TooLow,
    /// The value is above the maximum.
    TooHigh,
}

/// A value constraint: the value must lie in `min ..= min + max_min_diff`.
#[derive(Clone, Copy, Debug, PartialEq, Eq, Structural)]
pub struct BoundedValueConstraint {
    /// Distance between the maximum and the minimum.
    pub max_min_diff: u64,
    /// Minimal value.
    pub min: u64,
}

impl BoundedValueConstraint {
    /// The maximal accepted value (saturating).
    pub open spec fn spec_max(self) -> u64 {
        self.min.saturating_add(self.max_min_diff)
    }

    /// How `value` relates to the bounds.
    pub open spec fn spec_check(self, value: u64) -> BoundCheck {
        if value < self.min {
            BoundCheck::TooLow
        } else if value > self.spec_max() {
            BoundCheck::TooHigh
        } else {
            BoundCheck::Valid
        }
    }

    /// Checks `value` against the bounds.
    pub fn check(&self, value: u64) -> (r: BoundCheck)
        ensures
            r == self.spec_check(value),
    {
        let max: u64 = self.min.saturating_add(self.max_min_diff);
        if value < self.min {
            BoundCheck::TooLow
        } else if value > max {
            BoundCheck::TooHigh
        } else {
            BoundCheck::Valid
        }
    }
}


/// Whether two byte strings are equal.
pub fn bytes_eq(a: &Vec<u8>, b: &Vec<u8>) -> (r: bool)
    ensures
        r == (a@ == b@),
{
    if a.len() != b.len() {
        return false;
    }
    let mut i: usize = 0;
    while i < a.len()
        invariant
            a@.len() == b@.len(),
            i <= a@.len(),
            forall|j: int| 0 <= j < i ==> a@[j] == b@[j],
        decreases a@.len() - i,
    {
        if a[i] != b[i] {
            return false;
        }
        i = i + 1;
    }
    proof {
        assert(a@ =~= b@);
    }
    true
}

/// Whether a list of byte strings holds `x`.
pub fn contains_bytes(list: &Vec<Vec<u8>>, x: &Vec<u8>) -> (r: bool)
    ensures
        r == list@.map_values(|c: Vec<u8>| c@).contains(x@),
{
    let ghost v = list@.map_values(|c: Vec<u8>| c@);
    let mut i: usize = 0;
    while i < list.len()
        invariant
            v == list@.map_values(|c: Vec<u8>| c@),
            i <= list@.len(),
            forall|j: int| 0 <= j < i ==> v[j] != x@,
        decreases list@.len() - i,
    {
        if bytes_eq(&list[i], x) {
            proof {
                assert(v[i as int] == x@);
            }
            return true;
        }
        i = i + 1;
    }
    proof {
        assert(!v.contains(x@)) by {
            if v.contains(x@) {
                let j = choose|j: int| 0 <= j < v.len() && v[j] == x@;
                assert(j < i);
            }
        }
    }
    false
}

/// `x`, or `max` when `x` exceeds it: the result of adding up non-negative numbers with
/// saturating additions.
pub open spec fn capped(x: int, max: int) -> int {
    if x > max {
        max
    } else {
        x
    }
}

} // verus!
