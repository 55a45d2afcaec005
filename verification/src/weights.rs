use vstd::prelude::*;

verus! {

/// Numeric weight: a measure of computation time.
pub type Weight = u64;

/// `x`, or the greatest weight when `x` does not fit: the value of a weight formula of
/// non-negative terms evaluated with saturating operations.
pub open spec fn capped_weight(x: int) -> Weight {
    if x > u64::MAX {
        u64::MAX
    } else {
        x as u64
    }
}

/// The weight of one storage read and of one storage write.
#[derive(Clone, Copy, Debug, PartialEq, Eq, Structural)]
pub struct RuntimeDbWeight {
    /// The weight of one read.
    pub read: Weight,
    /// The weight of one write.
    pub write: Weight,
}

impl RuntimeDbWeight {
    /// The weight of `r` reads (saturating).
    pub fn reads(&self, r: Weight) -> (w: Weight)
        ensures
            w == capped_weight(self.read * r),
            self.read * r >= 0,
    {
        mul_weight(self.read, r)
    }

    /// The weight of `w` writes (saturating).
    pub fn writes(&self, w: Weight) -> (r: Weight)
        ensures
            r == capped_weight(self.write * w),
            self.write * w >= 0,
    {
        mul_weight(self.write, w)
    }
}

/// `a * n`, saturating.
pub fn mul_weight(a: Weight, n: Weight) -> (r: Weight)
    ensures
        r == capped_weight(a * n),
        a * n >= 0,
{
    assert(a * n >= 0) by (nonlinear_arith);
    match a.checked_mul(n) {
        Some(p) => p,
        None => u64::MAX,
    }
}

/// The saturating sum of two saturated non-negative terms `x` and `y` is the saturated `x + y`.
pub(crate) fn add_weight(a: Weight, b: Weight, Ghost(x): Ghost<int>, Ghost(y): Ghost<int>) -> (r: Weight)
    requires
        x >= 0,
        y >= 0,
        a == capped_weight(x),
        b == capped_weight(y),
    ensures
        r == capped_weight(x + y),
{
    a.saturating_add(b)
}

} // verus!
