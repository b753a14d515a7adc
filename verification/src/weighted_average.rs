//! Weighted reduction primitives: an exact weighted arithmetic mean over
//! integer samples, and a weighted boolean majority vote.
//!
//! Both primitives fix the expected total weight up front; `add` accumulates
//! weighted samples against it and the finalizer performs the single
//! normalizing division (mean) or the majority comparison (vote). A total
//! weight of zero means there is nothing to normalize against: `add` is then
//! a no-op and the reduction yields the zero/false default.
use vstd::prelude::*;
use vstd::arithmetic::div_mod::{lemma_div_nonincreasing, lemma_div_pos_is_pos};
use vstd::seq_lib::{commutative_foldl, lemma_fold_left_permutation};

verus! {

/// Quotient of `a` by a positive divisor `b`, rounded toward zero.
pub open spec fn div_toward_zero(a: int, b: int) -> int
    recommends
        b > 0,
{
    if a >= 0 {
        a / b
    } else {
        -((-a) / b)
    }
}

/// The value a weighted mean reduces to: the accumulated weighted sum
/// normalized by the total weight, or 0 when the total weight is zero.
pub open spec fn mean_value(sum: int, total: int) -> int {
    if total == 0 {
        0
    } else {
        div_toward_zero(sum, total)
    }
}

/// The verdict of a weighted majority vote: true iff the weight accumulated
/// in favour reaches at least half of the total weight (a weight of exactly
/// half resolves to true), and always false when the total weight is zero.
pub open spec fn majority_value(true_weight: int, total: int) -> bool {
    total > 0 && 2 * true_weight >= total
}

/// The weighted sum of a batch of `(value, weight)` samples.
pub open spec fn weighted_sum(entries: Seq<(int, int)>) -> int {
    entries.fold_left(0, |acc: int, e: (int, int)| acc + e.0 * e.1)
}

/// Accumulating one further sample grows the weighted sum by exactly
/// `value * weight`. Together with the contracts of `add` and `compute` this
/// says that for a positive total weight, a mean fed any batch of samples
/// reduces to the weighted sum of the batch normalized by the total weight.
pub proof fn lemma_weighted_sum_push(entries: Seq<(int, int)>, value: int, weight: int)
    ensures
        weighted_sum(entries.push((value, weight))) == weighted_sum(entries) + value * weight,
{
    let t = entries.push((value, weight));
    assert(t.drop_last() =~= entries);
}

/// The weighted sum of a batch of samples does not depend on the order in
/// which the samples are accumulated.
pub proof fn lemma_weighted_sum_order_independent(e1: Seq<(int, int)>, e2: Seq<(int, int)>)
    requires
        e1.to_multiset() == e2.to_multiset(),
    ensures
        weighted_sum(e1) == weighted_sum(e2),
{
    let f = |acc: int, e: (int, int)| acc + e.0 * e.1;
    assert(commutative_foldl(f));
    lemma_fold_left_permutation(e1, e2, f, 0);
}

/// With a total weight of zero both reductions ignore every sample and
/// yield their default: the mean reduces to 0 and the vote to false,
/// whatever was accumulated.
pub proof fn lemma_zero_total_defaults(sum: int, true_weight: int)
    ensures
        mean_value(sum, 0) == 0,
        !majority_value(true_weight, 0),
{
}

/// Computes the weighted arithmetic mean of integer samples.
pub struct WeightedMean {
    value: i128,
    total_weight: u64,
}

impl WeightedMean {
    /// The weighted sum accumulated so far.
    pub closed spec fn sum(&self) -> int {
        self.value as int
    }

    /// The fixed total weight this mean normalizes against.
    pub closed spec fn total(&self) -> int {
        self.total_weight as int
    }

    /// `total_weight` is the expected sum of all weights that will be added
    /// across the reduction step, commonly the number of contributors.
    pub fn new(total_weight: u64) -> (m: Self)
        ensures
            m.sum() == 0,
            m.total() == total_weight,
    {
        WeightedMean { value: 0, total_weight }
    }

    /// Accumulates one weighted sample. When the total weight is zero there
    /// is nothing to normalize against and the call leaves the mean as it is.
    pub fn add(&mut self, value: i64, weight: u64)
        requires
            old(self).total() > 0 ==> i128::MIN <= old(self).sum() + value * weight <= i128::MAX,
        ensures
            final(self).total() == old(self).total(),
            final(self).sum() == if old(self).total() > 0 {
                old(self).sum() + value * weight
            } else {
                old(self).sum()
            },
    {
        if self.total_weight > 0 {
            proof {
                assert(i128::MIN <= (value as int) * (weight as int) <= i128::MAX)
                    by (nonlinear_arith)
                    requires
                        i64::MIN <= value <= i64::MAX,
                        0 <= weight <= u64::MAX,
                ;
            }
            let vw: i128 = (value as i128) * (weight as i128);
            self.value = self.value + vw;
        }
    }

    /// Finishes the reduction: the weighted sum divided by the total weight,
    /// rounded toward zero, or 0 when the total weight is zero.
    pub fn compute(self) -> (r: i128)
        ensures
            r as int == mean_value(self.sum(), self.total()),
    {
        if self.total_weight == 0 {
            return 0;
        }
        let d: i128 = self.total_weight as i128;
        proof {
            lemma_div_toward_zero_in_range(self.value as int, d as int);
        }
        match self.value.checked_div(d) {
            Some(q) => q,
            None => {
                // Unreachable: the divisor is positive, and a quotient rounded
                // toward zero never exceeds the dividend in magnitude.
                proof {
                    assert(false);
                }
                0
            },
        }
    }
}

/// For a positive divisor, a quotient rounded toward zero never exceeds the
/// dividend in magnitude.
proof fn lemma_div_toward_zero_in_range(a: int, b: int)
    requires
        b > 0,
    ensures
        a >= 0 ==> 0 <= div_toward_zero(a, b) <= a,
        a < 0 ==> a <= div_toward_zero(a, b) <= 0,
{
    if a >= 0 {
        lemma_div_nonincreasing(a, b);
        lemma_div_pos_is_pos(a, b);
    } else {
        lemma_div_nonincreasing(-a, b);
        lemma_div_pos_is_pos(-a, b);
    }
}

/// Reduces weighted boolean samples to a majority verdict.
pub struct WeightedBool {
    value: u128,
    total_weight: u64,
}

impl WeightedBool {
    /// The weight accumulated in favour so far.
    pub closed spec fn true_weight(&self) -> int {
        self.value as int
    }

    /// The fixed total weight this vote normalizes against.
    pub closed spec fn total(&self) -> int {
        self.total_weight as int
    }

    /// `total_weight` is the expected sum of all weights that will be added
    /// across the reduction step, commonly the number of contributors.
    pub fn new(total_weight: u64) -> (b: Self)
        ensures
            b.true_weight() == 0,
            b.total() == total_weight,
    {
        WeightedBool { value: 0, total_weight }
    }

    /// Accumulates one weighted boolean sample; only samples in favour carry
    /// their weight. When the total weight is zero the call is a no-op.
    pub fn add(&mut self, value: bool, weight: u64)
        requires
            old(self).total() > 0 && value ==> old(self).true_weight() + weight <= u128::MAX,
        ensures
            final(self).total() == old(self).total(),
            final(self).true_weight() == if old(self).total() > 0 && value {
                old(self).true_weight() + weight
            } else {
                old(self).true_weight()
            },
    {
        if self.total_weight > 0 && value {
            self.value = self.value + weight as u128;
        }
    }

    /// Finishes the vote: true iff the weight in favour reaches at least half
    /// of the total weight. A weight of exactly half resolves to true; with a
    /// total weight of zero the verdict is false.
    pub fn compute(self) -> (r: bool)
        ensures
            r == majority_value(self.true_weight(), self.total()),
    {
        if self.total_weight == 0 {
            return false;
        }
        // 2 * true_weight >= total, compared without overflowing:
        // true_weight >= ceil(total / 2).
        let half: u128 = (self.total_weight as u128 + 1) / 2;
        proof {
            assert(self.value >= half <==> 2 * (self.value as int) >= self.total_weight as int)
                by (nonlinear_arith)
                requires
                    half == (self.total_weight as int + 1) / 2,
                    self.total_weight > 0,
                    0 <= self.value <= u128::MAX,
                    0 <= self.total_weight <= u64::MAX,
            ;
        }
        self.value >= half
    }
}

} // verus!
