use vstd::arithmetic::div_mod::lemma_div_is_ordered;
use vstd::arithmetic::div_mod::lemma_div_is_ordered_by_denominator;
use vstd::prelude::*;

use crate::alpha::Alpha;
use crate::benford_class::BenfordClass;
use crate::benford_class::spec_first_digit;
use crate::digit::Digit;
use crate::digit::PPM_SCALE;
use crate::digit::probability_ppm_of;
use crate::error::BenfordError;

verus! {

/// The largest sample total for which the Chi-squared statistic is
/// computed: the largest `n` with `n * PPM_SCALE` still representable in
/// 64 bits, so that every intermediate value of the exact fixed-point
/// evaluation fits its machine type.
pub const MAX_SAMPLE_TOTAL: u64 = 18_446_744_073_709;

/// The sum of the counts recorded for digits 1 through `d` in the count
/// table `s`.
pub open spec fn spec_count_sum(s: Seq<u64>, d: int) -> int
    decreases d,
{
    if d <= 0 {
        0
    } else {
        spec_count_sum(s, d - 1) + s[d]
    }
}

/// The total number of samples recorded in the count table `s`: the sum
/// of the counts of all nine digits.
pub open spec fn spec_total_of(s: Seq<u64>) -> int {
    spec_count_sum(s, 9)
}

/// One term of the Chi-squared sum for digit `d`, given `n` samples in
/// all, in millionths: `(observed - expected)^2 / expected` where the
/// expected count is `n` times the digit's Benford probability.
///
/// Counts are scaled by `PPM_SCALE` so that the expected count
/// `n * probability_ppm_of(d)` is exact; the division is integer
/// (truncating) division.
pub open spec fn spec_chi_squared_term_micro(s: Seq<u64>, n: int, d: int) -> int {
    let expected = n * probability_ppm_of(d);
    let diff = s[d] * PPM_SCALE - expected;
    (diff * diff) / expected
}

/// The sum of the Chi-squared terms of digits 1 through `d`.
pub open spec fn spec_chi_squared_sum_micro(s: Seq<u64>, n: int, d: int) -> int
    decreases d,
{
    if d <= 0 {
        0
    } else {
        spec_chi_squared_sum_micro(s, n, d - 1) + spec_chi_squared_term_micro(s, n, d)
    }
}

/// The Chi-squared statistic of the count table `s` against the Benford
/// distribution, in millionths.
pub open spec fn spec_chi_squared_micro(s: Seq<u64>) -> int {
    spec_chi_squared_sum_micro(s, spec_total_of(s), 9)
}

/// The verdict of the Chi-squared test on the count table `s` at the
/// confidence level `alpha`: the statistic lies strictly under the
/// critical value. An empty table is never considered Benford.
pub open spec fn spec_is_benford(s: Seq<u64>, alpha: Alpha) -> bool {
    spec_total_of(s) > 0 && spec_chi_squared_micro(s) < 1000 * alpha.spec_critical_milli()
}

/// The all-zero count table of a fresh accumulator.
pub open spec fn spec_empty_counts() -> Seq<u64> {
    Seq::new(10, |j: int| 0u64)
}

/// The element-wise sum of two count tables.
pub open spec fn spec_merged_counts(a: Seq<u64>, b: Seq<u64>) -> Seq<u64> {
    Seq::new(a.len(), (|j: int| (a[j] + b[j]) as u64))
}

/// An upper bound on a single Chi-squared term, used to show that the
/// accumulated statistic fits in 128 bits: the square of the largest
/// 64-bit value divided by the smallest digit probability.
pub open spec fn spec_term_bound() -> int {
    7436728083592422217944382701758181
}

proof fn lemma_count_sum_zero(s: Seq<u64>, k: int)
    requires
        forall|j: int| 1 <= j <= k ==> s[j] == 0,
    ensures
        spec_count_sum(s, k) == 0,
    decreases k,
{
    if k > 0 {
        lemma_count_sum_zero(s, k - 1);
    }
}

proof fn lemma_count_sum_monotone(s: Seq<u64>, k1: int, k2: int)
    requires
        0 <= k1 <= k2,
    ensures
        spec_count_sum(s, k1) <= spec_count_sum(s, k2),
    decreases k2,
{
    if k1 < k2 {
        lemma_count_sum_monotone(s, k1, k2 - 1);
    }
}

proof fn lemma_count_sum_nonneg(s: Seq<u64>, k: int)
    ensures
        spec_count_sum(s, k) >= 0,
    decreases k,
{
    if k > 0 {
        lemma_count_sum_nonneg(s, k - 1);
    }
}

/// Each digit's count is at most the total over all digits.
proof fn lemma_count_le_total(s: Seq<u64>, d: int)
    requires
        1 <= d <= 9,
    ensures
        s[d] <= spec_total_of(s),
{
    lemma_count_sum_nonneg(s, d - 1);
    lemma_count_sum_monotone(s, d, 9);
}

/// Updating the count of digit `d` changes a partial sum by the difference
/// at `d` exactly when the sum covers `d`.
proof fn lemma_count_sum_update(s: Seq<u64>, d: int, v: u64, k: int)
    requires
        1 <= d <= 9,
        0 <= k <= 9,
        s.len() == 10,
    ensures
        spec_count_sum(s.update(d, v), k) == if d <= k {
            spec_count_sum(s, k) + v - s[d]
        } else {
            spec_count_sum(s, k)
        },
    decreases k,
{
    if k > 0 {
        lemma_count_sum_update(s, d, v, k - 1);
    }
}

/// A mutable accumulator for a Benford conformance test.
///
/// It maintains one occurrence count per possible leading digit and a
/// configured confidence level, and answers whether the accumulated
/// distribution passes the Chi-squared goodness-of-fit test against the
/// theoretical Benford distribution.
///
/// The count table has ten slots so that a digit indexes its own slot;
/// slot 0 is reserved and always zero, since a leading digit is never
/// zero by construction.
pub struct BenfordTester {
    samples: Vec<u64>,
    alpha: Alpha,
}

fn zero_counts() -> (v: Vec<u64>)
    ensures
        v@ == spec_empty_counts(),
        spec_total_of(v@) == 0,
{
    let mut v: Vec<u64> = Vec::new();
    let mut j: usize = 0;
    while j < 10
        invariant
            j <= 10,
            v@.len() == j,
            forall|k: int| 0 <= k < j ==> v@[k] == 0,
        decreases 10 - j,
    {
        v.push(0);
        j = j + 1;
    }
    proof {
        assert(v@ =~= spec_empty_counts());
        lemma_count_sum_zero(v@, 9);
    }
    v
}

fn probability_ppm_at(d: usize) -> (p: u64)
    requires
        1 <= d <= 9,
    ensures
        p == probability_ppm_of(d as int),
        45757 <= p <= 301030,
{
    if d == 1 {
        301030
    } else if d == 2 {
        176091
    } else if d == 3 {
        124939
    } else if d == 4 {
        96910
    } else if d == 5 {
        79181
    } else if d == 6 {
        66947
    } else if d == 7 {
        57992
    } else if d == 8 {
        51153
    } else {
        45757
    }
}

impl BenfordTester {
    /// The per-digit count table: one count per digit at its own index,
    /// with index 0 reserved.
    pub closed spec fn spec_counts(&self) -> Seq<u64> {
        self.samples@
    }

    /// The configured confidence level.
    pub closed spec fn spec_alpha(&self) -> Alpha {
        self.alpha
    }

    /// The accumulator's invariant: ten count slots, and the reserved
    /// slot 0 holds no samples.
    pub open spec fn wf(&self) -> bool {
        self.spec_counts().len() == 10 && self.spec_counts()[0] == 0
    }

    /// The total number of samples accumulated.
    pub open spec fn spec_total(&self) -> int {
        spec_total_of(self.spec_counts())
    }

    /// Creates an empty accumulator with the default confidence level
    /// of 0.995.
    pub fn new() -> (t: BenfordTester)
        ensures
            t.wf(),
            t.spec_counts() == spec_empty_counts(),
            t.spec_total() == 0,
            t.spec_alpha() == Alpha::Point995,
    {
        BenfordTester { samples: zero_counts(), alpha: Alpha::Point995 }
    }

    /// Creates an empty accumulator with an explicitly chosen confidence
    /// level.
    pub fn with_alpha(alpha: Alpha) -> (t: BenfordTester)
        ensures
            t.wf(),
            t.spec_counts() == spec_empty_counts(),
            t.spec_total() == 0,
            t.spec_alpha() == alpha,
    {
        BenfordTester { samples: zero_counts(), alpha }
    }

    /// Provides access to the table which stores the cumulative frequency
    /// of all digits.
    ///
    /// For every digit there is a corresponding entry at the digit's own
    /// index; the entry at index 0 always contains 0.
    pub fn counts(&self) -> (r: &Vec<u64>)
        ensures
            r@ == self.spec_counts(),
    {
        &self.samples
    }

    /// Adds a digit to the dataset, incrementing its count by one.
    pub fn add_digit(&mut self, digit: Digit)
        requires
            old(self).wf(),
            old(self).spec_counts()[digit.spec_value()] < u64::MAX,
        ensures
            final(self).wf(),
            final(self).spec_alpha() == old(self).spec_alpha(),
            final(self).spec_counts() == old(self).spec_counts().update(
                digit.spec_value(),
                (old(self).spec_counts()[digit.spec_value()] + 1) as u64,
            ),
            final(self).spec_total() == old(self).spec_total() + 1,
    {
        let idx: usize = digit.value() as usize;
        let c: u64 = self.samples[idx];
        self.samples.set(idx, c + 1);
        proof {
            lemma_count_sum_update(
                old(self).spec_counts(),
                digit.spec_value(),
                (c + 1) as u64,
                9,
            );
        }
    }

    /// Adds a number to the dataset: extracts its leading digit and
    /// increments that digit's count. A sample without a leading digit
    /// (zero) is rejected with its extraction error, and the counts are
    /// left untouched.
    pub fn add_sample<C: BenfordClass>(&mut self, sample: C) -> (r: Result<(), BenfordError>)
        requires
            old(self).wf(),
            old(self).spec_total() < u64::MAX,
        ensures
            final(self).wf(),
            final(self).spec_alpha() == old(self).spec_alpha(),
            (spec_first_digit(sample.spec_sample_magnitude()) matches Err(e)
                ==> r == Err::<(), BenfordError>(e)
                    && final(self).spec_counts() == old(self).spec_counts()
                    && final(self).spec_total() == old(self).spec_total()),
            (spec_first_digit(sample.spec_sample_magnitude()) matches Ok(d)
                ==> r == Ok::<(), BenfordError>(())
                    && final(self).spec_counts() == old(self).spec_counts().update(
                        d.spec_value(),
                        (old(self).spec_counts()[d.spec_value()] + 1) as u64,
                    )
                    && final(self).spec_total() == old(self).spec_total() + 1),
    {
        match sample.to_first_digit() {
            Ok(d) => {
                proof {
                    crate::digit::lemma_digit_value_roundtrip(d);
                    lemma_count_le_total(self.spec_counts(), d.spec_value());
                }
                self.add_digit(d);
                Ok(())
            },
            Err(e) => Err(e),
        }
    }

    /// Resets the dataset to its exact initial state, all counts zero, so
    /// that this tester can be reused. The configured confidence level is
    /// kept.
    pub fn reset(&mut self)
        ensures
            final(self).wf(),
            final(self).spec_alpha() == old(self).spec_alpha(),
            final(self).spec_counts() == spec_empty_counts(),
            final(self).spec_total() == 0,
    {
        self.samples = zero_counts();
    }

    /// Merges another accumulator's dataset into this one by element-wise
    /// summation of the count tables: the result is the accumulator for
    /// the union of the two datasets.
    pub fn merge(&mut self, other: &BenfordTester)
        requires
            old(self).wf(),
            other.wf(),
            forall|j: int|
                0 <= j < 10 ==> old(self).spec_counts()[j] + other.spec_counts()[j] <= u64::MAX,
        ensures
            final(self).wf(),
            final(self).spec_alpha() == old(self).spec_alpha(),
            final(self).spec_counts() == spec_merged_counts(
                old(self).spec_counts(),
                other.spec_counts(),
            ),
    {
        let mut j: usize = 0;
        while j < 10
            invariant
                j <= 10,
                other.wf(),
                self.samples@.len() == 10,
                self.alpha == old(self).spec_alpha(),
                forall|k: int|
                    0 <= k < 10 ==> old(self).spec_counts()[k] + other.spec_counts()[k]
                        <= u64::MAX,
                forall|k: int|
                    0 <= k < j ==> self.samples@[k] == (old(self).spec_counts()[k]
                        + other.spec_counts()[k]) as u64,
                forall|k: int| j <= k < 10 ==> self.samples@[k] == old(self).spec_counts()[k],
            decreases 10 - j,
        {
            let a: u64 = self.samples[j];
            let b: u64 = other.samples[j];
            self.samples.set(j, a + b);
            j = j + 1;
        }
        proof {
            assert(self.samples@ =~= spec_merged_counts(
                old(self).spec_counts(),
                other.spec_counts(),
            ));
        }
    }

    fn total_u64(&self) -> (n: u64)
        requires
            self.wf(),
            self.spec_total() <= MAX_SAMPLE_TOTAL,
        ensures
            n == self.spec_total(),
    {
        let mut n: u64 = 0;
        let mut d: usize = 1;
        while d < 10
            invariant
                1 <= d <= 10,
                self.wf(),
                self.spec_total() <= MAX_SAMPLE_TOTAL,
                n == spec_count_sum(self.spec_counts(), d - 1),
            decreases 10 - d,
        {
            proof {
                lemma_count_sum_monotone(self.spec_counts(), d as int, 9);
            }
            n = n + self.samples[d];
            d = d + 1;
        }
        n
    }

    /// Does a Chi-squared test of the current dataset and returns the
    /// statistic in millionths, computed exactly in integer arithmetic:
    /// the sum over the nine digits of `(observed - expected)^2 / expected`
    /// with the expected count taken from the fixed-point Benford
    /// probabilities.
    ///
    /// The statistic of an empty dataset is a division by zero, so at
    /// least one sample is demanded; the total may not exceed
    /// [`MAX_SAMPLE_TOTAL`], the domain of the exact evaluation.
    pub fn chi_squared_micro(&self) -> (t: u128)
        requires
            self.wf(),
            1 <= self.spec_total() <= MAX_SAMPLE_TOTAL,
        ensures
            t == spec_chi_squared_micro(self.spec_counts()),
    {
        let n: u64 = self.total_u64();
        let mut t: u128 = 0;
        let mut d: usize = 1;
        while d < 10
            invariant
                1 <= d <= 10,
                self.wf(),
                1 <= self.spec_total() <= MAX_SAMPLE_TOTAL,
                n == self.spec_total(),
                t == spec_chi_squared_sum_micro(self.spec_counts(), n as int, d - 1),
                t <= (d - 1) * 7436728083592422217944382701758181,
            decreases 10 - d,
        {
            let h: u64 = self.samples[d];
            proof {
                lemma_count_le_total(self.spec_counts(), d as int);
            }
            let hp: u64 = h * 1_000_000;
            let p: u64 = probability_ppm_at(d);
            proof {
                assert(n as int * p as int <= 18446744073709int * 1000000) by (nonlinear_arith)
                    requires
                        0 <= n as int <= 18446744073709,
                        0 <= p as int <= 1000000,
                ;
                assert(n as int * p as int >= 45757) by (nonlinear_arith)
                    requires
                        n as int >= 1,
                        p as int >= 45757,
                ;
            }
            let np: u64 = n * p;
            let diff: u64 = if hp >= np {
                hp - np
            } else {
                np - hp
            };
            proof {
                assert(diff as int * diff as int <= 18446744073709551615int
                    * 18446744073709551615) by (nonlinear_arith)
                    requires
                        0 <= diff as int <= 18446744073709551615int,
                ;
            }
            let sq: u128 = (diff as u128) * (diff as u128);
            let term: u128 = sq / (np as u128);
            proof {
                let e = h as int * 1000000 - n as int * p as int;
                assert(diff as int * diff as int == e * e) by (nonlinear_arith)
                    requires
                        diff as int == e || diff as int == -e,
                ;
                assert(term == spec_chi_squared_term_micro(self.spec_counts(), n as int, d as int));
                lemma_div_is_ordered(
                    sq as int,
                    18446744073709551615int * 18446744073709551615,
                    np as int,
                );
                lemma_div_is_ordered_by_denominator(
                    18446744073709551615int * 18446744073709551615,
                    45757,
                    np as int,
                );
                assert(term <= spec_term_bound());
            }
            t = t + term;
            d = d + 1;
        }
        t
    }

    /// Returns `true` if the distribution of the dataset matches the one
    /// Benford's law expects, under the Chi-squared test at the given
    /// confidence level. An empty dataset never passes; the total may not
    /// exceed [`MAX_SAMPLE_TOTAL`], the domain of the exact evaluation of
    /// the statistic.
    pub fn is_benford_with_alpha(&self, alpha: Alpha) -> (r: bool)
        requires
            self.wf(),
            self.spec_total() <= MAX_SAMPLE_TOTAL,
        ensures
            r == spec_is_benford(self.spec_counts(), alpha),
    {
        let n: u64 = self.total_u64();
        if n == 0 {
            false
        } else {
            let t: u128 = self.chi_squared_micro();
            let c: u64 = Digit::chi_squared_milli(alpha);
            t < (c as u128) * 1000
        }
    }

    /// Returns `true` if the distribution of the dataset matches the one
    /// Benford's law expects, under the Chi-squared test at the configured
    /// confidence level. An empty dataset never passes; the total may not
    /// exceed [`MAX_SAMPLE_TOTAL`].
    pub fn is_benford(&self) -> (r: bool)
        requires
            self.wf(),
            self.spec_total() <= MAX_SAMPLE_TOTAL,
        ensures
            r == spec_is_benford(self.spec_counts(), self.spec_alpha()),
    {
        self.is_benford_with_alpha(self.alpha)
    }
}

impl Default for BenfordTester {
    /// An empty accumulator with the default confidence level of 0.995.
    fn default() -> (t: BenfordTester)
        ensures
            t.wf(),
            t.spec_counts() == spec_empty_counts(),
            t.spec_total() == 0,
            t.spec_alpha() == Alpha::Point995,
    {
        BenfordTester::new()
    }
}

/// Merging an accumulator's count table with an empty one yields the table
/// unchanged: the merge operation has the empty accumulator as its neutral
/// element.
pub proof fn lemma_merge_with_empty(a: Seq<u64>, b: Seq<u64>)
    requires
        a.len() == 10,
        b.len() == 10,
        forall|j: int| 0 <= j < 10 ==> b[j] == 0,
    ensures
        spec_merged_counts(a, b) == a,
{
    assert(spec_merged_counts(a, b) =~= a);
}

/// A dataset that follows the Benford distribution exactly — each digit
/// counted proportionally to its fixed-point probability — has a
/// Chi-squared statistic of exactly zero, and passes the test at every
/// confidence level. Larger such datasets (larger `k`) keep the statistic
/// at its minimum.
pub proof fn lemma_exact_benford_sample_has_zero_chi_squared(s: Seq<u64>, k: int)
    requires
        s.len() == 10,
        k >= 1,
        forall|d: int| 1 <= d <= 9 ==> s[d] == k * probability_ppm_of(d),
    ensures
        spec_total_of(s) == k * PPM_SCALE,
        spec_chi_squared_micro(s) == 0,
        forall|alpha: Alpha| spec_is_benford(s, alpha),
{
    reveal_with_fuel(spec_count_sum, 10);
    assert(spec_total_of(s) == k * PPM_SCALE);
    let n = spec_total_of(s);
    assert forall|d: int| 1 <= d <= 9 implies spec_chi_squared_term_micro(s, n, d) == 0 by {
        let expected = n * probability_ppm_of(d);
        assert(s[d] * PPM_SCALE == expected) by (nonlinear_arith)
            requires
                s[d] == k * probability_ppm_of(d),
                n == k * PPM_SCALE,
                expected == n * probability_ppm_of(d),
        ;
        assert(expected >= 45757) by (nonlinear_arith)
            requires
                k >= 1,
                expected == k * PPM_SCALE * probability_ppm_of(d),
                probability_ppm_of(d) >= 45757,
                PPM_SCALE == 1000000,
        ;
    }
    reveal_with_fuel(spec_chi_squared_sum_micro, 10);
    assert(spec_chi_squared_micro(s) == 0);
    assert forall|alpha: Alpha| spec_is_benford(s, alpha) by {
        assert(alpha.spec_critical_milli() >= 1344);
    }
}

} // verus!
