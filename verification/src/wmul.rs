//! The bit-level core of integer range sampling: widening multiplication,
//! the rejection threshold, and the per-draw acceptance test.
//!
//! A raw 64-bit draw `r` is mapped into `[0, range)` by taking the high half
//! of the 128-bit product `r * range`. The low half of the product acts as a
//! fraction: draws whose fraction falls below `(2^64 - range) mod range` are
//! rejected, which removes the residual modulo bias entirely.

use crate::rng::RngCore;
use vstd::arithmetic::div_mod::{
    lemma_div_pos_is_pos, lemma_mod_division_less_than_divisor, lemma_multiply_divide_lt,
};
use vstd::arithmetic::mul::{
    lemma_mul_inequality, lemma_mul_nonnegative, lemma_mul_upper_bound,
};
use vstd::prelude::*;

verus! {

/// How many rejected draws a single sampling call will tolerate before it
/// keeps the final candidate as drawn. A draw is rejected with probability
/// below one half, so this budget is exhausted with probability below `2^-64`.
pub const REJECT_RETRY_LIMIT: u64 = 64;

/// `2^64`, the number of distinct values of one raw draw.
pub open spec fn pow64() -> int {
    0x1_0000_0000_0000_0000
}

/// High half of the 128-bit product `r * range`: the candidate value in
/// `[0, range)`.
pub open spec fn wmul_hi(r: u64, range: u64) -> int {
    (r * range) / pow64()
}

/// Low half of the 128-bit product `r * range`: the fraction tested against
/// the rejection threshold.
pub open spec fn wmul_lo(r: u64, range: u64) -> int {
    (r * range) % pow64()
}

/// The rejection threshold `(2^64 - range) mod range`, equivalently the
/// wraparound of `-range` in `u64` reduced modulo `range`. Draws whose low
/// product half falls below it carry the residual bias and are discarded.
pub open spec fn reject_threshold(range: u64) -> int
    recommends
        1 <= range,
{
    (pow64() - range) % (range as int)
}

/// Whether the raw draw `r` passes the rejection test for a span of `range`
/// values.
pub open spec fn accepts(range: u64, r: u64) -> bool
    recommends
        1 <= range,
{
    wmul_lo(r, range) >= reject_threshold(range)
}

/// The candidate taken from the high product half always lands in
/// `[0, range)`, whatever the draw.
pub proof fn lemma_candidate_lt_range(r: u64, range: u64)
    requires
        1 <= range,
    ensures
        0 <= wmul_hi(r, range) < range,
{
    lemma_mul_nonnegative(r as int, range as int);
    lemma_div_pos_is_pos(r as int * range as int, pow64());
    lemma_mul_inequality(r as int, pow64() - 1, range as int);
    lemma_mul_inequality(range as int, range as int, pow64() - 1);
    assert((pow64() - 1) * range as int == range as int * (pow64() - 1)) by {
        vstd::arithmetic::mul::lemma_mul_is_commutative(pow64() - 1, range as int);
    }
    assert(range as int * (pow64() - 1) < pow64() * range as int) by {
        vstd::arithmetic::mul::lemma_mul_is_commutative(pow64(), range as int);
        vstd::arithmetic::mul::lemma_mul_is_distributive_sub(range as int, pow64(), 1);
    }
    lemma_multiply_divide_lt(r as int * range as int, pow64(), range as int);
}

/// Splits the widening product `r * range` into its high and low 64-bit
/// halves.
pub fn wmul(r: u64, range: u64) -> (res: (u64, u64))
    ensures
        res.0 == wmul_hi(r, range),
        res.1 == wmul_lo(r, range),
{
    proof {
        lemma_mul_upper_bound(r as int, u64::MAX as int, range as int, u64::MAX as int);
    }
    let prod: u128 = (r as u128) * (range as u128);
    proof {
        lemma_multiply_divide_lt(prod as int, pow64(), pow64());
        lemma_mod_division_less_than_divisor(prod as int, pow64());
    }
    let hi: u64 = (prod / 0x1_0000_0000_0000_0000u128) as u64;
    let lo: u64 = (prod % 0x1_0000_0000_0000_0000u128) as u64;
    (hi, lo)
}

/// Computes the rejection threshold for a span of `range` values.
pub fn reject_thresh(range: u64) -> (t: u64)
    requires
        1 <= range,
    ensures
        t == reject_threshold(range),
        t < range,
{
    proof {
        lemma_mod_division_less_than_divisor(pow64() - range, range as int);
    }
    ((u64::MAX - range) + 1) % range
}

/// Runs one step of rejection sampling on the raw draw `r`: the widening
/// multiply, then the threshold test. Returns the unbiased candidate, or
/// `None` when the draw must be discarded.
pub fn try_sample(range: u64, thresh: u64, r: u64) -> (res: Option<u64>)
    requires
        1 <= range,
        thresh == reject_threshold(range),
    ensures
        res is Some <==> accepts(range, r),
        res matches Some(hi) ==> hi == wmul_hi(r, range) && hi < range,
{
    let (hi, lo) = wmul(r, range);
    proof {
        lemma_candidate_lt_range(r, range);
    }
    if lo >= thresh {
        Some(hi)
    } else {
        None
    }
}

/// Draws from the bit source until a candidate passes the rejection test,
/// within the retry budget; once the budget is spent the final candidate is
/// kept as drawn. Every returned value lies in `[0, range)`.
pub fn sample_span<R: RngCore>(range: u64, thresh: u64, rng: &mut R) -> (hi: u64)
    requires
        1 <= range,
        thresh == reject_threshold(range),
    ensures
        hi < range,
{
    let mut attempts: u64 = REJECT_RETRY_LIMIT;
    while attempts > 0
        invariant
            1 <= range,
            thresh == reject_threshold(range),
        decreases attempts,
    {
        let r = rng.next_u64();
        match try_sample(range, thresh, r) {
            Some(hi) => {
                return hi;
            },
            None => {},
        }
        attempts = attempts - 1;
    }
    let r = rng.next_u64();
    let (hi, _lo) = wmul(r, range);
    proof {
        lemma_candidate_lt_range(r, range);
    }
    hi
}

} // verus!
