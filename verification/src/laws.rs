//! Laws the sampling framework obeys, proved once and for all from the
//! definitions in this crate.

use crate::uniform::UniformSampler;
use crate::uniform_int::UniformInt;
use crate::wmul::{accepts, pow64, reject_threshold, wmul_hi, wmul_lo};
use vstd::arithmetic::div_mod::{
    lemma_fundamental_div_mod, lemma_fundamental_div_mod_converse_div,
    lemma_fundamental_div_mod_converse_mod, lemma_mod_division_less_than_divisor,
    lemma_mod_multiples_basic, lemma_mod_sub_multiples_vanish,
};
use vstd::arithmetic::mul::{
    lemma_mul_inequality, lemma_mul_is_commutative, lemma_mul_is_distributive_add_other_way,
    lemma_mul_is_distributive_sub_other_way,
};
use vstd::prelude::*;

verus! {

/// Zero bias: for each value `v` of a span, the raw draws that are accepted
/// and mapped to `v` form one interval of draws whose length, `(2^64 - t)
/// divided by the span`, does not depend on `v`. Every value of the span is
/// therefore produced by exactly as many accepted draws as every other: the
/// rejection threshold removes the modulo bias completely.
pub proof fn lemma_zero_bias(range: u64, v: u64)
    requires
        1 <= range,
        v < range,
    ensures
        ({
            let t = reject_threshold(range);
            let first = (v * pow64() + t + range - 1) / (range as int);
            let count = (pow64() - t) / (range as int);
            &&& (pow64() - t) % (range as int) == 0
            &&& forall|r: u64|
                (#[trigger] accepts(range, r) && wmul_hi(r, range) == v) <==> (first <= r < first
                    + count)
        }),
{
    let p = pow64();
    let g = range as int;
    let t = reject_threshold(range);
    lemma_mod_division_less_than_divisor(p - g, g);
    assert(t == p % g) by {
        lemma_mod_sub_multiples_vanish(p, g);
    }
    assert((p - t) % g == 0 && p - t == ((p - t) / g) * g) by {
        lemma_fundamental_div_mod(p, g);
        lemma_mul_is_commutative(g, p / g);
        lemma_mod_multiples_basic(p / g, g);
        lemma_fundamental_div_mod(p - t, g);
        lemma_mul_is_commutative(g, (p - t) / g);
    }
    let count = (p - t) / g;
    let a = v * p + t;
    let b = (v + 1) * p;
    assert(b == v * p + p) by {
        lemma_mul_is_distributive_add_other_way(p, v as int, 1);
    }
    let first = (a + g - 1) / g;
    let rem = (a + g - 1) % g;
    lemma_fundamental_div_mod(a + g - 1, g);
    lemma_mod_division_less_than_divisor(a + g - 1, g);
    lemma_mul_is_commutative(g, first);
    assert(first * g == a + g - 1 - rem);
    assert(first * g >= a);
    assert((first - 1) * g < a) by {
        lemma_mul_is_distributive_sub_other_way(g, first, 1);
    }
    assert((first + count) * g == first * g + count * g) by {
        lemma_mul_is_distributive_add_other_way(g, first, count);
    }
    assert((first + count) * g >= b);
    assert((first + count - 1) * g < b) by {
        lemma_mul_is_distributive_sub_other_way(g, first + count, 1);
    }
    assert forall|r: u64|
        (#[trigger] accepts(range, r) && wmul_hi(r, range) == v) <==> (first <= r < first
            + count) by {
        let prod = r * g;
        lemma_fundamental_div_mod(prod, p);
        lemma_mod_division_less_than_divisor(prod, p);
        if accepts(range, r) && wmul_hi(r, range) == v {
            // The product sits in the acceptance window of `v`.
            assert(prod == p * v + wmul_lo(r, range));
            assert(a <= prod < b);
            assert(r >= first) by {
                if r <= first - 1 {
                    lemma_mul_inequality(r as int, first - 1, g);
                }
            }
            assert(r < first + count) by {
                if r >= first + count {
                    lemma_mul_inequality(first + count, r as int, g);
                }
            }
        }
        if first <= r < first + count {
            assert(prod >= a) by {
                lemma_mul_inequality(first, r as int, g);
            }
            assert(prod < b) by {
                lemma_mul_inequality(r as int, first + count - 1, g);
            }
            assert(prod == v * p + (prod - v * p));
            lemma_mul_is_commutative(v as int, p);
            lemma_fundamental_div_mod_converse_div(prod, p, v as int, prod - v * p);
            lemma_fundamental_div_mod_converse_mod(prod, p, v as int, prod - v * p);
            assert(wmul_hi(r, range) == v);
            assert(accepts(range, r));
        }
    }
}

/// Sampling over the entire representable domain of `u8` never rejects a
/// draw: the span `2^8` divides `2^64`, so the rejection threshold is zero
/// and every raw draw passes the acceptance test.
pub proof fn lemma_full_domain_never_rejects_u8()
    ensures
        UniformInt::<u8>::spec_new_inclusive(0, u8::MAX) is Ok,
        UniformInt::<u8>::spec_new_inclusive(0, u8::MAX) matches Ok(s) ==> s.thresh == 0 && (
        forall|r: u64| #[trigger] accepts(s.range, r)),
{
    let s = UniformInt::<u8>::spec_new_inclusive(0, u8::MAX)->Ok_0;
    assert(s.range == 0x100);
    assert(reject_threshold(0x100) == 0) by {
        assert(pow64() - 0x100 == 0xFF_FFFF_FFFF_FFFF * 0x100);
        lemma_mod_multiples_basic(0xFF_FFFF_FFFF_FFFF, 0x100);
    }
    assert forall|r: u64| #[trigger] accepts(s.range, r) by {
        lemma_mod_division_less_than_divisor(r * 0x100, pow64());
    }
}

/// Sampling over the entire representable domain of `u32` never rejects a
/// draw: the span `2^32` divides `2^64`, so the rejection threshold is zero
/// and every raw draw passes the acceptance test.
pub proof fn lemma_full_domain_never_rejects_u32()
    ensures
        UniformInt::<u32>::spec_new_inclusive(0, u32::MAX) is Ok,
        UniformInt::<u32>::spec_new_inclusive(0, u32::MAX) matches Ok(s) ==> s.thresh == 0 && (
        forall|r: u64| #[trigger] accepts(s.range, r)),
{
    let s = UniformInt::<u32>::spec_new_inclusive(0, u32::MAX)->Ok_0;
    assert(s.range == 0x1_0000_0000);
    assert(reject_threshold(0x1_0000_0000) == 0) by {
        assert(pow64() - 0x1_0000_0000 == 0xFFFF_FFFF * 0x1_0000_0000);
        lemma_mod_multiples_basic(0xFFFF_FFFF, 0x1_0000_0000);
    }
    assert forall|r: u64| #[trigger] accepts(s.range, r) by {
        lemma_mod_division_less_than_divisor(r * 0x1_0000_0000, pow64());
    }
}

/// Sampling over the entire representable domain of `u64` skips rejection
/// entirely: the sampler is built with the full-domain marker, and the
/// sampling path adds the raw draw to `low` without any acceptance test.
pub proof fn lemma_full_domain_direct_u64()
    ensures
        UniformInt::<u64>::spec_new_inclusive(0, u64::MAX) == Result::<
            UniformInt<u64>,
            crate::uniform::Error,
        >::Ok((UniformInt { low: 0u64, range: 0u64, thresh: 0u64 })),
{
}

/// A degenerate inclusive range holds exactly its bound: every value a
/// sampler built by `new_inclusive(v, v)` can produce equals `v`.
pub proof fn lemma_degenerate_inclusive_yields_bound_u32(v: u32)
    ensures
        UniformInt::<u32>::spec_new_inclusive(v, v) is Ok,
        UniformInt::<u32>::spec_new_inclusive(v, v) matches Ok(s) ==> forall|x: u32|
            #[trigger] s.contains(x) ==> x == v,
{
    let s = UniformInt::<u32>::spec_new_inclusive(v, v)->Ok_0;
    assert(s.range == 1);
    assert(forall|x: u32| #[trigger] s.contains(x) ==> x == v);
}

/// Equality of distributions over exclusive ranges is structural: samplers
/// built from the same bounds are equal, and samplers built from different
/// bounds are unequal.
pub proof fn lemma_eq_iff_same_bounds_u32(l1: u32, h1: u32, l2: u32, h2: u32)
    requires
        l1 < h1,
        l2 < h2,
    ensures
        UniformInt::<u32>::spec_new(l1, h1) == UniformInt::<u32>::spec_new(l2, h2) <==> (l1 == l2
            && h1 == h2),
{
    if UniformInt::<u32>::spec_new(l1, h1) == UniformInt::<u32>::spec_new(l2, h2) {
        let s1 = UniformInt::<u32>::spec_new(l1, h1)->Ok_0;
        let s2 = UniformInt::<u32>::spec_new(l2, h2)->Ok_0;
        assert(s1.low == s2.low);
        assert(s1.range == s2.range);
        assert(h1 - l1 == h2 - l2);
    }
}

/// Equality of distributions over inclusive ranges is structural, as for
/// exclusive ranges.
pub proof fn lemma_eq_iff_same_bounds_inclusive_u32(l1: u32, h1: u32, l2: u32, h2: u32)
    requires
        l1 <= h1,
        l2 <= h2,
    ensures
        UniformInt::<u32>::spec_new_inclusive(l1, h1) == UniformInt::<u32>::spec_new_inclusive(
            l2,
            h2,
        ) <==> (l1 == l2 && h1 == h2),
{
    if UniformInt::<u32>::spec_new_inclusive(l1, h1) == UniformInt::<u32>::spec_new_inclusive(
        l2,
        h2,
    ) {
        let s1 = UniformInt::<u32>::spec_new_inclusive(l1, h1)->Ok_0;
        let s2 = UniformInt::<u32>::spec_new_inclusive(l2, h2)->Ok_0;
        assert(s1.low == s2.low);
        assert(s1.range == s2.range);
        assert(h1 - l1 == h2 - l2);
    }
}

/// The single-shot path draws from the same distribution as the reusable
/// path: it succeeds on exactly the bounds the reusable constructor accepts,
/// and the values it can return are exactly the values the reusable sampler
/// can produce.
pub proof fn lemma_single_matches_reusable_u32(low: u32, high: u32)
    ensures
        (UniformInt::<u32>::spec_new(low, high) is Ok) == UniformInt::<u32>::valid_exclusive(
            low,
            high,
        ),
        UniformInt::<u32>::spec_new(low, high) matches Ok(s) ==> forall|x: u32|
            #[trigger] s.contains(x) == UniformInt::<u32>::in_exclusive_range(low, high, x),
{
    if low < high {
        let s = UniformInt::<u32>::spec_new(low, high)->Ok_0;
        assert(forall|x: u32| #[trigger] s.contains(x) == (low <= x < high));
    }
}

} // verus!
