//! The integer back-end: widening-multiply rejection sampling.
//!
//! `UniformInt<X>` holds the unsigned span of the requested range and the
//! rejection threshold, both computed once at construction. Raw 64-bit draws
//! are mapped into the span by the high half of a widening multiply; the low
//! half is tested against the threshold so that no span width is biased.

use crate::rng::RngCore;
use crate::uniform::{Error, SampleRange, SampleUniform, UniformSampler};
use crate::wmul::{reject_thresh, reject_threshold, sample_span};
use core::ops::{Range, RangeInclusive};
use vstd::prelude::*;

verus! {

/// The back-end for uniform sampling of integers.
///
/// `low` is the inclusive lower bound; `range` is the count of values in the
/// span (`0` marks the full 64-bit domain, which no `u64` can count); `thresh`
/// is the precomputed rejection threshold.
#[derive(Clone, Copy, Debug, PartialEq, Eq, Structural)]
pub struct UniformInt<X> {
    /// Inclusive lower bound of the range.
    pub low: X,
    /// Number of values in the range; `0` stands for `2^64`.
    pub range: u64,
    /// Rejection threshold `(2^64 - range) mod range`.
    pub thresh: u64,
}

impl SampleUniform for u8 {
    type Sampler = UniformInt<u8>;
}

impl SampleUniform for u32 {
    type Sampler = UniformInt<u32>;
}

impl SampleUniform for u64 {
    type Sampler = UniformInt<u64>;
}

impl SampleUniform for i32 {
    type Sampler = UniformInt<i32>;
}

impl UniformSampler for UniformInt<u8> {
    type X = u8;

    open spec fn wf(&self) -> bool {
        &&& 1 <= self.range <= 0x100
        &&& self.thresh == reject_threshold(self.range)
        &&& self.low + self.range <= 0x100
    }

    open spec fn contains(&self, x: u8) -> bool {
        self.low <= x < self.low + self.range
    }

    open spec fn valid_exclusive(low: u8, high: u8) -> bool {
        low < high
    }

    open spec fn valid_inclusive(low: u8, high: u8) -> bool {
        low <= high
    }

    open spec fn in_exclusive_range(low: u8, high: u8, x: u8) -> bool {
        low <= x < high
    }

    open spec fn in_inclusive_range(low: u8, high: u8, x: u8) -> bool {
        low <= x <= high
    }

    open spec fn spec_new(low: u8, high: u8) -> Result<Self, Error> {
        if low < high {
            Ok(
                UniformInt {
                    low,
                    range: (high - low) as u64,
                    thresh: reject_threshold((high - low) as u64) as u64,
                },
            )
        } else {
            Err(Error::EmptyRange)
        }
    }

    open spec fn spec_new_inclusive(low: u8, high: u8) -> Result<Self, Error> {
        if low <= high {
            Ok(
                UniformInt {
                    low,
                    range: (high - low + 1) as u64,
                    thresh: reject_threshold((high - low + 1) as u64) as u64,
                },
            )
        } else {
            Err(Error::EmptyRange)
        }
    }

    fn new(low: u8, high: u8) -> (r: Result<Self, Error>) {
        if low < high {
            let range: u64 = (high - low) as u64;
            let thresh: u64 = reject_thresh(range);
            let s = UniformInt { low, range, thresh };
            proof {
                assert(s.wf());
                assert(forall|x: u8| #[trigger] s.contains(x) == (low <= x < high));
            }
            Ok(s)
        } else {
            Err(Error::EmptyRange)
        }
    }

    fn new_inclusive(low: u8, high: u8) -> (r: Result<Self, Error>) {
        if low <= high {
            let range: u64 = (high - low) as u64 + 1;
            let thresh: u64 = reject_thresh(range);
            let s = UniformInt { low, range, thresh };
            proof {
                assert(s.wf());
                assert(forall|x: u8| #[trigger] s.contains(x) == (low <= x <= high));
            }
            Ok(s)
        } else {
            Err(Error::EmptyRange)
        }
    }

    fn sample<R: RngCore>(&self, rng: &mut R) -> (x: u8) {
        let hi = sample_span(self.range, self.thresh, rng);
        let x = self.low + (hi as u8);
        proof {
            assert(self.contains(x));
        }
        x
    }
}

impl UniformSampler for UniformInt<u32> {
    type X = u32;

    open spec fn wf(&self) -> bool {
        &&& 1 <= self.range <= 0x1_0000_0000
        &&& self.thresh == reject_threshold(self.range)
        &&& self.low + self.range <= 0x1_0000_0000
    }

    open spec fn contains(&self, x: u32) -> bool {
        self.low <= x < self.low + self.range
    }

    open spec fn valid_exclusive(low: u32, high: u32) -> bool {
        low < high
    }

    open spec fn valid_inclusive(low: u32, high: u32) -> bool {
        low <= high
    }

    open spec fn in_exclusive_range(low: u32, high: u32, x: u32) -> bool {
        low <= x < high
    }

    open spec fn in_inclusive_range(low: u32, high: u32, x: u32) -> bool {
        low <= x <= high
    }

    open spec fn spec_new(low: u32, high: u32) -> Result<Self, Error> {
        if low < high {
            Ok(
                UniformInt {
                    low,
                    range: (high - low) as u64,
                    thresh: reject_threshold((high - low) as u64) as u64,
                },
            )
        } else {
            Err(Error::EmptyRange)
        }
    }

    open spec fn spec_new_inclusive(low: u32, high: u32) -> Result<Self, Error> {
        if low <= high {
            Ok(
                UniformInt {
                    low,
                    range: (high - low + 1) as u64,
                    thresh: reject_threshold((high - low + 1) as u64) as u64,
                },
            )
        } else {
            Err(Error::EmptyRange)
        }
    }

    fn new(low: u32, high: u32) -> (r: Result<Self, Error>) {
        if low < high {
            let range: u64 = (high - low) as u64;
            let thresh: u64 = reject_thresh(range);
            let s = UniformInt { low, range, thresh };
            proof {
                assert(s.wf());
                assert(forall|x: u32| #[trigger] s.contains(x) == (low <= x < high));
            }
            Ok(s)
        } else {
            Err(Error::EmptyRange)
        }
    }

    fn new_inclusive(low: u32, high: u32) -> (r: Result<Self, Error>) {
        if low <= high {
            let range: u64 = (high - low) as u64 + 1;
            let thresh: u64 = reject_thresh(range);
            let s = UniformInt { low, range, thresh };
            proof {
                assert(s.wf());
                assert(forall|x: u32| #[trigger] s.contains(x) == (low <= x <= high));
            }
            Ok(s)
        } else {
            Err(Error::EmptyRange)
        }
    }

    fn sample<R: RngCore>(&self, rng: &mut R) -> (x: u32) {
        let hi = sample_span(self.range, self.thresh, rng);
        let x = self.low + (hi as u32);
        proof {
            assert(self.contains(x));
        }
        x
    }
}

impl UniformSampler for UniformInt<u64> {
    type X = u64;

    open spec fn wf(&self) -> bool {
        &&& self.range == 0 ==> self.low == 0 && self.thresh == 0
        &&& self.range >= 1 ==> self.thresh == reject_threshold(self.range) && self.low
            + self.range <= 0x1_0000_0000_0000_0000
    }

    open spec fn contains(&self, x: u64) -> bool {
        if self.range == 0 {
            true
        } else {
            self.low <= x < self.low + self.range
        }
    }

    open spec fn valid_exclusive(low: u64, high: u64) -> bool {
        low < high
    }

    open spec fn valid_inclusive(low: u64, high: u64) -> bool {
        low <= high
    }

    open spec fn in_exclusive_range(low: u64, high: u64, x: u64) -> bool {
        low <= x < high
    }

    open spec fn in_inclusive_range(low: u64, high: u64, x: u64) -> bool {
        low <= x <= high
    }

    open spec fn spec_new(low: u64, high: u64) -> Result<Self, Error> {
        if low < high {
            Ok(
                UniformInt {
                    low,
                    range: (high - low) as u64,
                    thresh: reject_threshold((high - low) as u64) as u64,
                },
            )
        } else {
            Err(Error::EmptyRange)
        }
    }

    open spec fn spec_new_inclusive(low: u64, high: u64) -> Result<Self, Error> {
        if low <= high {
            if low == 0 && high == 0xFFFF_FFFF_FFFF_FFFFu64 {
                Ok(UniformInt { low, range: 0u64, thresh: 0u64 })
            } else {
                Ok(
                    UniformInt {
                        low,
                        range: (high - low + 1) as u64,
                        thresh: reject_threshold((high - low + 1) as u64) as u64,
                    },
                )
            }
        } else {
            Err(Error::EmptyRange)
        }
    }

    fn new(low: u64, high: u64) -> (r: Result<Self, Error>) {
        if low < high {
            let range: u64 = high - low;
            let thresh: u64 = reject_thresh(range);
            let s = UniformInt { low, range, thresh };
            proof {
                assert(s.wf());
                assert(forall|x: u64| #[trigger] s.contains(x) == (low <= x < high));
            }
            Ok(s)
        } else {
            Err(Error::EmptyRange)
        }
    }

    fn new_inclusive(low: u64, high: u64) -> (r: Result<Self, Error>) {
        if low <= high {
            if low == 0 && high == u64::MAX {
                let s = UniformInt { low, range: 0u64, thresh: 0u64 };
                proof {
                    assert(s.wf());
                    assert(forall|x: u64| #[trigger] s.contains(x) == (low <= x <= high));
                }
                Ok(s)
            } else {
                let range: u64 = high - low + 1;
                let thresh: u64 = reject_thresh(range);
                let s = UniformInt { low, range, thresh };
                proof {
                    assert(s.wf());
                    assert(forall|x: u64| #[trigger] s.contains(x) == (low <= x <= high));
                }
                Ok(s)
            }
        } else {
            Err(Error::EmptyRange)
        }
    }

    fn sample<R: RngCore>(&self, rng: &mut R) -> (x: u64) {
        if self.range == 0 {
            // The caller requested the entire domain: every raw bit pattern is
            // already uniform, so the draw is used as it stands.
            let r = rng.next_u64();
            let x = self.low.wrapping_add(r);
            proof {
                assert(self.contains(x));
            }
            x
        } else {
            let hi = sample_span(self.range, self.thresh, rng);
            let x = self.low + hi;
            proof {
                assert(self.contains(x));
            }
            x
        }
    }
}

impl UniformSampler for UniformInt<i32> {
    type X = i32;

    open spec fn wf(&self) -> bool {
        &&& 1 <= self.range <= 0x1_0000_0000
        &&& self.thresh == reject_threshold(self.range)
        &&& self.low + self.range <= 0x8000_0000
    }

    open spec fn contains(&self, x: i32) -> bool {
        self.low <= x < self.low + self.range
    }

    open spec fn valid_exclusive(low: i32, high: i32) -> bool {
        low < high
    }

    open spec fn valid_inclusive(low: i32, high: i32) -> bool {
        low <= high
    }

    open spec fn in_exclusive_range(low: i32, high: i32, x: i32) -> bool {
        low <= x < high
    }

    open spec fn in_inclusive_range(low: i32, high: i32, x: i32) -> bool {
        low <= x <= high
    }

    open spec fn spec_new(low: i32, high: i32) -> Result<Self, Error> {
        if low < high {
            Ok(
                UniformInt {
                    low,
                    range: (high - low) as u64,
                    thresh: reject_threshold((high - low) as u64) as u64,
                },
            )
        } else {
            Err(Error::EmptyRange)
        }
    }

    open spec fn spec_new_inclusive(low: i32, high: i32) -> Result<Self, Error> {
        if low <= high {
            Ok(
                UniformInt {
                    low,
                    range: (high - low + 1) as u64,
                    thresh: reject_threshold((high - low + 1) as u64) as u64,
                },
            )
        } else {
            Err(Error::EmptyRange)
        }
    }

    fn new(low: i32, high: i32) -> (r: Result<Self, Error>) {
        if low < high {
            let range: u64 = ((high as i64) - (low as i64)) as u64;
            let thresh: u64 = reject_thresh(range);
            let s = UniformInt { low, range, thresh };
            proof {
                assert(s.wf());
                assert(forall|x: i32| #[trigger] s.contains(x) == (low <= x < high));
            }
            Ok(s)
        } else {
            Err(Error::EmptyRange)
        }
    }

    fn new_inclusive(low: i32, high: i32) -> (r: Result<Self, Error>) {
        if low <= high {
            let range: u64 = ((high as i64) - (low as i64)) as u64 + 1;
            let thresh: u64 = reject_thresh(range);
            let s = UniformInt { low, range, thresh };
            proof {
                assert(s.wf());
                assert(forall|x: i32| #[trigger] s.contains(x) == (low <= x <= high));
            }
            Ok(s)
        } else {
            Err(Error::EmptyRange)
        }
    }

    fn sample<R: RngCore>(&self, rng: &mut R) -> (x: i32) {
        let hi = sample_span(self.range, self.thresh, rng);
        let x = ((self.low as i64) + (hi as i64)) as i32;
        proof {
            assert(self.contains(x));
        }
        x
    }
}

/// Relies on core::ops::RangeInclusive::start: returns the inclusive lower
/// bound the range was constructed with.
pub assume_specification<Idx>[ RangeInclusive::<Idx>::start ](
    r: &RangeInclusive<Idx>,
) -> (ret: &Idx)
    ensures
        *ret == r@.start,
;

/// Relies on core::ops::RangeInclusive::end: returns the inclusive upper
/// bound the range was constructed with.
pub assume_specification<Idx>[ RangeInclusive::<Idx>::end ](r: &RangeInclusive<Idx>) -> (ret: &Idx)
    ensures
        *ret == r@.end,
;

/// Relies on core::ops::RangeInclusive::into_inner: destructures the range
/// into its `(lower, upper)` bounds.
pub assume_specification<Idx>[ RangeInclusive::<Idx>::into_inner ](r: RangeInclusive<Idx>) -> (ret:
    (Idx, Idx))
    ensures
        ret.0 == r@.start,
        ret.1 == r@.end,
;

impl SampleRange<u8> for Range<u8> {
    open spec fn spec_is_empty(&self) -> bool {
        !(self.start < self.end)
    }

    open spec fn spec_contains(&self, x: u8) -> bool {
        self.start <= x < self.end
    }

    fn sample_single<R: RngCore>(self, rng: &mut R) -> (r: Result<u8, Error>) {
        UniformInt::<u8>::sample_single(self.start, self.end, rng)
    }

    fn is_empty(&self) -> (b: bool) {
        !(self.start < self.end)
    }
}

impl SampleRange<u32> for Range<u32> {
    open spec fn spec_is_empty(&self) -> bool {
        !(self.start < self.end)
    }

    open spec fn spec_contains(&self, x: u32) -> bool {
        self.start <= x < self.end
    }

    fn sample_single<R: RngCore>(self, rng: &mut R) -> (r: Result<u32, Error>) {
        UniformInt::<u32>::sample_single(self.start, self.end, rng)
    }

    fn is_empty(&self) -> (b: bool) {
        !(self.start < self.end)
    }
}

impl SampleRange<u64> for Range<u64> {
    open spec fn spec_is_empty(&self) -> bool {
        !(self.start < self.end)
    }

    open spec fn spec_contains(&self, x: u64) -> bool {
        self.start <= x < self.end
    }

    fn sample_single<R: RngCore>(self, rng: &mut R) -> (r: Result<u64, Error>) {
        UniformInt::<u64>::sample_single(self.start, self.end, rng)
    }

    fn is_empty(&self) -> (b: bool) {
        !(self.start < self.end)
    }
}

impl SampleRange<i32> for Range<i32> {
    open spec fn spec_is_empty(&self) -> bool {
        !(self.start < self.end)
    }

    open spec fn spec_contains(&self, x: i32) -> bool {
        self.start <= x < self.end
    }

    fn sample_single<R: RngCore>(self, rng: &mut R) -> (r: Result<i32, Error>) {
        UniformInt::<i32>::sample_single(self.start, self.end, rng)
    }

    fn is_empty(&self) -> (b: bool) {
        !(self.start < self.end)
    }
}

impl SampleRange<u8> for RangeInclusive<u8> {
    open spec fn spec_is_empty(&self) -> bool {
        !(self@.start <= self@.end)
    }

    open spec fn spec_contains(&self, x: u8) -> bool {
        self@.start <= x <= self@.end
    }

    fn sample_single<R: RngCore>(self, rng: &mut R) -> (r: Result<u8, Error>) {
        let (low, high) = self.into_inner();
        UniformInt::<u8>::sample_single_inclusive(low, high, rng)
    }

    fn is_empty(&self) -> (b: bool) {
        !(*self.start() <= *self.end())
    }
}

impl SampleRange<u32> for RangeInclusive<u32> {
    open spec fn spec_is_empty(&self) -> bool {
        !(self@.start <= self@.end)
    }

    open spec fn spec_contains(&self, x: u32) -> bool {
        self@.start <= x <= self@.end
    }

    fn sample_single<R: RngCore>(self, rng: &mut R) -> (r: Result<u32, Error>) {
        let (low, high) = self.into_inner();
        UniformInt::<u32>::sample_single_inclusive(low, high, rng)
    }

    fn is_empty(&self) -> (b: bool) {
        !(*self.start() <= *self.end())
    }
}

impl SampleRange<u64> for RangeInclusive<u64> {
    open spec fn spec_is_empty(&self) -> bool {
        !(self@.start <= self@.end)
    }

    open spec fn spec_contains(&self, x: u64) -> bool {
        self@.start <= x <= self@.end
    }

    fn sample_single<R: RngCore>(self, rng: &mut R) -> (r: Result<u64, Error>) {
        let (low, high) = self.into_inner();
        UniformInt::<u64>::sample_single_inclusive(low, high, rng)
    }

    fn is_empty(&self) -> (b: bool) {
        !(*self.start() <= *self.end())
    }
}

impl SampleRange<i32> for RangeInclusive<i32> {
    open spec fn spec_is_empty(&self) -> bool {
        !(self@.start <= self@.end)
    }

    open spec fn spec_contains(&self, x: i32) -> bool {
        self@.start <= x <= self@.end
    }

    fn sample_single<R: RngCore>(self, rng: &mut R) -> (r: Result<i32, Error>) {
        let (low, high) = self.into_inner();
        UniformInt::<i32>::sample_single_inclusive(low, high, rng)
    }

    fn is_empty(&self) -> (b: bool) {
        !(*self.start() <= *self.end())
    }
}

} // verus!
