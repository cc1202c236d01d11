//! A distribution uniformly sampling values within a given range.
//!
//! [`Uniform`] binds a validated range to its backend; constructing it is the
//! only place errors surface, and once constructed, sampling cannot fail. The
//! back-ends implement [`UniformSampler`] and are registered for their value
//! type through [`SampleUniform`].

use crate::rng::RngCore;
use vstd::prelude::*;

verus! {

/// Error type returned from [`Uniform::new`] and [`Uniform::new_inclusive`].
#[derive(Clone, Copy, Debug, PartialEq, Eq, Structural)]
pub enum Error {
    /// `low > high`, or equal in the case of an exclusive range.
    EmptyRange,
    /// A bound or the span `high - low` is not a finite number.
    /// Integer ranges never produce this kind.
    NonFinite,
}

impl Error {
    /// The human-readable description of the error.
    pub fn message(&self) -> (r: String)
        ensures
            *self is EmptyRange ==> r@ == "low > high (or equal if exclusive) in uniform distribution"@,
            *self is NonFinite ==> r@ == "Non-finite range in uniform distribution"@,
    {
        match self {
            Error::EmptyRange => "low > high (or equal if exclusive) in uniform distribution".to_owned(),
            Error::NonFinite => "Non-finite range in uniform distribution".to_owned(),
        }
    }
}

/// Helper trait registering the [`UniformSampler`] implementation that
/// supports a sampling type.
pub trait SampleUniform: Sized {
    /// The `UniformSampler` implementation supporting type `Self`.
    type Sampler: UniformSampler<X = Self>;
}

/// Helper trait handling the actual uniform sampling.
///
/// A back-end owns the state precomputed from a validated range and maps raw
/// bits from the [`RngCore`] source into values of its range. Construction is
/// a deterministic function of the bounds; sampling always lands inside the
/// range the sampler was built from, whatever the source draws.
pub trait UniformSampler: Sized {
    /// The type sampled by this implementation.
    type X;

    /// Well-formedness of the precomputed sampler state.
    spec fn wf(&self) -> bool;

    /// The set of values this sampler can produce.
    spec fn contains(&self, x: Self::X) -> bool;

    /// Whether `[low, high)` is a non-empty exclusive range.
    spec fn valid_exclusive(low: Self::X, high: Self::X) -> bool;

    /// Whether `[low, high]` is a non-empty inclusive range.
    spec fn valid_inclusive(low: Self::X, high: Self::X) -> bool;

    /// Whether `x` lies in the exclusive range `[low, high)`.
    spec fn in_exclusive_range(low: Self::X, high: Self::X, x: Self::X) -> bool;

    /// Whether `x` lies in the inclusive range `[low, high]`.
    spec fn in_inclusive_range(low: Self::X, high: Self::X, x: Self::X) -> bool;

    /// The value `new` returns: construction is deterministic in the bounds.
    spec fn spec_new(low: Self::X, high: Self::X) -> Result<Self, Error>;

    /// The value `new_inclusive` returns.
    spec fn spec_new_inclusive(low: Self::X, high: Self::X) -> Result<Self, Error>;

    /// Construct a sampler for the exclusive range `[low, high)`.
    fn new(low: Self::X, high: Self::X) -> (r: Result<Self, Error>)
        ensures
            r == Self::spec_new(low, high),
            r is Ok <==> Self::valid_exclusive(low, high),
            r matches Ok(s) ==> s.wf() && (forall|x: Self::X|
                #[trigger] s.contains(x) == Self::in_exclusive_range(low, high, x)),
    ;

    /// Construct a sampler for the inclusive range `[low, high]`.
    fn new_inclusive(low: Self::X, high: Self::X) -> (r: Result<Self, Error>)
        ensures
            r == Self::spec_new_inclusive(low, high),
            r is Ok <==> Self::valid_inclusive(low, high),
            r matches Ok(s) ==> s.wf() && (forall|x: Self::X|
                #[trigger] s.contains(x) == Self::in_inclusive_range(low, high, x)),
    ;

    /// Sample a value. Infallible: every draw sequence yields a value of the
    /// sampler's range.
    fn sample<R: RngCore>(&self, rng: &mut R) -> (x: Self::X)
        requires
            self.wf(),
        ensures
            self.contains(x),
    ;

    /// Sample a single value from the exclusive range `[low, high)` without
    /// persisting the precomputed sampler state. Validation precedes any
    /// draw: a rejected range leaves the bit source untouched.
    fn sample_single<R: RngCore>(low: Self::X, high: Self::X, rng: &mut R) -> (r: Result<
        Self::X,
        Error,
    >)
        ensures
            r is Ok <==> Self::valid_exclusive(low, high),
            r matches Ok(x) ==> Self::in_exclusive_range(low, high, x),
            r matches Err(e) ==> Self::spec_new(low, high) == Result::<Self, Error>::Err(e),
            r is Err ==> *final(rng) == *old(rng),
    {
        match Self::new(low, high) {
            Ok(s) => Ok(s.sample(rng)),
            Err(e) => Err(e),
        }
    }

    /// Sample a single value from the inclusive range `[low, high]` without
    /// persisting the precomputed sampler state. Validation precedes any
    /// draw: a rejected range leaves the bit source untouched.
    fn sample_single_inclusive<R: RngCore>(low: Self::X, high: Self::X, rng: &mut R) -> (r: Result<
        Self::X,
        Error,
    >)
        ensures
            r is Ok <==> Self::valid_inclusive(low, high),
            r matches Ok(x) ==> Self::in_inclusive_range(low, high, x),
            r matches Err(e) ==> Self::spec_new_inclusive(low, high) == Result::<Self, Error>::Err(
                e,
            ),
            r is Err ==> *final(rng) == *old(rng),
    {
        match Self::new_inclusive(low, high) {
            Ok(s) => Ok(s.sample(rng)),
            Err(e) => Err(e),
        }
    }
}

/// Sample values uniformly between two bounds.
///
/// Two distributions over equal bounds and the same inclusiveness hold equal
/// sampler state; the comparison is structural, never identity-based.
#[derive(Clone, Copy, Debug, PartialEq, Eq)]
pub struct Uniform<X: SampleUniform>(X::Sampler);

impl<X: SampleUniform> Uniform<X> {
    /// The sampler state this distribution wraps.
    pub closed spec fn sampler(&self) -> X::Sampler {
        self.0
    }

    /// Well-formedness of the wrapped sampler state.
    pub open spec fn wf(&self) -> bool {
        self.sampler().wf()
    }

    /// Create a `Uniform` instance sampling from the half-open range
    /// `[low, high)`. Fails with [`Error::EmptyRange`] exactly when
    /// `low >= high`.
    pub fn new(low: X, high: X) -> (r: Result<Uniform<X>, Error>)
        ensures
            r is Ok <==> X::Sampler::valid_exclusive(low, high),
            r matches Ok(u) ==> X::Sampler::spec_new(low, high) == Result::<X::Sampler, Error>::Ok(
                u.sampler(),
            ),
            r matches Ok(u) ==> u.wf() && (forall|x: X|
                #[trigger] u.sampler().contains(x) == X::Sampler::in_exclusive_range(
                    low,
                    high,
                    x,
                )),
            r matches Err(e) ==> X::Sampler::spec_new(low, high) == Result::<
                X::Sampler,
                Error,
            >::Err(e),
    {
        match X::Sampler::new(low, high) {
            Ok(s) => Ok(Uniform(s)),
            Err(e) => Err(e),
        }
    }

    /// Create a `Uniform` instance sampling from the closed range
    /// `[low, high]`. Fails with [`Error::EmptyRange`] exactly when
    /// `low > high`.
    pub fn new_inclusive(low: X, high: X) -> (r: Result<Uniform<X>, Error>)
        ensures
            r is Ok <==> X::Sampler::valid_inclusive(low, high),
            r matches Ok(u) ==> X::Sampler::spec_new_inclusive(low, high) == Result::<
                X::Sampler,
                Error,
            >::Ok(u.sampler()),
            r matches Ok(u) ==> u.wf() && (forall|x: X|
                #[trigger] u.sampler().contains(x) == X::Sampler::in_inclusive_range(
                    low,
                    high,
                    x,
                )),
            r matches Err(e) ==> X::Sampler::spec_new_inclusive(low, high) == Result::<
                X::Sampler,
                Error,
            >::Err(e),
    {
        match X::Sampler::new_inclusive(low, high) {
            Ok(s) => Ok(Uniform(s)),
            Err(e) => Err(e),
        }
    }

    /// Draw a sample from the supplied bit source.
    pub fn sample<R: RngCore>(&self, rng: &mut R) -> (x: X)
        requires
            self.wf(),
        ensures
            self.sampler().contains(x),
    {
        self.0.sample(rng)
    }

    /// Convert a half-open interval into the fallible constructor: the
    /// distribution over `[start, end)`.
    pub fn from_range(r: core::ops::Range<X>) -> (res: Result<Uniform<X>, Error>)
        ensures
            res is Ok <==> X::Sampler::valid_exclusive(r.start, r.end),
            res matches Ok(u) ==> X::Sampler::spec_new(r.start, r.end) == Result::<
                X::Sampler,
                Error,
            >::Ok(u.sampler()),
            res matches Ok(u) ==> u.wf(),
            res matches Err(e) ==> X::Sampler::spec_new(r.start, r.end) == Result::<
                X::Sampler,
                Error,
            >::Err(e),
    {
        Uniform::new(r.start, r.end)
    }

    /// Convert a closed interval into the fallible constructor: the
    /// distribution over `[start, end]`.
    pub fn from_range_inclusive(r: core::ops::RangeInclusive<X>) -> (res: Result<
        Uniform<X>,
        Error,
    >)
        ensures
            res is Ok <==> X::Sampler::valid_inclusive(r@.start, r@.end),
            res matches Ok(u) ==> X::Sampler::spec_new_inclusive(r@.start, r@.end) == Result::<
                X::Sampler,
                Error,
            >::Ok(u.sampler()),
            res matches Ok(u) ==> u.wf(),
            res matches Err(e) ==> X::Sampler::spec_new_inclusive(r@.start, r@.end) == Result::<
                X::Sampler,
                Error,
            >::Err(e),
    {
        let (start, end) = r.into_inner();
        Uniform::new_inclusive(start, end)
    }
}

/// Helper trait similar to `Borrow`, implemented only for [`SampleUniform`]
/// types and references to them, to resolve ambiguity issues.
pub trait SampleBorrow<Borrowed> {
    /// The value this stands for.
    spec fn borrowed(&self) -> Borrowed;

    /// Immutably borrows the underlying value.
    fn borrow(&self) -> (r: &Borrowed)
        ensures
            *r == self.borrowed(),
    ;
}

impl<Borrowed: SampleUniform> SampleBorrow<Borrowed> for Borrowed {
    open spec fn borrowed(&self) -> Borrowed {
        *self
    }

    #[inline(always)]
    fn borrow(&self) -> (r: &Borrowed) {
        self
    }
}

impl<'a, Borrowed: SampleUniform> SampleBorrow<Borrowed> for &'a Borrowed {
    open spec fn borrowed(&self) -> Borrowed {
        **self
    }

    #[inline(always)]
    fn borrow(&self) -> (r: &Borrowed) {
        *self
    }
}

/// Range notation that supports generating a single sample efficiently.
pub trait SampleRange<T> {
    /// Whether the range holds no value.
    spec fn spec_is_empty(&self) -> bool;

    /// Whether `x` lies in the range.
    spec fn spec_contains(&self, x: T) -> bool;

    /// Generate a single sample from the range. An empty range is rejected
    /// as [`Error::EmptyRange`] before any draw is taken.
    fn sample_single<R: RngCore>(self, rng: &mut R) -> (r: Result<T, Error>)
        ensures
            r is Ok <==> !self.spec_is_empty(),
            r matches Ok(x) ==> self.spec_contains(x),
            r matches Err(e) ==> e == Error::EmptyRange,
            r is Err ==> *final(rng) == *old(rng),
    ;

    /// Check whether the range is empty.
    fn is_empty(&self) -> (b: bool)
        ensures
            b == self.spec_is_empty(),
    ;
}

} // verus!
