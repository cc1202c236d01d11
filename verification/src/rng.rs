//! The bit source: an opaque supplier of uniformly distributed raw bits.

use vstd::prelude::*;

verus! {

/// A source of uniformly distributed fixed-width unsigned integers.
///
/// Nothing is promised about the values drawn: every contract in this crate
/// holds for every sequence of draws. Uniformity of the produced samples is
/// inherited from uniformity of the source, which is the implementor's
/// responsibility.
pub trait RngCore {
    /// Returns the next 32 raw bits from the source.
    fn next_u32(&mut self) -> u32;

    /// Returns the next 64 raw bits from the source.
    fn next_u64(&mut self) -> u64;
}

} // verus!
