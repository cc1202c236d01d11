//! Uniform sampling over ranges of integers, together with the small
//! path-bookkeeping and manifest helpers that accompany it.
//!
//! The heart of the crate is the widening-multiply rejection sampler: given a
//! source of uniformly distributed raw bits, it produces values uniformly
//! distributed over `[low, high)` or `[low, high]` without modulo bias. The
//! `laws` module states and proves the framework's global properties, among
//! them that the rejection threshold removes the modulo bias completely.

pub mod laws;
pub mod print;
pub mod rng;
pub mod temp_path;
pub mod uniform;
pub mod uniform_int;
pub mod wmul;

pub use rng::RngCore;
pub use temp_path::{PathPersistError, TempPath};
pub use uniform::{Error, SampleBorrow, SampleRange, SampleUniform, Uniform, UniformSampler};
pub use uniform_int::UniformInt;
