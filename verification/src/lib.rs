//! Verified core of a small statistics library: deterministic pseudo-random
//! bit generators whose every output is pinned down by a mathematical model
//! of the generator state.
//!
//! Each generator has a view (`@`) that exposes its state as plain integers,
//! and the contracts of its methods are written over that view, so a caller
//! can reason about exactly which values a generator will produce.

pub mod dist;
pub mod rng;

pub use dist::DistError;
pub use rng::RngCore;
