//! What the probability distributions built on the generators share: the
//! error of their constructors, and the integer side of their samplers.

use vstd::prelude::*;

pub mod expansion;

pub use expansion::SymmetricExpansion;

verus! {

/// Error returned when a distribution is constructed with parameters outside
/// its domain: a probability outside `[0, 1]`, a scale or shape that is not
/// positive, a bound that is not finite, or an interval whose ends are
/// inverted.
#[derive(Debug, Clone, Copy, PartialEq, Eq)]
pub enum DistError {
    InvalidParameter,
}

} // verus!
