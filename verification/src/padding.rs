//! Padding applied to a clipping boundary.

use vstd::prelude::*;

use crate::length::PartialSideLength;

verus! {

/// Padding narrowing the clipping boundary before overflow is measured.
#[derive(Copy, Clone, Debug, PartialEq, Eq, Structural)]
pub enum Padding {
    /// The same value on every side.
    All(i64),
    /// A value per side; unset sides count as zero.
    PerSide(PartialSideLength),
}

} // verus!
