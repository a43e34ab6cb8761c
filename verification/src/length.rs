//! Element lengths: dimensions and per-side values.

use vstd::prelude::*;

use crate::orientation::Side;

verus! {

/// Selects one of the two lengths of a rectangle.
#[derive(Copy, Clone, Debug, PartialEq, Eq, Structural)]
pub enum Length {
    Width,
    Height,
}

/// Width and height of an element.
#[derive(Copy, Clone, Debug, PartialEq, Eq, Structural)]
pub struct Dimensions {
    pub width: i64,
    pub height: i64,
}

impl Dimensions {
    /// The dimension selected by `length`.
    pub open spec fn spec_length(&self, length: Length) -> i64 {
        match length {
            Length::Width => self.width,
            Length::Height => self.height,
        }
    }

    /// Returns the dimension selected by `length`.
    #[verifier::when_used_as_spec(spec_length)]
    pub fn length(&self, length: Length) -> (r: i64)
        ensures
            r == self.spec_length(length),
    {
        match length {
            Length::Width => self.width,
            Length::Height => self.height,
        }
    }
}

/// One value for each of the four sides, used for overflow results and
/// padding.
#[derive(Copy, Clone, Debug, PartialEq, Eq, Structural)]
pub struct SideLength {
    pub top: i64,
    pub right: i64,
    pub bottom: i64,
    pub left: i64,
}

impl SideLength {
    /// The value for the given side.
    pub open spec fn spec_side(&self, side: Side) -> i64 {
        match side {
            Side::Top => self.top,
            Side::Right => self.right,
            Side::Bottom => self.bottom,
            Side::Left => self.left,
        }
    }

    /// Returns the value for the given side.
    #[verifier::when_used_as_spec(spec_side)]
    pub fn side(&self, side: Side) -> (r: i64)
        ensures
            r == self.spec_side(side),
    {
        match side {
            Side::Top => self.top,
            Side::Right => self.right,
            Side::Bottom => self.bottom,
            Side::Left => self.left,
        }
    }
}

/// Per-side values where a side may be left unset.
#[derive(Copy, Clone, Debug, PartialEq, Eq, Structural)]
pub struct PartialSideLength {
    pub top: Option<i64>,
    pub right: Option<i64>,
    pub bottom: Option<i64>,
    pub left: Option<i64>,
}

} // verus!
