//! Axis-aligned rectangles in a single coordinate space.

use vstd::prelude::*;

use crate::coordinate::Axis;
use crate::length::Length;

verus! {

/// Bound on the coordinates and lengths the engine accepts as inputs.
/// Derived quantities (edges, overflow distances) are sums of a handful of
/// such inputs, so keeping inputs within this bound keeps every intermediate
/// value far away from the limits of `i64`.
pub const COORD_LIMIT: i64 = 1_000_000_000_000;

/// An element abstracted to an axis-aligned rectangle.
#[derive(Copy, Clone, Debug, PartialEq, Eq, Structural)]
pub struct Rect {
    pub x: i64,
    pub y: i64,
    pub width: i64,
    pub height: i64,
}

impl Rect {
    /// Rectangles the engine computes with: coordinates within
    /// [`COORD_LIMIT`] and non-negative lengths.
    pub open spec fn wf(self) -> bool {
        &&& -COORD_LIMIT <= self.x <= COORD_LIMIT
        &&& -COORD_LIMIT <= self.y <= COORD_LIMIT
        &&& 0 <= self.width <= COORD_LIMIT
        &&& 0 <= self.height <= COORD_LIMIT
    }

    /// The coordinate of the rectangle's origin on the given axis.
    pub open spec fn spec_axis(&self, axis: Axis) -> i64 {
        match axis {
            Axis::X => self.x,
            Axis::Y => self.y,
        }
    }

    /// Returns the origin coordinate on the given axis.
    #[verifier::when_used_as_spec(spec_axis)]
    pub fn axis(&self, axis: Axis) -> (r: i64)
        ensures
            r == self.spec_axis(axis),
    {
        match axis {
            Axis::X => self.x,
            Axis::Y => self.y,
        }
    }

    /// The length selected by `length`.
    pub open spec fn spec_length(&self, length: Length) -> i64 {
        match length {
            Length::Width => self.width,
            Length::Height => self.height,
        }
    }

    /// Returns the length selected by `length`.
    #[verifier::when_used_as_spec(spec_length)]
    pub fn length(&self, length: Length) -> (r: i64)
        ensures
            r == self.spec_length(length),
    {
        match length {
            Length::Width => self.width,
            Length::Height => self.height,
        }
    }
}

/// A rectangle together with its derived edges.
#[derive(Copy, Clone, Debug, PartialEq, Eq, Structural)]
pub struct ClientRect {
    pub x: i64,
    pub y: i64,
    pub width: i64,
    pub height: i64,
    pub top: i64,
    pub right: i64,
    pub bottom: i64,
    pub left: i64,
}

/// The two rectangles a position is computed from, both measured by the
/// caller in the same coordinate space.
#[derive(Copy, Clone, Debug, PartialEq, Eq, Structural)]
pub struct ElementRects {
    pub reference: Rect,
    pub floating: Rect,
}

impl ElementRects {
    /// Both rectangles are well-formed.
    pub open spec fn wf(self) -> bool {
        self.reference.wf() && self.floating.wf()
    }
}

} // verus!
