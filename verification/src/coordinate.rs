//! Coordinate axes and coordinate pairs.

use vstd::prelude::*;

use crate::length::Length;

verus! {

/// One of the two screen axes.
#[derive(Copy, Clone, Debug, PartialEq, Eq, Structural)]
pub enum Axis {
    X,
    Y,
}

impl Axis {
    /// The axis perpendicular to this one.
    pub open spec fn spec_opposite(&self) -> Axis {
        match self {
            Axis::X => Axis::Y,
            Axis::Y => Axis::X,
        }
    }

    /// Returns the perpendicular axis.
    #[verifier::when_used_as_spec(spec_opposite)]
    pub fn opposite(&self) -> (r: Axis)
        ensures
            r == self.spec_opposite(),
    {
        match self {
            Axis::X => Axis::Y,
            Axis::Y => Axis::X,
        }
    }

    /// The length measured along this axis: width on the x axis, height on
    /// the y axis.
    pub open spec fn spec_length(&self) -> Length {
        match self {
            Axis::X => Length::Width,
            Axis::Y => Length::Height,
        }
    }

    /// Returns the length kind measured along this axis.
    #[verifier::when_used_as_spec(spec_length)]
    pub fn length(&self) -> (r: Length)
        ensures
            r == self.spec_length(),
    {
        match self {
            Axis::X => Length::Width,
            Axis::Y => Length::Height,
        }
    }
}

/// An offset of the floating element, one value per axis.
#[derive(Copy, Clone, Debug, PartialEq, Eq, Structural)]
pub struct Coords {
    pub x: i64,
    pub y: i64,
}

impl Coords {
    /// Returns coordinates with the same value on both axes.
    pub fn new(value: i64) -> (r: Coords)
        ensures
            r.x == value,
            r.y == value,
    {
        Coords { x: value, y: value }
    }

    /// The coordinate on the given axis.
    pub open spec fn spec_axis(&self, axis: Axis) -> i64 {
        match axis {
            Axis::X => self.x,
            Axis::Y => self.y,
        }
    }

    /// Returns the coordinate on the given axis.
    #[verifier::when_used_as_spec(spec_axis)]
    pub fn axis(&self, axis: Axis) -> (r: i64)
        ensures
            r == self.spec_axis(axis),
    {
        match axis {
            Axis::X => self.x,
            Axis::Y => self.y,
        }
    }

    /// Moves the coordinate on the given axis by `delta`, leaving the other
    /// axis untouched.
    pub fn update_axis(&mut self, axis: Axis, delta: i64)
        requires
            i64::MIN <= old(self).spec_axis(axis) + delta <= i64::MAX,
        ensures
            final(self).spec_axis(axis) == old(self).spec_axis(axis) + delta,
            final(self).spec_axis(axis.opposite()) == old(self).spec_axis(axis.opposite()),
    {
        match axis {
            Axis::X => {
                self.x = self.x + delta;
            },
            Axis::Y => {
                self.y = self.y + delta;
            },
        }
    }
}

} // verus!
