//! Sides, alignments and placements: the orientation algebra of the
//! positioning engine.

use vstd::prelude::*;

use crate::coordinate::Axis;

verus! {

/// Refines a side into one of its three positions: `Start` is the position
/// nearest the origin along the alignment axis, `End` the farthest; the
/// absence of an alignment means centered.
#[derive(Copy, Clone, Debug, PartialEq, Eq, Structural)]
pub enum Alignment {
    Start,
    End,
}

/// One of the four sides of the reference element on which the floating
/// element can be placed.
#[derive(Copy, Clone, Debug, PartialEq, Eq, Structural)]
pub enum Side {
    Top,
    Right,
    Bottom,
    Left,
}

impl Side {
    /// The side facing this one across the reference element.
    pub open spec fn spec_opposite(&self) -> Side {
        match self {
            Side::Top => Side::Bottom,
            Side::Right => Side::Left,
            Side::Bottom => Side::Top,
            Side::Left => Side::Right,
        }
    }

    /// Returns the opposite side.
    #[verifier::when_used_as_spec(spec_opposite)]
    pub fn opposite(&self) -> (r: Side)
        ensures
            r == self.spec_opposite(),
    {
        match self {
            Side::Top => Side::Bottom,
            Side::Right => Side::Left,
            Side::Bottom => Side::Top,
            Side::Left => Side::Right,
        }
    }

    /// The axis along which the floating element is offset from the
    /// reference when placed on this side.
    pub open spec fn spec_axis(&self) -> Axis {
        match self {
            Side::Top | Side::Bottom => Axis::Y,
            Side::Right | Side::Left => Axis::X,
        }
    }

    /// Returns the axis this side lies on.
    #[verifier::when_used_as_spec(spec_axis)]
    pub fn axis(&self) -> (r: Axis)
        ensures
            r == self.spec_axis(),
    {
        match self {
            Side::Top | Side::Bottom => Axis::Y,
            Side::Right | Side::Left => Axis::X,
        }
    }
}

/// A side refined by an alignment; the eight non-centered placements.
#[derive(Copy, Clone, Debug, PartialEq, Eq, Structural)]
pub enum AlignedPlacement {
    TopStart,
    TopEnd,
    RightStart,
    RightEnd,
    BottomStart,
    BottomEnd,
    LeftStart,
    LeftEnd,
}

/// Where the floating element sits relative to the reference element:
/// a side together with an optional alignment, twelve values in all.
#[derive(Copy, Clone, Debug, PartialEq, Eq, Structural)]
pub enum Placement {
    Top,
    TopStart,
    TopEnd,
    Right,
    RightStart,
    RightEnd,
    Bottom,
    BottomStart,
    BottomEnd,
    Left,
    LeftStart,
    LeftEnd,
}

impl Placement {
    /// The alignment component of this placement, if any.
    pub open spec fn spec_alignment(&self) -> Option<Alignment> {
        match self {
            Placement::Top | Placement::Bottom | Placement::Left | Placement::Right => None,
            Placement::TopStart
            | Placement::BottomStart
            | Placement::LeftStart
            | Placement::RightStart => Some(Alignment::Start),
            Placement::TopEnd
            | Placement::BottomEnd
            | Placement::LeftEnd
            | Placement::RightEnd => Some(Alignment::End),
        }
    }

    /// Returns the alignment component of this placement.
    #[verifier::when_used_as_spec(spec_alignment)]
    pub fn alignment(&self) -> (r: Option<Alignment>)
        ensures
            r == self.spec_alignment(),
    {
        match self {
            Placement::Top | Placement::Bottom | Placement::Left | Placement::Right => None,
            Placement::TopStart
            | Placement::BottomStart
            | Placement::LeftStart
            | Placement::RightStart => Some(Alignment::Start),
            Placement::TopEnd
            | Placement::BottomEnd
            | Placement::LeftEnd
            | Placement::RightEnd => Some(Alignment::End),
        }
    }

    /// The side component of this placement.
    pub open spec fn spec_side(&self) -> Side {
        match self {
            Placement::Top | Placement::TopStart | Placement::TopEnd => Side::Top,
            Placement::Right | Placement::RightStart | Placement::RightEnd => Side::Right,
            Placement::Bottom | Placement::BottomStart | Placement::BottomEnd => Side::Bottom,
            Placement::Left | Placement::LeftStart | Placement::LeftEnd => Side::Left,
        }
    }

    /// Returns the side component of this placement.
    #[verifier::when_used_as_spec(spec_side)]
    pub fn side(&self) -> (r: Side)
        ensures
            r == self.spec_side(),
    {
        match self {
            Placement::Top | Placement::TopStart | Placement::TopEnd => Side::Top,
            Placement::Right | Placement::RightStart | Placement::RightEnd => Side::Right,
            Placement::Bottom | Placement::BottomStart | Placement::BottomEnd => Side::Bottom,
            Placement::Left | Placement::LeftStart | Placement::LeftEnd => Side::Left,
        }
    }

    /// The placement on the opposite side, keeping the alignment.
    pub open spec fn spec_opposite(&self) -> Placement {
        match self {
            Placement::Top => Placement::Bottom,
            Placement::TopStart => Placement::BottomStart,
            Placement::TopEnd => Placement::BottomEnd,
            Placement::Right => Placement::Left,
            Placement::RightStart => Placement::LeftStart,
            Placement::RightEnd => Placement::LeftEnd,
            Placement::Bottom => Placement::Top,
            Placement::BottomStart => Placement::TopStart,
            Placement::BottomEnd => Placement::TopEnd,
            Placement::Left => Placement::Right,
            Placement::LeftStart => Placement::RightStart,
            Placement::LeftEnd => Placement::RightEnd,
        }
    }

    /// Returns the placement flipped to the opposite side.
    #[verifier::when_used_as_spec(spec_opposite)]
    pub fn opposite(&self) -> (r: Placement)
        ensures
            r == self.spec_opposite(),
    {
        match self {
            Placement::Top => Placement::Bottom,
            Placement::TopStart => Placement::BottomStart,
            Placement::TopEnd => Placement::BottomEnd,
            Placement::Right => Placement::Left,
            Placement::RightStart => Placement::LeftStart,
            Placement::RightEnd => Placement::LeftEnd,
            Placement::Bottom => Placement::Top,
            Placement::BottomStart => Placement::TopStart,
            Placement::BottomEnd => Placement::TopEnd,
            Placement::Left => Placement::Right,
            Placement::LeftStart => Placement::RightStart,
            Placement::LeftEnd => Placement::RightEnd,
        }
    }

    /// The placement with `Start` and `End` exchanged, keeping the side.
    pub open spec fn spec_opposite_alignment(&self) -> Placement {
        match self {
            Placement::Top => Placement::Top,
            Placement::TopStart => Placement::TopEnd,
            Placement::TopEnd => Placement::TopStart,
            Placement::Right => Placement::Right,
            Placement::RightStart => Placement::RightEnd,
            Placement::RightEnd => Placement::RightStart,
            Placement::Bottom => Placement::Bottom,
            Placement::BottomStart => Placement::BottomEnd,
            Placement::BottomEnd => Placement::BottomStart,
            Placement::Left => Placement::Left,
            Placement::LeftStart => Placement::LeftEnd,
            Placement::LeftEnd => Placement::LeftStart,
        }
    }

    /// Returns the placement with its alignment flipped.
    #[verifier::when_used_as_spec(spec_opposite_alignment)]
    pub fn opposite_alignment(&self) -> (r: Placement)
        ensures
            r == self.spec_opposite_alignment(),
    {
        match self {
            Placement::Top => Placement::Top,
            Placement::TopStart => Placement::TopEnd,
            Placement::TopEnd => Placement::TopStart,
            Placement::Right => Placement::Right,
            Placement::RightStart => Placement::RightEnd,
            Placement::RightEnd => Placement::RightStart,
            Placement::Bottom => Placement::Bottom,
            Placement::BottomStart => Placement::BottomEnd,
            Placement::BottomEnd => Placement::BottomStart,
            Placement::Left => Placement::Left,
            Placement::LeftStart => Placement::LeftEnd,
            Placement::LeftEnd => Placement::LeftStart,
        }
    }
}

} // verus!
