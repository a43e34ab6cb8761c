//! A placement-computation engine for floating UI elements (tooltips,
//! popovers, dropdowns). Given a reference rectangle, a floating rectangle, a
//! requested placement and an ordered list of middleware, the engine computes
//! the screen coordinates at which the floating element should be drawn.
//!
//! The crate contains the coordinate algebra over sides, alignments and
//! placements, the overflow-detection primitive, and the middleware pipeline
//! driver with its reset protocol and per-middleware data merging. Measuring
//! elements and rendering are left to the caller, which supplies rectangles
//! through the [`Platform`](types::Platform) interface.

use vstd::prelude::*;

pub mod compute_coords_from_placement;
pub mod compute_position;
pub mod coordinate;
pub mod data;
pub mod detect_overflow;
pub mod element;
pub mod length;
pub mod middleware;
pub mod orientation;
pub mod padding;
pub mod rect;
pub mod strategy;
pub mod types;

pub use crate::compute_coords_from_placement::compute_coords_from_placement;
pub use crate::compute_position::{compute_position, RESET_LIMIT};
pub use crate::coordinate::{Axis, Coords};
pub use crate::data::{
    merge_records, CandidateOverflow, DataRecord, DataValue, MiddlewareData,
};
pub use crate::detect_overflow::{compute_overflow, detect_overflow};
pub use crate::element::{ElementOrWindow, OwnedElementOrWindow};
pub use crate::length::{Dimensions, Length, PartialSideLength, SideLength};
pub use crate::orientation::{AlignedPlacement, Alignment, Placement, Side};
pub use crate::padding::Padding;
pub use crate::rect::{ClientRect, ElementRects, Rect, COORD_LIMIT};
pub use crate::strategy::Strategy;
pub use crate::types::{
    Boundary, ComputePositionConfig, ComputePositionReturn, DetectOverflowOptions,
    ElementContext, Elements, GetClippingRectArgs, GetElementRectsArgs, Middleware,
    MiddlewareReturn, MiddlewareState, Platform, Reset, ResetRects, ResetValue, RootBoundary,
};

verus! {

/// Clamps `value` into the interval from `start` to `end`.
pub open spec fn spec_clamp(start: i64, value: i64, end: i64) -> i64 {
    if value > end {
        if end < start {
            start
        } else {
            end
        }
    } else if value < start {
        start
    } else {
        value
    }
}

/// Returns `value` clamped into the interval from `start` to `end`; when the
/// interval is empty, `start` wins.
#[verifier::when_used_as_spec(spec_clamp)]
pub fn clamp(start: i64, value: i64, end: i64) -> (r: i64)
    ensures
        r == spec_clamp(start, value, end),
{
    let capped: i64 = if value > end {
        end
    } else {
        value
    };
    if capped < start {
        start
    } else {
        capped
    }
}

/// Returns the side component of a placement.
pub fn get_side(placement: Placement) -> (r: Side)
    ensures
        r == placement.spec_side(),
{
    placement.side()
}

/// Returns the alignment component of a placement.
pub fn get_alignment(placement: Placement) -> (r: Option<Alignment>)
    ensures
        r == placement.spec_alignment(),
{
    placement.alignment()
}

/// The placement made of the given side and alignment.
pub open spec fn spec_get_placement(side: Side, alignment: Option<Alignment>) -> Placement {
    match (side, alignment) {
        (Side::Top, None) => Placement::Top,
        (Side::Top, Some(Alignment::Start)) => Placement::TopStart,
        (Side::Top, Some(Alignment::End)) => Placement::TopEnd,
        (Side::Right, None) => Placement::Right,
        (Side::Right, Some(Alignment::Start)) => Placement::RightStart,
        (Side::Right, Some(Alignment::End)) => Placement::RightEnd,
        (Side::Bottom, None) => Placement::Bottom,
        (Side::Bottom, Some(Alignment::Start)) => Placement::BottomStart,
        (Side::Bottom, Some(Alignment::End)) => Placement::BottomEnd,
        (Side::Left, None) => Placement::Left,
        (Side::Left, Some(Alignment::Start)) => Placement::LeftStart,
        (Side::Left, Some(Alignment::End)) => Placement::LeftEnd,
    }
}

/// Combines a side and an optional alignment into a placement.
#[verifier::when_used_as_spec(spec_get_placement)]
pub fn get_placement(side: Side, alignment: Option<Alignment>) -> (r: Placement)
    ensures
        r == spec_get_placement(side, alignment),
{
    match (side, alignment) {
        (Side::Top, None) => Placement::Top,
        (Side::Top, Some(Alignment::Start)) => Placement::TopStart,
        (Side::Top, Some(Alignment::End)) => Placement::TopEnd,
        (Side::Right, None) => Placement::Right,
        (Side::Right, Some(Alignment::Start)) => Placement::RightStart,
        (Side::Right, Some(Alignment::End)) => Placement::RightEnd,
        (Side::Bottom, None) => Placement::Bottom,
        (Side::Bottom, Some(Alignment::Start)) => Placement::BottomStart,
        (Side::Bottom, Some(Alignment::End)) => Placement::BottomEnd,
        (Side::Left, None) => Placement::Left,
        (Side::Left, Some(Alignment::Start)) => Placement::LeftStart,
        (Side::Left, Some(Alignment::End)) => Placement::LeftEnd,
    }
}

/// Returns the axis perpendicular to the given one.
pub fn get_opposite_axis(axis: Axis) -> (r: Axis)
    ensures
        r == axis.spec_opposite(),
{
    axis.opposite()
}

/// Returns the length kind measured along an axis.
pub fn get_axis_length(axis: Axis) -> (r: Length)
    ensures
        r == axis.spec_length(),
{
    axis.length()
}

/// The axis along which a placement offsets the floating element.
pub open spec fn spec_get_side_axis(placement: Placement) -> Axis {
    placement.spec_side().spec_axis()
}

/// Returns the axis of a placement's side.
#[verifier::when_used_as_spec(spec_get_side_axis)]
pub fn get_side_axis(placement: Placement) -> (r: Axis)
    ensures
        r == spec_get_side_axis(placement),
{
    placement.side().axis()
}

/// The axis along which Start/End alignment is measured: the axis
/// perpendicular to the placement's side axis.
pub open spec fn spec_get_alignment_axis(placement: Placement) -> Axis {
    spec_get_side_axis(placement).spec_opposite()
}

/// Returns the alignment axis of a placement.
#[verifier::when_used_as_spec(spec_get_alignment_axis)]
pub fn get_alignment_axis(placement: Placement) -> (r: Axis)
    ensures
        r == spec_get_alignment_axis(placement),
{
    get_opposite_axis(get_side_axis(placement))
}

/// The main alignment side of a placement before accounting for the relative
/// lengths of the two rectangles: on the x axis Start means Right unless
/// `rtl`, on the y axis Start means Bottom.
pub open spec fn spec_base_alignment_side(placement: Placement, rtl: Option<bool>) -> Side {
    let alignment = placement.spec_alignment();
    match spec_get_alignment_axis(placement) {
        Axis::X => {
            if alignment == Some(Alignment::Start) {
                if rtl == Some(true) {
                    Side::Left
                } else {
                    Side::Right
                }
            } else {
                if rtl == Some(true) {
                    Side::Right
                } else {
                    Side::Left
                }
            }
        },
        Axis::Y => {
            if alignment == Some(Alignment::Start) {
                Side::Bottom
            } else {
                Side::Top
            }
        },
    }
}

/// The main alignment side of a placement, flipped to its opposite when the
/// reference is longer than the floating element along the alignment axis.
pub open spec fn spec_main_alignment_side(
    placement: Placement,
    rects: ElementRects,
    rtl: Option<bool>,
) -> Side {
    let base = spec_base_alignment_side(placement, rtl);
    let length = spec_get_alignment_axis(placement).spec_length();
    if rects.reference.spec_length(length) > rects.floating.spec_length(length) {
        base.spec_opposite()
    } else {
        base
    }
}

/// Determines which of the two sides along the alignment axis is the main
/// alignment side, returning it together with its opposite.
pub fn get_alignment_sides(placement: Placement, rects: &ElementRects, rtl: Option<bool>) -> (r: (
    Side,
    Side,
))
    ensures
        r.0 == spec_main_alignment_side(placement, *rects, rtl),
        r.1 == spec_main_alignment_side(placement, *rects, rtl).spec_opposite(),
{
    let alignment = get_alignment(placement);
    let alignment_axis = get_alignment_axis(placement);
    let length = get_axis_length(alignment_axis);

    let mut main_alignment_side: Side = match (alignment_axis, alignment) {
        (Axis::X, Some(Alignment::Start)) => match rtl {
            Some(true) => Side::Left,
            _ => Side::Right,
        },
        (Axis::X, _) => match rtl {
            Some(true) => Side::Right,
            _ => Side::Left,
        },
        (Axis::Y, Some(Alignment::Start)) => Side::Bottom,
        (Axis::Y, _) => Side::Top,
    };

    if rects.reference.length(length) > rects.floating.length(length) {
        main_alignment_side = get_opposite_side(main_alignment_side);
    }

    (main_alignment_side, get_opposite_side(main_alignment_side))
}

/// The fallback placements derived from a placement: its opposite-alignment
/// variant, its opposite, and the opposite-alignment variant of the opposite.
pub open spec fn spec_get_expanded_placements(placement: Placement) -> Seq<Placement> {
    seq![
        placement.spec_opposite_alignment(),
        placement.spec_opposite(),
        placement.spec_opposite().spec_opposite_alignment(),
    ]
}

/// Returns the expanded fallback list for a placement.
pub fn get_expanded_placements(placement: Placement) -> (r: Vec<Placement>)
    ensures
        r@ == spec_get_expanded_placements(placement),
{
    let opposite_placement = get_opposite_placement(placement);
    let r: Vec<Placement> = vec![
        get_opposite_alignment_placement(placement),
        opposite_placement,
        get_opposite_alignment_placement(opposite_placement),
    ];
    proof {
        assert(r@ =~= spec_get_expanded_placements(placement));
    }
    r
}

/// Returns the placement with its alignment flipped.
pub fn get_opposite_alignment_placement(placement: Placement) -> (r: Placement)
    ensures
        r == placement.spec_opposite_alignment(),
{
    placement.opposite_alignment()
}

/// The two sides perpendicular to `side`, ordered by which one is tried
/// first: for horizontal placements the order follows the text direction,
/// for vertical placements it is fixed.
pub open spec fn spec_get_side_list(side: Side, is_start: bool, rtl: Option<bool>) -> Seq<Side> {
    match side {
        Side::Top | Side::Bottom => {
            if rtl == Some(true) {
                if is_start {
                    seq![Side::Right, Side::Left]
                } else {
                    seq![Side::Left, Side::Right]
                }
            } else {
                if is_start {
                    seq![Side::Left, Side::Right]
                } else {
                    seq![Side::Right, Side::Left]
                }
            }
        },
        Side::Right | Side::Left => {
            if is_start {
                seq![Side::Top, Side::Bottom]
            } else {
                seq![Side::Bottom, Side::Top]
            }
        },
    }
}

/// Returns the ordered pair of sides perpendicular to `side`.
pub fn get_side_list(side: Side, is_start: bool, rtl: Option<bool>) -> (r: Vec<Side>)
    ensures
        r@ == spec_get_side_list(side, is_start, rtl),
{
    let r: Vec<Side> = match side {
        Side::Top | Side::Bottom => match rtl {
            Some(true) => match is_start {
                true => vec![Side::Right, Side::Left],
                false => vec![Side::Left, Side::Right],
            },
            _ => match is_start {
                true => vec![Side::Left, Side::Right],
                false => vec![Side::Right, Side::Left],
            },
        },
        Side::Right | Side::Left => match is_start {
            true => vec![Side::Top, Side::Bottom],
            false => vec![Side::Bottom, Side::Top],
        },
    };
    proof {
        assert(r@ =~= spec_get_side_list(side, is_start, rtl));
    }
    r
}

/// Returns the side opposite the given one.
pub fn get_opposite_side(side: Side) -> (r: Side)
    ensures
        r == side.spec_opposite(),
{
    side.opposite()
}

/// The ordered cross-axis fallback list of a placement: each perpendicular
/// side combined with the placement's alignment and, when `flip_alignment`
/// is set, the same list with the alignment flipped appended.
pub open spec fn spec_get_opposite_axis_placements(
    placement: Placement,
    flip_alignment: bool,
    direction: Option<Alignment>,
    rtl: Option<bool>,
) -> Seq<Placement> {
    let alignment = placement.spec_alignment();
    let sides = spec_get_side_list(
        placement.spec_side(),
        direction == Some(Alignment::Start),
        rtl,
    );
    let list = sides.map(|i: int, side: Side| spec_get_placement(side, alignment));
    if flip_alignment {
        list + list.map(|i: int, p: Placement| p.spec_opposite_alignment())
    } else {
        list
    }
}

/// Returns the cross-axis fallback placements of a placement.
pub fn get_opposite_axis_placements(
    placement: Placement,
    flip_alignment: bool,
    direction: Option<Alignment>,
    rtl: Option<bool>,
) -> (r: Vec<Placement>)
    ensures
        r@ == spec_get_opposite_axis_placements(placement, flip_alignment, direction, rtl),
{
    let alignment = get_alignment(placement);
    let is_start = match direction {
        Some(Alignment::Start) => true,
        _ => false,
    };
    let side_list = get_side_list(get_side(placement), is_start, rtl);

    let mut list: Vec<Placement> = vec![
        get_placement(side_list[0], alignment),
        get_placement(side_list[1], alignment),
    ];

    if flip_alignment {
        list.push(get_opposite_alignment_placement(list[0]));
        list.push(get_opposite_alignment_placement(list[1]));
    }

    proof {
        assert(list@ =~= spec_get_opposite_axis_placements(
            placement,
            flip_alignment,
            direction,
            rtl,
        ));
    }
    list
}

/// Returns the placement flipped to the opposite side.
pub fn get_opposite_placement(placement: Placement) -> (r: Placement)
    ensures
        r == placement.spec_opposite(),
{
    placement.opposite()
}

/// The per-side padding described by a partial per-side value, with unset
/// sides counting as zero.
pub open spec fn spec_expand_padding_object(padding: PartialSideLength) -> SideLength {
    SideLength {
        top: padding.top.unwrap_or(0),
        right: padding.right.unwrap_or(0),
        bottom: padding.bottom.unwrap_or(0),
        left: padding.left.unwrap_or(0),
    }
}

/// Expands a partial per-side value into a full one.
#[verifier::when_used_as_spec(spec_expand_padding_object)]
pub fn expand_padding_object(padding: PartialSideLength) -> (r: SideLength)
    ensures
        r == spec_expand_padding_object(padding),
{
    SideLength {
        top: padding.top.unwrap_or(0),
        right: padding.right.unwrap_or(0),
        bottom: padding.bottom.unwrap_or(0),
        left: padding.left.unwrap_or(0),
    }
}

/// The per-side padding described by a padding configuration.
pub open spec fn spec_get_padding_object(padding: Padding) -> SideLength {
    match padding {
        Padding::All(value) => SideLength {
            top: value,
            right: value,
            bottom: value,
            left: value,
        },
        Padding::PerSide(partial) => spec_expand_padding_object(partial),
    }
}

/// Expands a padding configuration into per-side values.
#[verifier::when_used_as_spec(spec_get_padding_object)]
pub fn get_padding_object(padding: Padding) -> (r: SideLength)
    ensures
        r == spec_get_padding_object(padding),
{
    match padding {
        Padding::All(value) => SideLength {
            top: value,
            right: value,
            bottom: value,
            left: value,
        },
        Padding::PerSide(partial) => expand_padding_object(partial),
    }
}

/// The rectangle together with its derived edges.
pub open spec fn spec_rect_to_client_rect(rect: Rect) -> ClientRect {
    ClientRect {
        x: rect.x,
        y: rect.y,
        width: rect.width,
        height: rect.height,
        top: rect.y,
        right: (rect.x + rect.width) as i64,
        bottom: (rect.y + rect.height) as i64,
        left: rect.x,
    }
}

/// Computes the edges of a rectangle.
pub fn rect_to_client_rect(rect: Rect) -> (r: ClientRect)
    requires
        i64::MIN <= rect.x + rect.width <= i64::MAX,
        i64::MIN <= rect.y + rect.height <= i64::MAX,
    ensures
        r == spec_rect_to_client_rect(rect),
        r.right == rect.x + rect.width,
        r.bottom == rect.y + rect.height,
{
    ClientRect {
        x: rect.x,
        y: rect.y,
        width: rect.width,
        height: rect.height,
        top: rect.y,
        right: rect.x + rect.width,
        bottom: rect.y + rect.height,
        left: rect.x,
    }
}

} // verus!
