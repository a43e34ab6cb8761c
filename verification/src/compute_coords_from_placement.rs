//! The coordinate initializer: where a placement puts the floating element
//! before any middleware runs.

use vstd::prelude::*;

use crate::coordinate::{Axis, Coords};
use crate::orientation::{Alignment, Placement, Side};
use crate::rect::{ElementRects, COORD_LIMIT};
use crate::{
    get_alignment, get_alignment_axis, get_axis_length, get_side, get_side_axis,
    spec_get_alignment_axis, spec_get_side_axis,
};

verus! {

/// Coordinates the engine keeps its running offset within: initial
/// coordinates and middleware adjustments stay inside this range, which
/// leaves ample room below the limits of `i64` for the sums formed by
/// overflow detection.
pub open spec fn coord_in_range(v: int) -> bool {
    -8 * COORD_LIMIT <= v <= 8 * COORD_LIMIT
}

/// The x coordinate that centers the floating element on the reference
/// horizontally.
pub open spec fn spec_common_x(rects: ElementRects) -> int {
    rects.reference.x + rects.reference.width / 2 - rects.floating.width / 2
}

/// The y coordinate that centers the floating element on the reference
/// vertically.
pub open spec fn spec_common_y(rects: ElementRects) -> int {
    rects.reference.y + rects.reference.height / 2 - rects.floating.height / 2
}

/// Half the difference in length between reference and floating element
/// along the alignment axis of `placement`.
pub open spec fn spec_common_align(rects: ElementRects, placement: Placement) -> int {
    let length = spec_get_alignment_axis(placement).spec_length();
    rects.reference.spec_length(length) / 2 - rects.floating.spec_length(length) / 2
}

/// The coordinates of the centered (alignment-free) position for the side of
/// `placement`: the floating element sits flush against the chosen side of
/// the reference and centered along the other axis.
pub open spec fn spec_base_coords(rects: ElementRects, placement: Placement) -> (int, int) {
    match placement.spec_side() {
        Side::Top => (spec_common_x(rects), rects.reference.y - rects.floating.height),
        Side::Right => (rects.reference.x + rects.reference.width, spec_common_y(rects)),
        Side::Bottom => (spec_common_x(rects), rects.reference.y + rects.reference.height),
        Side::Left => (rects.reference.x - rects.floating.width, spec_common_y(rects)),
    }
}

/// The alignment offset applied on the alignment axis: subtracted for
/// `Start`, added for `End`, with the sign inverted for aligned vertical
/// placements in right-to-left layouts; zero for centered placements.
pub open spec fn spec_alignment_offset(
    rects: ElementRects,
    placement: Placement,
    rtl: Option<bool>,
) -> int {
    let common_align = spec_common_align(rects, placement);
    let directed = if rtl == Some(true) && spec_get_side_axis(placement) == Axis::Y {
        -common_align
    } else {
        common_align
    };
    match placement.spec_alignment() {
        Some(Alignment::Start) => -directed,
        Some(Alignment::End) => directed,
        None => 0,
    }
}

/// The initial coordinates for a placement: the base coordinates of its
/// side, with the alignment offset applied along the alignment axis.
pub open spec fn spec_coords_from_placement(
    rects: ElementRects,
    placement: Placement,
    rtl: Option<bool>,
) -> (int, int) {
    let base = spec_base_coords(rects, placement);
    let offset = spec_alignment_offset(rects, placement, rtl);
    match spec_get_alignment_axis(placement) {
        Axis::X => (base.0 + offset, base.1),
        Axis::Y => (base.0, base.1 + offset),
    }
}

/// Computes the `x` and `y` coordinates that place the floating element next
/// to the reference element for the given placement.
pub fn compute_coords_from_placement(rects: &ElementRects, placement: Placement, rtl: Option<
    bool,
>) -> (r: Coords)
    requires
        rects.wf(),
    ensures
        r.x == spec_coords_from_placement(*rects, placement, rtl).0,
        r.y == spec_coords_from_placement(*rects, placement, rtl).1,
        coord_in_range(r.x as int),
        coord_in_range(r.y as int),
{
    let reference = rects.reference;
    let floating = rects.floating;

    let side_axis = get_side_axis(placement);
    let alignment_axis = get_alignment_axis(placement);
    let align_length = get_axis_length(alignment_axis);
    let side = get_side(placement);
    let is_vertical = side_axis == Axis::Y;

    let common_x: i64 = reference.x + reference.width / 2 - floating.width / 2;
    let common_y: i64 = reference.y + reference.height / 2 - floating.height / 2;
    let common_align: i64 = reference.length(align_length) / 2 - floating.length(align_length) / 2;

    let mut coords: Coords = match side {
        Side::Top => Coords { x: common_x, y: reference.y - floating.height },
        Side::Right => Coords { x: reference.x + reference.width, y: common_y },
        Side::Bottom => Coords { x: common_x, y: reference.y + reference.height },
        Side::Left => Coords { x: reference.x - floating.width, y: common_y },
    };

    let directed_align: i64 = if rtl == Some(true) && is_vertical {
        -common_align
    } else {
        common_align
    };
    match get_alignment(placement) {
        Some(Alignment::Start) => {
            coords.update_axis(alignment_axis, -directed_align);
        },
        Some(Alignment::End) => {
            coords.update_axis(alignment_axis, directed_align);
        },
        None => {},
    }

    coords
}

} // verus!
