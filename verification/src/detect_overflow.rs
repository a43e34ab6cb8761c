//! The overflow detector: how far each side of an element sticks out of a
//! clipping rectangle.

use vstd::prelude::*;

use crate::compute_coords_from_placement::coord_in_range;
use crate::get_padding_object;
use crate::length::SideLength;
use crate::padding::Padding;
use crate::rect::{Rect, COORD_LIMIT};
use crate::orientation::Side;
use crate::spec_get_padding_object;
use crate::strategy::Strategy;
use crate::types::{
    Boundary, DetectOverflowOptions, ElementContext, GetClippingRectArgs, MiddlewareState,
    Platform, RootBoundary, SpecMiddlewareState,
};

verus! {

/// The signed overflow of an element past a clipping rectangle, one value
/// per side; positive values mean the element sticks out on that side.
pub ghost struct SpecSides {
    pub top: int,
    pub right: int,
    pub bottom: int,
    pub left: int,
}

impl SpecSides {
    /// The overflow past the given side.
    pub open spec fn side(self, side: Side) -> int {
        match side {
            Side::Top => self.top,
            Side::Right => self.right,
            Side::Bottom => self.bottom,
            Side::Left => self.left,
        }
    }
}

/// An overflow value computed from well-formed inputs: a sum of a few
/// bounded quantities.
pub open spec fn overflow_in_range(v: int) -> bool {
    -16 * COORD_LIMIT <= v <= 16 * COORD_LIMIT
}

/// A rectangle whose origin is a running coordinate and whose lengths are
/// plain inputs.
pub open spec fn rect_coords_in_range(r: Rect) -> bool {
    &&& coord_in_range(r.x as int)
    &&& coord_in_range(r.y as int)
    &&& 0 <= r.width <= COORD_LIMIT
    &&& 0 <= r.height <= COORD_LIMIT
}

/// The overflow of `element` past `clipping` once the padding has narrowed
/// the clipping rectangle: on each side, the distance from the element's
/// edge to the padded clipping edge, oriented so that positive means the
/// element exceeds the boundary on that side.
pub open spec fn spec_overflow(clipping: Rect, element: Rect, padding: SideLength) -> SpecSides {
    SpecSides {
        top: clipping.y + padding.top - element.y,
        bottom: element.y + element.height - (clipping.y + clipping.height) + padding.bottom,
        left: clipping.x + padding.left - element.x,
        right: element.x + element.width - (clipping.x + clipping.width) + padding.right,
    }
}

/// Computes the per-side overflow of `element` past `clipping` narrowed by
/// `padding`.
pub fn compute_overflow(clipping: &Rect, element: &Rect, padding: &SideLength) -> (r: SideLength)
    requires
        clipping.wf(),
        rect_coords_in_range(*element),
        -COORD_LIMIT <= padding.top <= COORD_LIMIT,
        -COORD_LIMIT <= padding.right <= COORD_LIMIT,
        -COORD_LIMIT <= padding.bottom <= COORD_LIMIT,
        -COORD_LIMIT <= padding.left <= COORD_LIMIT,
    ensures
        r.top == spec_overflow(*clipping, *element, *padding).top,
        r.right == spec_overflow(*clipping, *element, *padding).right,
        r.bottom == spec_overflow(*clipping, *element, *padding).bottom,
        r.left == spec_overflow(*clipping, *element, *padding).left,
        overflow_in_range(r.top as int),
        overflow_in_range(r.right as int),
        overflow_in_range(r.bottom as int),
        overflow_in_range(r.left as int),
{
    SideLength {
        top: clipping.y + padding.top - element.y,
        bottom: element.y + element.height - (clipping.y + clipping.height) + padding.bottom,
        left: clipping.x + padding.left - element.x,
        right: element.x + element.width - (clipping.x + clipping.width) + padding.right,
    }
}

/// The element rectangle whose overflow is measured: the floating element at
/// the current coordinates, or the reference element as measured.
pub open spec fn spec_context_rect<Element, P>(
    st: SpecMiddlewareState<Element, P>,
    context: ElementContext,
) -> Rect {
    match context {
        ElementContext::Floating => Rect {
            x: st.x,
            y: st.y,
            width: st.rects.floating.width,
            height: st.rects.floating.height,
        },
        ElementContext::Reference => st.rects.reference,
    }
}

/// The overflow that [`detect_overflow`] reports for a state and options:
/// the clipping rectangle is queried from the platform for the configured
/// boundaries — against the other context's element when `alt_boundary` is
/// set — and the chosen element rectangle is measured against it.
pub open spec fn spec_detect_overflow<Element, P: Platform<Element>>(
    st: SpecMiddlewareState<Element, P>,
    options: DetectOverflowOptions,
) -> SpecSides {
    let boundary = options.boundary.unwrap_or(Boundary::ClippingAncestors);
    let root_boundary = options.root_boundary.unwrap_or(RootBoundary::Viewport);
    let element_context = options.element_context.unwrap_or(ElementContext::Floating);
    let alt_boundary = options.alt_boundary.unwrap_or(false);
    let padding = spec_get_padding_object(options.padding.unwrap_or(Padding::All(0)));
    let query_context = if alt_boundary {
        element_context.spec_alternate()
    } else {
        element_context
    };
    let query_element = match query_context {
        ElementContext::Reference => st.reference,
        ElementContext::Floating => st.floating,
    };
    let clipping = st.platform.spec_clipping_rect(
        query_element,
        boundary,
        root_boundary,
        st.strategy,
    );
    spec_overflow(clipping, spec_context_rect(st, element_context), padding)
}

/// Padding of zero on every side.
pub open spec fn spec_zero_padding() -> SideLength {
    SideLength { top: 0, right: 0, bottom: 0, left: 0 }
}

/// Law: an element measured against a clipping rectangle identical to itself
/// produces zero overflow on every side.
pub proof fn lemma_overflow_identical(rect: Rect)
    ensures
        spec_overflow(rect, rect, spec_zero_padding()) == (SpecSides {
            top: 0,
            right: 0,
            bottom: 0,
            left: 0,
        }),
{
}

/// The clipping rectangle shrunk by `d` on one side.
pub open spec fn spec_shrink(rect: Rect, side: Side, d: i64) -> Rect {
    match side {
        Side::Top => Rect {
            y: (rect.y + d) as i64,
            height: (rect.height - d) as i64,
            ..rect
        },
        Side::Bottom => Rect { height: (rect.height - d) as i64, ..rect },
        Side::Left => Rect {
            x: (rect.x + d) as i64,
            width: (rect.width - d) as i64,
            ..rect
        },
        Side::Right => Rect { width: (rect.width - d) as i64, ..rect },
    }
}

/// Law: shrinking the clipping rectangle by `d` on one side makes the
/// element overflow by exactly `d` on that side and by zero on the others.
pub proof fn lemma_overflow_shrunken(rect: Rect, side: Side, d: i64)
    requires
        i64::MIN <= rect.x + d <= i64::MAX,
        i64::MIN <= rect.y + d <= i64::MAX,
        i64::MIN <= rect.width - d <= i64::MAX,
        i64::MIN <= rect.height - d <= i64::MAX,
    ensures
        ({
            let o = spec_overflow(spec_shrink(rect, side, d), rect, spec_zero_padding());
            &&& o.top == if side == Side::Top {
                d as int
            } else {
                0
            }
            &&& o.right == if side == Side::Right {
                d as int
            } else {
                0
            }
            &&& o.bottom == if side == Side::Bottom {
                d as int
            } else {
                0
            }
            &&& o.left == if side == Side::Left {
                d as int
            } else {
                0
            }
        }),
{
}

/// Measures how far the configured element overflows its clipping rectangle
/// on each side; negative values mean the element is inside the boundary.
pub fn detect_overflow<Element, P: Platform<Element>>(
    state: &MiddlewareState<'_, Element, P>,
    options: &DetectOverflowOptions,
) -> (r: SideLength)
    requires
        state@.wf(),
        options.wf(),
    ensures
        r.top == spec_detect_overflow(state@, *options).top,
        r.right == spec_detect_overflow(state@, *options).right,
        r.bottom == spec_detect_overflow(state@, *options).bottom,
        r.left == spec_detect_overflow(state@, *options).left,
        overflow_in_range(r.top as int),
        overflow_in_range(r.right as int),
        overflow_in_range(r.bottom as int),
        overflow_in_range(r.left as int),
{
    let boundary = match options.boundary {
        Some(b) => b,
        None => Boundary::ClippingAncestors,
    };
    let root_boundary = match options.root_boundary {
        Some(b) => b,
        None => RootBoundary::Viewport,
    };
    let element_context = match options.element_context {
        Some(c) => c,
        None => ElementContext::Floating,
    };
    let alt_boundary = match options.alt_boundary {
        Some(b) => b,
        None => false,
    };
    let padding = get_padding_object(
        match options.padding {
            Some(p) => p,
            None => Padding::All(0),
        },
    );

    let query_context = if alt_boundary {
        element_context.alternate()
    } else {
        element_context
    };
    let query_element = match query_context {
        ElementContext::Reference => state.elements.reference,
        ElementContext::Floating => state.elements.floating,
    };

    let clipping = state.platform.get_clipping_rect(
        GetClippingRectArgs {
            element: query_element,
            boundary,
            root_boundary,
            strategy: state.strategy,
        },
    );

    let element_rect = match element_context {
        ElementContext::Floating => Rect {
            x: state.x,
            y: state.y,
            width: state.rects.floating.width,
            height: state.rects.floating.height,
        },
        ElementContext::Reference => state.rects.reference,
    };

    compute_overflow(&clipping, &element_rect, &padding)
}

} // verus!
