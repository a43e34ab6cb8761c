//! The arrow middleware: computes the coordinate along the alignment axis at
//! which an inner arrow element should sit so it stays centered over the
//! overlap of reference and floating element, clamped by padding and by the
//! arrow's own size.

use vstd::prelude::*;

use crate::compute_coords_from_placement::coord_in_range;
use crate::coordinate::Axis;
use crate::data::{keys_unique, spec_lookup, DataRecord, DataValue, DataValueView};
use crate::padding::Padding;
use crate::rect::COORD_LIMIT;
use crate::spec_get_padding_object;
use crate::types::{
    Middleware, MiddlewareReturn, MiddlewareState, Platform, Reset, SpecMiddlewareReturn,
    SpecMiddlewareState,
};
use crate::{get_padding_object, spec_get_alignment_axis};

verus! {

/// Name of the [`Arrow`] middleware.
pub const ARROW_NAME: &'static str = "arrow";

/// Options for the [`Arrow`] middleware.
#[derive(Copy, Clone, Debug)]
pub struct ArrowOptions<Element> {
    /// The arrow element to be positioned.
    pub element: Element,

    /// The padding between the arrow element and the floating element's
    /// edges. Defaults to zero on all sides.
    pub padding: Option<Padding>,
}

impl<Element> ArrowOptions<Element> {
    /// Constructs options for the given arrow element.
    pub fn new(element: Element) -> (r: Self)
        ensures
            r == (ArrowOptions { element, padding: None }),
    {
        ArrowOptions { element, padding: None }
    }

    /// Sets the `element` option.
    pub fn element(self, value: Element) -> (r: Self)
        ensures
            r == (ArrowOptions { element: value, ..self }),
    {
        ArrowOptions { element: value, ..self }
    }

    /// Sets the `padding` option.
    pub fn padding(self, value: Padding) -> (r: Self)
        ensures
            r == (ArrowOptions { padding: Some(value), ..self }),
    {
        ArrowOptions { padding: Some(value), ..self }
    }

    /// The padding values stay within [`COORD_LIMIT`].
    pub open spec fn wf(self) -> bool {
        match self.padding {
            Some(p) => {
                let sides = spec_get_padding_object(p);
                &&& -COORD_LIMIT <= sides.top <= COORD_LIMIT
                &&& -COORD_LIMIT <= sides.right <= COORD_LIMIT
                &&& -COORD_LIMIT <= sides.bottom <= COORD_LIMIT
                &&& -COORD_LIMIT <= sides.left <= COORD_LIMIT
            },
            None => true,
        }
    }
}

/// Division by two rounding towards negative infinity.
fn half_floor(v: i64) -> (r: i64)
    requires
        -16 * COORD_LIMIT <= v <= 16 * COORD_LIMIT,
    ensures
        r == v as int / 2,
{
    if v >= 0 {
        v / 2
    } else {
        -((-v + 1) / 2)
    }
}

/// The smaller of two values.
pub open spec fn spec_min(a: int, b: int) -> int {
    if a < b {
        a
    } else {
        b
    }
}

/// Everything the arrow computation derives from a state: the clamped arrow
/// offset along the alignment axis, the residual centering error, and the
/// alignment offset applied to the floating element when the reference is
/// too small to keep the arrow inside the padded bounds.
pub ghost struct SpecArrowValues {
    pub offset: int,
    pub center_offset: int,
    pub should_add_offset: bool,
    pub alignment_offset: int,
}

/// The arrow computation over mathematical integers, with halves rounded
/// towards negative infinity.
pub open spec fn spec_arrow_values<Element, P: Platform<Element>>(
    options: ArrowOptions<Element>,
    st: SpecMiddlewareState<Element, P>,
) -> SpecArrowValues {
    let padding = spec_get_padding_object(options.padding.unwrap_or(Padding::All(0)));
    let axis = spec_get_alignment_axis(st.placement);
    let length = axis.spec_length();
    let arrow_dims = st.platform.spec_dimensions(options.element);
    let arrow_len = arrow_dims.spec_length(length) as int;
    let coord: int = match axis {
        Axis::X => st.x as int,
        Axis::Y => st.y as int,
    };
    let min_padding_side: int = match axis {
        Axis::X => padding.left as int,
        Axis::Y => padding.top as int,
    };
    let max_padding_side: int = match axis {
        Axis::X => padding.right as int,
        Axis::Y => padding.bottom as int,
    };
    let end_diff = st.rects.reference.spec_length(length) + st.rects.reference.spec_axis(axis)
        - coord - st.rects.floating.spec_length(length);
    let start_diff = coord - st.rects.reference.spec_axis(axis);
    let client_size = st.rects.floating.spec_length(length) as int;
    let center_to_reference = end_diff / 2 - start_diff / 2;
    let largest_possible_padding = client_size / 2 - arrow_len / 2 - 1;
    let min_padding = spec_min(min_padding_side, largest_possible_padding);
    let max_padding = spec_min(max_padding_side, largest_possible_padding);
    let lo = min_padding;
    let hi = client_size - arrow_len - max_padding;
    let center = client_size / 2 - arrow_len / 2 + center_to_reference;
    let offset = if center > hi {
        if hi < lo {
            lo
        } else {
            hi
        }
    } else if center < lo {
        lo
    } else {
        center
    };
    let should_add_offset = spec_lookup(st.middleware_data, "arrow"@) is None
        && st.placement.spec_alignment() is Some && center != offset
        && st.rects.reference.spec_length(length) / 2 - (if center < lo {
        min_padding
    } else {
        max_padding
    }) - arrow_len / 2 < 0;
    let alignment_offset = if should_add_offset {
        if center < lo {
            center - lo
        } else {
            center - hi
        }
    } else {
        0
    };
    SpecArrowValues { offset, center_offset: center - offset - alignment_offset, should_add_offset, alignment_offset }
}

/// The record the arrow middleware stores: the arrow's offset under the name
/// of its axis, the residual centering error, and — when one was applied —
/// the alignment offset.
pub open spec fn spec_arrow_record(
    axis: Axis,
    offset: i64,
    center_offset: i64,
    alignment_offset: Option<i64>,
) -> Seq<(Seq<char>, DataValueView)> {
    let axis_key = match axis {
        Axis::X => "x"@,
        Axis::Y => "y"@,
    };
    let base = seq![
        (axis_key, DataValueView::Number(offset)),
        ("center_offset"@, DataValueView::Number(center_offset)),
    ];
    match alignment_offset {
        Some(v) => base.push(("alignment_offset"@, DataValueView::Number(v))),
        None => base,
    }
}

/// What the arrow middleware computes: the arrow offset is published as
/// data; when the reference is too small to keep the arrow inside the padded
/// bounds for an aligned placement, the floating element itself is moved by
/// the excess once, and the pipeline re-runs.
pub open spec fn spec_arrow_compute<Element, P: Platform<Element>>(
    options: ArrowOptions<Element>,
    st: SpecMiddlewareState<Element, P>,
) -> SpecMiddlewareReturn {
    let axis = spec_get_alignment_axis(st.placement);
    let v = spec_arrow_values(options, st);
    let coord: int = match axis {
        Axis::X => st.x as int,
        Axis::Y => st.y as int,
    };
    let moved = coord + v.alignment_offset;
    let new_coord: i64 = if coord_in_range(moved) {
        moved as i64
    } else {
        match axis {
            Axis::X => st.x,
            Axis::Y => st.y,
        }
    };
    let data = spec_arrow_record(
        axis,
        v.offset as i64,
        v.center_offset as i64,
        if v.should_add_offset {
            Some(v.alignment_offset as i64)
        } else {
            None
        },
    );
    SpecMiddlewareReturn {
        x: match axis {
            Axis::X => Some(new_coord),
            Axis::Y => None,
        },
        y: match axis {
            Axis::X => None,
            Axis::Y => Some(new_coord),
        },
        data: Some(data),
        reset: if v.should_add_offset {
            Some(Reset::True)
        } else {
            None
        },
    }
}

/// Builds the record the arrow middleware stores.
fn arrow_record(axis: Axis, offset: i64, center_offset: i64, alignment_offset: Option<i64>) -> (r:
    DataRecord)
    ensures
        r@ == spec_arrow_record(axis, offset, center_offset, alignment_offset),
        keys_unique(r@),
{
    let mut entries: Vec<(String, DataValue)> = Vec::new();
    let axis_key: &str = match axis {
        Axis::X => "x",
        Axis::Y => "y",
    };
    entries.push((axis_key.to_owned(), DataValue::Number(offset)));
    entries.push(("center_offset".to_owned(), DataValue::Number(center_offset)));
    match alignment_offset {
        Some(v) => {
            entries.push(("alignment_offset".to_owned(), DataValue::Number(v)));
        },
        None => {},
    }
    let r = DataRecord::from_entries(entries);
    proof {
        reveal_strlit("x");
        reveal_strlit("y");
        reveal_strlit("center_offset");
        reveal_strlit("alignment_offset");
        assert(("x"@).len() == 1 && ("y"@).len() == 1);
        assert(("center_offset"@).len() == 13);
        assert(("alignment_offset"@).len() == 16);
        assert(r@ =~~= spec_arrow_record(axis, offset, center_offset, alignment_offset));
    }
    r
}

/// Provides data to position an inner element of the floating element so
/// that it appears centered over the reference element.
pub struct Arrow<Element, P> {
    options: ArrowOptions<Element>,
    platform: core::marker::PhantomData<P>,
}

impl<Element, P> Arrow<Element, P> {
    /// Constructs a new instance of this middleware.
    pub fn new(options: ArrowOptions<Element>) -> (r: Self)
        ensures
            r.spec_options() == options,
    {
        Arrow { options, platform: core::marker::PhantomData }
    }

    /// The configured options.
    pub closed spec fn spec_options(self) -> ArrowOptions<Element> {
        self.options
    }
}

impl<Element, P: Platform<Element>> Middleware<Element, P> for Arrow<Element, P> {
    open spec fn inv(&self) -> bool {
        self.spec_options().wf()
    }

    open spec fn spec_name(&self) -> Seq<char> {
        "arrow"@
    }

    fn name(&self) -> (r: &'static str)
        ensures
            r@ == self.spec_name(),
    {
        ARROW_NAME
    }

    open spec fn spec_compute(&self, state: SpecMiddlewareState<Element, P>) -> SpecMiddlewareReturn {
        spec_arrow_compute(self.spec_options(), state)
    }

    #[verifier::rlimit(60)]
    fn compute(&self, state: MiddlewareState<'_, Element, P>) -> (r: MiddlewareReturn)
        ensures
            r@ == self.spec_compute(state@),
            r@.wf(),
    {
        let padding = get_padding_object(
            match self.options.padding {
                Some(p) => p,
                None => Padding::All(0),
            },
        );
        let axis = crate::get_alignment_axis(state.placement);
        let length = crate::get_axis_length(axis);
        let arrow_dims = state.platform.get_dimensions(&self.options.element);
        let arrow_len: i64 = arrow_dims.length(length);
        let coord: i64 = match axis {
            Axis::X => state.x,
            Axis::Y => state.y,
        };
        let min_padding_side: i64 = match axis {
            Axis::X => padding.left,
            Axis::Y => padding.top,
        };
        let max_padding_side: i64 = match axis {
            Axis::X => padding.right,
            Axis::Y => padding.bottom,
        };
        let end_diff: i64 = state.rects.reference.length(length) + state.rects.reference.axis(axis)
            - coord - state.rects.floating.length(length);
        let start_diff: i64 = coord - state.rects.reference.axis(axis);
        let client_size: i64 = state.rects.floating.length(length);
        let center_to_reference: i64 = half_floor(end_diff) - half_floor(start_diff);
        let largest_possible_padding: i64 = client_size / 2 - arrow_len / 2 - 1;
        let min_padding: i64 = if min_padding_side < largest_possible_padding {
            min_padding_side
        } else {
            largest_possible_padding
        };
        let max_padding: i64 = if max_padding_side < largest_possible_padding {
            max_padding_side
        } else {
            largest_possible_padding
        };
        let lo: i64 = min_padding;
        let hi: i64 = client_size - arrow_len - max_padding;
        let center: i64 = client_size / 2 - arrow_len / 2 + center_to_reference;
        let offset: i64 = crate::clamp(lo, center, hi);

        let prior = state.middleware_data.get(ARROW_NAME);
        let should_add_offset = prior.is_none() && state.placement.alignment().is_some() && center
            != offset && state.rects.reference.length(length) / 2 - (if center < lo {
            min_padding
        } else {
            max_padding
        }) - arrow_len / 2 < 0;
        let alignment_offset: i64 = if should_add_offset {
            if center < lo {
                center - lo
            } else {
                center - hi
            }
        } else {
            0
        };

        let moved: i64 = coord + alignment_offset;
        let new_coord: i64 = if -8 * COORD_LIMIT <= moved && moved <= 8 * COORD_LIMIT {
            moved
        } else {
            coord
        };

        let record = arrow_record(
            axis,
            offset,
            center - offset - alignment_offset,
            if should_add_offset {
                Some(alignment_offset)
            } else {
                None
            },
        );

        MiddlewareReturn {
            x: match axis {
                Axis::X => Some(new_coord),
                Axis::Y => None,
            },
            y: match axis {
                Axis::X => None,
                Axis::Y => Some(new_coord),
            },
            data: Some(record),
            reset: if should_add_offset {
                Some(Reset::True)
            } else {
                None
            },
        }
    }
}

} // verus!
