//! The offset middleware: translates the floating element along the main
//! axis (away from the reference for positive values) and the cross axis,
//! recording the applied deltas for later middleware to read. It never
//! changes the placement.

use vstd::prelude::*;

use crate::compute_coords_from_placement::coord_in_range;
use crate::coordinate::Axis;
use crate::data::{keys_unique, DataRecord, DataValue, DataValueView};
use crate::orientation::{Alignment, Side};
use crate::rect::COORD_LIMIT;
use crate::spec_get_side_axis;
use crate::types::{
    Middleware, MiddlewareReturn, MiddlewareState, Platform, SpecMiddlewareReturn,
    SpecMiddlewareState,
};

verus! {

/// Name of the [`Offset`] middleware.
pub const OFFSET_NAME: &'static str = "offset";

/// Structured offsets, one per axis.
#[derive(Copy, Clone, Debug, PartialEq, Eq, Structural)]
pub struct OffsetOptionsValues {
    /// The offset along the main axis: positive moves the floating element
    /// away from the reference. Defaults to zero.
    pub main_axis: Option<i64>,
    /// The offset along the cross axis. Defaults to zero.
    pub cross_axis: Option<i64>,
    /// For aligned placements, replaces `cross_axis` with an offset measured
    /// from the `Start` direction: positive moves towards `End`.
    pub alignment_axis: Option<i64>,
}

/// Options for the [`Offset`] middleware: a bare main-axis distance or
/// structured per-axis values.
#[derive(Copy, Clone, Debug, PartialEq, Eq, Structural)]
pub enum OffsetOptions {
    Value(i64),
    Values(OffsetOptionsValues),
}

impl OffsetOptions {
    /// Every configured offset stays within [`COORD_LIMIT`].
    pub open spec fn wf(self) -> bool {
        match self {
            OffsetOptions::Value(v) => -COORD_LIMIT <= v <= COORD_LIMIT,
            OffsetOptions::Values(values) => {
                &&& match values.main_axis {
                    Some(v) => -COORD_LIMIT <= v <= COORD_LIMIT,
                    None => true,
                }
                &&& match values.cross_axis {
                    Some(v) => -COORD_LIMIT <= v <= COORD_LIMIT,
                    None => true,
                }
                &&& match values.alignment_axis {
                    Some(v) => -COORD_LIMIT <= v <= COORD_LIMIT,
                    None => true,
                }
            },
        }
    }
}

/// The offset a configuration applies on each axis for a placement and text
/// direction: the main-axis value is oriented away from the reference, the
/// cross-axis value follows the alignment axis, and an `alignment_axis`
/// value replaces the cross-axis value with its sign tied to the alignment.
pub open spec fn spec_offset_deltas(
    options: OffsetOptions,
    placement: crate::orientation::Placement,
    rtl: Option<bool>,
) -> (int, int) {
    let side = placement.spec_side();
    let alignment = placement.spec_alignment();
    let is_vertical = spec_get_side_axis(placement) == Axis::Y;
    let (main_axis, cross_axis_base, alignment_axis) = match options {
        OffsetOptions::Value(v) => (v as int, 0int, None::<i64>),
        OffsetOptions::Values(values) => (
            match values.main_axis {
                Some(v) => v as int,
                None => 0int,
            },
            match values.cross_axis {
                Some(v) => v as int,
                None => 0int,
            },
            values.alignment_axis,
        ),
    };
    let cross_axis = match (alignment, alignment_axis) {
        (Some(a), Some(v)) => if a == Alignment::End {
            -(v as int)
        } else {
            v as int
        },
        _ => cross_axis_base,
    };
    let main = if side == Side::Left || side == Side::Top {
        -main_axis
    } else {
        main_axis
    };
    let cross = if rtl == Some(true) && is_vertical {
        -cross_axis
    } else {
        cross_axis
    };
    if is_vertical {
        (cross, main)
    } else {
        (main, cross)
    }
}

/// The record the offset middleware stores: the deltas it applied.
pub open spec fn spec_offset_record(dx: i64, dy: i64) -> Seq<(Seq<char>, DataValueView)> {
    seq![("x"@, DataValueView::Number(dx)), ("y"@, DataValueView::Number(dy))]
}

/// What the offset middleware computes: the coordinates moved by the
/// configured offsets, recorded as data for later middleware, with no reset.
/// When the moved coordinates would leave the engine's coordinate range,
/// nothing moves.
pub open spec fn spec_offset_compute<Element, P: Platform<Element>>(
    options: OffsetOptions,
    st: SpecMiddlewareState<Element, P>,
) -> SpecMiddlewareReturn {
    let rtl = st.platform.spec_is_rtl(st.floating);
    let deltas = spec_offset_deltas(options, st.placement, rtl);
    if coord_in_range(st.x + deltas.0) && coord_in_range(st.y + deltas.1) {
        SpecMiddlewareReturn {
            x: Some((st.x + deltas.0) as i64),
            y: Some((st.y + deltas.1) as i64),
            data: Some(spec_offset_record(deltas.0 as i64, deltas.1 as i64)),
            reset: None,
        }
    } else {
        SpecMiddlewareReturn {
            x: None,
            y: None,
            data: Some(spec_offset_record(0, 0)),
            reset: None,
        }
    }
}

/// Builds the record the offset middleware stores.
fn offset_record(dx: i64, dy: i64) -> (r: DataRecord)
    ensures
        r@ == spec_offset_record(dx, dy),
        keys_unique(r@),
{
    let mut entries: Vec<(String, DataValue)> = Vec::new();
    entries.push(("x".to_owned(), DataValue::Number(dx)));
    entries.push(("y".to_owned(), DataValue::Number(dy)));
    let r = DataRecord::from_entries(entries);
    proof {
        reveal_strlit("x");
        reveal_strlit("y");
        assert(("x"@).len() == 1 && ("y"@).len() == 1);
        assert(("x"@)[0] == 'x' && ("y"@)[0] == 'y');
        assert(("x"@) != ("y"@));
        assert(r@ =~~= spec_offset_record(dx, dy));
    }
    r
}

/// Modifies the placement by translating the floating element along the
/// configured axes.
pub struct Offset<Element, P> {
    options: OffsetOptions,
    element: core::marker::PhantomData<Element>,
    platform: core::marker::PhantomData<P>,
}

impl<Element, P> Offset<Element, P> {
    /// Constructs a new instance of this middleware.
    pub fn new(options: OffsetOptions) -> (r: Self)
        ensures
            r.spec_options() == options,
    {
        Offset {
            options,
            element: core::marker::PhantomData,
            platform: core::marker::PhantomData,
        }
    }

    /// The configured options.
    pub closed spec fn spec_options(self) -> OffsetOptions {
        self.options
    }
}

impl<Element, P: Platform<Element>> Middleware<Element, P> for Offset<Element, P> {
    open spec fn inv(&self) -> bool {
        self.spec_options().wf()
    }

    open spec fn spec_name(&self) -> Seq<char> {
        "offset"@
    }

    fn name(&self) -> (r: &'static str)
        ensures
            r@ == self.spec_name(),
    {
        OFFSET_NAME
    }

    open spec fn spec_compute(&self, state: SpecMiddlewareState<Element, P>) -> SpecMiddlewareReturn {
        spec_offset_compute(self.spec_options(), state)
    }

    fn compute(&self, state: MiddlewareState<'_, Element, P>) -> (r: MiddlewareReturn)
        ensures
            r@ == self.spec_compute(state@),
            r@.wf(),
    {
        let rtl = state.platform.is_rtl(state.elements.floating);

        let side = state.placement.side();
        let alignment = state.placement.alignment();
        let is_vertical = crate::get_side_axis(state.placement) == Axis::Y;

        let (main_axis, cross_axis_base, alignment_axis): (i64, i64, Option<i64>) =
            match self.options {
            OffsetOptions::Value(v) => (v, 0, None),
            OffsetOptions::Values(values) => (
                match values.main_axis {
                    Some(v) => v,
                    None => 0,
                },
                match values.cross_axis {
                    Some(v) => v,
                    None => 0,
                },
                values.alignment_axis,
            ),
        };

        let cross_axis: i64 = match (alignment, alignment_axis) {
            (Some(a), Some(v)) => if a == Alignment::End {
                -v
            } else {
                v
            },
            _ => cross_axis_base,
        };

        let main: i64 = if side == Side::Left || side == Side::Top {
            -main_axis
        } else {
            main_axis
        };
        let cross: i64 = if rtl == Some(true) && is_vertical {
            -cross_axis
        } else {
            cross_axis
        };

        let (dx, dy): (i64, i64) = if is_vertical {
            (cross, main)
        } else {
            (main, cross)
        };

        let next_x = state.x + dx;
        let next_y = state.y + dy;
        if -8 * COORD_LIMIT <= next_x && next_x <= 8 * COORD_LIMIT && -8 * COORD_LIMIT <= next_y
            && next_y <= 8 * COORD_LIMIT {
            MiddlewareReturn {
                x: Some(next_x),
                y: Some(next_y),
                data: Some(offset_record(dx, dy)),
                reset: None,
            }
        } else {
            MiddlewareReturn { x: None, y: None, data: Some(offset_record(0, 0)), reset: None }
        }
    }
}

} // verus!
