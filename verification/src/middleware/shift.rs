//! The shift middleware: clamps the floating element's coordinates so it
//! stays within the detected overflow bounds, pushing it back into the
//! clipping rectangle but never past what is already out of bounds on the
//! opposite side. An optional limiter caps the shift so the floating element
//! never detaches from the reference.

use vstd::prelude::*;

use crate::compute_coords_from_placement::coord_in_range;
use crate::coordinate::Axis;
use crate::data::{keys_unique, DataRecord, DataValue, DataValueView};
use crate::detect_overflow::{detect_overflow, spec_detect_overflow};
use crate::spec_get_side_axis;
use crate::types::{
    spec_detect_overflow_defaults, DetectOverflowOptions, Middleware, MiddlewareReturn,
    MiddlewareState, Platform, SpecMiddlewareReturn, SpecMiddlewareState,
};

verus! {

/// Name of the [`Shift`] middleware.
pub const SHIFT_NAME: &'static str = "shift";

/// Options for the [`LimitShift`] limiter.
#[derive(Copy, Clone, Debug, PartialEq, Eq, Structural)]
pub struct LimitShiftOptions {
    /// How far the floating element may travel past the point where its
    /// leading edge meets the reference's trailing edge; positive values let
    /// it travel further, negative values stop it earlier. Defaults to zero.
    pub offset: Option<i64>,

    /// Whether the shift axis is limited. Defaults to `true`.
    pub main_axis: Option<bool>,

    /// Whether the perpendicular axis is limited. Defaults to `true`.
    pub cross_axis: Option<bool>,
}

/// Options for the [`Shift`] middleware.
#[derive(Copy, Clone, Debug, PartialEq, Eq, Structural)]
pub struct ShiftOptions {
    /// Options for [`detect_overflow`].
    ///
    /// Defaults to [`DetectOverflowOptions::default`].
    pub detect_overflow: Option<DetectOverflowOptions>,

    /// Whether the coordinate along the axis the element may be shifted on
    /// is clamped. Defaults to `true`.
    pub main_axis: Option<bool>,

    /// Whether the coordinate along the perpendicular axis is clamped as
    /// well. Defaults to `false`.
    pub cross_axis: Option<bool>,

    /// Caps the shift against the reference's own extent, keeping the
    /// floating element attached to it. Defaults to no limit.
    pub limiter: Option<LimitShiftOptions>,
}

impl ShiftOptions {
    /// The overflow options and the limiter offset, if set, stay within
    /// [`crate::rect::COORD_LIMIT`].
    pub open spec fn wf(self) -> bool {
        &&& match self.detect_overflow {
            Some(o) => o.wf(),
            None => true,
        }
        &&& match self.limiter {
            Some(l) => match l.offset {
                Some(v) => -crate::rect::COORD_LIMIT <= v <= crate::rect::COORD_LIMIT,
                None => true,
            },
            None => true,
        }
    }
}

/// Shift options with every field unset.
pub open spec fn spec_shift_defaults() -> ShiftOptions {
    ShiftOptions { detect_overflow: None, main_axis: None, cross_axis: None, limiter: None }
}

impl Default for ShiftOptions {
    /// Returns options with every field unset.
    fn default() -> (r: Self)
        ensures
            r == spec_shift_defaults(),
    {
        ShiftOptions { detect_overflow: None, main_axis: None, cross_axis: None, limiter: None }
    }
}

/// The interval the limiter confines a coordinate to on one axis: from where
/// the floating element's trailing edge still touches the reference's
/// leading edge to where its leading edge still touches the reference's
/// trailing edge, widened by the configured travel allowance.
pub open spec fn spec_limit_interval(
    reference_start: int,
    reference_length: int,
    floating_length: int,
    travel: int,
) -> (int, int) {
    (reference_start - floating_length - travel, reference_start + reference_length + travel)
}

/// A coordinate confined to the limiter's interval; when the interval is
/// empty its lower end wins.
pub open spec fn spec_limited_coord(coord: int, low: int, high: int) -> int {
    if coord > high {
        if high < low {
            low
        } else {
            high
        }
    } else if coord < low {
        low
    } else {
        coord
    }
}

/// A coordinate clamped into the interval the overflow leaves on its axis:
/// no less than the coordinate pushed back by the overflow on the near side,
/// no more than the coordinate pulled back by the overflow on the far side.
pub open spec fn spec_shift_coord(coord: int, near_overflow: int, far_overflow: int) -> int {
    let low = coord + near_overflow;
    let high = coord - far_overflow;
    if coord > high {
        if high < low {
            low
        } else {
            high
        }
    } else if coord < low {
        low
    } else {
        coord
    }
}

/// The record the shift middleware stores: how far each coordinate was
/// moved.
pub open spec fn spec_shift_record(dx: i64, dy: i64) -> Seq<(Seq<char>, DataValueView)> {
    seq![("x"@, DataValueView::Number(dx)), ("y"@, DataValueView::Number(dy))]
}

/// What the shift middleware computes: the coordinate on the axis the
/// element can shift along — and, when enabled, on the perpendicular axis —
/// is clamped into the bounds the overflow leaves; a configured limiter then
/// confines each limited axis to the reference's extent; and the applied
/// movement is stored as data. A coordinate whose new value would leave the
/// engine's coordinate range is left unchanged.
pub open spec fn spec_shift_compute<Element, P: Platform<Element>>(
    options: ShiftOptions,
    st: SpecMiddlewareState<Element, P>,
) -> SpecMiddlewareReturn {
    let check_main = options.main_axis.unwrap_or(true);
    let check_cross = options.cross_axis.unwrap_or(false);
    let eff = options.detect_overflow.unwrap_or(spec_detect_overflow_defaults());
    let overflow = spec_detect_overflow(st, eff);
    let side_axis = spec_get_side_axis(st.placement);
    let shift_axis = side_axis.spec_opposite();
    let shifted_x = if shift_axis == Axis::X && check_main || side_axis == Axis::X && check_cross {
        spec_shift_coord(st.x as int, overflow.left, overflow.right)
    } else {
        st.x as int
    };
    let shifted_y = if shift_axis == Axis::Y && check_main || side_axis == Axis::Y && check_cross {
        spec_shift_coord(st.y as int, overflow.top, overflow.bottom)
    } else {
        st.y as int
    };
    let limited_x = match options.limiter {
        Some(l) => {
            let enabled = if shift_axis == Axis::X {
                l.main_axis.unwrap_or(true)
            } else {
                l.cross_axis.unwrap_or(true)
            };
            if enabled {
                let bounds = spec_limit_interval(
                    st.rects.reference.x as int,
                    st.rects.reference.width as int,
                    st.rects.floating.width as int,
                    l.offset.unwrap_or(0) as int,
                );
                spec_limited_coord(shifted_x, bounds.0, bounds.1)
            } else {
                shifted_x
            }
        },
        None => shifted_x,
    };
    let limited_y = match options.limiter {
        Some(l) => {
            let enabled = if shift_axis == Axis::Y {
                l.main_axis.unwrap_or(true)
            } else {
                l.cross_axis.unwrap_or(true)
            };
            if enabled {
                let bounds = spec_limit_interval(
                    st.rects.reference.y as int,
                    st.rects.reference.height as int,
                    st.rects.floating.height as int,
                    l.offset.unwrap_or(0) as int,
                );
                spec_limited_coord(shifted_y, bounds.0, bounds.1)
            } else {
                shifted_y
            }
        },
        None => shifted_y,
    };
    let final_x = if coord_in_range(limited_x) {
        limited_x as i64
    } else {
        st.x
    };
    let final_y = if coord_in_range(limited_y) {
        limited_y as i64
    } else {
        st.y
    };
    SpecMiddlewareReturn {
        x: Some(final_x),
        y: Some(final_y),
        data: Some(spec_shift_record((final_x - st.x) as i64, (final_y - st.y) as i64)),
        reset: None,
    }
}

/// Builds the record the shift middleware stores.
fn shift_record(dx: i64, dy: i64) -> (r: DataRecord)
    ensures
        r@ == spec_shift_record(dx, dy),
        keys_unique(r@),
{
    let mut entries: Vec<(String, DataValue)> = Vec::new();
    entries.push(("x".to_owned(), DataValue::Number(dx)));
    entries.push(("y".to_owned(), DataValue::Number(dy)));
    let r = DataRecord::from_entries(entries);
    proof {
        reveal_strlit("x");
        reveal_strlit("y");
        assert(("x"@).len() == 1 && ("y"@).len() == 1);
        assert(("x"@)[0] == 'x' && ("y"@)[0] == 'y');
        assert(("x"@) != ("y"@));
        assert(r@ =~~= spec_shift_record(dx, dy));
    }
    r
}

/// Optimizes the visibility of the floating element by shifting it to keep
/// it in view when it would overflow the clipping boundary.
pub struct Shift<Element, P> {
    options: ShiftOptions,
    element: core::marker::PhantomData<Element>,
    platform: core::marker::PhantomData<P>,
}

impl<Element, P> Shift<Element, P> {
    /// Constructs a new instance of this middleware.
    pub fn new(options: ShiftOptions) -> (r: Self)
        ensures
            r.spec_options() == options,
    {
        Shift {
            options,
            element: core::marker::PhantomData,
            platform: core::marker::PhantomData,
        }
    }

    /// The configured options.
    pub closed spec fn spec_options(self) -> ShiftOptions {
        self.options
    }
}

impl<Element, P: Platform<Element>> Middleware<Element, P> for Shift<Element, P> {
    open spec fn inv(&self) -> bool {
        self.spec_options().wf()
    }

    open spec fn spec_name(&self) -> Seq<char> {
        "shift"@
    }

    fn name(&self) -> (r: &'static str)
        ensures
            r@ == self.spec_name(),
    {
        SHIFT_NAME
    }

    open spec fn spec_compute(&self, state: SpecMiddlewareState<Element, P>) -> SpecMiddlewareReturn {
        spec_shift_compute(self.spec_options(), state)
    }

    fn compute(&self, state: MiddlewareState<'_, Element, P>) -> (r: MiddlewareReturn)
        ensures
            r@ == self.spec_compute(state@),
            r@.wf(),
    {
        let check_main = match self.options.main_axis {
            Some(b) => b,
            None => true,
        };
        let check_cross = match self.options.cross_axis {
            Some(b) => b,
            None => false,
        };
        let eff = match self.options.detect_overflow {
            Some(o) => o,
            None => DetectOverflowOptions::default(),
        };
        let overflow = detect_overflow(&state, &eff);
        let side_axis = crate::get_side_axis(state.placement);
        let shift_axis = side_axis.opposite();

        let shifted_x: i64 = if shift_axis == Axis::X && check_main || side_axis == Axis::X
            && check_cross {
            crate::clamp(state.x + overflow.left, state.x, state.x - overflow.right)
        } else {
            state.x
        };
        let shifted_y: i64 = if shift_axis == Axis::Y && check_main || side_axis == Axis::Y
            && check_cross {
            crate::clamp(state.y + overflow.top, state.y, state.y - overflow.bottom)
        } else {
            state.y
        };

        let limited_x: i64 = match self.options.limiter {
            Some(l) => {
                let enabled = if shift_axis == Axis::X {
                    match l.main_axis {
                        Some(b) => b,
                        None => true,
                    }
                } else {
                    match l.cross_axis {
                        Some(b) => b,
                        None => true,
                    }
                };
                if enabled {
                    let travel: i64 = match l.offset {
                        Some(v) => v,
                        None => 0,
                    };
                    crate::clamp(
                        state.rects.reference.x - state.rects.floating.width - travel,
                        shifted_x,
                        state.rects.reference.x + state.rects.reference.width + travel,
                    )
                } else {
                    shifted_x
                }
            },
            None => shifted_x,
        };
        let limited_y: i64 = match self.options.limiter {
            Some(l) => {
                let enabled = if shift_axis == Axis::Y {
                    match l.main_axis {
                        Some(b) => b,
                        None => true,
                    }
                } else {
                    match l.cross_axis {
                        Some(b) => b,
                        None => true,
                    }
                };
                if enabled {
                    let travel: i64 = match l.offset {
                        Some(v) => v,
                        None => 0,
                    };
                    crate::clamp(
                        state.rects.reference.y - state.rects.floating.height - travel,
                        shifted_y,
                        state.rects.reference.y + state.rects.reference.height + travel,
                    )
                } else {
                    shifted_y
                }
            },
            None => shifted_y,
        };

        let final_x: i64 = if -8 * crate::COORD_LIMIT <= limited_x && limited_x <= 8
            * crate::COORD_LIMIT {
            limited_x
        } else {
            state.x
        };
        let final_y: i64 = if -8 * crate::COORD_LIMIT <= limited_y && limited_y <= 8
            * crate::COORD_LIMIT {
            limited_y
        } else {
            state.y
        };

        MiddlewareReturn {
            x: Some(final_x),
            y: Some(final_y),
            data: Some(shift_record(final_x - state.x, final_y - state.y)),
            reset: None,
        }
    }
}

} // verus!
