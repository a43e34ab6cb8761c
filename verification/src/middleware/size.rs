//! The size middleware: measures the space available to the floating
//! element inside its clipping boundary and publishes it as data; the caller
//! applies the dimensions to the rendered element. It never moves the
//! floating element.

use vstd::prelude::*;

use crate::coordinate::Axis;
use crate::data::{keys_unique, DataRecord, DataValue, DataValueView};
use crate::detect_overflow::{detect_overflow, spec_detect_overflow};
use crate::orientation::{Alignment, Side};
use crate::spec_get_side_axis;
use crate::types::{
    spec_detect_overflow_defaults, DetectOverflowOptions, Middleware, MiddlewareReturn,
    MiddlewareState, Platform, SpecMiddlewareReturn, SpecMiddlewareState,
};

verus! {

/// Name of the [`Size`] middleware.
pub const SIZE_NAME: &'static str = "size";

/// Options for the [`Size`] middleware.
#[derive(Copy, Clone, Debug, PartialEq, Eq, Structural)]
pub struct SizeOptions {
    /// Options for [`detect_overflow`].
    ///
    /// Defaults to [`DetectOverflowOptions::default`].
    pub detect_overflow: Option<DetectOverflowOptions>,
}

impl SizeOptions {
    /// The overflow options, if set, are well-formed.
    pub open spec fn wf(self) -> bool {
        match self.detect_overflow {
            Some(o) => o.wf(),
            None => true,
        }
    }
}

/// Size options with every field unset.
pub open spec fn spec_size_defaults() -> SizeOptions {
    SizeOptions { detect_overflow: None }
}

impl Default for SizeOptions {
    /// Returns options with every field unset.
    fn default() -> (r: Self)
        ensures
            r == spec_size_defaults(),
    {
        SizeOptions { detect_overflow: None }
    }
}

/// The side whose overflow limits the floating element's height: the
/// placement's own side for vertical placements, otherwise the alignment
/// side it grows towards.
pub open spec fn spec_height_side(placement: crate::orientation::Placement) -> Side {
    if spec_get_side_axis(placement) == Axis::Y {
        placement.spec_side()
    } else {
        if placement.spec_alignment() == Some(Alignment::End) {
            Side::Top
        } else {
            Side::Bottom
        }
    }
}

/// The side whose overflow limits the floating element's width, by the same
/// rule as [`spec_height_side`], with the text direction deciding which
/// horizontal side an aligned vertical placement grows towards.
pub open spec fn spec_width_side(
    placement: crate::orientation::Placement,
    rtl: Option<bool>,
) -> Side {
    if spec_get_side_axis(placement) == Axis::Y {
        let start_means_left = rtl != Some(true);
        if placement.spec_alignment() == (if start_means_left {
            Some(Alignment::End)
        } else {
            Some(Alignment::Start)
        }) {
            Side::Left
        } else {
            Side::Right
        }
    } else {
        placement.spec_side()
    }
}

/// The space available to the floating element along one axis: its current
/// length reduced by the overflow on the side it grows towards, capped by
/// the length that remains when the overflow on both ends is removed.
pub open spec fn spec_available(length: int, grow_overflow: int, near: int, far: int) -> int {
    let clipped = length - near - far;
    let grown = length - grow_overflow;
    if grown < clipped {
        grown
    } else {
        clipped
    }
}

/// The record the size middleware stores.
pub open spec fn spec_size_record(available_width: i64, available_height: i64) -> Seq<
    (Seq<char>, DataValueView),
> {
    seq![
        ("available_width"@, DataValueView::Number(available_width)),
        ("available_height"@, DataValueView::Number(available_height)),
    ]
}

/// What the size middleware computes: the available width and height for the
/// current placement, published as data, with no coordinate change and no
/// reset.
pub open spec fn spec_size_compute<Element, P: Platform<Element>>(
    options: SizeOptions,
    st: SpecMiddlewareState<Element, P>,
) -> SpecMiddlewareReturn {
    let eff = options.detect_overflow.unwrap_or(spec_detect_overflow_defaults());
    let overflow = spec_detect_overflow(st, eff);
    let rtl = st.platform.spec_is_rtl(st.floating);
    let width = st.rects.floating.width as int;
    let height = st.rects.floating.height as int;
    let available_width = spec_available(
        width,
        overflow.side(spec_width_side(st.placement, rtl)),
        overflow.left,
        overflow.right,
    );
    let available_height = spec_available(
        height,
        overflow.side(spec_height_side(st.placement)),
        overflow.top,
        overflow.bottom,
    );
    SpecMiddlewareReturn {
        x: None,
        y: None,
        data: Some(spec_size_record(available_width as i64, available_height as i64)),
        reset: None,
    }
}

/// Builds the record the size middleware stores.
fn size_record(available_width: i64, available_height: i64) -> (r: DataRecord)
    ensures
        r@ == spec_size_record(available_width, available_height),
        keys_unique(r@),
{
    let mut entries: Vec<(String, DataValue)> = Vec::new();
    entries.push(("available_width".to_owned(), DataValue::Number(available_width)));
    entries.push(("available_height".to_owned(), DataValue::Number(available_height)));
    let r = DataRecord::from_entries(entries);
    proof {
        reveal_strlit("available_width");
        reveal_strlit("available_height");
        assert(("available_width"@).len() == 15);
        assert(("available_height"@).len() == 16);
        assert(r@ =~~= spec_size_record(available_width, available_height));
    }
    r
}

/// Provides data to change the size of the floating element, for instance to
/// prevent it from overflowing the clipping boundary.
pub struct Size<Element, P> {
    options: SizeOptions,
    element: core::marker::PhantomData<Element>,
    platform: core::marker::PhantomData<P>,
}

impl<Element, P> Size<Element, P> {
    /// Constructs a new instance of this middleware.
    pub fn new(options: SizeOptions) -> (r: Self)
        ensures
            r.spec_options() == options,
    {
        Size {
            options,
            element: core::marker::PhantomData,
            platform: core::marker::PhantomData,
        }
    }

    /// The configured options.
    pub closed spec fn spec_options(self) -> SizeOptions {
        self.options
    }
}

impl<Element, P: Platform<Element>> Middleware<Element, P> for Size<Element, P> {
    open spec fn inv(&self) -> bool {
        self.spec_options().wf()
    }

    open spec fn spec_name(&self) -> Seq<char> {
        "size"@
    }

    fn name(&self) -> (r: &'static str)
        ensures
            r@ == self.spec_name(),
    {
        SIZE_NAME
    }

    open spec fn spec_compute(&self, state: SpecMiddlewareState<Element, P>) -> SpecMiddlewareReturn {
        spec_size_compute(self.spec_options(), state)
    }

    fn compute(&self, state: MiddlewareState<'_, Element, P>) -> (r: MiddlewareReturn)
        ensures
            r@ == self.spec_compute(state@),
            r@.wf(),
    {
        let eff = match self.options.detect_overflow {
            Some(o) => o,
            None => DetectOverflowOptions::default(),
        };
        let overflow = detect_overflow(&state, &eff);
        let rtl = state.platform.is_rtl(state.elements.floating);
        let width = state.rects.floating.width;
        let height = state.rects.floating.height;

        let is_vertical = crate::get_side_axis(state.placement) == Axis::Y;
        let alignment = state.placement.alignment();

        let height_side: Side = if is_vertical {
            state.placement.side()
        } else {
            if alignment == Some(Alignment::End) {
                Side::Top
            } else {
                Side::Bottom
            }
        };
        let width_side: Side = if is_vertical {
            let start_means_left = rtl != Some(true);
            if alignment == (if start_means_left {
                Some(Alignment::End)
            } else {
                Some(Alignment::Start)
            }) {
                Side::Left
            } else {
                Side::Right
            }
        } else {
            state.placement.side()
        };

        let clipped_width = width - overflow.left - overflow.right;
        let grown_width = width - overflow.side(width_side);
        let available_width = if grown_width < clipped_width {
            grown_width
        } else {
            clipped_width
        };

        let clipped_height = height - overflow.top - overflow.bottom;
        let grown_height = height - overflow.side(height_side);
        let available_height = if grown_height < clipped_height {
            grown_height
        } else {
            clipped_height
        };

        MiddlewareReturn {
            x: None,
            y: None,
            data: Some(size_record(available_width, available_height)),
            reset: None,
        }
    }
}

} // verus!
