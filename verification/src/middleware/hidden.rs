//! The hide middleware: reports whether the reference element has become
//! fully clipped, or whether the floating element has escaped its clipping
//! context. It never moves the floating element.

use vstd::prelude::*;

use crate::data::{keys_unique, DataRecord, DataValue, DataValueView};
use crate::detect_overflow::{
    detect_overflow, overflow_in_range, spec_detect_overflow, SpecSides,
};
use crate::length::SideLength;
use crate::rect::{Rect, COORD_LIMIT};
use crate::types::{
    DetectOverflowOptions, ElementContext, Middleware, MiddlewareReturn, MiddlewareState,
    Platform, SpecMiddlewareReturn, SpecMiddlewareState, spec_detect_overflow_defaults,
};

verus! {

/// Name of the [`Hide`] middleware.
pub const HIDE_NAME: &'static str = "hide";

/// The strategy used to decide when the floating element should hide.
#[derive(Copy, Clone, Debug, PartialEq, Eq, Structural)]
pub enum HideStrategy {
    /// The reference element is fully clipped away.
    ReferenceHidden,
    /// The floating element has escaped the reference's clipping context.
    Escaped,
}

/// Options for the [`Hide`] middleware.
#[derive(Copy, Clone, Debug, PartialEq, Eq, Structural)]
pub struct HideOptions {
    /// Options for [`detect_overflow`].
    ///
    /// Defaults to [`DetectOverflowOptions::default`].
    pub detect_overflow: Option<DetectOverflowOptions>,

    /// The strategy used to determine when to hide the floating element.
    ///
    /// Defaults to [`HideStrategy::ReferenceHidden`].
    pub strategy: Option<HideStrategy>,
}

impl HideOptions {
    /// The overflow options, if set, are well-formed.
    pub open spec fn wf(self) -> bool {
        match self.detect_overflow {
            Some(o) => o.wf(),
            None => true,
        }
    }

    /// Sets the `detect_overflow` option.
    pub fn detect_overflow(self, value: DetectOverflowOptions) -> (r: Self)
        ensures
            r == (HideOptions { detect_overflow: Some(value), ..self }),
    {
        HideOptions { detect_overflow: Some(value), ..self }
    }

    /// Sets the `strategy` option.
    pub fn strategy(self, value: HideStrategy) -> (r: Self)
        ensures
            r == (HideOptions { strategy: Some(value), ..self }),
    {
        HideOptions { strategy: Some(value), ..self }
    }
}

/// Hide options with every field unset.
pub open spec fn spec_hide_defaults() -> HideOptions {
    HideOptions { detect_overflow: None, strategy: None }
}

impl Default for HideOptions {
    /// Returns options with every field unset.
    fn default() -> (r: Self)
        ensures
            r == spec_hide_defaults(),
    {
        HideOptions { detect_overflow: None, strategy: None }
    }
}

/// Data stored by the [`Hide`] middleware: the fields of the strategy that
/// did not run stay unset and merge away.
#[derive(Copy, Clone, Debug, PartialEq, Eq, Structural)]
pub struct HideData {
    pub reference_hidden: Option<bool>,
    pub reference_hidden_offsets: Option<SideLength>,
    pub escaped: Option<bool>,
    pub escaped_offsets: Option<SideLength>,
}

/// The value a `HideData` field contributes to the data record.
pub open spec fn spec_opt_bool_value(v: Option<bool>) -> DataValueView {
    match v {
        Some(b) => DataValueView::Bool(b),
        None => DataValueView::Null,
    }
}

/// The value a per-side `HideData` field contributes to the data record.
pub open spec fn spec_opt_sides_value(v: Option<SideLength>) -> DataValueView {
    match v {
        Some(s) => DataValueView::Sides(s),
        None => DataValueView::Null,
    }
}

/// The record under which [`HideData`] is stored: one field per entry, in
/// declaration order, with unset fields stored as `Null`.
pub open spec fn spec_hide_record(d: HideData) -> Seq<(Seq<char>, DataValueView)> {
    seq![
        ("reference_hidden"@, spec_opt_bool_value(d.reference_hidden)),
        ("reference_hidden_offsets"@, spec_opt_sides_value(d.reference_hidden_offsets)),
        ("escaped"@, spec_opt_bool_value(d.escaped)),
        ("escaped_offsets"@, spec_opt_sides_value(d.escaped_offsets)),
    ]
}

impl HideData {
    /// Returns this data as a record of named values.
    pub fn to_record(&self) -> (r: DataRecord)
        ensures
            r@ == spec_hide_record(*self),
            keys_unique(r@),
    {
        let mut entries: Vec<(String, DataValue)> = Vec::new();
        entries.push((
            "reference_hidden".to_owned(),
            match self.reference_hidden {
                Some(b) => DataValue::Bool(b),
                None => DataValue::Null,
            },
        ));
        entries.push((
            "reference_hidden_offsets".to_owned(),
            match self.reference_hidden_offsets {
                Some(s) => DataValue::Sides(s),
                None => DataValue::Null,
            },
        ));
        entries.push((
            "escaped".to_owned(),
            match self.escaped {
                Some(b) => DataValue::Bool(b),
                None => DataValue::Null,
            },
        ));
        entries.push((
            "escaped_offsets".to_owned(),
            match self.escaped_offsets {
                Some(s) => DataValue::Sides(s),
                None => DataValue::Null,
            },
        ));
        let r = DataRecord::from_entries(entries);
        proof {
            reveal_strlit("reference_hidden");
            reveal_strlit("reference_hidden_offsets");
            reveal_strlit("escaped");
            reveal_strlit("escaped_offsets");
            assert(r@ =~~= spec_hide_record(*self));
            assert(("reference_hidden"@).len() == 16);
            assert(("reference_hidden_offsets"@).len() == 24);
            assert(("escaped"@).len() == 7);
            assert(("escaped_offsets"@).len() == 15);
        }
        r
    }
}

/// The per-side offsets the hide middleware reports: the overflow of the
/// measured element reduced by that element's own length on each side, so
/// that a non-negative value means the element is fully clipped past that
/// side.
pub open spec fn spec_side_offsets(overflow: SpecSides, rect: Rect) -> SpecSides {
    SpecSides {
        top: overflow.top - rect.height,
        right: overflow.right - rect.width,
        bottom: overflow.bottom - rect.height,
        left: overflow.left - rect.width,
    }
}

/// Whether some side's offset is non-negative, i.e. the element is fully
/// clipped past some side.
pub open spec fn spec_any_side_fully_clipped(offsets: SpecSides) -> bool {
    offsets.top >= 0 || offsets.right >= 0 || offsets.bottom >= 0 || offsets.left >= 0
}

/// The per-side values of a bounded overflow as a concrete value.
pub open spec fn spec_sides_as_side_length(s: SpecSides) -> SideLength {
    SideLength { top: s.top as i64, right: s.right as i64, bottom: s.bottom as i64, left: s.left as i64 }
}

/// Computes the per-side clipped offsets of an element from its overflow.
fn get_side_offsets(overflow: &SideLength, rect: &Rect) -> (r: SideLength)
    requires
        overflow_in_range(overflow.top as int),
        overflow_in_range(overflow.right as int),
        overflow_in_range(overflow.bottom as int),
        overflow_in_range(overflow.left as int),
        rect.wf(),
    ensures
        r.top == overflow.top - rect.height,
        r.right == overflow.right - rect.width,
        r.bottom == overflow.bottom - rect.height,
        r.left == overflow.left - rect.width,
{
    SideLength {
        top: overflow.top - rect.height,
        right: overflow.right - rect.width,
        bottom: overflow.bottom - rect.height,
        left: overflow.left - rect.width,
    }
}

/// Returns whether some side's value is non-negative.
fn is_any_side_fully_clipped(overflow: &SideLength) -> (r: bool)
    ensures
        r == (overflow.top >= 0 || overflow.right >= 0 || overflow.bottom >= 0 || overflow.left
            >= 0),
{
    overflow.top >= 0 || overflow.right >= 0 || overflow.bottom >= 0 || overflow.left >= 0
}

/// Provides data to hide the floating element in applicable situations, such
/// as when it is not in the same clipping context as the reference element.
pub struct Hide<Element, P> {
    options: HideOptions,
    element: core::marker::PhantomData<Element>,
    platform: core::marker::PhantomData<P>,
}

impl<Element, P> Hide<Element, P> {
    /// Constructs a new instance of this middleware.
    pub fn new(options: HideOptions) -> (r: Self)
        ensures
            r.spec_options() == options,
    {
        Hide {
            options,
            element: core::marker::PhantomData,
            platform: core::marker::PhantomData,
        }
    }

    /// The configured options.
    pub closed spec fn spec_options(self) -> HideOptions {
        self.options
    }
}

/// What the hide middleware computes: per-side offsets of the strategy's
/// element and whether it is fully clipped, stored as data; coordinates are
/// never changed and no reset is requested.
pub open spec fn spec_hide_compute<Element, P: Platform<Element>>(
    options: HideOptions,
    st: SpecMiddlewareState<Element, P>,
) -> SpecMiddlewareReturn {
    let base = options.detect_overflow.unwrap_or(spec_detect_overflow_defaults());
    let data = match options.strategy.unwrap_or(HideStrategy::ReferenceHidden) {
        HideStrategy::ReferenceHidden => {
            let eff = DetectOverflowOptions {
                element_context: Some(ElementContext::Reference),
                ..base
            };
            let overflow = spec_detect_overflow(st, eff);
            let offsets = spec_side_offsets(overflow, st.rects.reference);
            spec_hide_record(
                HideData {
                    reference_hidden: Some(spec_any_side_fully_clipped(offsets)),
                    reference_hidden_offsets: Some(spec_sides_as_side_length(offsets)),
                    escaped: None,
                    escaped_offsets: None,
                },
            )
        },
        HideStrategy::Escaped => {
            let eff = DetectOverflowOptions { alt_boundary: Some(true), ..base };
            let overflow = spec_detect_overflow(st, eff);
            let offsets = spec_side_offsets(overflow, st.rects.floating);
            spec_hide_record(
                HideData {
                    reference_hidden: None,
                    reference_hidden_offsets: None,
                    escaped: Some(spec_any_side_fully_clipped(offsets)),
                    escaped_offsets: Some(spec_sides_as_side_length(offsets)),
                },
            )
        },
    };
    SpecMiddlewareReturn { x: None, y: None, data: Some(data), reset: None }
}

impl<Element, P: Platform<Element>> Middleware<Element, P> for Hide<Element, P> {
    open spec fn inv(&self) -> bool {
        self.spec_options().wf()
    }

    open spec fn spec_name(&self) -> Seq<char> {
        "hide"@
    }

    fn name(&self) -> (r: &'static str)
        ensures
            r@ == self.spec_name(),
    {
        HIDE_NAME
    }

    open spec fn spec_compute(&self, state: SpecMiddlewareState<Element, P>) -> SpecMiddlewareReturn {
        spec_hide_compute(self.spec_options(), state)
    }

    fn compute(&self, state: MiddlewareState<'_, Element, P>) -> (r: MiddlewareReturn)
        ensures
            r@ == self.spec_compute(state@),
            r@.wf(),
    {
        let base = match self.options.detect_overflow {
            Some(o) => o,
            None => DetectOverflowOptions::default(),
        };
        let strategy = match self.options.strategy {
            Some(s) => s,
            None => HideStrategy::ReferenceHidden,
        };

        let data = match strategy {
            HideStrategy::ReferenceHidden => {
                let eff = base.element_context(ElementContext::Reference);
                let overflow = detect_overflow(&state, &eff);
                let offsets = get_side_offsets(&overflow, &state.rects.reference);
                HideData {
                    reference_hidden: Some(is_any_side_fully_clipped(&offsets)),
                    reference_hidden_offsets: Some(offsets),
                    escaped: None,
                    escaped_offsets: None,
                }
            },
            HideStrategy::Escaped => {
                let eff = base.alt_boundary(true);
                let overflow = detect_overflow(&state, &eff);
                let offsets = get_side_offsets(&overflow, &state.rects.floating);
                HideData {
                    reference_hidden: None,
                    reference_hidden_offsets: None,
                    escaped: Some(is_any_side_fully_clipped(&offsets)),
                    escaped_offsets: Some(offsets),
                }
            },
        };

        MiddlewareReturn { x: None, y: None, data: Some(data.to_record()), reset: None }
    }
}

} // verus!
