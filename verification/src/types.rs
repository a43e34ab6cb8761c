//! The types of the middleware pipeline: the platform interface, the state a
//! middleware sees, what it may return, and the reset protocol.

use vstd::prelude::*;

use crate::compute_coords_from_placement::coord_in_range;
use crate::data::{keys_unique, DataRecord, DataValueView, MiddlewareData};
use crate::length::{Dimensions, SideLength};
use crate::orientation::Placement;
use crate::padding::Padding;
use crate::rect::{ElementRects, Rect, COORD_LIMIT};
use crate::spec_get_padding_object;
use crate::strategy::Strategy;

verus! {

/// Which element's rectangle overflow is measured against.
#[derive(Copy, Clone, Debug, PartialEq, Eq, Structural)]
pub enum ElementContext {
    Reference,
    Floating,
}

impl ElementContext {
    /// The other context.
    pub open spec fn spec_alternate(&self) -> ElementContext {
        match self {
            ElementContext::Reference => ElementContext::Floating,
            ElementContext::Floating => ElementContext::Reference,
        }
    }

    /// Returns the other context.
    #[verifier::when_used_as_spec(spec_alternate)]
    pub fn alternate(&self) -> (r: ElementContext)
        ensures
            r == self.spec_alternate(),
    {
        match self {
            ElementContext::Reference => ElementContext::Floating,
            ElementContext::Floating => ElementContext::Reference,
        }
    }
}

/// The boundary the platform clips against: the element's clipping ancestors
/// or an explicit rectangle.
#[derive(Copy, Clone, Debug, PartialEq, Eq, Structural)]
pub enum Boundary {
    ClippingAncestors,
    Rect(Rect),
}

/// The root boundary the platform clips against.
#[derive(Copy, Clone, Debug, PartialEq, Eq, Structural)]
pub enum RootBoundary {
    Viewport,
    Document,
    Rect(Rect),
}

/// Options for overflow detection.
#[derive(Copy, Clone, Debug, PartialEq, Eq, Structural)]
pub struct DetectOverflowOptions {
    /// The clipping boundary; defaults to the clipping ancestors.
    pub boundary: Option<Boundary>,
    /// The root clipping boundary; defaults to the viewport.
    pub root_boundary: Option<RootBoundary>,
    /// Which element is checked for overflow; defaults to the floating one.
    pub element_context: Option<ElementContext>,
    /// Whether to query the clipping rectangle of the other context's
    /// element; defaults to false.
    pub alt_boundary: Option<bool>,
    /// Padding narrowing the clipping rectangle; defaults to zero.
    pub padding: Option<Padding>,
}

impl DetectOverflowOptions {
    /// The padding values stay within [`COORD_LIMIT`].
    pub open spec fn wf(self) -> bool {
        match self.padding {
            Some(p) => {
                let sides = spec_get_padding_object(p);
                &&& -COORD_LIMIT <= sides.top <= COORD_LIMIT
                &&& -COORD_LIMIT <= sides.right <= COORD_LIMIT
                &&& -COORD_LIMIT <= sides.bottom <= COORD_LIMIT
                &&& -COORD_LIMIT <= sides.left <= COORD_LIMIT
            },
            None => true,
        }
    }

    /// Sets the `boundary` option.
    pub fn boundary(self, value: Boundary) -> (r: Self)
        ensures
            r == (DetectOverflowOptions { boundary: Some(value), ..self }),
    {
        DetectOverflowOptions { boundary: Some(value), ..self }
    }

    /// Sets the `root_boundary` option.
    pub fn root_boundary(self, value: RootBoundary) -> (r: Self)
        ensures
            r == (DetectOverflowOptions { root_boundary: Some(value), ..self }),
    {
        DetectOverflowOptions { root_boundary: Some(value), ..self }
    }

    /// Sets the `element_context` option.
    pub fn element_context(self, value: ElementContext) -> (r: Self)
        ensures
            r == (DetectOverflowOptions { element_context: Some(value), ..self }),
    {
        DetectOverflowOptions { element_context: Some(value), ..self }
    }

    /// Sets the `alt_boundary` option.
    pub fn alt_boundary(self, value: bool) -> (r: Self)
        ensures
            r == (DetectOverflowOptions { alt_boundary: Some(value), ..self }),
    {
        DetectOverflowOptions { alt_boundary: Some(value), ..self }
    }

    /// Sets the `padding` option.
    pub fn padding(self, value: Padding) -> (r: Self)
        ensures
            r == (DetectOverflowOptions { padding: Some(value), ..self }),
    {
        DetectOverflowOptions { padding: Some(value), ..self }
    }
}

/// Overflow-detection options with every field unset.
pub open spec fn spec_detect_overflow_defaults() -> DetectOverflowOptions {
    DetectOverflowOptions {
        boundary: None,
        root_boundary: None,
        element_context: None,
        alt_boundary: None,
        padding: None,
    }
}

impl Default for DetectOverflowOptions {
    /// Returns options with every field unset.
    fn default() -> (r: Self)
        ensures
            r == spec_detect_overflow_defaults(),
    {
        DetectOverflowOptions {
            boundary: None,
            root_boundary: None,
            element_context: None,
            alt_boundary: None,
            padding: None,
        }
    }
}

/// The arguments of [`Platform::get_element_rects`].
pub struct GetElementRectsArgs<'a, Element> {
    pub reference: &'a Element,
    pub floating: &'a Element,
    pub strategy: Strategy,
}

/// The arguments of [`Platform::get_clipping_rect`]: the element whose
/// clipping context is queried and the configured boundaries.
pub struct GetClippingRectArgs<'a, Element> {
    pub element: &'a Element,
    pub boundary: Boundary,
    pub root_boundary: RootBoundary,
    pub strategy: Strategy,
}

/// What the engine asks of its embedder: measuring elements and clipping
/// boundaries. Each measurement is modelled as a pure function of its
/// arguments, and the rectangles handed back must be well-formed; the engine
/// performs no validation of its own.
pub trait Platform<Element> {
    /// The rectangles of the reference and floating elements.
    open spec fn spec_element_rects(
        &self,
        reference: Element,
        floating: Element,
        strategy: Strategy,
    ) -> ElementRects {
        ElementRects {
            reference: Rect { x: 0, y: 0, width: 0, height: 0 },
            floating: Rect { x: 0, y: 0, width: 0, height: 0 },
        }
    }

    /// Measures the reference and floating elements.
    fn get_element_rects(&self, args: GetElementRectsArgs<'_, Element>) -> (r: ElementRects)
        ensures
            r == self.spec_element_rects(*args.reference, *args.floating, args.strategy),
            r.wf(),
    ;

    /// The clipping rectangle of an element for the given boundaries.
    open spec fn spec_clipping_rect(
        &self,
        element: Element,
        boundary: Boundary,
        root_boundary: RootBoundary,
        strategy: Strategy,
    ) -> Rect {
        Rect { x: 0, y: 0, width: 0, height: 0 }
    }

    /// Measures the clipping rectangle of an element.
    fn get_clipping_rect(&self, args: GetClippingRectArgs<'_, Element>) -> (r: Rect)
        ensures
            r == self.spec_clipping_rect(
                *args.element,
                args.boundary,
                args.root_boundary,
                args.strategy,
            ),
            r.wf(),
    ;

    /// The dimensions of an element.
    open spec fn spec_dimensions(&self, element: Element) -> Dimensions {
        Dimensions { width: 0, height: 0 }
    }

    /// Measures the dimensions of an element.
    fn get_dimensions(&self, element: &Element) -> (r: Dimensions)
        ensures
            r == self.spec_dimensions(*element),
            0 <= r.width <= COORD_LIMIT,
            0 <= r.height <= COORD_LIMIT,
    ;

    /// Whether the element lies in a right-to-left context; `None` when the
    /// platform does not know.
    open spec fn spec_is_rtl(&self, element: Element) -> Option<bool> {
        None
    }

    /// Queries the text direction of an element.
    fn is_rtl(&self, element: &Element) -> (r: Option<bool>)
        ensures
            r == self.spec_is_rtl(*element),
    ;

    /// The rectangles of the fragments an element spans, one per line for an
    /// element wrapping over several lines; empty when the platform cannot
    /// measure fragments.
    open spec fn spec_client_rects(&self, element: Element) -> Seq<Rect> {
        Seq::empty()
    }

    /// Measures the fragments of an element.
    fn get_client_rects(&self, element: &Element) -> (r: Vec<Rect>)
        ensures
            r@ == self.spec_client_rects(*element),
            forall|i: int| 0 <= i < r@.len() ==> (#[trigger] r@[i]).wf(),
    ;
}

/// The two elements a position is computed for.
pub struct Elements<'a, Element> {
    pub reference: &'a Element,
    pub floating: &'a Element,
}

/// The state snapshot handed to each middleware.
pub struct MiddlewareState<'a, Element, P> {
    pub x: i64,
    pub y: i64,
    pub initial_placement: Placement,
    pub placement: Placement,
    pub strategy: Strategy,
    pub middleware_data: &'a MiddlewareData,
    pub rects: &'a ElementRects,
    pub platform: &'a P,
    pub elements: Elements<'a, Element>,
}

/// The mathematical value of a [`MiddlewareState`].
pub ghost struct SpecMiddlewareState<Element, P> {
    pub x: i64,
    pub y: i64,
    pub initial_placement: Placement,
    pub placement: Placement,
    pub strategy: Strategy,
    pub middleware_data: Seq<(Seq<char>, Seq<(Seq<char>, DataValueView)>)>,
    pub rects: ElementRects,
    pub platform: P,
    pub reference: Element,
    pub floating: Element,
}

impl<Element, P> SpecMiddlewareState<Element, P> {
    /// The rectangles are well-formed and the running coordinates are in
    /// range.
    pub open spec fn wf(self) -> bool {
        &&& self.rects.wf()
        &&& coord_in_range(self.x as int)
        &&& coord_in_range(self.y as int)
    }
}

impl<'a, Element, P> View for MiddlewareState<'a, Element, P> {
    type V = SpecMiddlewareState<Element, P>;

    open spec fn view(&self) -> SpecMiddlewareState<Element, P> {
        SpecMiddlewareState {
            x: self.x,
            y: self.y,
            initial_placement: self.initial_placement,
            placement: self.placement,
            strategy: self.strategy,
            middleware_data: self.middleware_data@,
            rects: *self.rects,
            platform: *self.platform,
            reference: *self.elements.reference,
            floating: *self.elements.floating,
        }
    }
}

/// A middleware's request to restart the pipeline.
#[derive(Copy, Clone, Debug, PartialEq, Eq, Structural)]
pub enum Reset {
    /// Restart from the first middleware with the current state.
    True,
    /// Restart after adopting a new placement or new rectangles.
    Value(ResetValue),
}

/// What a structured reset replaces.
#[derive(Copy, Clone, Debug, PartialEq, Eq, Structural)]
pub struct ResetValue {
    /// The placement to continue with, if any.
    pub placement: Option<Placement>,
    /// The rectangles to continue with, if any.
    pub rects: Option<ResetRects>,
}

/// How a reset replaces the rectangles.
#[derive(Copy, Clone, Debug, PartialEq, Eq, Structural)]
pub enum ResetRects {
    /// Measure the elements again through the platform.
    True,
    /// Use these rectangles.
    Value(ElementRects),
}

/// What a middleware returns: optional replacement coordinates, optional
/// data to merge under the middleware's name, and an optional reset request.
pub struct MiddlewareReturn {
    pub x: Option<i64>,
    pub y: Option<i64>,
    pub data: Option<DataRecord>,
    pub reset: Option<Reset>,
}

/// The mathematical value of a [`MiddlewareReturn`].
pub ghost struct SpecMiddlewareReturn {
    pub x: Option<i64>,
    pub y: Option<i64>,
    pub data: Option<Seq<(Seq<char>, DataValueView)>>,
    pub reset: Option<Reset>,
}

impl SpecMiddlewareReturn {
    /// Replacement coordinates stay in range, returned data has unique keys,
    /// and reset rectangles are well-formed.
    pub open spec fn wf(self) -> bool {
        &&& match self.x {
            Some(v) => coord_in_range(v as int),
            None => true,
        }
        &&& match self.y {
            Some(v) => coord_in_range(v as int),
            None => true,
        }
        &&& match self.data {
            Some(d) => keys_unique(d),
            None => true,
        }
        &&& match self.reset {
            Some(Reset::Value(rv)) => match rv.rects {
                Some(ResetRects::Value(rects)) => rects.wf(),
                _ => true,
            },
            _ => true,
        }
    }
}

impl View for MiddlewareReturn {
    type V = SpecMiddlewareReturn;

    open spec fn view(&self) -> SpecMiddlewareReturn {
        SpecMiddlewareReturn {
            x: self.x,
            y: self.y,
            data: match self.data {
                Some(d) => Some(d@),
                None => None,
            },
            reset: self.reset,
        }
    }
}

/// One adjustment strategy of the pipeline. A middleware is a pure function
/// of the state snapshot it receives; its whole behaviour is the spec
/// function `spec_compute`, which the executable `compute` must realize.
pub trait Middleware<Element, P> {
    /// Whether this middleware's configuration is acceptable; the pipeline
    /// runs only middleware whose invariant holds.
    open spec fn inv(&self) -> bool {
        true
    }

    /// The name under which this middleware's data is stored.
    open spec fn spec_name(&self) -> Seq<char> {
        Seq::empty()
    }

    /// What this middleware computes from a state snapshot.
    open spec fn spec_compute(&self, state: SpecMiddlewareState<Element, P>) -> SpecMiddlewareReturn {
        SpecMiddlewareReturn { x: None, y: None, data: None, reset: None }
    }

    /// Returns the middleware's name.
    fn name(&self) -> (r: &'static str)
        ensures
            r@ == self.spec_name(),
    ;

    /// Runs the middleware on a state snapshot.
    fn compute(&self, state: MiddlewareState<'_, Element, P>) -> (r: MiddlewareReturn)
        requires
            self.inv(),
            state@.wf(),
        ensures
            r@ == self.spec_compute(state@),
            r@.wf(),
    ;
}

/// Configuration of a [`compute_position`](crate::compute_position::compute_position)
/// call.
pub struct ComputePositionConfig<'a, P, M> {
    /// The platform that measures elements.
    pub platform: &'a P,
    /// The requested placement; defaults to `Bottom`.
    pub placement: Option<Placement>,
    /// The positioning strategy; defaults to `Absolute`.
    pub strategy: Option<Strategy>,
    /// The ordered middleware list; defaults to none.
    pub middleware: Option<Vec<M>>,
}

/// What [`compute_position`](crate::compute_position::compute_position)
/// returns: the final coordinates, the placement that won, the strategy
/// passed through, and the merged middleware data.
#[derive(Debug)]
pub struct ComputePositionReturn {
    pub x: i64,
    pub y: i64,
    pub placement: Placement,
    pub strategy: Strategy,
    pub middleware_data: MiddlewareData,
}

} // verus!
