//! The inline middleware: for reference elements that span several line
//! fragments (inline text ranges), it picks the fragment nearest the
//! floating element's anchor and substitutes it as the effective reference
//! rectangle through a reset with explicit rectangles.

use vstd::prelude::*;

use crate::orientation::Side;
use crate::padding::Padding;
use crate::rect::{ElementRects, Rect, COORD_LIMIT};
use crate::spec_get_padding_object;
use crate::types::{
    Middleware, MiddlewareReturn, MiddlewareState, Platform, Reset, ResetRects, ResetValue,
    SpecMiddlewareReturn, SpecMiddlewareState,
};
use crate::{get_padding_object, length::SideLength};

verus! {

/// Name of the [`Inline`] middleware.
pub const INLINE_NAME: &'static str = "inline";

/// Options for the [`Inline`] middleware.
#[derive(Copy, Clone, Debug, PartialEq, Eq, Structural)]
pub struct InlineOptions {
    /// The x coordinate of the anchor point (a caret or pointer position)
    /// the chosen fragment should contain.
    pub x: Option<i64>,

    /// The y coordinate of the anchor point.
    pub y: Option<i64>,

    /// Padding around each fragment when testing whether it contains the
    /// anchor point. Defaults to zero.
    pub padding: Option<Padding>,
}

impl InlineOptions {
    /// The padding values stay within [`COORD_LIMIT`].
    pub open spec fn wf(self) -> bool {
        match self.padding {
            Some(p) => {
                let sides = spec_get_padding_object(p);
                &&& -COORD_LIMIT <= sides.top <= COORD_LIMIT
                &&& -COORD_LIMIT <= sides.right <= COORD_LIMIT
                &&& -COORD_LIMIT <= sides.bottom <= COORD_LIMIT
                &&& -COORD_LIMIT <= sides.left <= COORD_LIMIT
            },
            None => true,
        }
    }
}

/// Inline options with every field unset.
pub open spec fn spec_inline_defaults() -> InlineOptions {
    InlineOptions { x: None, y: None, padding: None }
}

impl Default for InlineOptions {
    /// Returns options with every field unset.
    fn default() -> (r: Self)
        ensures
            r == spec_inline_defaults(),
    {
        InlineOptions { x: None, y: None, padding: None }
    }
}

/// Whether a fragment, widened by the padding, contains the anchor point.
pub open spec fn spec_contains(rect: Rect, padding: SideLength, x: i64, y: i64) -> bool {
    &&& rect.x - padding.left <= x <= rect.x + rect.width + padding.right
    &&& rect.y - padding.top <= y <= rect.y + rect.height + padding.bottom
}

/// The first fragment that contains the anchor point, if any.
pub open spec fn spec_first_containing(
    rects: Seq<Rect>,
    padding: SideLength,
    x: i64,
    y: i64,
) -> Option<Rect>
    decreases rects.len(),
{
    if rects.len() == 0 {
        None
    } else if spec_contains(rects[0], padding, x, y) {
        Some(rects[0])
    } else {
        spec_first_containing(rects.drop_first(), padding, x, y)
    }
}

/// The earliest fragment whose left edge is least.
pub open spec fn spec_leftmost(rects: Seq<Rect>) -> Rect
    decreases rects.len(),
{
    if rects.len() <= 1 {
        rects[0]
    } else {
        let rest = spec_leftmost(rects.drop_last());
        if rects.last().x < rest.x {
            rects.last()
        } else {
            rest
        }
    }
}

/// The earliest fragment whose right edge is greatest.
pub open spec fn spec_rightmost(rects: Seq<Rect>) -> Rect
    decreases rects.len(),
{
    if rects.len() <= 1 {
        rects[0]
    } else {
        let rest = spec_rightmost(rects.drop_last());
        if rects.last().x + rects.last().width > rest.x + rest.width {
            rects.last()
        } else {
            rest
        }
    }
}

/// The fragment the inline middleware substitutes as the reference: the
/// first one containing the configured anchor point when one is given and
/// hit; otherwise the fragment nearest the floating element for the current
/// side — the first fragment above a top-placed element, the last below a
/// bottom-placed one, the leftmost or rightmost beside a horizontal one.
pub open spec fn spec_inline_target(
    options: InlineOptions,
    placement_side: Side,
    rects: Seq<Rect>,
) -> Rect {
    let padding = spec_get_padding_object(options.padding.unwrap_or(Padding::All(0)));
    let by_point = match (options.x, options.y) {
        (Some(x), Some(y)) => spec_first_containing(rects, padding, x, y),
        _ => None,
    };
    match by_point {
        Some(r) => r,
        None => match placement_side {
            Side::Top => rects[0],
            Side::Bottom => rects.last(),
            Side::Left => spec_leftmost(rects),
            Side::Right => spec_rightmost(rects),
        },
    }
}

/// What the inline middleware computes: when the platform reports fragments
/// and the chosen fragment differs from the current reference rectangle, the
/// pipeline resets with the fragment as the reference; otherwise nothing
/// happens.
pub open spec fn spec_inline_compute<Element, P: Platform<Element>>(
    options: InlineOptions,
    st: SpecMiddlewareState<Element, P>,
) -> SpecMiddlewareReturn {
    let fragments = st.platform.spec_client_rects(st.reference);
    if fragments.len() == 0 {
        SpecMiddlewareReturn { x: None, y: None, data: None, reset: None }
    } else {
        let target = spec_inline_target(options, st.placement.spec_side(), fragments);
        if target == st.rects.reference {
            SpecMiddlewareReturn { x: None, y: None, data: None, reset: None }
        } else {
            SpecMiddlewareReturn {
                x: None,
                y: None,
                data: None,
                reset: Some(
                    Reset::Value(
                        ResetValue {
                            placement: None,
                            rects: Some(
                                ResetRects::Value(
                                    ElementRects {
                                        reference: target,
                                        floating: st.rects.floating,
                                    },
                                ),
                            ),
                        },
                    ),
                ),
            }
        }
    }
}

/// Finds the first fragment that contains the anchor point.
fn first_containing(rects: &Vec<Rect>, padding: &SideLength, x: i64, y: i64) -> (r: Option<Rect>)
    requires
        forall|i: int| 0 <= i < rects@.len() ==> (#[trigger] rects@[i]).wf(),
        -COORD_LIMIT <= padding.top <= COORD_LIMIT,
        -COORD_LIMIT <= padding.right <= COORD_LIMIT,
        -COORD_LIMIT <= padding.bottom <= COORD_LIMIT,
        -COORD_LIMIT <= padding.left <= COORD_LIMIT,
    ensures
        r == spec_first_containing(rects@, *padding, x, y),
        r is Some ==> r.unwrap().wf(),
{
    let n = rects.len();
    let mut i: usize = 0;
    proof {
        assert(rects@.skip(0) =~= rects@);
    }
    while i < n
        invariant
            n == rects@.len(),
            i <= n,
            forall|k: int| 0 <= k < rects@.len() ==> (#[trigger] rects@[k]).wf(),
            -COORD_LIMIT <= padding.top <= COORD_LIMIT,
            -COORD_LIMIT <= padding.right <= COORD_LIMIT,
            -COORD_LIMIT <= padding.bottom <= COORD_LIMIT,
            -COORD_LIMIT <= padding.left <= COORD_LIMIT,
            spec_first_containing(rects@, *padding, x, y) == spec_first_containing(
                rects@.skip(i as int),
                *padding,
                x,
                y,
            ),
        decreases n - i,
    {
        let rect = rects[i];
        if rect.x - padding.left <= x && x <= rect.x + rect.width + padding.right && rect.y
            - padding.top <= y && y <= rect.y + rect.height + padding.bottom {
            proof {
                assert(rects@.skip(i as int)[0] == rects@[i as int]);
            }
            return Some(rect);
        }
        proof {
            assert(rects@.skip(i as int)[0] == rects@[i as int]);
            assert(rects@.skip(i as int).drop_first() =~= rects@.skip(i + 1 as int));
        }
        i = i + 1;
    }
    proof {
        assert(rects@.skip(n as int) =~= Seq::<Rect>::empty());
    }
    None
}

/// Finds the earliest fragment with the least left edge.
fn leftmost(rects: &Vec<Rect>) -> (r: Rect)
    requires
        rects@.len() >= 1,
        forall|i: int| 0 <= i < rects@.len() ==> (#[trigger] rects@[i]).wf(),
    ensures
        r == spec_leftmost(rects@),
        r.wf(),
{
    let mut best = rects[0];
    let n = rects.len();
    let mut i: usize = 1;
    proof {
        assert(rects@.take(1)[0] == rects@[0]);
    }
    while i < n
        invariant
            n == rects@.len(),
            1 <= i <= n,
            forall|k: int| 0 <= k < rects@.len() ==> (#[trigger] rects@[k]).wf(),
            best.wf(),
            best == spec_leftmost(rects@.take(i as int)),
        decreases n - i,
    {
        proof {
            assert(rects@.take(i + 1 as int).drop_last() =~= rects@.take(i as int));
            assert(rects@.take(i + 1 as int).last() == rects@[i as int]);
        }
        if rects[i].x < best.x {
            best = rects[i];
        }
        i = i + 1;
    }
    proof {
        assert(rects@.take(n as int) =~= rects@);
    }
    best
}

/// Finds the earliest fragment with the greatest right edge.
fn rightmost(rects: &Vec<Rect>) -> (r: Rect)
    requires
        rects@.len() >= 1,
        forall|i: int| 0 <= i < rects@.len() ==> (#[trigger] rects@[i]).wf(),
    ensures
        r == spec_rightmost(rects@),
        r.wf(),
{
    let mut best = rects[0];
    let n = rects.len();
    let mut i: usize = 1;
    proof {
        assert(rects@.take(1)[0] == rects@[0]);
    }
    while i < n
        invariant
            n == rects@.len(),
            1 <= i <= n,
            forall|k: int| 0 <= k < rects@.len() ==> (#[trigger] rects@[k]).wf(),
            best.wf(),
            best == spec_rightmost(rects@.take(i as int)),
        decreases n - i,
    {
        proof {
            assert(rects@.take(i + 1 as int).drop_last() =~= rects@.take(i as int));
            assert(rects@.take(i + 1 as int).last() == rects@[i as int]);
            assert forall|k: int| 0 <= k < i + 1 implies (#[trigger] rects@.take(i + 1 as int)[
                k
            ]).wf() by {
                assert(rects@.take(i + 1 as int)[k] == rects@[k]);
            }
        }
        if rects[i].x + rects[i].width > best.x + best.width {
            best = rects[i];
        }
        i = i + 1;
    }
    proof {
        assert(rects@.take(n as int) =~= rects@);
    }
    best
}

/// Positions the floating element against the line fragment of an inline
/// reference element nearest its anchor.
pub struct Inline<Element, P> {
    options: InlineOptions,
    element: core::marker::PhantomData<Element>,
    platform: core::marker::PhantomData<P>,
}

impl<Element, P> Inline<Element, P> {
    /// Constructs a new instance of this middleware.
    pub fn new(options: InlineOptions) -> (r: Self)
        ensures
            r.spec_options() == options,
    {
        Inline {
            options,
            element: core::marker::PhantomData,
            platform: core::marker::PhantomData,
        }
    }

    /// The configured options.
    pub closed spec fn spec_options(self) -> InlineOptions {
        self.options
    }
}

impl<Element, P: Platform<Element>> Middleware<Element, P> for Inline<Element, P> {
    open spec fn inv(&self) -> bool {
        self.spec_options().wf()
    }

    open spec fn spec_name(&self) -> Seq<char> {
        "inline"@
    }

    fn name(&self) -> (r: &'static str)
        ensures
            r@ == self.spec_name(),
    {
        INLINE_NAME
    }

    open spec fn spec_compute(&self, state: SpecMiddlewareState<Element, P>) -> SpecMiddlewareReturn {
        spec_inline_compute(self.spec_options(), state)
    }

    fn compute(&self, state: MiddlewareState<'_, Element, P>) -> (r: MiddlewareReturn)
        ensures
            r@ == self.spec_compute(state@),
            r@.wf(),
    {
        let fragments = state.platform.get_client_rects(state.elements.reference);
        if fragments.len() == 0 {
            return MiddlewareReturn { x: None, y: None, data: None, reset: None };
        }

        let padding = get_padding_object(
            match self.options.padding {
                Some(p) => p,
                None => Padding::All(0),
            },
        );
        let by_point: Option<Rect> = match (self.options.x, self.options.y) {
            (Some(x), Some(y)) => first_containing(&fragments, &padding, x, y),
            _ => None,
        };
        let target: Rect = match by_point {
            Some(rect) => rect,
            None => match state.placement.side() {
                Side::Top => fragments[0],
                Side::Bottom => fragments[fragments.len() - 1],
                Side::Left => leftmost(&fragments),
                Side::Right => rightmost(&fragments),
            },
        };

        if target == state.rects.reference {
            MiddlewareReturn { x: None, y: None, data: None, reset: None }
        } else {
            MiddlewareReturn {
                x: None,
                y: None,
                data: None,
                reset: Some(
                    Reset::Value(
                        ResetValue {
                            placement: None,
                            rects: Some(
                                ResetRects::Value(
                                    ElementRects {
                                        reference: target,
                                        floating: state.rects.floating,
                                    },
                                ),
                            ),
                        },
                    ),
                ),
            }
        }
    }
}

} // verus!
