//! The middleware pipeline driver: computes the initial coordinates for the
//! requested placement and feeds the state through each middleware in order,
//! applying coordinate updates, merging returned data, and honoring bounded
//! reset requests.

use vstd::prelude::*;

use crate::compute_coords_from_placement::{
    compute_coords_from_placement, coord_in_range, spec_coords_from_placement,
};
use crate::data::{
    lemma_lookup_some, merge_records, spec_lookup, spec_merge, spec_set, DataValueView,
    MiddlewareData,
};
use crate::orientation::Placement;
use crate::rect::ElementRects;
use crate::strategy::Strategy;
use crate::types::{
    ComputePositionConfig, ComputePositionReturn, Elements, GetElementRectsArgs, Middleware,
    MiddlewareState, Platform, Reset, ResetRects, SpecMiddlewareReturn, SpecMiddlewareState,
};

verus! {

/// The bound on honored resets: once a run has restarted this many times,
/// further reset requests are ignored and the pipeline finishes its pass.
pub const RESET_LIMIT: u32 = 50;

/// The running state of a pipeline between middleware invocations.
pub ghost struct SpecPipelineState {
    pub x: i64,
    pub y: i64,
    pub placement: Placement,
    pub rects: ElementRects,
    pub data: Seq<(Seq<char>, Seq<(Seq<char>, DataValueView)>)>,
}

/// The initial coordinates for a placement, as machine integers.
pub open spec fn spec_initial_xy(rects: ElementRects, placement: Placement, rtl: Option<
    bool,
>) -> (i64, i64) {
    (
        spec_coords_from_placement(rects, placement, rtl).0 as i64,
        spec_coords_from_placement(rects, placement, rtl).1 as i64,
    )
}

/// How returned data lands in the accumulated mapping: merged into the
/// record already stored under the middleware's name, or stored as given
/// when the name is new.
pub open spec fn spec_apply_data(
    data: Seq<(Seq<char>, Seq<(Seq<char>, DataValueView)>)>,
    name: Seq<char>,
    record: Seq<(Seq<char>, DataValueView)>,
) -> Seq<(Seq<char>, Seq<(Seq<char>, DataValueView)>)> {
    match spec_lookup(data, name) {
        Some(existing) => spec_set(data, name, spec_merge(existing, record)),
        None => spec_set(data, name, record),
    }
}

/// One middleware invocation applied to a pipeline state: replacement
/// coordinates and data are taken over, and a reset — honored only while the
/// reset budget lasts — rewinds to the first middleware, adopting a new
/// placement or new rectangles and recomputing the coordinates when the
/// request is structured.
pub open spec fn spec_run<Element, P: Platform<Element>, M: Middleware<Element, P>>(
    platform: P,
    reference: Element,
    floating: Element,
    initial_placement: Placement,
    strategy: Strategy,
    rtl: Option<bool>,
    mids: Seq<M>,
    st: SpecPipelineState,
    i: int,
    reset_count: int,
) -> SpecPipelineState
    decreases 51 - reset_count, mids.len() - i,
        when 0 <= reset_count <= 51 && 0 <= i <= mids.len()
{
    if i >= mids.len() {
        st
    } else {
        let m = mids[i];
        let ret = m.spec_compute(
            SpecMiddlewareState {
                x: st.x,
                y: st.y,
                initial_placement,
                placement: st.placement,
                strategy,
                middleware_data: st.data,
                rects: st.rects,
                platform,
                reference,
                floating,
            },
        );
        let x1 = match ret.x {
            Some(v) => v,
            None => st.x,
        };
        let y1 = match ret.y {
            Some(v) => v,
            None => st.y,
        };
        let data1 = match ret.data {
            Some(d) => spec_apply_data(st.data, m.spec_name(), d),
            None => st.data,
        };
        if ret.reset is Some && reset_count <= 50 {
            let st2 = match ret.reset.unwrap() {
                Reset::True => SpecPipelineState {
                    x: x1,
                    y: y1,
                    placement: st.placement,
                    rects: st.rects,
                    data: data1,
                },
                Reset::Value(rv) => {
                    let placement2 = match rv.placement {
                        Some(p) => p,
                        None => st.placement,
                    };
                    let rects2 = match rv.rects {
                        Some(ResetRects::True) => platform.spec_element_rects(
                            reference,
                            floating,
                            strategy,
                        ),
                        Some(ResetRects::Value(r)) => r,
                        None => st.rects,
                    };
                    let xy = spec_initial_xy(rects2, placement2, rtl);
                    SpecPipelineState {
                        x: xy.0,
                        y: xy.1,
                        placement: placement2,
                        rects: rects2,
                        data: data1,
                    }
                },
            };
            spec_run(
                platform,
                reference,
                floating,
                initial_placement,
                strategy,
                rtl,
                mids,
                st2,
                0,
                reset_count + 1,
            )
        } else {
            spec_run(
                platform,
                reference,
                floating,
                initial_placement,
                strategy,
                rtl,
                mids,
                SpecPipelineState {
                    x: x1,
                    y: y1,
                    placement: st.placement,
                    rects: st.rects,
                    data: data1,
                },
                i + 1,
                reset_count,
            )
        }
    }
}

/// The middleware list a configuration runs.
pub open spec fn spec_mids<M>(middleware: Option<Vec<M>>) -> Seq<M> {
    match middleware {
        Some(v) => v@,
        None => Seq::empty(),
    }
}

/// What a [`compute_position`] call returns, as a value.
pub ghost struct SpecPositionReturn {
    pub x: i64,
    pub y: i64,
    pub placement: Placement,
    pub strategy: Strategy,
    pub data: Seq<(Seq<char>, Seq<(Seq<char>, DataValueView)>)>,
}

/// The complete behaviour of [`compute_position`]: the defaults are applied,
/// the platform is asked for the text direction and the rectangles, the
/// initial coordinates are those of the requested placement, and the
/// middleware pipeline runs from the first middleware with a fresh data
/// mapping and an unused reset budget.
pub open spec fn spec_compute_position<Element, P: Platform<Element>, M: Middleware<Element, P>>(
    platform: P,
    reference: Element,
    floating: Element,
    placement_opt: Option<Placement>,
    strategy_opt: Option<Strategy>,
    mids: Seq<M>,
) -> SpecPositionReturn {
    let placement = match placement_opt {
        Some(p) => p,
        None => Placement::Bottom,
    };
    let strategy = match strategy_opt {
        Some(s) => s,
        None => Strategy::Absolute,
    };
    let rtl = platform.spec_is_rtl(floating);
    let rects = platform.spec_element_rects(reference, floating, strategy);
    let xy = spec_initial_xy(rects, placement, rtl);
    let st0 = SpecPipelineState {
        x: xy.0,
        y: xy.1,
        placement,
        rects,
        data: Seq::empty(),
    };
    let fin = spec_run(
        platform,
        reference,
        floating,
        placement,
        strategy,
        rtl,
        mids,
        st0,
        0,
        0,
    );
    SpecPositionReturn {
        x: fin.x,
        y: fin.y,
        placement: fin.placement,
        strategy,
        data: fin.data,
    }
}

/// Computes the `x` and `y` coordinates that place the floating element next
/// to the reference element, after running the configured middleware.
///
/// The result is a function of the configuration and of what the platform
/// measures: calling this twice with identical inputs yields identical
/// output.
#[verifier::loop_isolation(false)]
pub fn compute_position<Element, P: Platform<Element>, M: Middleware<Element, P>>(
    reference: &Element,
    floating: &Element,
    config: ComputePositionConfig<'_, P, M>,
) -> (r: ComputePositionReturn)
    requires
        forall|k: int|
            0 <= k < spec_mids(config.middleware).len() ==> (#[trigger] spec_mids(
                config.middleware,
            )[k]).inv(),
    ensures
        ({
            let fin = spec_compute_position(
                *config.platform,
                *reference,
                *floating,
                config.placement,
                config.strategy,
                spec_mids(config.middleware),
            );
            &&& r.x == fin.x
            &&& r.y == fin.y
            &&& r.placement == fin.placement
            &&& r.strategy == fin.strategy
            &&& r.middleware_data@ == fin.data
        }),
        coord_in_range(r.x as int),
        coord_in_range(r.y as int),
        r.middleware_data.wf(),
{
    let ghost spec_fin = spec_compute_position(
        *config.platform,
        *reference,
        *floating,
        config.placement,
        config.strategy,
        spec_mids(config.middleware),
    );

    let placement = match config.placement {
        Some(p) => p,
        None => Placement::Bottom,
    };
    let strategy = match config.strategy {
        Some(s) => s,
        None => Strategy::Absolute,
    };
    let platform = config.platform;
    let middlewares: Vec<M> = match config.middleware {
        Some(m) => m,
        None => Vec::new(),
    };
    proof {
        assert(middlewares@ == spec_mids(config.middleware));
    }

    let rtl = platform.is_rtl(floating);

    let mut rects = platform.get_element_rects(
        GetElementRectsArgs { reference, floating, strategy },
    );
    let coords = compute_coords_from_placement(&rects, placement, rtl);
    let mut x = coords.x;
    let mut y = coords.y;
    let mut stateful_placement = placement;
    let mut middleware_data = MiddlewareData::new();
    let mut reset_count: u32 = 0;

    let ghost run_args_fin = spec_run(
        *platform,
        *reference,
        *floating,
        placement,
        strategy,
        rtl,
        middlewares@,
        SpecPipelineState {
            x,
            y,
            placement: stateful_placement,
            rects,
            data: middleware_data@,
        },
        0,
        0,
    );

    let mut i: usize = 0;
    while i < middlewares.len()
        invariant
            i <= middlewares@.len(),
            reset_count <= 51,
            rects.wf(),
            coord_in_range(x as int),
            coord_in_range(y as int),
            middleware_data.wf(),
            spec_run(
                *platform,
                *reference,
                *floating,
                placement,
                strategy,
                rtl,
                middlewares@,
                SpecPipelineState {
                    x,
                    y,
                    placement: stateful_placement,
                    rects,
                    data: middleware_data@,
                },
                i as int,
                reset_count as int,
            ) == run_args_fin,
        decreases 51 - reset_count, middlewares@.len() - i,
    {
        let ghost st_before = SpecPipelineState {
            x,
            y,
            placement: stateful_placement,
            rects,
            data: middleware_data@,
        };

        let middleware = &middlewares[i];
        let state = MiddlewareState {
            x,
            y,
            initial_placement: placement,
            placement: stateful_placement,
            strategy,
            middleware_data: &middleware_data,
            rects: &rects,
            platform,
            elements: Elements { reference, floating },
        };
        proof {
            assert(state@ == SpecMiddlewareState {
                x: st_before.x,
                y: st_before.y,
                initial_placement: placement,
                placement: st_before.placement,
                strategy,
                middleware_data: st_before.data,
                rects: st_before.rects,
                platform: *platform,
                reference: *reference,
                floating: *floating,
            });
        }
        let ret = middleware.compute(state);
        let ghost spec_ret = middlewares@[i as int].spec_compute(state@);

        x = match ret.x {
            Some(v) => v,
            None => x,
        };
        y = match ret.y {
            Some(v) => v,
            None => y,
        };

        match ret.data {
            Some(data) => {
                let name = middleware.name();
                let new_data = match middleware_data.get(name) {
                    Some(existing) => {
                        proof {
                            lemma_lookup_some(middleware_data@, name@);
                        }
                        merge_records(existing, &data)
                    },
                    None => data,
                };
                middleware_data.set(name, new_data);
                proof {
                    assert(middleware_data@ == spec_apply_data(
                        st_before.data,
                        middlewares@[i as int].spec_name(),
                        spec_ret.data.unwrap(),
                    ));
                }
            },
            None => {},
        }

        let mut did_reset = false;
        match ret.reset {
            Some(reset) => {
                if reset_count <= RESET_LIMIT {
                    reset_count = reset_count + 1;

                    match reset {
                        Reset::True => {},
                        Reset::Value(value) => {
                            match value.placement {
                                Some(reset_placement) => {
                                    stateful_placement = reset_placement;
                                },
                                None => {},
                            }
                            match value.rects {
                                Some(reset_rects) => {
                                    rects = match reset_rects {
                                        ResetRects::True => platform.get_element_rects(
                                            GetElementRectsArgs { reference, floating, strategy },
                                        ),
                                        ResetRects::Value(element_rects) => element_rects,
                                    };
                                },
                                None => {},
                            }
                            let next = compute_coords_from_placement(
                                &rects,
                                stateful_placement,
                                rtl,
                            );
                            x = next.x;
                            y = next.y;
                        },
                    }

                    i = 0;
                    did_reset = true;
                }
            },
            None => {},
        }

        if !did_reset {
            i = i + 1;
        }
    }

    proof {
        assert(spec_run(
            *platform,
            *reference,
            *floating,
            placement,
            strategy,
            rtl,
            middlewares@,
            SpecPipelineState {
                x,
                y,
                placement: stateful_placement,
                rects,
                data: middleware_data@,
            },
            i as int,
            reset_count as int,
        ) == SpecPipelineState {
            x,
            y,
            placement: stateful_placement,
            rects,
            data: middleware_data@,
        });
    }

    ComputePositionReturn { x, y, placement: stateful_placement, strategy, middleware_data }
}

/// Law: the pipeline is deterministic. What [`compute_position`] returns is
/// a function of the configuration and the platform's measurements alone, so
/// two runs with identical inputs yield identical output.
pub proof fn lemma_compute_position_idempotent<
    Element,
    P: Platform<Element>,
    M: Middleware<Element, P>,
>(
    platform: P,
    reference: Element,
    floating: Element,
    placement: Option<Placement>,
    strategy: Option<Strategy>,
    mids: Seq<M>,
    r1: SpecPositionReturn,
    r2: SpecPositionReturn,
)
    requires
        r1 == spec_compute_position(platform, reference, floating, placement, strategy, mids),
        r2 == spec_compute_position(platform, reference, floating, placement, strategy, mids),
    ensures
        r1 == r2,
{
}

/// A middleware that only ever moves the coordinates: it never returns data
/// and never requests a reset.
pub open spec fn is_coords_only<Element, P: Platform<Element>, M: Middleware<Element, P>>(
    m: M,
) -> bool {
    forall|st: SpecMiddlewareState<Element, P>|
        (#[trigger] m.spec_compute(st)).data is None && m.spec_compute(st).reset is None
}

/// Law: a pipeline of middleware that return only coordinates leaves the
/// data mapping, the placement and the rectangles unchanged.
pub proof fn lemma_coords_only_preserves_data<
    Element,
    P: Platform<Element>,
    M: Middleware<Element, P>,
>(
    platform: P,
    reference: Element,
    floating: Element,
    initial_placement: Placement,
    strategy: Strategy,
    rtl: Option<bool>,
    mids: Seq<M>,
    st: SpecPipelineState,
    i: int,
    reset_count: int,
)
    requires
        0 <= i <= mids.len(),
        0 <= reset_count <= 51,
        forall|k: int| 0 <= k < mids.len() ==> is_coords_only(#[trigger] mids[k]),
    ensures
        ({
            let fin = spec_run(
                platform,
                reference,
                floating,
                initial_placement,
                strategy,
                rtl,
                mids,
                st,
                i,
                reset_count,
            );
            &&& fin.data == st.data
            &&& fin.placement == st.placement
            &&& fin.rects == st.rects
        }),
    decreases mids.len() - i,
{
    if i < mids.len() {
        let m = mids[i];
        assert(is_coords_only(m));
        let ret = m.spec_compute(
            SpecMiddlewareState {
                x: st.x,
                y: st.y,
                initial_placement,
                placement: st.placement,
                strategy,
                middleware_data: st.data,
                rects: st.rects,
                platform,
                reference,
                floating,
            },
        );
        let x1 = match ret.x {
            Some(v) => v,
            None => st.x,
        };
        let y1 = match ret.y {
            Some(v) => v,
            None => st.y,
        };
        let st1 = SpecPipelineState {
            x: x1,
            y: y1,
            placement: st.placement,
            rects: st.rects,
            data: st.data,
        };
        lemma_coords_only_preserves_data(
            platform,
            reference,
            floating,
            initial_placement,
            strategy,
            rtl,
            mids,
            st1,
            i + 1,
            reset_count,
        );
    }
}

/// What a middleware that moves the coordinates by a fixed offset returns:
/// the current coordinates shifted by the offset, nothing else.
pub open spec fn spec_delta_return<Element, P>(
    st: SpecMiddlewareState<Element, P>,
    dx: int,
    dy: int,
) -> SpecMiddlewareReturn {
    SpecMiddlewareReturn {
        x: Some((st.x + dx) as i64),
        y: Some((st.y + dy) as i64),
        data: None,
        reset: None,
    }
}

/// A middleware whose whole behaviour is to shift the coordinates by a fixed
/// offset.
pub open spec fn is_delta_middleware<Element, P: Platform<Element>, M: Middleware<Element, P>>(
    m: M,
    dx: int,
    dy: int,
) -> bool {
    forall|st: SpecMiddlewareState<Element, P>| #[trigger]
        m.spec_compute(st) == spec_delta_return(st, dx, dy)
}

/// Law: two sequential middleware that shift the coordinates by fixed
/// offsets end in the same state as one middleware shifting by the summed
/// offset, as long as no intermediate coordinate overflows the machine
/// integers.
pub proof fn lemma_delta_sum<
    Element,
    P: Platform<Element>,
    MA: Middleware<Element, P>,
    MB: Middleware<Element, P>,
>(
    platform: P,
    reference: Element,
    floating: Element,
    initial_placement: Placement,
    strategy: Strategy,
    rtl: Option<bool>,
    m1: MA,
    m2: MA,
    m12: MB,
    dx1: int,
    dy1: int,
    dx2: int,
    dy2: int,
    st: SpecPipelineState,
    reset_count: int,
)
    requires
        0 <= reset_count <= 51,
        is_delta_middleware(m1, dx1, dy1),
        is_delta_middleware(m2, dx2, dy2),
        is_delta_middleware(m12, dx1 + dx2, dy1 + dy2),
        i64::MIN <= st.x + dx1 <= i64::MAX,
        i64::MIN <= st.x + dx1 + dx2 <= i64::MAX,
        i64::MIN <= st.y + dy1 <= i64::MAX,
        i64::MIN <= st.y + dy1 + dy2 <= i64::MAX,
    ensures
        spec_run(
            platform,
            reference,
            floating,
            initial_placement,
            strategy,
            rtl,
            seq![m1, m2],
            st,
            0,
            reset_count,
        ) == spec_run(
            platform,
            reference,
            floating,
            initial_placement,
            strategy,
            rtl,
            seq![m12],
            st,
            0,
            reset_count,
        ),
{
    let pair = seq![m1, m2];
    let single = seq![m12];
    let st1 = SpecPipelineState {
        x: (st.x + dx1) as i64,
        y: (st.y + dy1) as i64,
        placement: st.placement,
        rects: st.rects,
        data: st.data,
    };
    let st2 = SpecPipelineState {
        x: (st.x + dx1 + dx2) as i64,
        y: (st.y + dy1 + dy2) as i64,
        placement: st.placement,
        rects: st.rects,
        data: st.data,
    };
    assert(pair[0] == m1 && pair[1] == m2 && single[0] == m12);
    assert(spec_run(
        platform,
        reference,
        floating,
        initial_placement,
        strategy,
        rtl,
        pair,
        st,
        0,
        reset_count,
    ) == spec_run(
        platform,
        reference,
        floating,
        initial_placement,
        strategy,
        rtl,
        pair,
        st1,
        1,
        reset_count,
    ));
    assert(st1.x + dx2 == st.x + dx1 + dx2);
    assert(spec_run(
        platform,
        reference,
        floating,
        initial_placement,
        strategy,
        rtl,
        pair,
        st1,
        1,
        reset_count,
    ) == spec_run(
        platform,
        reference,
        floating,
        initial_placement,
        strategy,
        rtl,
        pair,
        st2,
        2,
        reset_count,
    ));
    assert(spec_run(
        platform,
        reference,
        floating,
        initial_placement,
        strategy,
        rtl,
        single,
        st,
        0,
        reset_count,
    ) == spec_run(
        platform,
        reference,
        floating,
        initial_placement,
        strategy,
        rtl,
        single,
        st2,
        1,
        reset_count,
    ));
}

} // verus!
