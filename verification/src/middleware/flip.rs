//! The flip middleware: when the current placement overflows its clipping
//! boundary, it walks an ordered list of fallback placements through the
//! pipeline's reset protocol, and falls back to the least-overflowing or the
//! initial placement when every candidate overflows.

use vstd::prelude::*;

use crate::data::{
    keys_unique, spec_lookup, CandidateOverflow, DataRecord, DataValue, DataValueView,
    MiddlewareData,
};
use crate::compute_position::{spec_compute_position, spec_initial_xy, spec_run, SpecPipelineState};
use crate::detect_overflow::{detect_overflow, spec_detect_overflow};
use crate::orientation::{Alignment, Placement};
use crate::strategy::Strategy;
use crate::types::{
    spec_detect_overflow_defaults, DetectOverflowOptions, Middleware, MiddlewareReturn,
    MiddlewareState, Platform, Reset, ResetValue, SpecMiddlewareReturn, SpecMiddlewareState,
};
use crate::{
    get_alignment_sides, get_expanded_placements, get_opposite_axis_placements,
    get_opposite_placement, spec_get_expanded_placements, spec_get_opposite_axis_placements,
    spec_main_alignment_side,
};

verus! {

/// Name of the [`Flip`] middleware.
pub const FLIP_NAME: &'static str = "flip";

/// What flip does when no candidate placement is free of overflow.
#[derive(Copy, Clone, Debug, PartialEq, Eq, Structural)]
pub enum FallbackStrategy {
    /// Use the recorded candidate with the least total overflow.
    BestFit,
    /// Revert to the initially requested placement.
    InitialPlacement,
}

/// Options for the [`Flip`] middleware.
#[derive(Clone, Debug)]
pub struct FlipOptions {
    /// Options for [`detect_overflow`].
    ///
    /// Defaults to [`DetectOverflowOptions::default`].
    pub detect_overflow: Option<DetectOverflowOptions>,

    /// Whether overflow past the placement's own side is checked.
    /// Defaults to `true`.
    pub main_axis: Option<bool>,

    /// Whether overflow past the two alignment sides is checked.
    /// Defaults to `true`.
    pub cross_axis: Option<bool>,

    /// An explicit candidate list that replaces the generated one.
    pub fallback_placements: Option<Vec<Placement>>,

    /// What to do when no candidate is free of overflow.
    /// Defaults to [`FallbackStrategy::BestFit`].
    pub fallback_strategy: Option<FallbackStrategy>,

    /// When set, candidates on the perpendicular axis are tried as well,
    /// biased towards the given direction. Defaults to unset.
    pub fallback_axis_side_direction: Option<Alignment>,

    /// Whether candidates with the alignment flipped are tried.
    /// Defaults to `true`.
    pub flip_alignment: Option<bool>,
}

impl FlipOptions {
    /// The overflow options, if set, are well-formed.
    pub open spec fn wf(self) -> bool {
        match self.detect_overflow {
            Some(o) => o.wf(),
            None => true,
        }
    }
}

/// Flip options with every field unset.
pub open spec fn spec_flip_defaults() -> FlipOptions {
    FlipOptions {
        detect_overflow: None,
        main_axis: None,
        cross_axis: None,
        fallback_placements: None,
        fallback_strategy: None,
        fallback_axis_side_direction: None,
        flip_alignment: None,
    }
}

impl Default for FlipOptions {
    /// Returns options with every field unset.
    fn default() -> (r: Self)
        ensures
            r == spec_flip_defaults(),
    {
        FlipOptions {
            detect_overflow: None,
            main_axis: None,
            cross_axis: None,
            fallback_placements: None,
            fallback_strategy: None,
            fallback_axis_side_direction: None,
            flip_alignment: None,
        }
    }
}

/// The positive part of a recorded overflow value; an axis that was not
/// checked contributes nothing.
pub open spec fn spec_pos_part(v: Option<i64>) -> int {
    match v {
        Some(x) => if x > 0 {
            x as int
        } else {
            0
        },
        None => 0,
    }
}

/// The total overflow of a recorded candidate: the sum of the positive
/// overflows on its checked axes.
pub open spec fn spec_candidate_score(c: CandidateOverflow) -> int {
    spec_pos_part(c.main) + spec_pos_part(c.cross_start) + spec_pos_part(c.cross_end)
}

/// A recorded candidate is free of overflow on every axis it checked.
pub open spec fn spec_candidate_ok(c: CandidateOverflow) -> bool {
    &&& match c.main {
        Some(v) => v <= 0,
        None => true,
    }
    &&& match c.cross_start {
        Some(v) => v <= 0,
        None => true,
    }
    &&& match c.cross_end {
        Some(v) => v <= 0,
        None => true,
    }
}

/// The least total overflow among the recorded candidates.
pub open spec fn spec_min_score(s: Seq<CandidateOverflow>) -> int
    decreases s.len(),
{
    if s.len() <= 1 {
        spec_candidate_score(s[0])
    } else {
        let rest = spec_min_score(s.drop_last());
        let last = spec_candidate_score(s.last());
        if last < rest {
            last
        } else {
            rest
        }
    }
}

/// The placement of the earliest recorded candidate whose total overflow is
/// least.
pub open spec fn spec_best_fit(s: Seq<CandidateOverflow>) -> Placement
    decreases s.len(),
{
    if s.len() <= 1 {
        s[0].placement
    } else if spec_candidate_score(s.last()) < spec_min_score(s.drop_last()) {
        s.last().placement
    } else {
        spec_best_fit(s.drop_last())
    }
}

/// The candidate index recorded under the flip middleware's name, zero when
/// nothing usable is recorded.
pub open spec fn spec_flip_index(
    data: Seq<(Seq<char>, Seq<(Seq<char>, DataValueView)>)>,
) -> i64 {
    match spec_lookup(data, "flip"@) {
        Some(rec) => match spec_lookup(rec, "index"@) {
            Some(DataValueView::Number(n)) => n,
            _ => 0,
        },
        None => 0,
    }
}

/// The overflow measurements recorded under the flip middleware's name,
/// empty when nothing usable is recorded.
pub open spec fn spec_flip_overflows(
    data: Seq<(Seq<char>, Seq<(Seq<char>, DataValueView)>)>,
) -> Seq<CandidateOverflow> {
    match spec_lookup(data, "flip"@) {
        Some(rec) => match spec_lookup(rec, "overflows"@) {
            Some(DataValueView::Candidates(c)) => c,
            _ => Seq::empty(),
        },
        None => Seq::empty(),
    }
}

/// The record the flip middleware stores: the index of the candidate it
/// resets to, and every overflow measurement taken so far.
pub open spec fn spec_flip_record(index: i64, overflows: Seq<CandidateOverflow>) -> Seq<
    (Seq<char>, DataValueView),
> {
    seq![("index"@, DataValueView::Number(index)), ("overflows"@, DataValueView::Candidates(
        overflows,
    ))]
}

/// The ordered candidate list: the initial placement, then the caller's
/// explicit fallbacks, or the generated ones — the opposite placement for
/// centered placements or with alignment flipping off, the expanded list
/// otherwise, extended by the cross-axis fallbacks when a fallback axis
/// direction is configured.
pub open spec fn spec_flip_placements(
    options: FlipOptions,
    initial: Placement,
    rtl: Option<bool>,
) -> Seq<Placement> {
    let flip_alignment = options.flip_alignment.unwrap_or(true);
    match options.fallback_placements {
        Some(list) => seq![initial] + list@,
        None => {
            let base = if initial.spec_alignment() is None || !flip_alignment {
                seq![initial.spec_opposite()]
            } else {
                spec_get_expanded_placements(initial)
            };
            let extra = match options.fallback_axis_side_direction {
                Some(direction) => spec_get_opposite_axis_placements(
                    initial,
                    flip_alignment,
                    Some(direction),
                    rtl,
                ),
                None => Seq::empty(),
            };
            seq![initial] + base + extra
        },
    }
}

/// What the flip middleware computes. When the current placement is free of
/// overflow on the checked axes, nothing happens. Otherwise the measurement
/// is recorded and the pipeline resets to the next candidate; once the
/// candidates are exhausted, the fallback strategy picks the placement to
/// settle on, resetting only when it differs from the current one.
pub open spec fn spec_flip_compute<Element, P: Platform<Element>>(
    options: FlipOptions,
    st: SpecMiddlewareState<Element, P>,
) -> SpecMiddlewareReturn {
    let check_main = options.main_axis.unwrap_or(true);
    let check_cross = options.cross_axis.unwrap_or(true);
    let strategy = options.fallback_strategy.unwrap_or(FallbackStrategy::BestFit);
    let rtl = st.platform.spec_is_rtl(st.floating);
    let eff = options.detect_overflow.unwrap_or(spec_detect_overflow_defaults());
    let overflow = spec_detect_overflow(st, eff);
    let main = if check_main {
        Some(overflow.side(st.placement.spec_side()) as i64)
    } else {
        None
    };
    let cross_side = spec_main_alignment_side(st.placement, st.rects, rtl);
    let cross_start = if check_cross {
        Some(overflow.side(cross_side) as i64)
    } else {
        None
    };
    let cross_end = if check_cross {
        Some(overflow.side(cross_side.spec_opposite()) as i64)
    } else {
        None
    };
    let candidate = CandidateOverflow { placement: st.placement, main, cross_start, cross_end };
    if spec_candidate_ok(candidate) {
        SpecMiddlewareReturn { x: None, y: None, data: None, reset: None }
    } else {
        let prior = spec_flip_index(st.middleware_data);
        let overflows = spec_flip_overflows(st.middleware_data).push(candidate);
        let placements = spec_flip_placements(options, st.initial_placement, rtl);
        if 0 <= prior && prior + 1 < placements.len() {
            let next = if prior + 1 <= i64::MAX {
                (prior + 1) as i64
            } else {
                i64::MAX
            };
            SpecMiddlewareReturn {
                x: None,
                y: None,
                data: Some(spec_flip_record(next, overflows)),
                reset: Some(
                    Reset::Value(
                        ResetValue { placement: Some(placements[prior + 1]), rects: None },
                    ),
                ),
            }
        } else {
            let winner = match strategy {
                FallbackStrategy::BestFit => spec_best_fit(overflows),
                FallbackStrategy::InitialPlacement => st.initial_placement,
            };
            if winner != st.placement {
                SpecMiddlewareReturn {
                    x: None,
                    y: None,
                    data: None,
                    reset: Some(
                        Reset::Value(ResetValue { placement: Some(winner), rects: None }),
                    ),
                }
            } else {
                SpecMiddlewareReturn { x: None, y: None, data: None, reset: None }
            }
        }
    }
}

/// Law (flip correctness, overflowing side): on the first run for a centered
/// placement with default options, when the placement overflows on some
/// checked axis, flip requests a reset to the opposite placement. The
/// pipeline driver then recomputes the coordinates for that placement, so
/// the final coordinates equal the initializer's output for it.
pub proof fn lemma_flip_resets_to_opposite<Element, P: Platform<Element>>(
    options: FlipOptions,
    st: SpecMiddlewareState<Element, P>,
)
    requires
        options == spec_flip_defaults(),
        st.placement == st.initial_placement,
        st.placement.spec_alignment() is None,
        spec_lookup(st.middleware_data, "flip"@) is None,
        ({
            let o = spec_detect_overflow(st, spec_detect_overflow_defaults());
            let rtl = st.platform.spec_is_rtl(st.floating);
            let cross = spec_main_alignment_side(st.placement, st.rects, rtl);
            (o.side(st.placement.spec_side()) as i64) > 0 || (o.side(cross) as i64) > 0 || (o.side(
                cross.spec_opposite(),
            ) as i64) > 0
        }),
    ensures
        spec_flip_compute(options, st).reset == Some(
            Reset::Value(
                ResetValue { placement: Some(st.placement.spec_opposite()), rects: None },
            ),
        ),
        spec_flip_compute(options, st).x is None,
        spec_flip_compute(options, st).y is None,
{
    let rtl = st.platform.spec_is_rtl(st.floating);
    let placements = spec_flip_placements(options, st.initial_placement, rtl);
    assert(placements =~= seq![st.initial_placement] + seq![st.initial_placement.spec_opposite()]
        + Seq::<Placement>::empty());
    assert(placements.len() == 2);
    assert(placements[1] == st.initial_placement.spec_opposite());
}

/// Law (flip correctness, settled side): a placement free of overflow on
/// every checked axis is kept: flip changes nothing and requests no reset.
pub proof fn lemma_flip_keeps_clear_placement<Element, P: Platform<Element>>(
    options: FlipOptions,
    st: SpecMiddlewareState<Element, P>,
)
    requires
        options.main_axis.unwrap_or(true),
        options.cross_axis.unwrap_or(true),
        ({
            let eff = options.detect_overflow.unwrap_or(spec_detect_overflow_defaults());
            let o = spec_detect_overflow(st, eff);
            let rtl = st.platform.spec_is_rtl(st.floating);
            let cross = spec_main_alignment_side(st.placement, st.rects, rtl);
            &&& (o.side(st.placement.spec_side()) as i64) <= 0
            &&& (o.side(cross) as i64) <= 0
            &&& (o.side(cross.spec_opposite()) as i64) <= 0
        }),
    ensures
        spec_flip_compute(options, st) == (SpecMiddlewareReturn {
            x: None,
            y: None,
            data: None,
            reset: None,
        }),
{
}

/// Law (flip correctness): a pipeline holding one flip middleware with
/// default options, asked for a centered placement whose side overflows
/// while the opposite side is clear, settles on the opposite placement, and
/// its final coordinates equal the initializer's output for that placement —
/// reached through the reset path, not by substituting the placement.
pub proof fn lemma_flip_drives_to_opposite<Element, P: Platform<Element>>(
    platform: P,
    reference: Element,
    floating: Element,
    initial: Placement,
    strategy: Strategy,
    m: Flip<Element, P>,
)
    requires
        m.spec_options() == spec_flip_defaults(),
        initial.spec_alignment() is None,
        ({
            let rtl = platform.spec_is_rtl(floating);
            let rects = platform.spec_element_rects(reference, floating, strategy);
            let xy = spec_initial_xy(rects, initial, rtl);
            let st0 = SpecMiddlewareState {
                x: xy.0,
                y: xy.1,
                initial_placement: initial,
                placement: initial,
                strategy,
                middleware_data: Seq::empty(),
                rects,
                platform,
                reference,
                floating,
            };
            let o = spec_detect_overflow(st0, spec_detect_overflow_defaults());
            let cross = spec_main_alignment_side(initial, rects, rtl);
            (o.side(initial.spec_side()) as i64) > 0 || (o.side(cross) as i64) > 0 || (o.side(
                cross.spec_opposite(),
            ) as i64) > 0
        }),
        ({
            let rtl = platform.spec_is_rtl(floating);
            let rects = platform.spec_element_rects(reference, floating, strategy);
            let opposite = initial.spec_opposite();
            let xy = spec_initial_xy(rects, opposite, rtl);
            let st1 = SpecMiddlewareState {
                x: xy.0,
                y: xy.1,
                initial_placement: initial,
                placement: opposite,
                strategy,
                middleware_data: Seq::empty(),
                rects,
                platform,
                reference,
                floating,
            };
            let o = spec_detect_overflow(st1, spec_detect_overflow_defaults());
            let cross = spec_main_alignment_side(opposite, rects, rtl);
            &&& (o.side(opposite.spec_side()) as i64) <= 0
            &&& (o.side(cross) as i64) <= 0
            &&& (o.side(cross.spec_opposite()) as i64) <= 0
        }),
    ensures
        ({
            let rtl = platform.spec_is_rtl(floating);
            let rects = platform.spec_element_rects(reference, floating, strategy);
            let opposite = initial.spec_opposite();
            let xy = spec_initial_xy(rects, opposite, rtl);
            let r = spec_compute_position(
                platform,
                reference,
                floating,
                Some(initial),
                Some(strategy),
                seq![m],
            );
            &&& r.placement == opposite
            &&& r.x == xy.0
            &&& r.y == xy.1
            &&& r.strategy == strategy
        }),
{
    let rtl = platform.spec_is_rtl(floating);
    let rects = platform.spec_element_rects(reference, floating, strategy);
    let opposite = initial.spec_opposite();
    let xy0 = spec_initial_xy(rects, initial, rtl);
    let xy1 = spec_initial_xy(rects, opposite, rtl);
    let mids = seq![m];
    let st0 = SpecPipelineState {
        x: xy0.0,
        y: xy0.1,
        placement: initial,
        rects,
        data: Seq::empty(),
    };
    let st0_mid = SpecMiddlewareState {
        x: st0.x,
        y: st0.y,
        initial_placement: initial,
        placement: st0.placement,
        strategy,
        middleware_data: st0.data,
        rects: st0.rects,
        platform,
        reference,
        floating,
    };
    lemma_flip_resets_to_opposite(m.spec_options(), st0_mid);
    let ret0 = m.spec_compute(st0_mid);
    let data1 = match ret0.data {
        Some(d) => crate::compute_position::spec_apply_data(st0.data, m.spec_name(), d),
        None => st0.data,
    };
    let st2 = SpecPipelineState {
        x: xy1.0,
        y: xy1.1,
        placement: opposite,
        rects,
        data: data1,
    };
    assert(spec_run(platform, reference, floating, initial, strategy, rtl, mids, st0, 0, 0)
        == spec_run(platform, reference, floating, initial, strategy, rtl, mids, st2, 0, 1));
    let st2_mid = SpecMiddlewareState {
        x: st2.x,
        y: st2.y,
        initial_placement: initial,
        placement: st2.placement,
        strategy,
        middleware_data: st2.data,
        rects: st2.rects,
        platform,
        reference,
        floating,
    };
    lemma_flip_keeps_clear_placement(m.spec_options(), st2_mid);
    assert(spec_run(platform, reference, floating, initial, strategy, rtl, mids, st2, 0, 1)
        == spec_run(platform, reference, floating, initial, strategy, rtl, mids, st2, 1, 1));
    assert(spec_run(platform, reference, floating, initial, strategy, rtl, mids, st2, 1, 1)
        == st2);
}

/// Appends every element of `src` to `dst`.
fn push_all(dst: &mut Vec<Placement>, src: &Vec<Placement>)
    ensures
        final(dst)@ == old(dst)@ + src@,
{
    let n = src.len();
    let mut i: usize = 0;
    while i < n
        invariant
            n == src.len(),
            i <= n,
            dst@ =~= old(dst)@ + src@.take(i as int),
        decreases n - i,
    {
        dst.push(src[i]);
        proof {
            assert(src@.take(i + 1 as int) =~= src@.take(i as int).push(src@[i as int]));
            assert(dst@ =~= old(dst)@ + src@.take(i + 1 as int));
        }
        i = i + 1;
    }
    proof {
        assert(src@.take(n as int) =~= src@);
    }
}

/// Reads the index and the overflow measurements the flip middleware stored
/// in an earlier pass.
fn flip_prior(data: &MiddlewareData) -> (r: (i64, Vec<CandidateOverflow>))
    ensures
        r.0 == spec_flip_index(data@),
        r.1@ == spec_flip_overflows(data@),
{
    match data.get(FLIP_NAME) {
        Some(rec) => {
            let idx: i64 = match rec.get("index") {
                Some(v) => match v {
                    DataValue::Number(n) => *n,
                    _ => 0,
                },
                None => 0,
            };
            let prior_overflows: Vec<CandidateOverflow> = match rec.get("overflows") {
                Some(v) => match v.clone() {
                    DataValue::Candidates(c) => c,
                    _ => Vec::new(),
                },
                None => Vec::new(),
            };
            (idx, prior_overflows)
        },
        None => (0, Vec::new()),
    }
}

/// Builds the ordered candidate list for a run.
fn flip_placements(options: &FlipOptions, initial: Placement, rtl: Option<bool>) -> (r: Vec<
    Placement,
>)
    ensures
        r@ == spec_flip_placements(*options, initial, rtl),
        r@.len() >= 1,
{
    let flip_alignment = match options.flip_alignment {
        Some(b) => b,
        None => true,
    };
    let mut placements: Vec<Placement> = Vec::new();
    placements.push(initial);
    match &options.fallback_placements {
        Some(list) => {
            push_all(&mut placements, list);
            proof {
                assert(placements@ =~= spec_flip_placements(*options, initial, rtl));
            }
        },
        None => {
            if initial.alignment().is_none() || !flip_alignment {
                placements.push(get_opposite_placement(initial));
            } else {
                let expanded = get_expanded_placements(initial);
                push_all(&mut placements, &expanded);
            }
            match options.fallback_axis_side_direction {
                Some(direction) => {
                    let extra = get_opposite_axis_placements(
                        initial,
                        flip_alignment,
                        Some(direction),
                        rtl,
                    );
                    push_all(&mut placements, &extra);
                },
                None => {},
            }
            proof {
                assert(placements@ =~= spec_flip_placements(*options, initial, rtl));
            }
        },
    }
    placements
}

/// Builds the record the flip middleware stores.
fn flip_record(index: i64, overflows: Vec<CandidateOverflow>) -> (r: DataRecord)
    ensures
        r@ == spec_flip_record(index, overflows@),
        keys_unique(r@),
{
    let ghost overflows_view = overflows@;
    let mut entries: Vec<(String, DataValue)> = Vec::new();
    entries.push(("index".to_owned(), DataValue::Number(index)));
    entries.push(("overflows".to_owned(), DataValue::Candidates(overflows)));
    let r = DataRecord::from_entries(entries);
    proof {
        reveal_strlit("index");
        reveal_strlit("overflows");
        assert(("index"@).len() == 5);
        assert(("overflows"@).len() == 9);
        assert(r@ =~~= spec_flip_record(index, overflows_view));
    }
    r
}

/// Picks the recorded candidate with the least total overflow, the earliest
/// on a tie.
fn best_fit(overflows: &Vec<CandidateOverflow>) -> (r: Placement)
    requires
        overflows@.len() >= 1,
    ensures
        r == spec_best_fit(overflows@),
{
    let mut best_placement = overflows[0].placement;
    let mut best_score: i128 = candidate_score(&overflows[0]);
    let n = overflows.len();
    let mut k: usize = 1;
    proof {
        assert(overflows@.take(1)[0] == overflows@[0]);
    }
    while k < n
        invariant
            n == overflows@.len(),
            1 <= k <= n,
            best_score == spec_min_score(overflows@.take(k as int)),
            best_placement == spec_best_fit(overflows@.take(k as int)),
        decreases n - k,
    {
        let score = candidate_score(&overflows[k]);
        proof {
            assert(overflows@.take(k + 1 as int).drop_last() =~= overflows@.take(k as int));
            assert(overflows@.take(k + 1 as int).last() == overflows@[k as int]);
        }
        if score < best_score {
            best_score = score;
            best_placement = overflows[k].placement;
        }
        k = k + 1;
    }
    proof {
        assert(overflows@.take(n as int) =~= overflows@);
    }
    best_placement
}

/// Computes the total positive overflow of a recorded candidate.
fn candidate_score(c: &CandidateOverflow) -> (r: i128)
    ensures
        r == spec_candidate_score(*c),
{
    let main: i128 = match c.main {
        Some(v) => if v > 0 {
            v as i128
        } else {
            0
        },
        None => 0,
    };
    let cross_start: i128 = match c.cross_start {
        Some(v) => if v > 0 {
            v as i128
        } else {
            0
        },
        None => 0,
    };
    let cross_end: i128 = match c.cross_end {
        Some(v) => if v > 0 {
            v as i128
        } else {
            0
        },
        None => 0,
    };
    main + cross_start + cross_end
}

/// Optimizes the visibility of the floating element by flipping the
/// placement in order to keep it in view when the preferred placements would
/// overflow the clipping boundary.
pub struct Flip<Element, P> {
    options: FlipOptions,
    element: core::marker::PhantomData<Element>,
    platform: core::marker::PhantomData<P>,
}

impl<Element, P> Flip<Element, P> {
    /// Constructs a new instance of this middleware.
    pub fn new(options: FlipOptions) -> (r: Self)
        ensures
            r.spec_options() == options,
    {
        Flip {
            options,
            element: core::marker::PhantomData,
            platform: core::marker::PhantomData,
        }
    }

    /// The configured options.
    pub closed spec fn spec_options(self) -> FlipOptions {
        self.options
    }
}

impl<Element, P: Platform<Element>> Middleware<Element, P> for Flip<Element, P> {
    open spec fn inv(&self) -> bool {
        self.spec_options().wf()
    }

    open spec fn spec_name(&self) -> Seq<char> {
        "flip"@
    }

    fn name(&self) -> (r: &'static str)
        ensures
            r@ == self.spec_name(),
    {
        FLIP_NAME
    }

    open spec fn spec_compute(&self, state: SpecMiddlewareState<Element, P>) -> SpecMiddlewareReturn {
        spec_flip_compute(self.spec_options(), state)
    }

    fn compute(&self, state: MiddlewareState<'_, Element, P>) -> (r: MiddlewareReturn)
        ensures
            r@ == self.spec_compute(state@),
            r@.wf(),
    {
        let check_main = match self.options.main_axis {
            Some(b) => b,
            None => true,
        };
        let check_cross = match self.options.cross_axis {
            Some(b) => b,
            None => true,
        };
        let strategy = match self.options.fallback_strategy {
            Some(s) => s,
            None => FallbackStrategy::BestFit,
        };
        let rtl = state.platform.is_rtl(state.elements.floating);
        let eff = match self.options.detect_overflow {
            Some(o) => o,
            None => DetectOverflowOptions::default(),
        };
        let overflow = detect_overflow(&state, &eff);

        let main: Option<i64> = if check_main {
            Some(overflow.side(state.placement.side()))
        } else {
            None
        };
        let sides = get_alignment_sides(state.placement, state.rects, rtl);
        let cross_start: Option<i64> = if check_cross {
            Some(overflow.side(sides.0))
        } else {
            None
        };
        let cross_end: Option<i64> = if check_cross {
            Some(overflow.side(sides.1))
        } else {
            None
        };
        let candidate = CandidateOverflow {
            placement: state.placement,
            main,
            cross_start,
            cross_end,
        };

        let ok = (match main {
            Some(v) => v <= 0,
            None => true,
        }) && (match cross_start {
            Some(v) => v <= 0,
            None => true,
        }) && (match cross_end {
            Some(v) => v <= 0,
            None => true,
        });
        if ok {
            return MiddlewareReturn { x: None, y: None, data: None, reset: None };
        }

        let (prior, mut overflows) = flip_prior(state.middleware_data);
        overflows.push(candidate);
        let placements = flip_placements(&self.options, state.initial_placement, rtl);

        if prior >= 0 && (prior as u64) + 1 < (placements.len() as u64) {
            let next_index: usize = ((prior as u64) + 1) as usize;
            let next_num: i64 = if prior == i64::MAX {
                i64::MAX
            } else {
                prior + 1
            };
            let record = flip_record(next_num, overflows);
            return MiddlewareReturn {
                x: None,
                y: None,
                data: Some(record),
                reset: Some(
                    Reset::Value(
                        ResetValue { placement: Some(placements[next_index]), rects: None },
                    ),
                ),
            };
        }

        let winner = match strategy {
            FallbackStrategy::BestFit => best_fit(&overflows),
            FallbackStrategy::InitialPlacement => state.initial_placement,
        };

        if winner != state.placement {
            MiddlewareReturn {
                x: None,
                y: None,
                data: None,
                reset: Some(Reset::Value(ResetValue { placement: Some(winner), rects: None })),
            }
        } else {
            MiddlewareReturn { x: None, y: None, data: None, reset: None }
        }
    }
}

} // verus!
