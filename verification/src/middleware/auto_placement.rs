//! The auto-placement middleware: instead of flipping from a preferred
//! placement, it walks a list of candidate placements through the pipeline's
//! reset protocol, measures the overflow of each, and settles on the
//! placement with the most space — preferring candidates that fit entirely.

use vstd::prelude::*;

use crate::data::{
    keys_unique, spec_lookup, CandidateOverflow, DataRecord, DataValue, DataValueView,
    MiddlewareData,
};
use crate::detect_overflow::{detect_overflow, spec_detect_overflow};
use crate::orientation::{Alignment, Placement};
use crate::types::{
    spec_detect_overflow_defaults, DetectOverflowOptions, Middleware, MiddlewareReturn,
    MiddlewareState, Platform, Reset, ResetValue, SpecMiddlewareReturn, SpecMiddlewareState,
};
use crate::{get_alignment_sides, spec_main_alignment_side};

verus! {

/// Name of the [`AutoPlacement`] middleware.
pub const AUTO_PLACEMENT_NAME: &'static str = "auto_placement";

/// Options for the [`AutoPlacement`] middleware.
#[derive(Clone, Debug)]
pub struct AutoPlacementOptions {
    /// Options for [`detect_overflow`].
    ///
    /// Defaults to [`DetectOverflowOptions::default`].
    pub detect_overflow: Option<DetectOverflowOptions>,

    /// Whether the overflow on the cross axis joins the score of aligned
    /// candidates. Defaults to `false`.
    pub cross_axis: Option<bool>,

    /// Restricts the candidates to placements with this alignment.
    pub alignment: Option<Alignment>,

    /// An explicit candidate list that replaces the generated one.
    pub allowed_placements: Option<Vec<Placement>>,

    /// Whether candidates with the opposite alignment are tried as well when
    /// an alignment is given. Defaults to `true`.
    pub auto_alignment: Option<bool>,
}

impl AutoPlacementOptions {
    /// The overflow options, if set, are well-formed.
    pub open spec fn wf(self) -> bool {
        match self.detect_overflow {
            Some(o) => o.wf(),
            None => true,
        }
    }
}

/// Auto-placement options with every field unset.
pub open spec fn spec_auto_placement_defaults() -> AutoPlacementOptions {
    AutoPlacementOptions {
        detect_overflow: None,
        cross_axis: None,
        alignment: None,
        allowed_placements: None,
        auto_alignment: None,
    }
}

impl Default for AutoPlacementOptions {
    /// Returns options with every field unset.
    fn default() -> (r: Self)
        ensures
            r == spec_auto_placement_defaults(),
    {
        AutoPlacementOptions {
            detect_overflow: None,
            cross_axis: None,
            alignment: None,
            allowed_placements: None,
            auto_alignment: None,
        }
    }
}

/// The four placements with the given alignment, in side order.
pub open spec fn spec_aligned_candidates(alignment: Alignment) -> Seq<Placement> {
    match alignment {
        Alignment::Start => seq![
            Placement::TopStart,
            Placement::RightStart,
            Placement::BottomStart,
            Placement::LeftStart,
        ],
        Alignment::End => seq![
            Placement::TopEnd,
            Placement::RightEnd,
            Placement::BottomEnd,
            Placement::LeftEnd,
        ],
    }
}

/// The candidate list: the caller's explicit list, or the placements with
/// the configured alignment — followed by those with the opposite alignment
/// when auto-alignment is on — or the four centered placements when no
/// alignment is configured.
pub open spec fn spec_auto_candidates(options: AutoPlacementOptions) -> Seq<Placement> {
    match options.allowed_placements {
        Some(list) => list@,
        None => match options.alignment {
            Some(alignment) => if options.auto_alignment.unwrap_or(true) {
                spec_aligned_candidates(alignment) + spec_aligned_candidates(
                    match alignment {
                        Alignment::Start => Alignment::End,
                        Alignment::End => Alignment::Start,
                    },
                )
            } else {
                spec_aligned_candidates(alignment)
            },
            None => seq![Placement::Top, Placement::Right, Placement::Bottom, Placement::Left],
        },
    }
}

/// The candidate index recorded under the middleware's name, zero when
/// nothing usable is recorded.
pub open spec fn spec_auto_index(
    data: Seq<(Seq<char>, Seq<(Seq<char>, DataValueView)>)>,
) -> i64 {
    match spec_lookup(data, "auto_placement"@) {
        Some(rec) => match spec_lookup(rec, "index"@) {
            Some(DataValueView::Number(n)) => n,
            _ => 0,
        },
        None => 0,
    }
}

/// The overflow measurements recorded under the middleware's name, empty
/// when nothing usable is recorded.
pub open spec fn spec_auto_overflows(
    data: Seq<(Seq<char>, Seq<(Seq<char>, DataValueView)>)>,
) -> Seq<CandidateOverflow> {
    match spec_lookup(data, "auto_placement"@) {
        Some(rec) => match spec_lookup(rec, "overflows"@) {
            Some(DataValueView::Candidates(c)) => c,
            _ => Seq::empty(),
        },
        None => Seq::empty(),
    }
}

/// The record the middleware stores: the index of the candidate it resets
/// to, and every overflow measurement taken so far.
pub open spec fn spec_auto_record(index: i64, overflows: Seq<CandidateOverflow>) -> Seq<
    (Seq<char>, DataValueView),
> {
    seq![("index"@, DataValueView::Number(index)), ("overflows"@, DataValueView::Candidates(
        overflows,
    ))]
}

/// A recorded value, defaulting to zero: auto placement always records all
/// three axes.
pub open spec fn spec_recorded(v: Option<i64>) -> int {
    match v {
        Some(x) => x as int,
        None => 0,
    }
}

/// The space score of a candidate: the overflow past its own side and, for
/// aligned candidates when the cross axis joins in, the overflow past its
/// main alignment side. Lower is better.
pub open spec fn spec_auto_score(c: CandidateOverflow, cross_axis: bool) -> int {
    if cross_axis && c.placement.spec_alignment() is Some {
        spec_recorded(c.main) + spec_recorded(c.cross_start)
    } else {
        spec_recorded(c.main)
    }
}

/// Whether a candidate fits: no overflow on its side and its main alignment
/// side, nor — for centered candidates — on the remaining alignment side.
pub open spec fn spec_auto_fits(c: CandidateOverflow) -> bool {
    &&& spec_recorded(c.main) <= 0
    &&& spec_recorded(c.cross_start) <= 0
    &&& (c.placement.spec_alignment() is Some || spec_recorded(c.cross_end) <= 0)
}

/// The running result of scanning the recorded candidates: the best-scoring
/// one overall and the best-scoring one among those that fit.
pub ghost struct AutoChoice {
    pub has_fit: bool,
    pub fit_score: int,
    pub fit_placement: Placement,
    pub score: int,
    pub placement: Placement,
}

/// Scans the recorded candidates in order, keeping the earliest candidate
/// with the least score, both overall and among those that fit.
pub open spec fn spec_auto_scan(s: Seq<CandidateOverflow>, cross_axis: bool) -> AutoChoice
    decreases s.len(),
{
    if s.len() <= 1 {
        AutoChoice {
            has_fit: spec_auto_fits(s[0]),
            fit_score: spec_auto_score(s[0], cross_axis),
            fit_placement: s[0].placement,
            score: spec_auto_score(s[0], cross_axis),
            placement: s[0].placement,
        }
    } else {
        let prev = spec_auto_scan(s.drop_last(), cross_axis);
        let c = s.last();
        let score = spec_auto_score(c, cross_axis);
        let fits = spec_auto_fits(c);
        AutoChoice {
            has_fit: prev.has_fit || fits,
            fit_score: if fits && (!prev.has_fit || score < prev.fit_score) {
                score
            } else {
                prev.fit_score
            },
            fit_placement: if fits && (!prev.has_fit || score < prev.fit_score) {
                c.placement
            } else {
                prev.fit_placement
            },
            score: if score < prev.score {
                score
            } else {
                prev.score
            },
            placement: if score < prev.score {
                c.placement
            } else {
                prev.placement
            },
        }
    }
}

/// The placement auto placement settles on: the earliest fitting candidate
/// with the least score, or the earliest least-scoring candidate when none
/// fits.
pub open spec fn spec_auto_winner(s: Seq<CandidateOverflow>, cross_axis: bool) -> Placement {
    let choice = spec_auto_scan(s, cross_axis);
    if choice.has_fit {
        choice.fit_placement
    } else {
        choice.placement
    }
}

/// What the auto-placement middleware computes. The run starts by resetting
/// to the first candidate; each pass measures the current candidate and
/// resets to the next; when the candidates are exhausted, the winner is
/// chosen, resetting only when it differs from the current placement. An
/// unusable recorded index ends the run without effect.
pub open spec fn spec_auto_compute<Element, P: Platform<Element>>(
    options: AutoPlacementOptions,
    st: SpecMiddlewareState<Element, P>,
) -> SpecMiddlewareReturn {
    let cross_axis = options.cross_axis.unwrap_or(false);
    let eff = options.detect_overflow.unwrap_or(spec_detect_overflow_defaults());
    let rtl = st.platform.spec_is_rtl(st.floating);
    let candidates = spec_auto_candidates(options);
    let prior = spec_auto_index(st.middleware_data);
    if !(0 <= prior && (prior as int) < candidates.len()) {
        SpecMiddlewareReturn { x: None, y: None, data: None, reset: None }
    } else {
        let current = candidates[prior as int];
        if st.placement != current {
            SpecMiddlewareReturn {
                x: None,
                y: None,
                data: None,
                reset: Some(
                    Reset::Value(ResetValue { placement: Some(candidates[0]), rects: None }),
                ),
            }
        } else {
            let overflow = spec_detect_overflow(st, eff);
            let cross = spec_main_alignment_side(current, st.rects, rtl);
            let candidate = CandidateOverflow {
                placement: current,
                main: Some(overflow.side(current.spec_side()) as i64),
                cross_start: Some(overflow.side(cross) as i64),
                cross_end: Some(overflow.side(cross.spec_opposite()) as i64),
            };
            let overflows = spec_auto_overflows(st.middleware_data).push(candidate);
            let next_num: i64 = if prior + 1 <= i64::MAX {
                (prior + 1) as i64
            } else {
                i64::MAX
            };
            if prior + 1 < candidates.len() {
                SpecMiddlewareReturn {
                    x: None,
                    y: None,
                    data: Some(spec_auto_record(next_num, overflows)),
                    reset: Some(
                        Reset::Value(
                            ResetValue { placement: Some(candidates[prior + 1]), rects: None },
                        ),
                    ),
                }
            } else {
                let winner = spec_auto_winner(overflows, cross_axis);
                if winner != st.placement {
                    SpecMiddlewareReturn {
                        x: None,
                        y: None,
                        data: Some(spec_auto_record(next_num, overflows)),
                        reset: Some(
                            Reset::Value(ResetValue { placement: Some(winner), rects: None }),
                        ),
                    }
                } else {
                    SpecMiddlewareReturn { x: None, y: None, data: None, reset: None }
                }
            }
        }
    }
}

/// Reads the index and the overflow measurements the middleware stored in an
/// earlier pass.
fn auto_prior(data: &MiddlewareData) -> (r: (i64, Vec<CandidateOverflow>))
    ensures
        r.0 == spec_auto_index(data@),
        r.1@ == spec_auto_overflows(data@),
{
    match data.get(AUTO_PLACEMENT_NAME) {
        Some(rec) => {
            let idx: i64 = match rec.get("index") {
                Some(v) => match v {
                    DataValue::Number(n) => *n,
                    _ => 0,
                },
                None => 0,
            };
            let prior_overflows: Vec<CandidateOverflow> = match rec.get("overflows") {
                Some(v) => match v.clone() {
                    DataValue::Candidates(c) => c,
                    _ => Vec::new(),
                },
                None => Vec::new(),
            };
            (idx, prior_overflows)
        },
        None => (0, Vec::new()),
    }
}

/// Builds the candidate list for a run.
fn auto_candidates(options: &AutoPlacementOptions) -> (r: Vec<Placement>)
    ensures
        r@ == spec_auto_candidates(*options),
{
    let mut candidates: Vec<Placement> = Vec::new();
    match &options.allowed_placements {
        Some(list) => {
            let n = list.len();
            let mut i: usize = 0;
            while i < n
                invariant
                    n == list.len(),
                    i <= n,
                    candidates@ =~= list@.take(i as int),
                decreases n - i,
            {
                candidates.push(list[i]);
                proof {
                    assert(candidates@ =~= list@.take(i + 1 as int));
                }
                i = i + 1;
            }
            proof {
                assert(list@.take(n as int) =~= list@);
            }
        },
        None => {
            match options.alignment {
                Some(alignment) => {
                    match alignment {
                        Alignment::Start => {
                            candidates.push(Placement::TopStart);
                            candidates.push(Placement::RightStart);
                            candidates.push(Placement::BottomStart);
                            candidates.push(Placement::LeftStart);
                        },
                        Alignment::End => {
                            candidates.push(Placement::TopEnd);
                            candidates.push(Placement::RightEnd);
                            candidates.push(Placement::BottomEnd);
                            candidates.push(Placement::LeftEnd);
                        },
                    }
                    let auto = match options.auto_alignment {
                        Some(b) => b,
                        None => true,
                    };
                    if auto {
                        match alignment {
                            Alignment::Start => {
                                candidates.push(Placement::TopEnd);
                                candidates.push(Placement::RightEnd);
                                candidates.push(Placement::BottomEnd);
                                candidates.push(Placement::LeftEnd);
                            },
                            Alignment::End => {
                                candidates.push(Placement::TopStart);
                                candidates.push(Placement::RightStart);
                                candidates.push(Placement::BottomStart);
                                candidates.push(Placement::LeftStart);
                            },
                        }
                    }
                },
                None => {
                    candidates.push(Placement::Top);
                    candidates.push(Placement::Right);
                    candidates.push(Placement::Bottom);
                    candidates.push(Placement::Left);
                },
            }
            proof {
                assert(candidates@ =~= spec_auto_candidates(*options));
            }
        },
    }
    candidates
}

/// Builds the record the middleware stores.
fn auto_record(index: i64, overflows: Vec<CandidateOverflow>) -> (r: DataRecord)
    ensures
        r@ == spec_auto_record(index, overflows@),
        keys_unique(r@),
{
    let ghost overflows_view = overflows@;
    let mut entries: Vec<(String, DataValue)> = Vec::new();
    entries.push(("index".to_owned(), DataValue::Number(index)));
    entries.push(("overflows".to_owned(), DataValue::Candidates(overflows)));
    let r = DataRecord::from_entries(entries);
    proof {
        reveal_strlit("index");
        reveal_strlit("overflows");
        assert(("index"@).len() == 5);
        assert(("overflows"@).len() == 9);
        assert(r@ =~~= spec_auto_record(index, overflows_view));
    }
    r
}

/// The score a recorded candidate carries.
fn auto_score(c: &CandidateOverflow, cross_axis: bool) -> (r: i128)
    ensures
        r == spec_auto_score(*c, cross_axis),
{
    let main: i128 = match c.main {
        Some(v) => v as i128,
        None => 0,
    };
    if cross_axis && c.placement.alignment().is_some() {
        let cross: i128 = match c.cross_start {
            Some(v) => v as i128,
            None => 0,
        };
        main + cross
    } else {
        main
    }
}

/// Whether a recorded candidate fits.
fn auto_fits(c: &CandidateOverflow) -> (r: bool)
    ensures
        r == spec_auto_fits(*c),
{
    let main_ok = match c.main {
        Some(v) => v <= 0,
        None => true,
    };
    let cross_start_ok = match c.cross_start {
        Some(v) => v <= 0,
        None => true,
    };
    let cross_end_ok = match c.cross_end {
        Some(v) => v <= 0,
        None => true,
    };
    main_ok && cross_start_ok && (c.placement.alignment().is_some() || cross_end_ok)
}

/// Picks the winner among the recorded candidates.
fn auto_winner(overflows: &Vec<CandidateOverflow>, cross_axis: bool) -> (r: Placement)
    requires
        overflows@.len() >= 1,
    ensures
        r == spec_auto_winner(overflows@, cross_axis),
{
    let first_fits = auto_fits(&overflows[0]);
    let first_score = auto_score(&overflows[0], cross_axis);
    let mut has_fit = first_fits;
    let mut fit_score: i128 = first_score;
    let mut fit_placement = overflows[0].placement;
    let mut score: i128 = first_score;
    let mut placement = overflows[0].placement;
    let n = overflows.len();
    let mut k: usize = 1;
    proof {
        assert(overflows@.take(1)[0] == overflows@[0]);
    }
    while k < n
        invariant
            n == overflows@.len(),
            1 <= k <= n,
            has_fit == spec_auto_scan(overflows@.take(k as int), cross_axis).has_fit,
            fit_score == spec_auto_scan(overflows@.take(k as int), cross_axis).fit_score,
            fit_placement == spec_auto_scan(overflows@.take(k as int), cross_axis).fit_placement,
            score == spec_auto_scan(overflows@.take(k as int), cross_axis).score,
            placement == spec_auto_scan(overflows@.take(k as int), cross_axis).placement,
        decreases n - k,
    {
        let c_score = auto_score(&overflows[k], cross_axis);
        let c_fits = auto_fits(&overflows[k]);
        proof {
            assert(overflows@.take(k + 1 as int).drop_last() =~= overflows@.take(k as int));
            assert(overflows@.take(k + 1 as int).last() == overflows@[k as int]);
        }
        if c_fits && (!has_fit || c_score < fit_score) {
            fit_score = c_score;
            fit_placement = overflows[k].placement;
        }
        if c_fits {
            has_fit = true;
        }
        if c_score < score {
            score = c_score;
            placement = overflows[k].placement;
        }
        k = k + 1;
    }
    proof {
        assert(overflows@.take(n as int) =~= overflows@);
    }
    if has_fit {
        fit_placement
    } else {
        placement
    }
}

/// Chooses the placement with the most space available automatically,
/// without a preferred placement. An alternative to flipping.
pub struct AutoPlacement<Element, P> {
    options: AutoPlacementOptions,
    element: core::marker::PhantomData<Element>,
    platform: core::marker::PhantomData<P>,
}

impl<Element, P> AutoPlacement<Element, P> {
    /// Constructs a new instance of this middleware.
    pub fn new(options: AutoPlacementOptions) -> (r: Self)
        ensures
            r.spec_options() == options,
    {
        AutoPlacement {
            options,
            element: core::marker::PhantomData,
            platform: core::marker::PhantomData,
        }
    }

    /// The configured options.
    pub closed spec fn spec_options(self) -> AutoPlacementOptions {
        self.options
    }
}

impl<Element, P: Platform<Element>> Middleware<Element, P> for AutoPlacement<Element, P> {
    open spec fn inv(&self) -> bool {
        self.spec_options().wf()
    }

    open spec fn spec_name(&self) -> Seq<char> {
        "auto_placement"@
    }

    fn name(&self) -> (r: &'static str)
        ensures
            r@ == self.spec_name(),
    {
        AUTO_PLACEMENT_NAME
    }

    open spec fn spec_compute(&self, state: SpecMiddlewareState<Element, P>) -> SpecMiddlewareReturn {
        spec_auto_compute(self.spec_options(), state)
    }

    fn compute(&self, state: MiddlewareState<'_, Element, P>) -> (r: MiddlewareReturn)
        ensures
            r@ == self.spec_compute(state@),
            r@.wf(),
    {
        let cross_axis = match self.options.cross_axis {
            Some(b) => b,
            None => false,
        };
        let eff = match self.options.detect_overflow {
            Some(o) => o,
            None => DetectOverflowOptions::default(),
        };
        let rtl = state.platform.is_rtl(state.elements.floating);
        let candidates = auto_candidates(&self.options);
        let (prior, mut overflows) = auto_prior(state.middleware_data);

        if !(prior >= 0 && (prior as u64) < (candidates.len() as u64)) {
            return MiddlewareReturn { x: None, y: None, data: None, reset: None };
        }
        let current_index: usize = (prior as u64) as usize;
        let current = candidates[current_index];

        if state.placement != current {
            return MiddlewareReturn {
                x: None,
                y: None,
                data: None,
                reset: Some(
                    Reset::Value(ResetValue { placement: Some(candidates[0]), rects: None }),
                ),
            };
        }

        let overflow = detect_overflow(&state, &eff);
        let sides = get_alignment_sides(current, state.rects, rtl);
        let candidate = CandidateOverflow {
            placement: current,
            main: Some(overflow.side(current.side())),
            cross_start: Some(overflow.side(sides.0)),
            cross_end: Some(overflow.side(sides.1)),
        };
        overflows.push(candidate);

        let next_num: i64 = if prior == i64::MAX {
            i64::MAX
        } else {
            prior + 1
        };
        if (prior as u64) + 1 < (candidates.len() as u64) {
            let next_index: usize = ((prior as u64) + 1) as usize;
            let record = auto_record(next_num, overflows);
            return MiddlewareReturn {
                x: None,
                y: None,
                data: Some(record),
                reset: Some(
                    Reset::Value(
                        ResetValue { placement: Some(candidates[next_index]), rects: None },
                    ),
                ),
            };
        }

        let winner = auto_winner(&overflows, cross_axis);
        if winner != state.placement {
            let record = auto_record(next_num, overflows);
            MiddlewareReturn {
                x: None,
                y: None,
                data: Some(record),
                reset: Some(Reset::Value(ResetValue { placement: Some(winner), rects: None })),
            }
        } else {
            MiddlewareReturn { x: None, y: None, data: None, reset: None }
        }
    }
}

} // verus!
