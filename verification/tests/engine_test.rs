use std::cell::Cell;

use floating_ui::middleware::arrow::{Arrow, ArrowOptions};
use floating_ui::middleware::auto_placement::{AutoPlacement, AutoPlacementOptions};
use floating_ui::middleware::flip::{Flip, FlipOptions};
use floating_ui::middleware::hidden::{Hide, HideData, HideOptions, HideStrategy};
use floating_ui::middleware::inline::{Inline, InlineOptions};
use floating_ui::middleware::offset::{Offset, OffsetOptions, OffsetOptionsValues};
use floating_ui::middleware::shift::{LimitShiftOptions, Shift, ShiftOptions};
use floating_ui::middleware::size::{Size, SizeOptions};
use floating_ui::{
    compute_overflow, compute_position, merge_records, ComputePositionConfig,
    ComputePositionReturn, DataRecord, DataValue, Dimensions, ElementRects,
    GetClippingRectArgs, GetElementRectsArgs, Middleware, MiddlewareReturn, MiddlewareState,
    Placement, Platform, Rect, SideLength, Strategy,
};

#[derive(Clone, Debug)]
pub struct Element {}

pub const REFERENCE: Element = Element {};
pub const FLOATING: Element = Element {};

/// A platform with a configurable clipping rectangle; the reference is a
/// 100 by 100 square at a configurable origin, the floating element is 50 by
/// 50.
#[derive(Debug)]
pub struct FramePlatform {
    pub reference_origin: (i64, i64),
    pub clipping: Rect,
}

impl Platform<Element> for FramePlatform {
    fn get_element_rects(&self, _args: GetElementRectsArgs<Element>) -> ElementRects {
        ElementRects {
            reference: Rect {
                x: self.reference_origin.0,
                y: self.reference_origin.1,
                width: 100,
                height: 100,
            },
            floating: Rect { x: 0, y: 0, width: 50, height: 50 },
        }
    }

    fn get_clipping_rect(&self, _args: GetClippingRectArgs<Element>) -> Rect {
        self.clipping
    }

    fn get_dimensions(&self, _element: &Element) -> Dimensions {
        Dimensions { width: 10, height: 10 }
    }

    fn is_rtl(&self, _element: &Element) -> Option<bool> {
        None
    }

    fn get_client_rects(&self, _element: &Element) -> Vec<Rect> {
        Vec::new()
    }
}

/// A platform whose reference element spans two line fragments.
#[derive(Debug)]
pub struct FragmentPlatform {}

impl Platform<Element> for FragmentPlatform {
    fn get_element_rects(&self, _args: GetElementRectsArgs<Element>) -> ElementRects {
        ElementRects {
            reference: Rect { x: 0, y: 100, width: 160, height: 40 },
            floating: Rect { x: 0, y: 0, width: 50, height: 50 },
        }
    }

    fn get_clipping_rect(&self, _args: GetClippingRectArgs<Element>) -> Rect {
        Rect { x: 0, y: 0, width: 1000, height: 1000 }
    }

    fn get_dimensions(&self, _element: &Element) -> Dimensions {
        Dimensions { width: 10, height: 10 }
    }

    fn is_rtl(&self, _element: &Element) -> Option<bool> {
        None
    }

    fn get_client_rects(&self, _element: &Element) -> Vec<Rect> {
        vec![
            Rect { x: 100, y: 100, width: 60, height: 20 },
            Rect { x: 0, y: 120, width: 80, height: 20 },
        ]
    }
}

fn roomy_platform() -> FramePlatform {
    FramePlatform {
        reference_origin: (200, 200),
        clipping: Rect { x: 0, y: 0, width: 1000, height: 1000 },
    }
}

#[test]
fn test_identical_runs_agree() {
    let platform = roomy_platform();
    let first: ComputePositionReturn = compute_position(
        &REFERENCE,
        &FLOATING,
        ComputePositionConfig {
            platform: &platform,
            placement: Some(Placement::TopEnd),
            strategy: Some(Strategy::Fixed),
            middleware: Some(vec![Hide::new(HideOptions::default())]),
        },
    );
    let second: ComputePositionReturn = compute_position(
        &REFERENCE,
        &FLOATING,
        ComputePositionConfig {
            platform: &platform,
            placement: Some(Placement::TopEnd),
            strategy: Some(Strategy::Fixed),
            middleware: Some(vec![Hide::new(HideOptions::default())]),
        },
    );
    assert_eq!(first.x, second.x);
    assert_eq!(first.y, second.y);
    assert_eq!(first.placement, second.placement);
    assert_eq!(first.strategy, second.strategy);
    assert_eq!(first.middleware_data, second.middleware_data);
}

#[derive(Clone)]
struct DeltaMiddleware {
    name: &'static str,
    dx: i64,
    dy: i64,
}

impl<Element, P> Middleware<Element, P> for DeltaMiddleware {
    fn name(&self) -> &'static str {
        self.name
    }

    fn compute(&self, state: MiddlewareState<Element, P>) -> MiddlewareReturn {
        MiddlewareReturn {
            x: Some(state.x + self.dx),
            y: Some(state.y + self.dy),
            data: None,
            reset: None,
        }
    }
}

#[test]
fn test_delta_middleware_composes() {
    let platform = roomy_platform();
    let config = |mids: Vec<DeltaMiddleware>| ComputePositionConfig {
        platform: &platform,
        placement: None,
        strategy: None,
        middleware: Some(mids),
    };

    let split = compute_position(
        &REFERENCE,
        &FLOATING,
        config(vec![
            DeltaMiddleware { name: "one", dx: 7, dy: -3 },
            DeltaMiddleware { name: "two", dx: -2, dy: 11 },
        ]),
    );
    let combined = compute_position(
        &REFERENCE,
        &FLOATING,
        config(vec![DeltaMiddleware { name: "both", dx: 5, dy: 8 }]),
    );
    let plain = compute_position(&REFERENCE, &FLOATING, config(vec![]));

    assert_eq!((split.x, split.y), (combined.x, combined.y));
    assert_eq!((split.x, split.y), (plain.x + 5, plain.y + 8));
    assert_eq!(split.placement, plain.placement);
    assert_eq!(split.middleware_data, plain.middleware_data);
}

#[test]
fn test_merge_keeps_earlier_fields() {
    let mut older = DataRecord::new();
    older.set("a", DataValue::Number(1));
    let mut newer = DataRecord::new();
    newer.set("a", DataValue::Null);
    newer.set("b", DataValue::Number(2));

    let merged = merge_records(&older, &newer);

    let mut expected = DataRecord::new();
    expected.set("a", DataValue::Number(1));
    expected.set("b", DataValue::Number(2));
    assert_eq!(merged, expected);
}

/// Writes `{a: 1}` on its first run and requests a re-run; on the second run
/// it writes `{a: null, b: 2}` under the same name.
#[derive(Clone)]
struct TwoPassMiddleware {}

impl<Element, P> Middleware<Element, P> for TwoPassMiddleware {
    fn name(&self) -> &'static str {
        "two_pass"
    }

    fn compute(&self, state: MiddlewareState<Element, P>) -> MiddlewareReturn {
        match state.middleware_data.get("two_pass") {
            None => {
                let mut record = DataRecord::new();
                record.set("a", DataValue::Number(1));
                MiddlewareReturn {
                    x: None,
                    y: None,
                    data: Some(record),
                    reset: Some(floating_ui::Reset::True),
                }
            },
            Some(_) => {
                let mut record = DataRecord::new();
                record.set("a", DataValue::Null);
                record.set("b", DataValue::Number(2));
                MiddlewareReturn { x: None, y: None, data: Some(record), reset: None }
            },
        }
    }
}

#[test]
fn test_same_name_data_merges() {
    let platform = roomy_platform();
    let ComputePositionReturn { middleware_data, .. } = compute_position(
        &REFERENCE,
        &FLOATING,
        ComputePositionConfig {
            platform: &platform,
            placement: None,
            strategy: None,
            middleware: Some(vec![TwoPassMiddleware {}]),
        },
    );

    let mut expected = DataRecord::new();
    expected.set("a", DataValue::Number(1));
    expected.set("b", DataValue::Number(2));
    assert_eq!(middleware_data.get("two_pass"), Some(&expected));
}

/// Counts its invocations and always requests a reset.
#[derive(Clone)]
struct AlwaysReset {
    calls: std::rc::Rc<Cell<u64>>,
}

impl<Element, P> Middleware<Element, P> for AlwaysReset {
    fn name(&self) -> &'static str {
        "always_reset"
    }

    fn compute(&self, _state: MiddlewareState<Element, P>) -> MiddlewareReturn {
        self.calls.set(self.calls.get() + 1);
        MiddlewareReturn {
            x: None,
            y: None,
            data: None,
            reset: Some(floating_ui::Reset::True),
        }
    }
}

#[test]
fn test_reset_budget_bounds_reruns() {
    let platform = roomy_platform();
    let calls = std::rc::Rc::new(Cell::new(0));
    let ComputePositionReturn { .. } = compute_position(
        &REFERENCE,
        &FLOATING,
        ComputePositionConfig {
            platform: &platform,
            placement: None,
            strategy: None,
            middleware: Some(vec![AlwaysReset { calls: calls.clone() }]),
        },
    );
    // The reset budget honors 51 resets (counts 0 through 50) and then the
    // final pass runs the middleware once more without restarting.
    assert_eq!(calls.get(), 52);
}

#[test]
fn test_flip_selects_opposite_side() {
    // The reference sits at the very top of the clipping area: a floating
    // element placed above it overflows fully, below it fits.
    let platform = FramePlatform {
        reference_origin: (200, 0),
        clipping: Rect { x: 0, y: 0, width: 1000, height: 1000 },
    };
    let ComputePositionReturn { x, y, placement, .. } = compute_position(
        &REFERENCE,
        &FLOATING,
        ComputePositionConfig {
            platform: &platform,
            placement: Some(Placement::Top),
            strategy: None,
            middleware: Some(vec![Flip::new(FlipOptions::default())]),
        },
    );
    assert_eq!(placement, Placement::Bottom);
    // The coordinates equal the initializer's output for the flipped
    // placement: centered, flush under the reference.
    assert_eq!((x, y), (225, 100));
}

#[test]
fn test_flip_keeps_placement_with_room() {
    let platform = roomy_platform();
    let ComputePositionReturn { x, y, placement, .. } = compute_position(
        &REFERENCE,
        &FLOATING,
        ComputePositionConfig {
            platform: &platform,
            placement: Some(Placement::Top),
            strategy: None,
            middleware: Some(vec![Flip::new(FlipOptions::default())]),
        },
    );
    assert_eq!(placement, Placement::Top);
    assert_eq!((x, y), (225, 150));
}

#[test]
fn test_offset_moves_away_from_reference() {
    let platform = roomy_platform();
    let config = |mids: Vec<Offset<Element, FramePlatform>>| ComputePositionConfig {
        platform: &platform,
        placement: Some(Placement::Top),
        strategy: None,
        middleware: Some(mids),
    };
    let plain = compute_position(&REFERENCE, &FLOATING, config(vec![]));
    let moved = compute_position(
        &REFERENCE,
        &FLOATING,
        config(vec![Offset::new(OffsetOptions::Value(10))]),
    );
    // Positive main-axis offset moves the floating element further from the
    // reference: upwards for a Top placement.
    assert_eq!((moved.x, moved.y), (plain.x, plain.y - 10));

    let cross = compute_position(
        &REFERENCE,
        &FLOATING,
        config(vec![Offset::new(OffsetOptions::Values(OffsetOptionsValues {
            main_axis: Some(10),
            cross_axis: Some(4),
            alignment_axis: None,
        }))]),
    );
    assert_eq!((cross.x, cross.y), (plain.x + 4, plain.y - 10));
}

#[test]
fn test_overflow_is_zero_inside_identical_clipping() {
    let rect = Rect { x: 10, y: 20, width: 300, height: 400 };
    let zero = SideLength { top: 0, right: 0, bottom: 0, left: 0 };
    let overflow = compute_overflow(&rect, &rect, &zero);
    assert_eq!(overflow, SideLength { top: 0, right: 0, bottom: 0, left: 0 });
}

#[test]
fn test_overflow_reports_shrunken_side() {
    let rect = Rect { x: 10, y: 20, width: 300, height: 400 };
    let zero = SideLength { top: 0, right: 0, bottom: 0, left: 0 };
    // Shrink the clipping rectangle by 10 at the top.
    let clipping = Rect { x: 10, y: 30, width: 300, height: 390 };
    let overflow = compute_overflow(&clipping, &rect, &zero);
    assert_eq!(overflow, SideLength { top: 10, right: 0, bottom: 0, left: 0 });
}

#[test]
fn test_shift_pushes_back_into_view() {
    // The reference sits at the left edge; a floating element placed Bottom
    // is centered at x = -5 and pokes 5 out of the clipping area, so shift
    // moves it to x = 0.
    let platform = FramePlatform {
        reference_origin: (-30, 200),
        clipping: Rect { x: 0, y: 0, width: 1000, height: 1000 },
    };
    let ComputePositionReturn { x, y, middleware_data, .. } = compute_position(
        &REFERENCE,
        &FLOATING,
        ComputePositionConfig {
            platform: &platform,
            placement: Some(Placement::Bottom),
            strategy: None,
            middleware: Some(vec![Shift::new(ShiftOptions::default())]),
        },
    );
    assert_eq!((x, y), (0, 300));
    let mut expected = DataRecord::new();
    expected.set("x", DataValue::Number(5));
    expected.set("y", DataValue::Number(0));
    assert_eq!(middleware_data.get("shift"), Some(&expected));
}

#[test]
fn test_limiter_keeps_element_attached() {
    // Without a limiter the shift would move the floating element to x = 0,
    // fully detached from a reference that ends at x = -20.
    let platform = FramePlatform {
        reference_origin: (-120, 200),
        clipping: Rect { x: 0, y: 0, width: 1000, height: 1000 },
    };
    let options = ShiftOptions {
        limiter: Some(LimitShiftOptions { offset: None, main_axis: None, cross_axis: None }),
        ..ShiftOptions::default()
    };
    let ComputePositionReturn { x, y, .. } = compute_position(
        &REFERENCE,
        &FLOATING,
        ComputePositionConfig {
            platform: &platform,
            placement: Some(Placement::Bottom),
            strategy: None,
            middleware: Some(vec![Shift::new(options)]),
        },
    );
    assert_eq!((x, y), (-20, 300));
}

#[test]
fn test_offset_records_applied_deltas() {
    let platform = roomy_platform();
    let ComputePositionReturn { middleware_data, .. } = compute_position(
        &REFERENCE,
        &FLOATING,
        ComputePositionConfig {
            platform: &platform,
            placement: Some(Placement::Top),
            strategy: None,
            middleware: Some(vec![Offset::new(OffsetOptions::Value(10))]),
        },
    );
    let mut expected = DataRecord::new();
    expected.set("x", DataValue::Number(0));
    expected.set("y", DataValue::Number(-10));
    assert_eq!(middleware_data.get("offset"), Some(&expected));
}

#[test]
fn test_arrow_centers_over_reference() {
    let platform = roomy_platform();
    let arrow_element = Element {};
    let ComputePositionReturn { x, y, middleware_data, .. } = compute_position(
        &REFERENCE,
        &FLOATING,
        ComputePositionConfig {
            platform: &platform,
            placement: Some(Placement::Bottom),
            strategy: None,
            middleware: Some(vec![Arrow::new(ArrowOptions::new(arrow_element))]),
        },
    );
    assert_eq!((x, y), (225, 300));
    // The floating element (50 wide) is centered on the reference; the
    // 10-wide arrow sits at offset 20, perfectly centered.
    let mut expected = DataRecord::new();
    expected.set("x", DataValue::Number(20));
    expected.set("center_offset", DataValue::Number(0));
    assert_eq!(middleware_data.get("arrow"), Some(&expected));
}

#[test]
fn test_auto_placement_picks_most_space() {
    // The reference touches the top edge: above it there is no room, below
    // it the most.
    let platform = FramePlatform {
        reference_origin: (200, 0),
        clipping: Rect { x: 0, y: 0, width: 1000, height: 1000 },
    };
    let ComputePositionReturn { x, y, placement, .. } = compute_position(
        &REFERENCE,
        &FLOATING,
        ComputePositionConfig {
            platform: &platform,
            placement: Some(Placement::Top),
            strategy: None,
            middleware: Some(vec![AutoPlacement::new(AutoPlacementOptions::default())]),
        },
    );
    assert_eq!(placement, Placement::Bottom);
    assert_eq!((x, y), (225, 100));
}

#[test]
fn test_size_reports_available_space() {
    let platform = roomy_platform();
    let ComputePositionReturn { middleware_data, .. } = compute_position(
        &REFERENCE,
        &FLOATING,
        ComputePositionConfig {
            platform: &platform,
            placement: Some(Placement::Bottom),
            strategy: None,
            middleware: Some(vec![Size::new(SizeOptions::default())]),
        },
    );
    // The floating element sits at (225, 300): 700 pixels remain below it
    // and 775 to its right inside the 1000-square clipping area.
    let mut expected = DataRecord::new();
    expected.set("available_width", DataValue::Number(775));
    expected.set("available_height", DataValue::Number(700));
    assert_eq!(middleware_data.get("size"), Some(&expected));
}

#[test]
fn test_inline_uses_nearest_fragment() {
    // For a Bottom placement the last line fragment is the effective
    // reference.
    let platform = FragmentPlatform {};
    let ComputePositionReturn { x, y, .. } = compute_position(
        &REFERENCE,
        &FLOATING,
        ComputePositionConfig {
            platform: &platform,
            placement: Some(Placement::Bottom),
            strategy: None,
            middleware: Some(vec![Inline::new(InlineOptions::default())]),
        },
    );
    assert_eq!((x, y), (15, 140));
}

#[test]
fn test_inline_uses_fragment_under_anchor() {
    let platform = FragmentPlatform {};
    let options = InlineOptions { x: Some(110), y: Some(105), padding: None };
    let ComputePositionReturn { x, y, .. } = compute_position(
        &REFERENCE,
        &FLOATING,
        ComputePositionConfig {
            platform: &platform,
            placement: Some(Placement::Bottom),
            strategy: None,
            middleware: Some(vec![Inline::new(options)]),
        },
    );
    assert_eq!((x, y), (105, 120));
}

#[test]
fn test_hide_reports_visible_reference() {
    let platform = roomy_platform();
    let ComputePositionReturn { middleware_data, x, y, .. } = compute_position(
        &REFERENCE,
        &FLOATING,
        ComputePositionConfig {
            platform: &platform,
            placement: None,
            strategy: None,
            middleware: Some(vec![Hide::new(HideOptions::default())]),
        },
    );
    // Bottom placement of a 50-wide floating element under a 100-square
    // reference at (200, 200).
    assert_eq!((x, y), (225, 300));

    // Reference at (200, 200), 100 by 100, inside a 1000-square clipping
    // area: overflow is negative on every side, and the reference is fully
    // clipped on none once reduced by its own lengths.
    let expected = HideData {
        reference_hidden: Some(false),
        reference_hidden_offsets: Some(SideLength {
            top: -300,
            right: -800,
            bottom: -800,
            left: -300,
        }),
        escaped: None,
        escaped_offsets: None,
    }
    .to_record();
    assert_eq!(middleware_data.get("hide"), Some(&expected));
}

#[test]
fn test_hide_reports_clipped_reference() {
    // The clipping area lies entirely to the right of the reference.
    let platform = FramePlatform {
        reference_origin: (0, 0),
        clipping: Rect { x: 500, y: 0, width: 1000, height: 1000 },
    };
    let ComputePositionReturn { middleware_data, .. } = compute_position(
        &REFERENCE,
        &FLOATING,
        ComputePositionConfig {
            platform: &platform,
            placement: None,
            strategy: None,
            middleware: Some(vec![
                Hide::new(HideOptions::default().strategy(HideStrategy::ReferenceHidden)),
            ]),
        },
    );
    let record = middleware_data.get("hide").expect("hide data should be stored");
    assert_eq!(record.get("reference_hidden"), Some(&DataValue::Bool(true)));
}
