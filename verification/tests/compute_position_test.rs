use floating_ui::{
    compute_position, ComputePositionConfig, ComputePositionReturn, DataRecord, DataValue,
    Dimensions, ElementRects, GetClippingRectArgs, GetElementRectsArgs, Middleware,
    MiddlewareReturn, MiddlewareState, Placement, Platform, Rect, Strategy,
};

#[derive(Clone, Debug)]
pub struct Element {}

#[derive(Clone, Debug)]
pub struct Window {}

pub const REFERENCE: Element = Element {};
pub const FLOATING: Element = Element {};
pub const REFERENCE_RECT: Rect = Rect { x: 0, y: 0, width: 100, height: 100 };
pub const FLOATING_RECT: Rect = Rect { x: 0, y: 0, width: 50, height: 50 };

#[derive(Debug)]
pub struct TestPlatform {}

impl Platform<Element> for TestPlatform {
    fn get_element_rects(&self, _args: GetElementRectsArgs<Element>) -> ElementRects {
        ElementRects { reference: REFERENCE_RECT, floating: FLOATING_RECT }
    }

    fn get_clipping_rect(&self, _args: GetClippingRectArgs<Element>) -> Rect {
        Rect { x: 0, y: 0, width: 1000, height: 1000 }
    }

    fn get_dimensions(&self, _element: &Element) -> Dimensions {
        Dimensions { width: 10, height: 10 }
    }

    fn is_rtl(&self, _element: &Element) -> Option<bool> {
        None
    }

    fn get_client_rects(&self, _element: &Element) -> Vec<Rect> {
        Vec::new()
    }
}

pub const PLATFORM: TestPlatform = TestPlatform {};

#[test]
fn test_returned_data() {
    #[derive(Clone)]
    struct CustomMiddleware {}

    impl<Element, P> Middleware<Element, P> for CustomMiddleware {
        fn name(&self) -> &'static str {
            "custom"
        }

        fn compute(&self, _state: MiddlewareState<Element, P>) -> MiddlewareReturn {
            let mut record = DataRecord::new();
            record.set("property", DataValue::Bool(true));
            MiddlewareReturn { x: None, y: None, data: Some(record), reset: None }
        }
    }

    let ComputePositionReturn { x, y, placement, strategy, middleware_data } = compute_position(
        &REFERENCE,
        &FLOATING,
        ComputePositionConfig {
            platform: &PLATFORM,
            placement: Some(Placement::Top),
            strategy: None,
            middleware: Some(vec![CustomMiddleware {}]),
        },
    );

    let mut expected = DataRecord::new();
    expected.set("property", DataValue::Bool(true));

    assert_eq!(x, 25);
    assert_eq!(y, -50);
    assert_eq!(placement, Placement::Top);
    assert_eq!(strategy, Strategy::Absolute);
    assert_eq!(middleware_data.get("custom"), Some(&expected));
}

#[test]
fn test_middleware() {
    #[derive(Clone)]
    struct TestMiddleware {}

    impl<Element, P> Middleware<Element, P> for TestMiddleware {
        fn name(&self) -> &'static str {
            "test"
        }

        fn compute(&self, state: MiddlewareState<Element, P>) -> MiddlewareReturn {
            MiddlewareReturn {
                x: Some(state.x + 1),
                y: Some(state.y + 1),
                data: None,
                reset: None,
            }
        }
    }

    let ComputePositionReturn { x, y, .. } = compute_position(
        &REFERENCE,
        &FLOATING,
        ComputePositionConfig {
            platform: &PLATFORM,
            placement: None,
            strategy: None,
            middleware: Option::<Vec<TestMiddleware>>::None,
        },
    );

    let ComputePositionReturn { x: x2, y: y2, .. } = compute_position(
        &REFERENCE,
        &FLOATING,
        ComputePositionConfig {
            platform: &PLATFORM,
            placement: None,
            strategy: None,
            middleware: Some(vec![TestMiddleware {}]),
        },
    );

    assert_eq!((x2, y2), (x + 1, y + 1));
}

#[test]
fn test_middleware_data() {
    #[derive(Clone)]
    struct TestMiddleware {}

    impl<Element, P> Middleware<Element, P> for TestMiddleware {
        fn name(&self) -> &'static str {
            "test"
        }

        fn compute(&self, _state: MiddlewareState<Element, P>) -> MiddlewareReturn {
            let mut record = DataRecord::new();
            record.set("hello", DataValue::Bool(true));
            MiddlewareReturn { x: None, y: None, data: Some(record), reset: None }
        }
    }

    let ComputePositionReturn { middleware_data, .. } = compute_position(
        &REFERENCE,
        &FLOATING,
        ComputePositionConfig {
            platform: &PLATFORM,
            placement: None,
            strategy: None,
            middleware: Some(vec![TestMiddleware {}]),
        },
    );

    let mut expected = DataRecord::new();
    expected.set("hello", DataValue::Bool(true));
    assert_eq!(middleware_data.get("test"), Some(&expected));
}
