use bevy_math::Vec2;
use bevy_wasm_touch_fix::check_canvas_offset;
use bevy_wasm_touch_fix::Diagnostic;
use bevy_wasm_touch_fix::OffsetCheck;
use bevy_wasm_touch_fix::PrimaryCanvasId;
use bevy_wasm_touch_fix::TouchOffset;
use bevy_wasm_touch_fix::TouchOffsetChangeEvent;
use bevy_wasm_touch_fix::FAILURE_REPORT_LIMIT;

fn failed(canvas_id: &str) -> Diagnostic {
    Diagnostic::MeasurementFailed { canvas_id: canvas_id.to_string() }
}

#[test]
fn default_canvas_id_is_main_canvas() {
    assert_eq!(PrimaryCanvasId::default().0, "main-canvas");
}

#[test]
fn failure_report_limit_is_ten() {
    assert_eq!(FAILURE_REPORT_LIMIT, 10);
}

#[test]
fn first_measurement_is_stored_and_reported() {
    let id = PrimaryCanvasId::default();
    let mut offset = TouchOffset(Vec2::ZERO);
    let mut errors = 0u32;

    let report = check_canvas_offset(&id, &mut offset, &mut errors, Some(Vec2::new(10.0, 20.0)));

    assert_eq!(
        report,
        OffsetCheck {
            change_event: Some(TouchOffsetChangeEvent(Vec2::new(10.0, 20.0))),
            diagnostic: Diagnostic::Quiet,
        }
    );
    assert_eq!(offset, TouchOffset(Vec2::new(10.0, 20.0)));
    assert_eq!(errors, 0);
}

#[test]
fn repeated_measurement_is_reported_once() {
    let id = PrimaryCanvasId::default();
    let mut offset = TouchOffset(Vec2::new(3.0, 4.0));
    let mut errors = 0u32;
    let measured = Vec2::new(-7.5, 120.25);

    let first = check_canvas_offset(&id, &mut offset, &mut errors, Some(measured));
    let second = check_canvas_offset(&id, &mut offset, &mut errors, Some(measured));
    let third = check_canvas_offset(&id, &mut offset, &mut errors, Some(measured));

    assert_eq!(first.change_event, Some(TouchOffsetChangeEvent(measured)));
    assert_eq!(second.change_event, None);
    assert_eq!(third.change_event, None);
    assert_eq!(second.diagnostic, Diagnostic::Quiet);
    assert_eq!(offset.0, measured);
    assert_eq!(errors, 0);
}

#[test]
fn measurement_equal_to_stored_offset_changes_nothing() {
    let id = PrimaryCanvasId::default();
    let mut offset = TouchOffset(Vec2::new(10.0, 20.0));
    let mut errors = 4u32;

    let report = check_canvas_offset(&id, &mut offset, &mut errors, Some(Vec2::new(10.0, 20.0)));

    assert_eq!(report, OffsetCheck { change_event: None, diagnostic: Diagnostic::Quiet });
    assert_eq!(offset.0, Vec2::new(10.0, 20.0));
    assert_eq!(errors, 4);
}

#[test]
fn change_on_one_axis_is_a_change() {
    let id = PrimaryCanvasId::default();
    let mut offset = TouchOffset(Vec2::new(10.0, 20.0));
    let mut errors = 0u32;

    let moved_x = check_canvas_offset(&id, &mut offset, &mut errors, Some(Vec2::new(11.0, 20.0)));
    assert_eq!(moved_x.change_event, Some(TouchOffsetChangeEvent(Vec2::new(11.0, 20.0))));
    assert_eq!(offset.0, Vec2::new(11.0, 20.0));

    let moved_y = check_canvas_offset(&id, &mut offset, &mut errors, Some(Vec2::new(11.0, 20.5)));
    assert_eq!(moved_y.change_event, Some(TouchOffsetChangeEvent(Vec2::new(11.0, 20.5))));
    assert_eq!(offset.0, Vec2::new(11.0, 20.5));
}

#[test]
fn returning_to_an_earlier_offset_is_reported_again() {
    let id = PrimaryCanvasId::default();
    let mut offset = TouchOffset(Vec2::ZERO);
    let mut errors = 0u32;
    let a = Vec2::new(1.0, 2.0);
    let b = Vec2::new(5.0, 6.0);

    let reports = [
        check_canvas_offset(&id, &mut offset, &mut errors, Some(a)),
        check_canvas_offset(&id, &mut offset, &mut errors, Some(b)),
        check_canvas_offset(&id, &mut offset, &mut errors, Some(b)),
        check_canvas_offset(&id, &mut offset, &mut errors, Some(a)),
    ];

    assert_eq!(reports[0].change_event, Some(TouchOffsetChangeEvent(a)));
    assert_eq!(reports[1].change_event, Some(TouchOffsetChangeEvent(b)));
    assert_eq!(reports[2].change_event, None);
    assert_eq!(reports[3].change_event, Some(TouchOffsetChangeEvent(a)));
    assert_eq!(offset.0, a);
}

#[test]
fn negative_zero_does_not_differ_from_zero() {
    let id = PrimaryCanvasId::default();
    let mut offset = TouchOffset(Vec2::ZERO);
    let mut errors = 0u32;

    let report = check_canvas_offset(&id, &mut offset, &mut errors, Some(Vec2::new(-0.0, -0.0)));

    assert_eq!(report.change_event, None);
    assert!(offset.0.x.is_sign_positive());
    assert!(offset.0.y.is_sign_positive());
}

#[test]
fn nan_measurement_differs_from_itself() {
    let id = PrimaryCanvasId::default();
    let mut offset = TouchOffset(Vec2::ZERO);
    let mut errors = 0u32;
    let measured = Vec2::new(f32::NAN, 1.0);

    let first = check_canvas_offset(&id, &mut offset, &mut errors, Some(measured));
    let second = check_canvas_offset(&id, &mut offset, &mut errors, Some(measured));

    assert!(first.change_event.is_some());
    assert!(second.change_event.is_some());
    assert!(offset.0.x.is_nan());
    assert_eq!(offset.0.y, 1.0);
}

#[test]
fn fifteen_failures_are_reported_nine_times_and_silenced_once() {
    let id = PrimaryCanvasId::default();
    let mut offset = TouchOffset(Vec2::new(10.0, 20.0));
    let mut errors = 0u32;

    for nth in 1u32..=15 {
        let report = check_canvas_offset(&id, &mut offset, &mut errors, None);
        let expected = if nth <= 9 {
            failed("main-canvas")
        } else if nth == 10 {
            Diagnostic::ReportsSilenced
        } else {
            Diagnostic::Quiet
        };
        assert_eq!(report.diagnostic, expected);
        assert_eq!(report.change_event, None);
        assert_eq!(errors, nth);
    }
    assert_eq!(offset.0, Vec2::new(10.0, 20.0));
}

#[test]
fn failure_report_names_the_configured_canvas() {
    let id = PrimaryCanvasId("game-view".to_string());
    let mut offset = TouchOffset(Vec2::ZERO);
    let mut errors = 0u32;

    let report = check_canvas_offset(&id, &mut offset, &mut errors, None);

    assert_eq!(report.diagnostic, failed("game-view"));
    assert_eq!(errors, 1);
}

#[test]
fn ninth_failure_is_reported_and_tenth_is_the_notice() {
    let id = PrimaryCanvasId::default();
    let mut offset = TouchOffset(Vec2::ZERO);
    let mut errors = 8u32;

    let ninth = check_canvas_offset(&id, &mut offset, &mut errors, None);
    assert_eq!(ninth.diagnostic, failed("main-canvas"));
    assert_eq!(errors, 9);

    let tenth = check_canvas_offset(&id, &mut offset, &mut errors, None);
    assert_eq!(tenth.diagnostic, Diagnostic::ReportsSilenced);
    assert_eq!(errors, 10);

    let eleventh = check_canvas_offset(&id, &mut offset, &mut errors, None);
    assert_eq!(eleventh.diagnostic, Diagnostic::Quiet);
    assert_eq!(errors, 11);
}

#[test]
fn success_does_not_reset_the_failure_count() {
    let id = PrimaryCanvasId::default();
    let mut offset = TouchOffset(Vec2::ZERO);
    let mut errors = 0u32;

    for _ in 0..9 {
        check_canvas_offset(&id, &mut offset, &mut errors, None);
    }
    let success = check_canvas_offset(&id, &mut offset, &mut errors, Some(Vec2::new(1.0, 1.0)));
    assert_eq!(success.diagnostic, Diagnostic::Quiet);
    assert_eq!(errors, 9);

    let tenth = check_canvas_offset(&id, &mut offset, &mut errors, None);
    assert_eq!(tenth.diagnostic, Diagnostic::ReportsSilenced);
    let later = check_canvas_offset(&id, &mut offset, &mut errors, None);
    assert_eq!(later.diagnostic, Diagnostic::Quiet);
    assert_eq!(errors, 11);
}

#[test]
fn failure_keeps_the_stored_offset() {
    let id = PrimaryCanvasId::default();
    let mut offset = TouchOffset(Vec2::new(42.0, -3.5));
    let mut errors = 0u32;

    let report = check_canvas_offset(&id, &mut offset, &mut errors, None);

    assert_eq!(report.change_event, None);
    assert_eq!(offset.0, Vec2::new(42.0, -3.5));
}

#[test]
fn failure_count_stops_at_its_maximum() {
    let id = PrimaryCanvasId::default();
    let mut offset = TouchOffset(Vec2::ZERO);
    let mut errors = u32::MAX - 1;

    let report = check_canvas_offset(&id, &mut offset, &mut errors, None);
    assert_eq!(report.diagnostic, Diagnostic::Quiet);
    assert_eq!(errors, u32::MAX);

    let report = check_canvas_offset(&id, &mut offset, &mut errors, None);
    assert_eq!(report.diagnostic, Diagnostic::Quiet);
    assert_eq!(errors, u32::MAX);
}
