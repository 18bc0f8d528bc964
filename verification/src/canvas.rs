//! The per-frame check of the canvas position.

use crate::offset::differ;
use crate::offset::offsets_differ;
use crate::offset::PrimaryCanvasId;
use crate::offset::TouchOffset;
use crate::offset::TouchOffsetChangeEvent;
use bevy_math::Vec2;
use vstd::prelude::*;

verus! {

/// Failed measurements are reported one by one while their count is below
/// this limit. The failure that reaches it is answered with a single notice
/// that further reports are withheld.
pub const FAILURE_REPORT_LIMIT: u32 = 10;

/// What the application should log after a check.
#[derive(Debug, Clone, PartialEq, Eq)]
pub enum Diagnostic {
    /// Nothing.
    Quiet,
    /// The canvas with this id could not be measured.
    MeasurementFailed { canvas_id: String },
    /// Measurements keep failing; this kind of failure is no longer reported.
    ReportsSilenced,
}

/// What one check of the canvas position asks the application to do.
#[derive(Debug, Clone, PartialEq)]
pub struct OffsetCheck {
    /// The event to send, present exactly when the stored offset changed.
    pub change_event: Option<TouchOffsetChangeEvent>,
    /// The diagnostic to log.
    pub diagnostic: Diagnostic,
}

/// The state and the report that a check leaves behind.
pub struct Checked {
    pub offset: Vec2,
    pub error_count: u32,
    pub report: OffsetCheck,
}

/// The failure count after one more failed measurement. The count stops at
/// `u32::MAX`, far beyond the limit, so that counting never overflows.
pub open spec fn count_after_failure(error_count: u32) -> u32 {
    if error_count < u32::MAX {
        (error_count + 1) as u32
    } else {
        error_count
    }
}

/// The diagnostic for a failed measurement that brought the count to
/// `error_count`.
pub open spec fn failure_diagnostic(error_count: u32, canvas_id: String) -> Diagnostic {
    if error_count < FAILURE_REPORT_LIMIT {
        Diagnostic::MeasurementFailed { canvas_id }
    } else if error_count == FAILURE_REPORT_LIMIT {
        Diagnostic::ReportsSilenced
    } else {
        Diagnostic::Quiet
    }
}

/// One check, as a function of the configured id, the stored offset, the
/// failure count and this frame's measurement.
pub open spec fn checked(
    canvas_id: String,
    offset: Vec2,
    error_count: u32,
    measured: Option<Vec2>,
) -> Checked {
    match measured {
        Some(current) => if offsets_differ(current, offset) {
            Checked {
                offset: current,
                error_count,
                report: OffsetCheck {
                    change_event: Some(TouchOffsetChangeEvent(current)),
                    diagnostic: Diagnostic::Quiet,
                },
            }
        } else {
            Checked {
                offset,
                error_count,
                report: OffsetCheck { change_event: None, diagnostic: Diagnostic::Quiet },
            }
        },
        None => Checked {
            offset,
            error_count: count_after_failure(error_count),
            report: OffsetCheck {
                change_event: None,
                diagnostic: failure_diagnostic(count_after_failure(error_count), canvas_id),
            },
        },
    }
}

/// Checks this frame's measurement of the canvas position against the stored
/// offset.
///
/// `measured` is the position of the canvas named by `primary_canvas_id`, or
/// `None` when the canvas was not found or could not be measured.
///
/// A measurement that differs from the stored offset replaces it and is
/// reported as a change event; one that does not changes nothing. A failed
/// measurement leaves the offset alone and counts: the first failures are
/// each reported with the canvas id, the one that reaches
/// [`FAILURE_REPORT_LIMIT`] is answered with a notice that reports stop, and
/// later ones are passed over in silence. A successful measurement does not
/// reset the count.
pub fn check_canvas_offset(
    primary_canvas_id: &PrimaryCanvasId,
    touch_offset: &mut TouchOffset,
    error_count: &mut u32,
    measured: Option<Vec2>,
) -> (report: OffsetCheck)
    ensures
        ({
            let after = checked(
                primary_canvas_id.0,
                old(touch_offset).0,
                *old(error_count),
                measured,
            );
            &&& final(touch_offset).0 == after.offset
            &&& *final(error_count) == after.error_count
            &&& report == after.report
        }),
{
    match measured {
        Some(current) => {
            if differ(&current, &touch_offset.0) {
                touch_offset.0 = current;
                OffsetCheck {
                    change_event: Some(TouchOffsetChangeEvent(current)),
                    diagnostic: Diagnostic::Quiet,
                }
            } else {
                OffsetCheck { change_event: None, diagnostic: Diagnostic::Quiet }
            }
        },
        None => {
            if *error_count < u32::MAX {
                *error_count = *error_count + 1;
            }
            let diagnostic = if *error_count < FAILURE_REPORT_LIMIT {
                Diagnostic::MeasurementFailed { canvas_id: primary_canvas_id.0.clone() }
            } else if *error_count == FAILURE_REPORT_LIMIT {
                Diagnostic::ReportsSilenced
            } else {
                Diagnostic::Quiet
            };
            OffsetCheck { change_event: None, diagnostic }
        },
    }
}

/// The failure count after `failures` failed measurements in a row.
pub open spec fn count_after_failures(error_count: u32, failures: nat) -> u32
    decreases failures,
{
    if failures == 0 {
        error_count
    } else {
        count_after_failure(count_after_failures(error_count, (failures - 1) as nat))
    }
}

/// A measurement is reported as a change exactly when it differs from the
/// stored offset, and then it is the measurement that is stored and
/// reported. A failed measurement never changes or reports an offset.
pub proof fn change_is_reported_when_offset_differs(
    canvas_id: String,
    offset: Vec2,
    error_count: u32,
    measured: Option<Vec2>,
)
    ensures
        ({
            let after = checked(canvas_id, offset, error_count, measured);
            &&& after.report.change_event is Some <==> measured is Some && offsets_differ(
                measured->0,
                offset,
            )
            &&& after.report.change_event is Some ==> after.offset == measured->0
                && after.report.change_event == Some(TouchOffsetChangeEvent(measured->0))
            &&& after.report.change_event is None ==> after.offset == offset
        }),
{
}

/// When the same measurement comes in twice in a row, the first check
/// reports a change only if the measurement differs from what was stored
/// before, and the second check reports none and leaves the state of the
/// first as it is. After either check the measurement does not differ from
/// the stored offset, so the same holds however often it comes in again.
///
/// This is stated for measurements that do not differ from themselves, which
/// leaves out those with a NaN coordinate.
pub proof fn repeated_measurement_is_not_reported(
    canvas_id: String,
    offset: Vec2,
    error_count: u32,
    measured: Vec2,
)
    requires
        !offsets_differ(measured, measured),
    ensures
        ({
            let first = checked(canvas_id, offset, error_count, Some(measured));
            let second = checked(canvas_id, first.offset, first.error_count, Some(measured));
            &&& first.report.change_event is Some <==> offsets_differ(measured, offset)
            &&& !offsets_differ(measured, first.offset)
            &&& second.report.change_event is None
            &&& second.report.diagnostic == Diagnostic::Quiet
            &&& second.offset == first.offset
            &&& second.error_count == first.error_count
        }),
{
}

/// A successful measurement neither counts as a failure nor resets the
/// count, and asks for no diagnostic.
pub proof fn success_keeps_failure_count(
    canvas_id: String,
    offset: Vec2,
    error_count: u32,
    measured: Vec2,
)
    ensures
        checked(canvas_id, offset, error_count, Some(measured)).error_count == error_count,
        checked(canvas_id, offset, error_count, Some(measured)).report.diagnostic
            == Diagnostic::Quiet,
{
}

/// After `failures` failed measurements in a row the count has grown by
/// `failures`, up to `u32::MAX` where it stays.
pub proof fn count_after_failures_is_capped_sum(error_count: u32, failures: nat)
    ensures
        count_after_failures(error_count, failures) == if error_count + failures <= u32::MAX {
            error_count + failures
        } else {
            u32::MAX as int
        },
    decreases failures,
{
    if failures > 0 {
        count_after_failures_is_capped_sum(error_count, (failures - 1) as nat);
    }
}

/// In a run of failed measurements that starts from a count of zero, each
/// failure before the tenth is reported with the canvas id, the tenth is
/// answered with the notice that reports stop, and every later one asks for
/// nothing. `nth` counts the failures from one.
pub proof fn failure_reports_stop_at_limit(canvas_id: String, offset: Vec2, nth: nat)
    requires
        nth >= 1,
    ensures
        ({
            let before = count_after_failures(0, (nth - 1) as nat);
            let after = checked(canvas_id, offset, before, None);
            &&& after.error_count == count_after_failures(0, nth)
            &&& after.offset == offset
            &&& after.report.change_event is None
            &&& nth < FAILURE_REPORT_LIMIT ==> after.report.diagnostic
                == Diagnostic::MeasurementFailed { canvas_id }
            &&& nth == FAILURE_REPORT_LIMIT ==> after.report.diagnostic
                == Diagnostic::ReportsSilenced
            &&& nth > FAILURE_REPORT_LIMIT ==> after.report.diagnostic == Diagnostic::Quiet
        }),
{
    count_after_failures_is_capped_sum(0, (nth - 1) as nat);
    count_after_failures_is_capped_sum(0, nth);
}

} // verus!
