//! Touch coordinates that a browser reports relative to the page are moved
//! into the coordinate space of the canvas the application renders to.
//!
//! Two steps run once per frame, in this order:
//!
//! 1. [`check_canvas_offset`] takes the canvas position that was measured this
//!    frame, stores it when it differs from the stored one and reports the
//!    change, and rations the diagnostics of failed measurements.
//! 2. [`offset_touch_input_events`] subtracts the stored offset plus a
//!    configured additional offset from the position of every pending touch
//!    event, in both buffers of the event queue, keeping each event in its
//!    buffer and in its place.
//!
//! Measuring the canvas and scheduling the two steps are left to the
//! embedding application.

pub mod canvas;
pub mod events;
pub mod offset;
pub mod rewrite;

pub use crate::canvas::check_canvas_offset;
pub use crate::canvas::Diagnostic;
pub use crate::canvas::OffsetCheck;
pub use crate::canvas::FAILURE_REPORT_LIMIT;
pub use crate::events::TouchInputEvents;
pub use crate::offset::AdditionalTouchOffset;
pub use crate::offset::PrimaryCanvasId;
pub use crate::offset::TouchOffset;
pub use crate::offset::TouchOffsetChangeEvent;
pub use crate::rewrite::offset_touch_input_events;
