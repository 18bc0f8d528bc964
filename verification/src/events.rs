//! The queue of pending touch events.

use bevy_ecs::event::Events;
use bevy_input::touch::TouchInput;
use bevy_math::Vec2;
use vstd::prelude::*;

verus! {

#[verifier::external_type_specification]
#[verifier::external_body]
pub struct ExTouchInput(TouchInput);

/// Bevy's double-buffered queue of touch events.
///
/// The queue keeps two buffers: a newer one, which takes the events that are
/// sent, and an older one, which holds what the newer one held before the
/// last update. To verified code the queue is opaque: [`previous_events`] and
/// [`current_events`] name what the two buffers hold, and the methods below
/// say what bevy's operations do to them.
///
/// The field is public so that a system can lend the app's queue to
/// [`offset_touch_input_events`](crate::rewrite::offset_touch_input_events)
/// and take it back.
#[verifier::external_body]
pub struct TouchInputEvents {
    pub events: Events<TouchInput>,
}

/// The events of the queue's older buffer (`events_a` in bevy), in the order
/// in which they were sent.
pub uninterp spec fn previous_events(queue: TouchInputEvents) -> Seq<TouchInput>;

/// The events of the queue's newer buffer (`events_b` in bevy), in the order
/// in which they were sent.
pub uninterp spec fn current_events(queue: TouchInputEvents) -> Seq<TouchInput>;

/// What is left of a touch event after `by` is subtracted from its position
/// with `bevy_math`'s `-=`: the same event, at the position moved back by
/// `by`.
pub uninterp spec fn shifted_touch(event: TouchInput, by: Vec2) -> TouchInput;

impl TouchInputEvents {
    /// Calls `Events::is_empty`. Trusted: the queue is empty when neither
    /// buffer holds an event.
    #[verifier::external_body]
    pub(crate) fn is_empty(&self) -> (empty: bool)
        ensures
            empty == (previous_events(*self).len() == 0 && current_events(*self).len() == 0),
    {
        self.events.is_empty()
    }

    /// Calls `Events::update_drain` and collects what it hands out. Trusted:
    /// the events of the older buffer come out in their order, the newer
    /// buffer takes the older one's place, and a new empty buffer takes the
    /// place of the newer one.
    #[verifier::external_body]
    pub(crate) fn update_drain(&mut self) -> (drained: Vec<TouchInput>)
        ensures
            drained@ == previous_events(*old(self)),
            previous_events(*final(self)) == current_events(*old(self)),
            current_events(*final(self)).len() == 0,
    {
        self.events.update_drain().collect()
    }

    /// Calls `Events::send`. Trusted: the event is appended to the newer
    /// buffer and the older buffer is left alone.
    #[verifier::external_body]
    pub(crate) fn send(&mut self, event: TouchInput)
        ensures
            previous_events(*final(self)) == previous_events(*old(self)),
            current_events(*final(self)) == current_events(*old(self)).push(event),
    {
        self.events.send(event)
    }

    /// Calls `Events::update`. Trusted: the events of the older buffer are
    /// dropped, the newer buffer takes its place, and a new empty buffer
    /// takes the place of the newer one.
    #[verifier::external_body]
    pub(crate) fn update(&mut self)
        ensures
            previous_events(*final(self)) == current_events(*old(self)),
            current_events(*final(self)).len() == 0,
    {
        self.events.update()
    }
}

/// Subtracts `by` from the event's position with `Vec2`'s `SubAssign`.
/// Trusted: the result is the one that the contracts call [`shifted_touch`],
/// a function of the event and of `by` alone.
#[verifier::external_body]
pub(crate) fn shift_touch(event: TouchInput, by: &Vec2) -> (shifted: TouchInput)
    ensures
        shifted == shifted_touch(event, *by),
{
    let mut shifted = event;
    shifted.position -= *by;
    shifted
}

} // verus!
