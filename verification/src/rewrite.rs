//! The per-frame correction of the pending touch events.

use crate::events::current_events;
use crate::events::previous_events;
use crate::events::shift_touch;
use crate::events::shifted_touch;
use crate::events::TouchInputEvents;
use crate::offset::add_offsets;
use crate::offset::offset_sum;
use crate::offset::AdditionalTouchOffset;
use crate::offset::TouchOffset;
use bevy_input::touch::TouchInput;
use bevy_math::Vec2;
use vstd::prelude::*;

verus! {

/// The events of one buffer after the correction: as many as before, in the
/// same order, each with `by` subtracted from its position.
pub open spec fn corrected(events: Seq<TouchInput>, by: Vec2) -> Seq<TouchInput> {
    Seq::new(events.len(), |i: int| shifted_touch(events[i], by))
}

/// The correction keeps the shape of a buffer: it holds as many events as
/// before, and the event at each place is the one that stood there before,
/// with `by` subtracted from its position. An empty buffer stays empty.
pub proof fn correction_keeps_shape(events: Seq<TouchInput>, by: Vec2)
    ensures
        corrected(events, by).len() == events.len(),
        forall|i: int|
            0 <= i < events.len() ==> #[trigger] corrected(events, by)[i] == shifted_touch(
                events[i],
                by,
            ),
        events.len() == 0 ==> corrected(events, by) == Seq::<TouchInput>::empty(),
{
    if events.len() == 0 {
        assert(corrected(events, by) =~= Seq::<TouchInput>::empty());
    }
}

/// Corrects every event of a drained buffer.
fn correct_all(events: Vec<TouchInput>, by: &Vec2) -> (moved: Vec<TouchInput>)
    ensures
        moved@ == corrected(events@, *by),
{
    let mut moved: Vec<TouchInput> = Vec::new();
    let mut i: usize = 0;
    while i < events.len()
        invariant
            i <= events.len(),
            moved@ == corrected(events@.take(i as int), *by),
        decreases events.len() - i,
    {
        let event = events[i];
        moved.push(shift_touch(event, by));
        i = i + 1;
        assert(moved@ =~= corrected(events@.take(i as int), *by));
    }
    assert(events@.take(i as int) =~= events@);
    moved
}

/// Sends the events to the queue's newer buffer, in their order.
fn send_all(queue: &mut TouchInputEvents, events: &Vec<TouchInput>)
    ensures
        previous_events(*final(queue)) == previous_events(*old(queue)),
        current_events(*final(queue)) == current_events(*old(queue)) + events@,
{
    let mut i: usize = 0;
    while i < events.len()
        invariant
            i <= events.len(),
            previous_events(*queue) == previous_events(*old(queue)),
            current_events(*queue) == current_events(*old(queue)) + events@.take(i as int),
        decreases events.len() - i,
    {
        queue.send(events[i]);
        i = i + 1;
        assert(current_events(*queue) =~= current_events(*old(queue)) + events@.take(i as int));
    }
    assert(events@.take(i as int) =~= events@);
}

/// Subtracts the measured offset plus the additional offset from the position
/// of every pending touch event.
///
/// Both buffers of the queue are rewritten. Each event stays in its buffer and
/// in its place; nothing is dropped, added or reordered. The sum of the two
/// offsets is taken once, so every event is corrected by the same amount. A
/// queue without events is not touched at all.
///
/// The queue hands out its events only buffer by buffer, oldest buffer first,
/// and takes new events only into its newer buffer. So the older buffer is
/// drained, then the newer one; the corrected older events are sent back and
/// the queue is updated once, which moves them into the older buffer again;
/// then the corrected newer events are sent back.
pub fn offset_touch_input_events(
    touch_input_events: &mut TouchInputEvents,
    touch_offset: &TouchOffset,
    additional_touch_offset: &AdditionalTouchOffset,
)
    ensures
        previous_events(*final(touch_input_events)) == corrected(
            previous_events(*old(touch_input_events)),
            offset_sum(touch_offset.0, additional_touch_offset.0),
        ),
        current_events(*final(touch_input_events)) == corrected(
            current_events(*old(touch_input_events)),
            offset_sum(touch_offset.0, additional_touch_offset.0),
        ),
        previous_events(*final(touch_input_events)).len() == previous_events(
            *old(touch_input_events),
        ).len(),
        current_events(*final(touch_input_events)).len() == current_events(
            *old(touch_input_events),
        ).len(),
        previous_events(*old(touch_input_events)).len() == 0 && current_events(
            *old(touch_input_events),
        ).len() == 0 ==> *final(touch_input_events) == *old(touch_input_events),
{
    if !touch_input_events.is_empty() {
        let total = add_offsets(&touch_offset.0, &additional_touch_offset.0);

        let old_events = correct_all(touch_input_events.update_drain(), &total);
        let new_events = correct_all(touch_input_events.update_drain(), &total);

        send_all(touch_input_events, &old_events);
        touch_input_events.update();
        send_all(touch_input_events, &new_events);

        assert(previous_events(*touch_input_events) =~= old_events@);
        assert(current_events(*touch_input_events) =~= new_events@);
    } else {
        assert(previous_events(*touch_input_events) =~= corrected(
            previous_events(*touch_input_events),
            offset_sum(touch_offset.0, additional_touch_offset.0),
        ));
        assert(current_events(*touch_input_events) =~= corrected(
            current_events(*touch_input_events),
            offset_sum(touch_offset.0, additional_touch_offset.0),
        ));
    }
}

} // verus!
