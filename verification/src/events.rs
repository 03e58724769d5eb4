//! Input events as the dispatch loop reads them, and what it does on each.

use vstd::prelude::*;
use crate::geometry::{touch_area, Area};
use crate::index::{ActiveRegionHandler, Region};
use crate::regions::handler_of;

verus! {

/// An event of the touch screen.
#[derive(Clone, Copy, Debug, PartialEq, Eq, Structural)]
pub enum MultitouchEvent {
    /// A finger is on the screen at `(x, y)`. All samples of one continuous
    /// contact carry the same `gesture_seq`.
    Touch { gesture_seq: u16, finger_id: u16, y: u16, x: u16 },
    /// Anything else.
    Unknown,
}

/// An event from the merged queue of all input devices. Of a button or pen
/// event the dispatch loop reads nothing but its kind.
#[derive(Clone, Copy, Debug, PartialEq, Eq, Structural)]
pub enum InputEvent {
    /// A hardware button.
    GPIO,
    /// The touch screen.
    MultitouchEvent { event: MultitouchEvent },
    /// The pen.
    WacomEvent,
    /// Anything else.
    Unknown,
}

/// The callbacks of the device classes.
#[derive(Clone, Copy, Debug, PartialEq, Eq, Structural)]
pub enum Callback {
    OnButton,
    OnTouch,
    OnWacom,
}

/// What to do on one event: first invoke the handler of the active region
/// that was hit, if any, then the callback of the device class, if any.
#[derive(Clone, Copy, Debug, PartialEq, Eq, Structural)]
pub struct Dispatch {
    pub region: Option<ActiveRegionHandler>,
    pub callback: Option<Callback>,
}

/// The gesture that no touch carries: the state before the first touch.
pub const NO_GESTURE: i32 = -1;

/// A finger on the screen at `(x, y)`, as an event from the queue.
pub open spec fn touch_event(gesture_seq: u16, finger_id: u16, y: u16, x: u16) -> InputEvent {
    InputEvent::MultitouchEvent { event: MultitouchEvent::Touch { gesture_seq, finger_id, y, x } }
}

/// The callback that `event` goes to.
pub open spec fn callback_of(event: InputEvent) -> Option<Callback> {
    match event {
        InputEvent::GPIO => Some(Callback::OnButton),
        InputEvent::MultitouchEvent { .. } => Some(Callback::OnTouch),
        InputEvent::WacomEvent => Some(Callback::OnWacom),
        InputEvent::Unknown => None,
    }
}

/// The gesture of `event`, if it is a finger on the screen.
pub open spec fn gesture_of(event: InputEvent) -> Option<u16> {
    match event {
        InputEvent::MultitouchEvent { event: MultitouchEvent::Touch { gesture_seq, .. } } => Some(gesture_seq),
        _ => None,
    }
}

/// The square that `event` covers, if it is a finger on the screen.
pub open spec fn square_of(event: InputEvent) -> Option<Area> {
    match event {
        InputEvent::MultitouchEvent { event: MultitouchEvent::Touch { y, x, .. } } => Some(touch_area(y, x)),
        _ => None,
    }
}

/// The active regions are looked up on `event`: it is a finger on the
/// screen, in another gesture than the one that was looked up last.
pub open spec fn looks_up(last_gesture: int, event: InputEvent) -> bool {
    match gesture_of(event) {
        Some(gesture) => gesture != last_gesture,
        None => false,
    }
}

/// The gesture that was looked up last, after `event`.
pub open spec fn gesture_after(last_gesture: int, event: InputEvent) -> int {
    match gesture_of(event) {
        Some(gesture) => gesture as int,
        None => last_gesture,
    }
}

/// What a lookup answers for `event`, if it is a finger on the screen: the
/// answer at its point.
pub open spec fn answer_at(hits: spec_fn(u16, u16) -> Option<nat>, event: InputEvent) -> Option<nat> {
    match event {
        InputEvent::MultitouchEvent { event: MultitouchEvent::Touch { y, x, .. } } => hits(y, x),
        _ => None,
    }
}

/// What the dispatch loop does on `event`, with the given regions, the
/// answers of the index and the gesture that was looked up last: where it
/// looks the regions up, the handler of the region that the index answers,
/// and in any case the callback of the device class.
pub open spec fn dispatched(
    regions: Map<nat, Region>,
    hits: spec_fn(u16, u16) -> Option<nat>,
    last_gesture: int,
    event: InputEvent,
) -> Dispatch {
    Dispatch {
        region: if looks_up(last_gesture, event) {
            handler_of(regions, answer_at(hits, event))
        } else {
            None
        },
        callback: callback_of(event),
    }
}

/// How many of `events`, taken in order from the given state, lead to a
/// lookup of the active regions. A region handler is invoked only on a
/// lookup, and at most once on each.
pub open spec fn lookups(last_gesture: int, events: Seq<InputEvent>) -> nat
    decreases events.len(),
{
    if events.len() == 0 {
        0
    } else {
        let first: nat = if looks_up(last_gesture, events[0]) { 1 } else { 0 };
        first + lookups(gesture_after(last_gesture, events[0]), events.drop_first())
    }
}

/// The gesture that was looked up last, after all of `events`.
pub open spec fn gesture_after_all(last_gesture: int, events: Seq<InputEvent>) -> int
    decreases events.len(),
{
    if events.len() == 0 {
        last_gesture
    } else {
        gesture_after_all(gesture_after(last_gesture, events[0]), events.drop_first())
    }
}

/// Every finger on the screen among `events` belongs to `gesture`.
pub open spec fn one_gesture(events: Seq<InputEvent>, gesture: u16) -> bool {
    forall|i: int|
        0 <= i < events.len() ==> (gesture_of(#[trigger] events[i]) matches Some(other) ==> other == gesture)
}

/// Some event among `events` is a finger on the screen.
pub open spec fn has_touch(events: Seq<InputEvent>) -> bool {
    exists|i: int| 0 <= i < events.len() && gesture_of(#[trigger] events[i]).is_some()
}

/// Within one gesture the active regions are looked up at most once, however
/// many samples the gesture has and whatever other events lie between them:
/// so a region handler is invoked at most once.
pub proof fn one_lookup_per_gesture(last_gesture: int, events: Seq<InputEvent>, gesture: u16)
    requires
        one_gesture(events, gesture),
    ensures
        lookups(last_gesture, events) <= 1,
        last_gesture == gesture ==> lookups(last_gesture, events) == 0,
        gesture_after_all(last_gesture, events) == if has_touch(events) {
            gesture as int
        } else {
            last_gesture
        },
    decreases events.len(),
{
    if events.len() > 0 {
        let rest = events.drop_first();
        assert forall|i: int| 0 <= i < rest.len() implies (gesture_of(#[trigger] rest[i]) matches Some(other)
            ==> other == gesture) by {
            assert(rest[i] == events[i + 1]);
        }
        let next = gesture_after(last_gesture, events[0]);
        one_lookup_per_gesture(next, rest, gesture);
        assert(gesture_of(events[0]) matches Some(other) ==> other == gesture);
        if has_touch(rest) {
            let i = choose|i: int| 0 <= i < rest.len() && gesture_of(#[trigger] rest[i]).is_some();
            assert(rest[i] == events[i + 1]);
        }
        if has_touch(events) && gesture_of(events[0]).is_none() {
            let i = choose|i: int| 0 <= i < events.len() && gesture_of(#[trigger] events[i]).is_some();
            assert(rest[i - 1] == events[i]);
        }
    }
}

/// After the samples of one gesture, the first sample of another gesture
/// leads to a lookup again.
pub proof fn new_gesture_looks_up_again(
    last_gesture: int,
    events: Seq<InputEvent>,
    gesture: u16,
    next: InputEvent,
)
    requires
        one_gesture(events, gesture),
        has_touch(events),
        gesture_of(next) matches Some(other) && other != gesture,
    ensures
        looks_up(gesture_after_all(last_gesture, events), next),
        lookups(gesture_after_all(last_gesture, events), seq![next]) == 1,
{
    one_lookup_per_gesture(last_gesture, events, gesture);
    let state = gesture_after_all(last_gesture, events);
    assert(seq![next].drop_first().len() == 0);
    assert(lookups(gesture_after(state, next), seq![next].drop_first()) == 0);
}

} // verus!
