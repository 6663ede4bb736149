//! Translation of one native event record into zero-or-one canonical events,
//! including the stateful modifier-flag-diffing heuristic.
//!
//! The platform hook hands over each intercepted event as a `NativeEvent`: the
//! native kind tag plus the plain fields the translation reads (key code,
//! modifier bitmask, pointer location, scroll deltas), extracted at the FFI
//! boundary. The `Converter` owns the one piece of translation state, the
//! bitmask of the previous flags-changed event.

use vstd::prelude::*;
use crate::event::{Button, Event, EventType};
use crate::keycodes::{key_from_code, spec_key_from_code};

verus! {

/// The kind tag of a native event, mirroring the OS's event-type numbering
/// for the kinds this layer intercepts. Kinds the translation does not
/// recognize arrive as `Other` with the raw native tag.
#[derive(Clone, Copy, Debug, PartialEq, Eq, Structural)]
pub enum NativeEventKind {
    LeftMouseDown,
    LeftMouseUp,
    RightMouseDown,
    RightMouseUp,
    MouseMoved,
    LeftMouseDragged,
    RightMouseDragged,
    KeyDown,
    KeyUp,
    FlagsChanged,
    ScrollWheel,
    Other(u32),
}

/// One native event record, reduced to the plain values the translation
/// reads. Fields that a given kind does not carry are zero; the translation
/// never reads them for that kind.
///
/// - `code`: the keyboard event's raw virtual key code.
/// - `flags`: the full current modifier bitmask of a flags-changed event.
/// - `x`, `y`: the pointer's absolute screen location, in whole coordinate
///   units (the platform layer rounds its native floating-point location).
/// - `delta_x`, `delta_y`: the scroll wheel's point deltas, native sign
///   convention, `delta_y` the primary (vertical) axis.
#[derive(Clone, Copy, Debug, PartialEq, Eq, Structural)]
pub struct NativeEvent {
    pub kind: NativeEventKind,
    pub code: u32,
    pub flags: u64,
    pub x: i64,
    pub y: i64,
    pub delta_x: i64,
    pub delta_y: i64,
}

/// The semantic payload that translating `ev` produces when the retained
/// modifier bitmask is `last_flags`: `None` exactly for the kinds this layer
/// has no canonical representation for.
///
/// The flags-changed case is the heuristic this module exists for: the OS
/// reports only the full current bitmask, so a numerically smaller bitmask
/// than the retained one is read as a release of the key named by `code`,
/// anything else as a press. The comparison is by integer magnitude, not by
/// bit; simultaneous multi-modifier changes can therefore be misattributed.
/// That is the documented behavior, kept as is.
pub open spec fn spec_converted(ev: NativeEvent, last_flags: u64) -> Option<EventType> {
    match ev.kind {
        NativeEventKind::LeftMouseDown => Some(EventType::ButtonPress(Button::Left)),
        NativeEventKind::LeftMouseUp => Some(EventType::ButtonRelease(Button::Left)),
        NativeEventKind::RightMouseDown => Some(EventType::ButtonPress(Button::Right)),
        NativeEventKind::RightMouseUp => Some(EventType::ButtonRelease(Button::Right)),
        NativeEventKind::MouseMoved => Some(EventType::MouseMove { x: ev.x, y: ev.y }),
        NativeEventKind::KeyDown => Some(EventType::KeyPress(spec_key_from_code(ev.code))),
        NativeEventKind::KeyUp => Some(EventType::KeyRelease(spec_key_from_code(ev.code))),
        NativeEventKind::FlagsChanged => if ev.flags < last_flags {
            Some(EventType::KeyRelease(spec_key_from_code(ev.code)))
        } else {
            Some(EventType::KeyPress(spec_key_from_code(ev.code)))
        },
        NativeEventKind::ScrollWheel => Some(EventType::Wheel {
            delta_x: ev.delta_x,
            delta_y: ev.delta_y,
        }),
        _ => None,
    }
}

/// The retained modifier bitmask after translating `ev`: a flags-changed
/// event replaces it with its own bitmask, every other kind leaves it alone.
pub open spec fn spec_next_flags(ev: NativeEvent, last_flags: u64) -> u64 {
    if ev.kind is FlagsChanged {
        ev.flags
    } else {
        last_flags
    }
}

/// The full event that translating `ev` at `time` produces, if any.
pub open spec fn spec_convert(ev: NativeEvent, last_flags: u64, time: u64) -> Option<Event> {
    match spec_converted(ev, last_flags) {
        Some(event_type) => Some(Event { event_type, time, name: None }),
        None => None,
    }
}

/// The retained modifier bitmask after translating the records of `evs` in
/// order, starting from `init`.
pub open spec fn flags_after(evs: Seq<NativeEvent>, init: u64) -> u64
    decreases evs.len(),
{
    if evs.len() == 0 {
        init
    } else {
        spec_next_flags(evs.last(), flags_after(evs.drop_last(), init))
    }
}

/// A native key-down and key-up that carry the same code translate to
/// `KeyPress` then `KeyRelease` of the same logical key, whatever modifier
/// bitmask is retained; neither touches that bitmask.
pub proof fn lemma_key_pair_same_key(down: NativeEvent, up: NativeEvent, last_flags: u64)
    requires
        down.kind is KeyDown,
        up.kind is KeyUp,
        up.code == down.code,
    ensures
        spec_converted(down, last_flags) == Some(
            EventType::KeyPress(spec_key_from_code(down.code)),
        ),
        spec_next_flags(down, last_flags) == last_flags,
        spec_converted(up, spec_next_flags(down, last_flags)) == Some(
            EventType::KeyRelease(spec_key_from_code(down.code)),
        ),
{
}

/// From an initial retained bitmask of zero, a flags-changed event with a
/// nonzero bitmask translates to a press of the key its code names, and a
/// following flags-changed event with bitmask zero to a release.
pub proof fn lemma_flags_press_then_release(first: NativeEvent, second: NativeEvent)
    requires
        first.kind is FlagsChanged,
        first.flags > 0,
        second.kind is FlagsChanged,
        second.flags == 0,
    ensures
        spec_converted(first, 0) == Some(EventType::KeyPress(spec_key_from_code(first.code))),
        spec_next_flags(first, 0) == first.flags,
        spec_converted(second, spec_next_flags(first, 0)) == Some(
            EventType::KeyRelease(spec_key_from_code(second.code)),
        ),
{
}

/// For a run of flags-changed events whose bitmasks never decrease, starting
/// from an initial retained bitmask of zero, every step translates to a key
/// press.
pub proof fn lemma_nondecreasing_flags_all_press(evs: Seq<NativeEvent>)
    requires
        forall|i: int| 0 <= i < evs.len() ==> (#[trigger] evs[i]).kind is FlagsChanged,
        forall|i: int| 0 <= i + 1 < evs.len() ==> (#[trigger] evs[i].flags) <= evs[i + 1].flags,
    ensures
        forall|i: int| 0 <= i < evs.len() ==> spec_converted(
            #[trigger] evs[i],
            flags_after(evs.take(i), 0),
        ) == Some(EventType::KeyPress(spec_key_from_code(evs[i].code))),
{
    assert forall|i: int| 0 <= i < evs.len() implies spec_converted(
        evs[i],
        flags_after(evs.take(i), 0),
    ) == Some(EventType::KeyPress(spec_key_from_code(evs[i].code))) by {
        if i == 0 {
            assert(flags_after(evs.take(0), 0) == 0);
        } else {
            let t = evs.take(i);
            assert(t.last() == evs[i - 1]);
            assert(flags_after(t, 0) == evs[i - 1].flags);
            assert(evs[i - 1].flags <= evs[i].flags);
        }
    }
}

/// Native kinds without a canonical representation — the drag variants and
/// every kind arriving as `Other` — translate to nothing and leave the
/// retained modifier bitmask alone.
pub proof fn lemma_unrecognized_yields_none(ev: NativeEvent, last_flags: u64)
    requires
        ev.kind is LeftMouseDragged || ev.kind is RightMouseDragged || ev.kind is Other,
    ensures
        spec_converted(ev, last_flags) is None,
        spec_next_flags(ev, last_flags) == last_flags,
{
}

/// The native event converter. Its only state is the bitmask of the most
/// recent flags-changed event, initially zero (no modifiers active).
pub struct Converter {
    pub last_flags: u64,
}

impl Converter {
    /// A fresh converter: no modifiers retained.
    pub fn new() -> (c: Converter)
        ensures
            c.last_flags == 0,
    {
        Converter { last_flags: 0 }
    }

    /// Translates one native event record into its semantic payload,
    /// updating the retained modifier bitmask. Returns `None` exactly for
    /// unrecognized kinds; never panics, whatever the record holds.
    pub fn convert_type(&mut self, ev: &NativeEvent) -> (r: Option<EventType>)
        ensures
            r == spec_converted(*ev, old(self).last_flags),
            final(self).last_flags == spec_next_flags(*ev, old(self).last_flags),
    {
        match ev.kind {
            NativeEventKind::LeftMouseDown => Some(EventType::ButtonPress(Button::Left)),
            NativeEventKind::LeftMouseUp => Some(EventType::ButtonRelease(Button::Left)),
            NativeEventKind::RightMouseDown => Some(EventType::ButtonPress(Button::Right)),
            NativeEventKind::RightMouseUp => Some(EventType::ButtonRelease(Button::Right)),
            NativeEventKind::MouseMoved => Some(EventType::MouseMove { x: ev.x, y: ev.y }),
            NativeEventKind::KeyDown => Some(EventType::KeyPress(key_from_code(ev.code))),
            NativeEventKind::KeyUp => Some(EventType::KeyRelease(key_from_code(ev.code))),
            NativeEventKind::FlagsChanged => {
                let key = key_from_code(ev.code);
                if ev.flags < self.last_flags {
                    self.last_flags = ev.flags;
                    Some(EventType::KeyRelease(key))
                } else {
                    self.last_flags = ev.flags;
                    Some(EventType::KeyPress(key))
                }
            },
            NativeEventKind::ScrollWheel => Some(EventType::Wheel {
                delta_x: ev.delta_x,
                delta_y: ev.delta_y,
            }),
            _ => None,
        }
    }

    /// Translates one native event record into a full canonical event,
    /// stamped with `time`, the timestamp the platform layer captured at
    /// translation time. The text payload is left empty: resolving the
    /// produced character is outside this layer.
    pub fn convert(&mut self, ev: &NativeEvent, time: u64) -> (r: Option<Event>)
        ensures
            r == spec_convert(*ev, old(self).last_flags, time),
            final(self).last_flags == spec_next_flags(*ev, old(self).last_flags),
    {
        match self.convert_type(ev) {
            Some(event_type) => Some(Event { event_type, time, name: None }),
            None => None,
        }
    }
}

} // verus!
