//! The canonical, platform-independent representation of one input
//! occurrence, and the error surface of the public control functions.

use vstd::prelude::*;

verus! {

/// A logical keyboard key, decoupled from the platform's raw virtual key
/// code. The mapping from raw codes is total: codes without a dedicated
/// variant land in `Unknown`.
#[derive(Clone, Copy, Debug, PartialEq, Eq, Structural)]
pub enum Key {
    Alt,
    AltGr,
    Backspace,
    CapsLock,
    ControlLeft,
    ControlRight,
    DownArrow,
    Escape,
    Function,
    LeftArrow,
    MetaLeft,
    MetaRight,
    Return,
    RightArrow,
    ShiftLeft,
    ShiftRight,
    Space,
    Tab,
    UpArrow,
    Unknown(u32),
}

/// A mouse button. Buttons beyond the three standard ones carry their raw
/// native number.
#[derive(Clone, Copy, Debug, PartialEq, Eq, Structural)]
pub enum Button {
    Left,
    Right,
    Middle,
    Unknown(u8),
}

/// The semantic payload of one captured input event.
///
/// `MouseMove` carries the absolute screen location as whole coordinate
/// units; the platform layer rounds its native floating-point location to
/// these units before handing the record over. `Wheel` deltas keep the sign
/// convention of the native source, unmodified.
#[derive(Clone, Copy, Debug, PartialEq, Eq, Structural)]
pub enum EventType {
    KeyPress(Key),
    KeyRelease(Key),
    ButtonPress(Button),
    ButtonRelease(Button),
    MouseMove { x: i64, y: i64 },
    Wheel { delta_x: i64, delta_y: i64 },
}

/// One captured input event: the semantic payload, a timestamp in
/// milliseconds captured by the platform layer at translation time (wall or
/// monotonic, not synchronized across platforms), and an optional
/// human-readable text payload (the character a key press produced, when
/// resolvable).
#[derive(Clone, Debug, PartialEq, Eq)]
pub struct Event {
    pub event_type: EventType,
    pub time: u64,
    pub name: Option<String>,
}

/// The error surface of the public control functions. None of these is a
/// panic: every failure of the capture machinery is returned to the caller.
#[derive(Clone, Copy, Debug, PartialEq, Eq, Structural)]
pub enum ListenError {
    /// The OS refused to create the interception point, most often because
    /// input-monitoring permission has not been granted.
    HookCreationFailed,
    /// The interception point could not be attached to the thread's
    /// event-delivery loop.
    EventLoopAttachFailed,
    /// There was no active listener to stop, or the OS refused the
    /// interrupt of the delivery pump.
    StopSignalFailed,
    /// No capture backend exists for this platform.
    UnsupportedPlatform,
}

} // verus!
