//! The key mapping table for the macOS backend: a total, pure function from
//! the OS's raw virtual key code to a logical `Key`. Unmapped codes occur in
//! practice, so they land in `Key::Unknown` rather than failing.

use vstd::prelude::*;
use crate::event::Key;

verus! {

/// What `key_from_code` returns for each raw virtual key code.
pub open spec fn spec_key_from_code(code: u32) -> Key {
    if code == 36 {
        Key::Return
    } else if code == 48 {
        Key::Tab
    } else if code == 49 {
        Key::Space
    } else if code == 51 {
        Key::Backspace
    } else if code == 53 {
        Key::Escape
    } else if code == 54 {
        Key::MetaRight
    } else if code == 55 {
        Key::MetaLeft
    } else if code == 56 {
        Key::ShiftLeft
    } else if code == 57 {
        Key::CapsLock
    } else if code == 58 {
        Key::Alt
    } else if code == 59 {
        Key::ControlLeft
    } else if code == 60 {
        Key::ShiftRight
    } else if code == 61 {
        Key::AltGr
    } else if code == 62 {
        Key::ControlRight
    } else if code == 63 {
        Key::Function
    } else if code == 123 {
        Key::LeftArrow
    } else if code == 124 {
        Key::RightArrow
    } else if code == 125 {
        Key::DownArrow
    } else if code == 126 {
        Key::UpArrow
    } else {
        Key::Unknown(code)
    }
}

/// Maps a raw macOS virtual key code to its logical key. Total: every code
/// maps to some `Key`, never a failure.
pub fn key_from_code(code: u32) -> (key: Key)
    ensures
        key == spec_key_from_code(code),
{
    match code {
        36 => Key::Return,
        48 => Key::Tab,
        49 => Key::Space,
        51 => Key::Backspace,
        53 => Key::Escape,
        54 => Key::MetaRight,
        55 => Key::MetaLeft,
        56 => Key::ShiftLeft,
        57 => Key::CapsLock,
        58 => Key::Alt,
        59 => Key::ControlLeft,
        60 => Key::ShiftRight,
        61 => Key::AltGr,
        62 => Key::ControlRight,
        63 => Key::Function,
        123 => Key::LeftArrow,
        124 => Key::RightArrow,
        125 => Key::DownArrow,
        126 => Key::UpArrow,
        _ => Key::Unknown(code),
    }
}

} // verus!
