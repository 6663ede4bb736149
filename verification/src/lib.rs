//! Global input-event capture: the platform-independent event model, the
//! native-event converter with its modifier-flag heuristic, and the listener
//! lifecycle state machine. Platform hook installation and the blocking run
//! loop live outside the library and drive it with plain values.

pub mod converter;
pub mod event;
pub mod keycodes;
pub mod lifecycle;
