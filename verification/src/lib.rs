//! Keyboard key-identity translation and USB HID boot-report generation.
//!
//! A key has one identity but many encodings: a USB HID usage code, a Linux
//! evdev code, an X11 keycode, a Windows scan code, a Mac scan code, a
//! browser-style symbolic code, and a stable symbolic identifier. This crate
//! resolves any one of those encodings to the full record for the key, tracks
//! which keys are currently held down, and renders the held keys as a USB HID
//! boot-protocol input report.

pub mod codes;
pub mod ids;
pub mod keymap;
pub mod modifiers;
pub mod parse;
mod pressed;
pub mod records;
pub mod resolver;
pub mod state;

pub use codes::KeyMappingCode;
pub use ids::KeyMappingId;
pub use keymap::{KeyMap, KeyMapping};
pub use modifiers::KeyModifiers;
pub use parse::{parse_hex, parse_literal_string_to_ident_string};
pub use state::{KeyState, KeyboardModel, KeyboardState};

use vstd::prelude::*;

verus! {

/// Number of entries the pressed-key store can hold at most.
pub const NUM_KEYS: usize = 256;

} // verus!
