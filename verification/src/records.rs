//! The record table: one record per key, reachable by identifier index.
//!
//! The table is fixed data, compiled offline from the vendor key-mapping
//! description; this crate only holds the finished records. Every enumerated
//! identifier owns exactly one record, no two records share a value in any
//! one encoding, and a record carries a modifier bit exactly when its key is
//! one of the eight recognized modifier keys.

use crate::codes::KeyMappingCode;
use crate::ids::KeyMappingId;
use crate::keymap::KeyMap;
use crate::modifiers::KeyModifiers;
use vstd::prelude::*;

verus! {

/// How many records the table holds.
pub open spec fn table_len() -> int {
    83
}

/// The record that an identifier owns.
pub open spec fn record_of(id: KeyMappingId) -> KeyMap {
    match id {
        KeyMappingId::UsA => KeyMap {
            usb: 0x0004,
            evdev: 0x001e,
            xkb: 0x0026,
            win: 0x001e,
            mac: 0x0000,
            code: Some(KeyMappingCode::KeyA),
            id: KeyMappingId::UsA,
            modifier: None,
        },
        KeyMappingId::UsB => KeyMap {
            usb: 0x0005,
            evdev: 0x0030,
            xkb: 0x0038,
            win: 0x0030,
            mac: 0x000b,
            code: Some(KeyMappingCode::KeyB),
            id: KeyMappingId::UsB,
            modifier: None,
        },
        KeyMappingId::UsC => KeyMap {
            usb: 0x0006,
            evdev: 0x002e,
            xkb: 0x0036,
            win: 0x002e,
            mac: 0x0008,
            code: Some(KeyMappingCode::KeyC),
            id: KeyMappingId::UsC,
            modifier: None,
        },
        KeyMappingId::UsD => KeyMap {
            usb: 0x0007,
            evdev: 0x0020,
            xkb: 0x0028,
            win: 0x0020,
            mac: 0x0002,
            code: Some(KeyMappingCode::KeyD),
            id: KeyMappingId::UsD,
            modifier: None,
        },
        KeyMappingId::UsE => KeyMap {
            usb: 0x0008,
            evdev: 0x0012,
            xkb: 0x001a,
            win: 0x0012,
            mac: 0x000e,
            code: Some(KeyMappingCode::KeyE),
            id: KeyMappingId::UsE,
            modifier: None,
        },
        KeyMappingId::UsF => KeyMap {
            usb: 0x0009,
            evdev: 0x0021,
            xkb: 0x0029,
            win: 0x0021,
            mac: 0x0003,
            code: Some(KeyMappingCode::KeyF),
            id: KeyMappingId::UsF,
            modifier: None,
        },
        KeyMappingId::UsG => KeyMap {
            usb: 0x000a,
            evdev: 0x0022,
            xkb: 0x002a,
            win: 0x0022,
            mac: 0x0005,
            code: Some(KeyMappingCode::KeyG),
            id: KeyMappingId::UsG,
            modifier: None,
        },
        KeyMappingId::UsH => KeyMap {
            usb: 0x000b,
            evdev: 0x0023,
            xkb: 0x002b,
            win: 0x0023,
            mac: 0x0004,
            code: Some(KeyMappingCode::KeyH),
            id: KeyMappingId::UsH,
            modifier: None,
        },
        KeyMappingId::UsI => KeyMap {
            usb: 0x000c,
            evdev: 0x0017,
            xkb: 0x001f,
            win: 0x0017,
            mac: 0x0022,
            code: Some(KeyMappingCode::KeyI),
            id: KeyMappingId::UsI,
            modifier: None,
        },
        KeyMappingId::UsJ => KeyMap {
            usb: 0x000d,
            evdev: 0x0024,
            xkb: 0x002c,
            win: 0x0024,
            mac: 0x0026,
            code: Some(KeyMappingCode::KeyJ),
            id: KeyMappingId::UsJ,
            modifier: None,
        },
        KeyMappingId::UsK => KeyMap {
            usb: 0x000e,
            evdev: 0x0025,
            xkb: 0x002d,
            win: 0x0025,
            mac: 0x0028,
            code: Some(KeyMappingCode::KeyK),
            id: KeyMappingId::UsK,
            modifier: None,
        },
        KeyMappingId::UsL => KeyMap {
            usb: 0x000f,
            evdev: 0x0026,
            xkb: 0x002e,
            win: 0x0026,
            mac: 0x0025,
            code: Some(KeyMappingCode::KeyL),
            id: KeyMappingId::UsL,
            modifier: None,
        },
        KeyMappingId::UsM => KeyMap {
            usb: 0x0010,
            evdev: 0x0032,
            xkb: 0x003a,
            win: 0x0032,
            mac: 0x002e,
            code: Some(KeyMappingCode::KeyM),
            id: KeyMappingId::UsM,
            modifier: None,
        },
        KeyMappingId::UsN => KeyMap {
            usb: 0x0011,
            evdev: 0x0031,
            xkb: 0x0039,
            win: 0x0031,
            mac: 0x002d,
            code: Some(KeyMappingCode::KeyN),
            id: KeyMappingId::UsN,
            modifier: None,
        },
        KeyMappingId::UsO => KeyMap {
            usb: 0x0012,
            evdev: 0x0018,
            xkb: 0x0020,
            win: 0x0018,
            mac: 0x001f,
            code: Some(KeyMappingCode::KeyO),
            id: KeyMappingId::UsO,
            modifier: None,
        },
        KeyMappingId::UsP => KeyMap {
            usb: 0x0013,
            evdev: 0x0019,
            xkb: 0x0021,
            win: 0x0019,
            mac: 0x0023,
            code: Some(KeyMappingCode::KeyP),
            id: KeyMappingId::UsP,
            modifier: None,
        },
        KeyMappingId::UsQ => KeyMap {
            usb: 0x0014,
            evdev: 0x0010,
            xkb: 0x0018,
            win: 0x0010,
            mac: 0x000c,
            code: Some(KeyMappingCode::KeyQ),
            id: KeyMappingId::UsQ,
            modifier: None,
        },
        KeyMappingId::UsR => KeyMap {
            usb: 0x0015,
            evdev: 0x0013,
            xkb: 0x001b,
            win: 0x0013,
            mac: 0x000f,
            code: Some(KeyMappingCode::KeyR),
            id: KeyMappingId::UsR,
            modifier: None,
        },
        KeyMappingId::UsS => KeyMap {
            usb: 0x0016,
            evdev: 0x001f,
            xkb: 0x0027,
            win: 0x001f,
            mac: 0x0001,
            code: Some(KeyMappingCode::KeyS),
            id: KeyMappingId::UsS,
            modifier: None,
        },
        KeyMappingId::UsT => KeyMap {
            usb: 0x0017,
            evdev: 0x0014,
            xkb: 0x001c,
            win: 0x0014,
            mac: 0x0011,
            code: Some(KeyMappingCode::KeyT),
            id: KeyMappingId::UsT,
            modifier: None,
        },
        KeyMappingId::UsU => KeyMap {
            usb: 0x0018,
            evdev: 0x0016,
            xkb: 0x001e,
            win: 0x0016,
            mac: 0x0020,
            code: Some(KeyMappingCode::KeyU),
            id: KeyMappingId::UsU,
            modifier: None,
        },
        KeyMappingId::UsV => KeyMap {
            usb: 0x0019,
            evdev: 0x002f,
            xkb: 0x0037,
            win: 0x002f,
            mac: 0x0009,
            code: Some(KeyMappingCode::KeyV),
            id: KeyMappingId::UsV,
            modifier: None,
        },
        KeyMappingId::UsW => KeyMap {
            usb: 0x001a,
            evdev: 0x0011,
            xkb: 0x0019,
            win: 0x0011,
            mac: 0x000d,
            code: Some(KeyMappingCode::KeyW),
            id: KeyMappingId::UsW,
            modifier: None,
        },
        KeyMappingId::UsX => KeyMap {
            usb: 0x001b,
            evdev: 0x002d,
            xkb: 0x0035,
            win: 0x002d,
            mac: 0x0007,
            code: Some(KeyMappingCode::KeyX),
            id: KeyMappingId::UsX,
            modifier: None,
        },
        KeyMappingId::UsY => KeyMap {
            usb: 0x001c,
            evdev: 0x0015,
            xkb: 0x001d,
            win: 0x0015,
            mac: 0x0010,
            code: Some(KeyMappingCode::KeyY),
            id: KeyMappingId::UsY,
            modifier: None,
        },
        KeyMappingId::UsZ => KeyMap {
            usb: 0x001d,
            evdev: 0x002c,
            xkb: 0x0034,
            win: 0x002c,
            mac: 0x0006,
            code: Some(KeyMappingCode::KeyZ),
            id: KeyMappingId::UsZ,
            modifier: None,
        },
        KeyMappingId::Digit1 => KeyMap {
            usb: 0x001e,
            evdev: 0x0002,
            xkb: 0x000a,
            win: 0x0002,
            mac: 0x0012,
            code: Some(KeyMappingCode::Digit1),
            id: KeyMappingId::Digit1,
            modifier: None,
        },
        KeyMappingId::Digit2 => KeyMap {
            usb: 0x001f,
            evdev: 0x0003,
            xkb: 0x000b,
            win: 0x0003,
            mac: 0x0013,
            code: Some(KeyMappingCode::Digit2),
            id: KeyMappingId::Digit2,
            modifier: None,
        },
        KeyMappingId::Digit3 => KeyMap {
            usb: 0x0020,
            evdev: 0x0004,
            xkb: 0x000c,
            win: 0x0004,
            mac: 0x0014,
            code: Some(KeyMappingCode::Digit3),
            id: KeyMappingId::Digit3,
            modifier: None,
        },
        KeyMappingId::Digit4 => KeyMap {
            usb: 0x0021,
            evdev: 0x0005,
            xkb: 0x000d,
            win: 0x0005,
            mac: 0x0015,
            code: Some(KeyMappingCode::Digit4),
            id: KeyMappingId::Digit4,
            modifier: None,
        },
        KeyMappingId::Digit5 => KeyMap {
            usb: 0x0022,
            evdev: 0x0006,
            xkb: 0x000e,
            win: 0x0006,
            mac: 0x0017,
            code: Some(KeyMappingCode::Digit5),
            id: KeyMappingId::Digit5,
            modifier: None,
        },
        KeyMappingId::Digit6 => KeyMap {
            usb: 0x0023,
            evdev: 0x0007,
            xkb: 0x000f,
            win: 0x0007,
            mac: 0x0016,
            code: Some(KeyMappingCode::Digit6),
            id: KeyMappingId::Digit6,
            modifier: None,
        },
        KeyMappingId::Digit7 => KeyMap {
            usb: 0x0024,
            evdev: 0x0008,
            xkb: 0x0010,
            win: 0x0008,
            mac: 0x001a,
            code: Some(KeyMappingCode::Digit7),
            id: KeyMappingId::Digit7,
            modifier: None,
        },
        KeyMappingId::Digit8 => KeyMap {
            usb: 0x0025,
            evdev: 0x0009,
            xkb: 0x0011,
            win: 0x0009,
            mac: 0x001c,
            code: Some(KeyMappingCode::Digit8),
            id: KeyMappingId::Digit8,
            modifier: None,
        },
        KeyMappingId::Digit9 => KeyMap {
            usb: 0x0026,
            evdev: 0x000a,
            xkb: 0x0012,
            win: 0x000a,
            mac: 0x0019,
            code: Some(KeyMappingCode::Digit9),
            id: KeyMappingId::Digit9,
            modifier: None,
        },
        KeyMappingId::Digit0 => KeyMap {
            usb: 0x0027,
            evdev: 0x000b,
            xkb: 0x0013,
            win: 0x000b,
            mac: 0x001d,
            code: Some(KeyMappingCode::Digit0),
            id: KeyMappingId::Digit0,
            modifier: None,
        },
        KeyMappingId::Enter => KeyMap {
            usb: 0x0028,
            evdev: 0x001c,
            xkb: 0x0024,
            win: 0x001c,
            mac: 0x0024,
            code: Some(KeyMappingCode::Enter),
            id: KeyMappingId::Enter,
            modifier: None,
        },
        KeyMappingId::Escape => KeyMap {
            usb: 0x0029,
            evdev: 0x0001,
            xkb: 0x0009,
            win: 0x0001,
            mac: 0x0035,
            code: Some(KeyMappingCode::Escape),
            id: KeyMappingId::Escape,
            modifier: None,
        },
        KeyMappingId::Backspace => KeyMap {
            usb: 0x002a,
            evdev: 0x000e,
            xkb: 0x0016,
            win: 0x000e,
            mac: 0x0033,
            code: Some(KeyMappingCode::Backspace),
            id: KeyMappingId::Backspace,
            modifier: None,
        },
        KeyMappingId::Tab => KeyMap {
            usb: 0x002b,
            evdev: 0x000f,
            xkb: 0x0017,
            win: 0x000f,
            mac: 0x0030,
            code: Some(KeyMappingCode::Tab),
            id: KeyMappingId::Tab,
            modifier: None,
        },
        KeyMappingId::Space => KeyMap {
            usb: 0x002c,
            evdev: 0x0039,
            xkb: 0x0041,
            win: 0x0039,
            mac: 0x0031,
            code: Some(KeyMappingCode::Space),
            id: KeyMappingId::Space,
            modifier: None,
        },
        KeyMappingId::Minus => KeyMap {
            usb: 0x002d,
            evdev: 0x000c,
            xkb: 0x0014,
            win: 0x000c,
            mac: 0x001b,
            code: Some(KeyMappingCode::Minus),
            id: KeyMappingId::Minus,
            modifier: None,
        },
        KeyMappingId::Equal => KeyMap {
            usb: 0x002e,
            evdev: 0x000d,
            xkb: 0x0015,
            win: 0x000d,
            mac: 0x0018,
            code: Some(KeyMappingCode::Equal),
            id: KeyMappingId::Equal,
            modifier: None,
        },
        KeyMappingId::BracketLeft => KeyMap {
            usb: 0x002f,
            evdev: 0x001a,
            xkb: 0x0022,
            win: 0x001a,
            mac: 0x0021,
            code: Some(KeyMappingCode::BracketLeft),
            id: KeyMappingId::BracketLeft,
            modifier: None,
        },
        KeyMappingId::BracketRight => KeyMap {
            usb: 0x0030,
            evdev: 0x001b,
            xkb: 0x0023,
            win: 0x001b,
            mac: 0x001e,
            code: Some(KeyMappingCode::BracketRight),
            id: KeyMappingId::BracketRight,
            modifier: None,
        },
        KeyMappingId::Backslash => KeyMap {
            usb: 0x0031,
            evdev: 0x002b,
            xkb: 0x0033,
            win: 0x002b,
            mac: 0x002a,
            code: Some(KeyMappingCode::Backslash),
            id: KeyMappingId::Backslash,
            modifier: None,
        },
        KeyMappingId::Semicolon => KeyMap {
            usb: 0x0033,
            evdev: 0x0027,
            xkb: 0x002f,
            win: 0x0027,
            mac: 0x0029,
            code: Some(KeyMappingCode::Semicolon),
            id: KeyMappingId::Semicolon,
            modifier: None,
        },
        KeyMappingId::Quote => KeyMap {
            usb: 0x0034,
            evdev: 0x0028,
            xkb: 0x0030,
            win: 0x0028,
            mac: 0x0027,
            code: Some(KeyMappingCode::Quote),
            id: KeyMappingId::Quote,
            modifier: None,
        },
        KeyMappingId::Backquote => KeyMap {
            usb: 0x0035,
            evdev: 0x0029,
            xkb: 0x0031,
            win: 0x0029,
            mac: 0x0032,
            code: Some(KeyMappingCode::Backquote),
            id: KeyMappingId::Backquote,
            modifier: None,
        },
        KeyMappingId::Comma => KeyMap {
            usb: 0x0036,
            evdev: 0x0033,
            xkb: 0x003b,
            win: 0x0033,
            mac: 0x002b,
            code: Some(KeyMappingCode::Comma),
            id: KeyMappingId::Comma,
            modifier: None,
        },
        KeyMappingId::Period => KeyMap {
            usb: 0x0037,
            evdev: 0x0034,
            xkb: 0x003c,
            win: 0x0034,
            mac: 0x002f,
            code: Some(KeyMappingCode::Period),
            id: KeyMappingId::Period,
            modifier: None,
        },
        KeyMappingId::Slash => KeyMap {
            usb: 0x0038,
            evdev: 0x0035,
            xkb: 0x003d,
            win: 0x0035,
            mac: 0x002c,
            code: Some(KeyMappingCode::Slash),
            id: KeyMappingId::Slash,
            modifier: None,
        },
        KeyMappingId::CapsLock => KeyMap {
            usb: 0x0039,
            evdev: 0x003a,
            xkb: 0x0042,
            win: 0x003a,
            mac: 0x0039,
            code: Some(KeyMappingCode::CapsLock),
            id: KeyMappingId::CapsLock,
            modifier: None,
        },
        KeyMappingId::F1 => KeyMap {
            usb: 0x003a,
            evdev: 0x003b,
            xkb: 0x0043,
            win: 0x003b,
            mac: 0x007a,
            code: Some(KeyMappingCode::F1),
            id: KeyMappingId::F1,
            modifier: None,
        },
        KeyMappingId::F2 => KeyMap {
            usb: 0x003b,
            evdev: 0x003c,
            xkb: 0x0044,
            win: 0x003c,
            mac: 0x0078,
            code: Some(KeyMappingCode::F2),
            id: KeyMappingId::F2,
            modifier: None,
        },
        KeyMappingId::F3 => KeyMap {
            usb: 0x003c,
            evdev: 0x003d,
            xkb: 0x0045,
            win: 0x003d,
            mac: 0x0063,
            code: Some(KeyMappingCode::F3),
            id: KeyMappingId::F3,
            modifier: None,
        },
        KeyMappingId::F4 => KeyMap {
            usb: 0x003d,
            evdev: 0x003e,
            xkb: 0x0046,
            win: 0x003e,
            mac: 0x0076,
            code: Some(KeyMappingCode::F4),
            id: KeyMappingId::F4,
            modifier: None,
        },
        KeyMappingId::F5 => KeyMap {
            usb: 0x003e,
            evdev: 0x003f,
            xkb: 0x0047,
            win: 0x003f,
            mac: 0x0060,
            code: Some(KeyMappingCode::F5),
            id: KeyMappingId::F5,
            modifier: None,
        },
        KeyMappingId::F6 => KeyMap {
            usb: 0x003f,
            evdev: 0x0040,
            xkb: 0x0048,
            win: 0x0040,
            mac: 0x0061,
            code: Some(KeyMappingCode::F6),
            id: KeyMappingId::F6,
            modifier: None,
        },
        KeyMappingId::F7 => KeyMap {
            usb: 0x0040,
            evdev: 0x0041,
            xkb: 0x0049,
            win: 0x0041,
            mac: 0x0062,
            code: Some(KeyMappingCode::F7),
            id: KeyMappingId::F7,
            modifier: None,
        },
        KeyMappingId::F8 => KeyMap {
            usb: 0x0041,
            evdev: 0x0042,
            xkb: 0x004a,
            win: 0x0042,
            mac: 0x0064,
            code: Some(KeyMappingCode::F8),
            id: KeyMappingId::F8,
            modifier: None,
        },
        KeyMappingId::F9 => KeyMap {
            usb: 0x0042,
            evdev: 0x0043,
            xkb: 0x004b,
            win: 0x0043,
            mac: 0x0065,
            code: Some(KeyMappingCode::F9),
            id: KeyMappingId::F9,
            modifier: None,
        },
        KeyMappingId::F10 => KeyMap {
            usb: 0x0043,
            evdev: 0x0044,
            xkb: 0x004c,
            win: 0x0044,
            mac: 0x006d,
            code: Some(KeyMappingCode::F10),
            id: KeyMappingId::F10,
            modifier: None,
        },
        KeyMappingId::F11 => KeyMap {
            usb: 0x0044,
            evdev: 0x0057,
            xkb: 0x005f,
            win: 0x0057,
            mac: 0x0067,
            code: Some(KeyMappingCode::F11),
            id: KeyMappingId::F11,
            modifier: None,
        },
        KeyMappingId::F12 => KeyMap {
            usb: 0x0045,
            evdev: 0x0058,
            xkb: 0x0060,
            win: 0x0058,
            mac: 0x006f,
            code: Some(KeyMappingCode::F12),
            id: KeyMappingId::F12,
            modifier: None,
        },
        KeyMappingId::Insert => KeyMap {
            usb: 0x0049,
            evdev: 0x006e,
            xkb: 0x0076,
            win: 0xe052,
            mac: 0x0072,
            code: Some(KeyMappingCode::Insert),
            id: KeyMappingId::Insert,
            modifier: None,
        },
        KeyMappingId::Home => KeyMap {
            usb: 0x004a,
            evdev: 0x0066,
            xkb: 0x006e,
            win: 0xe047,
            mac: 0x0073,
            code: Some(KeyMappingCode::Home),
            id: KeyMappingId::Home,
            modifier: None,
        },
        KeyMappingId::PageUp => KeyMap {
            usb: 0x004b,
            evdev: 0x0068,
            xkb: 0x0070,
            win: 0xe049,
            mac: 0x0074,
            code: Some(KeyMappingCode::PageUp),
            id: KeyMappingId::PageUp,
            modifier: None,
        },
        KeyMappingId::Del => KeyMap {
            usb: 0x004c,
            evdev: 0x006f,
            xkb: 0x0077,
            win: 0xe053,
            mac: 0x0075,
            code: Some(KeyMappingCode::Delete),
            id: KeyMappingId::Del,
            modifier: None,
        },
        KeyMappingId::End => KeyMap {
            usb: 0x004d,
            evdev: 0x006b,
            xkb: 0x0073,
            win: 0xe04f,
            mac: 0x0077,
            code: Some(KeyMappingCode::End),
            id: KeyMappingId::End,
            modifier: None,
        },
        KeyMappingId::PageDown => KeyMap {
            usb: 0x004e,
            evdev: 0x006d,
            xkb: 0x0075,
            win: 0xe051,
            mac: 0x0079,
            code: Some(KeyMappingCode::PageDown),
            id: KeyMappingId::PageDown,
            modifier: None,
        },
        KeyMappingId::ArrowRight => KeyMap {
            usb: 0x004f,
            evdev: 0x006a,
            xkb: 0x0072,
            win: 0xe04d,
            mac: 0x007c,
            code: Some(KeyMappingCode::ArrowRight),
            id: KeyMappingId::ArrowRight,
            modifier: None,
        },
        KeyMappingId::ArrowLeft => KeyMap {
            usb: 0x0050,
            evdev: 0x0069,
            xkb: 0x0071,
            win: 0xe04b,
            mac: 0x007b,
            code: Some(KeyMappingCode::ArrowLeft),
            id: KeyMappingId::ArrowLeft,
            modifier: None,
        },
        KeyMappingId::ArrowDown => KeyMap {
            usb: 0x0051,
            evdev: 0x006c,
            xkb: 0x0074,
            win: 0xe050,
            mac: 0x007d,
            code: Some(KeyMappingCode::ArrowDown),
            id: KeyMappingId::ArrowDown,
            modifier: None,
        },
        KeyMappingId::ArrowUp => KeyMap {
            usb: 0x0052,
            evdev: 0x0067,
            xkb: 0x006f,
            win: 0xe048,
            mac: 0x007e,
            code: Some(KeyMappingCode::ArrowUp),
            id: KeyMappingId::ArrowUp,
            modifier: None,
        },
        KeyMappingId::ControlLeft => KeyMap {
            usb: 0x00e0,
            evdev: 0x001d,
            xkb: 0x0025,
            win: 0x001d,
            mac: 0x003b,
            code: Some(KeyMappingCode::ControlLeft),
            id: KeyMappingId::ControlLeft,
            modifier: Some(KeyModifiers { bits: 0x01 }),
        },
        KeyMappingId::ShiftLeft => KeyMap {
            usb: 0x00e1,
            evdev: 0x002a,
            xkb: 0x0032,
            win: 0x002a,
            mac: 0x0038,
            code: Some(KeyMappingCode::ShiftLeft),
            id: KeyMappingId::ShiftLeft,
            modifier: Some(KeyModifiers { bits: 0x02 }),
        },
        KeyMappingId::AltLeft => KeyMap {
            usb: 0x00e2,
            evdev: 0x0038,
            xkb: 0x0040,
            win: 0x0038,
            mac: 0x003a,
            code: Some(KeyMappingCode::AltLeft),
            id: KeyMappingId::AltLeft,
            modifier: Some(KeyModifiers { bits: 0x04 }),
        },
        KeyMappingId::MetaLeft => KeyMap {
            usb: 0x00e3,
            evdev: 0x007d,
            xkb: 0x0085,
            win: 0xe05b,
            mac: 0x0037,
            code: Some(KeyMappingCode::MetaLeft),
            id: KeyMappingId::MetaLeft,
            modifier: Some(KeyModifiers { bits: 0x08 }),
        },
        KeyMappingId::ControlRight => KeyMap {
            usb: 0x00e4,
            evdev: 0x0061,
            xkb: 0x0069,
            win: 0xe01d,
            mac: 0x003e,
            code: Some(KeyMappingCode::ControlRight),
            id: KeyMappingId::ControlRight,
            modifier: Some(KeyModifiers { bits: 0x10 }),
        },
        KeyMappingId::ShiftRight => KeyMap {
            usb: 0x00e5,
            evdev: 0x0036,
            xkb: 0x003e,
            win: 0x0036,
            mac: 0x003c,
            code: Some(KeyMappingCode::ShiftRight),
            id: KeyMappingId::ShiftRight,
            modifier: Some(KeyModifiers { bits: 0x20 }),
        },
        KeyMappingId::AltRight => KeyMap {
            usb: 0x00e6,
            evdev: 0x0064,
            xkb: 0x006c,
            win: 0xe038,
            mac: 0x003d,
            code: Some(KeyMappingCode::AltRight),
            id: KeyMappingId::AltRight,
            modifier: Some(KeyModifiers { bits: 0x40 }),
        },
        KeyMappingId::MetaRight => KeyMap {
            usb: 0x00e7,
            evdev: 0x007e,
            xkb: 0x0086,
            win: 0xe05c,
            mac: 0x0036,
            code: Some(KeyMappingCode::MetaRight),
            id: KeyMappingId::MetaRight,
            modifier: Some(KeyModifiers { bits: 0x80 }),
        },
    }
}

/// The identifier at a given table position.
pub open spec fn id_at(i: int) -> KeyMappingId {
    if i == 0 {
        KeyMappingId::UsA
    } else if i == 1 {
        KeyMappingId::UsB
    } else if i == 2 {
        KeyMappingId::UsC
    } else if i == 3 {
        KeyMappingId::UsD
    } else if i == 4 {
        KeyMappingId::UsE
    } else if i == 5 {
        KeyMappingId::UsF
    } else if i == 6 {
        KeyMappingId::UsG
    } else if i == 7 {
        KeyMappingId::UsH
    } else if i == 8 {
        KeyMappingId::UsI
    } else if i == 9 {
        KeyMappingId::UsJ
    } else if i == 10 {
        KeyMappingId::UsK
    } else if i == 11 {
        KeyMappingId::UsL
    } else if i == 12 {
        KeyMappingId::UsM
    } else if i == 13 {
        KeyMappingId::UsN
    } else if i == 14 {
        KeyMappingId::UsO
    } else if i == 15 {
        KeyMappingId::UsP
    } else if i == 16 {
        KeyMappingId::UsQ
    } else if i == 17 {
        KeyMappingId::UsR
    } else if i == 18 {
        KeyMappingId::UsS
    } else if i == 19 {
        KeyMappingId::UsT
    } else if i == 20 {
        KeyMappingId::UsU
    } else if i == 21 {
        KeyMappingId::UsV
    } else if i == 22 {
        KeyMappingId::UsW
    } else if i == 23 {
        KeyMappingId::UsX
    } else if i == 24 {
        KeyMappingId::UsY
    } else if i == 25 {
        KeyMappingId::UsZ
    } else if i == 26 {
        KeyMappingId::Digit1
    } else if i == 27 {
        KeyMappingId::Digit2
    } else if i == 28 {
        KeyMappingId::Digit3
    } else if i == 29 {
        KeyMappingId::Digit4
    } else if i == 30 {
        KeyMappingId::Digit5
    } else if i == 31 {
        KeyMappingId::Digit6
    } else if i == 32 {
        KeyMappingId::Digit7
    } else if i == 33 {
        KeyMappingId::Digit8
    } else if i == 34 {
        KeyMappingId::Digit9
    } else if i == 35 {
        KeyMappingId::Digit0
    } else if i == 36 {
        KeyMappingId::Enter
    } else if i == 37 {
        KeyMappingId::Escape
    } else if i == 38 {
        KeyMappingId::Backspace
    } else if i == 39 {
        KeyMappingId::Tab
    } else if i == 40 {
        KeyMappingId::Space
    } else if i == 41 {
        KeyMappingId::Minus
    } else if i == 42 {
        KeyMappingId::Equal
    } else if i == 43 {
        KeyMappingId::BracketLeft
    } else if i == 44 {
        KeyMappingId::BracketRight
    } else if i == 45 {
        KeyMappingId::Backslash
    } else if i == 46 {
        KeyMappingId::Semicolon
    } else if i == 47 {
        KeyMappingId::Quote
    } else if i == 48 {
        KeyMappingId::Backquote
    } else if i == 49 {
        KeyMappingId::Comma
    } else if i == 50 {
        KeyMappingId::Period
    } else if i == 51 {
        KeyMappingId::Slash
    } else if i == 52 {
        KeyMappingId::CapsLock
    } else if i == 53 {
        KeyMappingId::F1
    } else if i == 54 {
        KeyMappingId::F2
    } else if i == 55 {
        KeyMappingId::F3
    } else if i == 56 {
        KeyMappingId::F4
    } else if i == 57 {
        KeyMappingId::F5
    } else if i == 58 {
        KeyMappingId::F6
    } else if i == 59 {
        KeyMappingId::F7
    } else if i == 60 {
        KeyMappingId::F8
    } else if i == 61 {
        KeyMappingId::F9
    } else if i == 62 {
        KeyMappingId::F10
    } else if i == 63 {
        KeyMappingId::F11
    } else if i == 64 {
        KeyMappingId::F12
    } else if i == 65 {
        KeyMappingId::Insert
    } else if i == 66 {
        KeyMappingId::Home
    } else if i == 67 {
        KeyMappingId::PageUp
    } else if i == 68 {
        KeyMappingId::Del
    } else if i == 69 {
        KeyMappingId::End
    } else if i == 70 {
        KeyMappingId::PageDown
    } else if i == 71 {
        KeyMappingId::ArrowRight
    } else if i == 72 {
        KeyMappingId::ArrowLeft
    } else if i == 73 {
        KeyMappingId::ArrowDown
    } else if i == 74 {
        KeyMappingId::ArrowUp
    } else if i == 75 {
        KeyMappingId::ControlLeft
    } else if i == 76 {
        KeyMappingId::ShiftLeft
    } else if i == 77 {
        KeyMappingId::AltLeft
    } else if i == 78 {
        KeyMappingId::MetaLeft
    } else if i == 79 {
        KeyMappingId::ControlRight
    } else if i == 80 {
        KeyMappingId::ShiftRight
    } else if i == 81 {
        KeyMappingId::AltRight
    } else if i == 82 {
        KeyMappingId::MetaRight
    } else {
        KeyMappingId::MetaRight
    }
}

/// The table position of an identifier.
pub open spec fn id_index(id: KeyMappingId) -> int {
    match id {
        KeyMappingId::UsA => 0,
        KeyMappingId::UsB => 1,
        KeyMappingId::UsC => 2,
        KeyMappingId::UsD => 3,
        KeyMappingId::UsE => 4,
        KeyMappingId::UsF => 5,
        KeyMappingId::UsG => 6,
        KeyMappingId::UsH => 7,
        KeyMappingId::UsI => 8,
        KeyMappingId::UsJ => 9,
        KeyMappingId::UsK => 10,
        KeyMappingId::UsL => 11,
        KeyMappingId::UsM => 12,
        KeyMappingId::UsN => 13,
        KeyMappingId::UsO => 14,
        KeyMappingId::UsP => 15,
        KeyMappingId::UsQ => 16,
        KeyMappingId::UsR => 17,
        KeyMappingId::UsS => 18,
        KeyMappingId::UsT => 19,
        KeyMappingId::UsU => 20,
        KeyMappingId::UsV => 21,
        KeyMappingId::UsW => 22,
        KeyMappingId::UsX => 23,
        KeyMappingId::UsY => 24,
        KeyMappingId::UsZ => 25,
        KeyMappingId::Digit1 => 26,
        KeyMappingId::Digit2 => 27,
        KeyMappingId::Digit3 => 28,
        KeyMappingId::Digit4 => 29,
        KeyMappingId::Digit5 => 30,
        KeyMappingId::Digit6 => 31,
        KeyMappingId::Digit7 => 32,
        KeyMappingId::Digit8 => 33,
        KeyMappingId::Digit9 => 34,
        KeyMappingId::Digit0 => 35,
        KeyMappingId::Enter => 36,
        KeyMappingId::Escape => 37,
        KeyMappingId::Backspace => 38,
        KeyMappingId::Tab => 39,
        KeyMappingId::Space => 40,
        KeyMappingId::Minus => 41,
        KeyMappingId::Equal => 42,
        KeyMappingId::BracketLeft => 43,
        KeyMappingId::BracketRight => 44,
        KeyMappingId::Backslash => 45,
        KeyMappingId::Semicolon => 46,
        KeyMappingId::Quote => 47,
        KeyMappingId::Backquote => 48,
        KeyMappingId::Comma => 49,
        KeyMappingId::Period => 50,
        KeyMappingId::Slash => 51,
        KeyMappingId::CapsLock => 52,
        KeyMappingId::F1 => 53,
        KeyMappingId::F2 => 54,
        KeyMappingId::F3 => 55,
        KeyMappingId::F4 => 56,
        KeyMappingId::F5 => 57,
        KeyMappingId::F6 => 58,
        KeyMappingId::F7 => 59,
        KeyMappingId::F8 => 60,
        KeyMappingId::F9 => 61,
        KeyMappingId::F10 => 62,
        KeyMappingId::F11 => 63,
        KeyMappingId::F12 => 64,
        KeyMappingId::Insert => 65,
        KeyMappingId::Home => 66,
        KeyMappingId::PageUp => 67,
        KeyMappingId::Del => 68,
        KeyMappingId::End => 69,
        KeyMappingId::PageDown => 70,
        KeyMappingId::ArrowRight => 71,
        KeyMappingId::ArrowLeft => 72,
        KeyMappingId::ArrowDown => 73,
        KeyMappingId::ArrowUp => 74,
        KeyMappingId::ControlLeft => 75,
        KeyMappingId::ShiftLeft => 76,
        KeyMappingId::AltLeft => 77,
        KeyMappingId::MetaLeft => 78,
        KeyMappingId::ControlRight => 79,
        KeyMappingId::ShiftRight => 80,
        KeyMappingId::AltRight => 81,
        KeyMappingId::MetaRight => 82,
    }
}

/// The record table, in table order.
pub open spec fn table() -> Seq<KeyMap> {
    Seq::new(table_len() as nat, |i: int| record_of(id_at(i)))
}

/// The identifier of the record holding a given usb value, if any.
pub open spec fn id_of_usb(v: u16) -> Option<KeyMappingId> {
    if v == 0x0004 {
        Some(KeyMappingId::UsA)
    } else if v == 0x0005 {
        Some(KeyMappingId::UsB)
    } else if v == 0x0006 {
        Some(KeyMappingId::UsC)
    } else if v == 0x0007 {
        Some(KeyMappingId::UsD)
    } else if v == 0x0008 {
        Some(KeyMappingId::UsE)
    } else if v == 0x0009 {
        Some(KeyMappingId::UsF)
    } else if v == 0x000a {
        Some(KeyMappingId::UsG)
    } else if v == 0x000b {
        Some(KeyMappingId::UsH)
    } else if v == 0x000c {
        Some(KeyMappingId::UsI)
    } else if v == 0x000d {
        Some(KeyMappingId::UsJ)
    } else if v == 0x000e {
        Some(KeyMappingId::UsK)
    } else if v == 0x000f {
        Some(KeyMappingId::UsL)
    } else if v == 0x0010 {
        Some(KeyMappingId::UsM)
    } else if v == 0x0011 {
        Some(KeyMappingId::UsN)
    } else if v == 0x0012 {
        Some(KeyMappingId::UsO)
    } else if v == 0x0013 {
        Some(KeyMappingId::UsP)
    } else if v == 0x0014 {
        Some(KeyMappingId::UsQ)
    } else if v == 0x0015 {
        Some(KeyMappingId::UsR)
    } else if v == 0x0016 {
        Some(KeyMappingId::UsS)
    } else if v == 0x0017 {
        Some(KeyMappingId::UsT)
    } else if v == 0x0018 {
        Some(KeyMappingId::UsU)
    } else if v == 0x0019 {
        Some(KeyMappingId::UsV)
    } else if v == 0x001a {
        Some(KeyMappingId::UsW)
    } else if v == 0x001b {
        Some(KeyMappingId::UsX)
    } else if v == 0x001c {
        Some(KeyMappingId::UsY)
    } else if v == 0x001d {
        Some(KeyMappingId::UsZ)
    } else if v == 0x001e {
        Some(KeyMappingId::Digit1)
    } else if v == 0x001f {
        Some(KeyMappingId::Digit2)
    } else if v == 0x0020 {
        Some(KeyMappingId::Digit3)
    } else if v == 0x0021 {
        Some(KeyMappingId::Digit4)
    } else if v == 0x0022 {
        Some(KeyMappingId::Digit5)
    } else if v == 0x0023 {
        Some(KeyMappingId::Digit6)
    } else if v == 0x0024 {
        Some(KeyMappingId::Digit7)
    } else if v == 0x0025 {
        Some(KeyMappingId::Digit8)
    } else if v == 0x0026 {
        Some(KeyMappingId::Digit9)
    } else if v == 0x0027 {
        Some(KeyMappingId::Digit0)
    } else if v == 0x0028 {
        Some(KeyMappingId::Enter)
    } else if v == 0x0029 {
        Some(KeyMappingId::Escape)
    } else if v == 0x002a {
        Some(KeyMappingId::Backspace)
    } else if v == 0x002b {
        Some(KeyMappingId::Tab)
    } else if v == 0x002c {
        Some(KeyMappingId::Space)
    } else if v == 0x002d {
        Some(KeyMappingId::Minus)
    } else if v == 0x002e {
        Some(KeyMappingId::Equal)
    } else if v == 0x002f {
        Some(KeyMappingId::BracketLeft)
    } else if v == 0x0030 {
        Some(KeyMappingId::BracketRight)
    } else if v == 0x0031 {
        Some(KeyMappingId::Backslash)
    } else if v == 0x0033 {
        Some(KeyMappingId::Semicolon)
    } else if v == 0x0034 {
        Some(KeyMappingId::Quote)
    } else if v == 0x0035 {
        Some(KeyMappingId::Backquote)
    } else if v == 0x0036 {
        Some(KeyMappingId::Comma)
    } else if v == 0x0037 {
        Some(KeyMappingId::Period)
    } else if v == 0x0038 {
        Some(KeyMappingId::Slash)
    } else if v == 0x0039 {
        Some(KeyMappingId::CapsLock)
    } else if v == 0x003a {
        Some(KeyMappingId::F1)
    } else if v == 0x003b {
        Some(KeyMappingId::F2)
    } else if v == 0x003c {
        Some(KeyMappingId::F3)
    } else if v == 0x003d {
        Some(KeyMappingId::F4)
    } else if v == 0x003e {
        Some(KeyMappingId::F5)
    } else if v == 0x003f {
        Some(KeyMappingId::F6)
    } else if v == 0x0040 {
        Some(KeyMappingId::F7)
    } else if v == 0x0041 {
        Some(KeyMappingId::F8)
    } else if v == 0x0042 {
        Some(KeyMappingId::F9)
    } else if v == 0x0043 {
        Some(KeyMappingId::F10)
    } else if v == 0x0044 {
        Some(KeyMappingId::F11)
    } else if v == 0x0045 {
        Some(KeyMappingId::F12)
    } else if v == 0x0049 {
        Some(KeyMappingId::Insert)
    } else if v == 0x004a {
        Some(KeyMappingId::Home)
    } else if v == 0x004b {
        Some(KeyMappingId::PageUp)
    } else if v == 0x004c {
        Some(KeyMappingId::Del)
    } else if v == 0x004d {
        Some(KeyMappingId::End)
    } else if v == 0x004e {
        Some(KeyMappingId::PageDown)
    } else if v == 0x004f {
        Some(KeyMappingId::ArrowRight)
    } else if v == 0x0050 {
        Some(KeyMappingId::ArrowLeft)
    } else if v == 0x0051 {
        Some(KeyMappingId::ArrowDown)
    } else if v == 0x0052 {
        Some(KeyMappingId::ArrowUp)
    } else if v == 0x00e0 {
        Some(KeyMappingId::ControlLeft)
    } else if v == 0x00e1 {
        Some(KeyMappingId::ShiftLeft)
    } else if v == 0x00e2 {
        Some(KeyMappingId::AltLeft)
    } else if v == 0x00e3 {
        Some(KeyMappingId::MetaLeft)
    } else if v == 0x00e4 {
        Some(KeyMappingId::ControlRight)
    } else if v == 0x00e5 {
        Some(KeyMappingId::ShiftRight)
    } else if v == 0x00e6 {
        Some(KeyMappingId::AltRight)
    } else if v == 0x00e7 {
        Some(KeyMappingId::MetaRight)
    } else {
        None
    }
}

/// The identifier of the record holding a given evdev value, if any.
pub open spec fn id_of_evdev(v: u16) -> Option<KeyMappingId> {
    if v == 0x001e {
        Some(KeyMappingId::UsA)
    } else if v == 0x0030 {
        Some(KeyMappingId::UsB)
    } else if v == 0x002e {
        Some(KeyMappingId::UsC)
    } else if v == 0x0020 {
        Some(KeyMappingId::UsD)
    } else if v == 0x0012 {
        Some(KeyMappingId::UsE)
    } else if v == 0x0021 {
        Some(KeyMappingId::UsF)
    } else if v == 0x0022 {
        Some(KeyMappingId::UsG)
    } else if v == 0x0023 {
        Some(KeyMappingId::UsH)
    } else if v == 0x0017 {
        Some(KeyMappingId::UsI)
    } else if v == 0x0024 {
        Some(KeyMappingId::UsJ)
    } else if v == 0x0025 {
        Some(KeyMappingId::UsK)
    } else if v == 0x0026 {
        Some(KeyMappingId::UsL)
    } else if v == 0x0032 {
        Some(KeyMappingId::UsM)
    } else if v == 0x0031 {
        Some(KeyMappingId::UsN)
    } else if v == 0x0018 {
        Some(KeyMappingId::UsO)
    } else if v == 0x0019 {
        Some(KeyMappingId::UsP)
    } else if v == 0x0010 {
        Some(KeyMappingId::UsQ)
    } else if v == 0x0013 {
        Some(KeyMappingId::UsR)
    } else if v == 0x001f {
        Some(KeyMappingId::UsS)
    } else if v == 0x0014 {
        Some(KeyMappingId::UsT)
    } else if v == 0x0016 {
        Some(KeyMappingId::UsU)
    } else if v == 0x002f {
        Some(KeyMappingId::UsV)
    } else if v == 0x0011 {
        Some(KeyMappingId::UsW)
    } else if v == 0x002d {
        Some(KeyMappingId::UsX)
    } else if v == 0x0015 {
        Some(KeyMappingId::UsY)
    } else if v == 0x002c {
        Some(KeyMappingId::UsZ)
    } else if v == 0x0002 {
        Some(KeyMappingId::Digit1)
    } else if v == 0x0003 {
        Some(KeyMappingId::Digit2)
    } else if v == 0x0004 {
        Some(KeyMappingId::Digit3)
    } else if v == 0x0005 {
        Some(KeyMappingId::Digit4)
    } else if v == 0x0006 {
        Some(KeyMappingId::Digit5)
    } else if v == 0x0007 {
        Some(KeyMappingId::Digit6)
    } else if v == 0x0008 {
        Some(KeyMappingId::Digit7)
    } else if v == 0x0009 {
        Some(KeyMappingId::Digit8)
    } else if v == 0x000a {
        Some(KeyMappingId::Digit9)
    } else if v == 0x000b {
        Some(KeyMappingId::Digit0)
    } else if v == 0x001c {
        Some(KeyMappingId::Enter)
    } else if v == 0x0001 {
        Some(KeyMappingId::Escape)
    } else if v == 0x000e {
        Some(KeyMappingId::Backspace)
    } else if v == 0x000f {
        Some(KeyMappingId::Tab)
    } else if v == 0x0039 {
        Some(KeyMappingId::Space)
    } else if v == 0x000c {
        Some(KeyMappingId::Minus)
    } else if v == 0x000d {
        Some(KeyMappingId::Equal)
    } else if v == 0x001a {
        Some(KeyMappingId::BracketLeft)
    } else if v == 0x001b {
        Some(KeyMappingId::BracketRight)
    } else if v == 0x002b {
        Some(KeyMappingId::Backslash)
    } else if v == 0x0027 {
        Some(KeyMappingId::Semicolon)
    } else if v == 0x0028 {
        Some(KeyMappingId::Quote)
    } else if v == 0x0029 {
        Some(KeyMappingId::Backquote)
    } else if v == 0x0033 {
        Some(KeyMappingId::Comma)
    } else if v == 0x0034 {
        Some(KeyMappingId::Period)
    } else if v == 0x0035 {
        Some(KeyMappingId::Slash)
    } else if v == 0x003a {
        Some(KeyMappingId::CapsLock)
    } else if v == 0x003b {
        Some(KeyMappingId::F1)
    } else if v == 0x003c {
        Some(KeyMappingId::F2)
    } else if v == 0x003d {
        Some(KeyMappingId::F3)
    } else if v == 0x003e {
        Some(KeyMappingId::F4)
    } else if v == 0x003f {
        Some(KeyMappingId::F5)
    } else if v == 0x0040 {
        Some(KeyMappingId::F6)
    } else if v == 0x0041 {
        Some(KeyMappingId::F7)
    } else if v == 0x0042 {
        Some(KeyMappingId::F8)
    } else if v == 0x0043 {
        Some(KeyMappingId::F9)
    } else if v == 0x0044 {
        Some(KeyMappingId::F10)
    } else if v == 0x0057 {
        Some(KeyMappingId::F11)
    } else if v == 0x0058 {
        Some(KeyMappingId::F12)
    } else if v == 0x006e {
        Some(KeyMappingId::Insert)
    } else if v == 0x0066 {
        Some(KeyMappingId::Home)
    } else if v == 0x0068 {
        Some(KeyMappingId::PageUp)
    } else if v == 0x006f {
        Some(KeyMappingId::Del)
    } else if v == 0x006b {
        Some(KeyMappingId::End)
    } else if v == 0x006d {
        Some(KeyMappingId::PageDown)
    } else if v == 0x006a {
        Some(KeyMappingId::ArrowRight)
    } else if v == 0x0069 {
        Some(KeyMappingId::ArrowLeft)
    } else if v == 0x006c {
        Some(KeyMappingId::ArrowDown)
    } else if v == 0x0067 {
        Some(KeyMappingId::ArrowUp)
    } else if v == 0x001d {
        Some(KeyMappingId::ControlLeft)
    } else if v == 0x002a {
        Some(KeyMappingId::ShiftLeft)
    } else if v == 0x0038 {
        Some(KeyMappingId::AltLeft)
    } else if v == 0x007d {
        Some(KeyMappingId::MetaLeft)
    } else if v == 0x0061 {
        Some(KeyMappingId::ControlRight)
    } else if v == 0x0036 {
        Some(KeyMappingId::ShiftRight)
    } else if v == 0x0064 {
        Some(KeyMappingId::AltRight)
    } else if v == 0x007e {
        Some(KeyMappingId::MetaRight)
    } else {
        None
    }
}

/// The identifier of the record holding a given xkb value, if any.
pub open spec fn id_of_xkb(v: u16) -> Option<KeyMappingId> {
    if v == 0x0026 {
        Some(KeyMappingId::UsA)
    } else if v == 0x0038 {
        Some(KeyMappingId::UsB)
    } else if v == 0x0036 {
        Some(KeyMappingId::UsC)
    } else if v == 0x0028 {
        Some(KeyMappingId::UsD)
    } else if v == 0x001a {
        Some(KeyMappingId::UsE)
    } else if v == 0x0029 {
        Some(KeyMappingId::UsF)
    } else if v == 0x002a {
        Some(KeyMappingId::UsG)
    } else if v == 0x002b {
        Some(KeyMappingId::UsH)
    } else if v == 0x001f {
        Some(KeyMappingId::UsI)
    } else if v == 0x002c {
        Some(KeyMappingId::UsJ)
    } else if v == 0x002d {
        Some(KeyMappingId::UsK)
    } else if v == 0x002e {
        Some(KeyMappingId::UsL)
    } else if v == 0x003a {
        Some(KeyMappingId::UsM)
    } else if v == 0x0039 {
        Some(KeyMappingId::UsN)
    } else if v == 0x0020 {
        Some(KeyMappingId::UsO)
    } else if v == 0x0021 {
        Some(KeyMappingId::UsP)
    } else if v == 0x0018 {
        Some(KeyMappingId::UsQ)
    } else if v == 0x001b {
        Some(KeyMappingId::UsR)
    } else if v == 0x0027 {
        Some(KeyMappingId::UsS)
    } else if v == 0x001c {
        Some(KeyMappingId::UsT)
    } else if v == 0x001e {
        Some(KeyMappingId::UsU)
    } else if v == 0x0037 {
        Some(KeyMappingId::UsV)
    } else if v == 0x0019 {
        Some(KeyMappingId::UsW)
    } else if v == 0x0035 {
        Some(KeyMappingId::UsX)
    } else if v == 0x001d {
        Some(KeyMappingId::UsY)
    } else if v == 0x0034 {
        Some(KeyMappingId::UsZ)
    } else if v == 0x000a {
        Some(KeyMappingId::Digit1)
    } else if v == 0x000b {
        Some(KeyMappingId::Digit2)
    } else if v == 0x000c {
        Some(KeyMappingId::Digit3)
    } else if v == 0x000d {
        Some(KeyMappingId::Digit4)
    } else if v == 0x000e {
        Some(KeyMappingId::Digit5)
    } else if v == 0x000f {
        Some(KeyMappingId::Digit6)
    } else if v == 0x0010 {
        Some(KeyMappingId::Digit7)
    } else if v == 0x0011 {
        Some(KeyMappingId::Digit8)
    } else if v == 0x0012 {
        Some(KeyMappingId::Digit9)
    } else if v == 0x0013 {
        Some(KeyMappingId::Digit0)
    } else if v == 0x0024 {
        Some(KeyMappingId::Enter)
    } else if v == 0x0009 {
        Some(KeyMappingId::Escape)
    } else if v == 0x0016 {
        Some(KeyMappingId::Backspace)
    } else if v == 0x0017 {
        Some(KeyMappingId::Tab)
    } else if v == 0x0041 {
        Some(KeyMappingId::Space)
    } else if v == 0x0014 {
        Some(KeyMappingId::Minus)
    } else if v == 0x0015 {
        Some(KeyMappingId::Equal)
    } else if v == 0x0022 {
        Some(KeyMappingId::BracketLeft)
    } else if v == 0x0023 {
        Some(KeyMappingId::BracketRight)
    } else if v == 0x0033 {
        Some(KeyMappingId::Backslash)
    } else if v == 0x002f {
        Some(KeyMappingId::Semicolon)
    } else if v == 0x0030 {
        Some(KeyMappingId::Quote)
    } else if v == 0x0031 {
        Some(KeyMappingId::Backquote)
    } else if v == 0x003b {
        Some(KeyMappingId::Comma)
    } else if v == 0x003c {
        Some(KeyMappingId::Period)
    } else if v == 0x003d {
        Some(KeyMappingId::Slash)
    } else if v == 0x0042 {
        Some(KeyMappingId::CapsLock)
    } else if v == 0x0043 {
        Some(KeyMappingId::F1)
    } else if v == 0x0044 {
        Some(KeyMappingId::F2)
    } else if v == 0x0045 {
        Some(KeyMappingId::F3)
    } else if v == 0x0046 {
        Some(KeyMappingId::F4)
    } else if v == 0x0047 {
        Some(KeyMappingId::F5)
    } else if v == 0x0048 {
        Some(KeyMappingId::F6)
    } else if v == 0x0049 {
        Some(KeyMappingId::F7)
    } else if v == 0x004a {
        Some(KeyMappingId::F8)
    } else if v == 0x004b {
        Some(KeyMappingId::F9)
    } else if v == 0x004c {
        Some(KeyMappingId::F10)
    } else if v == 0x005f {
        Some(KeyMappingId::F11)
    } else if v == 0x0060 {
        Some(KeyMappingId::F12)
    } else if v == 0x0076 {
        Some(KeyMappingId::Insert)
    } else if v == 0x006e {
        Some(KeyMappingId::Home)
    } else if v == 0x0070 {
        Some(KeyMappingId::PageUp)
    } else if v == 0x0077 {
        Some(KeyMappingId::Del)
    } else if v == 0x0073 {
        Some(KeyMappingId::End)
    } else if v == 0x0075 {
        Some(KeyMappingId::PageDown)
    } else if v == 0x0072 {
        Some(KeyMappingId::ArrowRight)
    } else if v == 0x0071 {
        Some(KeyMappingId::ArrowLeft)
    } else if v == 0x0074 {
        Some(KeyMappingId::ArrowDown)
    } else if v == 0x006f {
        Some(KeyMappingId::ArrowUp)
    } else if v == 0x0025 {
        Some(KeyMappingId::ControlLeft)
    } else if v == 0x0032 {
        Some(KeyMappingId::ShiftLeft)
    } else if v == 0x0040 {
        Some(KeyMappingId::AltLeft)
    } else if v == 0x0085 {
        Some(KeyMappingId::MetaLeft)
    } else if v == 0x0069 {
        Some(KeyMappingId::ControlRight)
    } else if v == 0x003e {
        Some(KeyMappingId::ShiftRight)
    } else if v == 0x006c {
        Some(KeyMappingId::AltRight)
    } else if v == 0x0086 {
        Some(KeyMappingId::MetaRight)
    } else {
        None
    }
}

/// The identifier of the record holding a given win value, if any.
pub open spec fn id_of_win(v: u16) -> Option<KeyMappingId> {
    if v == 0x001e {
        Some(KeyMappingId::UsA)
    } else if v == 0x0030 {
        Some(KeyMappingId::UsB)
    } else if v == 0x002e {
        Some(KeyMappingId::UsC)
    } else if v == 0x0020 {
        Some(KeyMappingId::UsD)
    } else if v == 0x0012 {
        Some(KeyMappingId::UsE)
    } else if v == 0x0021 {
        Some(KeyMappingId::UsF)
    } else if v == 0x0022 {
        Some(KeyMappingId::UsG)
    } else if v == 0x0023 {
        Some(KeyMappingId::UsH)
    } else if v == 0x0017 {
        Some(KeyMappingId::UsI)
    } else if v == 0x0024 {
        Some(KeyMappingId::UsJ)
    } else if v == 0x0025 {
        Some(KeyMappingId::UsK)
    } else if v == 0x0026 {
        Some(KeyMappingId::UsL)
    } else if v == 0x0032 {
        Some(KeyMappingId::UsM)
    } else if v == 0x0031 {
        Some(KeyMappingId::UsN)
    } else if v == 0x0018 {
        Some(KeyMappingId::UsO)
    } else if v == 0x0019 {
        Some(KeyMappingId::UsP)
    } else if v == 0x0010 {
        Some(KeyMappingId::UsQ)
    } else if v == 0x0013 {
        Some(KeyMappingId::UsR)
    } else if v == 0x001f {
        Some(KeyMappingId::UsS)
    } else if v == 0x0014 {
        Some(KeyMappingId::UsT)
    } else if v == 0x0016 {
        Some(KeyMappingId::UsU)
    } else if v == 0x002f {
        Some(KeyMappingId::UsV)
    } else if v == 0x0011 {
        Some(KeyMappingId::UsW)
    } else if v == 0x002d {
        Some(KeyMappingId::UsX)
    } else if v == 0x0015 {
        Some(KeyMappingId::UsY)
    } else if v == 0x002c {
        Some(KeyMappingId::UsZ)
    } else if v == 0x0002 {
        Some(KeyMappingId::Digit1)
    } else if v == 0x0003 {
        Some(KeyMappingId::Digit2)
    } else if v == 0x0004 {
        Some(KeyMappingId::Digit3)
    } else if v == 0x0005 {
        Some(KeyMappingId::Digit4)
    } else if v == 0x0006 {
        Some(KeyMappingId::Digit5)
    } else if v == 0x0007 {
        Some(KeyMappingId::Digit6)
    } else if v == 0x0008 {
        Some(KeyMappingId::Digit7)
    } else if v == 0x0009 {
        Some(KeyMappingId::Digit8)
    } else if v == 0x000a {
        Some(KeyMappingId::Digit9)
    } else if v == 0x000b {
        Some(KeyMappingId::Digit0)
    } else if v == 0x001c {
        Some(KeyMappingId::Enter)
    } else if v == 0x0001 {
        Some(KeyMappingId::Escape)
    } else if v == 0x000e {
        Some(KeyMappingId::Backspace)
    } else if v == 0x000f {
        Some(KeyMappingId::Tab)
    } else if v == 0x0039 {
        Some(KeyMappingId::Space)
    } else if v == 0x000c {
        Some(KeyMappingId::Minus)
    } else if v == 0x000d {
        Some(KeyMappingId::Equal)
    } else if v == 0x001a {
        Some(KeyMappingId::BracketLeft)
    } else if v == 0x001b {
        Some(KeyMappingId::BracketRight)
    } else if v == 0x002b {
        Some(KeyMappingId::Backslash)
    } else if v == 0x0027 {
        Some(KeyMappingId::Semicolon)
    } else if v == 0x0028 {
        Some(KeyMappingId::Quote)
    } else if v == 0x0029 {
        Some(KeyMappingId::Backquote)
    } else if v == 0x0033 {
        Some(KeyMappingId::Comma)
    } else if v == 0x0034 {
        Some(KeyMappingId::Period)
    } else if v == 0x0035 {
        Some(KeyMappingId::Slash)
    } else if v == 0x003a {
        Some(KeyMappingId::CapsLock)
    } else if v == 0x003b {
        Some(KeyMappingId::F1)
    } else if v == 0x003c {
        Some(KeyMappingId::F2)
    } else if v == 0x003d {
        Some(KeyMappingId::F3)
    } else if v == 0x003e {
        Some(KeyMappingId::F4)
    } else if v == 0x003f {
        Some(KeyMappingId::F5)
    } else if v == 0x0040 {
        Some(KeyMappingId::F6)
    } else if v == 0x0041 {
        Some(KeyMappingId::F7)
    } else if v == 0x0042 {
        Some(KeyMappingId::F8)
    } else if v == 0x0043 {
        Some(KeyMappingId::F9)
    } else if v == 0x0044 {
        Some(KeyMappingId::F10)
    } else if v == 0x0057 {
        Some(KeyMappingId::F11)
    } else if v == 0x0058 {
        Some(KeyMappingId::F12)
    } else if v == 0xe052 {
        Some(KeyMappingId::Insert)
    } else if v == 0xe047 {
        Some(KeyMappingId::Home)
    } else if v == 0xe049 {
        Some(KeyMappingId::PageUp)
    } else if v == 0xe053 {
        Some(KeyMappingId::Del)
    } else if v == 0xe04f {
        Some(KeyMappingId::End)
    } else if v == 0xe051 {
        Some(KeyMappingId::PageDown)
    } else if v == 0xe04d {
        Some(KeyMappingId::ArrowRight)
    } else if v == 0xe04b {
        Some(KeyMappingId::ArrowLeft)
    } else if v == 0xe050 {
        Some(KeyMappingId::ArrowDown)
    } else if v == 0xe048 {
        Some(KeyMappingId::ArrowUp)
    } else if v == 0x001d {
        Some(KeyMappingId::ControlLeft)
    } else if v == 0x002a {
        Some(KeyMappingId::ShiftLeft)
    } else if v == 0x0038 {
        Some(KeyMappingId::AltLeft)
    } else if v == 0xe05b {
        Some(KeyMappingId::MetaLeft)
    } else if v == 0xe01d {
        Some(KeyMappingId::ControlRight)
    } else if v == 0x0036 {
        Some(KeyMappingId::ShiftRight)
    } else if v == 0xe038 {
        Some(KeyMappingId::AltRight)
    } else if v == 0xe05c {
        Some(KeyMappingId::MetaRight)
    } else {
        None
    }
}

/// The identifier of the record holding a given mac value, if any.
pub open spec fn id_of_mac(v: u16) -> Option<KeyMappingId> {
    if v == 0x0000 {
        Some(KeyMappingId::UsA)
    } else if v == 0x000b {
        Some(KeyMappingId::UsB)
    } else if v == 0x0008 {
        Some(KeyMappingId::UsC)
    } else if v == 0x0002 {
        Some(KeyMappingId::UsD)
    } else if v == 0x000e {
        Some(KeyMappingId::UsE)
    } else if v == 0x0003 {
        Some(KeyMappingId::UsF)
    } else if v == 0x0005 {
        Some(KeyMappingId::UsG)
    } else if v == 0x0004 {
        Some(KeyMappingId::UsH)
    } else if v == 0x0022 {
        Some(KeyMappingId::UsI)
    } else if v == 0x0026 {
        Some(KeyMappingId::UsJ)
    } else if v == 0x0028 {
        Some(KeyMappingId::UsK)
    } else if v == 0x0025 {
        Some(KeyMappingId::UsL)
    } else if v == 0x002e {
        Some(KeyMappingId::UsM)
    } else if v == 0x002d {
        Some(KeyMappingId::UsN)
    } else if v == 0x001f {
        Some(KeyMappingId::UsO)
    } else if v == 0x0023 {
        Some(KeyMappingId::UsP)
    } else if v == 0x000c {
        Some(KeyMappingId::UsQ)
    } else if v == 0x000f {
        Some(KeyMappingId::UsR)
    } else if v == 0x0001 {
        Some(KeyMappingId::UsS)
    } else if v == 0x0011 {
        Some(KeyMappingId::UsT)
    } else if v == 0x0020 {
        Some(KeyMappingId::UsU)
    } else if v == 0x0009 {
        Some(KeyMappingId::UsV)
    } else if v == 0x000d {
        Some(KeyMappingId::UsW)
    } else if v == 0x0007 {
        Some(KeyMappingId::UsX)
    } else if v == 0x0010 {
        Some(KeyMappingId::UsY)
    } else if v == 0x0006 {
        Some(KeyMappingId::UsZ)
    } else if v == 0x0012 {
        Some(KeyMappingId::Digit1)
    } else if v == 0x0013 {
        Some(KeyMappingId::Digit2)
    } else if v == 0x0014 {
        Some(KeyMappingId::Digit3)
    } else if v == 0x0015 {
        Some(KeyMappingId::Digit4)
    } else if v == 0x0017 {
        Some(KeyMappingId::Digit5)
    } else if v == 0x0016 {
        Some(KeyMappingId::Digit6)
    } else if v == 0x001a {
        Some(KeyMappingId::Digit7)
    } else if v == 0x001c {
        Some(KeyMappingId::Digit8)
    } else if v == 0x0019 {
        Some(KeyMappingId::Digit9)
    } else if v == 0x001d {
        Some(KeyMappingId::Digit0)
    } else if v == 0x0024 {
        Some(KeyMappingId::Enter)
    } else if v == 0x0035 {
        Some(KeyMappingId::Escape)
    } else if v == 0x0033 {
        Some(KeyMappingId::Backspace)
    } else if v == 0x0030 {
        Some(KeyMappingId::Tab)
    } else if v == 0x0031 {
        Some(KeyMappingId::Space)
    } else if v == 0x001b {
        Some(KeyMappingId::Minus)
    } else if v == 0x0018 {
        Some(KeyMappingId::Equal)
    } else if v == 0x0021 {
        Some(KeyMappingId::BracketLeft)
    } else if v == 0x001e {
        Some(KeyMappingId::BracketRight)
    } else if v == 0x002a {
        Some(KeyMappingId::Backslash)
    } else if v == 0x0029 {
        Some(KeyMappingId::Semicolon)
    } else if v == 0x0027 {
        Some(KeyMappingId::Quote)
    } else if v == 0x0032 {
        Some(KeyMappingId::Backquote)
    } else if v == 0x002b {
        Some(KeyMappingId::Comma)
    } else if v == 0x002f {
        Some(KeyMappingId::Period)
    } else if v == 0x002c {
        Some(KeyMappingId::Slash)
    } else if v == 0x0039 {
        Some(KeyMappingId::CapsLock)
    } else if v == 0x007a {
        Some(KeyMappingId::F1)
    } else if v == 0x0078 {
        Some(KeyMappingId::F2)
    } else if v == 0x0063 {
        Some(KeyMappingId::F3)
    } else if v == 0x0076 {
        Some(KeyMappingId::F4)
    } else if v == 0x0060 {
        Some(KeyMappingId::F5)
    } else if v == 0x0061 {
        Some(KeyMappingId::F6)
    } else if v == 0x0062 {
        Some(KeyMappingId::F7)
    } else if v == 0x0064 {
        Some(KeyMappingId::F8)
    } else if v == 0x0065 {
        Some(KeyMappingId::F9)
    } else if v == 0x006d {
        Some(KeyMappingId::F10)
    } else if v == 0x0067 {
        Some(KeyMappingId::F11)
    } else if v == 0x006f {
        Some(KeyMappingId::F12)
    } else if v == 0x0072 {
        Some(KeyMappingId::Insert)
    } else if v == 0x0073 {
        Some(KeyMappingId::Home)
    } else if v == 0x0074 {
        Some(KeyMappingId::PageUp)
    } else if v == 0x0075 {
        Some(KeyMappingId::Del)
    } else if v == 0x0077 {
        Some(KeyMappingId::End)
    } else if v == 0x0079 {
        Some(KeyMappingId::PageDown)
    } else if v == 0x007c {
        Some(KeyMappingId::ArrowRight)
    } else if v == 0x007b {
        Some(KeyMappingId::ArrowLeft)
    } else if v == 0x007d {
        Some(KeyMappingId::ArrowDown)
    } else if v == 0x007e {
        Some(KeyMappingId::ArrowUp)
    } else if v == 0x003b {
        Some(KeyMappingId::ControlLeft)
    } else if v == 0x0038 {
        Some(KeyMappingId::ShiftLeft)
    } else if v == 0x003a {
        Some(KeyMappingId::AltLeft)
    } else if v == 0x0037 {
        Some(KeyMappingId::MetaLeft)
    } else if v == 0x003e {
        Some(KeyMappingId::ControlRight)
    } else if v == 0x003c {
        Some(KeyMappingId::ShiftRight)
    } else if v == 0x003d {
        Some(KeyMappingId::AltRight)
    } else if v == 0x0036 {
        Some(KeyMappingId::MetaRight)
    } else {
        None
    }
}

/// The identifier whose record carries a given browser code.
pub open spec fn id_of_code(c: KeyMappingCode) -> KeyMappingId {
    match c {
        KeyMappingCode::KeyA => KeyMappingId::UsA,
        KeyMappingCode::KeyB => KeyMappingId::UsB,
        KeyMappingCode::KeyC => KeyMappingId::UsC,
        KeyMappingCode::KeyD => KeyMappingId::UsD,
        KeyMappingCode::KeyE => KeyMappingId::UsE,
        KeyMappingCode::KeyF => KeyMappingId::UsF,
        KeyMappingCode::KeyG => KeyMappingId::UsG,
        KeyMappingCode::KeyH => KeyMappingId::UsH,
        KeyMappingCode::KeyI => KeyMappingId::UsI,
        KeyMappingCode::KeyJ => KeyMappingId::UsJ,
        KeyMappingCode::KeyK => KeyMappingId::UsK,
        KeyMappingCode::KeyL => KeyMappingId::UsL,
        KeyMappingCode::KeyM => KeyMappingId::UsM,
        KeyMappingCode::KeyN => KeyMappingId::UsN,
        KeyMappingCode::KeyO => KeyMappingId::UsO,
        KeyMappingCode::KeyP => KeyMappingId::UsP,
        KeyMappingCode::KeyQ => KeyMappingId::UsQ,
        KeyMappingCode::KeyR => KeyMappingId::UsR,
        KeyMappingCode::KeyS => KeyMappingId::UsS,
        KeyMappingCode::KeyT => KeyMappingId::UsT,
        KeyMappingCode::KeyU => KeyMappingId::UsU,
        KeyMappingCode::KeyV => KeyMappingId::UsV,
        KeyMappingCode::KeyW => KeyMappingId::UsW,
        KeyMappingCode::KeyX => KeyMappingId::UsX,
        KeyMappingCode::KeyY => KeyMappingId::UsY,
        KeyMappingCode::KeyZ => KeyMappingId::UsZ,
        KeyMappingCode::Digit1 => KeyMappingId::Digit1,
        KeyMappingCode::Digit2 => KeyMappingId::Digit2,
        KeyMappingCode::Digit3 => KeyMappingId::Digit3,
        KeyMappingCode::Digit4 => KeyMappingId::Digit4,
        KeyMappingCode::Digit5 => KeyMappingId::Digit5,
        KeyMappingCode::Digit6 => KeyMappingId::Digit6,
        KeyMappingCode::Digit7 => KeyMappingId::Digit7,
        KeyMappingCode::Digit8 => KeyMappingId::Digit8,
        KeyMappingCode::Digit9 => KeyMappingId::Digit9,
        KeyMappingCode::Digit0 => KeyMappingId::Digit0,
        KeyMappingCode::Enter => KeyMappingId::Enter,
        KeyMappingCode::Escape => KeyMappingId::Escape,
        KeyMappingCode::Backspace => KeyMappingId::Backspace,
        KeyMappingCode::Tab => KeyMappingId::Tab,
        KeyMappingCode::Space => KeyMappingId::Space,
        KeyMappingCode::Minus => KeyMappingId::Minus,
        KeyMappingCode::Equal => KeyMappingId::Equal,
        KeyMappingCode::BracketLeft => KeyMappingId::BracketLeft,
        KeyMappingCode::BracketRight => KeyMappingId::BracketRight,
        KeyMappingCode::Backslash => KeyMappingId::Backslash,
        KeyMappingCode::Semicolon => KeyMappingId::Semicolon,
        KeyMappingCode::Quote => KeyMappingId::Quote,
        KeyMappingCode::Backquote => KeyMappingId::Backquote,
        KeyMappingCode::Comma => KeyMappingId::Comma,
        KeyMappingCode::Period => KeyMappingId::Period,
        KeyMappingCode::Slash => KeyMappingId::Slash,
        KeyMappingCode::CapsLock => KeyMappingId::CapsLock,
        KeyMappingCode::F1 => KeyMappingId::F1,
        KeyMappingCode::F2 => KeyMappingId::F2,
        KeyMappingCode::F3 => KeyMappingId::F3,
        KeyMappingCode::F4 => KeyMappingId::F4,
        KeyMappingCode::F5 => KeyMappingId::F5,
        KeyMappingCode::F6 => KeyMappingId::F6,
        KeyMappingCode::F7 => KeyMappingId::F7,
        KeyMappingCode::F8 => KeyMappingId::F8,
        KeyMappingCode::F9 => KeyMappingId::F9,
        KeyMappingCode::F10 => KeyMappingId::F10,
        KeyMappingCode::F11 => KeyMappingId::F11,
        KeyMappingCode::F12 => KeyMappingId::F12,
        KeyMappingCode::Insert => KeyMappingId::Insert,
        KeyMappingCode::Home => KeyMappingId::Home,
        KeyMappingCode::PageUp => KeyMappingId::PageUp,
        KeyMappingCode::Delete => KeyMappingId::Del,
        KeyMappingCode::End => KeyMappingId::End,
        KeyMappingCode::PageDown => KeyMappingId::PageDown,
        KeyMappingCode::ArrowRight => KeyMappingId::ArrowRight,
        KeyMappingCode::ArrowLeft => KeyMappingId::ArrowLeft,
        KeyMappingCode::ArrowDown => KeyMappingId::ArrowDown,
        KeyMappingCode::ArrowUp => KeyMappingId::ArrowUp,
        KeyMappingCode::ControlLeft => KeyMappingId::ControlLeft,
        KeyMappingCode::ShiftLeft => KeyMappingId::ShiftLeft,
        KeyMappingCode::AltLeft => KeyMappingId::AltLeft,
        KeyMappingCode::MetaLeft => KeyMappingId::MetaLeft,
        KeyMappingCode::ControlRight => KeyMappingId::ControlRight,
        KeyMappingCode::ShiftRight => KeyMappingId::ShiftRight,
        KeyMappingCode::AltRight => KeyMappingId::AltRight,
        KeyMappingCode::MetaRight => KeyMappingId::MetaRight,
    }
}

/// Each record carries the identifier it is filed under, sits at that
/// identifier's table position, and is found again by any of its own
/// encoding values; its modifier bit is set exactly for the eight
/// modifier keys.
pub proof fn lemma_record_consistent(id: KeyMappingId)
    ensures
        record_of(id).id == id,
        0 <= id_index(id) < table_len(),
        id_at(id_index(id)) == id,
        table()[id_index(id)] == record_of(id),
        id_of_usb(record_of(id).usb) == Some(id),
        id_of_evdev(record_of(id).evdev) == Some(id),
        id_of_xkb(record_of(id).xkb) == Some(id),
        id_of_win(record_of(id).win) == Some(id),
        id_of_mac(record_of(id).mac) == Some(id),
        record_of(id).code matches Some(c) && id_of_code(c) == id,
{
}

/// A hit in one of the numeric reverse lookups really holds the
/// looked-up value.
#[verifier::rlimit(50)]
pub proof fn lemma_lookup_forward(v: u16)
    ensures
        id_of_usb(v) matches Some(id) ==> record_of(id).usb == v,
        id_of_evdev(v) matches Some(id) ==> record_of(id).evdev == v,
        id_of_xkb(v) matches Some(id) ==> record_of(id).xkb == v,
        id_of_win(v) matches Some(id) ==> record_of(id).win == v,
        id_of_mac(v) matches Some(id) ==> record_of(id).mac == v,
{
}

/// Every code leads back to a record carrying that code.
pub proof fn lemma_code_lookup_forward(c: KeyMappingCode)
    ensures
        record_of(id_of_code(c)).code == Some(c),
{
}

/// No two identifiers share a value in any one numeric encoding, nor a
/// browser code.
pub proof fn lemma_encodings_injective(a: KeyMappingId, b: KeyMappingId)
    requires
        record_of(a).usb == record_of(b).usb || record_of(a).evdev == record_of(b).evdev
            || record_of(a).xkb == record_of(b).xkb || record_of(a).win == record_of(b).win
            || record_of(a).mac == record_of(b).mac || record_of(a).code == record_of(b).code,
    ensures
        a == b,
{
    lemma_record_consistent(a);
    lemma_record_consistent(b);
}

impl KeyMap {
    /// The record for an identifier. Total: every enumerated identifier is
    /// present in the table.
    pub fn from_id(id: KeyMappingId) -> (r: KeyMap)
        ensures
            r == record_of(id),
    {
        match id {
            KeyMappingId::UsA => KeyMap {
                usb: 0x0004,
                evdev: 0x001e,
                xkb: 0x0026,
                win: 0x001e,
                mac: 0x0000,
                code: Some(KeyMappingCode::KeyA),
                id: KeyMappingId::UsA,
                modifier: None,
            },
            KeyMappingId::UsB => KeyMap {
                usb: 0x0005,
                evdev: 0x0030,
                xkb: 0x0038,
                win: 0x0030,
                mac: 0x000b,
                code: Some(KeyMappingCode::KeyB),
                id: KeyMappingId::UsB,
                modifier: None,
            },
            KeyMappingId::UsC => KeyMap {
                usb: 0x0006,
                evdev: 0x002e,
                xkb: 0x0036,
                win: 0x002e,
                mac: 0x0008,
                code: Some(KeyMappingCode::KeyC),
                id: KeyMappingId::UsC,
                modifier: None,
            },
            KeyMappingId::UsD => KeyMap {
                usb: 0x0007,
                evdev: 0x0020,
                xkb: 0x0028,
                win: 0x0020,
                mac: 0x0002,
                code: Some(KeyMappingCode::KeyD),
                id: KeyMappingId::UsD,
                modifier: None,
            },
            KeyMappingId::UsE => KeyMap {
                usb: 0x0008,
                evdev: 0x0012,
                xkb: 0x001a,
                win: 0x0012,
                mac: 0x000e,
                code: Some(KeyMappingCode::KeyE),
                id: KeyMappingId::UsE,
                modifier: None,
            },
            KeyMappingId::UsF => KeyMap {
                usb: 0x0009,
                evdev: 0x0021,
                xkb: 0x0029,
                win: 0x0021,
                mac: 0x0003,
                code: Some(KeyMappingCode::KeyF),
                id: KeyMappingId::UsF,
                modifier: None,
            },
            KeyMappingId::UsG => KeyMap {
                usb: 0x000a,
                evdev: 0x0022,
                xkb: 0x002a,
                win: 0x0022,
                mac: 0x0005,
                code: Some(KeyMappingCode::KeyG),
                id: KeyMappingId::UsG,
                modifier: None,
            },
            KeyMappingId::UsH => KeyMap {
                usb: 0x000b,
                evdev: 0x0023,
                xkb: 0x002b,
                win: 0x0023,
                mac: 0x0004,
                code: Some(KeyMappingCode::KeyH),
                id: KeyMappingId::UsH,
                modifier: None,
            },
            KeyMappingId::UsI => KeyMap {
                usb: 0x000c,
                evdev: 0x0017,
                xkb: 0x001f,
                win: 0x0017,
                mac: 0x0022,
                code: Some(KeyMappingCode::KeyI),
                id: KeyMappingId::UsI,
                modifier: None,
            },
            KeyMappingId::UsJ => KeyMap {
                usb: 0x000d,
                evdev: 0x0024,
                xkb: 0x002c,
                win: 0x0024,
                mac: 0x0026,
                code: Some(KeyMappingCode::KeyJ),
                id: KeyMappingId::UsJ,
                modifier: None,
            },
            KeyMappingId::UsK => KeyMap {
                usb: 0x000e,
                evdev: 0x0025,
                xkb: 0x002d,
                win: 0x0025,
                mac: 0x0028,
                code: Some(KeyMappingCode::KeyK),
                id: KeyMappingId::UsK,
                modifier: None,
            },
            KeyMappingId::UsL => KeyMap {
                usb: 0x000f,
                evdev: 0x0026,
                xkb: 0x002e,
                win: 0x0026,
                mac: 0x0025,
                code: Some(KeyMappingCode::KeyL),
                id: KeyMappingId::UsL,
                modifier: None,
            },
            KeyMappingId::UsM => KeyMap {
                usb: 0x0010,
                evdev: 0x0032,
                xkb: 0x003a,
                win: 0x0032,
                mac: 0x002e,
                code: Some(KeyMappingCode::KeyM),
                id: KeyMappingId::UsM,
                modifier: None,
            },
            KeyMappingId::UsN => KeyMap {
                usb: 0x0011,
                evdev: 0x0031,
                xkb: 0x0039,
                win: 0x0031,
                mac: 0x002d,
                code: Some(KeyMappingCode::KeyN),
                id: KeyMappingId::UsN,
                modifier: None,
            },
            KeyMappingId::UsO => KeyMap {
                usb: 0x0012,
                evdev: 0x0018,
                xkb: 0x0020,
                win: 0x0018,
                mac: 0x001f,
                code: Some(KeyMappingCode::KeyO),
                id: KeyMappingId::UsO,
                modifier: None,
            },
            KeyMappingId::UsP => KeyMap {
                usb: 0x0013,
                evdev: 0x0019,
                xkb: 0x0021,
                win: 0x0019,
                mac: 0x0023,
                code: Some(KeyMappingCode::KeyP),
                id: KeyMappingId::UsP,
                modifier: None,
            },
            KeyMappingId::UsQ => KeyMap {
                usb: 0x0014,
                evdev: 0x0010,
                xkb: 0x0018,
                win: 0x0010,
                mac: 0x000c,
                code: Some(KeyMappingCode::KeyQ),
                id: KeyMappingId::UsQ,
                modifier: None,
            },
            KeyMappingId::UsR => KeyMap {
                usb: 0x0015,
                evdev: 0x0013,
                xkb: 0x001b,
                win: 0x0013,
                mac: 0x000f,
                code: Some(KeyMappingCode::KeyR),
                id: KeyMappingId::UsR,
                modifier: None,
            },
            KeyMappingId::UsS => KeyMap {
                usb: 0x0016,
                evdev: 0x001f,
                xkb: 0x0027,
                win: 0x001f,
                mac: 0x0001,
                code: Some(KeyMappingCode::KeyS),
                id: KeyMappingId::UsS,
                modifier: None,
            },
            KeyMappingId::UsT => KeyMap {
                usb: 0x0017,
                evdev: 0x0014,
                xkb: 0x001c,
                win: 0x0014,
                mac: 0x0011,
                code: Some(KeyMappingCode::KeyT),
                id: KeyMappingId::UsT,
                modifier: None,
            },
            KeyMappingId::UsU => KeyMap {
                usb: 0x0018,
                evdev: 0x0016,
                xkb: 0x001e,
                win: 0x0016,
                mac: 0x0020,
                code: Some(KeyMappingCode::KeyU),
                id: KeyMappingId::UsU,
                modifier: None,
            },
            KeyMappingId::UsV => KeyMap {
                usb: 0x0019,
                evdev: 0x002f,
                xkb: 0x0037,
                win: 0x002f,
                mac: 0x0009,
                code: Some(KeyMappingCode::KeyV),
                id: KeyMappingId::UsV,
                modifier: None,
            },
            KeyMappingId::UsW => KeyMap {
                usb: 0x001a,
                evdev: 0x0011,
                xkb: 0x0019,
                win: 0x0011,
                mac: 0x000d,
                code: Some(KeyMappingCode::KeyW),
                id: KeyMappingId::UsW,
                modifier: None,
            },
            KeyMappingId::UsX => KeyMap {
                usb: 0x001b,
                evdev: 0x002d,
                xkb: 0x0035,
                win: 0x002d,
                mac: 0x0007,
                code: Some(KeyMappingCode::KeyX),
                id: KeyMappingId::UsX,
                modifier: None,
            },
            KeyMappingId::UsY => KeyMap {
                usb: 0x001c,
                evdev: 0x0015,
                xkb: 0x001d,
                win: 0x0015,
                mac: 0x0010,
                code: Some(KeyMappingCode::KeyY),
                id: KeyMappingId::UsY,
                modifier: None,
            },
            KeyMappingId::UsZ => KeyMap {
                usb: 0x001d,
                evdev: 0x002c,
                xkb: 0x0034,
                win: 0x002c,
                mac: 0x0006,
                code: Some(KeyMappingCode::KeyZ),
                id: KeyMappingId::UsZ,
                modifier: None,
            },
            KeyMappingId::Digit1 => KeyMap {
                usb: 0x001e,
                evdev: 0x0002,
                xkb: 0x000a,
                win: 0x0002,
                mac: 0x0012,
                code: Some(KeyMappingCode::Digit1),
                id: KeyMappingId::Digit1,
                modifier: None,
            },
            KeyMappingId::Digit2 => KeyMap {
                usb: 0x001f,
                evdev: 0x0003,
                xkb: 0x000b,
                win: 0x0003,
                mac: 0x0013,
                code: Some(KeyMappingCode::Digit2),
                id: KeyMappingId::Digit2,
                modifier: None,
            },
            KeyMappingId::Digit3 => KeyMap {
                usb: 0x0020,
                evdev: 0x0004,
                xkb: 0x000c,
                win: 0x0004,
                mac: 0x0014,
                code: Some(KeyMappingCode::Digit3),
                id: KeyMappingId::Digit3,
                modifier: None,
            },
            KeyMappingId::Digit4 => KeyMap {
                usb: 0x0021,
                evdev: 0x0005,
                xkb: 0x000d,
                win: 0x0005,
                mac: 0x0015,
                code: Some(KeyMappingCode::Digit4),
                id: KeyMappingId::Digit4,
                modifier: None,
            },
            KeyMappingId::Digit5 => KeyMap {
                usb: 0x0022,
                evdev: 0x0006,
                xkb: 0x000e,
                win: 0x0006,
                mac: 0x0017,
                code: Some(KeyMappingCode::Digit5),
                id: KeyMappingId::Digit5,
                modifier: None,
            },
            KeyMappingId::Digit6 => KeyMap {
                usb: 0x0023,
                evdev: 0x0007,
                xkb: 0x000f,
                win: 0x0007,
                mac: 0x0016,
                code: Some(KeyMappingCode::Digit6),
                id: KeyMappingId::Digit6,
                modifier: None,
            },
            KeyMappingId::Digit7 => KeyMap {
                usb: 0x0024,
                evdev: 0x0008,
                xkb: 0x0010,
                win: 0x0008,
                mac: 0x001a,
                code: Some(KeyMappingCode::Digit7),
                id: KeyMappingId::Digit7,
                modifier: None,
            },
            KeyMappingId::Digit8 => KeyMap {
                usb: 0x0025,
                evdev: 0x0009,
                xkb: 0x0011,
                win: 0x0009,
                mac: 0x001c,
                code: Some(KeyMappingCode::Digit8),
                id: KeyMappingId::Digit8,
                modifier: None,
            },
            KeyMappingId::Digit9 => KeyMap {
                usb: 0x0026,
                evdev: 0x000a,
                xkb: 0x0012,
                win: 0x000a,
                mac: 0x0019,
                code: Some(KeyMappingCode::Digit9),
                id: KeyMappingId::Digit9,
                modifier: None,
            },
            KeyMappingId::Digit0 => KeyMap {
                usb: 0x0027,
                evdev: 0x000b,
                xkb: 0x0013,
                win: 0x000b,
                mac: 0x001d,
                code: Some(KeyMappingCode::Digit0),
                id: KeyMappingId::Digit0,
                modifier: None,
            },
            KeyMappingId::Enter => KeyMap {
                usb: 0x0028,
                evdev: 0x001c,
                xkb: 0x0024,
                win: 0x001c,
                mac: 0x0024,
                code: Some(KeyMappingCode::Enter),
                id: KeyMappingId::Enter,
                modifier: None,
            },
            KeyMappingId::Escape => KeyMap {
                usb: 0x0029,
                evdev: 0x0001,
                xkb: 0x0009,
                win: 0x0001,
                mac: 0x0035,
                code: Some(KeyMappingCode::Escape),
                id: KeyMappingId::Escape,
                modifier: None,
            },
            KeyMappingId::Backspace => KeyMap {
                usb: 0x002a,
                evdev: 0x000e,
                xkb: 0x0016,
                win: 0x000e,
                mac: 0x0033,
                code: Some(KeyMappingCode::Backspace),
                id: KeyMappingId::Backspace,
                modifier: None,
            },
            KeyMappingId::Tab => KeyMap {
                usb: 0x002b,
                evdev: 0x000f,
                xkb: 0x0017,
                win: 0x000f,
                mac: 0x0030,
                code: Some(KeyMappingCode::Tab),
                id: KeyMappingId::Tab,
                modifier: None,
            },
            KeyMappingId::Space => KeyMap {
                usb: 0x002c,
                evdev: 0x0039,
                xkb: 0x0041,
                win: 0x0039,
                mac: 0x0031,
                code: Some(KeyMappingCode::Space),
                id: KeyMappingId::Space,
                modifier: None,
            },
            KeyMappingId::Minus => KeyMap {
                usb: 0x002d,
                evdev: 0x000c,
                xkb: 0x0014,
                win: 0x000c,
                mac: 0x001b,
                code: Some(KeyMappingCode::Minus),
                id: KeyMappingId::Minus,
                modifier: None,
            },
            KeyMappingId::Equal => KeyMap {
                usb: 0x002e,
                evdev: 0x000d,
                xkb: 0x0015,
                win: 0x000d,
                mac: 0x0018,
                code: Some(KeyMappingCode::Equal),
                id: KeyMappingId::Equal,
                modifier: None,
            },
            KeyMappingId::BracketLeft => KeyMap {
                usb: 0x002f,
                evdev: 0x001a,
                xkb: 0x0022,
                win: 0x001a,
                mac: 0x0021,
                code: Some(KeyMappingCode::BracketLeft),
                id: KeyMappingId::BracketLeft,
                modifier: None,
            },
            KeyMappingId::BracketRight => KeyMap {
                usb: 0x0030,
                evdev: 0x001b,
                xkb: 0x0023,
                win: 0x001b,
                mac: 0x001e,
                code: Some(KeyMappingCode::BracketRight),
                id: KeyMappingId::BracketRight,
                modifier: None,
            },
            KeyMappingId::Backslash => KeyMap {
                usb: 0x0031,
                evdev: 0x002b,
                xkb: 0x0033,
                win: 0x002b,
                mac: 0x002a,
                code: Some(KeyMappingCode::Backslash),
                id: KeyMappingId::Backslash,
                modifier: None,
            },
            KeyMappingId::Semicolon => KeyMap {
                usb: 0x0033,
                evdev: 0x0027,
                xkb: 0x002f,
                win: 0x0027,
                mac: 0x0029,
                code: Some(KeyMappingCode::Semicolon),
                id: KeyMappingId::Semicolon,
                modifier: None,
            },
            KeyMappingId::Quote => KeyMap {
                usb: 0x0034,
                evdev: 0x0028,
                xkb: 0x0030,
                win: 0x0028,
                mac: 0x0027,
                code: Some(KeyMappingCode::Quote),
                id: KeyMappingId::Quote,
                modifier: None,
            },
            KeyMappingId::Backquote => KeyMap {
                usb: 0x0035,
                evdev: 0x0029,
                xkb: 0x0031,
                win: 0x0029,
                mac: 0x0032,
                code: Some(KeyMappingCode::Backquote),
                id: KeyMappingId::Backquote,
                modifier: None,
            },
            KeyMappingId::Comma => KeyMap {
                usb: 0x0036,
                evdev: 0x0033,
                xkb: 0x003b,
                win: 0x0033,
                mac: 0x002b,
                code: Some(KeyMappingCode::Comma),
                id: KeyMappingId::Comma,
                modifier: None,
            },
            KeyMappingId::Period => KeyMap {
                usb: 0x0037,
                evdev: 0x0034,
                xkb: 0x003c,
                win: 0x0034,
                mac: 0x002f,
                code: Some(KeyMappingCode::Period),
                id: KeyMappingId::Period,
                modifier: None,
            },
            KeyMappingId::Slash => KeyMap {
                usb: 0x0038,
                evdev: 0x0035,
                xkb: 0x003d,
                win: 0x0035,
                mac: 0x002c,
                code: Some(KeyMappingCode::Slash),
                id: KeyMappingId::Slash,
                modifier: None,
            },
            KeyMappingId::CapsLock => KeyMap {
                usb: 0x0039,
                evdev: 0x003a,
                xkb: 0x0042,
                win: 0x003a,
                mac: 0x0039,
                code: Some(KeyMappingCode::CapsLock),
                id: KeyMappingId::CapsLock,
                modifier: None,
            },
            KeyMappingId::F1 => KeyMap {
                usb: 0x003a,
                evdev: 0x003b,
                xkb: 0x0043,
                win: 0x003b,
                mac: 0x007a,
                code: Some(KeyMappingCode::F1),
                id: KeyMappingId::F1,
                modifier: None,
            },
            KeyMappingId::F2 => KeyMap {
                usb: 0x003b,
                evdev: 0x003c,
                xkb: 0x0044,
                win: 0x003c,
                mac: 0x0078,
                code: Some(KeyMappingCode::F2),
                id: KeyMappingId::F2,
                modifier: None,
            },
            KeyMappingId::F3 => KeyMap {
                usb: 0x003c,
                evdev: 0x003d,
                xkb: 0x0045,
                win: 0x003d,
                mac: 0x0063,
                code: Some(KeyMappingCode::F3),
                id: KeyMappingId::F3,
                modifier: None,
            },
            KeyMappingId::F4 => KeyMap {
                usb: 0x003d,
                evdev: 0x003e,
                xkb: 0x0046,
                win: 0x003e,
                mac: 0x0076,
                code: Some(KeyMappingCode::F4),
                id: KeyMappingId::F4,
                modifier: None,
            },
            KeyMappingId::F5 => KeyMap {
                usb: 0x003e,
                evdev: 0x003f,
                xkb: 0x0047,
                win: 0x003f,
                mac: 0x0060,
                code: Some(KeyMappingCode::F5),
                id: KeyMappingId::F5,
                modifier: None,
            },
            KeyMappingId::F6 => KeyMap {
                usb: 0x003f,
                evdev: 0x0040,
                xkb: 0x0048,
                win: 0x0040,
                mac: 0x0061,
                code: Some(KeyMappingCode::F6),
                id: KeyMappingId::F6,
                modifier: None,
            },
            KeyMappingId::F7 => KeyMap {
                usb: 0x0040,
                evdev: 0x0041,
                xkb: 0x0049,
                win: 0x0041,
                mac: 0x0062,
                code: Some(KeyMappingCode::F7),
                id: KeyMappingId::F7,
                modifier: None,
            },
            KeyMappingId::F8 => KeyMap {
                usb: 0x0041,
                evdev: 0x0042,
                xkb: 0x004a,
                win: 0x0042,
                mac: 0x0064,
                code: Some(KeyMappingCode::F8),
                id: KeyMappingId::F8,
                modifier: None,
            },
            KeyMappingId::F9 => KeyMap {
                usb: 0x0042,
                evdev: 0x0043,
                xkb: 0x004b,
                win: 0x0043,
                mac: 0x0065,
                code: Some(KeyMappingCode::F9),
                id: KeyMappingId::F9,
                modifier: None,
            },
            KeyMappingId::F10 => KeyMap {
                usb: 0x0043,
                evdev: 0x0044,
                xkb: 0x004c,
                win: 0x0044,
                mac: 0x006d,
                code: Some(KeyMappingCode::F10),
                id: KeyMappingId::F10,
                modifier: None,
            },
            KeyMappingId::F11 => KeyMap {
                usb: 0x0044,
                evdev: 0x0057,
                xkb: 0x005f,
                win: 0x0057,
                mac: 0x0067,
                code: Some(KeyMappingCode::F11),
                id: KeyMappingId::F11,
                modifier: None,
            },
            KeyMappingId::F12 => KeyMap {
                usb: 0x0045,
                evdev: 0x0058,
                xkb: 0x0060,
                win: 0x0058,
                mac: 0x006f,
                code: Some(KeyMappingCode::F12),
                id: KeyMappingId::F12,
                modifier: None,
            },
            KeyMappingId::Insert => KeyMap {
                usb: 0x0049,
                evdev: 0x006e,
                xkb: 0x0076,
                win: 0xe052,
                mac: 0x0072,
                code: Some(KeyMappingCode::Insert),
                id: KeyMappingId::Insert,
                modifier: None,
            },
            KeyMappingId::Home => KeyMap {
                usb: 0x004a,
                evdev: 0x0066,
                xkb: 0x006e,
                win: 0xe047,
                mac: 0x0073,
                code: Some(KeyMappingCode::Home),
                id: KeyMappingId::Home,
                modifier: None,
            },
            KeyMappingId::PageUp => KeyMap {
                usb: 0x004b,
                evdev: 0x0068,
                xkb: 0x0070,
                win: 0xe049,
                mac: 0x0074,
                code: Some(KeyMappingCode::PageUp),
                id: KeyMappingId::PageUp,
                modifier: None,
            },
            KeyMappingId::Del => KeyMap {
                usb: 0x004c,
                evdev: 0x006f,
                xkb: 0x0077,
                win: 0xe053,
                mac: 0x0075,
                code: Some(KeyMappingCode::Delete),
                id: KeyMappingId::Del,
                modifier: None,
            },
            KeyMappingId::End => KeyMap {
                usb: 0x004d,
                evdev: 0x006b,
                xkb: 0x0073,
                win: 0xe04f,
                mac: 0x0077,
                code: Some(KeyMappingCode::End),
                id: KeyMappingId::End,
                modifier: None,
            },
            KeyMappingId::PageDown => KeyMap {
                usb: 0x004e,
                evdev: 0x006d,
                xkb: 0x0075,
                win: 0xe051,
                mac: 0x0079,
                code: Some(KeyMappingCode::PageDown),
                id: KeyMappingId::PageDown,
                modifier: None,
            },
            KeyMappingId::ArrowRight => KeyMap {
                usb: 0x004f,
                evdev: 0x006a,
                xkb: 0x0072,
                win: 0xe04d,
                mac: 0x007c,
                code: Some(KeyMappingCode::ArrowRight),
                id: KeyMappingId::ArrowRight,
                modifier: None,
            },
            KeyMappingId::ArrowLeft => KeyMap {
                usb: 0x0050,
                evdev: 0x0069,
                xkb: 0x0071,
                win: 0xe04b,
                mac: 0x007b,
                code: Some(KeyMappingCode::ArrowLeft),
                id: KeyMappingId::ArrowLeft,
                modifier: None,
            },
            KeyMappingId::ArrowDown => KeyMap {
                usb: 0x0051,
                evdev: 0x006c,
                xkb: 0x0074,
                win: 0xe050,
                mac: 0x007d,
                code: Some(KeyMappingCode::ArrowDown),
                id: KeyMappingId::ArrowDown,
                modifier: None,
            },
            KeyMappingId::ArrowUp => KeyMap {
                usb: 0x0052,
                evdev: 0x0067,
                xkb: 0x006f,
                win: 0xe048,
                mac: 0x007e,
                code: Some(KeyMappingCode::ArrowUp),
                id: KeyMappingId::ArrowUp,
                modifier: None,
            },
            KeyMappingId::ControlLeft => KeyMap {
                usb: 0x00e0,
                evdev: 0x001d,
                xkb: 0x0025,
                win: 0x001d,
                mac: 0x003b,
                code: Some(KeyMappingCode::ControlLeft),
                id: KeyMappingId::ControlLeft,
                modifier: Some(KeyModifiers { bits: 0x01 }),
            },
            KeyMappingId::ShiftLeft => KeyMap {
                usb: 0x00e1,
                evdev: 0x002a,
                xkb: 0x0032,
                win: 0x002a,
                mac: 0x0038,
                code: Some(KeyMappingCode::ShiftLeft),
                id: KeyMappingId::ShiftLeft,
                modifier: Some(KeyModifiers { bits: 0x02 }),
            },
            KeyMappingId::AltLeft => KeyMap {
                usb: 0x00e2,
                evdev: 0x0038,
                xkb: 0x0040,
                win: 0x0038,
                mac: 0x003a,
                code: Some(KeyMappingCode::AltLeft),
                id: KeyMappingId::AltLeft,
                modifier: Some(KeyModifiers { bits: 0x04 }),
            },
            KeyMappingId::MetaLeft => KeyMap {
                usb: 0x00e3,
                evdev: 0x007d,
                xkb: 0x0085,
                win: 0xe05b,
                mac: 0x0037,
                code: Some(KeyMappingCode::MetaLeft),
                id: KeyMappingId::MetaLeft,
                modifier: Some(KeyModifiers { bits: 0x08 }),
            },
            KeyMappingId::ControlRight => KeyMap {
                usb: 0x00e4,
                evdev: 0x0061,
                xkb: 0x0069,
                win: 0xe01d,
                mac: 0x003e,
                code: Some(KeyMappingCode::ControlRight),
                id: KeyMappingId::ControlRight,
                modifier: Some(KeyModifiers { bits: 0x10 }),
            },
            KeyMappingId::ShiftRight => KeyMap {
                usb: 0x00e5,
                evdev: 0x0036,
                xkb: 0x003e,
                win: 0x0036,
                mac: 0x003c,
                code: Some(KeyMappingCode::ShiftRight),
                id: KeyMappingId::ShiftRight,
                modifier: Some(KeyModifiers { bits: 0x20 }),
            },
            KeyMappingId::AltRight => KeyMap {
                usb: 0x00e6,
                evdev: 0x0064,
                xkb: 0x006c,
                win: 0xe038,
                mac: 0x003d,
                code: Some(KeyMappingCode::AltRight),
                id: KeyMappingId::AltRight,
                modifier: Some(KeyModifiers { bits: 0x40 }),
            },
            KeyMappingId::MetaRight => KeyMap {
                usb: 0x00e7,
                evdev: 0x007e,
                xkb: 0x0086,
                win: 0xe05c,
                mac: 0x0036,
                code: Some(KeyMappingCode::MetaRight),
                id: KeyMappingId::MetaRight,
                modifier: Some(KeyModifiers { bits: 0x80 }),
            },
        }
    }

    /// The record for a browser code. Total: every enumerated code belongs
    /// to exactly one record.
    pub fn from_code(code: KeyMappingCode) -> (r: KeyMap)
        ensures
            r == record_of(id_of_code(code)),
            r.code == Some(code),
    {
        let id = match code {
            KeyMappingCode::KeyA => KeyMappingId::UsA,
            KeyMappingCode::KeyB => KeyMappingId::UsB,
            KeyMappingCode::KeyC => KeyMappingId::UsC,
            KeyMappingCode::KeyD => KeyMappingId::UsD,
            KeyMappingCode::KeyE => KeyMappingId::UsE,
            KeyMappingCode::KeyF => KeyMappingId::UsF,
            KeyMappingCode::KeyG => KeyMappingId::UsG,
            KeyMappingCode::KeyH => KeyMappingId::UsH,
            KeyMappingCode::KeyI => KeyMappingId::UsI,
            KeyMappingCode::KeyJ => KeyMappingId::UsJ,
            KeyMappingCode::KeyK => KeyMappingId::UsK,
            KeyMappingCode::KeyL => KeyMappingId::UsL,
            KeyMappingCode::KeyM => KeyMappingId::UsM,
            KeyMappingCode::KeyN => KeyMappingId::UsN,
            KeyMappingCode::KeyO => KeyMappingId::UsO,
            KeyMappingCode::KeyP => KeyMappingId::UsP,
            KeyMappingCode::KeyQ => KeyMappingId::UsQ,
            KeyMappingCode::KeyR => KeyMappingId::UsR,
            KeyMappingCode::KeyS => KeyMappingId::UsS,
            KeyMappingCode::KeyT => KeyMappingId::UsT,
            KeyMappingCode::KeyU => KeyMappingId::UsU,
            KeyMappingCode::KeyV => KeyMappingId::UsV,
            KeyMappingCode::KeyW => KeyMappingId::UsW,
            KeyMappingCode::KeyX => KeyMappingId::UsX,
            KeyMappingCode::KeyY => KeyMappingId::UsY,
            KeyMappingCode::KeyZ => KeyMappingId::UsZ,
            KeyMappingCode::Digit1 => KeyMappingId::Digit1,
            KeyMappingCode::Digit2 => KeyMappingId::Digit2,
            KeyMappingCode::Digit3 => KeyMappingId::Digit3,
            KeyMappingCode::Digit4 => KeyMappingId::Digit4,
            KeyMappingCode::Digit5 => KeyMappingId::Digit5,
            KeyMappingCode::Digit6 => KeyMappingId::Digit6,
            KeyMappingCode::Digit7 => KeyMappingId::Digit7,
            KeyMappingCode::Digit8 => KeyMappingId::Digit8,
            KeyMappingCode::Digit9 => KeyMappingId::Digit9,
            KeyMappingCode::Digit0 => KeyMappingId::Digit0,
            KeyMappingCode::Enter => KeyMappingId::Enter,
            KeyMappingCode::Escape => KeyMappingId::Escape,
            KeyMappingCode::Backspace => KeyMappingId::Backspace,
            KeyMappingCode::Tab => KeyMappingId::Tab,
            KeyMappingCode::Space => KeyMappingId::Space,
            KeyMappingCode::Minus => KeyMappingId::Minus,
            KeyMappingCode::Equal => KeyMappingId::Equal,
            KeyMappingCode::BracketLeft => KeyMappingId::BracketLeft,
            KeyMappingCode::BracketRight => KeyMappingId::BracketRight,
            KeyMappingCode::Backslash => KeyMappingId::Backslash,
            KeyMappingCode::Semicolon => KeyMappingId::Semicolon,
            KeyMappingCode::Quote => KeyMappingId::Quote,
            KeyMappingCode::Backquote => KeyMappingId::Backquote,
            KeyMappingCode::Comma => KeyMappingId::Comma,
            KeyMappingCode::Period => KeyMappingId::Period,
            KeyMappingCode::Slash => KeyMappingId::Slash,
            KeyMappingCode::CapsLock => KeyMappingId::CapsLock,
            KeyMappingCode::F1 => KeyMappingId::F1,
            KeyMappingCode::F2 => KeyMappingId::F2,
            KeyMappingCode::F3 => KeyMappingId::F3,
            KeyMappingCode::F4 => KeyMappingId::F4,
            KeyMappingCode::F5 => KeyMappingId::F5,
            KeyMappingCode::F6 => KeyMappingId::F6,
            KeyMappingCode::F7 => KeyMappingId::F7,
            KeyMappingCode::F8 => KeyMappingId::F8,
            KeyMappingCode::F9 => KeyMappingId::F9,
            KeyMappingCode::F10 => KeyMappingId::F10,
            KeyMappingCode::F11 => KeyMappingId::F11,
            KeyMappingCode::F12 => KeyMappingId::F12,
            KeyMappingCode::Insert => KeyMappingId::Insert,
            KeyMappingCode::Home => KeyMappingId::Home,
            KeyMappingCode::PageUp => KeyMappingId::PageUp,
            KeyMappingCode::Delete => KeyMappingId::Del,
            KeyMappingCode::End => KeyMappingId::End,
            KeyMappingCode::PageDown => KeyMappingId::PageDown,
            KeyMappingCode::ArrowRight => KeyMappingId::ArrowRight,
            KeyMappingCode::ArrowLeft => KeyMappingId::ArrowLeft,
            KeyMappingCode::ArrowDown => KeyMappingId::ArrowDown,
            KeyMappingCode::ArrowUp => KeyMappingId::ArrowUp,
            KeyMappingCode::ControlLeft => KeyMappingId::ControlLeft,
            KeyMappingCode::ShiftLeft => KeyMappingId::ShiftLeft,
            KeyMappingCode::AltLeft => KeyMappingId::AltLeft,
            KeyMappingCode::MetaLeft => KeyMappingId::MetaLeft,
            KeyMappingCode::ControlRight => KeyMappingId::ControlRight,
            KeyMappingCode::ShiftRight => KeyMappingId::ShiftRight,
            KeyMappingCode::AltRight => KeyMappingId::AltRight,
            KeyMappingCode::MetaRight => KeyMappingId::MetaRight,
        };
        proof {
            lemma_record_consistent(id);
        }
        KeyMap::from_id(id)
    }
}

/// The record table as a vector, in table order.
pub fn key_map_table() -> (t: Vec<KeyMap>)
    ensures
        t@ == table(),
{
    let mut t: Vec<KeyMap> = Vec::new();
    t.push(KeyMap::from_id(KeyMappingId::UsA));
    t.push(KeyMap::from_id(KeyMappingId::UsB));
    t.push(KeyMap::from_id(KeyMappingId::UsC));
    t.push(KeyMap::from_id(KeyMappingId::UsD));
    t.push(KeyMap::from_id(KeyMappingId::UsE));
    t.push(KeyMap::from_id(KeyMappingId::UsF));
    t.push(KeyMap::from_id(KeyMappingId::UsG));
    t.push(KeyMap::from_id(KeyMappingId::UsH));
    t.push(KeyMap::from_id(KeyMappingId::UsI));
    t.push(KeyMap::from_id(KeyMappingId::UsJ));
    t.push(KeyMap::from_id(KeyMappingId::UsK));
    t.push(KeyMap::from_id(KeyMappingId::UsL));
    t.push(KeyMap::from_id(KeyMappingId::UsM));
    t.push(KeyMap::from_id(KeyMappingId::UsN));
    t.push(KeyMap::from_id(KeyMappingId::UsO));
    t.push(KeyMap::from_id(KeyMappingId::UsP));
    t.push(KeyMap::from_id(KeyMappingId::UsQ));
    t.push(KeyMap::from_id(KeyMappingId::UsR));
    t.push(KeyMap::from_id(KeyMappingId::UsS));
    t.push(KeyMap::from_id(KeyMappingId::UsT));
    t.push(KeyMap::from_id(KeyMappingId::UsU));
    t.push(KeyMap::from_id(KeyMappingId::UsV));
    t.push(KeyMap::from_id(KeyMappingId::UsW));
    t.push(KeyMap::from_id(KeyMappingId::UsX));
    t.push(KeyMap::from_id(KeyMappingId::UsY));
    t.push(KeyMap::from_id(KeyMappingId::UsZ));
    t.push(KeyMap::from_id(KeyMappingId::Digit1));
    t.push(KeyMap::from_id(KeyMappingId::Digit2));
    t.push(KeyMap::from_id(KeyMappingId::Digit3));
    t.push(KeyMap::from_id(KeyMappingId::Digit4));
    t.push(KeyMap::from_id(KeyMappingId::Digit5));
    t.push(KeyMap::from_id(KeyMappingId::Digit6));
    t.push(KeyMap::from_id(KeyMappingId::Digit7));
    t.push(KeyMap::from_id(KeyMappingId::Digit8));
    t.push(KeyMap::from_id(KeyMappingId::Digit9));
    t.push(KeyMap::from_id(KeyMappingId::Digit0));
    t.push(KeyMap::from_id(KeyMappingId::Enter));
    t.push(KeyMap::from_id(KeyMappingId::Escape));
    t.push(KeyMap::from_id(KeyMappingId::Backspace));
    t.push(KeyMap::from_id(KeyMappingId::Tab));
    t.push(KeyMap::from_id(KeyMappingId::Space));
    t.push(KeyMap::from_id(KeyMappingId::Minus));
    t.push(KeyMap::from_id(KeyMappingId::Equal));
    t.push(KeyMap::from_id(KeyMappingId::BracketLeft));
    t.push(KeyMap::from_id(KeyMappingId::BracketRight));
    t.push(KeyMap::from_id(KeyMappingId::Backslash));
    t.push(KeyMap::from_id(KeyMappingId::Semicolon));
    t.push(KeyMap::from_id(KeyMappingId::Quote));
    t.push(KeyMap::from_id(KeyMappingId::Backquote));
    t.push(KeyMap::from_id(KeyMappingId::Comma));
    t.push(KeyMap::from_id(KeyMappingId::Period));
    t.push(KeyMap::from_id(KeyMappingId::Slash));
    t.push(KeyMap::from_id(KeyMappingId::CapsLock));
    t.push(KeyMap::from_id(KeyMappingId::F1));
    t.push(KeyMap::from_id(KeyMappingId::F2));
    t.push(KeyMap::from_id(KeyMappingId::F3));
    t.push(KeyMap::from_id(KeyMappingId::F4));
    t.push(KeyMap::from_id(KeyMappingId::F5));
    t.push(KeyMap::from_id(KeyMappingId::F6));
    t.push(KeyMap::from_id(KeyMappingId::F7));
    t.push(KeyMap::from_id(KeyMappingId::F8));
    t.push(KeyMap::from_id(KeyMappingId::F9));
    t.push(KeyMap::from_id(KeyMappingId::F10));
    t.push(KeyMap::from_id(KeyMappingId::F11));
    t.push(KeyMap::from_id(KeyMappingId::F12));
    t.push(KeyMap::from_id(KeyMappingId::Insert));
    t.push(KeyMap::from_id(KeyMappingId::Home));
    t.push(KeyMap::from_id(KeyMappingId::PageUp));
    t.push(KeyMap::from_id(KeyMappingId::Del));
    t.push(KeyMap::from_id(KeyMappingId::End));
    t.push(KeyMap::from_id(KeyMappingId::PageDown));
    t.push(KeyMap::from_id(KeyMappingId::ArrowRight));
    t.push(KeyMap::from_id(KeyMappingId::ArrowLeft));
    t.push(KeyMap::from_id(KeyMappingId::ArrowDown));
    t.push(KeyMap::from_id(KeyMappingId::ArrowUp));
    t.push(KeyMap::from_id(KeyMappingId::ControlLeft));
    t.push(KeyMap::from_id(KeyMappingId::ShiftLeft));
    t.push(KeyMap::from_id(KeyMappingId::AltLeft));
    t.push(KeyMap::from_id(KeyMappingId::MetaLeft));
    t.push(KeyMap::from_id(KeyMappingId::ControlRight));
    t.push(KeyMap::from_id(KeyMappingId::ShiftRight));
    t.push(KeyMap::from_id(KeyMappingId::AltRight));
    t.push(KeyMap::from_id(KeyMappingId::MetaRight));
    proof {
        assert(t@ =~= table());
    }
    t
}

} // verus!
