//! The per-key record and the single-encoding query value.

use crate::codes::KeyMappingCode;
use crate::ids::KeyMappingId;
use crate::modifiers::KeyModifiers;
use vstd::prelude::*;

verus! {

/// The full record for a specific key: its value in every encoding, plus its
/// modifier bit when the key is one of the eight recognized modifier keys.
#[derive(Clone, Copy, PartialEq, Eq, Structural, Debug, Hash)]
pub struct KeyMap {
    /// USB HID usage code for the key.
    pub usb: u16,
    /// Linux kernel evdev code for the key.
    pub evdev: u16,
    /// X11 keycode for the key.
    pub xkb: u16,
    /// Windows scan code for the key.
    pub win: u16,
    /// Mac scan code for the key.
    pub mac: u16,
    /// W3C browser event code for the key, when one is defined.
    pub code: Option<KeyMappingCode>,
    /// Stable symbolic identifier for the key.
    pub id: KeyMappingId,
    /// USB HID modifier bit, set exactly for the eight modifier keys.
    pub modifier: Option<KeyModifiers>,
}

/// A key value in one single encoding, used to query the record table.
#[derive(Clone, Copy, PartialEq, Eq, Structural, Debug, Hash)]
pub enum KeyMapping {
    /// USB HID usage code for a specific key.
    Usb(u16),
    /// Linux kernel evdev code for a specific key.
    Evdev(u16),
    /// X11 keycode for a specific key.
    Xkb(u16),
    /// Windows scan code for a specific key.
    Win(u16),
    /// Mac scan code for a specific key.
    Mac(u16),
    /// W3C browser event code for a specific key.
    Code(KeyMappingCode),
    /// Stable symbolic identifier for a specific key.
    Id(KeyMappingId),
}

/// The predicate holding of records filed under an identifier other than
/// `id`: a release keeps exactly these.
pub open spec fn pred_id_differs(id: KeyMappingId) -> spec_fn(KeyMap) -> bool {
    |k: KeyMap| k.id != id
}

/// Whether record `m` answers the single-encoding query `q`: the field of
/// `m` that `q`'s encoding names holds `q`'s value.
pub open spec fn map_matches(m: KeyMap, q: KeyMapping) -> bool {
    match q {
        KeyMapping::Usb(v) => m.usb == v,
        KeyMapping::Evdev(v) => m.evdev == v,
        KeyMapping::Xkb(v) => m.xkb == v,
        KeyMapping::Win(v) => m.win == v,
        KeyMapping::Mac(v) => m.mac == v,
        KeyMapping::Code(c) => m.code == Some(c),
        KeyMapping::Id(i) => m.id == i,
    }
}

} // verus!
