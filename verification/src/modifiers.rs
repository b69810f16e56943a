//! The USB HID keyboard modifier byte.
//!
//! The boot-protocol input report leads with one byte in which each bit
//! stands for one of the eight recognized modifier keys: bit 0 is left
//! control, bit 1 left shift, bit 2 left alt, bit 3 left meta, and bits 4
//! through 7 the right-hand variants in the same order.

use vstd::prelude::*;

verus! {

/// A set of held modifier keys, one bit per key, in USB HID bit order.
#[derive(Clone, Copy, PartialEq, Eq, Structural, Debug, Hash)]
pub struct KeyModifiers {
    /// The raw modifier byte, exactly as it appears in an input report.
    pub bits: u8,
}

impl KeyModifiers {
    /// The mask with no modifier held.
    pub fn empty() -> (r: KeyModifiers)
        ensures
            r.bits == 0,
    {
        KeyModifiers { bits: 0 }
    }

    /// The raw modifier byte.
    pub fn bits(&self) -> (r: u8)
        ensures
            r == self.bits,
    {
        self.bits
    }

    /// Whether every bit of `other` is also set in `self`.
    pub fn contains(&self, other: KeyModifiers) -> (r: bool)
        ensures
            r == (self.bits & other.bits == other.bits),
    {
        self.bits & other.bits == other.bits
    }

    /// Set every bit of `other`.
    pub fn insert(&mut self, other: KeyModifiers)
        ensures
            final(self).bits == old(self).bits | other.bits,
    {
        self.bits = self.bits | other.bits;
    }

    /// Clear every bit of `other`.
    pub fn remove(&mut self, other: KeyModifiers)
        ensures
            final(self).bits == old(self).bits & !other.bits,
    {
        self.bits = self.bits & !other.bits;
    }

    /// The left-control bit.
    pub fn control_left() -> (r: KeyModifiers)
        ensures
            r.bits == 0x01,
    {
        KeyModifiers { bits: 0x01 }
    }

    /// The left-shift bit.
    pub fn shift_left() -> (r: KeyModifiers)
        ensures
            r.bits == 0x02,
    {
        KeyModifiers { bits: 0x02 }
    }

    /// The left-alt bit.
    pub fn alt_left() -> (r: KeyModifiers)
        ensures
            r.bits == 0x04,
    {
        KeyModifiers { bits: 0x04 }
    }

    /// The left-meta bit.
    pub fn meta_left() -> (r: KeyModifiers)
        ensures
            r.bits == 0x08,
    {
        KeyModifiers { bits: 0x08 }
    }

    /// The right-control bit.
    pub fn control_right() -> (r: KeyModifiers)
        ensures
            r.bits == 0x10,
    {
        KeyModifiers { bits: 0x10 }
    }

    /// The right-shift bit.
    pub fn shift_right() -> (r: KeyModifiers)
        ensures
            r.bits == 0x20,
    {
        KeyModifiers { bits: 0x20 }
    }

    /// The right-alt bit.
    pub fn alt_right() -> (r: KeyModifiers)
        ensures
            r.bits == 0x40,
    {
        KeyModifiers { bits: 0x40 }
    }

    /// The right-meta bit.
    pub fn meta_right() -> (r: KeyModifiers)
        ensures
            r.bits == 0x80,
    {
        KeyModifiers { bits: 0x80 }
    }
}

} // verus!
