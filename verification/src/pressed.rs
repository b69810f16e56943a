//! Bounded insertion-ordered storage for the currently pressed keys.
//!
//! The storage is a fixed-capacity double-ended queue from the `arraydeque`
//! crate, used here as a bounded vector: records enter at the back, leave by
//! a stable retain, and are read out front to back. The queue itself is
//! outside code; its contents are named by [`pressed_items`] and every call
//! into it goes through one of the small trusted functions below, whose
//! contracts state what the crate's source shows.

use crate::ids::KeyMappingId;
use crate::keymap::{pred_id_differs, KeyMap};
use crate::NUM_KEYS;
use vstd::prelude::*;

verus! {

/// Fixed-capacity storage holding the pressed non-modifier keys in the
/// order they were pressed.
#[verifier::external_body]
pub struct PressedKeys {
    items: arraydeque::ArrayDeque<KeyMap, 256, arraydeque::behavior::Saturating>,
}

/// The stored records, front to back.
pub uninterp spec fn pressed_items(p: PressedKeys) -> Seq<KeyMap>;

/// Relies on arraydeque's `ArrayDeque::new`: a freshly created deque holds
/// no elements.
#[verifier::external_body]
pub(crate) fn pressed_new() -> (p: PressedKeys)
    ensures
        pressed_items(p) == Seq::<KeyMap>::empty(),
{
    PressedKeys { items: arraydeque::ArrayDeque::new() }
}

/// Relies on arraydeque's `ArrayDeque::len`: the number of stored elements.
#[verifier::external_body]
pub(crate) fn pressed_len(p: &PressedKeys) -> (n: usize)
    ensures
        n == pressed_items(*p).len(),
{
    p.items.len()
}

/// Relies on arraydeque's saturating `ArrayDeque::push_back`: appends at
/// the back and returns `Ok` while the deque is below its capacity, and
/// fails leaving the deque unchanged once it is full.
#[verifier::external_body]
pub(crate) fn pressed_push_back(p: &mut PressedKeys, k: KeyMap) -> (r: bool)
    ensures
        pressed_items(*old(p)).len() < NUM_KEYS ==> r && pressed_items(*final(p))
            == pressed_items(*old(p)).push(k),
        pressed_items(*old(p)).len() >= NUM_KEYS ==> !r && pressed_items(*final(p))
            == pressed_items(*old(p)),
{
    p.items.push_back(k).is_ok()
}

/// Whether a stored record is filed under an identifier other than `id`.
fn key_id_differs(k: &KeyMap, id: KeyMappingId) -> (r: bool)
    ensures
        r == (k.id != id),
{
    k.id != id
}

/// Relies on arraydeque's `ArrayDeque::retain`: keeps exactly the elements
/// the predicate accepts, in their original order. The predicate handed to
/// it is the verified identifier test above, so what stays is exactly the
/// records filed under some other identifier.
#[verifier::external_body]
pub(crate) fn pressed_retain_without_id(p: &mut PressedKeys, id: KeyMappingId)
    ensures
        pressed_items(*final(p)) == pressed_items(*old(p)).filter(pred_id_differs(id)),
{
    p.items.retain(|k| key_id_differs(k, id));
}

/// Relies on arraydeque's `ArrayDeque::iter`: yields the stored elements
/// front to back; collecting the copies gives the contents as a vector.
#[verifier::external_body]
pub(crate) fn pressed_snapshot(p: &PressedKeys) -> (v: Vec<KeyMap>)
    ensures
        v@ == pressed_items(*p),
{
    p.items.iter().copied().collect()
}

} // verus!
