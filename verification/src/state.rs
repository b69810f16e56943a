//! The keyboard-state tracker and the report encoder.
//!
//! The tracker owns a modifier byte and a bounded, insertion-ordered list
//! of currently pressed non-modifier keys. It consumes press and release
//! events, already resolved to key records, and renders the current state
//! as a USB HID boot-protocol input report on demand.

use crate::ids::KeyMappingId;
use crate::keymap::{pred_id_differs, KeyMap};
use crate::modifiers::KeyModifiers;
use crate::pressed::{
    pressed_items, pressed_len, pressed_new, pressed_push_back, pressed_retain_without_id,
    pressed_snapshot, PressedKeys,
};
use crate::records::record_of;
use crate::NUM_KEYS;
use vstd::prelude::*;

verus! {

/// State of any key, whether it is pressed or not.
#[derive(Clone, Copy, PartialEq, Eq, Structural, Debug, Hash)]
pub enum KeyState {
    /// Pressed key.
    Pressed,
    /// Released key.
    Released,
}

/// Abstract state of a keyboard tracker: the configured rollover limit,
/// the pressed non-modifier keys in press order, and the modifier byte.
#[verifier::ext_equal]
pub struct KeyboardModel {
    /// Configured rollover limit; `None` leaves only the capacity bound.
    pub rollover: Option<usize>,
    /// Currently pressed non-modifier keys, in the order they were pressed.
    pub pressed: Seq<KeyMap>,
    /// The modifier byte, one bit per held modifier key.
    pub modifiers: u8,
}

/// Whether some record in `s` is filed under identifier `id`.
pub open spec fn in_pressed(s: Seq<KeyMap>, id: KeyMappingId) -> bool {
    exists|i: int| 0 <= i < s.len() && s[i].id == id
}

/// No two records in `s` share an identifier.
pub open spec fn distinct_ids(s: Seq<KeyMap>) -> bool {
    forall|i: int, j: int| 0 <= i < j < s.len() ==> s[i].id != s[j].id
}

/// Whether a press of `key` is dropped: the key is already held, the
/// backing store is full, or a configured rollover limit is reached.
pub open spec fn press_blocked(m: KeyboardModel, key: KeyMap) -> bool {
    ||| in_pressed(m.pressed, key.id)
    ||| m.pressed.len() >= NUM_KEYS
    ||| (m.rollover matches Some(l) && m.pressed.len() >= l)
}

/// The transition rule of the tracker. A modifier key only sets or clears
/// its mask bit. A non-modifier press appends the record unless it is
/// blocked, and a blocked press is dropped silently. A non-modifier
/// release keeps exactly the records filed under other identifiers, in
/// their original order.
pub open spec fn spec_update(m: KeyboardModel, key: KeyMap, state: KeyState) -> KeyboardModel {
    match state {
        KeyState::Pressed => match key.modifier {
            Some(km) => KeyboardModel { modifiers: m.modifiers | km.bits, ..m },
            None => if press_blocked(m, key) {
                m
            } else {
                KeyboardModel { pressed: m.pressed.push(key), ..m }
            },
        },
        KeyState::Released => match key.modifier {
            Some(km) => KeyboardModel { modifiers: m.modifiers & !km.bits, ..m },
            None => KeyboardModel { pressed: m.pressed.filter(pred_id_differs(key.id)), ..m },
        },
    }
}

/// Well-formedness of a tracker state: the pressed list fits the capacity
/// and any configured rollover limit, a configured limit leaves room for
/// the two leading report bytes, no pressed record is a modifier key, and
/// no two pressed records share an identifier.
pub open spec fn model_wf(m: KeyboardModel) -> bool {
    &&& m.pressed.len() <= NUM_KEYS
    &&& (m.rollover matches Some(l) ==> m.pressed.len() <= l && l + 2 <= usize::MAX)
    &&& (forall|i: int| 0 <= i < m.pressed.len() ==> (#[trigger] m.pressed[i]).modifier is None)
    &&& distinct_ids(m.pressed)
}

/// The low byte of a USB usage code; the report carries only this byte.
pub open spec fn usb_low(u: u16) -> u8 {
    (u % 256) as u8
}

/// The least length of a report: two leading bytes plus one slot per key
/// allowed by the rollover limit, or the boot-protocol size of eight.
pub open spec fn min_report_size(rollover: Option<usize>) -> int {
    match rollover {
        Some(l) => l + 2,
        None => 8,
    }
}

/// The wire form of a state: the modifier byte, a reserved zero byte, the
/// low USB byte of each pressed key in press order, and zero padding up to
/// the least report size.
pub open spec fn report_bytes(m: KeyboardModel) -> Seq<u8> {
    let base = seq![m.modifiers, 0u8] + Seq::new(
        m.pressed.len(),
        |j: int| usb_low(m.pressed[j].usb),
    );
    if base.len() < min_report_size(m.rollover) {
        base + Seq::new((min_report_size(m.rollover) - base.len()) as nat, |j: int| 0u8)
    } else {
        base
    }
}

/// Filtering a sequence without repeated identifiers leaves one without
/// repeated identifiers.
proof fn lemma_filter_distinct_ids(s: Seq<KeyMap>, pred: spec_fn(KeyMap) -> bool)
    requires
        distinct_ids(s),
    ensures
        distinct_ids(s.filter(pred)),
    decreases s.len(),
{
    reveal(Seq::filter);
    if s.len() != 0 {
        let rest = s.drop_last();
        let last = s.last();
        assert forall|i: int, j: int| 0 <= i < j < rest.len() implies rest[i].id != rest[j].id by {
            assert(rest[i] == s[i] && rest[j] == s[j]);
        }
        lemma_filter_distinct_ids(rest, pred);
        let sub = rest.filter(pred);
        if pred(last) {
            assert forall|i: int, j: int| 0 <= i < j < s.filter(pred).len() implies s.filter(
                pred,
            )[i].id != s.filter(pred)[j].id by {
                if j == sub.len() {
                    assert(sub.contains(sub[i]));
                    rest.lemma_filter_contains_rev(pred, sub[i]);
                    let k = choose|k: int| 0 <= k < rest.len() && rest[k] == sub[i];
                    assert(s[k] == sub[i] && s[s.len() - 1] == last);
                }
            }
        }
    }
}

/// A filter that accepts every element of a sequence changes nothing.
proof fn lemma_filter_retains_all(s: Seq<KeyMap>, pred: spec_fn(KeyMap) -> bool)
    requires
        forall|i: int| 0 <= i < s.len() ==> pred(#[trigger] s[i]),
    ensures
        s.filter(pred) == s,
    decreases s.len(),
{
    reveal(Seq::filter);
    if s.len() == 0 {
        assert(s.filter(pred) =~= s);
    } else {
        let rest = s.drop_last();
        assert forall|i: int| 0 <= i < rest.len() implies pred(#[trigger] rest[i]) by {
            assert(rest[i] == s[i]);
        }
        lemma_filter_retains_all(rest, pred);
        assert(s.filter(pred) =~= s);
    }
}

/// Every transition preserves well-formedness; in particular the pressed
/// list never outgrows the capacity, nor a configured rollover limit.
pub proof fn lemma_update_preserves_wf(m: KeyboardModel, key: KeyMap, state: KeyState)
    requires
        model_wf(m),
    ensures
        model_wf(spec_update(m, key, state)),
{
    let m2 = spec_update(m, key, state);
    if state is Pressed && key.modifier is None && !press_blocked(m, key) {
        let t = m.pressed.push(key);
        assert forall|i: int, j: int| 0 <= i < j < t.len() implies t[i].id != t[j].id by {
            if j == m.pressed.len() {
                assert(!(0 <= i < m.pressed.len() && m.pressed[i].id == key.id));
            }
        }
    }
    if state is Released && key.modifier is None {
        let pred = pred_id_differs(key.id);
        lemma_filter_distinct_ids(m.pressed, pred);
        m.pressed.lemma_filter_len(pred);
        assert forall|i: int| 0 <= i < m2.pressed.len() implies (
        #[trigger] m2.pressed[i]).modifier is None by {
            assert(m2.pressed.contains(m2.pressed[i]));
            m.pressed.lemma_filter_contains_rev(pred, m2.pressed[i]);
            let k = choose|k: int| 0 <= k < m.pressed.len() && m.pressed[k] == m2.pressed[i];
            assert(m.pressed[k].modifier is None);
        }
    }
}

/// Keyboard state that manages pressed keys, the rollover limit, and the
/// modifier byte, and generates USB HID input reports.
pub struct KeyboardState {
    key_rollover: Option<usize>,
    key_state: PressedKeys,
    modifier_state: KeyModifiers,
}

impl View for KeyboardState {
    type V = KeyboardModel;

    closed spec fn view(&self) -> KeyboardModel {
        KeyboardModel {
            rollover: self.key_rollover,
            pressed: pressed_items(self.key_state),
            modifiers: self.modifier_state.bits,
        }
    }
}

/// Whether a record filed under `id` is currently stored in `p`.
fn contains_id(p: &PressedKeys, id: KeyMappingId) -> (r: bool)
    ensures
        r == in_pressed(pressed_items(*p), id),
{
    let v: Vec<KeyMap> = pressed_snapshot(p);
    let mut i: usize = 0;
    while i < v.len()
        invariant
            v@ == pressed_items(*p),
            0 <= i <= v@.len(),
            forall|j: int| 0 <= j < i ==> v@[j].id != id,
        decreases v@.len() - i,
    {
        if v[i].id == id {
            return true;
        }
        i = i + 1;
    }
    false
}

impl KeyboardState {
    /// Well-formedness of the tracker, established by `new` and preserved
    /// by every update.
    pub open spec fn wf(&self) -> bool {
        model_wf(self@)
    }

    /// Create a new keyboard state. `Some(limit)` configures an n-key
    /// rollover limit; `None` keeps the boot-protocol default. A configured
    /// limit must leave the two leading report bytes representable.
    pub fn new(key_rollover: Option<usize>) -> (r: KeyboardState)
        requires
            key_rollover matches Some(l) ==> l + 2 <= usize::MAX,
        ensures
            r.wf(),
            r@.rollover == key_rollover,
            r@.pressed == Seq::<KeyMap>::empty(),
            r@.modifiers == 0,
    {
        KeyboardState {
            key_rollover,
            key_state: pressed_new(),
            modifier_state: KeyModifiers::empty(),
        }
    }

    /// Update the keyboard state with a key's new state.
    ///
    /// A modifier key only sets or clears its mask bit. A non-modifier
    /// press appends the record to the pressed list unless the key is
    /// already held, the store is full, or a configured rollover limit is
    /// reached — such presses are dropped silently. A non-modifier release
    /// removes the records filed under the key's identifier, keeping the
    /// rest in order; releasing a key that is not held changes nothing.
    pub fn update_key(&mut self, key: KeyMap, state: KeyState)
        requires
            old(self).wf(),
        ensures
            final(self).wf(),
            final(self)@ == spec_update(old(self)@, key, state),
    {
        proof {
            lemma_update_preserves_wf(old(self)@, key, state);
        }
        match state {
            KeyState::Pressed => {
                if let Some(key_modifier) = key.modifier {
                    self.modifier_state.insert(key_modifier);
                    return;
                }
                if contains_id(&self.key_state, key.id) {
                    return;
                }
                let len: usize = pressed_len(&self.key_state);
                if len == NUM_KEYS {
                    return;
                }
                if let Some(key_rollover) = self.key_rollover {
                    if len >= key_rollover {
                        return;
                    }
                }
                pressed_push_back(&mut self.key_state, key);
            },
            KeyState::Released => {
                if let Some(key_modifier) = key.modifier {
                    self.modifier_state.remove(key_modifier);
                    return;
                }
                if pressed_len(&self.key_state) == 0 {
                    proof {
                        reveal(Seq::filter);
                    }
                    return;
                }
                pressed_retain_without_id(&mut self.key_state, key.id);
            },
        }
    }

    /// The currently pressed non-modifier keys, in the order they were
    /// pressed. Comparing its length before and after an update is how a
    /// caller detects a press dropped by the rollover policy, which is
    /// otherwise silent.
    pub fn pressed_keys(&self) -> (r: Vec<KeyMap>)
        ensures
            r@ == self@.pressed,
    {
        pressed_snapshot(&self.key_state)
    }

    /// Render the current state as a USB HID input report: the modifier
    /// byte, a reserved zero byte, the low USB byte of each pressed key in
    /// press order, and zero padding up to the least report size —
    /// `limit + 2` when a rollover limit is configured, the boot-protocol
    /// size of eight bytes otherwise.
    ///
    /// Compatibility decision: with no rollover limit configured, more
    /// than six pressed keys make the report grow beyond the eight-byte
    /// boot-protocol size, one byte per key, rather than being truncated.
    pub fn usb_input_report(&self) -> (r: Vec<u8>)
        requires
            self.wf(),
        ensures
            r@ == report_bytes(self@),
    {
        let ghost base: Seq<u8> = seq![self@.modifiers, 0u8] + Seq::new(
            self@.pressed.len(),
            |j: int| usb_low(self@.pressed[j].usb),
        );
        let mut input_report: Vec<u8> = Vec::new();
        input_report.push(self.modifier_state.bits());
        input_report.push(0);
        proof {
            assert(input_report@ =~= base.subrange(0, 2));
        }
        let keys: Vec<KeyMap> = pressed_snapshot(&self.key_state);
        let mut i: usize = 0;
        while i < keys.len()
            invariant
                keys@ == self@.pressed,
                0 <= i <= keys@.len(),
                base == seq![self@.modifiers, 0u8] + Seq::new(
                    self@.pressed.len(),
                    |j: int| usb_low(self@.pressed[j].usb),
                ),
                base.len() == 2 + keys@.len(),
                input_report@ == base.subrange(0, 2 + i as int),
            decreases keys@.len() - i,
        {
            input_report.push(low_byte(keys[i].usb));
            proof {
                assert(base[2 + i as int] == usb_low(keys@[i as int].usb));
                assert(input_report@ =~= base.subrange(0, 2 + (i + 1) as int));
            }
            i = i + 1;
        }
        let min_size: usize = match self.key_rollover {
            Some(l) => l + 2,
            None => 8,
        };
        while input_report.len() < min_size
            invariant
                base.len() <= input_report@.len(),
                input_report@.len() <= vstd::math::max(base.len() as int, min_size as int),
                input_report@.subrange(0, base.len() as int) == base,
                forall|j: int| base.len() <= j < input_report@.len() ==> input_report@[j] == 0,
            decreases min_size - input_report@.len(),
        {
            input_report.push(0);
            proof {
                assert(input_report@.subrange(0, base.len() as int) =~= base);
            }
        }
        proof {
            assert(min_size == min_report_size(self@.rollover));
            assert(input_report@ =~= report_bytes(self@));
        }
        input_report
    }
}

/// The low byte of a USB usage code.
fn low_byte(u: u16) -> (b: u8)
    ensures
        b == usb_low(u),
{
    (u % 256) as u8
}

impl PartialEq for KeyboardState {
    fn eq(&self, other: &KeyboardState) -> (r: bool) {
        let same_rollover: bool = match (self.key_rollover, other.key_rollover) {
            (None, None) => true,
            (Some(a), Some(b)) => a == b,
            _ => false,
        };
        if !same_rollover {
            return false;
        }
        if self.modifier_state.bits() != other.modifier_state.bits() {
            return false;
        }
        let a: Vec<KeyMap> = pressed_snapshot(&self.key_state);
        let b: Vec<KeyMap> = pressed_snapshot(&other.key_state);
        if a.len() != b.len() {
            return false;
        }
        let mut i: usize = 0;
        while i < a.len()
            invariant
                a@ == self@.pressed,
                b@ == other@.pressed,
                0 <= i <= a@.len(),
                a@.len() == b@.len(),
                forall|j: int| 0 <= j < i ==> a@[j] == b@[j],
            decreases a@.len() - i,
        {
            let ka: KeyMap = a[i];
            let kb: KeyMap = b[i];
            if ka != kb {
                return false;
            }
            i = i + 1;
        }
        proof {
            assert(self@.pressed =~= other@.pressed);
            assert(self@ =~= other@);
        }
        true
    }
}

impl vstd::std_specs::cmp::PartialEqSpecImpl for KeyboardState {
    open spec fn obeys_eq_spec() -> bool {
        true
    }

    open spec fn eq_spec(&self, other: &KeyboardState) -> bool {
        self@ == other@
    }
}

/// Modifier round trip: pressing one of the eight modifier keys sets
/// exactly its mask bit and leaves the pressed list unchanged; releasing
/// it afterwards clears exactly that bit, so a modifier that was not held
/// before leaves the state exactly as it was.
pub proof fn lemma_modifier_round_trip(m: KeyboardModel, id: KeyMappingId)
    requires
        record_of(id).modifier is Some,
    ensures
        spec_update(m, record_of(id), KeyState::Pressed).pressed == m.pressed,
        spec_update(m, record_of(id), KeyState::Pressed).modifiers == m.modifiers | record_of(
            id,
        ).modifier.unwrap().bits,
        spec_update(
            spec_update(m, record_of(id), KeyState::Pressed),
            record_of(id),
            KeyState::Released,
        ).pressed == m.pressed,
        spec_update(
            spec_update(m, record_of(id), KeyState::Pressed),
            record_of(id),
            KeyState::Released,
        ).modifiers == m.modifiers & !record_of(id).modifier.unwrap().bits,
        m.modifiers & record_of(id).modifier.unwrap().bits == 0 ==> spec_update(
            spec_update(m, record_of(id), KeyState::Pressed),
            record_of(id),
            KeyState::Released,
        ) == m,
{
    let b = record_of(id).modifier.unwrap().bits;
    let x = m.modifiers;
    assert(((x | b) & !b) == (x & !b)) by (bit_vector);
    assert(x & b == 0 ==> (x & !b) == x) by (bit_vector);
    if x & b == 0 {
        assert(spec_update(
            spec_update(m, record_of(id), KeyState::Pressed),
            record_of(id),
            KeyState::Released,
        ) =~= m);
    }
}

/// Pressing the same non-modifier key twice is the same as pressing it
/// once: the second press is dropped, whether the first was stored or
/// itself dropped. In particular the pressed list keeps its length.
pub proof fn lemma_press_idempotent(m: KeyboardModel, key: KeyMap)
    requires
        key.modifier is None,
    ensures
        spec_update(spec_update(m, key, KeyState::Pressed), key, KeyState::Pressed) == spec_update(
            m,
            key,
            KeyState::Pressed,
        ),
{
    let m1 = spec_update(m, key, KeyState::Pressed);
    if !press_blocked(m, key) {
        assert(m1.pressed[m.pressed.len() as int].id == key.id);
        assert(in_pressed(m1.pressed, key.id));
    }
}

/// A press at or beyond a configured rollover limit is dropped: the state
/// does not change.
pub proof fn lemma_rollover_blocks(m: KeyboardModel, key: KeyMap)
    requires
        key.modifier is None,
        m.rollover matches Some(l) && m.pressed.len() >= l,
    ensures
        spec_update(m, key, KeyState::Pressed) == m,
{
}

/// Releasing a key that is not held changes nothing.
pub proof fn lemma_release_absent_is_noop(m: KeyboardModel, key: KeyMap)
    requires
        key.modifier is None,
        !in_pressed(m.pressed, key.id),
    ensures
        spec_update(m, key, KeyState::Released) == m,
{
    let pred = pred_id_differs(key.id);
    assert forall|i: int| 0 <= i < m.pressed.len() implies pred(#[trigger] m.pressed[i]) by {
        assert(!(0 <= i < m.pressed.len() && m.pressed[i].id == key.id));
    }
    lemma_filter_retains_all(m.pressed, pred);
    assert(spec_update(m, key, KeyState::Released) =~= m);
}

/// A filter rejecting exactly the element at position `p` removes that
/// element and nothing else.
proof fn lemma_filter_remove_one(s: Seq<KeyMap>, pred: spec_fn(KeyMap) -> bool, p: int)
    requires
        0 <= p < s.len(),
        !pred(s[p]),
        forall|i: int| 0 <= i < s.len() && i != p ==> pred(#[trigger] s[i]),
    ensures
        s.filter(pred) == s.remove(p),
    decreases s.len(),
{
    reveal(Seq::filter);
    let rest = s.drop_last();
    let last = s.last();
    if p == s.len() - 1 {
        assert forall|i: int| 0 <= i < rest.len() implies pred(#[trigger] rest[i]) by {
            assert(rest[i] == s[i]);
        }
        lemma_filter_retains_all(rest, pred);
        assert(s.filter(pred) =~= s.remove(p));
    } else {
        assert forall|i: int| 0 <= i < rest.len() && i != p implies pred(#[trigger] rest[i]) by {
            assert(rest[i] == s[i]);
        }
        assert(rest[p] == s[p]);
        lemma_filter_remove_one(rest, pred, p);
        assert(pred(last));
        assert(s.filter(pred) =~= s.remove(p));
    }
}

/// Releasing a held key removes exactly its entry from the pressed list,
/// keeping every other entry in its original relative order.
pub proof fn lemma_release_removes_at(m: KeyboardModel, key: KeyMap, p: int)
    requires
        key.modifier is None,
        distinct_ids(m.pressed),
        0 <= p < m.pressed.len(),
        m.pressed[p].id == key.id,
    ensures
        spec_update(m, key, KeyState::Released).pressed == m.pressed.remove(p),
{
    let pred = pred_id_differs(key.id);
    assert forall|i: int| 0 <= i < m.pressed.len() && i != p implies pred(
        #[trigger] m.pressed[i],
    ) by {
        if i < p {
            assert(m.pressed[i].id != m.pressed[p].id);
        } else {
            assert(m.pressed[p].id != m.pressed[i].id);
        }
    }
    lemma_filter_remove_one(m.pressed, pred, p);
}

/// A release removes exactly the records filed under the released key's
/// identifier: every other record stays, and nothing else appears.
pub proof fn lemma_release_removes_exactly(m: KeyboardModel, key: KeyMap, x: KeyMap)
    requires
        key.modifier is None,
    ensures
        spec_update(m, key, KeyState::Released).pressed.contains(x) <==> (m.pressed.contains(x)
            && x.id != key.id),
{
    let pred = pred_id_differs(key.id);
    let f = m.pressed.filter(pred);
    if f.contains(x) {
        m.pressed.lemma_filter_contains_rev(pred, x);
        let j = choose|j: int| 0 <= j < f.len() && f[j] == x;
        m.pressed.lemma_filter_pred(pred, j);
    }
    if m.pressed.contains(x) && x.id != key.id {
        let i = choose|i: int| 0 <= i < m.pressed.len() && m.pressed[i] == x;
        m.pressed.lemma_filter_contains(pred, i);
    }
}

/// With nothing pressed, no modifier held and no rollover configured, the
/// report is the eight zero bytes of an idle boot-protocol keyboard.
pub proof fn lemma_idle_boot_report(m: KeyboardModel)
    requires
        m.pressed.len() == 0,
        m.modifiers == 0,
        m.rollover is None,
    ensures
        report_bytes(m) =~= Seq::new(8, |j: int| 0u8),
{
}

} // verus!
