//! Resolution of single-encoding queries to full key records.
//!
//! The resolver scans the record table for a record whose field in the
//! query's encoding holds the query's value. Numeric queries can miss —
//! most values of a sixteen-bit code space name no key — and then resolution
//! reports that no record matches. Identifier and code queries always hit,
//! because the table holds a record for every enumerated identifier and
//! code.

use crate::codes::KeyMappingCode;
use crate::ids::KeyMappingId;
use crate::keymap::{map_matches, KeyMap, KeyMapping};
use crate::records::{
    id_of_code, id_of_evdev, id_of_mac, id_of_usb, id_of_win, id_of_xkb, key_map_table,
    lemma_code_lookup_forward, lemma_lookup_forward, lemma_record_consistent, record_of, table,
};
use vstd::prelude::*;

verus! {

/// Whether `m` is a record of the table: the record filed under its own
/// identifier.
pub open spec fn is_record(m: KeyMap) -> bool {
    m == record_of(m.id)
}

/// What a query resolves to: the unique table record holding the queried
/// value, or the lookup failure for a numeric value that names no key.
/// Identifier and code queries always resolve.
pub open spec fn resolve_spec(q: KeyMapping) -> Result<KeyMap, ()> {
    match q {
        KeyMapping::Usb(v) => match id_of_usb(v) {
            Some(id) => Ok(record_of(id)),
            None => Err(()),
        },
        KeyMapping::Evdev(v) => match id_of_evdev(v) {
            Some(id) => Ok(record_of(id)),
            None => Err(()),
        },
        KeyMapping::Xkb(v) => match id_of_xkb(v) {
            Some(id) => Ok(record_of(id)),
            None => Err(()),
        },
        KeyMapping::Win(v) => match id_of_win(v) {
            Some(id) => Ok(record_of(id)),
            None => Err(()),
        },
        KeyMapping::Mac(v) => match id_of_mac(v) {
            Some(id) => Ok(record_of(id)),
            None => Err(()),
        },
        KeyMapping::Code(c) => Ok(record_of(id_of_code(c))),
        KeyMapping::Id(id) => Ok(record_of(id)),
    }
}

/// A record that answers a query is what the query resolves to.
proof fn lemma_match_resolves(q: KeyMapping, m: KeyMap)
    requires
        is_record(m),
        map_matches(m, q),
    ensures
        resolve_spec(q) == Ok::<KeyMap, ()>(m),
{
    lemma_record_consistent(m.id);
}

/// A query that no record answers resolves to the lookup failure.
proof fn lemma_no_match_resolves(q: KeyMapping)
    requires
        forall|id: KeyMappingId| !map_matches(record_of(id), q),
    ensures
        resolve_spec(q) is Err,
{
    match q {
        KeyMapping::Usb(v) => {
            lemma_lookup_forward(v);
        },
        KeyMapping::Evdev(v) => {
            lemma_lookup_forward(v);
        },
        KeyMapping::Xkb(v) => {
            lemma_lookup_forward(v);
        },
        KeyMapping::Win(v) => {
            lemma_lookup_forward(v);
        },
        KeyMapping::Mac(v) => {
            lemma_lookup_forward(v);
        },
        KeyMapping::Code(c) => {
            lemma_code_lookup_forward(c);
        },
        KeyMapping::Id(id) => {
            lemma_record_consistent(id);
        },
    }
}

/// Whether record `m` answers query `q`, decided field by field.
fn matches_query(m: &KeyMap, q: &KeyMapping) -> (b: bool)
    ensures
        b == map_matches(*m, *q),
{
    match *q {
        KeyMapping::Usb(v) => m.usb == v,
        KeyMapping::Evdev(v) => m.evdev == v,
        KeyMapping::Xkb(v) => m.xkb == v,
        KeyMapping::Win(v) => m.win == v,
        KeyMapping::Mac(v) => m.mac == v,
        KeyMapping::Code(c) => match m.code {
            Some(mc) => mc == c,
            None => false,
        },
        KeyMapping::Id(i) => m.id == i,
    }
}

/// Scan the table for a record that answers the query.
fn get_key_map(key_mapping: KeyMapping) -> (r: Result<KeyMap, ()>)
    ensures
        r == resolve_spec(key_mapping),
        (r matches Ok(m) ==> is_record(m) && map_matches(m, key_mapping)),
        r is Err ==> forall|id: KeyMappingId| !map_matches(record_of(id), key_mapping),
{
    let t: Vec<KeyMap> = key_map_table();
    let mut i: usize = 0;
    while i < t.len()
        invariant
            t@ == table(),
            0 <= i <= t@.len(),
            forall|j: int| 0 <= j < i ==> !map_matches(t@[j], key_mapping),
        decreases t@.len() - i,
    {
        if matches_query(&t[i], &key_mapping) {
            proof {
                lemma_record_consistent(crate::records::id_at(i as int));
                lemma_match_resolves(key_mapping, t@[i as int]);
            }
            return Ok(t[i]);
        }
        i = i + 1;
    }
    proof {
        assert forall|id: KeyMappingId| !map_matches(record_of(id), key_mapping) by {
            lemma_record_consistent(id);
        };
        lemma_no_match_resolves(key_mapping);
    }
    Err(())
}

impl KeyMap {
    /// Resolve a single-encoding query to the full record for that key.
    ///
    /// Succeeds exactly when some record of the table holds the query's
    /// value in the query's encoding; the result is then that record.
    pub fn from_key_mapping(key_mapping: KeyMapping) -> (r: Result<KeyMap, ()>)
        ensures
            r == resolve_spec(key_mapping),
            (r matches Ok(m) ==> is_record(m) && map_matches(m, key_mapping)),
            r is Err ==> forall|id: KeyMappingId| !map_matches(record_of(id), key_mapping),
    {
        get_key_map(key_mapping)
    }
}

impl core::convert::TryFrom<KeyMapping> for KeyMap {
    type Error = ();

    fn try_from(key_mapping: KeyMapping) -> Result<KeyMap, ()> {
        get_key_map(key_mapping)
    }
}

impl vstd::std_specs::convert::TryFromSpecImpl<KeyMapping> for KeyMap {
    open spec fn obeys_try_from_spec() -> bool {
        true
    }

    open spec fn try_from_spec(v: KeyMapping) -> Result<KeyMap, ()> {
        resolve_spec(v)
    }
}

impl core::convert::From<KeyMappingId> for KeyMap {
    fn from(id: KeyMappingId) -> KeyMap {
        KeyMap::from_id(id)
    }
}

impl vstd::std_specs::convert::FromSpecImpl<KeyMappingId> for KeyMap {
    open spec fn obeys_from_spec() -> bool {
        true
    }

    open spec fn from_spec(id: KeyMappingId) -> KeyMap {
        record_of(id)
    }
}

impl core::convert::From<KeyMappingCode> for KeyMap {
    fn from(code: KeyMappingCode) -> KeyMap {
        KeyMap::from_code(code)
    }
}

impl vstd::std_specs::convert::FromSpecImpl<KeyMappingCode> for KeyMap {
    open spec fn obeys_from_spec() -> bool {
        true
    }

    open spec fn from_spec(code: KeyMappingCode) -> KeyMap {
        record_of(crate::records::id_of_code(code))
    }
}

/// Resolver totality: an identifier query never misses, and the record it
/// finds is filed under the queried identifier.
pub proof fn lemma_resolver_totality(id: KeyMappingId)
    ensures
        resolve_spec(KeyMapping::Id(id)) == Ok::<KeyMap, ()>(record_of(id)),
        record_of(id).id == id,
{
    lemma_record_consistent(id);
}

/// Cross-encoding consistency: resolving a record's own USB value and its
/// own evdev value both lead back to the record itself.
pub proof fn lemma_cross_encoding_consistent(id: KeyMappingId)
    ensures
        resolve_spec(KeyMapping::Usb(record_of(id).usb)) == Ok::<KeyMap, ()>(record_of(id)),
        resolve_spec(KeyMapping::Evdev(record_of(id).evdev)) == Ok::<KeyMap, ()>(record_of(id)),
{
    lemma_record_consistent(id);
}

} // verus!
