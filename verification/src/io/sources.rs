//! `slab::Slab` holding the reactor's source records, as the verifier sees
//! it.
//!
//! The slab is opaque. Three names say what the contracts need of it: which
//! record sits under which key, how many slots the slab has handed out, and
//! which key the next record goes under.

use vstd::prelude::*;
use slab::Slab;
use crate::io::iosource::IoSource;
use crate::slab_spec::slot_bound;

verus! {

/// The records that the slab holds, by key.
pub uninterp spec fn source_entries(sources: Slab<IoSource>) -> Map<usize, IoSource>;

/// The number of slots, filled or vacant, that the slab has handed out.
pub uninterp spec fn source_slots(sources: Slab<IoSource>) -> nat;

/// The key under which the slab puts the next record.
pub uninterp spec fn source_vacant(sources: Slab<IoSource>) -> usize;

/// The map without any record.
pub open spec fn no_sources() -> Map<usize, IoSource> {
    Map::empty()
}

/// Calls `Slab::with_capacity`: a slab without entries and without slots.
/// The capacity only reserves memory.
#[verifier::external_body]
pub(crate) fn sources_with_capacity(capacity: usize) -> (sources: Slab<IoSource>)
    requires
        capacity <= slot_bound(),
    ensures
        source_entries(sources) == no_sources(),
        source_slots(sources) == 0,
{
    Slab::with_capacity(capacity)
}

/// Calls `Slab::len`: the number of entries.
#[verifier::external_body]
pub(crate) fn sources_len(sources: &Slab<IoSource>) -> (len: usize)
    ensures
        len == source_entries(*sources).len(),
{
    sources.len()
}

/// Calls `Slab::vacant_key`: the key of the next insertion. No entry sits
/// under it. While no slot is vacant it is the number of slots, and only
/// then.
#[verifier::external_body]
pub(crate) fn sources_vacant_key(sources: &Slab<IoSource>) -> (key: usize)
    ensures
        key == source_vacant(*sources),
        !source_entries(*sources).contains_key(key),
        key <= source_slots(*sources),
        key == source_slots(*sources) <==> source_entries(*sources).len() == source_slots(
            *sources,
        ),
{
    sources.vacant_key()
}

/// Calls `Slab::insert`. The record goes under the vacant key; where that
/// key is the number of slots the slab grows by one slot.
#[verifier::external_body]
pub(crate) fn sources_insert(sources: &mut Slab<IoSource>, source: IoSource) -> (key: usize)
    requires
        source_slots(*old(sources)) < slot_bound(),
    ensures
        key == source_vacant(*old(sources)),
        source_entries(*final(sources)) == source_entries(*old(sources)).insert(key, source),
        source_slots(*final(sources)) == if key == source_slots(*old(sources)) {
            source_slots(*old(sources)) + 1
        } else {
            source_slots(*old(sources))
        },
{
    sources.insert(source)
}

/// Calls `Slab::get`: the entry under `key`, if there is one.
#[verifier::external_body]
pub(crate) fn sources_get(sources: &Slab<IoSource>, key: usize) -> (found: Option<&IoSource>)
    ensures
        found == if source_entries(*sources).contains_key(key) {
            Some(&source_entries(*sources)[key])
        } else {
            None
        },
{
    sources.get(key)
}

/// Calls `Slab::get_mut`: the entry under `key`, if there is one, to be
/// changed in place. No other entry is touched, and neither the slots nor
/// the vacant key.
#[verifier::external_body]
pub(crate) fn sources_get_mut(sources: &mut Slab<IoSource>, key: usize) -> (found: Option<
    &mut IoSource,
>)
    ensures
        match found {
            Some(source) => source_entries(*old(sources)).contains_key(key) && *source
                == source_entries(*old(sources))[key] && source_entries(*final(sources))
                == source_entries(*old(sources)).insert(key, *final(source)),
            None => !source_entries(*old(sources)).contains_key(key) && source_entries(
                *final(sources),
            ) == source_entries(*old(sources)),
        },
        source_slots(*final(sources)) == source_slots(*old(sources)),
        source_vacant(*final(sources)) == source_vacant(*old(sources)),
{
    sources.get_mut(key)
}

/// Calls `Slab::try_remove`. An entry under `key` leaves the slab and is
/// handed out; its key becomes the vacant key. Without such an entry
/// nothing changes. The slab never gives a slot back.
#[verifier::external_body]
pub(crate) fn sources_try_remove(sources: &mut Slab<IoSource>, key: usize) -> (removed: Option<
    IoSource,
>)
    ensures
        removed == if source_entries(*old(sources)).contains_key(key) {
            Some(source_entries(*old(sources))[key])
        } else {
            None
        },
        source_entries(*final(sources)) == source_entries(*old(sources)).remove(key),
        source_vacant(*final(sources)) == if removed.is_some() {
            key
        } else {
            source_vacant(*old(sources))
        },
        source_slots(*final(sources)) == source_slots(*old(sources)),
{
    sources.try_remove(key)
}

} // verus!
