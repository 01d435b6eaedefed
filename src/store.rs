//! The concurrent map of the `dashmap` crate, as this library sees it.
//!
//! Its methods take `&self` and lock one shard inside; the wrappers here take
//! `&mut` where the map changes, so that the change can be stated, and never
//! keep a reference into the map past the call.

use crate::session::{GuildData, PlaybackHandle};
use crate::cache::VoiceMembership;
use dashmap::DashMap;
use vstd::prelude::*;

verus! {

#[verifier::external_type_specification]
#[verifier::external_body]
#[verifier::reject_recursive_types(K)]
#[verifier::reject_recursive_types(V)]
#[verifier::reject_recursive_types(S)]
pub struct ExDashMap<K, V, S>(DashMap<K, V, S>);

/// The entries of a map of sessions, keyed by room.
pub uninterp spec fn session_entries(m: DashMap<u64, GuildData>) -> Map<u64, GuildData>;

/// The entries of a map of voice memberships, keyed by listener.
pub uninterp spec fn presence_entries(m: DashMap<u64, VoiceMembership>) -> Map<u64, VoiceMembership>;

/// Relies on `DashMap::new`: a new map holds no entries.
#[verifier::external_body]
pub(crate) fn sessions_new() -> (r: DashMap<u64, GuildData>)
    ensures
        session_entries(r).dom() == Set::<u64>::empty(),
{
    DashMap::new()
}

/// Relies on `DashMap::contains_key`: whether the key has an entry.
#[verifier::external_body]
pub(crate) fn sessions_contains(m: &DashMap<u64, GuildData>, room: u64) -> (r: bool)
    ensures
        r == session_entries(*m).contains_key(room),
{
    m.contains_key(&room)
}

/// Relies on `DashMap::insert`: the key then maps to the value, the other
/// entries stay.
#[verifier::external_body]
pub(crate) fn sessions_insert(m: &mut DashMap<u64, GuildData>, room: u64, data: GuildData)
    ensures
        session_entries(*final(m)) == session_entries(*old(m)).insert(room, data),
{
    m.insert(room, data);
}

/// Relies on `DashMap::remove`: the entry of the key, if any, leaves the map
/// and is handed back.
#[verifier::external_body]
pub(crate) fn sessions_remove(m: &mut DashMap<u64, GuildData>, room: u64) -> (r: Option<GuildData>)
    ensures
        session_entries(*final(m)) == session_entries(*old(m)).remove(room),
        r == (if session_entries(*old(m)).contains_key(room) {
            Some(session_entries(*old(m))[room])
        } else {
            None
        }),
{
    m.remove(&room).map(|(_, data)| data)
}

/// Relies on `DashMap::get`: the handle of the key's entry, if any; the
/// reference into the map is dropped before returning.
#[verifier::external_body]
pub(crate) fn sessions_get_handle(m: &DashMap<u64, GuildData>, room: u64) -> (r: Option<
    PlaybackHandle,
>)
    ensures
        r == (if session_entries(*m).contains_key(room) {
            Some(session_entries(*m)[room].handle)
        } else {
            None
        }),
{
    m.get(&room).map(|entry| entry.value().handle)
}

/// Relies on `DashMap::new`: a new map holds no entries.
#[verifier::external_body]
pub(crate) fn presence_new() -> (r: DashMap<u64, VoiceMembership>)
    ensures
        presence_entries(r).dom() == Set::<u64>::empty(),
{
    DashMap::new()
}

/// Relies on `DashMap::insert`: the key then maps to the value, the other
/// entries stay.
#[verifier::external_body]
pub(crate) fn presence_insert(
    m: &mut DashMap<u64, VoiceMembership>,
    listener: u64,
    membership: VoiceMembership,
)
    ensures
        presence_entries(*final(m)) == presence_entries(*old(m)).insert(listener, membership),
{
    m.insert(listener, membership);
}

/// Relies on `DashMap::get`: the entry of the key, if any; the reference
/// into the map is dropped before returning.
#[verifier::external_body]
pub(crate) fn presence_get(m: &DashMap<u64, VoiceMembership>, listener: u64) -> (r: Option<
    VoiceMembership,
>)
    ensures
        r == (if presence_entries(*m).contains_key(listener) {
            Some(presence_entries(*m)[listener])
        } else {
            None
        }),
{
    m.get(&listener).map(|entry| *entry.value())
}

} // verus!
