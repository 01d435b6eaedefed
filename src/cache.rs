//! The voice presence cache: the last known voice channel of each listener,
//! and the steps that resolve which channel a join goes to.

use crate::store::{presence_entries, presence_get, presence_insert, presence_new};
use dashmap::DashMap;
use vstd::prelude::*;

verus! {

/// Where a listener is in voice: the channel, or none when they are in none.
#[derive(Clone, Copy, Debug, PartialEq, Eq, Structural)]
pub struct VoiceMembership {
    pub channel: Option<u64>,
}

/// Listener id to last known membership. Each notification overwrites the
/// listener's entry; entries are never removed.
pub struct Cache {
    voice_states: DashMap<u64, VoiceMembership>,
}

impl View for Cache {
    type V = Map<u64, VoiceMembership>;

    closed spec fn view(&self) -> Map<u64, VoiceMembership> {
        presence_entries(self.voice_states)
    }
}

/// What a join does next to learn its target channel.
#[derive(Clone, Copy, Debug, PartialEq, Eq, Structural)]
pub enum JoinTarget {
    /// Join this channel.
    Channel(u64),
    /// Nothing is known of the caller: fetch their voice state, then record it.
    Fetch,
    /// The caller is in no voice channel: report it and change nothing.
    NotConnected,
}

/// The target of a join: the channel named by the caller, else the one that
/// the cache holds for them; with no entry, a fetch is needed.
pub open spec fn join_target_of(
    explicit: Option<u64>,
    known: Option<VoiceMembership>,
) -> JoinTarget {
    match explicit {
        Some(c) => JoinTarget::Channel(c),
        None => match known {
            None => JoinTarget::Fetch,
            Some(m) => match m.channel {
                Some(c) => JoinTarget::Channel(c),
                None => JoinTarget::NotConnected,
            },
        },
    }
}

impl Cache {
    /// An empty cache.
    pub fn new() -> (r: Cache)
        ensures
            r@ == Map::<u64, VoiceMembership>::empty(),
    {
        let voice_states = presence_new();
        let r = Cache { voice_states };
        assert(r@ =~= Map::<u64, VoiceMembership>::empty());
        r
    }

    /// Overwrites what is known of the listener.
    pub fn record_voice_state(&mut self, id: u64, state: VoiceMembership)
        ensures
            final(self)@ == old(self)@.insert(id, state),
    {
        presence_insert(&mut self.voice_states, id, state);
    }

    /// What is known of the listener, if anything.
    pub fn get_voice_state(&self, id: u64) -> (r: Option<VoiceMembership>)
        ensures
            r == (if self@.contains_key(id) {
                Some(self@[id])
            } else {
                None
            }),
    {
        presence_get(&self.voice_states, id)
    }

    /// The first step of a join: an explicit channel wins, else the cache
    /// decides, else a fetch is asked for.
    pub fn join_target(&self, explicit: Option<u64>, user: u64) -> (r: JoinTarget)
        ensures
            r == join_target_of(explicit, if self@.contains_key(user) {
                Some(self@[user])
            } else {
                None
            }),
            r == JoinTarget::Fetch ==> explicit.is_none() && !self@.contains_key(user),
    {
        match explicit {
            Some(c) => JoinTarget::Channel(c),
            None => match self.get_voice_state(user) {
                None => JoinTarget::Fetch,
                Some(m) => match m.channel {
                    Some(c) => JoinTarget::Channel(c),
                    None => JoinTarget::NotConnected,
                },
            },
        }
    }

    /// The second step of a join, after a fetch: the fetched state is written
    /// to the cache, and the target is read back from the cache.
    pub fn resolve_fetched(&mut self, user: u64, fetched: VoiceMembership) -> (r: JoinTarget)
        ensures
            final(self)@ == old(self)@.insert(user, fetched),
            r == join_target_of(None, Some(fetched)),
            r != JoinTarget::Fetch,
    {
        self.record_voice_state(user, fetched);
        self.join_target(None, user)
    }
}

/// A listener never recorded has no entry; once recorded in channel `x` the
/// entry says `x`; a later record of no channel overwrites it. Recording one
/// listener leaves every other entry as it was.
pub proof fn lemma_presence_last_write_wins(
    c: Map<u64, VoiceMembership>,
    listener: u64,
    other: u64,
    x: u64,
)
    requires
        !c.contains_key(listener),
        listener != other,
    ensures
        c.insert(listener, VoiceMembership { channel: Some(x) })[listener] == (VoiceMembership {
            channel: Some(x),
        }),
        c.insert(listener, VoiceMembership { channel: Some(x) }).insert(
            listener,
            VoiceMembership { channel: None },
        )[listener] == (VoiceMembership { channel: None }),
        c.insert(listener, VoiceMembership { channel: Some(x) }).contains_key(other)
            == c.contains_key(other),
        c.insert(listener, VoiceMembership { channel: Some(x) }).contains_key(other) ==> c.insert(
            listener,
            VoiceMembership { channel: Some(x) },
        )[other] == c[other],
{
}

} // verus!
