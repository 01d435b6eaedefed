//! The registry of sessions: at most one per room, each with a FIFO queue of
//! tracks and the handle of the track now loaded.

use crate::session::{
    default_repeat, fresh_session, GuildData, PlaybackHandle, RepeatMode, SessionView, Track,
};
use crate::store::{
    session_entries, sessions_contains, sessions_get_handle, sessions_insert, sessions_new,
    sessions_remove,
};
use dashmap::DashMap;
use vstd::prelude::*;

verus! {

/// Room id to session. A room has a session exactly while the audio engine
/// has something loaded for it.
pub struct Registry {
    guild_data: DashMap<u64, GuildData>,
}

/// The model of a registry after `put_handle`: an existing session gets the
/// new handle and keeps its queue and mode; otherwise a fresh session starts.
pub open spec fn put_handle_model(
    m: Map<u64, SessionView>,
    room: u64,
    handle: PlaybackHandle,
) -> Map<u64, SessionView> {
    if m.contains_key(room) {
        m.insert(room, SessionView { handle: handle, ..m[room] })
    } else {
        m.insert(room, fresh_session(handle))
    }
}

/// The model of a registry after `add_track`: the track joins the back of
/// the room's queue; a room without a session is left alone.
pub open spec fn add_track_model(m: Map<u64, SessionView>, room: u64, track: Track) -> Map<
    u64,
    SessionView,
> {
    if m.contains_key(room) {
        m.insert(room, SessionView { queue: m[room].queue.push(track), ..m[room] })
    } else {
        m
    }
}

/// Whether the room has a session with a track waiting.
pub open spec fn has_waiting(m: Map<u64, SessionView>, room: u64) -> bool {
    m.contains_key(room) && m[room].queue.len() > 0
}

/// The model of a registry after `pop_track`: the front of the room's queue
/// leaves it; the session stays even when its queue becomes empty.
pub open spec fn pop_track_model(m: Map<u64, SessionView>, room: u64) -> Map<u64, SessionView> {
    if has_waiting(m, room) {
        m.insert(room, SessionView { queue: m[room].queue.drop_first(), ..m[room] })
    } else {
        m
    }
}

/// The track that `pop_track` hands out.
pub open spec fn popped_track(m: Map<u64, SessionView>, room: u64) -> Option<Track> {
    if has_waiting(m, room) {
        Some(m[room].queue[0])
    } else {
        None
    }
}

/// The model of a registry after the track of a room ends: with a track
/// waiting, it leaves the queue; with none, the session is torn down.
pub open spec fn track_ended_model(m: Map<u64, SessionView>, room: u64) -> Map<u64, SessionView> {
    if has_waiting(m, room) {
        pop_track_model(m, room)
    } else {
        m.remove(room)
    }
}

impl View for Registry {
    type V = Map<u64, SessionView>;

    closed spec fn view(&self) -> Map<u64, SessionView> {
        session_entries(self.guild_data).map_values(|s: GuildData| s@)
    }
}

impl Registry {
    /// A registry with no sessions.
    pub fn new() -> (r: Registry)
        ensures
            r@ == Map::<u64, SessionView>::empty(),
    {
        let r = Registry { guild_data: sessions_new() };
        assert(r@ =~= Map::<u64, SessionView>::empty());
        r
    }

    /// Whether the room has a session.
    pub fn has_guild_data(&self, room: u64) -> (r: bool)
        ensures
            r == self@.contains_key(room),
    {
        sessions_contains(&self.guild_data, room)
    }

    /// The handle of the track loaded for the room, if it has a session.
    pub fn current_handle(&self, room: u64) -> (r: Option<PlaybackHandle>)
        ensures
            r == (if self@.contains_key(room) {
                Some(self@[room].handle)
            } else {
                None
            }),
    {
        sessions_get_handle(&self.guild_data, room)
    }

    /// Takes the room's session out of the map, for a change in place.
    fn take(&mut self, room: u64) -> (r: Option<GuildData>)
        ensures
            final(self)@ == old(self)@.remove(room),
            r.is_some() == old(self)@.contains_key(room),
            r.is_some() ==> r.unwrap()@ == old(self)@[room],
    {
        let r = sessions_remove(&mut self.guild_data, room);
        assert(self@ =~= old(self)@.remove(room));
        r
    }

    /// Puts a session for the room into the map.
    fn put(&mut self, room: u64, data: GuildData)
        ensures
            final(self)@ == old(self)@.insert(room, data@),
    {
        let ghost v = data@;
        sessions_insert(&mut self.guild_data, room, data);
        assert(self@ =~= old(self)@.insert(room, v));
    }

    /// Records the handle of the track now loaded for the room: an existing
    /// session keeps its queue and mode, a room without one gets a fresh one.
    pub fn put_handle(&mut self, room: u64, handle: PlaybackHandle)
        ensures
            final(self)@ == put_handle_model(old(self)@, room, handle),
    {
        match self.take(room) {
            Some(mut data) => {
                data.handle = handle;
                self.put(room, data);
                assert(self@ =~= put_handle_model(old(self)@, room, handle));
            },
            None => {
                self.put(room, GuildData::new(handle));
                assert(self@ =~= put_handle_model(old(self)@, room, handle));
            },
        }
    }

    /// Deletes the room's session and hands it back.
    pub fn remove_guild_data(&mut self, room: u64) -> (r: Option<GuildData>)
        ensures
            final(self)@ == old(self)@.remove(room),
            r.is_some() == old(self)@.contains_key(room),
            r.is_some() ==> r.unwrap()@ == old(self)@[room],
    {
        self.take(room)
    }

    /// Appends a track to the room's queue. Without a session this does
    /// nothing: a session is started with `put_handle`.
    pub fn add_track(&mut self, room: u64, track: Track)
        ensures
            final(self)@ == add_track_model(old(self)@, room, track),
            !old(self)@.contains_key(room) ==> final(self)@ == old(self)@,
    {
        match self.take(room) {
            Some(mut data) => {
                data.queue.push_back(track);
                self.put(room, data);
                assert(self@ =~= add_track_model(old(self)@, room, track));
            },
            None => {
                assert(self@ =~= old(self)@);
            },
        }
    }

    /// Takes the track at the front of the room's queue. The session stays,
    /// even when nothing is left in its queue.
    pub fn pop_track(&mut self, room: u64) -> (r: Option<Track>)
        ensures
            final(self)@ == pop_track_model(old(self)@, room),
            r == popped_track(old(self)@, room),
    {
        match self.take(room) {
            Some(mut data) => {
                let r = data.queue.pop_front();
                self.put(room, data);
                assert(self@ =~= pop_track_model(old(self)@, room));
                r
            },
            None => {
                assert(self@ =~= old(self)@);
                None
            },
        }
    }

    /// Sets the room's repeat mode. Returns whether the room has a session;
    /// without one nothing changes.
    pub fn set_repeat(&mut self, room: u64, mode: RepeatMode) -> (r: bool)
        ensures
            r == old(self)@.contains_key(room),
            final(self)@ == (if r {
                old(self)@.insert(room, SessionView { repeat: mode, ..old(self)@[room] })
            } else {
                old(self)@
            }),
    {
        match self.take(room) {
            Some(mut data) => {
                data.repeat = mode;
                self.put(room, data);
                assert(self@ =~= old(self)@.insert(
                    room,
                    SessionView { repeat: mode, ..old(self)@[room] },
                ));
                true
            },
            None => {
                assert(self@ =~= old(self)@);
                false
            },
        }
    }
}

/// The registry after appending the tracks one by one, first to last.
pub open spec fn add_tracks_model(m: Map<u64, SessionView>, room: u64, tracks: Seq<Track>) -> Map<
    u64,
    SessionView,
>
    decreases tracks.len(),
{
    if tracks.len() == 0 {
        m
    } else {
        add_track_model(add_tracks_model(m, room, tracks.drop_last()), room, tracks.last())
    }
}

/// The registry after `n` calls of `pop_track` on the room.
pub open spec fn pop_tracks_model(m: Map<u64, SessionView>, room: u64, n: nat) -> Map<
    u64,
    SessionView,
>
    decreases n,
{
    if n == 0 {
        m
    } else {
        pop_track_model(pop_tracks_model(m, room, (n - 1) as nat), room)
    }
}

/// Appending to a room with a session extends its queue at the back and
/// changes nothing else of it.
proof fn lemma_add_tracks_appends(m: Map<u64, SessionView>, room: u64, tracks: Seq<Track>)
    requires
        m.contains_key(room),
    ensures
        add_tracks_model(m, room, tracks).contains_key(room),
        add_tracks_model(m, room, tracks)[room] == (SessionView {
            queue: m[room].queue + tracks,
            ..m[room]
        }),
    decreases tracks.len(),
{
    if tracks.len() > 0 {
        lemma_add_tracks_appends(m, room, tracks.drop_last());
        assert((m[room].queue + tracks.drop_last()).push(tracks.last()) =~= m[room].queue + tracks);
    } else {
        assert(m[room].queue + tracks =~= m[room].queue);
    }
}

/// Popping `n` tracks from a queue at least that long leaves the rest of the
/// queue and keeps the session.
proof fn lemma_pop_tracks_leaves_rest(m: Map<u64, SessionView>, room: u64, n: nat)
    requires
        m.contains_key(room),
        n <= m[room].queue.len(),
    ensures
        pop_tracks_model(m, room, n).contains_key(room),
        pop_tracks_model(m, room, n)[room] == (SessionView {
            queue: m[room].queue.skip(n as int),
            ..m[room]
        }),
    decreases n,
{
    if n == 0 {
        assert(m[room].queue.skip(0) =~= m[room].queue);
    } else {
        lemma_pop_tracks_leaves_rest(m, room, (n - 1) as nat);
        assert(m[room].queue.skip((n - 1) as int).drop_first() =~= m[room].queue.skip(n as int));
    }
}

/// Appending to a room without a session leaves the registry as it was: no
/// session comes into being.
pub proof fn lemma_add_without_session(m: Map<u64, SessionView>, room: u64, tracks: Seq<Track>)
    requires
        !m.contains_key(room),
    ensures
        add_tracks_model(m, room, tracks) == m,
    decreases tracks.len(),
{
    if tracks.len() > 0 {
        lemma_add_without_session(m, room, tracks.drop_last());
    }
}

/// Tracks leave a queue in the order they were appended: after appending
/// `tracks` to a session whose queue is `q`, the `i`-th pop hands out the
/// `i`-th track of `q + tracks`; once all are out, the queue is empty and the
/// session is still there.
pub proof fn lemma_fifo_order(m: Map<u64, SessionView>, room: u64, tracks: Seq<Track>)
    requires
        m.contains_key(room),
    ensures
        forall|i: int|
            0 <= i < m[room].queue.len() + tracks.len() ==> #[trigger] popped_track(
                pop_tracks_model(add_tracks_model(m, room, tracks), room, i as nat),
                room,
            ) == Some((m[room].queue + tracks)[i]),
        pop_tracks_model(
            add_tracks_model(m, room, tracks),
            room,
            m[room].queue.len() + tracks.len(),
        ).contains_key(room),
        pop_tracks_model(
            add_tracks_model(m, room, tracks),
            room,
            m[room].queue.len() + tracks.len(),
        )[room].queue.len() == 0,
{
    let m1 = add_tracks_model(m, room, tracks);
    let q = m[room].queue + tracks;
    lemma_add_tracks_appends(m, room, tracks);
    assert forall|i: int| 0 <= i < q.len() implies #[trigger] popped_track(
        pop_tracks_model(m1, room, i as nat),
        room,
    ) == Some(q[i]) by {
        lemma_pop_tracks_leaves_rest(m1, room, i as nat);
        assert(q.skip(i)[0] == q[i]);
    }
    lemma_pop_tracks_leaves_rest(m1, room, q.len());
}

/// Every append to a session lands: after `n` appends its queue is `n`
/// tracks longer.
pub proof fn lemma_appends_not_lost(m: Map<u64, SessionView>, room: u64, tracks: Seq<Track>)
    requires
        m.contains_key(room),
    ensures
        add_tracks_model(m, room, tracks)[room].queue.len() == m[room].queue.len() + tracks.len(),
{
    lemma_add_tracks_appends(m, room, tracks);
}

/// `put_handle` on a room without a session starts one with an empty queue
/// under the handle; a later `put_handle` replaces only the handle and keeps
/// the tracks queued in between.
pub proof fn lemma_put_handle_keeps_queue(
    m: Map<u64, SessionView>,
    room: u64,
    h1: PlaybackHandle,
    h2: PlaybackHandle,
    tracks: Seq<Track>,
)
    requires
        !m.contains_key(room),
    ensures
        put_handle_model(m, room, h1)[room] == fresh_session(h1),
        put_handle_model(add_tracks_model(put_handle_model(m, room, h1), room, tracks), room, h2)[room]
            == (SessionView { queue: tracks, handle: h2, repeat: default_repeat() }),
{
    let m1 = put_handle_model(m, room, h1);
    lemma_add_tracks_appends(m1, room, tracks);
    assert(Seq::<Track>::empty() + tracks =~= tracks);
}

} // verus!
