//! What happens in a room when its track ends, and when a new track is asked
//! for.
//!
//! The audio engine reports the end of a track on a task of its own. The
//! registry then decides, without calling the engine: the next track leaves
//! the queue and is handed back to be started, or, with nothing waiting, the
//! session ends. Once the engine has started the track and the end listener is
//! bound to the new handle, the handle is recorded with `put_handle`.

use crate::registry::{
    add_track_model, has_waiting, popped_track, put_handle_model,
    track_ended_model, Registry,
};
use crate::session::{default_repeat, PlaybackHandle, RepeatMode, SessionView, Track};
use vstd::prelude::*;

verus! {

impl Registry {
    /// The end of the room's track: the front of the queue is taken and
    /// returned, to be started; with nothing waiting the session is removed
    /// and `None` returned.
    pub fn track_ended(&mut self, room: u64) -> (r: Option<Track>)
        ensures
            final(self)@ == track_ended_model(old(self)@, room),
            r == popped_track(old(self)@, room),
            r.is_none() ==> !final(self)@.contains_key(room),
            r.is_some() ==> final(self)@.contains_key(room),
    {
        let next = self.pop_track(room);
        match next {
            Some(track) => Some(track),
            None => {
                self.remove_guild_data(room);
                None
            },
        }
    }

    /// A request to play a track in the room, decided once: with a session
    /// the track is queued and `None` returned; without one nothing changes
    /// and the track is handed back, to be started and then recorded with
    /// `put_handle`.
    pub fn queue_or_start(&mut self, room: u64, track: Track) -> (r: Option<Track>)
        ensures
            old(self)@.contains_key(room) ==> r.is_none() && final(self)@ == add_track_model(
                old(self)@,
                room,
                track,
            ),
            !old(self)@.contains_key(room) ==> r == Some(track) && final(self)@ == old(self)@,
    {
        if self.has_guild_data(room) {
            self.add_track(room, track);
            None
        } else {
            Some(track)
        }
    }
}

/// The state of a registry after the track of a room ended and, when a next
/// track came out of the queue, the engine started it under `handle`.
pub open spec fn advance_model(m: Map<u64, SessionView>, room: u64, handle: PlaybackHandle) -> Map<
    u64,
    SessionView,
> {
    if has_waiting(m, room) {
        put_handle_model(track_ended_model(m, room), room, handle)
    } else {
        track_ended_model(m, room)
    }
}

/// A session with queue `[a, b]` drains in order: the first end of a track
/// starts `a` and leaves `[b]`, the second starts `b` and leaves `[]`, both
/// keeping the session and its mode; the third ends the session.
pub proof fn lemma_continuation_drains(
    m: Map<u64, SessionView>,
    room: u64,
    a: Track,
    b: Track,
    h0: PlaybackHandle,
    ha: PlaybackHandle,
    hb: PlaybackHandle,
    hc: PlaybackHandle,
    mode: RepeatMode,
)
    requires
        m.contains_key(room),
        m[room] == (SessionView { queue: seq![a, b], handle: h0, repeat: mode }),
    ensures
        popped_track(m, room) == Some(a),
        advance_model(m, room, ha)[room] == (SessionView {
            queue: seq![b],
            handle: ha,
            repeat: mode,
        }),
        popped_track(advance_model(m, room, ha), room) == Some(b),
        advance_model(advance_model(m, room, ha), room, hb)[room] == (SessionView {
            queue: Seq::<Track>::empty(),
            handle: hb,
            repeat: mode,
        }),
        popped_track(advance_model(advance_model(m, room, ha), room, hb), room) == None::<Track>,
        !advance_model(advance_model(advance_model(m, room, ha), room, hb), room, hc).contains_key(
            room,
        ),
{
    let m1 = advance_model(m, room, ha);
    assert(seq![a, b].drop_first() =~= seq![b]);
    assert(m1[room] == (SessionView { queue: seq![b], handle: ha, repeat: mode }));
    let m2 = advance_model(m1, room, hb);
    assert(seq![b].drop_first() =~= Seq::<Track>::empty());
    assert(m2[room] == (SessionView { queue: Seq::<Track>::empty(), handle: hb, repeat: mode }));
}

/// A room with no session: the first request to play starts a session under
/// the first track's handle with nothing queued; a second request while it
/// plays is queued; the end of the first track starts the second; the end of
/// that one leaves the room idle.
pub proof fn lemma_play_scenario(
    m: Map<u64, SessionView>,
    room: u64,
    a: Track,
    b: Track,
    ha: PlaybackHandle,
    hb: PlaybackHandle,
    hc: PlaybackHandle,
)
    requires
        !m.contains_key(room),
    ensures
        put_handle_model(m, room, ha)[room] == (SessionView {
            queue: Seq::<Track>::empty(),
            handle: ha,
            repeat: default_repeat(),
        }),
        add_track_model(put_handle_model(m, room, ha), room, b)[room] == (SessionView {
            queue: seq![b],
            handle: ha,
            repeat: default_repeat(),
        }),
        advance_model(add_track_model(put_handle_model(m, room, ha), room, b), room, hb)[room]
            == (SessionView { queue: Seq::<Track>::empty(), handle: hb, repeat: default_repeat() }),
        !advance_model(
            advance_model(add_track_model(put_handle_model(m, room, ha), room, b), room, hb),
            room,
            hc,
        ).contains_key(room),
{
    let m0 = put_handle_model(m, room, ha);
    let m1 = add_track_model(m0, room, b);
    assert(Seq::<Track>::empty().push(b) =~= seq![b]);
    assert(m1[room] == (SessionView { queue: seq![b], handle: ha, repeat: default_repeat() }));
    assert(seq![b].drop_first() =~= Seq::<Track>::empty());
    let m2 = advance_model(m1, room, hb);
    assert(m2[room] == (SessionView {
        queue: Seq::<Track>::empty(),
        handle: hb,
        repeat: default_repeat(),
    }));
}

} // verus!
