use berd::cache::{Cache, JoinTarget, VoiceMembership};
use berd::commands::{toggle_playback, ModeOption, PlayMode, Toggle};
use berd::registry::Registry;
use berd::session::{GuildData, PlaybackHandle, RepeatMode, Track, TrackMetadata};

fn track(name: &str) -> Track {
    Track {
        url: format!("https://media.example/{}", name),
        size: name.len() as u64 * 1000,
        metadata: Some(TrackMetadata {
            artist: Some("Someone".to_string()),
            title: Some(name.to_string()),
        }),
    }
}

fn handle(id: u64) -> PlaybackHandle {
    PlaybackHandle { id }
}

fn queue_of(data: &GuildData) -> Vec<String> {
    data.queue.iter().map(|t| t.url.clone()).collect()
}

#[test]
fn enqueue_without_session_creates_nothing() {
    let mut reg = Registry::new();
    reg.add_track(5, track("a"));
    assert!(!reg.has_guild_data(5));
    assert_eq!(reg.pop_track(5), None);
    assert!(reg.remove_guild_data(5).is_none());
}

#[test]
fn dequeue_is_fifo_and_keeps_session() {
    let mut reg = Registry::new();
    reg.put_handle(1, handle(10));
    let names = ["a", "b", "c", "d"];
    for n in names.iter() {
        reg.add_track(1, track(n));
    }
    for n in names.iter() {
        assert_eq!(reg.pop_track(1), Some(track(n)));
    }
    assert_eq!(reg.pop_track(1), None);
    assert!(reg.has_guild_data(1));
    let data = reg.remove_guild_data(1).unwrap();
    assert!(data.queue.is_empty());
    assert_eq!(data.handle, handle(10));
}

#[test]
fn put_handle_creates_then_replaces_only_handle() {
    let mut reg = Registry::new();
    reg.put_handle(2, handle(1));
    assert_eq!(reg.current_handle(2), Some(handle(1)));
    reg.add_track(2, track("x"));
    reg.add_track(2, track("y"));
    reg.put_handle(2, handle(2));
    assert_eq!(reg.current_handle(2), Some(handle(2)));
    let data = reg.remove_guild_data(2).unwrap();
    assert_eq!(
        queue_of(&data),
        vec!["https://media.example/x".to_string(), "https://media.example/y".to_string()]
    );
    assert_eq!(data.repeat, RepeatMode::No);
    assert!(!reg.has_guild_data(2));
}

#[test]
fn continuation_drains_queue_then_ends_session() {
    let mut reg = Registry::new();
    reg.put_handle(4, handle(100));
    reg.add_track(4, track("a"));
    reg.add_track(4, track("b"));

    let next = reg.track_ended(4);
    assert_eq!(next, Some(track("a")));
    reg.put_handle(4, handle(101));
    assert_eq!(reg.current_handle(4), Some(handle(101)));

    let next = reg.track_ended(4);
    assert_eq!(next, Some(track("b")));
    reg.put_handle(4, handle(102));
    assert!(reg.has_guild_data(4));
    assert_eq!(reg.current_handle(4), Some(handle(102)));

    assert_eq!(reg.track_ended(4), None);
    assert!(!reg.has_guild_data(4));
    assert_eq!(reg.current_handle(4), None);
}

#[test]
fn track_end_in_idle_room_stays_idle() {
    let mut reg = Registry::new();
    assert_eq!(reg.track_ended(9), None);
    assert!(!reg.has_guild_data(9));
}

#[test]
fn presence_lookup_record_overwrite() {
    let mut cache = Cache::new();
    assert_eq!(cache.get_voice_state(42), None);
    cache.record_voice_state(42, VoiceMembership { channel: Some(7) });
    assert_eq!(cache.get_voice_state(42), Some(VoiceMembership { channel: Some(7) }));
    cache.record_voice_state(42, VoiceMembership { channel: None });
    assert_eq!(cache.get_voice_state(42), Some(VoiceMembership { channel: None }));
    assert_eq!(cache.get_voice_state(43), None);
}

#[test]
fn many_enqueues_are_all_kept() {
    let mut reg = Registry::new();
    reg.put_handle(6, handle(1));
    let n: u64 = 50;
    for i in 0..n {
        reg.add_track(6, track(&format!("t{}", i)));
    }
    let data = reg.remove_guild_data(6).unwrap();
    assert_eq!(data.queue.len() as u64, n);
}

#[test]
fn play_scenario_end_to_end() {
    let mut reg = Registry::new();
    let room = 77;
    assert!(!reg.has_guild_data(room));

    let start = reg.queue_or_start(room, track("songA"));
    assert_eq!(start, Some(track("songA")));
    assert!(!reg.has_guild_data(room));
    reg.put_handle(room, handle(1));
    assert_eq!(reg.current_handle(room), Some(handle(1)));

    assert_eq!(reg.queue_or_start(room, track("songB")), None);
    assert_eq!(reg.current_handle(room), Some(handle(1)));

    let next = reg.track_ended(room);
    assert_eq!(next, Some(track("songB")));
    reg.put_handle(room, handle(2));
    assert_eq!(reg.current_handle(room), Some(handle(2)));
    assert_eq!(reg.pop_track(room), None);

    assert_eq!(reg.track_ended(room), None);
    assert!(!reg.has_guild_data(room));
}

#[test]
fn repeat_mode_set_only_on_active_room() {
    let mut reg = Registry::new();
    assert!(!reg.set_repeat(3, ModeOption::Single.get_mode()));
    assert!(!reg.has_guild_data(3));
    reg.put_handle(3, handle(5));
    assert!(reg.set_repeat(3, ModeOption::Single.get_mode()));
    reg.add_track(3, track("q"));
    let data = reg.remove_guild_data(3).unwrap();
    assert_eq!(data.repeat, RepeatMode::Single);
    assert_eq!(data.handle, handle(5));
    assert_eq!(queue_of(&data), vec!["https://media.example/q".to_string()]);
}

#[test]
fn mode_options_map_to_repeat_modes() {
    assert_eq!(ModeOption::Single.get_mode(), RepeatMode::Single);
    assert_eq!(ModeOption::No.get_mode(), RepeatMode::No);
}

#[test]
fn toggle_follows_play_mode() {
    assert_eq!(toggle_playback(PlayMode::Play), Toggle::Pause);
    assert_eq!(toggle_playback(PlayMode::Pause), Toggle::Resume);
    assert_eq!(toggle_playback(PlayMode::End), Toggle::AlreadyEnded);
    assert_eq!(toggle_playback(PlayMode::Stop), Toggle::Stopped);
    assert_eq!(toggle_playback(PlayMode::Errored), Toggle::Failed);
}

#[test]
fn join_target_resolution() {
    let mut cache = Cache::new();
    assert_eq!(cache.join_target(Some(11), 1), JoinTarget::Channel(11));
    assert_eq!(cache.join_target(None, 1), JoinTarget::Fetch);
    assert_eq!(
        cache.resolve_fetched(1, VoiceMembership { channel: Some(12) }),
        JoinTarget::Channel(12)
    );
    assert_eq!(cache.join_target(None, 1), JoinTarget::Channel(12));
    assert_eq!(cache.join_target(Some(13), 1), JoinTarget::Channel(13));
    assert_eq!(
        cache.resolve_fetched(2, VoiceMembership { channel: None }),
        JoinTarget::NotConnected
    );
    assert_eq!(cache.join_target(None, 2), JoinTarget::NotConnected);
}

#[test]
fn rooms_are_independent() {
    let mut reg = Registry::new();
    reg.put_handle(1, handle(1));
    reg.put_handle(2, handle(2));
    reg.add_track(1, track("one"));
    assert_eq!(reg.track_ended(2), None);
    assert!(!reg.has_guild_data(2));
    assert!(reg.has_guild_data(1));
    assert_eq!(reg.pop_track(1), Some(track("one")));
}
