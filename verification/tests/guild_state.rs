use little_bobby_tabots::commands::guild_state::{GuildMusicState, Track, UserId};

fn track(title: &str) -> Track {
    Track {
        title: title.to_string(),
        url: format!("https://example.com/{title}"),
        requested_by: Some(UserId::new(1)),
        playback_id: None,
    }
}

fn titles(state: &GuildMusicState) -> Vec<&str> {
    state.queue.iter().map(|track| track.title.as_str()).collect()
}

#[test]
fn enqueue_batch_starts_first_track_when_idle() {
    let mut state = GuildMusicState::new();
    state.enqueue_batch(vec![track("one"), track("two"), track("three")], true);

    assert_eq!(
        state.current.as_ref().map(|track| &track.title),
        Some(&"one".to_string())
    );
    assert_eq!(
        state
            .queue
            .iter()
            .map(|track| track.title.as_str())
            .collect::<Vec<_>>(),
        vec!["two", "three"]
    );
}

#[test]
fn enqueue_batch_appends_when_a_track_is_playing() {
    let mut state = GuildMusicState::new();
    state.current = Some(track("current"));
    state.enqueue(track("existing"));

    state.enqueue_batch(vec![track("one"), track("two")], false);

    assert_eq!(
        state.current.as_ref().map(|track| &track.title),
        Some(&"current".to_string())
    );
    assert_eq!(
        state
            .queue
            .iter()
            .map(|track| track.title.as_str())
            .collect::<Vec<_>>(),
        vec!["existing", "one", "two"]
    );
}

#[test]
fn clear_removes_current_and_queued_tracks() {
    let mut state = GuildMusicState::new();
    state.current = Some(track("current"));
    state.enqueue(track("queued"));
    state.enable_preplay("https://youtu.be/preplay".to_string());

    state.clear();

    assert!(state.current.is_none());
    assert!(state.queue.is_empty());
    assert!(!state.preplay_active);
    assert_eq!(
        state.preplay_url.as_deref(),
        Some("https://youtu.be/preplay")
    );
}

#[test]
fn clear_queue_preserves_current_track_and_preplay_setting() {
    let mut state = GuildMusicState::new();
    let mut current = track("current");
    current.playback_id = Some("current-id".to_string());
    let mut queued = track("one");
    queued.playback_id = Some("queued-id".to_string());
    state.current = Some(current);
    state.enqueue(queued);
    state.enqueue(track("two"));
    state.enable_preplay("https://youtu.be/preplay".to_string());

    let cleared = state.clear_queue();

    assert_eq!(cleared, 2);
    assert_eq!(
        state.current.as_ref().map(|track| track.title.as_str()),
        Some("current")
    );
    assert!(state.queue.is_empty());
    assert!(state.is_current_playback("current-id"));
    assert!(!state.is_current_playback("queued-id"));
    assert_eq!(
        state.preplay_url.as_deref(),
        Some("https://youtu.be/preplay")
    );
}

#[test]
fn preplay_can_be_enabled_replaced_and_disabled() {
    let mut state = GuildMusicState::new();
    assert!(state.preplay_url.is_none());

    state.enable_preplay("https://youtu.be/one".to_string());
    state.enable_preplay("https://youtu.be/two".to_string());
    assert_eq!(state.preplay_url.as_deref(), Some("https://youtu.be/two"));

    assert!(state.disable_preplay());
    assert!(!state.disable_preplay());
    assert!(state.preplay_url.is_none());
}

#[test]
fn preplay_phase_keeps_next_music_queued_until_clip_ends() {
    let mut state = GuildMusicState::new();
    state.current = Some(track("current"));
    state.enqueue(track("next"));

    assert!(state.begin_preplay());
    assert!(state.preplay_active);
    assert!(state.current.is_none());
    assert_eq!(
        state.queue.front().map(|track| track.title.as_str()),
        Some("next")
    );

    let next = state.finish_preplay();
    assert!(!state.preplay_active);
    assert_eq!(
        next.as_ref().map(|track| track.title.as_str()),
        Some("next")
    );
    assert_eq!(
        state.current.as_ref().map(|track| track.title.as_str()),
        Some("next")
    );
    assert!(state.queue.is_empty());
}

#[test]
fn preplay_cannot_start_without_an_upcoming_song() {
    let mut state = GuildMusicState::new();
    state.current = Some(track("current"));

    assert!(!state.begin_preplay());
    assert!(!state.preplay_active);
    assert_eq!(
        state.current.as_ref().map(|track| track.title.as_str()),
        Some("current")
    );
}

#[test]
fn tracks_play_in_queue_order() {
    let mut state = GuildMusicState::new();
    state.enqueue_batch(vec![track("a"), track("b"), track("c")], true);
    assert_eq!(state.advance().map(|track| track.title), Some("b".to_string()));
    assert_eq!(titles(&state), vec!["c"]);
    assert_eq!(state.advance().map(|track| track.title), Some("c".to_string()));
    assert!(state.advance().is_none());
    assert!(state.current.is_none());
}

#[test]
fn empty_batch_in_silence_leaves_silence() {
    let mut state = GuildMusicState::new();
    state.enqueue_batch(vec![], true);
    assert!(state.current.is_none());
    assert!(state.queue.is_empty());
}

#[test]
fn finishing_without_a_clip_changes_nothing() {
    let mut state = GuildMusicState::new();
    state.current = Some(track("current"));
    state.enqueue(track("next"));
    assert!(state.finish_preplay().is_none());
    assert_eq!(state.current, Some(track("current")));
    assert_eq!(titles(&state), vec!["next"]);
}

#[test]
fn a_batch_queued_in_silence_ends_an_old_preplay_phase() {
    let mut state = GuildMusicState::new();
    state.preplay_active = true;
    state.enqueue_batch(vec![track("one")], true);
    assert!(!state.preplay_active);
    assert_eq!(state.current, Some(track("one")));
    assert_eq!(UserId::new(7).get(), 7);
}

#[test]
fn a_batch_can_be_queued_in_two_parts() {
    let mut whole = GuildMusicState::new();
    whole.enqueue_batch(vec![track("one"), track("two"), track("three")], true);
    let mut parts = GuildMusicState::new();
    parts.enqueue_batch(vec![track("one"), track("two")], true);
    parts.enqueue_batch(vec![track("three")], false);

    assert_eq!(whole.current, parts.current);
    assert_eq!(whole.queue, parts.queue);
}

#[test]
fn an_active_clip_leaves_no_current_track() {
    let mut state = GuildMusicState::new();
    state.enqueue_batch(vec![track("one"), track("two")], true);
    assert!(state.begin_preplay());
    state.enqueue(track("three"));
    state.enqueue_batch(vec![track("four")], false);
    state.enable_preplay("https://youtu.be/clip".to_string());
    state.disable_preplay();
    state.clear_queue();

    assert!(state.preplay_active);
    assert!(state.current.is_none());
}
