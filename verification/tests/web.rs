use std::collections::VecDeque;

use little_bobby_tabots::commands::guild_state::{GuildMusicState, Track, UserId};
use little_bobby_tabots::commands::play::ResolvedPlayRequest;
use little_bobby_tabots::playlists::PlaylistError;
use little_bobby_tabots::web::{
    add_track, bind_address, can_reorder, clear_queue, configured_guild, connected_or_join, env_id, get_queue,
    join_failed, playback_action, playback_performed, playback_snapshot, playlist_api_error,
    queue_playlist, remove_track, reorder_queue, static_dir, track_added, track_response, ApiError,
    ApiStatus, CallInfo, Connection, PlaybackAction,
};

fn track(title: &str) -> Track {
    Track {
        title: title.to_string(),
        url: format!("https://example.com/{title}"),
        requested_by: None,
        playback_id: None,
    }
}

fn state(titles: &[&str]) -> GuildMusicState {
    let mut state = GuildMusicState::new();
    state.enqueue_batch(titles.iter().map(|title| track(title)).collect(), true);
    state
}

fn upcoming(state: &GuildMusicState) -> Vec<&str> {
    state.queue.iter().map(|track| track.title.as_str()).collect()
}

fn parts(error: ApiError) -> (u16, String) {
    (error.status.code(), error.message)
}

#[test]
fn statuses_have_their_codes() {
    assert_eq!(ApiStatus::BadRequest.code(), 400);
    assert_eq!(ApiStatus::NotFound.code(), 404);
    assert_eq!(ApiStatus::Conflict.code(), 409);
    assert_eq!(ApiStatus::ServiceUnavailable.code(), 503);
}

#[test]
fn ids_are_numbers_other_than_zero() {
    assert_eq!(env_id(&Some(" 42\n".to_string())), Some(42));
    assert_eq!(env_id(&Some("0".to_string())), None);
    assert_eq!(env_id(&Some("x".to_string())), None);
    assert_eq!(env_id(&None), None);
}

#[test]
fn settings_have_defaults() {
    assert_eq!(bind_address(None), "0.0.0.0:3000");
    assert_eq!(bind_address(Some("[::]:1".to_string())), "[::]:1");
    assert_eq!(static_dir(None), "web/dist");
    assert_eq!(static_dir(Some("d".to_string())), "d");
}

#[test]
fn a_guild_must_be_configured() {
    assert_eq!(configured_guild(Some(3)).expect("guild"), 3);
    assert_eq!(
        parts(configured_guild(None).unwrap_err()),
        (503, "Set GUILD_ID to choose which server this dashboard controls.".to_string())
    );
}

#[test]
fn tracks_go_by_playback_id_or_place() {
    let mut shown = track("a");
    shown.requested_by = Some(UserId::new(9));
    let response = track_response(&shown, 4);
    assert_eq!(response.id, "track-4");
    assert_eq!(response.requested_by.as_deref(), Some("9"));
    shown.playback_id = Some("id".to_string());
    assert_eq!(track_response(&shown, 4).id, "id");
    assert_eq!(track_response(&track("a"), 0).requested_by, None);
}

#[test]
fn the_queue_is_shown() {
    let music = state(&["a", "b", "c"]);
    let call = CallInfo { channel_id: Some(7), paused: Some(true) };
    let response = get_queue(Some(1), Some(2), Some(&music), Some(call));
    assert!(response.configured && response.connected && response.can_add && response.paused);
    assert_eq!(response.guild_id.as_deref(), Some("1"));
    assert_eq!(response.voice_channel_id.as_deref(), Some("7"));
    assert_eq!(response.current.expect("current").id, "track-0");
    assert_eq!(response.queue.len(), 2);
    assert_eq!(response.queue[1].id, "track-2");
    assert_eq!(response.queue[1].title, "c");

    let response = get_queue(Some(1), Some(2), None, None);
    assert!(!response.connected && response.can_add && !response.paused);
    assert_eq!(response.voice_channel_id.as_deref(), Some("2"));
    assert!(response.current.is_none() && response.queue.is_empty());

    let response = get_queue(None, Some(2), Some(&music), Some(call));
    assert!(!response.configured && !response.connected && !response.can_add);
    assert!(response.current.is_none() && response.queue.is_empty());
    assert_eq!(response.voice_channel_id.as_deref(), Some("2"));

    assert!(!get_queue(Some(1), None, None, None).can_add);
}

#[test]
fn snapshots_show_the_call() {
    let snapshot = playback_snapshot(Some(CallInfo { channel_id: None, paused: None }));
    assert!(!snapshot.connected && !snapshot.paused && snapshot.channel_id.is_none());
    let snapshot = playback_snapshot(Some(CallInfo { channel_id: Some(5), paused: Some(false) }));
    assert!(snapshot.connected && !snapshot.paused);
    assert_eq!(snapshot.channel_id.as_deref(), Some("5"));
    assert!(!playback_snapshot(None).connected);
}

#[test]
fn queries_are_checked_before_the_guild() {
    assert_eq!(
        parts(add_track("  ", None).unwrap_err()),
        (400, "Enter a song name or URL.".to_string())
    );
    assert_eq!(
        parts(add_track(&"é".repeat(501), Some(1)).unwrap_err()),
        (400, "The search is too long. Keep it under 500 characters.".to_string())
    );
    assert_eq!(parts(add_track("x", None).unwrap_err()).0, 503);
    assert_eq!(add_track(" x ", Some(1)).expect("request"), ("x".to_string(), 1));
    assert!(add_track(&"é".repeat(500), Some(1)).is_ok());
}

#[test]
fn added_tracks_are_reported() {
    let request = |title: Option<&str>, tracks: Vec<Track>| ResolvedPlayRequest {
        tracks,
        playlist_title: title.map(str::to_string),
    };
    let single = request(None, vec![track("a")]);
    let (status, response) = track_added(&single, true);
    assert_eq!((status, response.message.as_str()), (201, "Now playing a."));
    assert_eq!(track_added(&single, false).1.message, "Added a to the queue.");
    assert_eq!(track_added(&request(None, vec![]), true).1.message, "Now playing Track.");
    let list = request(Some("Mix"), vec![track("a"), track("b")]);
    assert_eq!(track_added(&list, true).1.message, "Added 2 tracks from Mix.");
    let (status, response) = queue_playlist(&list, true);
    assert_eq!(
        (status, response.message.as_str()),
        (201, "Now playing a; added 2 tracks from Mix.")
    );
    assert_eq!(queue_playlist(&list, false).1.message, "Added 2 tracks from Mix.");
    assert_eq!(queue_playlist(&single, false).1.message, "Added 1 tracks from playlist.");
}

#[test]
fn clearing_keeps_what_plays() {
    let mut music = state(&["a", "b", "c"]);
    let mut playback = VecDeque::from(vec![1, 2, 3]);
    let (response, removed) = clear_queue(&mut music, &mut playback);
    assert_eq!(response.message, "Cleared 2 upcoming tracks.");
    assert_eq!(removed, vec![2, 3]);
    assert_eq!(playback, vec![1]);
    assert!(music.current.is_some() && music.queue.is_empty());
    assert_eq!(
        clear_queue(&mut music, &mut playback).0.message,
        "The upcoming queue is already empty."
    );
    assert_eq!(
        clear_queue(&mut state(&["a", "b"]), &mut VecDeque::<u8>::new()).0.message,
        "Cleared 1 upcoming track."
    );
}

#[test]
fn removing_takes_the_track_from_both_queues() {
    let mut music = state(&["a", "b", "c"]);
    let mut playback = VecDeque::from(vec![1, 2, 3]);
    let (response, removed) = remove_track(&mut music, true, &mut playback, 1).expect("removed");
    assert_eq!((response.message.as_str(), removed), ("Removed c.", 3));
    assert_eq!(upcoming(&music), vec!["b"]);
    assert_eq!(playback, vec![1, 2]);
}

#[test]
fn refused_removals_change_nothing() {
    let mut music = state(&["a", "b"]);
    let mut playback = VecDeque::from(vec![1]);
    assert_eq!(
        parts(remove_track(&mut music, true, &mut playback, 1).unwrap_err()),
        (404, "That track is no longer in the queue.".to_string())
    );
    assert_eq!(
        parts(remove_track(&mut music, false, &mut playback, 0).unwrap_err()),
        (409, "The bot is not connected to voice.".to_string())
    );
    assert_eq!(
        parts(remove_track(&mut music, true, &mut playback, 0).unwrap_err()),
        (409, "The playback queue changed. Please try again.".to_string())
    );
    assert_eq!(upcoming(&music), vec!["b"]);
    assert_eq!(playback, vec![1]);
}

#[test]
fn reordering_moves_the_track_in_both_queues() {
    let mut music = state(&["a", "b", "c", "d"]);
    let mut playback = VecDeque::from(vec![1, 2, 3, 4]);
    let response = reorder_queue(&mut music, true, &mut playback, 0, 2).expect("moved");
    assert_eq!(response.message, "Moved b.");
    assert_eq!(upcoming(&music), vec!["c", "d", "b"]);
    assert_eq!(playback, vec![1, 3, 4, 2]);
    let response = reorder_queue(&mut music, false, &mut playback, 1, 1).expect("nothing to do");
    assert_eq!(response.message, "The track is already there.");
}

#[test]
fn refused_moves_change_nothing() {
    let mut music = state(&["a", "b", "c"]);
    let mut playback = VecDeque::from(vec![1]);
    assert_eq!(
        parts(reorder_queue(&mut music, true, &mut playback, 0, 2).unwrap_err()),
        (400, "The queue changed before that track could be moved.".to_string())
    );
    assert_eq!(
        parts(reorder_queue(&mut music, false, &mut playback, 0, 1).unwrap_err()),
        (409, "The bot is not connected to voice.".to_string())
    );
    assert_eq!(
        parts(reorder_queue(&mut music, true, &mut playback, 0, 1).unwrap_err()),
        (409, "The playback queue changed. Please try again.".to_string())
    );
    assert_eq!(upcoming(&music), vec!["b", "c"]);
}

#[test]
fn playback_actions_need_something_that_plays() {
    assert_eq!(
        parts(playback_action(None, "x").unwrap_err()),
        (409, "The bot is not connected to voice.".to_string())
    );
    assert_eq!(
        parts(playback_action(Some(0), "x").unwrap_err()),
        (409, "There is nothing playing.".to_string())
    );
    assert_eq!(
        parts(playback_action(Some(1), "x").unwrap_err()),
        (404, "Unknown playback action.".to_string())
    );
    let actions = [
        ("pause", PlaybackAction::Pause, "Playback paused.", "Could not pause: e"),
        ("resume", PlaybackAction::Resume, "Playback resumed.", "Could not resume: e"),
        ("skip", PlaybackAction::Skip, "Skipped to the next track.", "Could not skip: e"),
    ];
    for (name, action, done, failed) in actions {
        assert_eq!(playback_action(Some(1), name).expect("action"), action);
        assert_eq!(playback_performed(action, None).expect("done").message, done);
        assert_eq!(
            parts(playback_performed(action, Some("e".to_string())).unwrap_err()),
            (409, failed.to_string())
        );
    }
}

#[test]
fn the_current_channel_goes_first() {
    assert_eq!(connected_or_join(true, Some(1)).expect("call"), Connection::Current);
    assert_eq!(connected_or_join(false, Some(1)).expect("call"), Connection::Join(1));
    assert_eq!(
        parts(connected_or_join(false, None).unwrap_err()),
        (
            409,
            "The bot is not in voice. Set VOICE_CHANNEL_ID so the dashboard can connect it."
                .to_string()
        )
    );
    assert_eq!(
        parts(join_failed()),
        (
            409,
            "Could not join the configured voice channel. Check the bot's permissions.".to_string()
        )
    );
}

#[test]
fn playlist_errors_are_answered() {
    let name = || "focus".to_string();
    let answer = |error: PlaylistError| parts(playlist_api_error(&error));
    assert_eq!(
        answer(PlaylistError::NotFound { name: name() }),
        (404, "The predefined playlist 'focus' was not found.".to_string())
    );
    assert_eq!(
        answer(PlaylistError::Empty { name: name() }),
        (400, "The predefined playlist 'focus' has no tracks.".to_string())
    );
    assert_eq!(
        answer(PlaylistError::TooManyTracks { name: name(), maximum: 100 }),
        (400, "The predefined playlist 'focus' has more than 100 tracks.".to_string())
    );
    assert_eq!(
        answer(PlaylistError::LineTooLong { name: name(), line_number: 2, maximum: 500 }),
        (400, "Playlist 'focus' line 2 is longer than 500 characters.".to_string())
    );
    let hidden = (
        503,
        "Predefined playlists are unavailable. Check the configured folder.".to_string(),
    );
    assert_eq!(
        answer(PlaylistError::Directory { path: name(), source: name() }),
        hidden
    );
    assert_eq!(answer(PlaylistError::Read { name: name(), source: name() }), hidden);
}

#[test]
fn moves_beyond_the_playback_queue_are_not_taken() {
    let music = state(&["playing", "a", "b", "c"]);
    let shorter: VecDeque<u8> = VecDeque::from([0, 1, 2]);

    assert!(can_reorder(&music, true, &shorter, 0, 1));
    assert!(!can_reorder(&music, true, &shorter, 0, 2));
    assert!(can_reorder(&music, false, &shorter, 0, 2));
    assert!(can_reorder(&music, true, &shorter, 2, 0));
}
