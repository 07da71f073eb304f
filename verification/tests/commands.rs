use std::collections::VecDeque;

use little_bobby_tabots::bot::{
    command_specs, interaction_create, ready, registration, CommandKind, Registration,
};
use little_bobby_tabots::commands::guild_state::{GuildMusicState, Track, UserId};
use little_bobby_tabots::commands::play::{
    after_join, after_resolution, decide_track_end, enqueue_resolved_request, finish_track, is_url,
    plan_lookup, reply_for_request, resolve_request, resolve_track, run, should_insert_preplay,
    source_url, track_ended, CommandOption, Lookup, LookupPlan, PlaylistResolution, Reply,
    ResolutionStep, ResolvedPlayRequest, TrackEnd, TrackMetadata,
};
use little_bobby_tabots::commands::playlist::{self, playlist_error_message};
use little_bobby_tabots::commands::preplay::{
    move_matching_to_next, preplay_url, transition_should_insert, PrePlayConfig,
};
use little_bobby_tabots::commands::queue::{
    self, build_queue_description, requester_label, QueueReply,
};
use little_bobby_tabots::commands::youtube_playlist::{
    is_youtube_playlist_url, resolve, PlaylistVideo, YoutubePlaylist,
};
use little_bobby_tabots::data::GuildMap;
use little_bobby_tabots::playback::{drop_upcoming, move_upcoming, remove_upcoming};
use little_bobby_tabots::playlists::{parse_playlist, PlaylistError};

fn track(title: &str) -> Track {
    Track {
        title: title.to_string(),
        url: format!("https://example.com/{title}"),
        requested_by: Some(UserId::new(1)),
        playback_id: None,
    }
}

fn found(title: Option<&str>, url: Option<&str>) -> Option<TrackMetadata> {
    Some(TrackMetadata {
        title: title.map(str::to_string),
        source_url: url.map(str::to_string),
    })
}

#[test]
fn hides_server_paths_for_directory_errors() {
    let error = PlaylistError::Directory {
        path: "private/playlists".into(),
        source: std::io::Error::new(std::io::ErrorKind::NotFound, "missing").to_string(),
    };

    assert!(!playlist_error_message(&error).contains("private/playlists"));
}

#[test]
fn queue_description_reports_active_preplay_before_next_music() {
    let mut state = GuildMusicState::new();
    state.current = Some(track("ended"));
    state.enqueue(track("next"));
    assert!(state.begin_preplay());

    let description = build_queue_description(&state);

    assert!(description.contains("Pre-play Audio"));
    assert!(description.contains("[next](https://example.com/next)"));
    assert!(!description.contains("Now Playing"));
    assert!(!description.contains("[ended](https://example.com/ended)"));
}

#[test]
fn playlist_errors_have_their_messages() {
    let name = || "focus".to_string();
    assert_eq!(
        playlist_error_message(&PlaylistError::NotFound { name: name() }),
        "❌ The predefined playlist `focus` was not found."
    );
    assert_eq!(
        playlist_error_message(&PlaylistError::Empty { name: name() }),
        "❌ The predefined playlist `focus` has no tracks."
    );
    assert_eq!(
        playlist_error_message(&PlaylistError::TooManyTracks { name: name(), maximum: 100 }),
        "❌ The predefined playlist `focus` has more than 100 tracks."
    );
    assert_eq!(
        playlist_error_message(&PlaylistError::LineTooLong {
            name: name(),
            line_number: 3,
            maximum: 500
        }),
        "❌ Playlist `focus` line 3 is longer than 500 characters."
    );
    assert_eq!(
        playlist_error_message(&PlaylistError::Read { name: name(), source: "x".to_string() }),
        "❌ Predefined playlists are unavailable. Check the configured playlist folder."
    );
}

#[test]
fn queue_description_lists_current_and_upcoming() {
    let mut state = GuildMusicState::new();
    state.current = Some(track("one"));
    assert_eq!(
        build_queue_description(&state),
        "**🎵 Now Playing**\n[one](https://example.com/one)\nRequested by <@1>\n\n*No more tracks queued.*"
    );
    let mut other = track("two");
    other.requested_by = None;
    state.enqueue(other);
    state.enqueue(track("three"));
    assert_eq!(
        build_queue_description(&state),
        "**🎵 Now Playing**\n[one](https://example.com/one)\nRequested by <@1>\n\n**Up Next**\n\
         `1`. [two](https://example.com/two) — Dashboard\n\
         `2`. [three](https://example.com/three) — <@1>\n"
    );
}

#[test]
fn long_queue_description_stops_early() {
    let mut state = GuildMusicState::new();
    for _ in 0..200 {
        state.enqueue(track("a song with a name of some length"));
    }
    let description = build_queue_description(&state);
    assert!(description.ends_with("\n*…and more*"));
    assert!(description.len() > 3800);
    assert!(description.chars().count() <= 4096);
    let shown = description.trim_end_matches("*…and more*");
    let lines: Vec<&str> = shown.lines().collect();
    let without_last: usize = lines[..lines.len() - 1].iter().map(|line| line.len() + 1).sum();
    assert!(shown.len() > 3800);
    assert!(without_last <= 3800);
}

#[test]
fn queue_replies() {
    assert!(matches!(
        queue::run(false, None),
        QueueReply::Text { content, ephemeral: true }
            if content == "❌ This command can only be used in a server."
    ));
    let mut state = GuildMusicState::new();
    for reply in [queue::run(true, None), queue::run(true, Some(&state))] {
        assert!(matches!(
            reply,
            QueueReply::Text { content, ephemeral: false } if content == "📭 The queue is empty."
        ));
    }
    state.enqueue(track("one"));
    match queue::run(true, Some(&state)) {
        QueueReply::Embed(embed) => {
            assert_eq!(embed.title, "📋 Queue");
            assert_eq!(embed.footer, "1 track(s) in queue");
            assert_eq!(embed.colour, 0x5865F2);
            assert_eq!(embed.description, build_queue_description(&state));
        }
        other => panic!("{other:?}"),
    }
    assert_eq!(requester_label(None), "Dashboard");
}

#[test]
fn commands_ask_for_option_then_server_then_channel() {
    let text = || CommandOption::Text("song".to_string());
    let said = |reply: Reply| match reply {
        Reply::Ephemeral(text) => text,
        other => panic!("{other:?}"),
    };
    assert_eq!(
        said(run(CommandOption::NotText, None, None).unwrap_err()),
        "❌ Expected a text query."
    );
    assert_eq!(
        said(run(CommandOption::Missing, Some(1), Some(2)).unwrap_err()),
        "❌ Please provide a song name or URL."
    );
    assert_eq!(
        said(run(text(), None, Some(2)).unwrap_err()),
        "❌ This command can only be used in a server."
    );
    assert_eq!(
        said(run(text(), Some(1), None).unwrap_err()),
        "❌ You need to be in a voice channel first."
    );
    let target = run(text(), Some(1), Some(2)).expect("target");
    assert_eq!((target.query.as_str(), target.guild_id, target.channel_id), ("song", 1, 2));
    assert_eq!(
        said(playlist::run(CommandOption::NotText, Some(1), Some(2)).unwrap_err()),
        "❌ Expected a playlist name."
    );
    assert_eq!(
        said(playlist::run(CommandOption::Missing, Some(1), Some(2)).unwrap_err()),
        "❌ Please provide a playlist name."
    );
    assert!(playlist::run(text(), Some(1), Some(2)).is_ok());
}

#[test]
fn failures_on_the_way_are_replied() {
    assert!(matches!(
        after_resolution(Err("no".to_string())),
        Err(Reply::Edit(text)) if text == "no"
    ));
    let request = ResolvedPlayRequest { tracks: vec![track("a")], playlist_title: None };
    assert!(after_resolution(Ok(request)).is_ok());
    assert!(after_join(true).is_ok());
    assert!(matches!(
        after_join(false),
        Err(Reply::Edit(text))
            if text == "❌ Failed to join your voice channel. Do I have permission to connect?"
    ));
}

#[test]
fn queries_and_urls_are_told_apart() {
    assert!(is_url("http://a"));
    assert!(is_url("https://a"));
    assert!(!is_url("ftp://a"));
    assert!(!is_url("HTTP://a"));
    assert_eq!(source_url("https://a"), "https://a");
    assert_eq!(source_url("a song"), "ytsearch1:a song");
    assert!(matches!(plan_lookup("a"), LookupPlan::Single { source_url } if source_url == "ytsearch1:a"));
    assert!(matches!(
        plan_lookup("https://www.youtube.com/playlist?list=PL1"),
        LookupPlan::Playlist
    ));
}

#[test]
fn playlist_urls_are_explicit() {
    for url in [
        "https://www.youtube.com/playlist?list=PL1",
        "http://youtube.com/playlist?list=PL1",
        "https://music.youtube.com/playlist?si=x&list=PL1",
        "https://m.youtube.com/playlist?list=PL1&index=2",
    ] {
        assert!(is_youtube_playlist_url(url), "{url}");
    }
    for url in [
        "https://www.youtube.com/watch?v=x&list=PL1",
        "https://www.youtube.com/playlist?list=",
        "https://www.youtube.com/playlist?list=&a=b",
        "https://www.youtube.com/playlist?a=b#&list=PL1",
        "https://www.youtube.com/playlist",
        "https://example.com/playlist?list=PL1",
        "youtube.com/playlist?list=PL1",
        "a song",
    ] {
        assert!(!is_youtube_playlist_url(url), "{url}");
    }
}

#[test]
fn tracks_fall_back_to_the_query() {
    let by = Some(UserId::new(5));
    let track = resolve_track("song", found(Some("Title"), Some("https://v")), by).expect("track");
    assert_eq!((track.title.as_str(), track.url.as_str()), ("Title", "https://v"));
    assert_eq!(track.requested_by, by);
    assert_eq!(track.playback_id, None);
    let track = resolve_track("song", found(None, Some("")), None).expect("track");
    assert_eq!((track.title.as_str(), track.url.as_str()), ("song", "ytsearch1:song"));
    let track = resolve_track("https://s", found(None, None), None).expect("track");
    assert_eq!(track.url, "https://s");
    assert_eq!(
        resolve_track("song", None, None).unwrap_err(),
        "❌ Could not find `song`. The link may be private, geo-blocked, or invalid."
    );
}

#[test]
fn requests_resolve_to_tracks_in_order() {
    let url = "https://www.youtube.com/playlist?list=PL1";
    let video = |title: &str| PlaylistVideo { title: title.to_string(), url: format!("u/{title}") };
    let playlist = YoutubePlaylist {
        title: "Mix".to_string(),
        tracks: vec![video("a"), video("b")],
    };
    let request = resolve_request(url, Lookup::Playlist(Some(playlist)), None).expect("request");
    assert_eq!(request.playlist_title.as_deref(), Some("Mix"));
    assert_eq!(request.tracks[0].title, "a");
    assert_eq!(request.tracks[1].url, "u/b");
    assert_eq!(
        resolve_request(url, Lookup::Playlist(None), None).unwrap_err(),
        "❌ Could not load that YouTube playlist. It may be private, unavailable, or empty."
    );
    let request =
        resolve_request("x", Lookup::Single(found(None, None)), None).expect("request");
    assert_eq!(request.tracks.len(), 1);
    assert!(request.playlist_title.is_none());
    assert!(resolve_request("x", Lookup::Single(None), None).is_err());
}

#[test]
fn a_predefined_playlist_is_all_or_nothing() {
    let playlist = parse_playlist("mix", "one\n\nhttps://two").expect("playlist");
    let resolution = PlaylistResolution::new(&playlist, None);
    assert!(matches!(
        resolution.next_step(),
        ResolutionStep::Lookup { query, source_url } if query == "one" && source_url == "ytsearch1:one"
    ));
    let resolution = resolution.record(found(Some("One"), None)).expect("recorded");
    assert!(matches!(
        resolution.next_step(),
        ResolutionStep::Lookup { source_url, .. } if source_url == "https://two"
    ));
    let resolution = resolution.record(found(None, None)).expect("recorded");
    assert!(matches!(resolution.next_step(), ResolutionStep::Finish));
    let request = resolution.finish();
    assert_eq!(request.playlist_title.as_deref(), Some("mix"));
    assert_eq!(request.tracks[0].title, "One");
    assert_eq!(request.tracks[1].title, "https://two");

    let resolution = PlaylistResolution::new(&playlist, None);
    let resolution = resolution.record(found(None, None)).expect("recorded");
    assert_eq!(
        resolution.record(None).unwrap_err(),
        "❌ Could not resolve playlist `mix` line 3. Nothing was queued."
    );
}

#[test]
fn a_predefined_playlist_holds_no_playlists() {
    let playlist = parse_playlist("mix", "https://www.youtube.com/playlist?list=PL1").expect("playlist");
    assert!(matches!(
        PlaylistResolution::new(&playlist, None).next_step(),
        ResolutionStep::Refuse { message } if message
            == "❌ Playlist `mix` line 1 must be a single song or URL, not a YouTube playlist. Nothing was queued."
    ));
}

#[test]
fn queued_tracks_carry_their_playback_ids() {
    let mut state = GuildMusicState::new();
    let request = ResolvedPlayRequest {
        tracks: vec![track("a"), track("b")],
        playlist_title: None,
    };
    enqueue_resolved_request(&mut state, &request, vec!["1".to_string(), "2".to_string()], true);
    assert!(state.is_current_playback("1"));
    assert_eq!(state.queue[0].playback_id.as_deref(), Some("2"));
    assert_eq!(state.queue[0].title, "b");
    assert_eq!(request.tracks[0].playback_id, None);
}

#[test]
fn queued_requests_are_replied() {
    let user = UserId::new(42);
    let embed = |request: &ResolvedPlayRequest, was_idle: bool| match reply_for_request(
        request, was_idle, user,
    ) {
        Reply::EditEmbed(embed) => (embed.title, embed.description, embed.colour, embed.footer),
        other => panic!("{other:?}"),
    };
    let single = ResolvedPlayRequest { tracks: vec![track("a")], playlist_title: None };
    assert_eq!(
        embed(&single, true),
        (
            "🎵 Now Playing".to_string(),
            "**a**\nRequested by <@42>".to_string(),
            0x57F287,
            "Bobby TaBot".to_string()
        )
    );
    assert_eq!(embed(&single, false).0, "➕ Added to Queue");
    assert_eq!(embed(&single, false).2, 0x5865F2);
    let list = ResolvedPlayRequest {
        tracks: vec![track("a"), track("b"), track("c")],
        playlist_title: Some("Mix".to_string()),
    };
    assert_eq!(
        embed(&list, true).1,
        "**a**\nPlaylist: **Mix**\n2 more track(s) queued\nRequested by <@42>"
    );
    assert_eq!(embed(&list, false).0, "➕ Playlist Added to Queue");
    assert_eq!(embed(&list, false).1, "**Mix**\n3 track(s) added\nRequested by <@42>");
}

fn playing() -> GuildMusicState {
    let mut state = GuildMusicState::new();
    let request = ResolvedPlayRequest {
        tracks: vec![track("a"), track("b")],
        playlist_title: None,
    };
    enqueue_resolved_request(&mut state, &request, vec!["1".to_string(), "2".to_string()], true);
    state
}

#[test]
fn ended_tracks_that_are_not_current_are_ignored() {
    let mut state = playing();
    state.enable_preplay("clip".to_string());
    assert!(matches!(decide_track_end(&state, "2", 0), TrackEnd::Ignore));
    assert!(matches!(track_ended(&state, "2"), TrackEnd::Ignore));
}

#[test]
fn ended_track_goes_on_to_the_next() {
    let mut state = playing();
    assert!(matches!(decide_track_end(&state, "1", 0), TrackEnd::Advance));
    finish_track(&mut state, false);
    assert!(state.is_current_playback("2"));
    state.enable_preplay("clip".to_string());
    assert!(matches!(decide_track_end(&state, "2", 0), TrackEnd::Advance));
    finish_track(&mut state, false);
    assert!(state.current.is_none());
}

#[test]
fn ended_track_may_go_on_to_a_clip() {
    let mut state = playing();
    state.enable_preplay("clip".to_string());
    let mut seen = [false; 100];
    for _ in 0..20_000 {
        match track_ended(&state, "1") {
            TrackEnd::ConsiderPreplay { preplay_url, roll } => {
                assert_eq!(preplay_url, "clip");
                seen[roll as usize] = true;
            }
            other => panic!("{other:?}"),
        }
    }
    assert!(seen.iter().all(|roll| *roll));
    finish_track(&mut state, true);
    assert!(state.preplay_active);
    assert!(state.current.is_none());
    assert_eq!(state.queue.len(), 1);
    state.finish_preplay();
    assert!(state.is_current_playback("2"));
    finish_track(&mut state, true);
    assert!(!state.preplay_active);
    assert!(state.current.is_none());
}

#[test]
fn the_chance_decides_on_the_clip() {
    assert!(should_insert_preplay(Some(2), 75, 74));
    assert!(!should_insert_preplay(Some(2), 75, 75));
    assert!(!should_insert_preplay(Some(1), 75, 0));
    assert!(!should_insert_preplay(None, 100, 0));
    for roll in 0..100 {
        assert!(!transition_should_insert(true, true, true, 0, roll));
        assert!(transition_should_insert(true, true, true, 100, roll));
        assert!(!transition_should_insert(false, true, true, 100, roll));
        assert!(!transition_should_insert(true, false, true, 100, roll));
    }
}

#[test]
fn the_chance_is_configured() {
    let chance = |text: Option<&str>| {
        PrePlayConfig::from_env(Some("clip".to_string()), text.map(str::to_string))
            .map(|config| config.chance_percent)
    };
    assert_eq!(chance(None), Ok(75));
    assert_eq!(chance(Some("0")), Ok(0));
    assert_eq!(chance(Some(" 100 ")), Ok(100));
    for text in ["101", "-1", "", "half"] {
        assert_eq!(
            chance(Some(text)),
            Err("PREPLAY_CHANCE_PERCENT must be a whole number from 0 through 100".to_string())
        );
    }
    assert_eq!(PrePlayConfig::default().chance_percent, 75);
    assert!(PrePlayConfig::default().url.is_none());
}

#[test]
fn playback_queue_operations_leave_the_playing_entry() {
    let mut queue: VecDeque<u32> = VecDeque::from(vec![1, 2, 3, 4]);
    queue.push_back(9);
    assert!(move_matching_to_next(&mut queue, |entry| *entry == 9));
    assert_eq!(queue, vec![1, 9, 2, 3, 4]);
    assert!(!move_matching_to_next(&mut queue, |entry| *entry == 1));
    assert_eq!(remove_upcoming(&mut queue, 0), Some(9));
    assert_eq!(remove_upcoming(&mut queue, 3), None);
    assert!(move_upcoming(&mut queue, 0, 2));
    assert_eq!(queue, vec![1, 3, 4, 2]);
    assert!(move_upcoming(&mut queue, 2, 0));
    assert_eq!(queue, vec![1, 2, 3, 4]);
    assert!(!move_upcoming(&mut queue, 3, 3));
    assert_eq!(drop_upcoming(&mut queue), vec![2, 3, 4]);
    assert_eq!(queue, vec![1]);
    let mut empty: VecDeque<u32> = VecDeque::new();
    assert!(drop_upcoming(&mut empty).is_empty());
}

#[test]
fn every_registered_command_is_handled() {
    let specs = command_specs();
    assert_eq!(specs.len(), 11);
    let mut kinds = Vec::new();
    for spec in &specs {
        let kind = interaction_create(&spec.name).expect("handled");
        assert!(!kinds.contains(&kind));
        kinds.push(kind);
    }
    assert_eq!(interaction_create("stop-preplay"), Some(CommandKind::StopPreplay));
    assert_eq!(interaction_create("Play"), None);
    assert_eq!(specs[1].name, "play");
    assert!(specs[1].option.as_ref().expect("option").required);
    let option = specs[9].option.as_ref().expect("option");
    assert_eq!((option.name.as_str(), option.required), ("url", false));
}

#[test]
fn commands_are_registered_for_the_configured_guild() {
    assert_eq!(registration(&Some(" 12 ".to_string())), Registration::Guild(12));
    assert_eq!(registration(&Some("x".to_string())), Registration::Global);
    assert_eq!(registration(&None), Registration::Global);
}

#[test]
fn a_guild_keeps_its_handle() {
    let mut map: GuildMap<String> = GuildMap::new();
    assert_eq!(map.get(1), None);
    assert_eq!(map.get_or_insert(1, "a".to_string()), "a");
    assert_eq!(map.get_or_insert(2, "b".to_string()), "b");
    assert_eq!(map.get_or_insert(1, "c".to_string()), "a");
    assert_eq!(map.get(1), Some("a".to_string()));
    assert_eq!(GuildMap::<String>::default().get(1), None);
}

#[test]
fn preplay_names_a_clip_or_uses_the_configured_one() {
    let config = PrePlayConfig::from_env(Some("configured".to_string()), None)
        .expect("configuration should be accepted");

    assert_eq!(
        preplay_url(Some("named".to_string()), &config).as_deref(),
        Some("named")
    );
    assert_eq!(preplay_url(None, &config).as_deref(), Some("configured"));
    assert_eq!(preplay_url(None, &PrePlayConfig::default()), None);
}

#[test]
fn a_configured_guild_empties_the_global_commands() {
    let sets = ready(&Some(" 42 ".to_string()));
    assert_eq!(sets.len(), 2);
    assert_eq!(sets[0].scope, Registration::Guild(42));
    assert_eq!(sets[0].commands.len(), 11);
    assert_eq!(sets[1].scope, Registration::Global);
    assert!(sets[1].commands.is_empty());

    for value in [None, Some("not an id".to_string())] {
        let sets = ready(&value);
        assert_eq!(sets.len(), 1);
        assert_eq!(sets[0].scope, Registration::Global);
        assert_eq!(sets[0].commands[10].name, "stop-preplay");
    }
}

#[test]
fn printed_playlists_keep_their_videos_in_order() {
    let output = "u1\tMix\tOne\nwarning without fields\nu2\tMix\tTwo\tand a half\nu3\tMix\n";
    let playlist = resolve(output).expect("playlist should have videos");

    assert_eq!(playlist.title, "Mix");
    let videos: Vec<(&str, &str)> = playlist
        .tracks
        .iter()
        .map(|video| (video.url.as_str(), video.title.as_str()))
        .collect();
    assert_eq!(videos, vec![("u1", "One"), ("u2", "Two\tand a half")]);

    assert!(resolve("").is_none());
    assert!(resolve("nothing here\n").is_none());
}
