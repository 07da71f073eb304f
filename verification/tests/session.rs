use little_bobby_tabots::commands::guild_state::{Track, UserId};
use little_bobby_tabots::commands::play::{CommandOption, Reply, ResolvedPlayRequest};
use little_bobby_tabots::playlists::{parse_playlist, PlaylistError};
use little_bobby_tabots::session::{DashboardStep, Outcome, PlayStep};

fn request(title: &str) -> ResolvedPlayRequest {
    ResolvedPlayRequest {
        tracks: vec![Track {
            title: title.to_string(),
            url: "https://example.com".to_string(),
            requested_by: None,
            playback_id: None,
        }],
        playlist_title: None,
    }
}

fn named() -> CommandOption {
    CommandOption::Text("song".to_string())
}

#[test]
fn play_resolves_then_joins_then_queues_then_replies() {
    let user = UserId::new(7);
    let step = PlayStep::play(named(), Some(1), Some(2));
    assert!(matches!(&step, PlayStep::Resolve { target } if target.query == "song"));
    let step = step.next(Outcome::Resolved(Ok(request("One"))), user);
    assert!(matches!(&step, PlayStep::Join { target, .. } if target.channel_id == 2));
    let step = step.next(Outcome::Joined(true), user);
    assert!(matches!(&step, PlayStep::Enqueue { target, .. } if target.guild_id == 1));
    let step = step.next(Outcome::Enqueued { was_idle: true }, user);
    assert!(matches!(
        &step,
        PlayStep::Reply(Reply::EditEmbed(embed))
            if embed.description == "**One**\nRequested by <@7>"
    ));
}

#[test]
fn play_replies_at_once_outside_of_voice() {
    assert!(matches!(
        PlayStep::play(named(), Some(1), None),
        PlayStep::Reply(Reply::Ephemeral(text))
            if text == "❌ You need to be in a voice channel first."
    ));
    assert!(matches!(
        PlayStep::playlist(CommandOption::Missing, None, None),
        PlayStep::Reply(Reply::Ephemeral(text)) if text == "❌ Please provide a playlist name."
    ));
}

#[test]
fn a_failed_resolution_is_only_replied() {
    let user = UserId::new(7);
    let step = PlayStep::play(named(), Some(1), Some(2))
        .next(Outcome::Resolved(Err("no".to_string())), user);
    assert!(matches!(&step, PlayStep::Reply(Reply::Edit(text)) if text == "no"));
    let step = step
        .next(Outcome::Joined(true), user)
        .next(Outcome::Resolved(Ok(request("One"))), user);
    assert!(matches!(&step, PlayStep::Reply(Reply::Edit(text)) if text == "no"));
}

#[test]
fn playlist_loads_before_it_resolves() {
    let user = UserId::new(7);
    let first = || PlayStep::playlist(named(), Some(1), Some(2));

    let step = first().next(Outcome::Resolved(Ok(request("One"))), user);
    assert!(matches!(step, PlayStep::Load { .. }));

    let step = first().next(Outcome::Loaded(parse_playlist("song", "a\nb")), user);
    assert!(matches!(
        &step,
        PlayStep::ResolvePlaylist { playlist, .. } if playlist.entries.len() == 2
    ));
    let step = step
        .next(Outcome::Resolved(Ok(request("One"))), user)
        .next(Outcome::Joined(false), user);
    assert!(matches!(
        &step,
        PlayStep::Reply(Reply::Edit(text))
            if text == "❌ Failed to join your voice channel. Do I have permission to connect?"
    ));

    let missing = PlaylistError::NotFound { name: "song".to_string() };
    let step = first().next(Outcome::Loaded(Err(missing)), user);
    assert!(matches!(
        &step,
        PlayStep::Reply(Reply::Edit(text))
            if text == "❌ The predefined playlist `song` was not found."
    ));
}

#[test]
fn dashboard_resolves_then_connects_then_queues_then_answers() {
    let step = DashboardStep::track(" song ", Some(1), Some(9));
    assert!(matches!(&step, DashboardStep::Resolve { query, .. } if query == "song"));
    let step = step.next(Outcome::Resolved(Ok(request("One"))));
    assert!(matches!(step, DashboardStep::Connect { .. }));
    let step = step.next(Outcome::Connected(false));
    assert!(matches!(step, DashboardStep::Join { channel_id: 9, .. }));
    let step = step.next(Outcome::Joined(true));
    let step = step.next(Outcome::Enqueued { was_idle: false });
    assert!(matches!(
        &step,
        DashboardStep::Answer { status: 201, message } if message == "Added One to the queue."
    ));
}

#[test]
fn dashboard_failures_come_in_order() {
    let fails = |step: DashboardStep| match step {
        DashboardStep::Fail(error) => (error.status.code(), error.message),
        _ => panic!("the request should fail"),
    };

    assert_eq!(fails(DashboardStep::track("  ", None, None)).0, 400);
    assert_eq!(fails(DashboardStep::track("song", None, None)).0, 503);
    assert_eq!(fails(DashboardStep::playlist("mix".to_string(), None, None)).0, 503);

    let first = || DashboardStep::playlist("mix".to_string(), Some(1), None);
    let missing = PlaylistError::Empty { name: "mix".to_string() };
    assert_eq!(
        fails(first().next(Outcome::Loaded(Err(missing)))),
        (400, "The predefined playlist 'mix' has no tracks.".to_string())
    );

    let loaded = || first().next(Outcome::Loaded(parse_playlist("mix", "a")));
    assert_eq!(
        fails(loaded().next(Outcome::Resolved(Err("no".to_string())))),
        (400, "no".to_string())
    );
    let resolved = loaded().next(Outcome::Resolved(Ok(request("One"))));
    assert_eq!(fails(resolved.next(Outcome::Connected(false))).0, 409);

    let joining = DashboardStep::track("song", Some(1), Some(9))
        .next(Outcome::Resolved(Ok(request("One"))))
        .next(Outcome::Connected(false));
    assert_eq!(
        fails(joining.next(Outcome::Joined(false))).1,
        "Could not join the configured voice channel. Check the bot's permissions."
    );
}

#[test]
fn dashboard_playlists_say_what_plays() {
    let step = DashboardStep::playlist("mix".to_string(), Some(1), None)
        .next(Outcome::Loaded(parse_playlist("mix", "a")))
        .next(Outcome::Resolved(Ok(ResolvedPlayRequest {
            playlist_title: Some("mix".to_string()),
            ..request("One")
        })))
        .next(Outcome::Connected(true))
        .next(Outcome::Enqueued { was_idle: true });
    assert!(matches!(
        &step,
        DashboardStep::Answer { message, .. }
            if message == "Now playing One; added 1 tracks from mix."
    ));
}

#[test]
fn commands_ask_for_their_user_and_the_dashboard_for_nobody() {
    let user = UserId::new(7);
    assert_eq!(PlayStep::play(named(), Some(1), Some(2)).requested_by(user), Some(user));
    assert_eq!(PlayStep::playlist(named(), Some(1), Some(2)).requested_by(user), Some(user));
    assert_eq!(DashboardStep::track("song", Some(1), None).requested_by(), None);
    assert_eq!(DashboardStep::playlist("mix".to_string(), Some(1), None).requested_by(), None);
}
