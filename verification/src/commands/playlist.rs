//! `/playlist`: queueing every entry of a configured text playlist.

use vstd::prelude::*;
use vstd::string::*;

use crate::commands::play;
use crate::commands::play::{CommandOption, PlayTarget, Reply};
use crate::playlists::{ErrorView, PlaylistError};
use crate::text;

verus! {

/// `/playlist <name>`: which playlist to load and where to play it, or the reply to send instead.
pub fn run(option: CommandOption, guild_id: Option<u64>, channel_id: Option<u64>) -> (target: Result<
    PlayTarget,
    Reply,
>)
    ensures
        play::target_outcome(target) == play::play_target(
            option,
            guild_id,
            channel_id,
            "❌ Expected a playlist name."@,
            "❌ Please provide a playlist name."@,
        ),
        match (option, guild_id, channel_id) {
            (CommandOption::NotText, _, _) => target matches Err(Reply::Ephemeral(text)) && text@
                == "❌ Expected a playlist name."@,
            (CommandOption::Missing, _, _) => target matches Err(Reply::Ephemeral(text)) && text@
                == "❌ Please provide a playlist name."@,
            (CommandOption::Text(_), None, _) => target matches Err(Reply::Ephemeral(text)) && text@
                == "❌ This command can only be used in a server."@,
            (CommandOption::Text(_), Some(_), None) => target matches Err(Reply::Ephemeral(text))
                && text@ == "❌ You need to be in a voice channel first."@,
            (CommandOption::Text(query), Some(guild_id), Some(channel_id)) => target matches Ok(
                target,
            ) && target.query@ == query@ && target.guild_id == guild_id && target.channel_id
                == channel_id,
        },
{
    play::start_playing(
        option,
        guild_id,
        channel_id,
        "❌ Expected a playlist name.",
        "❌ Please provide a playlist name.",
    )
}

/// What the user is told of a playlist error. Where the server's files are is not said.
pub open spec fn user_message(error: ErrorView) -> Seq<char> {
    match error {
        ErrorView::NotFound { name } => "❌ The predefined playlist `"@ + name
            + "` was not found."@,
        ErrorView::Empty { name } => "❌ The predefined playlist `"@ + name + "` has no tracks."@,
        ErrorView::TooManyTracks { name, maximum } => "❌ The predefined playlist `"@ + name
            + "` has more than "@ + text::decimal(maximum) + " tracks."@,
        ErrorView::LineTooLong { name, line_number, maximum } => "❌ Playlist `"@ + name
            + "` line "@ + text::decimal(line_number) + " is longer than "@ + text::decimal(maximum)
            + " characters."@,
        ErrorView::Directory { .. } | ErrorView::Read { .. } =>
            "❌ Predefined playlists are unavailable. Check the configured playlist folder."@,
    }
}

/// What the user is told of a playlist error.
pub fn playlist_error_message(error: &PlaylistError) -> (message: String)
    ensures
        message@ == user_message(error@),
        match *error {
            PlaylistError::NotFound { name } => message@ == "❌ The predefined playlist `"@ + name@
                + "` was not found."@,
            PlaylistError::Empty { name } => message@ == "❌ The predefined playlist `"@ + name@
                + "` has no tracks."@,
            PlaylistError::TooManyTracks { name, maximum } => message@
                == "❌ The predefined playlist `"@ + name@ + "` has more than "@ + text::decimal(
                maximum as nat,
            ) + " tracks."@,
            PlaylistError::LineTooLong { name, line_number, maximum } => message@
                == "❌ Playlist `"@ + name@ + "` line "@ + text::decimal(line_number as nat)
                + " is longer than "@ + text::decimal(maximum as nat) + " characters."@,
            _ => message@
                == "❌ Predefined playlists are unavailable. Check the configured playlist folder."@,
        },
{
    match error {
        PlaylistError::NotFound { name } => text::concat3(
            "❌ The predefined playlist `",
            name.as_str(),
            "` was not found.",
        ),
        PlaylistError::Empty { name } => text::concat3(
            "❌ The predefined playlist `",
            name.as_str(),
            "` has no tracks.",
        ),
        PlaylistError::TooManyTracks { name, maximum } => text::concat5(
            "❌ The predefined playlist `",
            name.as_str(),
            "` has more than ",
            text::decimal_text(*maximum as u64).as_str(),
            " tracks.",
        ),
        PlaylistError::LineTooLong { name, line_number, maximum } => {
            let mut message = text::concat5(
                "❌ Playlist `",
                name.as_str(),
                "` line ",
                text::decimal_text(*line_number as u64).as_str(),
                " is longer than ",
            );
            message.append(text::decimal_text(*maximum as u64).as_str());
            message.append(" characters.");
            message
        },
        PlaylistError::Directory { .. } | PlaylistError::Read { .. } =>
        "❌ Predefined playlists are unavailable. Check the configured playlist folder.".to_owned(),
    }
}

/// Errors of the server's file system all read the same: neither a path nor the reason shows.
pub proof fn file_errors_are_hidden(first: ErrorView, second: ErrorView)
    requires
        first is Directory || first is Read,
        second is Directory || second is Read,
    ensures
        user_message(first) == user_message(second),
{
}

}
