//! The dashboard: what its requests may do, and what they are answered.

use std::collections::VecDeque;
use vstd::prelude::*;
use vstd::string::*;

use crate::commands::guild_state;
use crate::commands::guild_state::{GuildMusicState, Music, Track};
use crate::commands::play::{RequestView, ResolvedPlayRequest};
use crate::playback;
use crate::playlists::{ErrorView, PlaylistError};
use crate::text;

verus! {

/// Maximum size of a search query or URL that the dashboard sends.
pub const MAX_QUERY_LENGTH: usize = 500;

/// The HTTP status of a request that added tracks.
pub const CREATED: u16 = 201;

/// Why a request failed.
#[derive(Clone, Copy, Debug, PartialEq, Eq, Structural)]
pub enum ApiStatus {
    BadRequest,
    NotFound,
    Conflict,
    ServiceUnavailable,
}

impl ApiStatus {
    /// The HTTP status code.
    pub open spec fn spec_code(self) -> u16 {
        match self {
            ApiStatus::BadRequest => 400,
            ApiStatus::NotFound => 404,
            ApiStatus::Conflict => 409,
            ApiStatus::ServiceUnavailable => 503,
        }
    }

    /// The HTTP status code.
    pub fn code(self) -> (code: u16)
        ensures
            code == self.spec_code(),
            self is BadRequest ==> code == 400,
            self is NotFound ==> code == 404,
            self is Conflict ==> code == 409,
            self is ServiceUnavailable ==> code == 503,
    {
        match self {
            ApiStatus::BadRequest => 400,
            ApiStatus::NotFound => 404,
            ApiStatus::Conflict => 409,
            ApiStatus::ServiceUnavailable => 503,
        }
    }
}

/// The answer to a request that failed.
#[derive(Debug)]
pub struct ApiError {
    pub status: ApiStatus,
    pub message: String,
}

/// The text of an answer to a request that failed.
#[verifier::ext_equal]
pub struct ApiErrorView {
    pub status: ApiStatus,
    pub message: Seq<char>,
}

impl View for ApiError {
    type V = ApiErrorView;

    open spec fn view(&self) -> ApiErrorView {
        ApiErrorView { status: self.status, message: self.message@ }
    }
}

impl ApiError {
    pub fn bad_request(message: String) -> (error: Self)
        ensures
            error == (ApiError { status: ApiStatus::BadRequest, message }),
    {
        ApiError { status: ApiStatus::BadRequest, message }
    }

    pub fn not_found(message: String) -> (error: Self)
        ensures
            error == (ApiError { status: ApiStatus::NotFound, message }),
    {
        ApiError { status: ApiStatus::NotFound, message }
    }

    pub fn conflict(message: String) -> (error: Self)
        ensures
            error == (ApiError { status: ApiStatus::Conflict, message }),
    {
        ApiError { status: ApiStatus::Conflict, message }
    }

    pub fn unavailable(message: String) -> (error: Self)
        ensures
            error == (ApiError { status: ApiStatus::ServiceUnavailable, message }),
    {
        ApiError { status: ApiStatus::ServiceUnavailable, message }
    }
}

/// The answer to a request that changed something.
#[derive(Debug)]
pub struct MutationResponse {
    pub message: String,
}

/// A failure with this status and text.
pub open spec fn failure(status: ApiStatus, message: Seq<char>) -> ApiErrorView {
    ApiErrorView { status, message }
}

/// The text of an answer.
pub open spec fn answer(result: Result<MutationResponse, ApiError>) -> Result<
    Seq<char>,
    ApiErrorView,
> {
    match result {
        Ok(response) => Ok(response.message@),
        Err(error) => Err(error@),
    }
}

/// A track, as the dashboard shows it.
#[derive(Debug)]
pub struct TrackResponse {
    pub id: String,
    pub title: String,
    pub url: String,
    pub requested_by: Option<String>,
}

/// The text of a track, as the dashboard shows it.
#[verifier::ext_equal]
pub struct TrackResponseView {
    pub id: Seq<char>,
    pub title: Seq<char>,
    pub url: Seq<char>,
    pub requested_by: Option<Seq<char>>,
}

impl View for TrackResponse {
    type V = TrackResponseView;

    open spec fn view(&self) -> TrackResponseView {
        TrackResponseView {
            id: self.id@,
            title: self.title@,
            url: self.url@,
            requested_by: guild_state::opt_text(self.requested_by),
        }
    }
}

/// How the dashboard shows a track. A track without a playback id goes by its place.
pub open spec fn shown_track(track: Track, fallback_index: nat) -> TrackResponseView {
    TrackResponseView {
        id: match track.playback_id {
            Some(id) => id@,
            None => "track-"@ + text::decimal(fallback_index),
        },
        title: track.title@,
        url: track.url@,
        requested_by: match track.requested_by {
            Some(user) => Some(text::decimal(user@ as nat)),
            None => None,
        },
    }
}

/// A track, as the dashboard shows it.
pub fn track_response(track: &Track, fallback_index: usize) -> (response: TrackResponse)
    ensures
        response@ == shown_track(*track, fallback_index as nat),
        response.title@ == track.title@,
        response.url@ == track.url@,
        track.playback_id matches Some(id) ==> response.id@ == id@,
        track.playback_id is None ==> response.id@ == "track-"@ + text::decimal(
            fallback_index as nat,
        ),
        track.requested_by matches Some(user) ==> (response.requested_by matches Some(by) && by@
            == text::decimal(user@ as nat)),
        track.requested_by is None ==> response.requested_by is None,
{
    let id = match &track.playback_id {
        Some(id) => id.clone(),
        None => {
            let mut id = "track-".to_owned();
            id.append(text::decimal_text(fallback_index as u64).as_str());
            id
        },
    };
    TrackResponse {
        id,
        title: track.title.clone(),
        url: track.url.clone(),
        requested_by: match track.requested_by {
            Some(user) => Some(text::decimal_text(user.get())),
            None => None,
        },
    }
}

/// A Discord id that the environment gives: a number other than zero.
pub open spec fn discord_id(value: Option<Seq<char>>) -> Option<u64> {
    match value {
        Some(value) => match text::parsed_u64(text::trimmed(value)) {
            Some(id) if id > 0 => Some(id),
            _ => None,
        },
        None => None,
    }
}

/// The Discord id in an environment variable, by its value where it is set.
pub fn env_id(value: &Option<String>) -> (id: Option<u64>)
    ensures
        id == discord_id(guild_state::opt_text(*value)),
        id == match value {
            Some(value) => match text::parsed_u64(text::trimmed(value@)) {
                Some(id) => if id == 0 {
                    None
                } else {
                    Some(id)
                },
                None => None,
            },
            None => None,
        },
{
    match value {
        Some(value) => match text::parse_u64(text::trim(value.as_str())) {
            Some(id) => if id > 0 {
                Some(id)
            } else {
                None
            },
            None => None,
        },
        None => None,
    }
}

/// The address that the dashboard listens on, by the value of `WEB_BIND` where it is set.
pub fn bind_address(web_bind: Option<String>) -> (address: String)
    ensures
        address@ == match web_bind {
            Some(address) => address@,
            None => "0.0.0.0:3000"@,
        },
{
    match web_bind {
        Some(address) => address,
        None => "0.0.0.0:3000".to_owned(),
    }
}

/// The directory of the dashboard's files, by the value of `DASHBOARD_DIR` where it is set.
pub fn static_dir(dashboard_dir: Option<String>) -> (dir: String)
    ensures
        dir@ == match dashboard_dir {
            Some(dir) => dir@,
            None => "web/dist"@,
        },
{
    match dashboard_dir {
        Some(dir) => dir,
        None => "web/dist".to_owned(),
    }
}

/// The answer where no guild is configured.
pub open spec fn not_configured() -> ApiErrorView {
    failure(
        ApiStatus::ServiceUnavailable,
        "Set GUILD_ID to choose which server this dashboard controls."@,
    )
}

/// The guild that the dashboard controls, or the answer where none is configured.
pub fn configured_guild(guild_id: Option<u64>) -> (guild: Result<u64, ApiError>)
    ensures
        match guild_id {
            Some(id) => guild == Ok::<u64, ApiError>(id),
            None => guild matches Err(error) && error@ == not_configured(),
        },
        guild matches Err(error) ==> error.status == ApiStatus::ServiceUnavailable && error.message@
            == "Set GUILD_ID to choose which server this dashboard controls."@,
{
    match guild_id {
        Some(id) => Ok(id),
        None => Err(
            ApiError::unavailable(
                "Set GUILD_ID to choose which server this dashboard controls.".to_owned(),
            ),
        ),
    }
}

/// What the voice driver says of a guild's call.
#[derive(Clone, Copy, Debug, PartialEq, Eq, Structural)]
pub struct CallInfo {
    /// The channel that the bot is in.
    pub channel_id: Option<u64>,
    /// Whether the current track is paused, if there is a current track and that is known.
    pub paused: Option<bool>,
}

/// What the dashboard shows of a guild's call.
#[derive(Debug)]
pub struct PlaybackSnapshot {
    pub connected: bool,
    pub paused: bool,
    pub channel_id: Option<String>,
}

/// The text of what the dashboard shows of a guild's call.
#[verifier::ext_equal]
pub struct SnapshotView {
    pub connected: bool,
    pub paused: bool,
    pub channel_id: Option<Seq<char>>,
}

impl View for PlaybackSnapshot {
    type V = SnapshotView;

    open spec fn view(&self) -> SnapshotView {
        SnapshotView {
            connected: self.connected,
            paused: self.paused,
            channel_id: guild_state::opt_text(self.channel_id),
        }
    }
}

/// A Discord id in decimal digits, where there is one.
pub open spec fn id_text(id: Option<u64>) -> Option<Seq<char>> {
    match id {
        Some(id) => Some(text::decimal(id as nat)),
        None => None,
    }
}

fn id_string(id: Option<u64>) -> (s: Option<String>)
    ensures
        guild_state::opt_text(s) == id_text(id),
{
    match id {
        Some(id) => Some(text::decimal_text(id)),
        None => None,
    }
}

/// What is shown of a call, or of there being none.
pub open spec fn snapshot_of(call: Option<CallInfo>) -> SnapshotView {
    match call {
        Some(call) => SnapshotView {
            connected: call.channel_id is Some,
            paused: call.paused == Some(true),
            channel_id: id_text(call.channel_id),
        },
        None => SnapshotView { connected: false, paused: false, channel_id: None },
    }
}

/// What the dashboard shows of a guild's call.
pub fn playback_snapshot(call: Option<CallInfo>) -> (snapshot: PlaybackSnapshot)
    ensures
        snapshot@ == snapshot_of(call),
        snapshot.connected == (call matches Some(call) && call.channel_id is Some),
        snapshot.paused == (call matches Some(call) && call.paused == Some(true)),
        snapshot.channel_id is Some == snapshot.connected,
        snapshot.channel_id matches Some(id) ==> id@ == text::decimal(
            call->Some_0.channel_id->Some_0 as nat,
        ),
{
    match call {
        Some(call) => PlaybackSnapshot {
            connected: call.channel_id.is_some(),
            paused: match call.paused {
                Some(paused) => paused,
                None => false,
            },
            channel_id: id_string(call.channel_id),
        },
        None => PlaybackSnapshot { connected: false, paused: false, channel_id: None },
    }
}

/// What the dashboard shows of the queue.
#[derive(Debug)]
pub struct QueueResponse {
    pub configured: bool,
    pub connected: bool,
    pub can_add: bool,
    pub paused: bool,
    pub guild_id: Option<String>,
    pub voice_channel_id: Option<String>,
    pub current: Option<TrackResponse>,
    pub queue: Vec<TrackResponse>,
}

/// The text of what the dashboard shows of the queue.
#[verifier::ext_equal]
pub struct QueueResponseView {
    pub configured: bool,
    pub connected: bool,
    pub can_add: bool,
    pub paused: bool,
    pub guild_id: Option<Seq<char>>,
    pub voice_channel_id: Option<Seq<char>>,
    pub current: Option<TrackResponseView>,
    pub queue: Seq<TrackResponseView>,
}

impl View for QueueResponse {
    type V = QueueResponseView;

    open spec fn view(&self) -> QueueResponseView {
        QueueResponseView {
            configured: self.configured,
            connected: self.connected,
            can_add: self.can_add,
            paused: self.paused,
            guild_id: guild_state::opt_text(self.guild_id),
            voice_channel_id: guild_state::opt_text(self.voice_channel_id),
            current: match self.current {
                Some(track) => Some(track@),
                None => None,
            },
            queue: self.queue@.map_values(|track: TrackResponse| track@),
        }
    }
}

/// The music that a guild without a state has.
pub open spec fn music_or_silence(state: Option<&GuildMusicState>) -> Music {
    match state {
        Some(state) => state@,
        None => Music::initial(),
    }
}

/// What the dashboard shows of the queue. Without a configured guild there is nothing to show.
/// The bot's current channel goes before the configured one.
pub open spec fn shown_queue(
    guild_id: Option<u64>,
    voice_channel_id: Option<u64>,
    music: Music,
    call: Option<CallInfo>,
) -> QueueResponseView {
    let snapshot = if guild_id is Some {
        snapshot_of(call)
    } else {
        snapshot_of(None)
    };
    QueueResponseView {
        configured: guild_id is Some,
        connected: snapshot.connected,
        can_add: guild_id is Some && (snapshot.connected || voice_channel_id is Some),
        paused: snapshot.paused,
        guild_id: id_text(guild_id),
        voice_channel_id: match snapshot.channel_id {
            Some(id) => Some(id),
            None => id_text(voice_channel_id),
        },
        current: match music.current {
            Some(track) if guild_id is Some => Some(shown_track(track, 0)),
            _ => None,
        },
        queue: if guild_id is Some {
            Seq::new(music.queue.len(), |i: int| shown_track(music.queue[i], (i + 1) as nat))
        } else {
            seq![]
        },
    }
}

/// What the dashboard shows of the queue. `state` is the guild's state, if it has one yet, and
/// `call` its call.
pub fn get_queue(
    guild_id: Option<u64>,
    voice_channel_id: Option<u64>,
    state: Option<&GuildMusicState>,
    call: Option<CallInfo>,
) -> (response: QueueResponse)
    ensures
        response@ == shown_queue(guild_id, voice_channel_id, music_or_silence(state), call),
        response.configured == (guild_id is Some),
        response.connected == (guild_id is Some && (call matches Some(call) && call.channel_id
            is Some)),
        response.paused == (guild_id is Some && (call matches Some(call) && call.paused == Some(
            true,
        ))),
        response.can_add == (guild_id is Some && (response.connected || voice_channel_id is Some)),
        guild_id is None ==> response.guild_id is None,
        guild_id matches Some(id) ==> (response.guild_id matches Some(shown) && shown@
            == text::decimal(id as nat)),
        response.connected ==> (response.voice_channel_id matches Some(shown) && shown@
            == text::decimal(call->Some_0.channel_id->Some_0 as nat)),
        !response.connected && voice_channel_id is None ==> response.voice_channel_id is None,
        !response.connected ==> (voice_channel_id matches Some(id) ==> (
        response.voice_channel_id matches Some(shown) && shown@ == text::decimal(id as nat))),
        guild_id is None || state is None ==> response.current is None && response.queue@.len()
            == 0,
        guild_id is Some ==> (state matches Some(state) ==> {
            &&& response.current is Some == state.current is Some
            &&& response.current matches Some(shown) ==> shown.title@
                == state.current->Some_0.title@ && shown.url@ == state.current->Some_0.url@
            &&& response.current matches Some(shown) ==> {
                let track = state.current->Some_0;
                &&& track.playback_id matches Some(id) ==> shown.id@ == id@
                &&& track.playback_id is None ==> shown.id@ == "track-"@ + text::decimal(0)
                &&& shown.requested_by is Some == track.requested_by is Some
                &&& track.requested_by matches Some(user) ==> shown.requested_by->Some_0@
                    == text::decimal(user@ as nat)
            }
            &&& response.queue@.len() == state.queue@.len()
            &&& forall|i: int|
                0 <= i < response.queue@.len() ==> {
                    &&& (#[trigger] response.queue@[i]).title@ == state.queue@[i].title@
                    &&& response.queue@[i].url@ == state.queue@[i].url@
                    &&& state.queue@[i].playback_id matches Some(id) ==> response.queue@[i].id@
                        == id@
                    &&& state.queue@[i].playback_id is None ==> response.queue@[i].id@ == "track-"@
                        + text::decimal((i + 1) as nat)
                    &&& response.queue@[i].requested_by is Some
                        == state.queue@[i].requested_by is Some
                    &&& state.queue@[i].requested_by matches Some(user)
                        ==> response.queue@[i].requested_by->Some_0@ == text::decimal(user@ as nat)
                }
        }),
{
    let mut current: Option<TrackResponse> = None;
    let mut queue: Vec<TrackResponse> = Vec::new();
    if guild_id.is_some() {
        if let Some(state) = state {
            if let Some(track) = &state.current {
                current = Some(track_response(track, 0));
            }
            let mut i: usize = 0;
            while i < state.queue.len()
                invariant
                    i <= state.queue.len(),
                    queue.len() == i,
                    forall|j: int|
                        0 <= j < i ==> (#[trigger] queue@[j])@ == shown_track(
                            state.queue@[j],
                            (j + 1) as nat,
                        ),
                    forall|j: int|
                        0 <= j < i ==> {
                            &&& (#[trigger] queue@[j]).title@ == state.queue@[j].title@
                            &&& queue@[j].url@ == state.queue@[j].url@
                            &&& state.queue@[j].playback_id matches Some(id) ==> queue@[j].id@
                                == id@
                            &&& state.queue@[j].playback_id is None ==> queue@[j].id@ == "track-"@
                                + text::decimal((j + 1) as nat)
                            &&& queue@[j].requested_by is Some
                                == state.queue@[j].requested_by is Some
                            &&& state.queue@[j].requested_by matches Some(user)
                                ==> queue@[j].requested_by->Some_0@ == text::decimal(user@ as nat)
                        },
                decreases state.queue.len() - i,
            {
                queue.push(track_response(&state.queue[i], i + 1));
                i += 1;
            }
        }
    }
    let snapshot = playback_snapshot(
        if guild_id.is_some() {
            call
        } else {
            None
        },
    );
    let voice_channel = match snapshot.channel_id {
        Some(id) => Some(id),
        None => id_string(voice_channel_id),
    };
    let response = QueueResponse {
        configured: guild_id.is_some(),
        connected: snapshot.connected,
        can_add: guild_id.is_some() && (snapshot.connected || voice_channel_id.is_some()),
        paused: snapshot.paused,
        guild_id: id_string(guild_id),
        voice_channel_id: voice_channel,
        current,
        queue,
    };
    assert(response@.queue =~= shown_queue(
        guild_id,
        voice_channel_id,
        music_or_silence(state),
        call,
    ).queue);
    response
}

/// What the dashboard asks to be added: a query that is neither empty nor too long.
pub open spec fn accepted_query(query: Seq<char>) -> Result<Seq<char>, ApiErrorView> {
    let query = text::trimmed(query);
    if query.len() == 0 {
        Err(failure(ApiStatus::BadRequest, "Enter a song name or URL."@))
    } else if query.len() > MAX_QUERY_LENGTH {
        Err(
            failure(
                ApiStatus::BadRequest,
                "The search is too long. Keep it under 500 characters."@,
            ),
        )
    } else {
        Ok(query)
    }
}

/// A request of the dashboard to add a track: the query to resolve, and the guild to play it in.
/// The query is checked first.
pub fn add_track(query: &str, guild_id: Option<u64>) -> (request: Result<(String, u64), ApiError>)
    ensures
        match (accepted_query(query@), guild_id) {
            (Err(refusal), _) => request matches Err(error) && error@ == refusal,
            (Ok(_), None) => request matches Err(error) && error@ == not_configured(),
            (Ok(query), Some(guild_id)) => request matches Ok(request) && request.0@ == query
                && request.1 == guild_id,
        },
        request matches Ok(request) ==> request.0@ == text::trimmed(query@) && Some(request.1)
            == guild_id && 1 <= request.0@.len() <= 500,
        ({
            let length = text::trimmed(query@).len();
            &&& length == 0 ==> (request matches Err(error) && error.status == ApiStatus::BadRequest
                && error.message@ == "Enter a song name or URL."@)
            &&& length > 500 ==> (request matches Err(error) && error.status
                == ApiStatus::BadRequest && error.message@
                == "The search is too long. Keep it under 500 characters."@)
            &&& 1 <= length <= 500 && guild_id is Some ==> request is Ok
            &&& 1 <= length <= 500 && guild_id is None ==> (request matches Err(error)
                && error.status == ApiStatus::ServiceUnavailable && error.message@
                == "Set GUILD_ID to choose which server this dashboard controls."@)
        }),
{
    let query = text::trim(query);
    if query.is_empty() {
        return Err(ApiError::bad_request("Enter a song name or URL.".to_owned()));
    }
    if query.unicode_len() > MAX_QUERY_LENGTH {
        return Err(
            ApiError::bad_request(
                "The search is too long. Keep it under 500 characters.".to_owned(),
            ),
        );
    }
    match configured_guild(guild_id) {
        Ok(guild_id) => Ok((query.to_owned(), guild_id)),
        Err(error) => Err(error),
    }
}

/// The title of the first track of a request.
pub open spec fn first_title(request: RequestView) -> Seq<char> {
    if request.tracks.len() > 0 {
        request.tracks[0].title
    } else {
        "Track"@
    }
}

fn title_of_first(request: &ResolvedPlayRequest) -> (title: &str)
    ensures
        title@ == first_title(request@),
{
    if request.tracks.len() > 0 {
        assert(request@.tracks[0] == request.tracks@[0]@);
        request.tracks[0].title.as_str()
    } else {
        "Track"
    }
}

/// What the dashboard is told when a request was queued.
pub open spec fn added_text(request: RequestView, was_idle: bool) -> Seq<char> {
    match request.playlist_title {
        Some(title) => "Added "@ + text::decimal(request.tracks.len()) + " tracks from "@ + title
            + "."@,
        None => if was_idle {
            "Now playing "@ + first_title(request) + "."@
        } else {
            "Added "@ + first_title(request) + " to the queue."@
        },
    }
}

/// The answer to a request that was queued, with its HTTP status.
pub fn track_added(request: &ResolvedPlayRequest, was_idle: bool) -> (r: (u16, MutationResponse))
    ensures
        r.0 == CREATED,
        r.0 == 201,
        r.1.message@ == added_text(request@, was_idle),
        r.1.message@ == match request.playlist_title {
            Some(title) => "Added "@ + text::decimal(request.tracks@.len()) + " tracks from "@
                + title@ + "."@,
            None => {
                let first = if request.tracks@.len() > 0 {
                    request.tracks@[0].title@
                } else {
                    "Track"@
                };
                if was_idle {
                    "Now playing "@ + first + "."@
                } else {
                    "Added "@ + first + " to the queue."@
                }
            },
        },
{
    let message = match &request.playlist_title {
        Some(title) => text::concat5(
            "Added ",
            text::decimal_text(request.tracks.len() as u64).as_str(),
            " tracks from ",
            title.as_str(),
            ".",
        ),
        None => if was_idle {
            text::concat3("Now playing ", title_of_first(request), ".")
        } else {
            text::concat3("Added ", title_of_first(request), " to the queue.")
        },
    };
    (CREATED, MutationResponse { message })
}

/// What the dashboard is told when a predefined playlist was queued.
pub open spec fn playlist_queued_text(request: RequestView, was_idle: bool) -> Seq<char> {
    let count = text::decimal(request.tracks.len());
    let name = match request.playlist_title {
        Some(name) => name,
        None => "playlist"@,
    };
    if was_idle {
        "Now playing "@ + first_title(request) + "; added "@ + count + " tracks from "@ + name
            + "."@
    } else {
        "Added "@ + count + " tracks from "@ + name + "."@
    }
}

/// The answer to a predefined playlist that was queued, with its HTTP status.
pub fn queue_playlist(request: &ResolvedPlayRequest, was_idle: bool) -> (r: (u16, MutationResponse))
    ensures
        r.0 == CREATED,
        r.0 == 201,
        r.1.message@ == playlist_queued_text(request@, was_idle),
        ({
            let count = text::decimal(request.tracks@.len());
            let name = match request.playlist_title {
                Some(name) => name@,
                None => "playlist"@,
            };
            let first = if request.tracks@.len() > 0 {
                request.tracks@[0].title@
            } else {
                "Track"@
            };
            r.1.message@ == if was_idle {
                "Now playing "@ + first + "; added "@ + count + " tracks from "@ + name + "."@
            } else {
                "Added "@ + count + " tracks from "@ + name + "."@
            }
        }),
{
    let count = text::decimal_text(request.tracks.len() as u64);
    let name: &str = match &request.playlist_title {
        Some(name) => name.as_str(),
        None => "playlist",
    };
    let message = if was_idle {
        let mut message = text::concat5(
            "Now playing ",
            title_of_first(request),
            "; added ",
            count.as_str(),
            " tracks from ",
        );
        message.append(name);
        message.append(".");
        message
    } else {
        text::concat5("Added ", count.as_str(), " tracks from ", name, ".")
    };
    (CREATED, MutationResponse { message })
}

/// What the dashboard is told when the upcoming queue was cleared.
pub open spec fn cleared_text(cleared: nat) -> Seq<char> {
    if cleared == 0 {
        "The upcoming queue is already empty."@
    } else if cleared == 1 {
        "Cleared 1 upcoming track."@
    } else {
        "Cleared "@ + text::decimal(cleared) + " upcoming tracks."@
    }
}

/// Clears the upcoming tracks, in the playback queue and in the state. Returns the answer, and
/// the entries that the playback queue no longer holds. Without a call the playback queue is empty.
pub fn clear_queue<T>(state: &mut GuildMusicState, playback: &mut VecDeque<T>) -> (r: (
    MutationResponse,
    VecDeque<T>,
))
    ensures
        final(state)@ == old(state)@.queue_cleared(),
        final(playback)@ == old(playback)@.take(playback::playing(old(playback)@)),
        r.1@ == old(playback)@.skip(playback::playing(old(playback)@)),
        r.0.message@ == cleared_text(old(state)@.queue.len()),
        ({
            let cleared = old(state).queue@.len();
            r.0.message@ == if cleared == 0 {
                "The upcoming queue is already empty."@
            } else if cleared == 1 {
                "Cleared 1 upcoming track."@
            } else {
                "Cleared "@ + text::decimal(cleared) + " upcoming tracks."@
            }
        }),
        final(state).queue@.len() == 0,
        final(state).current == old(state).current,
        final(state).preplay_active == old(state).preplay_active,
        final(state).preplay_url == old(state).preplay_url,
        final(playback)@ + r.1@ == old(playback)@,
        old(playback)@.len() > 0 ==> final(playback)@ == seq![old(playback)@[0]],
{
    let removed = playback::drop_upcoming(playback);
    let cleared = state.clear_queue();
    let message = if cleared == 0 {
        "The upcoming queue is already empty.".to_owned()
    } else if cleared == 1 {
        "Cleared 1 upcoming track.".to_owned()
    } else {
        text::concat3(
            "Cleared ",
            text::decimal_text(cleared as u64).as_str(),
            " upcoming tracks.",
        )
    };
    (MutationResponse { message }, removed)
}

/// The answer where the bot has no call in the guild.
pub open spec fn not_connected() -> ApiErrorView {
    failure(ApiStatus::Conflict, "The bot is not connected to voice."@)
}

/// The answer where the playback queue does not hold the track.
pub open spec fn playback_changed() -> ApiErrorView {
    failure(ApiStatus::Conflict, "The playback queue changed. Please try again."@)
}

/// Why the upcoming track at `index` cannot be removed, if it cannot.
pub open spec fn removal_refusal(
    queue_len: nat,
    connected: bool,
    playback_len: nat,
    index: nat,
) -> Option<ApiErrorView> {
    if index >= queue_len {
        Some(failure(ApiStatus::NotFound, "That track is no longer in the queue."@))
    } else if !connected {
        Some(not_connected())
    } else if index + 1 >= playback_len {
        Some(playback_changed())
    } else {
        None
    }
}

/// Removes the upcoming track at `index`, in the playback queue and in the state. Returns the
/// answer, and the entry that the playback queue no longer holds. A refused request changes
/// nothing. `connected` says whether the bot has a call in the guild.
pub fn remove_track<T>(
    state: &mut GuildMusicState,
    connected: bool,
    playback: &mut VecDeque<T>,
    index: usize,
) -> (r: Result<(MutationResponse, T), ApiError>)
    ensures
        match removal_refusal(
            old(state)@.queue.len(),
            connected,
            old(playback)@.len(),
            index as nat,
        ) {
            Some(refusal) => {
                &&& r matches Err(error)
                &&& error@ == refusal
                &&& final(state)@ == old(state)@
                &&& final(playback)@ == old(playback)@
            },
            None => {
                &&& r matches Ok(removed)
                &&& removed.0.message@ == "Removed "@ + old(state)@.queue[index as int].title@
                    + "."@
                &&& removed.1 == old(playback)@[index + 1]
                &&& final(state)@ == old(state)@.without(index as int)
                &&& final(playback)@ == old(playback)@.remove(index + 1)
            },
        },
        final(state).current == old(state).current,
        final(state).preplay_active == old(state).preplay_active,
        final(state).preplay_url == old(state).preplay_url,
        r is Ok == (index < old(state).queue@.len() && connected && index + 1
            < old(playback)@.len()),
        r matches Ok(removed) ==> {
            &&& removed.0.message@ == "Removed "@ + old(state).queue@[index as int].title@ + "."@
            &&& removed.1 == old(playback)@[index + 1]
            &&& final(state).queue@ == old(state).queue@.remove(index as int)
            &&& final(playback)@ == old(playback)@.remove(index + 1)
        },
        r matches Err(error) ==> {
            &&& final(state).queue@ == old(state).queue@
            &&& final(playback)@ == old(playback)@
            &&& error.status == if index >= old(state).queue@.len() {
                ApiStatus::NotFound
            } else {
                ApiStatus::Conflict
            }
            &&& error.message@ == if index >= old(state).queue@.len() {
                "That track is no longer in the queue."@
            } else if !connected {
                "The bot is not connected to voice."@
            } else {
                "The playback queue changed. Please try again."@
            }
        },
{
    if index >= state.queue.len() {
        return Err(ApiError::not_found("That track is no longer in the queue.".to_owned()));
    }
    if !connected {
        return Err(ApiError::conflict("The bot is not connected to voice.".to_owned()));
    }
    let removed = match playback::remove_upcoming(playback, index) {
        Some(entry) => entry,
        None => return Err(
            ApiError::conflict("The playback queue changed. Please try again.".to_owned()),
        ),
    };
    match state.queue.remove(index) {
        Some(track) => Ok(
            (
                MutationResponse {
                    message: text::concat3("Removed ", track.title.as_str(), "."),
                },
                removed,
            ),
        ),
        None => Err(ApiError::conflict("The queue changed. Please refresh.".to_owned())),
    }
}

/// What moving an upcoming track comes to.
pub enum Move {
    /// The request is refused.
    Refused(ApiErrorView),
    /// The track is already there.
    Nothing,
    /// The track moves.
    Moved,
}

/// What moving the upcoming track at `from` to `to` comes to.
pub open spec fn move_of(
    queue_len: nat,
    connected: bool,
    playback_len: nat,
    from: nat,
    to: nat,
) -> Move {
    if from >= queue_len || to >= queue_len {
        Move::Refused(
            failure(
                ApiStatus::BadRequest,
                "The queue changed before that track could be moved."@,
            ),
        )
    } else if from == to {
        Move::Nothing
    } else if !connected {
        Move::Refused(not_connected())
    } else if from + 1 >= playback_len {
        Move::Refused(playback_changed())
    } else {
        Move::Moved
    }
}

/// Whether `reorder_queue` takes this request: a track that moves needs a place in the playback
/// queue to move to.
pub fn can_reorder<T>(
    state: &GuildMusicState,
    connected: bool,
    playback: &VecDeque<T>,
    from: usize,
    to: usize,
) -> (r: bool)
    ensures
        r == (move_of(
            state@.queue.len(),
            connected,
            playback@.len(),
            from as nat,
            to as nat,
        ) is Moved ==> to + 1 < playback@.len()),
{
    let queue_len = state.queue.len();
    if from < queue_len && to < queue_len && from != to && connected && from + 1 < playback.len() {
        to + 1 < playback.len()
    } else {
        true
    }
}

/// Moves the upcoming track at `from` to `to`, in the playback queue and in the state. A refused
/// request changes nothing. `connected` says whether the bot has a call in the guild.
pub fn reorder_queue<T>(
    state: &mut GuildMusicState,
    connected: bool,
    playback: &mut VecDeque<T>,
    from: usize,
    to: usize,
) -> (r: Result<MutationResponse, ApiError>)
    requires
        move_of(
            old(state)@.queue.len(),
            connected,
            old(playback)@.len(),
            from as nat,
            to as nat,
        ) is Moved ==> to + 1 < old(playback)@.len(),
    ensures
        match move_of(
            old(state)@.queue.len(),
            connected,
            old(playback)@.len(),
            from as nat,
            to as nat,
        ) {
            Move::Refused(refusal) => {
                &&& answer(r) == Err::<Seq<char>, ApiErrorView>(refusal)
                &&& final(state)@ == old(state)@
                &&& final(playback)@ == old(playback)@
            },
            Move::Nothing => {
                &&& answer(r) == Ok::<Seq<char>, ApiErrorView>("The track is already there."@)
                &&& final(state)@ == old(state)@
                &&& final(playback)@ == old(playback)@
            },
            Move::Moved => {
                &&& answer(r) == Ok::<Seq<char>, ApiErrorView>(
                    "Moved "@ + old(state)@.queue[from as int].title@ + "."@,
                )
                &&& final(state)@ == old(state)@.reordered(from as int, to as int)
                &&& final(playback)@ == playback::moved(old(playback)@, from + 1, to + 1)
            },
        },
        final(state).current == old(state).current,
        final(state).preplay_active == old(state).preplay_active,
        final(state).preplay_url == old(state).preplay_url,
        ({
            let n = old(state).queue@.len();
            let in_range = from < n && to < n;
            let moves = in_range && from != to && connected && from + 1 < old(playback)@.len();
            &&& r is Ok == (in_range && from == to || moves)
            &&& moves ==> {
                &&& r matches Ok(response) && response.message@ == "Moved "@ + old(state).queue@[from as int].title@ + "."@
                &&& final(state).queue@[to as int] == old(state).queue@[from as int]
                &&& final(state).queue@.remove(to as int) == old(state).queue@.remove(from as int)
                &&& final(playback)@[to + 1] == old(playback)@[from + 1]
                &&& final(playback)@.remove(to + 1) == old(playback)@.remove(from + 1)
            }
            &&& !moves ==> final(state).queue@ == old(state).queue@ && final(playback)@
                == old(playback)@
            &&& in_range && from == to ==> (r matches Ok(response) && response.message@
                == "The track is already there."@)
            &&& r matches Err(error) ==> {
                &&& error.status == if !in_range {
                    ApiStatus::BadRequest
                } else {
                    ApiStatus::Conflict
                }
                &&& error.message@ == if !in_range {
                    "The queue changed before that track could be moved."@
                } else if !connected {
                    "The bot is not connected to voice."@
                } else {
                    "The playback queue changed. Please try again."@
                }
            }
        }),
{
    proof {
        if from < state.queue@.len() && to < state.queue@.len() {
            playback::moving_keeps_the_others_in_order(state.queue@, from as int, to as int);
        }
        if from + 1 < playback@.len() && to + 1 < playback@.len() {
            playback::moving_keeps_the_others_in_order(playback@, from + 1, to + 1);
        }
    }
    if from >= state.queue.len() || to >= state.queue.len() {
        return Err(
            ApiError::bad_request("The queue changed before that track could be moved.".to_owned()),
        );
    }
    if from == to {
        return Ok(MutationResponse { message: "The track is already there.".to_owned() });
    }
    if !connected {
        return Err(ApiError::conflict("The bot is not connected to voice.".to_owned()));
    }
    if !playback::move_upcoming(playback, from, to) {
        return Err(ApiError::conflict("The playback queue changed. Please try again.".to_owned()));
    }
    match state.queue.remove(from) {
        Some(track) => {
            let message = text::concat3("Moved ", track.title.as_str(), ".");
            state.queue.insert(to, track);
            Ok(MutationResponse { message })
        },
        None => Err(ApiError::conflict("The queue changed. Please refresh.".to_owned())),
    }
}

/// What the dashboard may ask of the playback.
#[derive(Clone, Copy, Debug, PartialEq, Eq, Structural)]
pub enum PlaybackAction {
    Pause,
    Resume,
    Skip,
}

/// The action of that name, if there is one.
pub open spec fn action_named(name: Seq<char>) -> Option<PlaybackAction> {
    if name == "pause"@ {
        Some(PlaybackAction::Pause)
    } else if name == "resume"@ {
        Some(PlaybackAction::Resume)
    } else if name == "skip"@ {
        Some(PlaybackAction::Skip)
    } else {
        None
    }
}

/// The action to perform, or the answer where there is none: the bot must have a call, something
/// must be playing, and the action must be known. `playback_len` is the length of the playback
/// queue, where the bot has a call.
pub fn playback_action(playback_len: Option<usize>, action: &str) -> (r: Result<
    PlaybackAction,
    ApiError,
>)
    ensures
        match (playback_len, action_named(action@)) {
            (None, _) => r matches Err(error) && error@ == not_connected(),
            (Some(0), _) => r matches Err(error) && error@ == failure(
                ApiStatus::Conflict,
                "There is nothing playing."@,
            ),
            (Some(_), None) => r matches Err(error) && error@ == failure(
                ApiStatus::NotFound,
                "Unknown playback action."@,
            ),
            (Some(_), Some(action)) => r == Ok::<PlaybackAction, ApiError>(action),
        },
        r is Ok == (playback_len matches Some(len) && len > 0 && (action@ == "pause"@ || action@
            == "resume"@ || action@ == "skip"@)),
        r == Ok::<PlaybackAction, ApiError>(PlaybackAction::Pause) ==> action@ == "pause"@,
        r == Ok::<PlaybackAction, ApiError>(PlaybackAction::Resume) ==> action@ == "resume"@,
        r == Ok::<PlaybackAction, ApiError>(PlaybackAction::Skip) ==> action@ == "skip"@,
        r matches Err(error) ==> match playback_len {
            None => error.status == ApiStatus::Conflict && error.message@
                == "The bot is not connected to voice."@,
            Some(len) => if len == 0 {
                error.status == ApiStatus::Conflict && error.message@ == "There is nothing playing."@
            } else {
                error.status == ApiStatus::NotFound && error.message@ == "Unknown playback action."@
            },
        },
{
    match playback_len {
        None => return Err(ApiError::conflict("The bot is not connected to voice.".to_owned())),
        Some(len) => if len == 0 {
            return Err(ApiError::conflict("There is nothing playing.".to_owned()));
        },
    }
    if text::same(action, "pause") {
        Ok(PlaybackAction::Pause)
    } else if text::same(action, "resume") {
        Ok(PlaybackAction::Resume)
    } else if text::same(action, "skip") {
        Ok(PlaybackAction::Skip)
    } else {
        Err(ApiError::not_found("Unknown playback action.".to_owned()))
    }
}

/// The answer to an action that was performed, or that failed with this error.
pub open spec fn performed(action: PlaybackAction, error: Option<Seq<char>>) -> Result<
    Seq<char>,
    ApiErrorView,
> {
    match error {
        None => Ok(
            match action {
                PlaybackAction::Pause => "Playback paused."@,
                PlaybackAction::Resume => "Playback resumed."@,
                PlaybackAction::Skip => "Skipped to the next track."@,
            },
        ),
        Some(error) => Err(
            failure(
                ApiStatus::Conflict,
                match action {
                    PlaybackAction::Pause => "Could not pause: "@ + error,
                    PlaybackAction::Resume => "Could not resume: "@ + error,
                    PlaybackAction::Skip => "Could not skip: "@ + error,
                },
            ),
        ),
    }
}

/// The answer to an action that was performed, or that failed with this error.
pub fn playback_performed(action: PlaybackAction, error: Option<String>) -> (r: Result<
    MutationResponse,
    ApiError,
>)
    ensures
        answer(r) == performed(action, guild_state::opt_text(error)),
        error is None == r is Ok,
        r matches Ok(response) ==> response.message@ == match action {
            PlaybackAction::Pause => "Playback paused."@,
            PlaybackAction::Resume => "Playback resumed."@,
            PlaybackAction::Skip => "Skipped to the next track."@,
        },
        r matches Err(failed) ==> failed.status == ApiStatus::Conflict && failed.message@
            == match action {
            PlaybackAction::Pause => "Could not pause: "@,
            PlaybackAction::Resume => "Could not resume: "@,
            PlaybackAction::Skip => "Could not skip: "@,
        } + error->Some_0@,
{
    match error {
        None => {
            let message: &str = match action {
                PlaybackAction::Pause => "Playback paused.",
                PlaybackAction::Resume => "Playback resumed.",
                PlaybackAction::Skip => "Skipped to the next track.",
            };
            Ok(MutationResponse { message: message.to_owned() })
        },
        Some(error) => {
            let what: &str = match action {
                PlaybackAction::Pause => "Could not pause: ",
                PlaybackAction::Resume => "Could not resume: ",
                PlaybackAction::Skip => "Could not skip: ",
            };
            let mut message = what.to_owned();
            message.append(error.as_str());
            Err(ApiError::conflict(message))
        },
    }
}

/// How a request of the dashboard gets a call to play in.
#[derive(Clone, Copy, Debug, PartialEq, Eq, Structural)]
pub enum Connection {
    /// The bot is in a voice channel already.
    Current,
    /// The bot joins this channel.
    Join(u64),
}

/// How a request gets a call: in the bot's current voice channel if it is in one, and otherwise in
/// the configured one.
pub open spec fn connection_for(connected: bool, voice_channel_id: Option<u64>) -> Result<
    Connection,
    ApiErrorView,
> {
    match (connected, voice_channel_id) {
        (true, _) => Ok(Connection::Current),
        (false, Some(id)) => Ok(Connection::Join(id)),
        (false, None) => Err(
            failure(
                ApiStatus::Conflict,
                "The bot is not in voice. Set VOICE_CHANNEL_ID so the dashboard can connect it."@,
            ),
        ),
    }
}

/// Use the bot's current voice channel if it is in one, and otherwise join the configured one.
pub fn connected_or_join(connected: bool, voice_channel_id: Option<u64>) -> (r: Result<
    Connection,
    ApiError,
>)
    ensures
        match connection_for(connected, voice_channel_id) {
            Ok(connection) => r == Ok::<Connection, ApiError>(connection),
            Err(refusal) => r matches Err(error) && error@ == refusal,
        },
        connected ==> r == Ok::<Connection, ApiError>(Connection::Current),
        !connected ==> (voice_channel_id matches Some(id) ==> r == Ok::<Connection, ApiError>(
            Connection::Join(id),
        )),
        !connected && voice_channel_id is None ==> (r matches Err(error) && error.status
            == ApiStatus::Conflict && error.message@
            == "The bot is not in voice. Set VOICE_CHANNEL_ID so the dashboard can connect it."@),
{
    if connected {
        return Ok(Connection::Current);
    }
    match voice_channel_id {
        Some(id) => Ok(Connection::Join(id)),
        None => Err(
            ApiError::conflict(
                "The bot is not in voice. Set VOICE_CHANNEL_ID so the dashboard can connect it.".to_owned(),
            ),
        ),
    }
}

/// The answer where the configured voice channel could not be joined.
pub open spec fn join_failure() -> ApiErrorView {
    failure(
        ApiStatus::Conflict,
        "Could not join the configured voice channel. Check the bot's permissions."@,
    )
}

/// The answer where the configured voice channel could not be joined.
pub fn join_failed() -> (error: ApiError)
    ensures
        error@ == join_failure(),
        error.status == ApiStatus::Conflict,
        error.message@
            == "Could not join the configured voice channel. Check the bot's permissions."@,
{
    ApiError::conflict(
        "Could not join the configured voice channel. Check the bot's permissions.".to_owned(),
    )
}

/// The answer to a playlist error. Where the server's files are is not said.
pub open spec fn playlist_failure(error: ErrorView) -> ApiErrorView {
    match error {
        ErrorView::NotFound { name } => failure(
            ApiStatus::NotFound,
            "The predefined playlist '"@ + name + "' was not found."@,
        ),
        ErrorView::Empty { name } => failure(
            ApiStatus::BadRequest,
            "The predefined playlist '"@ + name + "' has no tracks."@,
        ),
        ErrorView::TooManyTracks { name, maximum } => failure(
            ApiStatus::BadRequest,
            "The predefined playlist '"@ + name + "' has more than "@ + text::decimal(maximum)
                + " tracks."@,
        ),
        ErrorView::LineTooLong { name, line_number, maximum } => failure(
            ApiStatus::BadRequest,
            "Playlist '"@ + name + "' line "@ + text::decimal(line_number) + " is longer than "@
                + text::decimal(maximum) + " characters."@,
        ),
        ErrorView::Directory { .. } | ErrorView::Read { .. } => failure(
            ApiStatus::ServiceUnavailable,
            "Predefined playlists are unavailable. Check the configured folder."@,
        ),
    }
}

/// The answer to a playlist error.
pub fn playlist_api_error(error: &PlaylistError) -> (r: ApiError)
    ensures
        r@ == playlist_failure(error@),
        r.status == match *error {
            PlaylistError::NotFound { .. } => ApiStatus::NotFound,
            PlaylistError::Directory { .. } => ApiStatus::ServiceUnavailable,
            PlaylistError::Read { .. } => ApiStatus::ServiceUnavailable,
            _ => ApiStatus::BadRequest,
        },
        match *error {
            PlaylistError::NotFound { name } => r.message@ == "The predefined playlist '"@ + name@
                + "' was not found."@,
            PlaylistError::Empty { name } => r.message@ == "The predefined playlist '"@ + name@
                + "' has no tracks."@,
            PlaylistError::TooManyTracks { name, maximum } => r.message@
                == "The predefined playlist '"@ + name@ + "' has more than "@ + text::decimal(
                maximum as nat,
            ) + " tracks."@,
            PlaylistError::LineTooLong { name, line_number, maximum } => r.message@ == "Playlist '"@
                + name@ + "' line "@ + text::decimal(line_number as nat) + " is longer than "@
                + text::decimal(maximum as nat) + " characters."@,
            _ => r.message@ == "Predefined playlists are unavailable. Check the configured folder."@,
        },
{
    match error {
        PlaylistError::NotFound { name } => ApiError::not_found(
            text::concat3("The predefined playlist '", name.as_str(), "' was not found."),
        ),
        PlaylistError::Empty { name } => ApiError::bad_request(
            text::concat3("The predefined playlist '", name.as_str(), "' has no tracks."),
        ),
        PlaylistError::TooManyTracks { name, maximum } => ApiError::bad_request(
            text::concat5(
                "The predefined playlist '",
                name.as_str(),
                "' has more than ",
                text::decimal_text(*maximum as u64).as_str(),
                " tracks.",
            ),
        ),
        PlaylistError::LineTooLong { name, line_number, maximum } => {
            let mut message = text::concat5(
                "Playlist '",
                name.as_str(),
                "' line ",
                text::decimal_text(*line_number as u64).as_str(),
                " is longer than ",
            );
            message.append(text::decimal_text(*maximum as u64).as_str());
            message.append(" characters.");
            ApiError::bad_request(message)
        },
        PlaylistError::Directory { .. } | PlaylistError::Read { .. } => ApiError::unavailable(
            "Predefined playlists are unavailable. Check the configured folder.".to_owned(),
        ),
    }
}

/// A shown track keeps its own title and link, and its own id where it has one; whether somebody
/// is named tells who asked.
pub proof fn shown_tracks_keep_their_text(track: Track, index: nat, other: nat)
    ensures
        shown_track(track, index).title == track.title@,
        shown_track(track, index).url == track.url@,
        track.playback_id matches Some(id) ==> shown_track(track, index).id == id@,
        track.playback_id is None && index != other ==> shown_track(track, index).id
            != shown_track(track, other).id,
        shown_track(track, index).requested_by is Some == track.requested_by is Some,
        track.requested_by matches Some(user) ==> text::parsed_u64(
            shown_track(track, index).requested_by->Some_0,
        ) == Some(user@),
{
    if track.requested_by is Some {
        text::decimal_reads_back(track.requested_by->Some_0@);
    }
    if track.playback_id is None && index != other {
        text::stripping_undoes_prefixing(text::decimal(index), "track-"@);
        text::stripping_undoes_prefixing(text::decimal(other), "track-"@);
        text::decimals_differ(index, other);
    }
}

/// The dashboard shows the current track and every upcoming one, in order, each with its own title
/// and link. It says that the bot is connected and paused as the call says it, and names the bot's
/// own channel before the configured one.
pub proof fn dashboard_shows_the_queue(
    guild_id: u64,
    voice_channel_id: Option<u64>,
    music: Music,
    call: Option<CallInfo>,
    i: int,
)
    ensures
        ({
            let shown = shown_queue(Some(guild_id), voice_channel_id, music, call);
            let hidden = shown_queue(None, voice_channel_id, music, call);
            let channel = match call {
                Some(call) => call.channel_id,
                None => None,
            };
            &&& shown.configured && !hidden.configured
            &&& shown.queue.len() == music.queue.len()
            &&& 0 <= i < music.queue.len() ==> shown.queue[i].title == music.queue[i].title@
                && shown.queue[i].url == music.queue[i].url@
            &&& shown.current is Some == music.current is Some
            &&& music.current matches Some(track) ==> shown.current->Some_0.title == track.title@
                && shown.current->Some_0.url == track.url@
            &&& shown.connected == (channel is Some)
            &&& shown.paused == (call matches Some(call) && call.paused == Some(true))
            &&& channel matches Some(id) ==> shown.voice_channel_id == Some(
                text::decimal(id as nat),
            )
            &&& channel is None ==> (voice_channel_id matches Some(id) ==> shown.voice_channel_id
                == Some(text::decimal(id as nat)))
            &&& shown.guild_id == Some(text::decimal(guild_id as nat))
            &&& hidden.current is None && hidden.queue.len() == 0 && !hidden.can_add
                && !hidden.connected && !hidden.paused && hidden.guild_id is None
        }),
{
}

/// A request to remove or move a track is taken exactly if the shown queue and the playback queue
/// both hold it and the bot has a call.
pub proof fn changes_need_the_track(
    queue_len: nat,
    connected: bool,
    playback_len: nat,
    from: nat,
    to: nat,
)
    ensures
        removal_refusal(queue_len, connected, playback_len, from) is None <==> from < queue_len
            && connected && from + 1 < playback_len,
        move_of(queue_len, connected, playback_len, from, to) is Moved <==> from < queue_len && to
            < queue_len && from != to && connected && from + 1 < playback_len,
        move_of(queue_len, connected, playback_len, from, to) is Nothing <==> from < queue_len
            && from == to,
{
}

/// The dashboard offers to add tracks exactly if there is a guild and a way to play there.
pub proof fn offered_tracks_can_be_added(
    guild_id: Option<u64>,
    voice_channel_id: Option<u64>,
    music: Music,
    call: Option<CallInfo>,
)
    ensures
        shown_queue(guild_id, voice_channel_id, music, call).can_add == (guild_id is Some
            && connection_for(snapshot_of(call).connected, voice_channel_id) is Ok),
{
}

/// While the state mirrors the playback queue, every upcoming track can be removed and moved to
/// every place, and what the two hold stays in step.
pub proof fn mirrored_tracks_can_be_changed(
    playback: Seq<Seq<char>>,
    music: Music,
    from: nat,
    to: nat,
)
    requires
        playback::mirrors(playback, music),
        from < music.queue.len(),
        to < music.queue.len(),
    ensures
        removal_refusal(music.queue.len(), true, playback.len(), from) is None,
        playback::mirrors(playback.remove(from + 1int), music.without(from as int)),
        from != to ==> move_of(music.queue.len(), true, playback.len(), from, to) is Moved,
        to + 1 < playback.len(),
        playback::mirrors(
            playback::moved(playback, from + 1int, to + 1int),
            music.reordered(from as int, to as int),
        ),
{
    playback::remove_keeps_mirror(playback, music, from as int);
    playback::reorder_keeps_mirror(playback, music, from as int, to as int);
}

/// Errors of the server's file system all get the same answer: neither a path nor the reason
/// shows.
pub proof fn file_errors_get_one_answer(first: ErrorView, second: ErrorView)
    requires
        first is Directory || first is Read,
        second is Directory || second is Read,
    ensures
        playlist_failure(first) == playlist_failure(second),
{
}

}
