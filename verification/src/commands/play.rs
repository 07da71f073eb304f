//! `/play`: resolving a request to tracks, queueing them, and going on when a track ends.

use rand::Rng;
use vstd::prelude::*;
use vstd::string::*;

use crate::commands::guild_state;
use crate::commands::guild_state::{GuildMusicState, Music, Track, TrackView, UserId};
use crate::commands::preplay;
use crate::commands::youtube_playlist;
use crate::commands::youtube_playlist::YoutubePlaylist;
use crate::playback;
use crate::playlists;
use crate::playlists::{EntryView, Playlist, PlaylistView};
use crate::text;

verus! {

/// The colour of an embed that says what plays now.
pub const NOW_PLAYING_COLOUR: u32 = 0x57F287;

/// The colour of an embed that says what was queued.
pub const QUEUED_COLOUR: u32 = 0x5865F2;

/// The first option of a slash command, as Discord hands it over.
pub enum CommandOption {
    Missing,
    NotText,
    Text(String),
}

/// An embed of a reply.
#[derive(Debug)]
pub struct Embed {
    pub title: String,
    pub description: String,
    pub colour: u32,
    pub footer: String,
}

/// The text of an embed.
#[verifier::ext_equal]
pub struct EmbedView {
    pub title: Seq<char>,
    pub description: Seq<char>,
    pub colour: u32,
    pub footer: Seq<char>,
}

impl View for Embed {
    type V = EmbedView;

    open spec fn view(&self) -> EmbedView {
        EmbedView {
            title: self.title@,
            description: self.description@,
            colour: self.colour,
            footer: self.footer@,
        }
    }
}

/// A reply to a slash command.
#[derive(Debug)]
pub enum Reply {
    /// A first response that only the user sees.
    Ephemeral(String),
    /// A text in place of the deferred response.
    Edit(String),
    /// An embed in place of the deferred response.
    EditEmbed(Embed),
}

/// The text of a reply.
#[verifier::ext_equal]
pub enum ReplyView {
    Ephemeral(Seq<char>),
    Edit(Seq<char>),
    EditEmbed(EmbedView),
}

impl View for Reply {
    type V = ReplyView;

    open spec fn view(&self) -> ReplyView {
        match *self {
            Reply::Ephemeral(text) => ReplyView::Ephemeral(text@),
            Reply::Edit(text) => ReplyView::Edit(text@),
            Reply::EditEmbed(embed) => ReplyView::EditEmbed(embed@),
        }
    }
}

/// What `/play` and `/playlist` go on with: the text they were given, and where to play.
#[derive(Debug)]
pub struct PlayTarget {
    pub query: String,
    pub guild_id: u64,
    pub channel_id: u64,
}

/// The text of a target.
#[verifier::ext_equal]
pub struct TargetView {
    pub query: Seq<char>,
    pub guild_id: u64,
    pub channel_id: u64,
}

impl View for PlayTarget {
    type V = TargetView;

    open spec fn view(&self) -> TargetView {
        TargetView {
            query: self.query@,
            guild_id: self.guild_id,
            channel_id: self.channel_id,
        }
    }
}

/// The text of a target, or of the reply in its place.
pub open spec fn target_outcome(result: Result<PlayTarget, Reply>) -> Result<
    TargetView,
    ReplyView,
> {
    match result {
        Ok(target) => Ok(target@),
        Err(reply) => Err(reply@),
    }
}

/// How a command that plays something in the user's voice channel starts: it needs a text
/// option, a server, and a voice channel, and asks for them in that order.
pub open spec fn play_target(
    option: CommandOption,
    guild_id: Option<u64>,
    channel_id: Option<u64>,
    not_text: Seq<char>,
    missing: Seq<char>,
) -> Result<TargetView, ReplyView> {
    match option {
        CommandOption::NotText => Err(ReplyView::Ephemeral(not_text)),
        CommandOption::Missing => Err(ReplyView::Ephemeral(missing)),
        CommandOption::Text(query) => match (guild_id, channel_id) {
            (None, _) => Err(
                ReplyView::Ephemeral("❌ This command can only be used in a server."@),
            ),
            (Some(_), None) => Err(
                ReplyView::Ephemeral("❌ You need to be in a voice channel first."@),
            ),
            (Some(guild_id), Some(channel_id)) => Ok(
                TargetView { query: query@, guild_id, channel_id },
            ),
        },
    }
}

/// Starts a command that plays something in the user's voice channel. `not_text` and `missing`
/// are the replies to an option that is no text and to none at all.
pub fn start_playing(
    option: CommandOption,
    guild_id: Option<u64>,
    channel_id: Option<u64>,
    not_text: &str,
    missing: &str,
) -> (target: Result<PlayTarget, Reply>)
    ensures
        target_outcome(target) == play_target(
            option,
            guild_id,
            channel_id,
            not_text@,
            missing@,
        ),
        match (option, guild_id, channel_id) {
            (CommandOption::NotText, _, _) => target matches Err(Reply::Ephemeral(text)) && text@
                == not_text@,
            (CommandOption::Missing, _, _) => target matches Err(Reply::Ephemeral(text)) && text@
                == missing@,
            (CommandOption::Text(_), None, _) => target matches Err(Reply::Ephemeral(text)) && text@
                == "❌ This command can only be used in a server."@,
            (CommandOption::Text(_), Some(_), None) => target matches Err(Reply::Ephemeral(text))
                && text@ == "❌ You need to be in a voice channel first."@,
            (CommandOption::Text(query), Some(guild_id), Some(channel_id)) => target matches Ok(
                target,
            ) && target.query@ == query@ && target.guild_id == guild_id && target.channel_id
                == channel_id,
        },
{
    let query = match option {
        CommandOption::Text(query) => query,
        CommandOption::NotText => return Err(Reply::Ephemeral(not_text.to_owned())),
        CommandOption::Missing => return Err(Reply::Ephemeral(missing.to_owned())),
    };
    let guild_id = match guild_id {
        Some(id) => id,
        None => return Err(
            Reply::Ephemeral("❌ This command can only be used in a server.".to_owned()),
        ),
    };
    let channel_id = match channel_id {
        Some(id) => id,
        None => return Err(
            Reply::Ephemeral("❌ You need to be in a voice channel first.".to_owned()),
        ),
    };
    Ok(PlayTarget { query, guild_id, channel_id })
}

/// /play {query}: what to resolve and where to play it, or the reply to send instead.
pub fn run(option: CommandOption, guild_id: Option<u64>, channel_id: Option<u64>) -> (target: Result<
    PlayTarget,
    Reply,
>)
    ensures
        target_outcome(target) == play_target(
            option,
            guild_id,
            channel_id,
            "❌ Expected a text query."@,
            "❌ Please provide a song name or URL."@,
        ),
        match (option, guild_id, channel_id) {
            (CommandOption::NotText, _, _) => target matches Err(Reply::Ephemeral(text)) && text@
                == "❌ Expected a text query."@,
            (CommandOption::Missing, _, _) => target matches Err(Reply::Ephemeral(text)) && text@
                == "❌ Please provide a song name or URL."@,
            (CommandOption::Text(_), None, _) => target matches Err(Reply::Ephemeral(text)) && text@
                == "❌ This command can only be used in a server."@,
            (CommandOption::Text(_), Some(_), None) => target matches Err(Reply::Ephemeral(text))
                && text@ == "❌ You need to be in a voice channel first."@,
            (CommandOption::Text(query), Some(guild_id), Some(channel_id)) => target matches Ok(
                target,
            ) && target.query@ == query@ && target.guild_id == guild_id && target.channel_id
                == channel_id,
        },
{
    start_playing(
        option,
        guild_id,
        channel_id,
        "❌ Expected a text query.",
        "❌ Please provide a song name or URL.",
    )
}

/// The request to queue, or the reply that says why there is none.
pub fn after_resolution(resolved: Result<ResolvedPlayRequest, String>) -> (request: Result<
    ResolvedPlayRequest,
    Reply,
>)
    ensures
        match resolved {
            Ok(resolved) => request == Ok::<ResolvedPlayRequest, Reply>(resolved),
            Err(message) => request == Err::<ResolvedPlayRequest, Reply>(Reply::Edit(message)),
        },
{
    match resolved {
        Ok(request) => Ok(request),
        Err(message) => Err(Reply::Edit(message)),
    }
}

/// What is said where the voice channel was not joined.
pub open spec fn join_failed_text() -> Seq<char> {
    "❌ Failed to join your voice channel. Do I have permission to connect?"@
}

/// Whether to go on to queue the request, or the reply where the voice channel was not joined.
pub fn after_join(joined: bool) -> (go_on: Result<(), Reply>)
    ensures
        go_on is Ok == joined,
        go_on matches Err(reply) ==> reply@ == ReplyView::Edit(join_failed_text()),
        go_on matches Err(reply) ==> (reply matches Reply::Edit(text) && text@
            == "❌ Failed to join your voice channel. Do I have permission to connect?"@),
{
    if joined {
        Ok(())
    } else {
        Err(
            Reply::Edit(
                "❌ Failed to join your voice channel. Do I have permission to connect?".to_owned(),
            ),
        )
    }
}

/// Tracks that are ready to be queued, and the title of the playlist they came from.
#[derive(Debug)]
pub struct ResolvedPlayRequest {
    pub tracks: Vec<Track>,
    pub playlist_title: Option<String>,
}

/// The text of a request.
#[verifier::ext_equal]
pub struct RequestView {
    pub tracks: Seq<TrackView>,
    pub playlist_title: Option<Seq<char>>,
}

/// The text of a list of tracks.
pub open spec fn track_views(tracks: Seq<Track>) -> Seq<TrackView> {
    tracks.map_values(|track: Track| track@)
}

impl View for ResolvedPlayRequest {
    type V = RequestView;

    open spec fn view(&self) -> RequestView {
        RequestView {
            tracks: track_views(self.tracks@),
            playlist_title: guild_state::opt_text(self.playlist_title),
        }
    }
}

/// What yt-dlp knows of a track.
#[derive(Debug)]
pub struct TrackMetadata {
    pub title: Option<String>,
    pub source_url: Option<String>,
}

/// The text of what is known of a track.
#[verifier::ext_equal]
pub struct MetadataView {
    pub title: Option<Seq<char>>,
    pub source_url: Option<Seq<char>>,
}

impl View for TrackMetadata {
    type V = MetadataView;

    open spec fn view(&self) -> MetadataView {
        MetadataView {
            title: guild_state::opt_text(self.title),
            source_url: guild_state::opt_text(self.source_url),
        }
    }
}

/// Whether text is a web address.
pub open spec fn url_text(input: Seq<char>) -> bool {
    "http://"@.is_prefix_of(input) || "https://"@.is_prefix_of(input)
}

/// Whether `input` is a web address.
pub fn is_url(input: &str) -> (r: bool)
    ensures
        r == url_text(input@),
        r == ("http://"@.is_prefix_of(input@) || "https://"@.is_prefix_of(input@)),
{
    text::starts_with(input, "http://") || text::starts_with(input, "https://")
}

/// What yt-dlp is asked for: a web address as it is, and a search for anything else.
pub open spec fn lookup_url(query: Seq<char>) -> Seq<char> {
    if url_text(query) {
        query
    } else {
        "ytsearch1:"@ + query
    }
}

/// What yt-dlp is asked for to find `query`.
pub fn source_url(query: &str) -> (url: String)
    ensures
        url@ == lookup_url(query@),
        "http://"@.is_prefix_of(query@) || "https://"@.is_prefix_of(query@) ==> url@ == query@,
        !("http://"@.is_prefix_of(query@) || "https://"@.is_prefix_of(query@)) ==> url@
            == "ytsearch1:"@ + query@,
{
    if is_url(query) {
        query.to_owned()
    } else {
        let mut url = "ytsearch1:".to_owned();
        url.append(query);
        url
    }
}

/// The track that a query and what was found for it give.
pub open spec fn resolved_track(
    query: Seq<char>,
    metadata: MetadataView,
    requested_by: Option<UserId>,
) -> TrackView {
    TrackView {
        title: match metadata.title {
            Some(title) => title,
            None => query,
        },
        url: match metadata.source_url {
            Some(url) => if url.len() > 0 {
                url
            } else {
                lookup_url(query)
            },
            None => lookup_url(query),
        },
        requested_by,
        playback_id: None,
    }
}

/// What is said where nothing was found for a query.
pub open spec fn not_found_text(query: Seq<char>) -> Seq<char> {
    "❌ Could not find `"@ + query
        + "`. The link may be private, geo-blocked, or invalid."@
}

/// Resolve a single song query or direct media URL, from what yt-dlp found for its source URL.
pub fn resolve_track(
    query: &str,
    metadata: Option<TrackMetadata>,
    requested_by: Option<UserId>,
) -> (track: Result<Track, String>)
    ensures
        match metadata {
            Some(metadata) => track matches Ok(track) && track@ == resolved_track(
                query@,
                metadata@,
                requested_by,
            ),
            None => track matches Err(message) && message@ == not_found_text(query@),
        },
        metadata is Some == track is Ok,
        track matches Ok(track) ==> {
            &&& metadata->Some_0.title matches Some(title) ==> track.title@ == title@
            &&& metadata->Some_0.title is None ==> track.title@ == query@
            &&& (metadata->Some_0.source_url matches Some(url) && url@.len() > 0) ==> track.url@
                == metadata->Some_0.source_url->Some_0@
            &&& !(metadata->Some_0.source_url matches Some(url) && url@.len() > 0) ==> track.url@
                == if "http://"@.is_prefix_of(query@) || "https://"@.is_prefix_of(query@) {
                query@
            } else {
                "ytsearch1:"@ + query@
            }
            &&& track.requested_by == requested_by
            &&& track.playback_id is None
        },
        track matches Err(message) ==> message@ == "❌ Could not find `"@ + query@
            + "`. The link may be private, geo-blocked, or invalid."@,
{
    let metadata = match metadata {
        Some(metadata) => metadata,
        None => return Err(
            text::concat3(
                "❌ Could not find `",
                query,
                "`. The link may be private, geo-blocked, or invalid.",
            ),
        ),
    };
    let title = match metadata.title {
        Some(title) => title,
        None => query.to_owned(),
    };
    let url = match metadata.source_url {
        Some(url) => if url.as_str().is_empty() {
            source_url(query)
        } else {
            url
        },
        None => source_url(query),
    };
    Ok(Track { title, url, requested_by, playback_id: None })
}

/// What to look up for a request.
#[derive(Debug)]
pub enum LookupPlan {
    /// The playlist behind the URL.
    Playlist,
    /// The track that yt-dlp finds for this source.
    Single { source_url: String },
}

/// Decides what to look up: an explicit YouTube playlist URL is loaded as a playlist, and
/// anything else is a single track.
pub fn plan_lookup(query: &str) -> (plan: LookupPlan)
    ensures
        match plan {
            LookupPlan::Playlist => youtube_playlist::playlist_url(query@),
            LookupPlan::Single { source_url } => !youtube_playlist::playlist_url(query@)
                && source_url@ == lookup_url(query@),
        },
        plan is Playlist == youtube_playlist::playlist_url(query@),
        plan matches LookupPlan::Single { source_url } ==> source_url@ == if "http://"@.is_prefix_of(
            query@,
        ) || "https://"@.is_prefix_of(query@) {
            query@
        } else {
            "ytsearch1:"@ + query@
        },
{
    if youtube_playlist::is_youtube_playlist_url(query) {
        LookupPlan::Playlist
    } else {
        LookupPlan::Single { source_url: source_url(query) }
    }
}

/// What was found for a request.
#[derive(Debug)]
pub enum Lookup {
    /// The playlist behind a playlist URL, if it could be loaded.
    Playlist(Option<YoutubePlaylist>),
    /// The track behind anything else, if there was one.
    Single(Option<TrackMetadata>),
}

/// The tracks of a YouTube playlist, in playlist order.
pub open spec fn playlist_tracks(
    playlist: YoutubePlaylist,
    requested_by: Option<UserId>,
) -> Seq<TrackView> {
    Seq::new(
        playlist.tracks@.len(),
        |i: int|
            TrackView {
                title: playlist.tracks@[i].title@,
                url: playlist.tracks@[i].url@,
                requested_by,
                playback_id: None,
            },
    )
}

/// The text of a request, or of why there is none.
pub open spec fn request_outcome(result: Result<ResolvedPlayRequest, String>) -> Result<
    RequestView,
    Seq<char>,
> {
    match result {
        Ok(request) => Ok(request@),
        Err(message) => Err(message@),
    }
}

/// The request that a query and what was found for it give.
pub open spec fn resolved_request(
    query: Seq<char>,
    lookup: Lookup,
    requested_by: Option<UserId>,
) -> Result<RequestView, Seq<char>> {
    match lookup {
        Lookup::Playlist(Some(playlist)) => Ok(
            RequestView {
                tracks: playlist_tracks(playlist, requested_by),
                playlist_title: Some(playlist.title@),
            },
        ),
        Lookup::Playlist(None) => Err(
            "❌ Could not load that YouTube playlist. It may be private, unavailable, or empty."@,
        ),
        Lookup::Single(Some(metadata)) => Ok(
            RequestView {
                tracks: seq![resolved_track(query, metadata@, requested_by)],
                playlist_title: None,
            },
        ),
        Lookup::Single(None) => Err(not_found_text(query)),
    }
}

/// Resolve a request, from what was found: the playlist where the query is an explicit YouTube
/// playlist URL, and a single track otherwise.
pub fn resolve_request(query: &str, lookup: Lookup, requested_by: Option<UserId>) -> (request: Result<
    ResolvedPlayRequest,
    String,
>)
    requires
        lookup is Playlist == youtube_playlist::playlist_url(query@),
    ensures
        request_outcome(request) == resolved_request(query@, lookup, requested_by),
        request matches Ok(request) ==> request.playlist_title is Some
            == youtube_playlist::playlist_url(query@),
        match lookup {
            Lookup::Playlist(None) => request matches Err(message) && message@
                == "❌ Could not load that YouTube playlist. It may be private, unavailable, or empty."@,
            Lookup::Playlist(Some(playlist)) => request matches Ok(request) && {
                &&& request.playlist_title matches Some(title) && title@ == playlist.title@
                &&& request.tracks@.len() == playlist.tracks@.len()
                &&& forall|i: int|
                    0 <= i < request.tracks@.len() ==> {
                        &&& (#[trigger] request.tracks@[i]).title@ == playlist.tracks@[i].title@
                        &&& request.tracks@[i].url@ == playlist.tracks@[i].url@
                        &&& request.tracks@[i].requested_by == requested_by
                        &&& request.tracks@[i].playback_id is None
                    }
            },
            Lookup::Single(None) => request matches Err(message) && message@
                == "❌ Could not find `"@ + query@
                + "`. The link may be private, geo-blocked, or invalid."@,
            Lookup::Single(Some(metadata)) => request matches Ok(request) && {
                &&& request.playlist_title is None
                &&& request.tracks@.len() == 1
                &&& request.tracks@[0].title@ == match metadata.title {
                    Some(title) => title@,
                    None => query@,
                }
                &&& metadata.source_url matches Some(url) ==> url@.len() > 0
                    ==> request.tracks@[0].url@ == url@
                &&& request.tracks@[0].requested_by == requested_by
                &&& request.tracks@[0].playback_id is None
            },
        },
{
    match lookup {
        Lookup::Playlist(None) => Err(
            "❌ Could not load that YouTube playlist. It may be private, unavailable, or empty.".to_owned(),
        ),
        Lookup::Playlist(Some(playlist)) => {
            let ghost videos = playlist.tracks@;
            let mut tracks: Vec<Track> = Vec::new();
            for video in it: playlist.tracks
                invariant
                    it.seq() == videos,
                    tracks.len() == it.index(),
                    forall|j: int|
                        0 <= j < tracks.len() ==> (#[trigger] tracks@[j])@ == (TrackView {
                            title: videos[j].title@,
                            url: videos[j].url@,
                            requested_by,
                            playback_id: None,
                        }),
            {
                tracks.push(
                    Track {
                        title: video.title,
                        url: video.url,
                        requested_by,
                        playback_id: None,
                    },
                );
            }
            assert(track_views(tracks@) =~= playlist_tracks(playlist, requested_by));
            Ok(ResolvedPlayRequest { tracks, playlist_title: Some(playlist.title) })
        },
        Lookup::Single(metadata) => match resolve_track(query, metadata, requested_by) {
            Ok(track) => {
                let mut tracks: Vec<Track> = Vec::new();
                tracks.push(track);
                assert(track_views(tracks@) =~= seq![track@]);
                Ok(ResolvedPlayRequest { tracks, playlist_title: None })
            },
            Err(message) => Err(message),
        },
    }
}

/// A predefined playlist that is being resolved entry by entry, before anything is queued.
#[derive(Debug)]
pub struct PlaylistResolution {
    playlist: Playlist,
    requested_by: Option<UserId>,
    tracks: Vec<Track>,
}

/// The playlist, who asked for it, and the tracks of its first entries.
#[verifier::ext_equal]
pub struct ResolutionView {
    pub playlist: PlaylistView,
    pub requested_by: Option<UserId>,
    pub tracks: Seq<TrackView>,
}

impl View for PlaylistResolution {
    type V = ResolutionView;

    closed spec fn view(&self) -> ResolutionView {
        ResolutionView {
            playlist: self.playlist@,
            requested_by: self.requested_by,
            tracks: track_views(self.tracks@),
        }
    }
}

/// What comes next in resolving a playlist.
#[derive(Debug)]
pub enum ResolutionStep {
    /// Look this query up at its source.
    Lookup { query: String, source_url: String },
    /// Give up, and say this.
    Refuse { message: String },
    /// Every entry is resolved.
    Finish,
}

/// The text of a step.
#[verifier::ext_equal]
pub enum StepView {
    Lookup { query: Seq<char>, source_url: Seq<char> },
    Refuse { message: Seq<char> },
    Finish,
}

impl View for ResolutionStep {
    type V = StepView;

    open spec fn view(&self) -> StepView {
        match *self {
            ResolutionStep::Lookup { query, source_url } => StepView::Lookup {
                query: query@,
                source_url: source_url@,
            },
            ResolutionStep::Refuse { message } => StepView::Refuse { message: message@ },
            ResolutionStep::Finish => StepView::Finish,
        }
    }
}

/// What is said of an entry that is itself a YouTube playlist.
pub open spec fn not_single_text(playlist: Seq<char>, entry: EntryView) -> Seq<char> {
    "❌ Playlist `"@ + playlist + "` line "@ + text::decimal(entry.line_number)
        + " must be a single song or URL, not a YouTube playlist. Nothing was queued."@
}

/// What is said of an entry that was not found.
pub open spec fn unresolved_text(playlist: Seq<char>, entry: EntryView) -> Seq<char> {
    "❌ Could not resolve playlist `"@ + playlist + "` line "@ + text::decimal(entry.line_number)
        + ". Nothing was queued."@
}

impl ResolutionView {
    /// A playlist none of whose entries is resolved yet.
    pub open spec fn begun(playlist: PlaylistView, requested_by: Option<UserId>) -> Self {
        ResolutionView { playlist, requested_by, tracks: seq![] }
    }

    /// No more tracks than entries.
    pub open spec fn well_formed(self) -> bool {
        self.tracks.len() <= self.playlist.entries.len()
    }

    /// The entry that comes next.
    pub open spec fn entry(self) -> EntryView {
        self.playlist.entries[self.tracks.len() as int]
    }

    /// What comes next: an entry that is itself a playlist is refused, any other is looked up.
    pub open spec fn next_step(self) -> StepView {
        if self.tracks.len() >= self.playlist.entries.len() {
            StepView::Finish
        } else if youtube_playlist::playlist_url(self.entry().query) {
            StepView::Refuse { message: not_single_text(self.playlist.name, self.entry()) }
        } else {
            StepView::Lookup { query: self.entry().query, source_url: lookup_url(
                self.entry().query,
            ) }
        }
    }

    /// One more entry is resolved.
    pub open spec fn recorded(self, metadata: MetadataView) -> Self {
        ResolutionView {
            tracks: self.tracks.push(
                resolved_track(self.entry().query, metadata, self.requested_by),
            ),
            ..self
        }
    }

    /// The request that a resolved playlist makes.
    pub open spec fn request(self) -> RequestView {
        RequestView { tracks: self.tracks, playlist_title: Some(self.playlist.name) }
    }

    /// Where resolving ends if the lookups that are made find `lookups`, in order.
    pub open spec fn resolved_with(self, lookups: Seq<Option<MetadataView>>) -> Result<
        RequestView,
        Seq<char>,
    >
        decreases self.playlist.entries.len() - self.tracks.len(),
    {
        match self.next_step() {
            StepView::Finish => Ok(self.request()),
            StepView::Refuse { message } => Err(message),
            StepView::Lookup { .. } => match lookups[self.tracks.len() as int] {
                None => Err(unresolved_text(self.playlist.name, self.entry())),
                Some(metadata) => self.recorded(metadata).resolved_with(lookups),
            },
        }
    }
}

impl PlaylistResolution {
    #[verifier::type_invariant]
    closed spec fn inv(&self) -> bool {
        self.tracks@.len() <= self.playlist.entries@.len()
    }

    /// Begins to resolve every entry in one predefined text playlist.
    pub fn new(playlist: &Playlist, requested_by: Option<UserId>) -> (resolution: Self)
        ensures
            resolution@ == ResolutionView::begun(playlist@, requested_by),
            resolution@.well_formed(),
            resolution@.tracks.len() == 0,
            resolution@.requested_by == requested_by,
            resolution@.playlist.name == playlist.name@,
            resolution@.playlist.entries.len() == playlist.entries@.len(),
            forall|i: int|
                0 <= i < playlist.entries@.len() ==> (#[trigger] playlist.entries@[i]).query@
                    == resolution@.playlist.entries[i].query && playlist.entries@[i].line_number
                    == resolution@.playlist.entries[i].line_number,
    {
        let resolution = PlaylistResolution {
            playlist: playlist.clone(),
            requested_by,
            tracks: Vec::new(),
        };
        assert(track_views(resolution.tracks@) =~= seq![]);
        resolution
    }

    /// What comes next.
    pub fn next_step(&self) -> (step: ResolutionStep)
        ensures
            self@.well_formed(),
            step@ == self@.next_step(),
            step is Finish == (self@.tracks.len() == self@.playlist.entries.len()),
            step is Refuse == (self@.tracks.len() < self@.playlist.entries.len()
                && youtube_playlist::playlist_url(
                self@.playlist.entries[self@.tracks.len() as int].query,
            )),
            step matches ResolutionStep::Lookup { query, source_url } ==> {
                &&& query@ == self@.playlist.entries[self@.tracks.len() as int].query
                &&& source_url@ == if "http://"@.is_prefix_of(query@) || "https://"@.is_prefix_of(
                    query@,
                ) {
                    query@
                } else {
                    "ytsearch1:"@ + query@
                }
            },
            step matches ResolutionStep::Refuse { message } ==> message@ == "❌ Playlist `"@
                + self@.playlist.name + "` line "@ + text::decimal(
                self@.playlist.entries[self@.tracks.len() as int].line_number,
            ) + " must be a single song or URL, not a YouTube playlist. Nothing was queued."@,
    {
        proof {
            use_type_invariant(self);
        }
        let i = self.tracks.len();
        if i == self.playlist.entries.len() {
            return ResolutionStep::Finish;
        }
        let entry = &self.playlist.entries[i];
        assert(self@.entry() == entry@);
        if youtube_playlist::is_youtube_playlist_url(entry.query.as_str()) {
            return ResolutionStep::Refuse {
                message: text::concat5(
                    "❌ Playlist `",
                    self.playlist.name.as_str(),
                    "` line ",
                    text::decimal_text(entry.line_number as u64).as_str(),
                    " must be a single song or URL, not a YouTube playlist. Nothing was queued.",
                ),
            };
        }
        ResolutionStep::Lookup {
            query: entry.query.clone(),
            source_url: source_url(entry.query.as_str()),
        }
    }

    /// Records what was found for the entry that comes next. Where nothing was, says what to
    /// reply.
    pub fn record(self, metadata: Option<TrackMetadata>) -> (result: Result<Self, String>)
        requires
            self@.next_step() is Lookup,
        ensures
            match metadata {
                Some(metadata) => result matches Ok(next) && next@ == self@.recorded(metadata@)
                    && next@.well_formed(),
                None => result matches Err(message) && message@ == unresolved_text(
                    self@.playlist.name,
                    self@.entry(),
                ),
            },
            result matches Ok(next) ==> {
                let entry = self@.playlist.entries[self@.tracks.len() as int];
                let track = next@.tracks.last();
                &&& next@.playlist == self@.playlist
                &&& next@.requested_by == self@.requested_by
                &&& next@.tracks.len() == self@.tracks.len() + 1
                &&& next@.tracks.drop_last() == self@.tracks
                &&& track.title == match metadata->Some_0.title {
                    Some(title) => title@,
                    None => entry.query,
                }
                &&& metadata->Some_0.source_url matches Some(url) ==> url@.len() > 0 ==> track.url
                    == url@
                &&& (metadata->Some_0.source_url matches Some(url) ==> url@.len() == 0) ==> track.url
                    == if "http://"@.is_prefix_of(entry.query) || "https://"@.is_prefix_of(
                    entry.query,
                ) {
                    entry.query
                } else {
                    "ytsearch1:"@ + entry.query
                }
                &&& track.requested_by == self@.requested_by
                &&& track.playback_id is None
            },
            result matches Err(message) ==> message@ == "❌ Could not resolve playlist `"@
                + self@.playlist.name + "` line "@ + text::decimal(
                self@.playlist.entries[self@.tracks.len() as int].line_number,
            ) + ". Nothing was queued."@,
    {
        proof {
            use_type_invariant(&self);
        }
        let PlaylistResolution { playlist, requested_by, tracks } = self;
        let mut tracks = tracks;
        let i = tracks.len();
        let entry = &playlist.entries[i];
        assert(self@.entry() == entry@);
        match resolve_track(entry.query.as_str(), metadata, requested_by) {
            Ok(track) => {
                tracks.push(track);
                let next = PlaylistResolution { playlist, requested_by, tracks };
                assert(next@.tracks =~= self@.tracks.push(track@));
                Ok(next)
            },
            Err(_) => Err(
                text::concat5(
                    "❌ Could not resolve playlist `",
                    playlist.name.as_str(),
                    "` line ",
                    text::decimal_text(entry.line_number as u64).as_str(),
                    ". Nothing was queued.",
                ),
            ),
        }
    }

    /// The request, once every entry is resolved.
    pub fn finish(self) -> (request: ResolvedPlayRequest)
        requires
            self@.next_step() is Finish,
        ensures
            request@ == self@.request(),
            request.playlist_title matches Some(title) && title@ == self@.playlist.name,
            request.tracks@.len() == self@.tracks.len(),
            forall|i: int|
                0 <= i < request.tracks@.len() ==> {
                    &&& (#[trigger] request.tracks@[i]).title@ == self@.tracks[i].title
                    &&& request.tracks@[i].url@ == self@.tracks[i].url
                    &&& request.tracks@[i].requested_by == self@.tracks[i].requested_by
                    &&& request.tracks@[i].playback_id is Some == self@.tracks[i].playback_id is Some
                },
    {
        assert forall|i: int| 0 <= i < self.tracks@.len() implies (#[trigger] self.tracks@[i])@
            == self@.tracks[i] by {
            assert(track_views(self.tracks@)[i] == self.tracks@[i]@);
        }
        ResolvedPlayRequest { tracks: self.tracks, playlist_title: Some(self.playlist.name) }
    }
}

/// Whether the entry at `i` can be queued: it is not itself a playlist, and it was found.
pub open spec fn entry_resolves(
    playlist: PlaylistView,
    lookups: Seq<Option<MetadataView>>,
    i: int,
) -> bool {
    !youtube_playlist::playlist_url(playlist.entries[i].query) && lookups[i] is Some
}

/// Whether the entry at `k` is the first that cannot be queued.
pub open spec fn is_first_unresolved(
    playlist: PlaylistView,
    lookups: Seq<Option<MetadataView>>,
    k: int,
) -> bool {
    &&& 0 <= k < playlist.entries.len()
    &&& !entry_resolves(playlist, lookups, k)
    &&& forall|i: int| 0 <= i < k ==> #[trigger] entry_resolves(playlist, lookups, i)
}

/// What is said of an entry that cannot be queued, by its line in the file.
pub open spec fn refusal_text(playlist: PlaylistView, k: int) -> Seq<char> {
    let entry = playlist.entries[k];
    if youtube_playlist::playlist_url(entry.query) {
        not_single_text(playlist.name, entry)
    } else {
        unresolved_text(playlist.name, entry)
    }
}

/// Whether `result` holds the tracks of all entries, in the order of the file and under the
/// playlist's name, or, where an entry cannot be queued, what is said of the first such entry.
pub open spec fn all_or_nothing(
    playlist: PlaylistView,
    requested_by: Option<UserId>,
    lookups: Seq<Option<MetadataView>>,
    result: Result<RequestView, Seq<char>>,
) -> bool {
    &&& result is Ok == forall|i: int|
        0 <= i < playlist.entries.len() ==> #[trigger] entry_resolves(playlist, lookups, i)
    &&& result matches Ok(request) ==> {
        &&& request.playlist_title == Some(playlist.name)
        &&& request.tracks.len() == playlist.entries.len()
        &&& forall|i: int|
            0 <= i < request.tracks.len() ==> #[trigger] request.tracks[i] == resolved_track(
                playlist.entries[i].query,
                lookups[i]->Some_0,
                requested_by,
            )
    }
    &&& forall|k: int| #[trigger]
        is_first_unresolved(playlist, lookups, k) ==> result == Err::<RequestView, Seq<char>>(
            refusal_text(playlist, k),
        )
}

/// Every entry of a predefined playlist must resolve, or nothing is queued. What is queued are the
/// entries' tracks, in the order of the file, under the playlist's name. What is said instead
/// names the line of the first entry that is itself a playlist or was not found.
pub proof fn predefined_playlist_is_all_or_nothing(
    playlist: PlaylistView,
    requested_by: Option<UserId>,
    lookups: Seq<Option<MetadataView>>,
)
    ensures
        all_or_nothing(
            playlist,
            requested_by,
            lookups,
            ResolutionView::begun(playlist, requested_by).resolved_with(lookups),
        ),
{
    resolved_from(ResolutionView::begun(playlist, requested_by), lookups);
}

proof fn resolved_from(state: ResolutionView, lookups: Seq<Option<MetadataView>>)
    requires
        state.well_formed(),
        forall|i: int|
            0 <= i < state.tracks.len() ==> #[trigger] entry_resolves(state.playlist, lookups, i),
        forall|i: int|
            0 <= i < state.tracks.len() ==> #[trigger] state.tracks[i] == resolved_track(
                state.playlist.entries[i].query,
                lookups[i]->Some_0,
                state.requested_by,
            ),
    ensures
        all_or_nothing(
            state.playlist,
            state.requested_by,
            lookups,
            state.resolved_with(lookups),
        ),
    decreases state.playlist.entries.len() - state.tracks.len(),
{
    let n = state.tracks.len() as int;
    if n < state.playlist.entries.len() {
        assert(state.entry() == state.playlist.entries[n]);
        if entry_resolves(state.playlist, lookups, n) {
            resolved_from(state.recorded(lookups[n]->Some_0), lookups);
        } else {
            assert(is_first_unresolved(state.playlist, lookups, n));
            assert forall|k: int| #[trigger]
                is_first_unresolved(state.playlist, lookups, k) implies k == n by {
                if k < n {
                    assert(entry_resolves(state.playlist, lookups, k));
                } else if n < k {
                    assert(entry_resolves(state.playlist, lookups, n));
                }
            }
        }
    }
}

/// A track has the title that was found, for every query, and the query only where none was. It
/// streams from the source that was found, or from what was looked up where none was.
pub proof fn found_metadata_is_kept(
    query: Seq<char>,
    metadata: MetadataView,
    requested_by: Option<UserId>,
)
    ensures
        ({
            let track = resolved_track(query, metadata, requested_by);
            &&& metadata.title matches Some(title) ==> track.title == title
            &&& metadata.title is None ==> track.title == query
            &&& metadata.source_url matches Some(url) ==> url.len() > 0 ==> track.url == url
            &&& (metadata.source_url matches Some(url) ==> url.len() == 0) ==> track.url
                == lookup_url(query)
            &&& track.requested_by == requested_by
            &&& track.playback_id is None
        }),
{
}

/// A web address is looked up as it is; anything else is searched for, and no two different
/// searches are the same lookup.
pub proof fn searches_are_told_apart(query: Seq<char>, other: Seq<char>, rest: Seq<char>)
    ensures
        lookup_url("https://"@ + rest) == "https://"@ + rest,
        lookup_url("http://"@ + rest) == "http://"@ + rest,
        !("http://"@.is_prefix_of(query) || "https://"@.is_prefix_of(query)) ==> lookup_url(query)
            == "ytsearch1:"@ + query,
        url_text(query) == url_text(other) && lookup_url(query) == lookup_url(other) ==> query
            == other,
{
    text::stripping_undoes_prefixing(rest, "https://"@);
    text::stripping_undoes_prefixing(rest, "http://"@);
    text::stripping_undoes_prefixing(query, "ytsearch1:"@);
    text::stripping_undoes_prefixing(other, "ytsearch1:"@);
}

/// A YouTube playlist is queued whole and in its order, under its title; a single find is queued
/// alone and under none; what was not found is not queued.
pub proof fn finds_are_queued_whole(query: Seq<char>, lookup: Lookup, requested_by: Option<UserId>)
    ensures
        resolved_request(query, lookup, requested_by) is Ok == (lookup matches Lookup::Playlist(
            Some(_),
        ) || lookup matches Lookup::Single(Some(_))),
        lookup matches Lookup::Playlist(Some(playlist)) ==> (resolved_request(
            query,
            lookup,
            requested_by,
        ) matches Ok(request) && {
            &&& request.playlist_title == Some(playlist.title@)
            &&& request.tracks.len() == playlist.tracks@.len()
            &&& forall|i: int|
                0 <= i < playlist.tracks@.len() ==> (#[trigger] playlist.tracks@[i]).title@
                    == request.tracks[i].title && playlist.tracks@[i].url@ == request.tracks[i].url
        }),
        lookup matches Lookup::Single(Some(_)) ==> (resolved_request(
            query,
            lookup,
            requested_by,
        ) matches Ok(request) && request.tracks.len() == 1 && request.playlist_title is None),
{
}

/// Whether every track of a request was asked for by `requested_by`.
pub open spec fn asked_for_by(request: RequestView, requested_by: Option<UserId>) -> bool {
    forall|i: int|
        0 <= i < request.tracks.len() ==> (#[trigger] request.tracks[i]).requested_by
            == requested_by
}

/// Every track that is found for a request carries the one who asked: a single track, the videos
/// of a YouTube playlist, and the entries of a predefined playlist.
pub proof fn tracks_name_who_asked(
    query: Seq<char>,
    lookup: Lookup,
    playlist: PlaylistView,
    lookups: Seq<Option<MetadataView>>,
    requested_by: Option<UserId>,
)
    ensures
        resolved_request(query, lookup, requested_by) matches Ok(request) ==> asked_for_by(
            request,
            requested_by,
        ),
        ResolutionView::begun(playlist, requested_by).resolved_with(lookups) matches Ok(request)
            ==> asked_for_by(request, requested_by),
{
    predefined_playlist_is_all_or_nothing(playlist, requested_by, lookups);
}

/// The tracks with the playback ids that the voice driver gave them.
pub open spec fn with_playback_ids(tracks: Seq<Track>, ids: Seq<String>) -> Seq<Track> {
    Seq::new(tracks.len(), |i: int| Track { playback_id: Some(ids[i]), ..tracks[i] })
}

/// Queued tracks keep their order, their text and their requesters, and carry the driver's ids.
pub proof fn queued_tracks_carry_ids(tracks: Seq<Track>, ids: Seq<String>)
    requires
        tracks.len() == ids.len(),
    ensures
        playback::carry_ids(with_playback_ids(tracks, ids), playlists::texts(ids)),
        forall|i: int|
            0 <= i < tracks.len() ==> {
                let queued = #[trigger] with_playback_ids(tracks, ids)[i];
                &&& queued.title == tracks[i].title
                &&& queued.url == tracks[i].url
                &&& queued.requested_by == tracks[i].requested_by
            },
{
}

/// Mirror in a guild's state, in the same order, a resolved batch that was appended to the voice
/// driver's queue. `playback_ids` are the ids that the driver gave the tracks.
pub fn enqueue_resolved_request(
    state: &mut GuildMusicState,
    request: &ResolvedPlayRequest,
    playback_ids: Vec<String>,
    was_idle: bool,
)
    requires
        playback_ids@.len() == request.tracks@.len(),
    ensures
        final(state)@ == old(state)@.enqueued_batch(
            with_playback_ids(request.tracks@, playback_ids@),
            was_idle,
        ),
        final(state).preplay_url == old(state).preplay_url,
        !was_idle ==> final(state).current == old(state).current,
        !was_idle ==> final(state).preplay_active == old(state).preplay_active,
        was_idle ==> !final(state).preplay_active,
        was_idle && request.tracks@.len() == 0 ==> final(state).current is None,
        was_idle && request.tracks@.len() > 0 ==> final(state).current == Some(
            Track { playback_id: Some(playback_ids@[0]), ..request.tracks@[0] },
        ),
        ({
            let first: int = if was_idle && request.tracks@.len() > 0 {
                1
            } else {
                0
            };
            let n = old(state).queue@.len();
            &&& final(state).queue@.len() == n + request.tracks@.len() - first
            &&& forall|i: int|
                0 <= i < n ==> #[trigger] final(state).queue@[i] == old(state).queue@[i]
            &&& forall|i: int|
                n <= i < final(state).queue@.len() ==> #[trigger] final(state).queue@[i] == (Track {
                    playback_id: Some(playback_ids@[i - n + first]),
                    ..request.tracks@[i - n + first]
                })
        }),
{
    let mut queued: Vec<Track> = Vec::new();
    for id in it: playback_ids
        invariant
            it.seq() == playback_ids@,
            playback_ids@.len() == request.tracks@.len(),
            queued.len() == it.index(),
            forall|j: int|
                0 <= j < queued.len() ==> #[trigger] queued@[j] == (Track {
                    playback_id: Some(playback_ids@[j]),
                    ..request.tracks@[j]
                }),
    {
        let mut track = request.tracks[queued.len()].clone();
        track.playback_id = Some(id);
        queued.push(track);
    }
    assert(queued@ =~= with_playback_ids(request.tracks@, playback_ids@));
    state.enqueue_batch(queued, was_idle);
}

/// What is said when a request was queued.
pub open spec fn request_embed(request: RequestView, was_idle: bool, user: UserId) -> EmbedView {
    let mention = "Requested by <@"@ + text::decimal(user@ as nat) + ">"@;
    let first = request.tracks[0].title;
    let footer = "Bobby TaBot"@;
    match (request.playlist_title, was_idle) {
        (Some(playlist_title), true) => EmbedView {
            title: "🎵 Now Playing"@,
            description: "**"@ + first + "**\nPlaylist: **"@ + playlist_title + "**\n"@
                + text::decimal((request.tracks.len() - 1) as nat) + " more track(s) queued\n"@
                + mention,
            colour: NOW_PLAYING_COLOUR,
            footer,
        },
        (Some(playlist_title), false) => EmbedView {
            title: "➕ Playlist Added to Queue"@,
            description: "**"@ + playlist_title + "**\n"@ + text::decimal(request.tracks.len())
                + " track(s) added\n"@ + mention,
            colour: QUEUED_COLOUR,
            footer,
        },
        (None, true) => EmbedView {
            title: "🎵 Now Playing"@,
            description: "**"@ + first + "**\n"@ + mention,
            colour: NOW_PLAYING_COLOUR,
            footer,
        },
        (None, false) => EmbedView {
            title: "➕ Added to Queue"@,
            description: "**"@ + first + "**\n"@ + mention,
            colour: QUEUED_COLOUR,
            footer,
        },
    }
}

/// The reply to a request that was queued. A resolved request holds at least one track.
pub fn reply_for_request(request: &ResolvedPlayRequest, was_idle: bool, user: UserId) -> (reply:
    Reply)
    requires
        request.tracks@.len() > 0,
    ensures
        reply@ == ReplyView::EditEmbed(request_embed(request@, was_idle, user)),
        reply matches Reply::EditEmbed(embed) && {
            let by = "Requested by <@"@ + text::decimal(user@ as nat) + ">"@;
            let first = request.tracks@[0].title@;
            let count = request.tracks@.len();
            &&& embed.footer@ == "Bobby TaBot"@
            &&& embed.colour == if was_idle {
                0x57F287u32
            } else {
                0x5865F2u32
            }
            &&& match (request.playlist_title, was_idle) {
                (Some(title), true) => embed.title@ == "🎵 Now Playing"@ && embed.description@
                    == "**"@ + first + "**\nPlaylist: **"@ + title@ + "**\n"@ + text::decimal(
                    (count - 1) as nat,
                ) + " more track(s) queued\n"@ + by,
                (Some(title), false) => embed.title@ == "➕ Playlist Added to Queue"@
                    && embed.description@ == "**"@ + title@ + "**\n"@ + text::decimal(count)
                    + " track(s) added\n"@ + by,
                (None, true) => embed.title@ == "🎵 Now Playing"@ && embed.description@ == "**"@
                    + first + "**\n"@ + by,
                (None, false) => embed.title@ == "➕ Added to Queue"@ && embed.description@ == "**"@
                    + first + "**\n"@ + by,
            }
        },
{
    let first = &request.tracks[0];
    assert(request@.tracks[0] == first@);
    let mention = text::concat3(
        "Requested by <@",
        text::decimal_text(user.get()).as_str(),
        ">",
    );
    let count = request.tracks.len();
    let (title, mut description, colour): (&str, String, u32) = match (
        &request.playlist_title,
        was_idle,
    ) {
        (Some(playlist_title), true) => {
            let mut description = text::concat5(
                "**",
                first.title.as_str(),
                "**\nPlaylist: **",
                playlist_title.as_str(),
                "**\n",
            );
            description.append(text::decimal_text((count - 1) as u64).as_str());
            description.append(" more track(s) queued\n");
            ("🎵 Now Playing", description, NOW_PLAYING_COLOUR)
        },
        (Some(playlist_title), false) => (
            "➕ Playlist Added to Queue",
            text::concat5(
                "**",
                playlist_title.as_str(),
                "**\n",
                text::decimal_text(count as u64).as_str(),
                " track(s) added\n",
            ),
            QUEUED_COLOUR,
        ),
        (None, true) => (
            "🎵 Now Playing",
            text::concat3("**", first.title.as_str(), "**\n"),
            NOW_PLAYING_COLOUR,
        ),
        (None, false) => (
            "➕ Added to Queue",
            text::concat3("**", first.title.as_str(), "**\n"),
            QUEUED_COLOUR,
        ),
    };
    description.append(mention.as_str());
    Reply::EditEmbed(
        Embed { title: title.to_owned(), description, colour, footer: "Bobby TaBot".to_owned() },
    )
}

/// What to do when a track ends.
#[derive(Debug)]
pub enum TrackEnd {
    /// The track was not the current one: it was removed from the queue. Change nothing.
    Ignore,
    /// Go on to the next track.
    Advance,
    /// A pre-play clip may come first: ask the voice driver whether it has a next track.
    ConsiderPreplay { preplay_url: String, roll: u8 },
}

/// What to do when the track `playback_id` ends, with this roll of the dice.
pub open spec fn track_end(music: Music, playback_id: Seq<char>, roll: u8) -> TrackEnd {
    if !music.is_current(playback_id) {
        TrackEnd::Ignore
    } else {
        match music.preplay_url {
            Some(preplay_url) if music.queue.len() > 0 => TrackEnd::ConsiderPreplay {
                preplay_url,
                roll,
            },
            _ => TrackEnd::Advance,
        }
    }
}

/// A number below `end`, drawn at random.
///
/// `rand::Rng::random_range` on the generator that `rand::rng` gives, over the range from 0 up to
/// but not including `end`: the contract claims that the number lies in the range, and nothing
/// else of it. The range must not be empty.
#[verifier::external_body]
fn random_below(end: u8) -> (roll: u8)
    requires
        end > 0,
    ensures
        roll < end,
{
    rand::rng().random_range(0..end)
}

/// Decide what to do when the track `playback_id` ends.
pub fn decide_track_end(state: &GuildMusicState, playback_id: &str, roll: u8) -> (step: TrackEnd)
    ensures
        step == track_end(state@, playback_id@, roll),
        ({
            let is_current = state.current matches Some(track) && (track.playback_id matches Some(id)
                && id@ == playback_id@);
            &&& step is Ignore == !is_current
            &&& step is ConsiderPreplay == (is_current && state.preplay_url is Some
                && state.queue@.len() > 0)
            &&& step matches TrackEnd::ConsiderPreplay { preplay_url, roll: rolled } ==> Some(
                preplay_url,
            ) == state.preplay_url && rolled == roll
        }),
{
    if !state.is_current_playback(playback_id) {
        return TrackEnd::Ignore;
    }
    match &state.preplay_url {
        Some(url) => if state.queue.len() > 0 {
            TrackEnd::ConsiderPreplay { preplay_url: url.clone(), roll }
        } else {
            TrackEnd::Advance
        },
        None => TrackEnd::Advance,
    }
}

/// Decide what to do when the track `playback_id` ends, with a fresh roll of the dice: one of the
/// hundred numbers below 100.
pub fn track_ended(state: &GuildMusicState, playback_id: &str) -> (step: TrackEnd)
    ensures
        exists|roll: u8|
            roll < preplay::MAX_CHANCE_PERCENT && step == #[trigger] track_end(
                state@,
                playback_id@,
                roll,
            ),
{
    let roll: u8 = random_below(preplay::MAX_CHANCE_PERCENT);
    let step = decide_track_end(state, playback_id, roll);
    assert(step == track_end(state@, playback_id@, roll));
    step
}

/// Whether to insert a pre-play clip, with `driver_len` entries in the voice driver's queue, the
/// track that ends among them. Without a call there is no queue and no clip.
pub fn should_insert_preplay(driver_len: Option<usize>, chance_percent: u8, roll: u8) -> (insert:
    bool)
    ensures
        insert == match driver_len {
            Some(len) => preplay::inserts_clip(true, true, len > 1, chance_percent, roll),
            None => false,
        },
        insert == (driver_len matches Some(len) && len > 1 && roll < chance_percent),
{
    match driver_len {
        Some(len) => preplay::transition_should_insert(true, true, len > 1, chance_percent, roll),
        None => false,
    }
}

/// The state after its current track has ended.
pub open spec fn after_track(music: Music, preplay_inserted: bool) -> Music {
    if preplay_inserted && music.queue.len() > 0 {
        music.preplay_begun()
    } else {
        music.advanced()
    }
}

/// Go on after the current track has ended: to the pre-play clip if one was inserted, and
/// otherwise to the next track.
pub fn finish_track(state: &mut GuildMusicState, preplay_inserted: bool)
    ensures
        final(state)@ == after_track(old(state)@, preplay_inserted),
        final(state).preplay_url == old(state).preplay_url,
        final(state).preplay_active == (preplay_inserted && old(state).queue@.len() > 0),
        preplay_inserted && old(state).queue@.len() > 0 ==> final(state).current is None && final(state).queue@ == old(state).queue@,
        !preplay_inserted && old(state).queue@.len() > 0 ==> final(state).current == Some(
            old(state).queue@[0],
        ) && final(state).queue@ == old(state).queue@.skip(1),
        old(state).queue@.len() == 0 ==> final(state).current is None && final(state).queue@.len() == 0,
{
    if !preplay_inserted || !state.begin_preplay() {
        state.advance();
    }
}

/// A track that ends because it was taken out of the queue changes nothing.
pub proof fn removed_track_is_ignored(
    playback: Seq<Seq<char>>,
    music: Music,
    index: int,
    roll: u8,
)
    requires
        playback::mirrors(playback, music),
        playback.no_duplicates(),
        0 < index < playback.len(),
    ensures
        track_end(music, playback[index], roll) is Ignore,
{
    playback::upcoming_is_not_current(playback, music, index);
}

/// When the current track ends and the driver goes on, to an inserted clip or to the next track,
/// the state goes on with it. A clip is only inserted where a next track waits.
pub proof fn track_end_keeps_mirror(
    playback: Seq<Seq<char>>,
    music: Music,
    clip: Seq<char>,
    roll: u8,
    preplay_inserted: bool,
)
    requires
        playback::mirrors(playback, music),
        playback.len() > 0,
        preplay_inserted ==> track_end(music, playback[0], roll) is ConsiderPreplay,
    ensures
        playback::mirrors(
            if preplay_inserted {
                playback.insert(1, clip).skip(1)
            } else {
                playback.skip(1)
            },
            after_track(music, preplay_inserted),
        ),
{
    if preplay_inserted {
        playback::preplay_keeps_mirror(playback, music, clip);
    } else {
        playback::advance_keeps_mirror(playback, music);
    }
}

/// A guild without a pre-play URL goes from track to track; so does every guild at a chance of
/// 0 percent.
pub proof fn no_preplay_without_url_or_chance(
    music: Music,
    playback_id: Seq<char>,
    roll: u8,
    driver_len: usize,
)
    ensures
        music.preplay_url is None ==> !(track_end(music, playback_id, roll) is ConsiderPreplay),
        !preplay::inserts_clip(true, true, driver_len > 1, 0, roll),
{
}

}
