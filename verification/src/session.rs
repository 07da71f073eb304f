//! The order of the steps from a request to its tracks in the queue.
//!
//! A request of `/play`, `/playlist` or the dashboard goes step by step. Each step says what to do
//! next, and what came of it decides the step that follows.

use vstd::prelude::*;

use crate::commands::guild_state::UserId;
use crate::commands::play;
use crate::commands::play::{
    CommandOption, PlayTarget, Reply, ReplyView, RequestView, ResolvedPlayRequest, TargetView,
};
use crate::commands::playlist;
use crate::playlists;
use crate::playlists::{ErrorView, Playlist, PlaylistError, PlaylistView};
use crate::text;
use crate::web;
use crate::web::{ApiError, ApiErrorView, ApiStatus, Connection};

verus! {

/// What came of a step.
#[derive(Debug)]
pub enum Outcome {
    /// The playlist was loaded, or why not.
    Loaded(Result<Playlist, PlaylistError>),
    /// The tracks were found, or what to say.
    Resolved(Result<ResolvedPlayRequest, String>),
    /// Whether the bot is in a voice channel.
    Connected(bool),
    /// Whether the voice channel was joined.
    Joined(bool),
    /// The tracks were queued; whether nothing played before.
    Enqueued { was_idle: bool },
}

/// The text of what came of a step.
#[verifier::ext_equal]
pub enum OutcomeView {
    Loaded(Result<PlaylistView, ErrorView>),
    Resolved(Result<RequestView, Seq<char>>),
    Connected(bool),
    Joined(bool),
    Enqueued { was_idle: bool },
}

impl View for Outcome {
    type V = OutcomeView;

    open spec fn view(&self) -> OutcomeView {
        match *self {
            Outcome::Loaded(result) => OutcomeView::Loaded(playlists::outcome(result)),
            Outcome::Resolved(result) => OutcomeView::Resolved(play::request_outcome(result)),
            Outcome::Connected(connected) => OutcomeView::Connected(connected),
            Outcome::Joined(joined) => OutcomeView::Joined(joined),
            Outcome::Enqueued { was_idle } => OutcomeView::Enqueued { was_idle },
        }
    }
}

/// Whether loading or resolving failed.
pub open spec fn failed(outcome: OutcomeView) -> bool {
    outcome matches OutcomeView::Loaded(Err(_)) || outcome matches OutcomeView::Resolved(Err(_))
}

/// Whether the outcome at `i` is this one.
pub open spec fn came_at(outcomes: Seq<OutcomeView>, outcome: OutcomeView, i: int) -> bool {
    0 <= i < outcomes.len() && outcomes[i] == outcome
}

/// Whether these tracks were found, at some point.
pub open spec fn was_resolved(outcomes: Seq<OutcomeView>, request: RequestView) -> bool {
    exists|i: int| came_at(outcomes, OutcomeView::Resolved(Ok(request)), i)
}

/// Whether these tracks were found, and later this outcome came.
pub open spec fn resolved_before(
    outcomes: Seq<OutcomeView>,
    request: RequestView,
    later: OutcomeView,
) -> bool {
    exists|i: int, j: int|
        i < j && #[trigger] came_at(outcomes, OutcomeView::Resolved(Ok(request)), i)
            && #[trigger] came_at(outcomes, later, j)
}

proof fn outcomes_last(outcomes: Seq<OutcomeView>)
    requires
        outcomes.len() > 0,
    ensures
        forall|outcome: OutcomeView, i: int| #[trigger]
            came_at(outcomes.drop_last(), outcome, i) ==> came_at(outcomes, outcome, i),
        came_at(outcomes, outcomes.last(), outcomes.len() - 1),
{
}

/// What `/play` or `/playlist` does next.
#[derive(Debug)]
pub enum PlayStep {
    /// Defer the response, and load the playlist that the target names.
    Load { target: PlayTarget },
    /// Defer the response, and find the tracks for the target's query.
    Resolve { target: PlayTarget },
    /// Find the tracks of the playlist.
    ResolvePlaylist { target: PlayTarget, playlist: Playlist },
    /// Join the target's voice channel.
    Join { target: PlayTarget, request: ResolvedPlayRequest },
    /// Queue the tracks.
    Enqueue { target: PlayTarget, request: ResolvedPlayRequest },
    /// Send the reply, and be done.
    Reply(Reply),
}

/// The text of a step.
#[verifier::ext_equal]
pub enum PlayStepView {
    Load { target: TargetView },
    Resolve { target: TargetView },
    ResolvePlaylist { target: TargetView, playlist: PlaylistView },
    Join { target: TargetView, request: RequestView },
    Enqueue { target: TargetView, request: RequestView },
    Reply(ReplyView),
}

impl View for PlayStep {
    type V = PlayStepView;

    open spec fn view(&self) -> PlayStepView {
        match *self {
            PlayStep::Load { target } => PlayStepView::Load { target: target@ },
            PlayStep::Resolve { target } => PlayStepView::Resolve { target: target@ },
            PlayStep::ResolvePlaylist { target, playlist } => PlayStepView::ResolvePlaylist {
                target: target@,
                playlist: playlist@,
            },
            PlayStep::Join { target, request } => PlayStepView::Join {
                target: target@,
                request: request@,
            },
            PlayStep::Enqueue { target, request } => PlayStepView::Enqueue {
                target: target@,
                request: request@,
            },
            PlayStep::Reply(reply) => PlayStepView::Reply(reply@),
        }
    }
}

impl PlayStepView {
    /// The first step of `/play`.
    pub open spec fn play(target: Result<TargetView, ReplyView>) -> Self {
        match target {
            Ok(target) => PlayStepView::Resolve { target },
            Err(reply) => PlayStepView::Reply(reply),
        }
    }

    /// The first step of `/playlist`.
    pub open spec fn playlist(target: Result<TargetView, ReplyView>) -> Self {
        match target {
            Ok(target) => PlayStepView::Load { target },
            Err(reply) => PlayStepView::Reply(reply),
        }
    }

    /// The step that follows. A failure ends in its reply. An outcome of some other step changes
    /// nothing.
    pub open spec fn next(self, outcome: OutcomeView, user: UserId) -> Self {
        match (self, outcome) {
            (PlayStepView::Load { target }, OutcomeView::Loaded(Ok(playlist))) => {
                PlayStepView::ResolvePlaylist { target, playlist }
            },
            (PlayStepView::Load { .. }, OutcomeView::Loaded(Err(error))) => PlayStepView::Reply(
                ReplyView::Edit(playlist::user_message(error)),
            ),
            (PlayStepView::Resolve { target }, OutcomeView::Resolved(Ok(request))) => {
                PlayStepView::Join { target, request }
            },
            (
                PlayStepView::ResolvePlaylist { target, .. },
                OutcomeView::Resolved(Ok(request)),
            ) => PlayStepView::Join { target, request },
            (PlayStepView::Resolve { .. }, OutcomeView::Resolved(Err(message))) => {
                PlayStepView::Reply(ReplyView::Edit(message))
            },
            (PlayStepView::ResolvePlaylist { .. }, OutcomeView::Resolved(Err(message))) => {
                PlayStepView::Reply(ReplyView::Edit(message))
            },
            (PlayStepView::Join { target, request }, OutcomeView::Joined(true)) => {
                PlayStepView::Enqueue { target, request }
            },
            (PlayStepView::Join { .. }, OutcomeView::Joined(false)) => PlayStepView::Reply(
                ReplyView::Edit(play::join_failed_text()),
            ),
            (PlayStepView::Enqueue { request, .. }, OutcomeView::Enqueued { was_idle }) => {
                PlayStepView::Reply(
                    ReplyView::EditEmbed(play::request_embed(request, was_idle, user)),
                )
            },
            _ => self,
        }
    }

    /// The step after outcomes, one after the other.
    pub open spec fn after(self, outcomes: Seq<OutcomeView>, user: UserId) -> Self
        decreases outcomes.len(),
    {
        if outcomes.len() == 0 {
            self
        } else {
            self.after(outcomes.drop_last(), user).next(outcomes.last(), user)
        }
    }

    /// Whether the step waits for this outcome.
    pub open spec fn waits_for(self, outcome: OutcomeView) -> bool {
        match outcome {
            OutcomeView::Loaded(_) => self is Load,
            OutcomeView::Resolved(_) => self is Resolve || self is ResolvePlaylist,
            OutcomeView::Joined(_) => self is Join,
            OutcomeView::Enqueued { .. } => self is Enqueue,
            OutcomeView::Connected(_) => false,
        }
    }

    /// The target of a step that is not the last.
    pub open spec fn target(self) -> TargetView
        recommends
            !(self is Reply),
    {
        match self {
            PlayStepView::Load { target } => target,
            PlayStepView::Resolve { target } => target,
            PlayStepView::ResolvePlaylist { target, .. } => target,
            PlayStepView::Join { target, .. } => target,
            PlayStepView::Enqueue { target, .. } => target,
            PlayStepView::Reply(_) => arbitrary(),
        }
    }

    /// How many steps are left at most.
    pub open spec fn steps_left(self) -> nat {
        match self {
            PlayStepView::Load { .. } => 4,
            PlayStepView::Resolve { .. } => 3,
            PlayStepView::ResolvePlaylist { .. } => 3,
            PlayStepView::Join { .. } => 2,
            PlayStepView::Enqueue { .. } => 1,
            PlayStepView::Reply(_) => 0,
        }
    }
}

impl PlayStep {
    /// The first step of `/play`.
    pub fn play(option: CommandOption, guild_id: Option<u64>, channel_id: Option<u64>) -> (step:
        PlayStep)
        ensures
            step@ == PlayStepView::play(
                play::play_target(
                    option,
                    guild_id,
                    channel_id,
                    "❌ Expected a text query."@,
                    "❌ Please provide a song name or URL."@,
                ),
            ),
            match (option, guild_id, channel_id) {
                (CommandOption::Text(query), Some(guild_id), Some(channel_id)) => step matches
                    PlayStep::Resolve { target } && target.query@ == query@ && target.guild_id
                    == guild_id && target.channel_id == channel_id,
                (CommandOption::Text(_), Some(_), None) => step matches PlayStep::Reply(
                    Reply::Ephemeral(text),
                ) && text@ == "❌ You need to be in a voice channel first."@,
                (CommandOption::Text(_), None, _) => step matches PlayStep::Reply(
                    Reply::Ephemeral(text),
                ) && text@ == "❌ This command can only be used in a server."@,
                (CommandOption::NotText, _, _) => step matches PlayStep::Reply(
                    Reply::Ephemeral(text),
                ) && text@ == "❌ Expected a text query."@,
                (CommandOption::Missing, _, _) => step matches PlayStep::Reply(
                    Reply::Ephemeral(text),
                ) && text@ == "❌ Please provide a song name or URL."@,
            },
    {
        match play::run(option, guild_id, channel_id) {
            Ok(target) => PlayStep::Resolve { target },
            Err(reply) => PlayStep::Reply(reply),
        }
    }

    /// The first step of `/playlist`.
    pub fn playlist(option: CommandOption, guild_id: Option<u64>, channel_id: Option<u64>) -> (step:
        PlayStep)
        ensures
            step@ == PlayStepView::playlist(
                play::play_target(
                    option,
                    guild_id,
                    channel_id,
                    "❌ Expected a playlist name."@,
                    "❌ Please provide a playlist name."@,
                ),
            ),
            match (option, guild_id, channel_id) {
                (CommandOption::Text(query), Some(guild_id), Some(channel_id)) => step matches
                    PlayStep::Load { target } && target.query@ == query@ && target.guild_id
                    == guild_id && target.channel_id == channel_id,
                (CommandOption::Text(_), Some(_), None) => step matches PlayStep::Reply(
                    Reply::Ephemeral(text),
                ) && text@ == "❌ You need to be in a voice channel first."@,
                (CommandOption::Text(_), None, _) => step matches PlayStep::Reply(
                    Reply::Ephemeral(text),
                ) && text@ == "❌ This command can only be used in a server."@,
                (CommandOption::NotText, _, _) => step matches PlayStep::Reply(
                    Reply::Ephemeral(text),
                ) && text@ == "❌ Expected a playlist name."@,
                (CommandOption::Missing, _, _) => step matches PlayStep::Reply(
                    Reply::Ephemeral(text),
                ) && text@ == "❌ Please provide a playlist name."@,
            },
    {
        match playlist::run(option, guild_id, channel_id) {
            Ok(target) => PlayStep::Load { target },
            Err(reply) => PlayStep::Reply(reply),
        }
    }

    /// Who asks for the tracks that a command finds: its user.
    pub fn requested_by(&self, user: UserId) -> (by: Option<UserId>)
        ensures
            by == Some(user),
    {
        Some(user)
    }

    /// The step that follows when `user` asked. A request that was queued holds at least one track.
    pub fn next(self, outcome: Outcome, user: UserId) -> (step: PlayStep)
        requires
            outcome is Enqueued ==> (self@ matches PlayStepView::Enqueue { request, .. }
                ==> request.tracks.len() > 0),
        ensures
            step@ == self@.next(outcome@, user),
            match (self, outcome) {
                (PlayStep::Load { target }, Outcome::Loaded(Ok(playlist))) => step
                    == (PlayStep::ResolvePlaylist { target, playlist }),
                (PlayStep::Load { .. }, Outcome::Loaded(Err(error))) => step matches
                    PlayStep::Reply(Reply::Edit(text)) && text@ == playlist::user_message(error@),
                (PlayStep::Resolve { target }, Outcome::Resolved(Ok(request))) => step
                    == (PlayStep::Join { target, request }),
                (PlayStep::ResolvePlaylist { target, .. }, Outcome::Resolved(Ok(request))) => step
                    == (PlayStep::Join { target, request }),
                (PlayStep::Resolve { .. }, Outcome::Resolved(Err(message))) => step
                    == PlayStep::Reply(Reply::Edit(message)),
                (PlayStep::ResolvePlaylist { .. }, Outcome::Resolved(Err(message))) => step
                    == PlayStep::Reply(Reply::Edit(message)),
                (PlayStep::Join { target, request }, Outcome::Joined(true)) => step
                    == (PlayStep::Enqueue { target, request }),
                (PlayStep::Join { .. }, Outcome::Joined(false)) => step matches PlayStep::Reply(
                    Reply::Edit(text),
                ) && text@
                    == "❌ Failed to join your voice channel. Do I have permission to connect?"@,
                (PlayStep::Enqueue { request, .. }, Outcome::Enqueued { was_idle }) => step matches
                    PlayStep::Reply(Reply::EditEmbed(embed)) && {
                    let told = play::request_embed(request@, was_idle, user);
                    &&& embed.title@ == told.title
                    &&& embed.description@ == told.description
                    &&& embed.colour == told.colour
                    &&& embed.footer@ == told.footer
                },
                _ => step == self,
            },
    {
        match (self, outcome) {
            (PlayStep::Load { target }, Outcome::Loaded(result)) => match result {
                Ok(playlist) => PlayStep::ResolvePlaylist { target, playlist },
                Err(error) => PlayStep::Reply(
                    Reply::Edit(playlist::playlist_error_message(&error)),
                ),
            },
            (PlayStep::Resolve { target }, Outcome::Resolved(result)) => {
                match play::after_resolution(result) {
                    Ok(request) => PlayStep::Join { target, request },
                    Err(reply) => PlayStep::Reply(reply),
                }
            },
            (PlayStep::ResolvePlaylist { target, .. }, Outcome::Resolved(result)) => {
                match play::after_resolution(result) {
                    Ok(request) => PlayStep::Join { target, request },
                    Err(reply) => PlayStep::Reply(reply),
                }
            },
            (PlayStep::Join { target, request }, Outcome::Joined(joined)) => {
                match play::after_join(joined) {
                    Ok(()) => PlayStep::Enqueue { target, request },
                    Err(reply) => PlayStep::Reply(reply),
                }
            },
            (PlayStep::Enqueue { request, .. }, Outcome::Enqueued { was_idle }) => {
                PlayStep::Reply(play::reply_for_request(&request, was_idle, user))
            },
            (step, _) => step,
        }
    }
}

/// After a failed load or resolution the only thing left is that reply, whatever comes later:
/// nothing is joined and nothing is queued.
pub proof fn failure_is_only_replied(
    step: PlayStepView,
    outcome: OutcomeView,
    later: Seq<OutcomeView>,
    user: UserId,
)
    requires
        step.waits_for(outcome),
        failed(outcome),
    ensures
        step.next(outcome, user) is Reply,
        step.next(outcome, user).after(later, user) == step.next(outcome, user),
{
    reply_is_last(step.next(outcome, user), later, user);
}

proof fn reply_is_last(step: PlayStepView, later: Seq<OutcomeView>, user: UserId)
    requires
        step is Reply,
    ensures
        step.after(later, user) == step,
    decreases later.len(),
{
    if later.len() > 0 {
        reply_is_last(step, later.drop_last(), user);
    }
}

/// A command joins a voice channel only for tracks that were found, and queues those tracks only
/// once it has joined.
pub proof fn resolved_before_joined(
    start: PlayStepView,
    outcomes: Seq<OutcomeView>,
    user: UserId,
)
    requires
        start is Load || start is Resolve || start is Reply,
    ensures
        ({
            let step = start.after(outcomes, user);
            &&& step matches PlayStepView::Join { request, .. } ==> was_resolved(outcomes, request)
            &&& step matches PlayStepView::Enqueue { request, .. } ==> resolved_before(
                outcomes,
                request,
                OutcomeView::Joined(true),
            )
        }),
    decreases outcomes.len(),
{
    if outcomes.len() > 0 {
        let rest = outcomes.drop_last();
        resolved_before_joined(start, rest, user);
        outcomes_last(outcomes);
    }
}

/// Only the first step replies in a response of its own; every later reply takes the place of the
/// deferred response.
pub proof fn later_replies_edit(step: PlayStepView, outcome: OutcomeView, user: UserId)
    requires
        !(step is Reply),
    ensures
        step.next(outcome, user) matches PlayStepView::Reply(reply) ==> !(reply is Ephemeral),
{
}

/// Every outcome that a step waits for brings the command closer to its reply, for the same target.
pub proof fn commands_end(step: PlayStepView, outcome: OutcomeView, user: UserId)
    requires
        step.waits_for(outcome),
    ensures
        step.next(outcome, user).steps_left() < step.steps_left(),
        step.next(outcome, user) is Reply || step.next(outcome, user).target() == step.target(),
{
}

/// Where a request of the dashboard plays, and whether it asks for a predefined playlist.
#[derive(Clone, Copy, Debug, PartialEq, Eq, Structural)]
pub struct DashboardTarget {
    pub guild_id: u64,
    /// The voice channel to join where the bot is in none.
    pub voice_channel_id: Option<u64>,
    pub predefined: bool,
}

/// What a request of the dashboard does next.
#[derive(Debug)]
pub enum DashboardStep {
    /// Load the playlist of this name.
    Load { target: DashboardTarget, name: String },
    /// Find the tracks for the query.
    Resolve { target: DashboardTarget, query: String },
    /// Find the tracks of the playlist.
    ResolvePlaylist { target: DashboardTarget, playlist: Playlist },
    /// Find out whether the bot is in a voice channel.
    Connect { target: DashboardTarget, request: ResolvedPlayRequest },
    /// Join this voice channel.
    Join { target: DashboardTarget, request: ResolvedPlayRequest, channel_id: u64 },
    /// Queue the tracks.
    Enqueue { target: DashboardTarget, request: ResolvedPlayRequest },
    /// Answer with this HTTP status and message, and be done.
    Answer { status: u16, message: String },
    /// Answer with this error, and be done.
    Fail(ApiError),
}

/// The text of a step of the dashboard.
#[verifier::ext_equal]
pub enum DashboardView {
    Load { target: DashboardTarget, name: Seq<char> },
    Resolve { target: DashboardTarget, query: Seq<char> },
    ResolvePlaylist { target: DashboardTarget, playlist: PlaylistView },
    Connect { target: DashboardTarget, request: RequestView },
    Join { target: DashboardTarget, request: RequestView, channel_id: u64 },
    Enqueue { target: DashboardTarget, request: RequestView },
    Answer { status: u16, message: Seq<char> },
    Fail(ApiErrorView),
}

impl View for DashboardStep {
    type V = DashboardView;

    open spec fn view(&self) -> DashboardView {
        match *self {
            DashboardStep::Load { target, name } => DashboardView::Load { target, name: name@ },
            DashboardStep::Resolve { target, query } => DashboardView::Resolve {
                target,
                query: query@,
            },
            DashboardStep::ResolvePlaylist { target, playlist } => {
                DashboardView::ResolvePlaylist { target, playlist: playlist@ }
            },
            DashboardStep::Connect { target, request } => DashboardView::Connect {
                target,
                request: request@,
            },
            DashboardStep::Join { target, request, channel_id } => DashboardView::Join {
                target,
                request: request@,
                channel_id,
            },
            DashboardStep::Enqueue { target, request } => DashboardView::Enqueue {
                target,
                request: request@,
            },
            DashboardStep::Answer { status, message } => DashboardView::Answer {
                status,
                message: message@,
            },
            DashboardStep::Fail(error) => DashboardView::Fail(error@),
        }
    }
}

impl DashboardView {
    /// The first step of a request to add a track. The query is checked before the guild.
    pub open spec fn track(
        query: Seq<char>,
        guild_id: Option<u64>,
        voice_channel_id: Option<u64>,
    ) -> Self {
        match (web::accepted_query(query), guild_id) {
            (Err(refusal), _) => DashboardView::Fail(refusal),
            (Ok(_), None) => DashboardView::Fail(web::not_configured()),
            (Ok(query), Some(guild_id)) => DashboardView::Resolve {
                target: DashboardTarget { guild_id, voice_channel_id, predefined: false },
                query,
            },
        }
    }

    /// The first step of a request to queue a predefined playlist.
    pub open spec fn playlist(
        name: Seq<char>,
        guild_id: Option<u64>,
        voice_channel_id: Option<u64>,
    ) -> Self {
        match guild_id {
            None => DashboardView::Fail(web::not_configured()),
            Some(guild_id) => DashboardView::Load {
                target: DashboardTarget { guild_id, voice_channel_id, predefined: true },
                name,
            },
        }
    }

    /// The step that follows. A failure ends in its answer. An outcome of some other step changes
    /// nothing.
    pub open spec fn next(self, outcome: OutcomeView) -> Self {
        match (self, outcome) {
            (DashboardView::Load { target, .. }, OutcomeView::Loaded(Ok(playlist))) => {
                DashboardView::ResolvePlaylist { target, playlist }
            },
            (DashboardView::Load { .. }, OutcomeView::Loaded(Err(error))) => DashboardView::Fail(
                web::playlist_failure(error),
            ),
            (DashboardView::Resolve { target, .. }, OutcomeView::Resolved(Ok(request))) => {
                DashboardView::Connect { target, request }
            },
            (
                DashboardView::ResolvePlaylist { target, .. },
                OutcomeView::Resolved(Ok(request)),
            ) => DashboardView::Connect { target, request },
            (DashboardView::Resolve { .. }, OutcomeView::Resolved(Err(message))) => {
                DashboardView::Fail(web::failure(ApiStatus::BadRequest, message))
            },
            (DashboardView::ResolvePlaylist { .. }, OutcomeView::Resolved(Err(message))) => {
                DashboardView::Fail(web::failure(ApiStatus::BadRequest, message))
            },
            (DashboardView::Connect { target, request }, OutcomeView::Connected(connected)) => {
                match web::connection_for(connected, target.voice_channel_id) {
                    Ok(Connection::Current) => DashboardView::Enqueue { target, request },
                    Ok(Connection::Join(channel_id)) => DashboardView::Join {
                        target,
                        request,
                        channel_id,
                    },
                    Err(refusal) => DashboardView::Fail(refusal),
                }
            },
            (DashboardView::Join { target, request, .. }, OutcomeView::Joined(true)) => {
                DashboardView::Enqueue { target, request }
            },
            (DashboardView::Join { .. }, OutcomeView::Joined(false)) => DashboardView::Fail(
                web::join_failure(),
            ),
            (DashboardView::Enqueue { target, request }, OutcomeView::Enqueued { was_idle }) => {
                DashboardView::Answer {
                    status: web::CREATED,
                    message: if target.predefined {
                        web::playlist_queued_text(request, was_idle)
                    } else {
                        web::added_text(request, was_idle)
                    },
                }
            },
            _ => self,
        }
    }

    /// The step after outcomes, one after the other.
    pub open spec fn after(self, outcomes: Seq<OutcomeView>) -> Self
        decreases outcomes.len(),
    {
        if outcomes.len() == 0 {
            self
        } else {
            self.after(outcomes.drop_last()).next(outcomes.last())
        }
    }

    /// Whether the step waits for this outcome.
    pub open spec fn waits_for(self, outcome: OutcomeView) -> bool {
        match outcome {
            OutcomeView::Loaded(_) => self is Load,
            OutcomeView::Resolved(_) => self is Resolve || self is ResolvePlaylist,
            OutcomeView::Connected(_) => self is Connect,
            OutcomeView::Joined(_) => self is Join,
            OutcomeView::Enqueued { .. } => self is Enqueue,
        }
    }

    /// How many steps are left at most.
    pub open spec fn steps_left(self) -> nat {
        match self {
            DashboardView::Load { .. } => 5,
            DashboardView::Resolve { .. } => 4,
            DashboardView::ResolvePlaylist { .. } => 4,
            DashboardView::Connect { .. } => 3,
            DashboardView::Join { .. } => 2,
            DashboardView::Enqueue { .. } => 1,
            DashboardView::Answer { .. } => 0,
            DashboardView::Fail(_) => 0,
        }
    }
}

impl DashboardStep {
    /// The first step of a request to add a track.
    pub fn track(query: &str, guild_id: Option<u64>, voice_channel_id: Option<u64>) -> (step:
        DashboardStep)
        ensures
            step@ == DashboardView::track(query@, guild_id, voice_channel_id),
            ({
                let length = text::trimmed(query@).len();
                &&& step is Resolve == (1 <= length <= 500 && guild_id is Some)
                &&& !(step is Resolve) ==> step is Fail
                &&& step matches DashboardStep::Resolve { target, query: asked } ==> {
                    &&& asked@ == text::trimmed(query@)
                    &&& Some(target.guild_id) == guild_id
                    &&& target.voice_channel_id == voice_channel_id
                    &&& !target.predefined
                }
                &&& step matches DashboardStep::Fail(error) ==> error.status == if 1 <= length
                    <= 500 {
                    ApiStatus::ServiceUnavailable
                } else {
                    ApiStatus::BadRequest
                }
                &&& step matches DashboardStep::Fail(error) ==> error.message@ == if length == 0 {
                    "Enter a song name or URL."@
                } else if length > 500 {
                    "The search is too long. Keep it under 500 characters."@
                } else {
                    "Set GUILD_ID to choose which server this dashboard controls."@
                }
            }),
    {
        match web::add_track(query, guild_id) {
            Ok((query, guild_id)) => DashboardStep::Resolve {
                target: DashboardTarget { guild_id, voice_channel_id, predefined: false },
                query,
            },
            Err(error) => DashboardStep::Fail(error),
        }
    }

    /// The first step of a request to queue a predefined playlist.
    pub fn playlist(name: String, guild_id: Option<u64>, voice_channel_id: Option<u64>) -> (step:
        DashboardStep)
        ensures
            step@ == DashboardView::playlist(name@, guild_id, voice_channel_id),
            guild_id matches Some(guild_id) ==> (step matches DashboardStep::Load {
                target,
                name: asked,
            } && asked@ == name@ && target.guild_id == guild_id && target.voice_channel_id
                == voice_channel_id && target.predefined),
            guild_id is None ==> (step matches DashboardStep::Fail(error) && error.status
                == ApiStatus::ServiceUnavailable && error.message@
                == "Set GUILD_ID to choose which server this dashboard controls."@),
    {
        match web::configured_guild(guild_id) {
            Ok(guild_id) => DashboardStep::Load {
                target: DashboardTarget { guild_id, voice_channel_id, predefined: true },
                name,
            },
            Err(error) => DashboardStep::Fail(error),
        }
    }

    /// Who asks for the tracks that the dashboard finds: no user of Discord.
    pub fn requested_by(&self) -> (by: Option<UserId>)
        ensures
            by is None,
    {
        None
    }

    /// The step that follows.
    pub fn next(self, outcome: Outcome) -> (step: DashboardStep)
        ensures
            step@ == self@.next(outcome@),
            match (self, outcome) {
                (DashboardStep::Load { target, .. }, Outcome::Loaded(Ok(playlist))) => step
                    == (DashboardStep::ResolvePlaylist { target, playlist }),
                (DashboardStep::Load { .. }, Outcome::Loaded(Err(error))) => step matches
                    DashboardStep::Fail(failure) && failure.status
                    == web::playlist_failure(error@).status && failure.message@
                    == web::playlist_failure(error@).message,
                (DashboardStep::Resolve { target, .. }, Outcome::Resolved(Ok(request))) => step
                    == (DashboardStep::Connect { target, request }),
                (
                    DashboardStep::ResolvePlaylist { target, .. },
                    Outcome::Resolved(Ok(request)),
                ) => step == (DashboardStep::Connect { target, request }),
                (DashboardStep::Resolve { .. }, Outcome::Resolved(Err(message))) => step matches
                    DashboardStep::Fail(error) && error.status == ApiStatus::BadRequest
                    && error.message == message,
                (DashboardStep::ResolvePlaylist { .. }, Outcome::Resolved(Err(message))) => {
                    step matches DashboardStep::Fail(error) && error.status == ApiStatus::BadRequest
                        && error.message == message
                },
                (DashboardStep::Connect { target, request }, Outcome::Connected(true)) => step
                    == (DashboardStep::Enqueue { target, request }),
                (DashboardStep::Connect { target, request }, Outcome::Connected(false)) => {
                    match target.voice_channel_id {
                        Some(channel_id) => step == (DashboardStep::Join {
                            target,
                            request,
                            channel_id,
                        }),
                        None => step matches DashboardStep::Fail(error) && error.status
                            == ApiStatus::Conflict && error.message@
                            == "The bot is not in voice. Set VOICE_CHANNEL_ID so the dashboard can connect it."@,
                    }
                },
                (DashboardStep::Join { target, request, .. }, Outcome::Joined(true)) => step
                    == (DashboardStep::Enqueue { target, request }),
                (DashboardStep::Join { .. }, Outcome::Joined(false)) => step matches
                    DashboardStep::Fail(error) && error.status == ApiStatus::Conflict
                    && error.message@
                    == "Could not join the configured voice channel. Check the bot's permissions."@,
                (DashboardStep::Enqueue { target, request }, Outcome::Enqueued { was_idle }) => {
                    step matches DashboardStep::Answer { status, message } && status == 201
                        && message@ == if target.predefined {
                        web::playlist_queued_text(request@, was_idle)
                    } else {
                        web::added_text(request@, was_idle)
                    }
                },
                _ => step == self,
            },
    {
        match (self, outcome) {
            (DashboardStep::Load { target, .. }, Outcome::Loaded(result)) => match result {
                Ok(playlist) => DashboardStep::ResolvePlaylist { target, playlist },
                Err(error) => DashboardStep::Fail(web::playlist_api_error(&error)),
            },
            (DashboardStep::Resolve { target, .. }, Outcome::Resolved(result)) => match result {
                Ok(request) => DashboardStep::Connect { target, request },
                Err(message) => DashboardStep::Fail(ApiError::bad_request(message)),
            },
            (DashboardStep::ResolvePlaylist { target, .. }, Outcome::Resolved(result)) => {
                match result {
                    Ok(request) => DashboardStep::Connect { target, request },
                    Err(message) => DashboardStep::Fail(ApiError::bad_request(message)),
                }
            },
            (DashboardStep::Connect { target, request }, Outcome::Connected(connected)) => {
                match web::connected_or_join(connected, target.voice_channel_id) {
                    Ok(Connection::Current) => DashboardStep::Enqueue { target, request },
                    Ok(Connection::Join(channel_id)) => DashboardStep::Join {
                        target,
                        request,
                        channel_id,
                    },
                    Err(error) => DashboardStep::Fail(error),
                }
            },
            (DashboardStep::Join { target, request, .. }, Outcome::Joined(joined)) => {
                if joined {
                    DashboardStep::Enqueue { target, request }
                } else {
                    DashboardStep::Fail(web::join_failed())
                }
            },
            (DashboardStep::Enqueue { target, request }, Outcome::Enqueued { was_idle }) => {
                let (status, response) = if target.predefined {
                    web::queue_playlist(&request, was_idle)
                } else {
                    web::track_added(&request, was_idle)
                };
                DashboardStep::Answer { status, message: response.message }
            },
            (step, _) => step,
        }
    }
}

/// After a failed load or resolution the only thing left is that answer, whatever comes later:
/// nothing is joined and nothing is queued.
pub proof fn failure_is_only_answered(
    step: DashboardView,
    outcome: OutcomeView,
    later: Seq<OutcomeView>,
)
    requires
        step.waits_for(outcome),
        failed(outcome),
    ensures
        step.next(outcome) is Fail,
        step.next(outcome).after(later) == step.next(outcome),
{
    answer_is_last(step.next(outcome), later);
}

proof fn answer_is_last(step: DashboardView, later: Seq<OutcomeView>)
    requires
        step is Fail,
    ensures
        step.after(later) == step,
    decreases later.len(),
{
    if later.len() > 0 {
        answer_is_last(step, later.drop_last());
    }
}

/// The dashboard joins a voice channel only for tracks that were found, and queues those tracks
/// only where the bot is in a voice channel or has joined one.
pub proof fn resolved_before_connected(start: DashboardView, outcomes: Seq<OutcomeView>)
    requires
        start is Load || start is Resolve || start is Fail,
    ensures
        match start.after(outcomes) {
            DashboardView::Connect { request, .. } => was_resolved(outcomes, request),
            DashboardView::Join { request, .. } => resolved_before(
                outcomes,
                request,
                OutcomeView::Connected(false),
            ),
            DashboardView::Enqueue { request, .. } => resolved_before(
                outcomes,
                request,
                OutcomeView::Connected(true),
            ) || resolved_before(outcomes, request, OutcomeView::Joined(true)),
            _ => true,
        },
    decreases outcomes.len(),
{
    if outcomes.len() > 0 {
        let rest = outcomes.drop_last();
        resolved_before_connected(start, rest);
        outcomes_last(outcomes);
    }
}

/// Every outcome that a step waits for brings a request of the dashboard closer to its answer.
pub proof fn requests_end(step: DashboardView, outcome: OutcomeView)
    requires
        step.waits_for(outcome),
    ensures
        step.next(outcome).steps_left() < step.steps_left(),
{
}

}
