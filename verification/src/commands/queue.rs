//! `/queue`: showing the current track and the upcoming queue.

use vstd::prelude::*;
use vstd::string::*;
use vstd::utf8;

use crate::commands::guild_state::{GuildMusicState, Music, Track, UserId};
use crate::commands::play;
use crate::commands::play::{Embed, EmbedView};
use crate::text;

verus! {

/// A description longer than this many bytes gets no further tracks.
pub const DESCRIPTION_BYTES: usize = 3800;

/// The reply to `/queue`.
#[derive(Debug)]
pub enum QueueReply {
    Text { content: String, ephemeral: bool },
    Embed(Embed),
}

/// The text of a reply to `/queue`.
#[verifier::ext_equal]
pub enum QueueReplyView {
    Text { content: Seq<char>, ephemeral: bool },
    Embed(EmbedView),
}

impl View for QueueReply {
    type V = QueueReplyView;

    open spec fn view(&self) -> QueueReplyView {
        match *self {
            QueueReply::Text { content, ephemeral } => QueueReplyView::Text {
                content: content@,
                ephemeral,
            },
            QueueReply::Embed(embed) => QueueReplyView::Embed(embed@),
        }
    }
}

/// Who asked for a track.
pub open spec fn requester(requested_by: Option<UserId>) -> Seq<char> {
    match requested_by {
        Some(user) => "<@"@ + text::decimal(user@ as nat) + ">"@,
        None => "Dashboard"@,
    }
}

/// What is said above the upcoming tracks: what plays.
pub open spec fn playing_text(music: Music) -> Seq<char> {
    if music.preplay_active {
        "**🔊 Pre-play Audio**\nPlaying the configured between-track clip.\n\n"@
    } else {
        match music.current {
            Some(track) => "**🎵 Now Playing**\n["@ + track.title@ + "]("@ + track.url@
                + ")\nRequested by "@ + requester(track.requested_by) + "\n\n"@,
            None => seq![],
        }
    }
}

/// The line of the upcoming track at `i`, counted from 0.
pub open spec fn track_line(track: Track, i: int) -> Seq<char> {
    "`"@ + text::decimal((i + 1) as nat) + "`. ["@ + track.title@ + "]("@ + track.url@ + ") — "@
        + requester(track.requested_by) + "\n"@
}

/// `shown` with the lines of the upcoming tracks from `i` on behind it. Once it is too long it
/// ends.
pub open spec fn with_upcoming(shown: Seq<char>, queue: Seq<Track>, i: nat) -> Seq<char>
    decreases queue.len() - i,
{
    if i >= queue.len() {
        shown
    } else {
        let longer = shown + track_line(queue[i as int], i as int);
        if utf8::encode_utf8(longer).len() > DESCRIPTION_BYTES {
            longer + "*…and more*"@
        } else {
            with_upcoming(longer, queue, i + 1)
        }
    }
}

/// The description of what plays and what is upcoming.
pub open spec fn queue_description(music: Music) -> Seq<char> {
    if music.queue.len() == 0 {
        playing_text(music) + "*No more tracks queued.*"@
    } else {
        with_upcoming(playing_text(music) + "**Up Next**\n"@, music.queue, 0)
    }
}

/// Who asked for a track: a mention of the Discord user, or the dashboard.
pub fn requester_label(requested_by: Option<UserId>) -> (label: String)
    ensures
        label@ == requester(requested_by),
        requested_by matches Some(user) ==> label@ == "<@"@ + text::decimal(user@ as nat) + ">"@,
        requested_by is None ==> label@ == "Dashboard"@,
{
    match requested_by {
        Some(user) => text::concat3("<@", text::decimal_text(user.get()).as_str(), ">"),
        None => "Dashboard".to_owned(),
    }
}

/// The number of bytes that `s` takes.
fn byte_len(s: &String) -> (n: usize)
    ensures
        n == utf8::encode_utf8(s@).len(),
{
    s.as_str().as_bytes().len()
}

/// The line of the upcoming track at `i`, counted from 0.
fn line_of(track: &Track, i: usize) -> (line: String)
    requires
        i < usize::MAX,
    ensures
        line@ == track_line(*track, i as int),
        line@ == "`"@ + text::decimal((i + 1) as nat) + "`. ["@ + track.title@ + "]("@ + track.url@
            + ") — "@ + match track.requested_by {
            Some(user) => "<@"@ + text::decimal(user@ as nat) + ">"@,
            None => "Dashboard"@,
        } + "\n"@,
{
    let mut line = text::concat5(
        "`",
        text::decimal_text((i + 1) as u64).as_str(),
        "`. [",
        track.title.as_str(),
        "](",
    );
    line.append(track.url.as_str());
    line.append(") — ");
    line.append(requester_label(track.requested_by).as_str());
    line.append("\n");
    line
}

/// Describes what plays and what is upcoming.
pub fn build_queue_description(state: &GuildMusicState) -> (description: String)
    ensures
        description@ == queue_description(state@),
        ({
            let playing = if state.preplay_active {
                "**🔊 Pre-play Audio**\nPlaying the configured between-track clip.\n\n"@
            } else {
                match state.current {
                    Some(track) => "**🎵 Now Playing**\n["@ + track.title@ + "]("@ + track.url@
                        + ")\nRequested by "@ + match track.requested_by {
                        Some(user) => "<@"@ + text::decimal(user@ as nat) + ">"@,
                        None => "Dashboard"@,
                    } + "\n\n"@,
                    None => seq![],
                }
            };
            &&& state.queue@.len() == 0 ==> description@ == playing + "*No more tracks queued.*"@
            &&& playing.is_prefix_of(description@)
        }),
        state.queue@.len() > 0 ==> exists|n: nat| #[trigger]
            shows(playing_text(state@) + "**Up Next**\n"@, state.queue@, description@, n),
{
    let mut description = String::new();
    if state.preplay_active {
        description.append(
            "**🔊 Pre-play Audio**\nPlaying the configured between-track clip.\n\n",
        );
    } else if let Some(current) = &state.current {
        let mut playing = text::concat5(
            "**🎵 Now Playing**\n[",
            current.title.as_str(),
            "](",
            current.url.as_str(),
            ")\nRequested by ",
        );
        playing.append(requester_label(current.requested_by).as_str());
        playing.append("\n\n");
        description.append(playing.as_str());
    }
    assert(description@ =~= playing_text(state@));
    if state.queue.len() == 0 {
        description.append("*No more tracks queued.*");
        proof {
            playing_text_comes_first(state@);
        }
        return description;
    }
    description.append("**Up Next**\n");
    let mut i: usize = 0;
    while i < state.queue.len()
        invariant
            i <= state.queue.len(),
            state@.queue == state.queue@,
            state@.queue.len() > 0,
            queue_description(state@) == with_upcoming(description@, state@.queue, i as nat),
        decreases state.queue.len() - i,
    {
        description.append(line_of(&state.queue[i], i).as_str());
        if byte_len(&description) > DESCRIPTION_BYTES {
            description.append("*…and more*");
            proof {
                playing_text_comes_first(state@);
                playing_text_comes_first(state@);
        description_shows_tracks_in_order(state@);
                let head = playing_text(state@) + "**Up Next**\n"@;
                let n = choose|n: nat| #[trigger] shows(head, state@.queue, queue_description(state@), n);
                assert(shows(head, state.queue@, description@, n));
            }
            return description;
        }
        i += 1;
    }
    proof {
        description_shows_tracks_in_order(state@);
        let head = playing_text(state@) + "**Up Next**\n"@;
        let n = choose|n: nat| #[trigger] shows(head, state@.queue, queue_description(state@), n);
        assert(shows(head, state.queue@, description@, n));
    }
    description
}

/// Whether there is nothing to show: no clip, no current track and no upcoming one.
pub open spec fn nothing_to_show(music: Music) -> bool {
    !music.preplay_active && music.current is None && music.queue.len() == 0
}

/// The reply to `/queue`, in a guild or not, with the guild's state if it has one yet.
pub open spec fn queue_reply(in_guild: bool, music: Option<Music>) -> QueueReplyView {
    if !in_guild {
        QueueReplyView::Text {
            content: "❌ This command can only be used in a server."@,
            ephemeral: true,
        }
    } else {
        match music {
            Some(music) if !nothing_to_show(music) => QueueReplyView::Embed(
                EmbedView {
                    title: "📋 Queue"@,
                    description: queue_description(music),
                    colour: play::QUEUED_COLOUR,
                    footer: text::decimal(music.queue.len()) + " track(s) in queue"@,
                },
            ),
            _ => QueueReplyView::Text { content: "📭 The queue is empty."@, ephemeral: false },
        }
    }
}

/// /queue: show the current track and the upcoming queue. `state` is the guild's state, if it
/// has one yet.
pub fn run(in_guild: bool, state: Option<&GuildMusicState>) -> (reply: QueueReply)
    ensures
        reply@ == queue_reply(
            in_guild,
            match state {
                Some(state) => Some(state@),
                None => None,
            },
        ),
        !in_guild ==> (reply matches QueueReply::Text { content, ephemeral } && content@
            == "❌ This command can only be used in a server."@ && ephemeral),
        in_guild ==> reply is Embed == (state matches Some(state) && (state.preplay_active
            || state.current is Some || state.queue@.len() > 0)),
        in_guild ==> (reply matches QueueReply::Text { content, ephemeral } ==> content@
            == "📭 The queue is empty."@ && !ephemeral),
        reply matches QueueReply::Embed(embed) ==> {
            let state = state->Some_0;
            &&& embed.title@ == "📋 Queue"@
            &&& embed.colour == 0x5865F2u32
            &&& embed.footer@ == text::decimal(state.queue@.len()) + " track(s) in queue"@
            &&& embed.description@ == queue_description(state@)
        },
{
    if !in_guild {
        return QueueReply::Text {
            content: "❌ This command can only be used in a server.".to_owned(),
            ephemeral: true,
        };
    }
    match state {
        Some(state) => {
            if state.preplay_active || state.current.is_some() || state.queue.len() > 0 {
                let mut footer = text::decimal_text(state.queue.len() as u64);
                footer.append(" track(s) in queue");
                return QueueReply::Embed(
                    Embed {
                        title: "📋 Queue".to_owned(),
                        description: build_queue_description(state),
                        colour: play::QUEUED_COLOUR,
                        footer,
                    },
                );
            }
        },
        None => {},
    }
    QueueReply::Text { content: "📭 The queue is empty.".to_owned(), ephemeral: false }
}

/// In a guild, whatever plays or waits is shown: the reply says that the queue is empty only where
/// there is no current track, no upcoming one and no clip.
pub proof fn whatever_plays_is_shown(music: Music)
    ensures
        music.current is Some ==> queue_reply(true, Some(music)) is Embed,
        music.queue.len() > 0 ==> queue_reply(true, Some(music)) is Embed,
        music.preplay_active ==> queue_reply(true, Some(music)) is Embed,
        music.current is None && music.queue.len() == 0 && !music.preplay_active ==> queue_reply(
            true,
            Some(music),
        ) is Text,
        queue_reply(true, None) is Text,
        queue_reply(false, Some(music)) is Text,
{
}

proof fn playing_text_comes_first(music: Music)
    ensures
        playing_text(music).is_prefix_of(queue_description(music)),
{
    let playing = playing_text(music);
    let description = queue_description(music);
    if music.queue.len() > 0 {
        let head = playing + "**Up Next**\n"@;
        let rest = upcoming_extends(head, music.queue, 0);
    }
    assert(description.subrange(0, playing.len() as int) =~= playing);
}

/// The current track is shown in front, with its title, its link and who asked for it, unless a
/// clip plays.
pub proof fn current_track_is_shown_first(music: Music)
    ensures
        !music.preplay_active ==> (music.current matches Some(track) ==> exists|rest: Seq<char>|
            queue_description(music) == #[trigger] ("**🎵 Now Playing**\n["@ + track.title@ + "]("@
                + track.url@ + ")\nRequested by "@ + requester(track.requested_by) + "\n\n"@
                + rest)),
        music.preplay_active ==> exists|rest: Seq<char>|
            queue_description(music) == #[trigger] (
            "**🔊 Pre-play Audio**\nPlaying the configured between-track clip.\n\n"@ + rest),
{
    let playing = playing_text(music);
    if music.queue.len() == 0 {
        assert(queue_description(music) == playing + "*No more tracks queued.*"@);
    } else {
        let head = playing + "**Up Next**\n"@;
        let rest = upcoming_extends(head, music.queue, 0);
        assert(head + rest =~= playing + ("**Up Next**\n"@ + rest));
        assert(queue_description(music) == playing + ("**Up Next**\n"@ + rest));
    }
}

proof fn upcoming_extends(shown: Seq<char>, queue: Seq<Track>, i: nat) -> (rest: Seq<char>)
    ensures
        with_upcoming(shown, queue, i) == shown + rest,
    decreases queue.len() - i,
{
    if i >= queue.len() {
        assert(shown + Seq::<char>::empty() =~= shown);
        Seq::empty()
    } else {
        let line = track_line(queue[i as int], i as int);
        let longer = shown + line;
        if utf8::encode_utf8(longer).len() > DESCRIPTION_BYTES {
            assert(longer + "*…and more*"@ =~= shown + (line + "*…and more*"@));
            line + "*…and more*"@
        } else {
            let rest = upcoming_extends(longer, queue, i + 1);
            assert(longer + rest =~= shown + (line + rest));
            line + rest
        }
    }
}

/// The lines of upcoming tracks come in the order of the queue, each with its place counted from
/// 1, its title, its link and who asked for it.
pub proof fn lines_name_their_tracks(queue: Seq<Track>, n: nat)
    requires
        n < queue.len(),
    ensures
        first_lines(queue, 0).len() == 0,
        first_lines(queue, n + 1) == first_lines(queue, n) + ("`"@ + text::decimal(n + 1) + "`. ["@
            + queue[n as int].title@ + "]("@ + queue[n as int].url@ + ") — "@ + requester(
            queue[n as int].requested_by,
        ) + "\n"@),
        queue[n as int].requested_by is None ==> requester(queue[n as int].requested_by)
            == "Dashboard"@,
        queue[n as int].requested_by matches Some(user) ==> requester(Some(user)) == "<@"@
            + text::decimal(user@ as nat) + ">"@,
{
}

/// While a pre-play clip plays, the description depends on the upcoming tracks alone.
pub proof fn preplay_hides_current(music: Music, other: Option<Track>)
    requires
        music.preplay_active,
    ensures
        queue_description(music) == queue_description(Music { current: other, ..music }),
{
}

/// The lines of the first `n` upcoming tracks.
pub open spec fn first_lines(queue: Seq<Track>, n: nat) -> Seq<char>
    decreases n,
{
    if n == 0 {
        seq![]
    } else {
        first_lines(queue, (n - 1) as nat) + track_line(queue[n - 1], n - 1)
    }
}

/// Whether the description `result` shows the first `n` upcoming tracks behind `head`: all that
/// there are, or those up to the one with which it gets too long, and then says so.
pub open spec fn shows(head: Seq<char>, queue: Seq<Track>, result: Seq<char>, n: nat) -> bool {
    let fits = |k: nat| utf8::encode_utf8(head + first_lines(queue, k)).len() <= 3800;
    &&& 1 <= n <= queue.len()
    &&& forall|k: nat| 1 <= k < n ==> #[trigger] fits(k)
    &&& if fits(n) {
        n == queue.len() && result == head + first_lines(queue, n)
    } else {
        result == head + first_lines(queue, n) + "*…and more*"@
    }
}

/// The description shows, in order, the upcoming tracks up to the one with which it gets too
/// long, and says so exactly if it got too long.
pub proof fn description_shows_tracks_in_order(music: Music)
    requires
        music.queue.len() > 0,
    ensures
        exists|n: nat| #[trigger]
            shows(
                playing_text(music) + "**Up Next**\n"@,
                music.queue,
                queue_description(music),
                n,
            ),
{
    let head = playing_text(music) + "**Up Next**\n"@;
    assert(head + first_lines(music.queue, 0) =~= head);
    shown_from(head, music.queue, 0);
    let n = choose|n: nat| #[trigger]
        shows(head, music.queue, with_upcoming(head + first_lines(music.queue, 0), music.queue, 0), n);
    assert(shows(head, music.queue, queue_description(music), n));
}

proof fn shown_from(head: Seq<char>, queue: Seq<Track>, i: nat)
    requires
        i < queue.len(),
        forall|k: nat|
            1 <= k <= i ==> utf8::encode_utf8(head + #[trigger] first_lines(queue, k)).len()
                <= DESCRIPTION_BYTES,
    ensures
        exists|n: nat|
            #[trigger] shows(
                head,
                queue,
                with_upcoming(head + first_lines(queue, i), queue, i),
                n,
            ),
    decreases queue.len() - i,
{
    let shown = head + first_lines(queue, i);
    let longer = shown + track_line(queue[i as int], i as int);
    let result = with_upcoming(shown, queue, i);
    assert(longer =~= head + first_lines(queue, i + 1));
    if utf8::encode_utf8(longer).len() > DESCRIPTION_BYTES || i + 1 == queue.len() {
        if utf8::encode_utf8(longer).len() <= DESCRIPTION_BYTES {
            assert(with_upcoming(longer, queue, i + 1) == longer);
        }
        assert(shows(head, queue, result, i + 1));
    } else {
        shown_from(head, queue, i + 1);
    }
}

/// Tracks with lines of at most 283 bytes keep the description within 4096 bytes, and so within
/// the 4096 characters that Discord allows, however many are queued.
pub proof fn description_fits_embed(music: Music)
    requires
        utf8::encode_utf8(playing_text(music)).len() <= 3788,
        forall|i: int|
            0 <= i < music.queue.len() ==> utf8::encode_utf8(
                track_line(#[trigger] music.queue[i], i),
            ).len() <= 283,
    ensures
        utf8::encode_utf8(queue_description(music)).len() <= 4096,
        queue_description(music).len() <= 4096,
{
    let playing = playing_text(music);
    if music.queue.len() == 0 {
        let end = "*No more tracks queued.*"@;
        reveal_strlit("*No more tracks queued.*");
        text::bytes_per_char(end);
        text::bytes_of_concat(playing, end);
    } else {
        let title = "**Up Next**\n"@;
        reveal_strlit("**Up Next**\n");
        utf8::is_ascii_chars_encode_utf8(title);
        text::bytes_of_concat(playing, title);
        upcoming_fit(playing + title, music.queue, 0);
    }
    text::bytes_per_char(queue_description(music));
}

proof fn upcoming_fit(shown: Seq<char>, queue: Seq<Track>, i: nat)
    requires
        utf8::encode_utf8(shown).len() <= DESCRIPTION_BYTES,
        forall|j: int|
            0 <= j < queue.len() ==> utf8::encode_utf8(
                track_line(#[trigger] queue[j], j),
            ).len() <= 283,
    ensures
        utf8::encode_utf8(with_upcoming(shown, queue, i)).len() <= 4096,
    decreases queue.len() - i,
{
    if i < queue.len() {
        let line = track_line(queue[i as int], i as int);
        let longer = shown + line;
        text::bytes_of_concat(shown, line);
        if utf8::encode_utf8(longer).len() > DESCRIPTION_BYTES {
            more_takes_13_bytes();
            text::bytes_of_concat(longer, "*…and more*"@);
        } else {
            upcoming_fit(longer, queue, i + 1);
        }
    }
}

proof fn more_takes_13_bytes()
    ensures
        utf8::encode_utf8("*…and more*"@).len() == 13,
{
    reveal_strlit("*…and more*");
    let more = "*…and more*"@;
    assert(more =~= seq!['*'] + (seq!['…'] + more.skip(2)));
    text::bytes_of_concat(seq!['*'], seq!['…'] + more.skip(2));
    text::bytes_of_concat(seq!['…'], more.skip(2));
    utf8::is_ascii_chars_encode_utf8(seq!['*']);
    utf8::is_ascii_chars_encode_utf8(more.skip(2));
    let dots = seq!['…'];
    assert(dots.drop_first() =~= Seq::<char>::empty());
    assert(utf8::encode_scalar(dots[0] as u32).len() == 3);
    assert(utf8::encode_utf8(dots.drop_first()).len() == 0);
}

}
