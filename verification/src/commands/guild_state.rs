//! The music state of one guild.

use std::collections::VecDeque;
use vstd::prelude::*;

use crate::playback;
use crate::text;

verus! {

/// A Discord user. User ids are never zero.
#[derive(Clone, Copy, Debug, PartialEq, Eq, Structural)]
pub struct UserId {
    id: u64,
}

impl View for UserId {
    type V = u64;

    closed spec fn view(&self) -> u64 {
        self.id
    }
}

impl UserId {
    #[verifier::type_invariant]
    closed spec fn inv(&self) -> bool {
        self.id != 0
    }

    /// The user with this id.
    pub fn new(id: u64) -> (user: Self)
        requires
            id != 0,
        ensures
            user@ == id,
    {
        UserId { id }
    }

    /// The user's id.
    pub fn get(&self) -> (id: u64)
        ensures
            id == self@,
            id != 0,
    {
        proof {
            use_type_invariant(self);
        }
        self.id
    }
}

/// Metadata for a single track in the queue.
#[derive(Debug, PartialEq, Eq)]
pub struct Track {
    pub title: String,
    /// The resolved URL that yt-dlp will stream from.
    pub url: String,
    /// Discord requester, or `None` when the track came from the web dashboard.
    pub requested_by: Option<UserId>,
    /// The voice driver's unique id for this playback instance.
    pub playback_id: Option<String>,
}

/// The text of a track.
#[verifier::ext_equal]
pub struct TrackView {
    pub title: Seq<char>,
    pub url: Seq<char>,
    pub requested_by: Option<UserId>,
    pub playback_id: Option<Seq<char>>,
}

/// The text of an optional string.
pub open spec fn opt_text(s: Option<String>) -> Option<Seq<char>> {
    match s {
        Some(s) => Some(s@),
        None => None,
    }
}

impl View for Track {
    type V = TrackView;

    open spec fn view(&self) -> TrackView {
        TrackView {
            title: self.title@,
            url: self.url@,
            requested_by: self.requested_by,
            playback_id: opt_text(self.playback_id),
        }
    }
}

impl Clone for Track {
    fn clone(&self) -> (copy: Self)
        ensures
            copy == *self,
    {
        Track {
            title: self.title.clone(),
            url: self.url.clone(),
            requested_by: self.requested_by,
            playback_id: match &self.playback_id {
                Some(id) => Some(id.clone()),
                None => None,
            },
        }
    }
}

/// State for a single guild: current track and upcoming queue.
pub struct GuildMusicState {
    pub queue: VecDeque<Track>,
    pub current: Option<Track>,
    /// Guild-specific pre-play URL. `None` means the feature is disabled.
    pub preplay_url: Option<String>,
    /// Whether an inserted pre-play clip is currently ahead of the next music track.
    pub preplay_active: bool,
}

/// A guild's music state, with the queue as a sequence.
#[verifier::ext_equal]
pub struct Music {
    pub queue: Seq<Track>,
    pub current: Option<Track>,
    pub preplay_url: Option<String>,
    pub preplay_active: bool,
}

impl View for GuildMusicState {
    type V = Music;

    open spec fn view(&self) -> Music {
        Music {
            queue: self.queue@,
            current: self.current,
            preplay_url: self.preplay_url,
            preplay_active: self.preplay_active,
        }
    }
}

impl Music {
    /// Nothing plays, nothing waits, and pre-play audio is off.
    pub open spec fn initial() -> Music {
        Music { queue: seq![], current: None, preplay_url: None, preplay_active: false }
    }

    /// `track` waits behind everything else.
    pub open spec fn enqueued(self, track: Track) -> Music {
        Music { queue: self.queue.push(track), ..self }
    }

    /// `tracks` wait behind everything else; out of silence the first of them plays at once.
    pub open spec fn enqueued_batch(self, tracks: Seq<Track>, was_idle: bool) -> Music {
        if !was_idle {
            Music { queue: self.queue + tracks, ..self }
        } else if tracks.len() == 0 {
            Music { current: None, preplay_active: false, ..self }
        } else {
            Music {
                queue: self.queue + tracks.skip(1),
                current: Some(tracks[0]),
                preplay_active: false,
                ..self
            }
        }
    }

    /// The track that waits in front, if any.
    pub open spec fn next_track(self) -> Option<Track> {
        if self.queue.len() > 0 {
            Some(self.queue[0])
        } else {
            None
        }
    }

    /// The track that waits in front leaves the queue and plays; an empty queue means silence.
    pub open spec fn advanced(self) -> Music {
        Music {
            queue: if self.queue.len() > 0 {
                self.queue.skip(1)
            } else {
                self.queue
            },
            current: self.next_track(),
            preplay_active: false,
            ..self
        }
    }

    /// The state after `n` more tracks have ended.
    pub open spec fn advanced_by(self, n: nat) -> Music
        decreases n,
    {
        if n == 0 {
            self
        } else {
            self.advanced_by((n - 1) as nat).advanced()
        }
    }

    /// A pre-play clip plays in front of the waiting tracks.
    pub open spec fn preplay_begun(self) -> Music {
        Music { current: None, preplay_active: true, ..self }
    }

    /// Nothing plays and nothing waits.
    pub open spec fn cleared(self) -> Music {
        Music { queue: seq![], current: None, preplay_active: false, ..self }
    }

    /// Nothing waits; what plays goes on.
    pub open spec fn queue_cleared(self) -> Music {
        Music { queue: seq![], ..self }
    }

    /// The waiting track at `index` leaves the queue.
    pub open spec fn without(self, index: int) -> Music {
        Music { queue: self.queue.remove(index), ..self }
    }

    /// The waiting track at `from` goes to place `to`.
    pub open spec fn reordered(self, from: int, to: int) -> Music {
        Music { queue: playback::moved(self.queue, from, to), ..self }
    }

    /// Pre-play audio is on with this URL, or off.
    pub open spec fn with_preplay_url(self, url: Option<String>) -> Music {
        Music { preplay_url: url, ..self }
    }

    /// A pre-play clip plays only where no track does.
    pub open spec fn clip_excludes_current(self) -> bool {
        self.preplay_active ==> self.current is None
    }

    /// Whether the current track is the playback instance `playback_id`.
    pub open spec fn is_current(self, playback_id: Seq<char>) -> bool {
        self.current matches Some(track) && opt_text(track.playback_id) == Some(playback_id)
    }
}

impl GuildMusicState {
    pub fn new() -> (state: Self)
        ensures
            state@ == Music::initial(),
            state.queue@.len() == 0,
            state.current is None,
            state.preplay_url is None,
            !state.preplay_active,
    {
        Self { queue: VecDeque::new(), current: None, preplay_url: None, preplay_active: false }
    }

    /// Add a track to the end of the queue.
    pub fn enqueue(&mut self, track: Track)
        ensures
            final(self)@ == old(self)@.enqueued(track),
            final(self).queue@ == old(self).queue@.push(track),
            final(self).current == old(self).current,
            final(self).preplay_active == old(self).preplay_active,
            final(self).preplay_url == old(self).preplay_url,
    {
        self.queue.push_back(track);
    }

    /// Record an ordered group of tracks that was appended to the voice driver's queue.
    /// If playback was idle, the first track becomes current and the remainder
    /// become the upcoming queue.
    pub fn enqueue_batch(&mut self, tracks: Vec<Track>, was_idle: bool)
        ensures
            final(self)@ == old(self)@.enqueued_batch(tracks@, was_idle),
            !was_idle ==> final(self).queue@ == old(self).queue@ + tracks@,
            !was_idle ==> final(self).current == old(self).current,
            !was_idle ==> final(self).preplay_active == old(self).preplay_active,
            was_idle && tracks@.len() > 0 ==> final(self).current == Some(tracks@[0]),
            was_idle && tracks@.len() > 0 ==> final(self).queue@ == old(self).queue@
                + tracks@.skip(1),
            was_idle && tracks@.len() == 0 ==> final(self).current is None && final(self).queue@
                == old(self).queue@,
            was_idle ==> !final(self).preplay_active,
            final(self).preplay_url == old(self).preplay_url,
    {
        let ghost before = self@;
        if was_idle {
            self.preplay_active = false;
            self.current = None;
        }
        let mut first: bool = was_idle;
        for track in it: tracks
            invariant
                it.seq() == tracks@,
                first == (was_idle && it.index() == 0),
                self@ == before.enqueued_batch(tracks@.take(it.index() as int), was_idle),
        {
            let ghost seen = tracks@.take(it.index() as int);
            assert(tracks@.take(it.index() + 1) =~= seen.push(track));
            if first {
                self.current = Some(track);
                first = false;
            } else {
                self.queue.push_back(track);
            }
        }
        assert(tracks@.take(tracks@.len() as int) =~= tracks@);
    }

    /// Advance to the next track: returns it if the queue is non-empty.
    pub fn advance(&mut self) -> (next: Option<Track>)
        ensures
            next == old(self)@.next_track(),
            final(self)@ == old(self)@.advanced(),
            final(self).current == next,
            !final(self).preplay_active,
            next matches Some(track) ==> old(self).queue@ == seq![track] + final(self).queue@,
            next is None ==> old(self).queue@.len() == 0 && final(self).queue@.len() == 0,
            final(self).preplay_url == old(self).preplay_url,
    {
        self.preplay_active = false;
        let next = self.queue.pop_front();
        self.current = match &next {
            Some(track) => Some(track.clone()),
            None => None,
        };
        next
    }

    /// Mark the inserted pre-play clip as current without consuming the next song.
    pub fn begin_preplay(&mut self) -> (begun: bool)
        ensures
            begun == (old(self)@.queue.len() > 0),
            begun == (old(self).queue@.len() > 0),
            begun ==> final(self).current is None && final(self).preplay_active,
            !begun ==> final(self).current == old(self).current && final(self).preplay_active
                == old(self).preplay_active,
            final(self).queue@ == old(self).queue@,
            final(self).preplay_url == old(self).preplay_url,
            final(self)@ == if begun {
                old(self)@.preplay_begun()
            } else {
                old(self)@
            },
    {
        if self.queue.len() == 0 {
            return false;
        }
        self.current = None;
        self.preplay_active = true;
        true
    }

    /// Finish the active pre-play clip and promote the next song to current.
    pub fn finish_preplay(&mut self) -> (next: Option<Track>)
        ensures
            old(self)@.preplay_active ==> next == old(self)@.next_track() && final(self)@ == old(
                self,
            )@.advanced(),
            !old(self)@.preplay_active ==> next is None && final(self)@ == old(self)@,
            old(self).preplay_active ==> final(self).current == next,
            old(self).preplay_active && old(self).queue@.len() > 0 ==> next == Some(
                old(self).queue@[0],
            ) && final(self).queue@ == old(self).queue@.skip(1),
            old(self).preplay_active && old(self).queue@.len() == 0 ==> next is None,
            !final(self).preplay_active,
            !old(self).preplay_active ==> final(self).current == old(self).current,
            !old(self).preplay_active ==> final(self).queue@ == old(self).queue@,
            final(self).preplay_url == old(self).preplay_url,
    {
        if !self.preplay_active {
            return None;
        }
        self.advance()
    }

    /// Clear current track and queue (used by /leave).
    pub fn clear(&mut self)
        ensures
            final(self)@ == old(self)@.cleared(),
            final(self).queue@.len() == 0,
            final(self).current is None,
            !final(self).preplay_active,
            final(self).preplay_url == old(self).preplay_url,
    {
        self.current = None;
        self.queue.clear();
        self.preplay_active = false;
    }

    /// Clear only upcoming tracks, preserving whatever is currently playing.
    pub fn clear_queue(&mut self) -> (cleared: usize)
        ensures
            cleared == old(self)@.queue.len(),
            final(self)@ == old(self)@.queue_cleared(),
            cleared == old(self).queue@.len(),
            final(self).queue@.len() == 0,
            final(self).current == old(self).current,
            final(self).preplay_active == old(self).preplay_active,
            final(self).preplay_url == old(self).preplay_url,
    {
        let cleared = self.queue.len();
        self.queue.clear();
        cleared
    }

    /// Return whether an event belongs to the current music track.
    pub fn is_current_playback(&self, playback_id: &str) -> (r: bool)
        ensures
            r == self@.is_current(playback_id@),
            r == match self.current {
                Some(track) => match track.playback_id {
                    Some(id) => id@ == playback_id@,
                    None => false,
                },
                None => false,
            },
    {
        match &self.current {
            Some(track) => match &track.playback_id {
                Some(id) => text::same(id.as_str(), playback_id),
                None => false,
            },
            None => false,
        }
    }

    /// Enable pre-play audio or replace the guild's current URL.
    pub fn enable_preplay(&mut self, url: String)
        ensures
            final(self)@ == old(self)@.with_preplay_url(Some(url)),
            final(self).preplay_url == Some(url),
            final(self).queue@ == old(self).queue@,
            final(self).current == old(self).current,
            final(self).preplay_active == old(self).preplay_active,
    {
        self.preplay_url = Some(url);
    }

    /// Disable future pre-play audio without changing music playback state.
    pub fn disable_preplay(&mut self) -> (was_enabled: bool)
        ensures
            was_enabled == (old(self)@.preplay_url is Some),
            final(self)@ == old(self)@.with_preplay_url(None),
            was_enabled == (old(self).preplay_url is Some),
            final(self).preplay_url is None,
            final(self).queue@ == old(self).queue@,
            final(self).current == old(self).current,
            final(self).preplay_active == old(self).preplay_active,
    {
        self.preplay_url.take().is_some()
    }
}

/// Tracks play in the order of the queue: the one at `k` becomes current after `k + 1` more tracks
/// have ended, with those behind it still waiting.
pub proof fn queue_plays_in_order(music: Music, k: nat)
    requires
        k < music.queue.len(),
    ensures
        music.advanced_by(k + 1).current == Some(music.queue[k as int]),
        music.advanced_by(k + 1).queue == music.queue.skip(k + 1int),
    decreases k,
{
    if k > 0 {
        queue_plays_in_order(music, (k - 1) as nat);
        assert(music.queue.skip(k as int).skip(1) =~= music.queue.skip(k + 1int));
    } else {
        assert(music.advanced_by(0) == music);
        assert(music.advanced_by(1) == music.advanced_by(0).advanced());
    }
}

/// The next track leaves the front of the queue and becomes the current one: the tracks that are
/// current and upcoming afterwards are exactly those that were upcoming before.
pub proof fn advancing_loses_nothing(music: Music)
    ensures
        music.queue.len() > 0 ==> music.advanced().current == Some(music.queue[0])
            && seq![music.queue[0]] + music.advanced().queue == music.queue,
        music.queue.len() == 0 ==> music.advanced().current is None && music.advanced().queue.len()
            == 0,
        music.advanced().current == music.next_track(),
        !music.advanced().preplay_active,
{
    if music.queue.len() > 0 {
        assert(seq![music.queue[0]] + music.queue.skip(1) =~= music.queue);
    }
}

/// What waits keeps its order and its place in front of what is queued later.
pub proof fn queueing_goes_to_the_end(
    music: Music,
    track: Track,
    tracks: Seq<Track>,
    was_idle: bool,
)
    ensures
        music.enqueued(track).queue.drop_last() == music.queue,
        music.enqueued(track).queue.last() == track,
        music.enqueued(track).current == music.current,
        music.enqueued(track).preplay_active == music.preplay_active,
        music.enqueued_batch(tracks, was_idle).queue.take(music.queue.len() as int) == music.queue,
        !was_idle ==> music.enqueued_batch(tracks, was_idle).queue.skip(music.queue.len() as int)
            == tracks,
        !was_idle ==> music.enqueued_batch(tracks, was_idle).current == music.current,
        was_idle && tracks.len() > 0 ==> music.enqueued_batch(tracks, was_idle).current == Some(
            tracks[0],
        ) && seq![tracks[0]] + music.enqueued_batch(tracks, was_idle).queue.skip(
            music.queue.len() as int,
        ) == tracks,
{
    assert(music.enqueued(track).queue.drop_last() =~= music.queue);
    let after = music.enqueued_batch(tracks, was_idle).queue;
    assert(after.take(music.queue.len() as int) =~= music.queue);
    if !was_idle {
        assert(after.skip(music.queue.len() as int) =~= tracks);
    } else if tracks.len() > 0 {
        assert(seq![tracks[0]] + after.skip(music.queue.len() as int) =~= tracks);
    }
}

/// Clearing the queue touches only what waits; clearing everything stops what plays too. Removing
/// and moving touch only the one track.
pub proof fn clearing_touches_only_its_part(music: Music, index: int, to: int)
    requires
        0 <= index < music.queue.len(),
        0 <= to < music.queue.len(),
    ensures
        music.queue_cleared().queue.len() == 0,
        music.queue_cleared().current == music.current,
        music.queue_cleared().preplay_active == music.preplay_active,
        music.cleared().queue.len() == 0,
        music.cleared().current is None,
        !music.cleared().preplay_active,
        music.without(index).queue.insert(index, music.queue[index]) == music.queue,
        music.without(index).current == music.current,
        music.without(index).preplay_active == music.preplay_active,
        music.reordered(index, to).queue[to] == music.queue[index],
        music.reordered(index, to).queue.remove(to) == music.without(index).queue,
        music.reordered(index, to).current == music.current,
        music.reordered(index, to).preplay_active == music.preplay_active,
{
    assert(music.without(index).queue.insert(index, music.queue[index]) =~= music.queue);
    playback::moving_keeps_the_others_in_order(music.queue, index, to);
}

/// A batch that is queued in silence plays from its first track on, in order.
pub proof fn idle_batch_starts_playing(music: Music, tracks: Seq<Track>)
    requires
        music.queue.len() == 0,
        tracks.len() > 0,
    ensures
        music.enqueued_batch(tracks, true).current == Some(tracks[0]),
        music.enqueued_batch(tracks, true).queue == tracks.skip(1),
        !music.enqueued_batch(tracks, true).preplay_active,
{
    assert(music.queue + tracks.skip(1) =~= tracks.skip(1));
}

/// A pre-play clip only delays the music: once it ends, the state is the one without the clip.
pub proof fn preplay_only_delays(music: Music)
    requires
        music.queue.len() > 0,
    ensures
        music.preplay_begun().queue == music.queue,
        music.preplay_begun().advanced() == music.advanced(),
{
}

/// Queueing tracks one after the other or as one batch comes to the same while something plays.
pub proof fn batch_is_repeated_enqueue(music: Music, tracks: Seq<Track>, track: Track)
    ensures
        music.enqueued_batch(tracks, false).enqueued(track) == music.enqueued_batch(
            tracks.push(track),
            false,
        ),
{
    assert((music.queue + tracks).push(track) =~= music.queue + tracks.push(track));
}

/// One batch comes to the same as its two halves, one after the other. Out of silence only the
/// first track of all starts to play.
pub proof fn batch_can_be_split(music: Music, first: Seq<Track>, second: Seq<Track>, was_idle: bool)
    ensures
        music.enqueued_batch(first + second, was_idle) == music.enqueued_batch(
            first,
            was_idle,
        ).enqueued_batch(second, was_idle && first.len() == 0),
{
    let whole = music.enqueued_batch(first + second, was_idle);
    let halves = music.enqueued_batch(first, was_idle).enqueued_batch(
        second,
        was_idle && first.len() == 0,
    );
    assert(whole.queue =~= halves.queue);
}

/// While a pre-play clip plays there is no current track: so it is at first, and every operation
/// keeps it so.
pub proof fn clip_plays_without_current(
    music: Music,
    track: Track,
    tracks: Seq<Track>,
    was_idle: bool,
    url: Option<String>,
    from: int,
    to: int,
)
    requires
        music.clip_excludes_current(),
    ensures
        Music::initial().clip_excludes_current(),
        music.enqueued(track).clip_excludes_current(),
        music.enqueued_batch(tracks, was_idle).clip_excludes_current(),
        music.advanced().clip_excludes_current(),
        music.preplay_begun().clip_excludes_current(),
        music.cleared().clip_excludes_current(),
        music.queue_cleared().clip_excludes_current(),
        music.without(from).clip_excludes_current(),
        music.reordered(from, to).clip_excludes_current(),
        music.with_preplay_url(url).clip_excludes_current(),
{
}

/// No playback operation changes the guild's pre-play URL.
pub proof fn playback_keeps_preplay_url(
    music: Music,
    track: Track,
    tracks: Seq<Track>,
    was_idle: bool,
    from: int,
    to: int,
)
    ensures
        music.enqueued(track).preplay_url == music.preplay_url,
        music.enqueued_batch(tracks, was_idle).preplay_url == music.preplay_url,
        music.advanced().preplay_url == music.preplay_url,
        music.preplay_begun().preplay_url == music.preplay_url,
        music.cleared().preplay_url == music.preplay_url,
        music.queue_cleared().preplay_url == music.preplay_url,
        music.without(from).preplay_url == music.preplay_url,
        music.reordered(from, to).preplay_url == music.preplay_url,
{
}

}
