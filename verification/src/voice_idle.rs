//! Leaving voice channels without human listeners.
//!
//! A guild whose voice channel has no human listeners gets one timer. A listener who comes cancels
//! it. When it expires, the bot stops playback, clears the queue and disconnects.

use std::collections::HashMap;
use vstd::prelude::*;

verus! {

broadcast use vstd::std_specs::hash::group_hash_axioms;

/// How long a voice channel may have no human listeners, in seconds.
pub const EMPTY_CHANNEL_SECONDS: u64 = 600;

/// The empty-channel timers: at most one per guild, each with an identity of its own.
#[derive(Debug)]
pub struct EmptyChannelTimers {
    running: HashMap<u64, u64>,
    next_generation: u64,
}

/// The identities of the guilds' timers, and the next identity.
#[verifier::ext_equal]
pub struct TimersView {
    pub running: Map<u64, u64>,
    pub next_generation: u64,
}

impl View for EmptyChannelTimers {
    type V = TimersView;

    closed spec fn view(&self) -> TimersView {
        TimersView { running: self.running@, next_generation: self.next_generation }
    }
}

/// What to do about a guild's timer.
#[derive(Clone, Copy, Debug, PartialEq, Eq, Structural)]
pub enum TimerAction {
    /// Start a timer with this identity.
    Start(u64),
    /// Cancel the timer.
    Cancel,
    /// Leave everything as it is.
    Nothing,
}

impl TimersView {
    /// No timer runs, and no identity has been given out.
    pub open spec fn initial() -> TimersView {
        TimersView { running: Map::empty(), next_generation: 0 }
    }

    /// The identities in use have been given out already.
    pub open spec fn well_formed(self) -> bool {
        forall|guild_id: u64| #[trigger]
            self.running.contains_key(guild_id) ==> self.running[guild_id] < self.next_generation
    }

    /// What to do when a guild's channel is empty or not.
    pub open spec fn action(self, guild_id: u64, empty: bool) -> TimerAction {
        match (empty, self.running.contains_key(guild_id)) {
            (true, false) => TimerAction::Start(self.next_generation),
            (false, true) => TimerAction::Cancel,
            _ => TimerAction::Nothing,
        }
    }

    /// The timers after that.
    pub open spec fn refreshed(self, guild_id: u64, empty: bool) -> TimersView {
        match self.action(guild_id, empty) {
            TimerAction::Start(generation) => TimersView {
                running: self.running.insert(guild_id, generation),
                next_generation: generation.wrapping_add(1),
            },
            TimerAction::Cancel => TimersView { running: self.running.remove(guild_id), ..self },
            TimerAction::Nothing => self,
        }
    }

    /// Whether a timer that expires is still the guild's timer.
    pub open spec fn fires(self, guild_id: u64, generation: u64) -> bool {
        self.running.contains_key(guild_id) && self.running[guild_id] == generation
    }

    /// The timers after a timer has expired.
    pub open spec fn expired(self, guild_id: u64, generation: u64) -> TimersView {
        if self.fires(guild_id, generation) {
            TimersView { running: self.running.remove(guild_id), ..self }
        } else {
            self
        }
    }
}

/// Whether the bot is in a voice channel without human listeners. `listeners` counts the humans in
/// the bot's channel, where it is in one.
pub open spec fn nobody_listens(listeners: Option<usize>) -> bool {
    listeners == Some(0usize)
}

/// A member of a guild's voice channels.
#[derive(Clone, Copy, Debug, PartialEq, Eq, Structural)]
pub struct VoiceMember {
    /// The channel that the member is in.
    pub channel_id: Option<u64>,
    /// Whether the member is a bot, where that is known.
    pub is_bot: Option<bool>,
}

/// Whether a member listens in the channel: it is there, and not known to be a bot.
pub open spec fn listens(member: VoiceMember, channel_id: u64) -> bool {
    member.channel_id == Some(channel_id) && member.is_bot != Some(true)
}

/// The members who listen in the channel.
pub open spec fn listeners_in(members: Seq<VoiceMember>, channel_id: u64) -> Seq<VoiceMember> {
    members.filter(|member: VoiceMember| listens(member, channel_id))
}

proof fn same_filter(
    members: Seq<VoiceMember>,
    p: spec_fn(VoiceMember) -> bool,
    q: spec_fn(VoiceMember) -> bool,
)
    requires
        forall|member: VoiceMember| #[trigger] p(member) == q(member),
    ensures
        members.filter(p) == members.filter(q),
    decreases members.len(),
{
    reveal(Seq::filter);
    if members.len() > 0 {
        same_filter(members.drop_last(), p, q);
        assert(p(members.last()) == q(members.last()));
    }
}

/// How many members listen in the channel.
pub fn human_listeners(members: &Vec<VoiceMember>, channel_id: u64) -> (count: usize)
    ensures
        count == listeners_in(members@, channel_id).len(),
        count == members@.filter(
            |member: VoiceMember|
                member.channel_id == Some(channel_id) && member.is_bot != Some(true),
        ).len(),
{
    proof {
        let p = |member: VoiceMember|
            member.channel_id == Some(channel_id) && member.is_bot != Some(true);
        let q = |member: VoiceMember| listens(member, channel_id);
        same_filter(members@, p, q);
    }
    let mut count: usize = 0;
    let mut i: usize = 0;
    proof {
        reveal(Seq::filter);
    }
    while i < members.len()
        invariant
            i <= members.len(),
            count <= i,
            count == listeners_in(members@.take(i as int), channel_id).len(),
        decreases members.len() - i,
    {
        proof {
            reveal(Seq::filter);
            assert(members@.take(i + 1).drop_last() =~= members@.take(i as int));
        }
        let in_channel = match members[i].channel_id {
            Some(id) => id == channel_id,
            None => false,
        };
        let is_bot = match members[i].is_bot {
            Some(is_bot) => is_bot,
            None => false,
        };
        if in_channel && !is_bot {
            count += 1;
        }
        i += 1;
    }
    assert(members@.take(members@.len() as int) =~= members@);
    count
}

impl EmptyChannelTimers {
    /// No timer runs.
    pub fn new() -> (timers: Self)
        ensures
            timers@ == TimersView::initial(),
            timers@.running == Map::<u64, u64>::empty(),
    {
        EmptyChannelTimers { running: HashMap::new(), next_generation: 0 }
    }

    /// Start or cancel a guild's timer when its voice membership has changed.
    pub fn refresh(&mut self, guild_id: u64, listeners: Option<usize>) -> (action: TimerAction)
        ensures
            action == old(self)@.action(guild_id, nobody_listens(listeners)),
            final(self)@ == old(self)@.refreshed(guild_id, nobody_listens(listeners)),
            ({
                let was_running = old(self)@.running.contains_key(guild_id);
                let next = old(self)@.next_generation;
                &&& listeners == Some(0usize) && !was_running ==> action == TimerAction::Start(next)
                    && final(self)@.running == old(self)@.running.insert(guild_id, next)
                    && final(self)@.next_generation == next.wrapping_add(1)
                &&& listeners != Some(0usize) && was_running ==> action == TimerAction::Cancel
                    && final(self)@.running == old(self)@.running.remove(guild_id)
                    && final(self)@.next_generation == next
                &&& (listeners == Some(0usize)) == was_running ==> action == TimerAction::Nothing
                    && final(self)@ == old(self)@
            }),
    {
        let empty = match listeners {
            Some(count) => count == 0,
            None => false,
        };
        if self.running.contains_key(&guild_id) {
            if empty {
                TimerAction::Nothing
            } else {
                self.running.remove(&guild_id);
                TimerAction::Cancel
            }
        } else if empty {
            let generation: u64 = self.next_generation;
            self.running.insert(guild_id, generation);
            self.next_generation = generation.wrapping_add(1);
            TimerAction::Start(generation)
        } else {
            TimerAction::Nothing
        }
    }

    /// Whether the timer that expires is still the guild's timer, so that the bot leaves. A timer
    /// fires once.
    pub fn expire(&mut self, guild_id: u64, generation: u64) -> (fires: bool)
        ensures
            fires == old(self)@.fires(guild_id, generation),
            final(self)@ == old(self)@.expired(guild_id, generation),
            fires == (old(self)@.running.contains_key(guild_id) && old(self)@.running[guild_id]
                == generation),
            fires ==> final(self)@.running == old(self)@.running.remove(guild_id),
            !fires ==> final(self)@.running == old(self)@.running,
            final(self)@.next_generation == old(self)@.next_generation,
    {
        let fires = match self.running.get(&guild_id) {
            Some(current) => *current == generation,
            None => false,
        };
        if fires {
            self.running.remove(&guild_id);
        }
        fires
    }
}

impl Default for EmptyChannelTimers {
    fn default() -> (timers: Self)
        ensures
            timers@ == TimersView::initial(),
    {
        EmptyChannelTimers::new()
    }
}

/// Identities only grow, so that none in use is given out again, until all 64 bits are used up.
pub proof fn identities_grow(timers: TimersView, guild_id: u64, empty: bool, generation: u64)
    requires
        timers.well_formed(),
        timers.next_generation < u64::MAX,
    ensures
        TimersView::initial().well_formed(),
        timers.refreshed(guild_id, empty).well_formed(),
        timers.refreshed(guild_id, empty).next_generation >= timers.next_generation,
        timers.expired(guild_id, generation).well_formed(),
{
}

/// What may happen to the timers: a guild's channel is found empty or not, or a timer expires.
pub enum TimerEvent {
    Refresh { guild_id: u64, empty: bool },
    Expire { guild_id: u64, generation: u64 },
}

impl TimersView {
    /// The timers after an event.
    pub open spec fn after_event(self, event: TimerEvent) -> TimersView {
        match event {
            TimerEvent::Refresh { guild_id, empty } => self.refreshed(guild_id, empty),
            TimerEvent::Expire { guild_id, generation } => self.expired(guild_id, generation),
        }
    }

    /// The timers after events, one after the other.
    pub open spec fn after_events(self, events: Seq<TimerEvent>) -> TimersView
        decreases events.len(),
    {
        if events.len() == 0 {
            self
        } else {
            self.after_event(events[0]).after_events(events.drop_first())
        }
    }
}

/// A timer that a listener has cancelled never makes the bot leave, whatever happens later: not
/// even once the channel is empty again and a newer timer runs.
pub proof fn stale_timer_never_fires(
    timers: TimersView,
    guild_id: u64,
    generation: u64,
    events: Seq<TimerEvent>,
)
    requires
        timers.well_formed(),
        timers.next_generation + events.len() < u64::MAX,
        timers.fires(guild_id, generation),
    ensures
        !timers.refreshed(guild_id, false).after_events(events).fires(guild_id, generation),
{
    stale_stays_stale(timers.refreshed(guild_id, false), guild_id, generation, events);
}

proof fn stale_stays_stale(
    timers: TimersView,
    guild_id: u64,
    generation: u64,
    events: Seq<TimerEvent>,
)
    requires
        generation < timers.next_generation,
        timers.next_generation + events.len() < u64::MAX,
        !timers.fires(guild_id, generation),
    ensures
        !timers.after_events(events).fires(guild_id, generation),
    decreases events.len(),
{
    if events.len() > 0 {
        stale_stays_stale(
            timers.after_event(events[0]),
            guild_id,
            generation,
            events.drop_first(),
        );
    }
}

/// A timer that has made the bot leave does not do so again.
pub proof fn timer_fires_once(timers: TimersView, guild_id: u64, generation: u64)
    ensures
        !timers.expired(guild_id, generation).fires(guild_id, generation),
{
}

/// While one member of the channel is not known to be a bot, no timer starts or goes on.
pub proof fn listener_keeps_the_bot(
    timers: TimersView,
    guild_id: u64,
    members: Seq<VoiceMember>,
    channel_id: u64,
    count: usize,
    k: int,
)
    requires
        count == listeners_in(members, channel_id).len(),
        0 <= k < members.len(),
        listens(members[k], channel_id),
    ensures
        !nobody_listens(Some(count)),
        !(timers.action(guild_id, nobody_listens(Some(count))) is Start),
        !timers.refreshed(guild_id, nobody_listens(Some(count))).running.contains_key(guild_id),
{
    let p = |member: VoiceMember| listens(member, channel_id);
    members.lemma_filter_contains(p, k);
}

/// A channel that stays empty keeps its timer, and so does every other guild.
pub proof fn timers_keep_running(
    timers: TimersView,
    guild_id: u64,
    generation: u64,
    other_guild: u64,
    other_empty: bool,
)
    requires
        timers.fires(guild_id, generation),
    ensures
        timers.refreshed(guild_id, true) == timers,
        other_guild != guild_id ==> timers.refreshed(other_guild, other_empty).fires(
            guild_id,
            generation,
        ),
{
}

}
