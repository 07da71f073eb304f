//! Pre-play audio: a configured clip that may play between two music tracks.

use std::collections::VecDeque;
use vstd::prelude::*;

use crate::commands::guild_state;
use crate::playback;
use crate::text;

verus! {

/// The chance of a pre-play clip, in percent, when none is configured.
pub const DEFAULT_CHANCE_PERCENT: u8 = 75;

/// The largest chance, in percent.
pub const MAX_CHANCE_PERCENT: u8 = 100;

/// Process-wide pre-play defaults.
#[derive(Debug)]
pub struct PrePlayConfig {
    /// The clip to use when `/preplay` names none.
    pub url: Option<String>,
    /// The chance of a clip between two tracks, in percent.
    pub chance_percent: u8,
}

/// The chance that the configured text gives: 75 where there is none, and otherwise a whole
/// number of percent from 0 through 100.
pub open spec fn configured_chance(text: Option<Seq<char>>) -> Option<u8> {
    match text {
        None => Some(DEFAULT_CHANCE_PERCENT),
        Some(text) => match text::parsed_u64(text::trimmed(text)) {
            Some(n) if n <= MAX_CHANCE_PERCENT => Some(n as u8),
            _ => None,
        },
    }
}

impl PrePlayConfig {
    pub open spec fn well_formed(self) -> bool {
        self.chance_percent <= MAX_CHANCE_PERCENT
    }

    /// The configuration that the values of `PREPLAY_URL` and `PREPLAY_CHANCE_PERCENT` give,
    /// where they are set.
    pub fn from_env(url: Option<String>, chance_percent: Option<String>) -> (config: Result<
        PrePlayConfig,
        String,
    >)
        ensures
            match configured_chance(guild_state::opt_text(chance_percent)) {
                Some(chance) => config == Ok::<PrePlayConfig, String>(
                    PrePlayConfig { url, chance_percent: chance },
                ),
                None => config matches Err(message) && message@
                    == "PREPLAY_CHANCE_PERCENT must be a whole number from 0 through 100"@,
            },
            config matches Ok(config) ==> config.well_formed(),
            config matches Ok(config) ==> config.url == url && config.chance_percent <= 100,
            chance_percent is None ==> (config matches Ok(config) && config.chance_percent == 75),
            chance_percent matches Some(text) ==> match text::parsed_u64(text::trimmed(text@)) {
                Some(n) => if n <= 100 {
                    config matches Ok(config) && config.chance_percent == n
                } else {
                    config is Err
                },
                None => config is Err,
            },
    {
        let chance: Option<u8> = match &chance_percent {
            None => Some(DEFAULT_CHANCE_PERCENT),
            Some(text) => match text::parse_u64(text::trim(text.as_str())) {
                Some(n) => if n <= MAX_CHANCE_PERCENT as u64 {
                    Some(n as u8)
                } else {
                    None
                },
                None => None,
            },
        };
        match chance {
            Some(chance) => Ok(PrePlayConfig { url, chance_percent: chance }),
            None => Err(
                "PREPLAY_CHANCE_PERCENT must be a whole number from 0 through 100".to_owned(),
            ),
        }
    }
}

/// The clip that `/preplay` turns on: the one it names, and otherwise the configured one.
pub fn preplay_url(named: Option<String>, config: &PrePlayConfig) -> (url: Option<String>)
    ensures
        url == match named {
            Some(named) => Some(named),
            None => config.url,
        },
{
    match named {
        Some(named) => Some(named),
        None => match &config.url {
            Some(url) => Some(url.clone()),
            None => None,
        },
    }
}

impl Default for PrePlayConfig {
    fn default() -> (config: Self)
        ensures
            config == (PrePlayConfig { url: None, chance_percent: DEFAULT_CHANCE_PERCENT }),
            config.url is None && config.chance_percent == 75,
    {
        PrePlayConfig { url: None, chance_percent: DEFAULT_CHANCE_PERCENT }
    }
}

/// Whether a transition between two tracks gets a pre-play clip: the feature is on, both the
/// state and the driver have a next track, and the roll falls below the chance.
pub open spec fn inserts_clip(
    enabled: bool,
    has_next_music: bool,
    driver_has_next: bool,
    chance_percent: u8,
    roll: u8,
) -> bool {
    enabled && has_next_music && driver_has_next && roll < chance_percent
}

/// Decide whether a transition between two tracks gets a pre-play clip.
pub fn transition_should_insert(
    enabled: bool,
    has_next_music: bool,
    driver_has_next: bool,
    chance_percent: u8,
    roll: u8,
) -> (insert: bool)
    ensures
        insert == inserts_clip(enabled, has_next_music, driver_has_next, chance_percent, roll),
        insert == (enabled && has_next_music && driver_has_next && roll < chance_percent),
{
    enabled && has_next_music && driver_has_next && roll < chance_percent
}

/// Whether the entry at `i` is the first one behind the playing entry that matches.
pub open spec fn is_first_match<T, F: Fn(&T) -> bool>(queue: Seq<T>, is_match: F, i: int) -> bool {
    &&& 1 <= i < queue.len()
    &&& is_match.ensures((&queue[i],), true)
    &&& forall|j: int| 1 <= j < i ==> is_match.ensures((&#[trigger] queue[j],), false)
}

/// Move the first entry behind the playing one that matches to the place directly behind it,
/// and say whether there was one.
pub fn move_matching_to_next<T, F: Fn(&T) -> bool>(queue: &mut VecDeque<T>, is_match: F) -> (found:
    bool)
    requires
        forall|entry: &T| is_match.requires((entry,)),
    ensures
        found ==> exists|i: int| #[trigger]
            is_first_match(old(queue)@, is_match, i) && final(queue)@ == playback::moved(
                old(queue)@,
                i,
                1,
            ),
        found ==> exists|i: int|
            {
                &&& 1 <= i < old(queue)@.len()
                &&& final(queue)@[1] == #[trigger] old(queue)@[i]
                &&& final(queue)@.remove(1) == old(queue)@.remove(i)
                &&& is_match.ensures((&old(queue)@[i],), true)
                &&& forall|j: int|
                    1 <= j < i ==> is_match.ensures((&#[trigger] old(queue)@[j],), false)
            },
        !found ==> final(queue)@ == old(queue)@ && forall|j: int|
            1 <= j < old(queue)@.len() ==> is_match.ensures((&#[trigger] old(queue)@[j],), false),
{
    let mut i: usize = 1;
    while i < queue.len()
        invariant
            queue@ == old(queue)@,
            1 <= i,
            forall|entry: &T| is_match.requires((entry,)),
            forall|j: int| 1 <= j < i ==> is_match.ensures((&#[trigger] queue@[j],), false),
        decreases queue.len() - i,
    {
        if is_match(&queue[i]) {
            match queue.remove(i) {
                Some(entry) => {
                    queue.insert(1, entry);
                    assert(is_first_match(old(queue)@, is_match, i as int));
                    assert(queue@.remove(1) =~= old(queue)@.remove(i as int));
                    assert(queue@[1] == old(queue)@[i as int]);
                    return true;
                },
                None => {
                    return false;
                },
            }
        }
        i += 1;
    }
    false
}

/// A chance of 0 percent never inserts a clip.
pub proof fn zero_chance_never_inserts(
    enabled: bool,
    has_next_music: bool,
    driver_has_next: bool,
    roll: u8,
)
    ensures
        !inserts_clip(enabled, has_next_music, driver_has_next, 0, roll),
{
}

/// A chance of 100 percent inserts a clip at every transition that has a next track.
pub proof fn full_chance_always_inserts(roll: u8)
    requires
        roll < 100,
    ensures
        inserts_clip(true, true, true, 100, roll),
        MAX_CHANCE_PERCENT == 100,
{
}

/// A clip comes only where the feature is on and both the state and the driver have a next track;
/// then it comes for as many of the hundred rolls as the chance says: the rolls below it.
pub proof fn chance_counts_rolls(
    enabled: bool,
    has_next_music: bool,
    driver_has_next: bool,
    chance_percent: u8,
    roll: u8,
)
    ensures
        inserts_clip(enabled, has_next_music, driver_has_next, chance_percent, roll) ==> enabled
            && has_next_music && driver_has_next,
        inserts_clip(true, true, true, chance_percent, roll) <==> roll < chance_percent,
{
}

/// The configured chance is what its text says: every whole number from 0 through 100 as it is
/// written, with white space around it or not, no other number, and 75 where there is no text.
pub proof fn chance_is_as_written(n: nat, text: Seq<char>)
    ensures
        n <= 100 ==> configured_chance(Some(text::decimal(n))) == Some(n as u8),
        n > 100 ==> configured_chance(Some(text::decimal(n))) is None,
        configured_chance(Some(text::trimmed(text))) == configured_chance(Some(text)),
        configured_chance(None) == Some(75u8),
{
    text::trimming_twice(text);
    text::decimal_is_bare(n);
    if n <= u64::MAX {
        text::decimal_reads_back(n as u64);
    } else {
        text::large_numbers_are_not_read(n);
    }
}

/// A clip that is appended to the playback queue and is the only entry to match comes directly
/// behind the entry that plays, and everything else keeps its order.
pub proof fn appended_clip_lands_next<T, F: Fn(&T) -> bool>(
    queue: Seq<T>,
    clip: T,
    is_match: F,
    i: int,
)
    requires
        queue.len() > 0,
        forall|j: int| 0 <= j < queue.len() ==> !is_match.ensures((&#[trigger] queue[j],), true),
        is_first_match(queue.push(clip), is_match, i),
    ensures
        i == queue.len(),
        playback::moved(queue.push(clip), i, 1) == queue.insert(1, clip),
{
    if i < queue.len() {
        assert(queue.push(clip)[i] == queue[i]);
    }
    assert(playback::moved(queue.push(clip), i, 1) =~= queue.insert(1, clip));
}

}
