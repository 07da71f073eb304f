//! What the bot keeps for each guild.

use std::collections::HashMap;
use vstd::prelude::*;

verus! {

broadcast use vstd::std_specs::hash::group_hash_axioms;

/// One shared handle per guild, made on first use.
#[derive(Debug)]
pub struct GuildMap<V> {
    handles: HashMap<u64, V>,
}

impl<V> View for GuildMap<V> {
    type V = Map<u64, V>;

    closed spec fn view(&self) -> Map<u64, V> {
        self.handles@
    }
}

/// The map in which `guild_id` has a handle: its own, or the fresh one where it had none.
pub open spec fn with_handle<V>(handles: Map<u64, V>, guild_id: u64, fresh: V) -> Map<u64, V> {
    if handles.contains_key(guild_id) {
        handles
    } else {
        handles.insert(guild_id, fresh)
    }
}

impl<V: Clone> GuildMap<V> {
    /// No guild has a handle yet.
    pub fn new() -> (map: Self)
        ensures
            map@ == Map::<u64, V>::empty(),
    {
        GuildMap { handles: HashMap::new() }
    }

    /// A clone of the guild's handle, if it has one.
    pub fn get(&self, guild_id: u64) -> (handle: Option<V>)
        ensures
            match handle {
                Some(handle) => self@.contains_key(guild_id) && cloned(self@[guild_id], handle),
                None => !self@.contains_key(guild_id),
            },
    {
        match self.handles.get(&guild_id) {
            Some(handle) => Some(handle.clone()),
            None => None,
        }
    }

    /// A clone of the guild's handle. A guild that has none gets `fresh`.
    pub fn get_or_insert(&mut self, guild_id: u64, fresh: V) -> (handle: V)
        ensures
            final(self)@ == with_handle(old(self)@, guild_id, fresh),
            old(self)@.contains_key(guild_id) ==> final(self)@ == old(self)@,
            !old(self)@.contains_key(guild_id) ==> final(self)@ == old(self)@.insert(
                guild_id,
                fresh,
            ),
            cloned(final(self)@[guild_id], handle),
    {
        if let Some(handle) = self.handles.get(&guild_id) {
            return handle.clone();
        }
        let handle = fresh.clone();
        self.handles.insert(guild_id, fresh);
        handle
    }
}

impl<V: Clone> Default for GuildMap<V> {
    fn default() -> (map: Self)
        ensures
            map@ == Map::<u64, V>::empty(),
    {
        GuildMap::new()
    }
}

/// A guild keeps the handle it first got, whatever is offered later and whatever other guilds get.
pub proof fn guild_keeps_its_handle<V>(
    handles: Map<u64, V>,
    guild_id: u64,
    fresh: V,
    other_guild: u64,
    other_fresh: V,
)
    ensures
        ({
            let first = with_handle(handles, guild_id, fresh);
            let second = with_handle(first, other_guild, other_fresh);
            &&& first.contains_key(guild_id)
            &&& second.contains_key(guild_id)
            &&& second[guild_id] == first[guild_id]
            &&& !handles.contains_key(guild_id) ==> first[guild_id] == fresh
            &&& other_guild != guild_id && handles.contains_key(other_guild)
                ==> first.contains_key(other_guild) && first[other_guild] == handles[other_guild]
            &&& other_guild != guild_id && !handles.contains_key(other_guild)
                ==> !first.contains_key(other_guild)
            &&& handles.contains_key(guild_id) ==> first[guild_id] == handles[guild_id]
        }),
{
}

}
