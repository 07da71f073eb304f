//! The voice driver's playback queue, and how a guild's music state mirrors it.
//!
//! The entry in front of the playback queue is the one that plays. The operations here work on
//! any kind of entry.

use std::collections::VecDeque;
use vstd::prelude::*;

use crate::commands::guild_state;
use crate::commands::guild_state::{Music, Track};

verus! {

/// `queue` with the entry at `from` taken out and put back at `to`.
pub open spec fn moved<T>(queue: Seq<T>, from: int, to: int) -> Seq<T> {
    queue.remove(from).insert(to, queue[from])
}

/// How many entries of a playback queue play: one, unless the queue is empty.
pub open spec fn playing<T>(queue: Seq<T>) -> int {
    if queue.len() == 0 {
        0
    } else {
        1
    }
}

/// Takes out every entry behind the one that plays, and returns them.
pub fn drop_upcoming<T>(queue: &mut VecDeque<T>) -> (removed: VecDeque<T>)
    ensures
        final(queue)@ == old(queue)@.take(playing(old(queue)@)),
        removed@ == old(queue)@.skip(playing(old(queue)@)),
        old(queue)@.len() > 0 ==> final(queue)@ == seq![old(queue)@[0]],
        final(queue)@ + removed@ == old(queue)@,
{
    let ghost before = queue@;
    proof {
        upcoming_is_all_but_the_first(before);
    }
    let keep: usize = if queue.len() == 0 {
        0
    } else {
        1
    };
    queue.split_off(keep)
}

/// Takes out the `index`-th entry behind the one that plays, if there is one.
pub fn remove_upcoming<T>(queue: &mut VecDeque<T>, index: usize) -> (removed: Option<T>)
    requires
        index < usize::MAX,
    ensures
        index + 1 < old(queue)@.len() ==> removed == Some(old(queue)@[index + 1]) && final(queue)@
            == old(queue)@.remove(index + 1),
        index + 1 >= old(queue)@.len() ==> removed is None && final(queue)@ == old(queue)@,
{
    queue.remove(index + 1)
}

/// Moves the `from`-th entry behind the one that plays to place `to` behind it,
/// and says whether there was such an entry.
pub fn move_upcoming<T>(queue: &mut VecDeque<T>, from: usize, to: usize) -> (found: bool)
    requires
        from < usize::MAX,
        to < usize::MAX,
        from + 1 < old(queue)@.len() ==> to + 1 < old(queue)@.len(),
    ensures
        found == (from + 1 < old(queue)@.len()),
        final(queue)@ == if found {
            moved(old(queue)@, from + 1, to + 1)
        } else {
            old(queue)@
        },
        found ==> final(queue)@.remove(to + 1) == old(queue)@.remove(from + 1),
        found ==> final(queue)@[to + 1] == old(queue)@[from + 1],
{
    proof {
        if from + 1 < queue@.len() {
            moving_keeps_the_others_in_order(queue@, from + 1, to + 1);
        }
    }
    match queue.remove(from + 1) {
        Some(entry) => {
            queue.insert(to + 1, entry);
            true
        },
        None => false,
    }
}

/// Whether the music state shows what the playback queue holds: the same upcoming tracks in the
/// same order, and in front the current track or an active pre-play clip.
/// `playback` holds the playback ids of the driver's entries.
pub open spec fn mirrors(playback: Seq<Seq<char>>, music: Music) -> bool {
    if playback.len() == 0 {
        &&& music.current is None
        &&& music.queue.len() == 0
        &&& !music.preplay_active
    } else {
        &&& music.queue.len() == playback.len() - 1
        &&& forall|i: int|
            0 <= i < music.queue.len() ==> guild_state::opt_text((#[trigger] music.queue[i]).playback_id)
                == Some(playback[i + 1])
        &&& if music.preplay_active {
            music.current is None
        } else {
            music.is_current(playback[0])
        }
    }
}

/// Whether the tracks carry these playback ids, one each.
pub open spec fn carry_ids(tracks: Seq<Track>, ids: Seq<Seq<char>>) -> bool {
    &&& tracks.len() == ids.len()
    &&& forall|i: int|
        0 <= i < tracks.len() ==> guild_state::opt_text((#[trigger] tracks[i]).playback_id) == Some(ids[i])
}

/// A fresh state mirrors an empty playback queue.
pub proof fn silence_mirrors()
    ensures
        mirrors(seq![], Music::initial()),
{
}

/// Appending a batch to the playback queue and recording it keeps the two in step.
pub proof fn enqueue_keeps_mirror(
    playback: Seq<Seq<char>>,
    music: Music,
    tracks: Seq<Track>,
    ids: Seq<Seq<char>>,
)
    requires
        mirrors(playback, music),
        carry_ids(tracks, ids),
    ensures
        mirrors(playback + ids, music.enqueued_batch(tracks, playback.len() == 0)),
{
    let after = music.enqueued_batch(tracks, playback.len() == 0);
    let both = playback + ids;
    assert forall|i: int| 0 <= i < after.queue.len() implies guild_state::opt_text(
        (#[trigger] after.queue[i]).playback_id,
    ) == Some(both[i + 1]) by {
        if i < music.queue.len() {
            assert(after.queue[i] == music.queue[i]);
        } else if playback.len() == 0 {
            assert(after.queue[i] == tracks[i + 1]);
        } else {
            assert(after.queue[i] == tracks[i - music.queue.len()]);
        }
    }
}

/// Dropping what is upcoming on both sides keeps them in step.
pub proof fn clear_upcoming_keeps_mirror(playback: Seq<Seq<char>>, music: Music)
    requires
        mirrors(playback, music),
    ensures
        mirrors(playback.take(playing(playback)), music.queue_cleared()),
{
}

/// Emptying both sides keeps them in step.
pub proof fn clear_keeps_mirror(music: Music)
    ensures
        mirrors(seq![], music.cleared()),
{
}

/// Removing the same upcoming track on both sides keeps them in step.
pub proof fn remove_keeps_mirror(playback: Seq<Seq<char>>, music: Music, index: int)
    requires
        mirrors(playback, music),
        0 <= index < music.queue.len(),
    ensures
        mirrors(playback.remove(index + 1), music.without(index)),
{
}

/// Moving the same upcoming track on both sides keeps them in step.
pub proof fn reorder_keeps_mirror(playback: Seq<Seq<char>>, music: Music, from: int, to: int)
    requires
        mirrors(playback, music),
        0 <= from < music.queue.len(),
        0 <= to < music.queue.len(),
    ensures
        mirrors(moved(playback, from + 1, to + 1), music.reordered(from, to)),
{
}

/// When the entry in front ends, the driver drops it; a state that advances stays in step.
/// The entry may be a track or a pre-play clip.
pub proof fn advance_keeps_mirror(playback: Seq<Seq<char>>, music: Music)
    requires
        mirrors(playback, music),
        playback.len() > 0,
    ensures
        mirrors(playback.skip(1), music.advanced()),
{
    if playback.len() > 1 {
        assert(guild_state::opt_text(music.queue[0].playback_id) == Some(playback[1]));
    }
}

/// When a track ends with a clip put behind it, the driver goes on to the clip; a state that
/// begins the pre-play phase stays in step.
pub proof fn preplay_keeps_mirror(playback: Seq<Seq<char>>, music: Music, clip: Seq<char>)
    requires
        mirrors(playback, music),
        music.queue.len() > 0,
    ensures
        mirrors(playback.insert(1, clip).skip(1), music.preplay_begun()),
{
}

/// An upcoming track that ends because it was removed is not taken for the current one.
pub proof fn upcoming_is_not_current(playback: Seq<Seq<char>>, music: Music, index: int)
    requires
        mirrors(playback, music),
        playback.no_duplicates(),
        0 < index < playback.len(),
    ensures
        !music.is_current(playback[index]),
{
}

/// Moving an entry puts it where it is to go, and leaves all the others in their order: without the
/// moved entry, the queue is the same before and after.
pub proof fn moving_keeps_the_others_in_order<T>(queue: Seq<T>, from: int, to: int)
    requires
        0 <= from < queue.len(),
        0 <= to < queue.len(),
    ensures
        moved(queue, from, to)[to] == queue[from],
        moved(queue, from, to).remove(to) == queue.remove(from),
        from <= to ==> moved(queue, from, to) == queue.take(from) + queue.subrange(from + 1, to + 1)
            + seq![queue[from]] + queue.skip(to + 1),
        to <= from ==> moved(queue, from, to) == queue.take(to) + seq![queue[from]]
            + queue.subrange(to, from) + queue.skip(from + 1),
{
    assert(moved(queue, from, to).remove(to) =~= queue.remove(from));
    if from <= to {
        assert(moved(queue, from, to) =~= queue.take(from) + queue.subrange(from + 1, to + 1)
            + seq![queue[from]] + queue.skip(to + 1));
    }
    if to <= from {
        assert(moved(queue, from, to) =~= queue.take(to) + seq![queue[from]] + queue.subrange(
            to,
            from,
        ) + queue.skip(from + 1));
    }
}

/// One entry plays, the first, and all the others are upcoming.
pub proof fn upcoming_is_all_but_the_first<T>(queue: Seq<T>)
    ensures
        queue.len() == 0 ==> playing(queue) == 0,
        queue.len() > 0 ==> playing(queue) == 1,
        queue.take(playing(queue)) + queue.skip(playing(queue)) == queue,
        queue.len() > 0 ==> queue.take(playing(queue)) == seq![queue[0]],
{
    assert(queue.take(playing(queue)) + queue.skip(playing(queue)) =~= queue);
    if queue.len() > 0 {
        assert(queue.take(1) =~= seq![queue[0]]);
    }
}

/// A state fixes what it mirrors: the upcoming entries by their ids and their order, and the one
/// that plays unless it is a pre-play clip.
pub proof fn mirrored_queue_is_fixed(first: Seq<Seq<char>>, second: Seq<Seq<char>>, music: Music)
    requires
        mirrors(first, music),
        mirrors(second, music),
    ensures
        first.len() == second.len(),
        forall|i: int| 1 <= i < first.len() ==> first[i] == second[i],
        !music.preplay_active ==> first == second,
        music.queue.len() == 0 && music.current is None && !music.preplay_active ==> first.len()
            == 0,
        first.len() > 0 ==> music.queue.len() == first.len() - 1,
        forall|i: int|
            0 <= i < music.queue.len() ==> ((#[trigger] music.queue[i]).playback_id matches Some(id)
                && id@ == first[i + 1]),
{
    if first.len() > 0 {
        assert forall|i: int| 1 <= i < first.len() implies first[i] == second[i] by {
            assert(guild_state::opt_text(music.queue[i - 1].playback_id) == Some(first[i]));
        }
    }
    if !music.preplay_active {
        assert(first =~= second);
    }
}

/// Moving an entry neither adds nor loses one.
pub proof fn moving_keeps_entries<T>(queue: Seq<T>, from: int, to: int)
    requires
        0 <= from < queue.len(),
        0 <= to < queue.len(),
    ensures
        moved(queue, from, to).len() == queue.len(),
        moved(queue, from, to).to_multiset() == queue.to_multiset(),
        moved(queue, from, to)[to] == queue[from],
        moved(moved(queue, from, to), to, from) == queue,
{
    broadcast use vstd::seq_lib::to_multiset_remove, vstd::seq_lib::to_multiset_insert;

    queue.to_multiset_ensures();
    assert(moved(moved(queue, from, to), to, from) =~= queue);
    assert(queue.to_multiset().count(queue[from]) > 0);
    assert(moved(queue, from, to).to_multiset() =~= queue.to_multiset());
}

}
