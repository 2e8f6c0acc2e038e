//! The queue operations, each addressed to one guild of the store.

use crate::music::laws::step_keeps_wf;
use crate::music::{
    step, GuildQueue, LoopMode, QueueManager, QueueOp, Song, TrackToken, DEFAULT_VOLUME, MAX_VOLUME,
};
use vstd::prelude::*;

verus! {

broadcast use vstd::std_specs::hash::group_hash_axioms;

/// Appends `song` to the pending songs of `guild_id` and returns their
/// number, which is the position of the song.
pub fn add_song(manager: &mut QueueManager, guild_id: u64, song: Song) -> (len: usize)
    ensures
        final(manager)@ == step(old(manager)@, guild_id, QueueOp::Add(song)),
        old(manager).wf() ==> final(manager).wf(),
        len == old(manager).state(guild_id).pending.len() + 1,
{
    let queue = manager.queues.entry(guild_id).or_insert(GuildQueue::default());
    let len = queue.add_song(song);
    assert(manager@ =~= step(old(manager)@, guild_id, QueueOp::Add(song)));
    proof {
        if old(manager).wf() {
            step_keeps_wf(old(manager)@, guild_id, QueueOp::Add(song));
        }
    }
    len
}

/// Advances the queue of `guild_id` and returns the song to play next.
/// Without a skip, song loop returns the current song again and changes
/// nothing. Otherwise queue loop first moves the current song to the back,
/// and the front pending song becomes current; where none is left the guild
/// goes idle and `None` is returned.
pub fn get_next_song(manager: &mut QueueManager, guild_id: u64, was_skipped: bool) -> (next:
    Option<Song>)
    ensures
        final(manager)@ == step(old(manager)@, guild_id, QueueOp::Advance(was_skipped)),
        old(manager).wf() ==> final(manager).wf(),
        next == old(manager).state(guild_id).next_song(was_skipped),
{
    let queue = manager.queues.entry(guild_id).or_insert(GuildQueue::default());
    let next = queue.advance(was_skipped);
    assert(manager@ =~= step(old(manager)@, guild_id, QueueOp::Advance(was_skipped)));
    proof {
        if old(manager).wf() {
            step_keeps_wf(old(manager)@, guild_id, QueueOp::Advance(was_skipped));
        }
    }
    next
}

/// Empties the queue of `guild_id`: nothing pending, nothing current, no
/// track handle. A guild without an entry gets none.
pub fn clear(manager: &mut QueueManager, guild_id: u64)
    ensures
        final(manager)@ == step(old(manager)@, guild_id, QueueOp::Clear),
        old(manager).wf() ==> final(manager).wf(),
{
    if manager.queues.contains_key(&guild_id) {
        let queue = manager.queues.entry(guild_id).or_insert(GuildQueue::default());
        queue.clear();
    }
    assert(manager@ =~= step(old(manager)@, guild_id, QueueOp::Clear));
    proof {
        if old(manager).wf() {
            step_keeps_wf(old(manager)@, guild_id, QueueOp::Clear);
        }
    }
}

/// The current song of `guild_id` and its pending songs, in order.
pub fn get_queue_list(manager: &QueueManager, guild_id: u64) -> (list: (Option<Song>, Vec<Song>))
    ensures
        list.0 == manager.state(guild_id).current,
        list.1@ == manager.state(guild_id).pending,
{
    match manager.queues.get(&guild_id) {
        Some(queue) => queue.snapshot(),
        None => (None, Vec::new()),
    }
}

/// Puts the pending songs of `guild_id` into a random order and returns how
/// many there are. The songs are those from before, each as often as before;
/// the current song stays.
pub fn shuffle(manager: &mut QueueManager, guild_id: u64) -> (count: usize)
    ensures
        final(manager)@ == step(
            old(manager)@,
            guild_id,
            QueueOp::Reorder(final(manager).state(guild_id).pending),
        ),
        old(manager).wf() ==> final(manager).wf(),
        final(manager).state(guild_id).pending.to_multiset() == old(manager).state(
            guild_id,
        ).pending.to_multiset(),
        count == old(manager).state(guild_id).pending.len(),
{
    let queue = manager.queues.entry(guild_id).or_insert(GuildQueue::default());
    let count = queue.shuffle();
    assert(manager@ =~= step(
        old(manager)@,
        guild_id,
        QueueOp::Reorder(manager.state(guild_id).pending),
    ));
    proof {
        if old(manager).wf() {
            step_keeps_wf(
                old(manager)@,
                guild_id,
                QueueOp::Reorder(manager.state(guild_id).pending),
            );
        }
    }
    count
}

/// Removes the pending song at `position`, counted from 1, from the queue of
/// `guild_id` and returns it. Position 0 and positions past the last pending
/// song return `None` and leave the pending songs as they were. The current
/// song is never touched.
pub fn remove_at(manager: &mut QueueManager, guild_id: u64, position: usize) -> (removed: Option<
    Song,
>)
    ensures
        final(manager)@ == step(old(manager)@, guild_id, QueueOp::RemoveAt(position as nat)),
        old(manager).wf() ==> final(manager).wf(),
        removed == old(manager).state(guild_id).removed_song(position as nat),
{
    let queue = manager.queues.entry(guild_id).or_insert(GuildQueue::default());
    let removed = queue.remove_at(position);
    assert(manager@ =~= step(old(manager)@, guild_id, QueueOp::RemoveAt(position as nat)));
    proof {
        if old(manager).wf() {
            step_keeps_wf(old(manager)@, guild_id, QueueOp::RemoveAt(position as nat));
        }
    }
    removed
}

/// Sets the repeat mode of `guild_id` and returns it.
pub fn set_loop_mode(manager: &mut QueueManager, guild_id: u64, mode: LoopMode) -> (set: LoopMode)
    ensures
        final(manager)@ == step(old(manager)@, guild_id, QueueOp::SetLoopMode(mode)),
        old(manager).wf() ==> final(manager).wf(),
        set == mode,
{
    let queue = manager.queues.entry(guild_id).or_insert(GuildQueue::default());
    let set = queue.set_loop_mode(mode);
    assert(manager@ =~= step(old(manager)@, guild_id, QueueOp::SetLoopMode(mode)));
    proof {
        if old(manager).wf() {
            step_keeps_wf(old(manager)@, guild_id, QueueOp::SetLoopMode(mode));
        }
    }
    set
}

/// Sets the volume of `guild_id`, in percent, and returns the handle of the
/// live track that the caller must retune, if there is one.
pub fn set_volume(manager: &mut QueueManager, guild_id: u64, percent: u8) -> (live: Option<
    TrackToken,
>)
    requires
        percent <= MAX_VOLUME,
    ensures
        final(manager)@ == step(old(manager)@, guild_id, QueueOp::SetVolume(percent as nat)),
        old(manager).wf() ==> final(manager).wf(),
        live == old(manager).state(guild_id).handle,
{
    let queue = manager.queues.entry(guild_id).or_insert(GuildQueue::default());
    let live = queue.set_volume(percent);
    assert(manager@ =~= step(old(manager)@, guild_id, QueueOp::SetVolume(percent as nat)));
    proof {
        if old(manager).wf() {
            step_keeps_wf(old(manager)@, guild_id, QueueOp::SetVolume(percent as nat));
        }
    }
    live
}

/// The current song of `guild_id`.
pub fn get_current(manager: &QueueManager, guild_id: u64) -> (current: Option<Song>)
    ensures
        current == manager.state(guild_id).current,
{
    match manager.queues.get(&guild_id) {
        Some(queue) => match &queue.current_song {
            Some(song) => Some(song.clone()),
            None => None,
        },
        None => None,
    }
}

/// The volume of `guild_id`, in percent.
pub fn get_volume(manager: &QueueManager, guild_id: u64) -> (percent: u8)
    ensures
        percent == manager.state(guild_id).volume,
{
    match manager.queues.get(&guild_id) {
        Some(queue) => queue.volume,
        None => DEFAULT_VOLUME,
    }
}

/// The repeat mode of `guild_id`.
pub fn get_loop_mode(manager: &QueueManager, guild_id: u64) -> (mode: LoopMode)
    ensures
        mode == manager.state(guild_id).loop_mode,
{
    match manager.queues.get(&guild_id) {
        Some(queue) => queue.loop_mode,
        None => LoopMode::Off,
    }
}

/// Whether `guild_id` has no current song and no pending song.
pub fn is_empty(manager: &QueueManager, guild_id: u64) -> (idle: bool)
    ensures
        idle == manager.state(guild_id).is_idle(),
{
    match manager.queues.get(&guild_id) {
        Some(queue) => queue.is_empty(),
        None => true,
    }
}

/// The handle of the track that streams for `guild_id`.
pub fn get_track_handle(manager: &QueueManager, guild_id: u64) -> (handle: Option<TrackToken>)
    ensures
        handle == manager.state(guild_id).handle,
{
    match manager.queues.get(&guild_id) {
        Some(queue) => queue.track_handle,
        None => None,
    }
}

} // verus!
