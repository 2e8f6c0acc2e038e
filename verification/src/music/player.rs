//! The decisions of the player: what to hand to the voice transport when a
//! song starts, what follows a track's end or a skip, and what becomes of
//! the handle that the transport gives back. The caller performs the
//! streaming and reports back.

use crate::music::laws::step_keeps_wf;
use crate::music::queue::{add_song, clear, get_next_song, get_track_handle, get_volume, is_empty};
use crate::music::{
    state_of, step, GuildQueue, LoopMode, QueueManager, QueueOp, QueueState, Song, TrackToken,
};
use vstd::prelude::*;

verus! {

broadcast use vstd::std_specs::hash::group_hash_axioms;

/// What the transport needs to start a stream: the song's locator and the
/// volume, in percent, at which it starts.
pub struct StreamRequest {
    pub url: String,
    pub volume: u8,
}

/// What the caller does on the voice transport after an advance.
pub enum PlayerAction {
    /// Start streaming this song.
    Start(Song),
    /// Nothing is left to play: the player stays idle. The handle that the
    /// store held is dropped from it, and the caller lets go of that track.
    Idle { dropped: Option<TrackToken> },
}

/// What became of the handle of a stream that the transport started.
#[derive(Clone, Copy, Debug, PartialEq, Eq, Structural)]
pub enum Recorded {
    /// The handle is stored; it took the place of `replaced`, which the
    /// caller lets go of.
    Kept { replaced: Option<TrackToken> },
    /// The guild has no current song: the handle is not stored, and the
    /// caller stops the stream.
    Refused,
}

/// The store after an advance of `guild_id` as the player makes it: where
/// the advance returns no song the track handle is dropped too.
pub open spec fn after_play_next(store: Map<u64, QueueState>, guild_id: u64, was_skipped: bool)
    -> Map<u64, QueueState> {
    let advanced = step(store, guild_id, QueueOp::Advance(was_skipped));
    if state_of(store, guild_id).next_song(was_skipped) is Some {
        advanced
    } else {
        step(advanced, guild_id, QueueOp::Detach)
    }
}

/// What to hand to the transport to play `song` for `guild_id`: its locator,
/// and the volume that the guild has stored. Nothing is changed yet: the
/// caller reports a stream that started with `track_started`, and one that
/// did not with `track_failed`.
pub fn play_song(manager: &QueueManager, guild_id: u64, song: &Song) -> (request: StreamRequest)
    ensures
        request.url == song.url,
        request.volume == manager.state(guild_id).volume,
{
    StreamRequest { url: song.url.clone(), volume: get_volume(manager, guild_id) }
}

/// Records the handle of the stream that the transport started for
/// `guild_id`. The handle is kept only where the guild has a current song,
/// and then takes the place of the handle that was stored; otherwise the
/// store stays as it was.
pub fn track_started(manager: &mut QueueManager, guild_id: u64, handle: TrackToken) -> (recorded:
    Recorded)
    ensures
        final(manager)@ == step(old(manager)@, guild_id, QueueOp::Attach(handle)),
        recorded == if old(manager).state(guild_id).current is Some {
            Recorded::Kept { replaced: old(manager).state(guild_id).handle }
        } else {
            Recorded::Refused
        },
        old(manager).wf() ==> final(manager).wf(),
{
    let replaced = get_track_handle(manager, guild_id);
    let mut kept = false;
    if manager.queues.contains_key(&guild_id) {
        let queue = manager.queues.entry(guild_id).or_insert(GuildQueue::default());
        kept = queue.attach_handle(handle);
    }
    assert(manager@ =~= step(old(manager)@, guild_id, QueueOp::Attach(handle)));
    proof {
        if old(manager).wf() {
            step_keeps_wf(old(manager)@, guild_id, QueueOp::Attach(handle));
        }
    }
    if kept {
        Recorded::Kept { replaced }
    } else {
        Recorded::Refused
    }
}

/// Records that the transport could not start the stream for `guild_id`,
/// or could not subscribe to its end. No handle is kept for a track that
/// did not start: the handle that was stored is dropped and returned, and
/// the caller lets go of that track. The pending and the current song stay,
/// so the caller may try again, skip on, or report the failure.
pub fn track_failed(manager: &mut QueueManager, guild_id: u64) -> (dropped: Option<TrackToken>)
    ensures
        final(manager)@ == step(old(manager)@, guild_id, QueueOp::Detach),
        dropped == old(manager).state(guild_id).handle,
        old(manager).wf() ==> final(manager).wf(),
{
    let dropped = get_track_handle(manager, guild_id);
    if manager.queues.contains_key(&guild_id) {
        let queue = manager.queues.entry(guild_id).or_insert(GuildQueue::default());
        queue.detach_handle();
    }
    assert(manager@ =~= step(old(manager)@, guild_id, QueueOp::Detach));
    proof {
        if old(manager).wf() {
            step_keeps_wf(old(manager)@, guild_id, QueueOp::Detach);
        }
    }
    dropped
}

/// Stops the music of `guild_id`: the queue is cleared, and the handle
/// that was stored is returned for the caller to let go of.
pub fn stop(manager: &mut QueueManager, guild_id: u64) -> (dropped: Option<TrackToken>)
    ensures
        final(manager)@ == step(old(manager)@, guild_id, QueueOp::Clear),
        dropped == old(manager).state(guild_id).handle,
        old(manager).wf() ==> final(manager).wf(),
{
    let dropped = get_track_handle(manager, guild_id);
    clear(manager, guild_id);
    dropped
}

/// Advances the queue of `guild_id` and says what to play. With a next song
/// the caller starts it; without one the track handle is dropped and the
/// player is idle, with the pending and the current song as the advance left
/// them.
pub fn play_next(manager: &mut QueueManager, guild_id: u64, was_skipped: bool) -> (action:
    PlayerAction)
    ensures
        final(manager)@ == after_play_next(old(manager)@, guild_id, was_skipped),
        action == match old(manager).state(guild_id).next_song(was_skipped) {
            Some(song) => PlayerAction::Start(song),
            None => PlayerAction::Idle { dropped: old(manager).state(guild_id).handle },
        },
        old(manager).wf() ==> final(manager).wf(),
{
    let dropped = get_track_handle(manager, guild_id);
    proof {
        if old(manager).wf() {
            let advanced = step(old(manager)@, guild_id, QueueOp::Advance(was_skipped));
            step_keeps_wf(old(manager)@, guild_id, QueueOp::Advance(was_skipped));
            step_keeps_wf(advanced, guild_id, QueueOp::Detach);
        }
    }
    match get_next_song(manager, guild_id, was_skipped) {
        Some(song) => PlayerAction::Start(song),
        None => {
            let queue = manager.queues.entry(guild_id).or_insert(GuildQueue::default());
            queue.detach_handle();
            assert(manager@ =~= after_play_next(old(manager)@, guild_id, was_skipped));
            PlayerAction::Idle { dropped }
        },
    }
}

/// What became of a request to play a song.
pub enum Enqueued {
    /// Nothing was playing and nothing waited: the caller starts this song.
    PlayNow(Song),
    /// The song waits at this position, counted from 1.
    Queued(usize),
    /// Nothing was playing, yet the advance returned no song: the song waits
    /// and nothing starts. This happens with song loop set on an idle guild.
    Waiting,
}

/// The store after a request to play `song` for `guild_id`: the song is
/// added, and on a guild that was idle an advance without a skip follows.
pub open spec fn after_enqueue(store: Map<u64, QueueState>, guild_id: u64, song: Song) -> Map<
    u64,
    QueueState,
> {
    let added = step(store, guild_id, QueueOp::Add(song));
    if state_of(store, guild_id).is_idle() {
        step(added, guild_id, QueueOp::Advance(false))
    } else {
        added
    }
}

/// Takes a request to play `song` for `guild_id`. The song is added to the
/// pending songs. Where the guild was idle, the player advances at once and
/// the caller starts what the advance returns; otherwise the song waits.
pub fn enqueue(manager: &mut QueueManager, guild_id: u64, song: Song) -> (outcome: Enqueued)
    ensures
        final(manager)@ == after_enqueue(old(manager)@, guild_id, song),
        outcome == if !old(manager).state(guild_id).is_idle() {
            Enqueued::Queued((old(manager).state(guild_id).pending.len() + 1) as usize)
        } else {
            match old(manager).state(guild_id).add(song).next_song(false) {
                Some(first) => Enqueued::PlayNow(first),
                None => Enqueued::Waiting,
            }
        },
        old(manager).wf() ==> final(manager).wf(),
{
    let is_first = is_empty(manager, guild_id);
    let position = add_song(manager, guild_id, song);
    if is_first {
        match get_next_song(manager, guild_id, false) {
            Some(first) => Enqueued::PlayNow(first),
            None => Enqueued::Waiting,
        }
    } else {
        Enqueued::Queued(position)
    }
}

/// A request on an idle guild starts the requested song itself, unless song
/// loop is set; afterwards that song is current and nothing waits.
pub proof fn first_request_plays(state: QueueState, song: Song)
    requires
        state.is_idle(),
        state.loop_mode != LoopMode::Song,
    ensures
        state.add(song).next_song(false) == Some(song),
        state.add(song).advance(false).current == Some(song),
        state.add(song).advance(false).pending.len() == 0,
{
    assert(state.pending.push(song)[0] == song);
}

/// Reacts to the natural end of a guild's track. The transport's callback
/// only hands the event over; the advance runs as a unit of work of its own.
pub struct TrackEndNotifier {
    pub guild_id: u64,
}

impl TrackEndNotifier {
    /// The advance that follows the natural end of the track: one without a
    /// skip, on the notifier's guild.
    pub fn act(&self, manager: &mut QueueManager) -> (action: PlayerAction)
        ensures
            final(manager)@ == after_play_next(old(manager)@, self.guild_id, false),
            action == match old(manager).state(self.guild_id).next_song(false) {
                Some(song) => PlayerAction::Start(song),
                None => PlayerAction::Idle { dropped: old(manager).state(self.guild_id).handle },
            },
            old(manager).wf() ==> final(manager).wf(),
    {
        play_next(manager, self.guild_id, false)
    }
}

/// After the player's advance the guild has an entry, a well-formed queue
/// stays well formed, and an idle player holds no handle and no current
/// song.
pub proof fn play_next_keeps_wf(store: Map<u64, QueueState>, guild_id: u64, was_skipped: bool)
    ensures
        after_play_next(store, guild_id, was_skipped).contains_key(guild_id),
        state_of(store, guild_id).wf() ==> state_of(
            after_play_next(store, guild_id, was_skipped),
            guild_id,
        ).wf(),
        state_of(store, guild_id).next_song(was_skipped) is None
            ==> state_of(
            after_play_next(store, guild_id, was_skipped),
            guild_id,
        ).handle is None,
        forall|other: u64|
            other != guild_id ==> #[trigger] state_of(
                after_play_next(store, guild_id, was_skipped),
                other,
            ) == state_of(store, other),
{
}

/// After a failed start no handle is stored, whatever was stored before,
/// and a later advance works as from a state without a handle: it returns
/// the same song and leaves the same pending and current song.
pub proof fn failed_start_leaves_no_handle(state: QueueState, was_skipped: bool)
    ensures
        state.detach().handle is None,
        state.detach().pending == state.pending,
        state.detach().current == state.current,
        state.detach().next_song(was_skipped) == state.next_song(was_skipped),
        state.detach().advance(was_skipped).pending == state.advance(was_skipped).pending,
        state.detach().advance(was_skipped).current == state.advance(was_skipped).current,
        state.detach().advance(was_skipped).handle is None,
{
}

} // verus!
