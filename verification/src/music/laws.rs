//! What holds of the queue operations, whatever the songs and the order of
//! the calls.

use crate::music::{state_of, step, LoopMode, QueueOp, QueueState, Song};
use vstd::prelude::*;

verus! {

/// The state after the songs of `songs` were added in order.
pub open spec fn add_all(state: QueueState, songs: Seq<Song>) -> QueueState
    decreases songs.len(),
{
    if songs.len() == 0 {
        state
    } else {
        add_all(state, songs.drop_last()).add(songs.last())
    }
}

/// The state after `count` advances with the same `was_skipped`.
pub open spec fn advance_times(state: QueueState, count: nat, was_skipped: bool) -> QueueState
    decreases count,
{
    if count == 0 {
        state
    } else {
        advance_times(state, (count - 1) as nat, was_skipped).advance(was_skipped)
    }
}

/// The song that advance number `index`, counted from 0, returns in a run of
/// advances with the same `was_skipped`.
pub open spec fn nth_next(state: QueueState, index: nat, was_skipped: bool) -> Option<Song> {
    advance_times(state, index, was_skipped).next_song(was_skipped)
}

/// The state after the operations of `ops` in order.
pub open spec fn run(state: QueueState, ops: Seq<QueueOp>) -> QueueState
    decreases ops.len(),
{
    if ops.len() == 0 {
        state
    } else {
        run(state, ops.drop_last()).apply(ops.last())
    }
}

/// The store after the operations of `steps` in order, each on its guild.
pub open spec fn run_store(store: Map<u64, QueueState>, steps: Seq<(u64, QueueOp)>) -> Map<
    u64,
    QueueState,
>
    decreases steps.len(),
{
    if steps.len() == 0 {
        store
    } else {
        step(run_store(store, steps.drop_last()), steps.last().0, steps.last().1)
    }
}

/// The operations of `steps` that are addressed to `guild_id`, in order.
pub open spec fn ops_of(steps: Seq<(u64, QueueOp)>, guild_id: u64) -> Seq<QueueOp>
    decreases steps.len(),
{
    if steps.len() == 0 {
        Seq::empty()
    } else if steps.last().0 == guild_id {
        ops_of(steps.drop_last(), guild_id).push(steps.last().1)
    } else {
        ops_of(steps.drop_last(), guild_id)
    }
}

/// Adding songs appends them to the pending songs and changes nothing else.
pub proof fn lemma_add_all(state: QueueState, songs: Seq<Song>)
    ensures
        add_all(state, songs) == (QueueState { pending: state.pending + songs, ..state }),
    decreases songs.len(),
{
    if songs.len() == 0 {
        assert(state.pending + songs =~= state.pending);
    } else {
        lemma_add_all(state, songs.drop_last());
        assert((state.pending + songs.drop_last()).push(songs.last()) =~= state.pending + songs);
    }
}

/// Without a repeat mode, `count` skips take the first `count` pending songs
/// in order: the last of them is current and the rest still waits.
pub proof fn lemma_skips_consume(state: QueueState, count: nat)
    requires
        state.loop_mode == LoopMode::Off,
        1 <= count <= state.pending.len(),
    ensures
        advance_times(state, count, true) == (QueueState {
            pending: state.pending.subrange(count as int, state.pending.len() as int),
            current: Some(state.pending[count - 1]),
            ..state
        }),
    decreases count,
{
    let total = state.pending.len() as int;
    if count == 1 {
        assert(advance_times(state, 0, true) == state);
        assert(state.pending.drop_first() =~= state.pending.subrange(1, total));
    } else {
        lemma_skips_consume(state, (count - 1) as nat);
        let before = advance_times(state, (count - 1) as nat, true);
        assert(before.pending.drop_first() =~= state.pending.subrange(count as int, total));
    }
}

/// First in, first out. After the songs of `songs` were added to a queue
/// without pending songs and without a repeat mode, successive skips return
/// them in the order in which they were added, and the skip after the last
/// of them returns `None`.
pub proof fn fifo_order(state: QueueState, songs: Seq<Song>)
    requires
        state.loop_mode == LoopMode::Off,
        state.pending.len() == 0,
    ensures
        forall|index: nat|
            index < songs.len() ==> #[trigger] nth_next(add_all(state, songs), index, true)
                == Some(songs[index as int]),
        nth_next(add_all(state, songs), songs.len(), true) == None::<Song>,
        advance_times(add_all(state, songs), songs.len() + 1, true).is_idle(),
{
    lemma_add_all(state, songs);
    let filled = add_all(state, songs);
    assert(filled.pending =~= songs);
    assert forall|index: nat| index < songs.len() implies #[trigger] nth_next(filled, index, true)
        == Some(songs[index as int]) by {
        if index > 0 {
            lemma_skips_consume(filled, index);
        }
    }
    if songs.len() > 0 {
        lemma_skips_consume(filled, songs.len());
    }
}

/// Song loop repeats. With song loop set, any number of advances without a
/// skip leave the state as it was, and each returns the current song.
pub proof fn song_loop_repeats(state: QueueState, count: nat)
    requires
        state.loop_mode == LoopMode::Song,
    ensures
        advance_times(state, count, false) == state,
        nth_next(state, count, false) == state.current,
    decreases count,
{
    if count > 0 {
        song_loop_repeats(state, (count - 1) as nat);
    }
}

/// A skip breaks song loop: it returns the first pending song, which becomes
/// current, or `None` where nothing is pending.
pub proof fn song_loop_skip_breaks(state: QueueState)
    requires
        state.loop_mode == LoopMode::Song,
    ensures
        state.pending.len() > 0 ==> state.next_song(true) == Some(state.pending[0])
            && state.advance(true).current == Some(state.pending[0])
            && state.advance(true).pending == state.pending.drop_first(),
        state.pending.len() == 0 ==> state.next_song(true) == None::<Song>
            && state.advance(true).is_idle(),
{
}

/// The songs of a queue in the order in which queue loop plays them: the
/// current song, then the pending songs.
pub open spec fn cycle(state: QueueState) -> Seq<Song>
    recommends
        state.current is Some,
{
    seq![state.current->0] + state.pending
}

/// `songs` started at index `start`: the songs from there on, then those
/// before.
pub open spec fn rotated(songs: Seq<Song>, start: int) -> Seq<Song>
    recommends
        0 <= start <= songs.len(),
{
    songs.subrange(start, songs.len() as int) + songs.subrange(0, start)
}

/// In queue loop with a current song, `count` advances turn the cycle of
/// songs by `count` places and change nothing else.
pub proof fn lemma_queue_loop_turns(state: QueueState, count: nat)
    requires
        state.loop_mode == LoopMode::Queue,
        state.current is Some,
        count <= cycle(state).len(),
    ensures
        advance_times(state, count, false).current is Some,
        cycle(advance_times(state, count, false)) == rotated(cycle(state), count as int),
        advance_times(state, count, false) == (QueueState {
            pending: advance_times(state, count, false).pending,
            current: advance_times(state, count, false).current,
            ..state
        }),
    decreases count,
{
    let songs = cycle(state);
    if count == 0 {
        assert(rotated(songs, 0) =~= songs);
    } else {
        lemma_queue_loop_turns(state, (count - 1) as nat);
        let before = advance_times(state, (count - 1) as nat, false);
        let after = before.advance(false);
        assert(cycle(before) == rotated(songs, count - 1));
        assert(before.rotation() == before.pending.push(before.current->0));
        assert(cycle(after) =~= rotated(songs, count as int)) by {
            assert(cycle(before).len() == songs.len());
            assert(before.current->0 == cycle(before)[0]);
            assert(before.pending =~= cycle(before).subrange(1, songs.len() as int));
        }
    }
}

/// Queue loop conserves the songs. In queue loop with a current song, each
/// advance returns the first pending song and moves the song that was
/// current to the back; where nothing is pending it returns the current song
/// again. After as many advances as the cycle has songs the state is the one
/// from before, so every full cycle returns the same songs.
pub proof fn queue_loop_conserves(state: QueueState)
    requires
        state.loop_mode == LoopMode::Queue,
        state.current is Some,
    ensures
        state.next_song(false) == Some(cycle(state).push(state.current->0)[1]),
        state.advance(false).pending == state.pending.push(state.current->0).drop_first(),
        advance_times(state, cycle(state).len(), false) == state,
        forall|index: nat|
            index < cycle(state).len() ==> #[trigger] nth_next(state, index, false) == Some(
                rotated(cycle(state), index as int + 1)[0],
            ),
        forall|index: nat|
            index <= cycle(state).len() ==> cycle(
                #[trigger] advance_times(state, index, false),
            ).to_multiset() == cycle(state).to_multiset(),
{
    let songs = cycle(state);
    let total = songs.len();
    lemma_queue_loop_turns(state, total);
    let last = advance_times(state, total, false);
    assert(rotated(songs, total as int) =~= songs);
    assert(last.current->0 == cycle(last)[0]);
    assert(last.pending =~= cycle(last).subrange(1, total as int));
    assert(state.pending =~= songs.subrange(1, total as int));
    assert(last == state);
    assert forall|index: nat| index < total implies #[trigger] nth_next(state, index, false)
        == Some(rotated(songs, index as int + 1)[0]) by {
        lemma_queue_loop_turns(state, index);
        lemma_queue_loop_turns(state, index + 1);
        let before = advance_times(state, index, false);
        assert(advance_times(state, index + 1, false) == before.advance(false));
        assert(cycle(before.advance(false))[0] == before.advance(false).current->0);
    }
    assert forall|index: nat| index <= total implies cycle(
        #[trigger] advance_times(state, index, false),
    ).to_multiset() == songs.to_multiset() by {
        lemma_queue_loop_turns(state, index);
        lemma_rotated_same_songs(songs, index as int);
    }
    assert(advance_times(state, 0, false) == state);
    assert(nth_next(state, 0, false) == state.next_song(false));
}

/// Turning a cycle keeps its songs, each as often as before.
pub proof fn lemma_rotated_same_songs(songs: Seq<Song>, start: int)
    requires
        0 <= start <= songs.len(),
    ensures
        rotated(songs, start).to_multiset() == songs.to_multiset(),
{
    let head = songs.subrange(0, start);
    let tail = songs.subrange(start, songs.len() as int);
    assert(head + tail =~= songs);
    vstd::seq_lib::lemma_multiset_commutative(head, tail);
    vstd::seq_lib::lemma_multiset_commutative(tail, head);
}

/// Removal is safe. Position 0 and every position past the last pending
/// song remove nothing: the result is `None` and the state stays as it was.
/// A removal never touches the current song.
pub proof fn removal_out_of_range(state: QueueState, position: nat)
    ensures
        position == 0 || position > state.pending.len() ==> state.removed_song(position)
            == None::<Song> && state.remove_at(position) == state,
        state.remove_at(position).current == state.current,
        state.removed_song(0) == None::<Song>,
        state.removed_song(state.pending.len() + 1) == None::<Song>,
        state.remove_at(0) == state,
        state.remove_at(state.pending.len() + 1) == state,
{
}

/// A reordering that keeps the songs, each as often as before, keeps their
/// number and the current song, and a song waits after it exactly if it
/// waited before.
pub proof fn shuffle_conserves(state: QueueState, order: Seq<Song>)
    requires
        order.to_multiset() == state.pending.to_multiset(),
    ensures
        state.reorder(order).pending.len() == state.pending.len(),
        state.reorder(order).current == state.current,
        forall|song: Song| order.contains(song) <==> state.pending.contains(song),
{
    broadcast use vstd::seq_lib::group_to_multiset_ensures;

    order.to_multiset_ensures();
    state.pending.to_multiset_ensures();
    assert forall|song: Song| order.contains(song) <==> state.pending.contains(song) by {
        assert(order.contains(song) <==> order.to_multiset().count(song) > 0);
        assert(state.pending.contains(song) <==> state.pending.to_multiset().count(song) > 0);
    }
}

/// One operation changes the state of its own guild as the operation says,
/// and of no other guild: neither its state nor whether it has an entry.
pub proof fn step_is_local(store: Map<u64, QueueState>, guild_id: u64, op: QueueOp, other: u64)
    ensures
        state_of(step(store, guild_id, op), guild_id) == state_of(store, guild_id).apply(op),
        other != guild_id ==> state_of(step(store, guild_id, op), other) == state_of(
            store,
            other,
        ),
        other != guild_id ==> step(store, guild_id, op).contains_key(other)
            == store.contains_key(other),
{
}

/// Guilds are isolated. After any interleaving of operations on any guilds,
/// the state of each guild is the one that its own operations alone, in
/// their order, produce from its state before.
pub proof fn guilds_are_isolated(
    store: Map<u64, QueueState>,
    steps: Seq<(u64, QueueOp)>,
    guild_id: u64,
)
    ensures
        state_of(run_store(store, steps), guild_id) == run(
            state_of(store, guild_id),
            ops_of(steps, guild_id),
        ),
    decreases steps.len(),
{
    if steps.len() > 0 {
        guilds_are_isolated(store, steps.drop_last(), guild_id);
        step_is_local(
            run_store(store, steps.drop_last()),
            steps.last().0,
            steps.last().1,
            guild_id,
        );
        if steps.last().0 == guild_id {
            let own = ops_of(steps.drop_last(), guild_id).push(steps.last().1);
            assert(own.drop_last() =~= ops_of(steps.drop_last(), guild_id));
            assert(own.last() == steps.last().1);
        }
    }
}

/// Operations on two different guilds can be exchanged: either order gives
/// the same store.
pub proof fn steps_on_two_guilds_commute(
    store: Map<u64, QueueState>,
    first: u64,
    first_op: QueueOp,
    second: u64,
    second_op: QueueOp,
)
    requires
        first != second,
    ensures
        step(step(store, first, first_op), second, second_op) == step(
            step(store, second, second_op),
            first,
            first_op,
        ),
{
    assert(step(step(store, first, first_op), second, second_op) =~= step(
        step(store, second, second_op),
        first,
        first_op,
    ));
}

/// A skip and a natural end that arrive together. Unless song loop is set,
/// a skip and a natural end are the same operation, so whichever of the two
/// runs first, both orders leave the same state; and without a repeat mode
/// the two advances return, in order, the first two songs that waited, none
/// of them twice and none left out.
pub proof fn skip_and_natural_end_serialize(state: QueueState)
    requires
        state.loop_mode != LoopMode::Song,
    ensures
        state.advance(true) == state.advance(false),
        state.next_song(true) == state.next_song(false),
        state.advance(true).advance(false) == state.advance(false).advance(true),
        state.advance(true).next_song(false) == state.advance(false).next_song(true),
        state.loop_mode == LoopMode::Off && state.pending.len() >= 2 ==> {
            &&& state.next_song(true) == Some(state.pending[0])
            &&& state.advance(true).next_song(false) == Some(state.pending[1])
            &&& state.advance(true).advance(false).pending == state.pending.subrange(
                2,
                state.pending.len() as int,
            )
        },
        state.loop_mode == LoopMode::Off && state.pending.len() == 1 ==> {
            &&& state.next_song(true) == Some(state.pending[0])
            &&& state.advance(true).next_song(false) == None::<Song>
            &&& state.advance(true).advance(false).is_idle()
        },
{
    if state.loop_mode == LoopMode::Off && state.pending.len() >= 2 {
        assert(state.pending.drop_first().drop_first() =~= state.pending.subrange(
            2,
            state.pending.len() as int,
        ));
    }
}

/// Going idle. An advance on a queue with no current and no pending song
/// returns `None` and leaves the queue as it was, in every repeat mode and
/// with or without a skip: it is idle before and after.
pub proof fn idle_stays_idle(state: QueueState, was_skipped: bool)
    requires
        state.is_idle(),
    ensures
        state.next_song(was_skipped) == None::<Song>,
        state.advance(was_skipped).is_idle(),
        state.advance(was_skipped).current == None::<Song>,
        state.wf() ==> state.advance(was_skipped) == state,
{
    assert(state.pending =~= Seq::<Song>::empty());
}

/// Every operation keeps a well-formed state well formed, given that a
/// volume that is set is a percentage.
pub proof fn ops_keep_wf(state: QueueState, op: QueueOp)
    requires
        state.wf(),
        op is SetVolume ==> op->SetVolume_0 <= crate::music::MAX_VOLUME,
    ensures
        state.apply(op).wf(),
{
}

/// Every stored queue of `store` is well formed.
pub open spec fn store_wf(store: Map<u64, QueueState>) -> bool {
    forall|guild_id: u64| #[trigger] store.contains_key(guild_id) ==> store[guild_id].wf()
}

/// Every operation keeps a well-formed store well formed, given that a
/// volume that is set is a percentage.
pub proof fn step_keeps_wf(store: Map<u64, QueueState>, guild_id: u64, op: QueueOp)
    requires
        store_wf(store),
        op is SetVolume ==> op->SetVolume_0 <= crate::music::MAX_VOLUME,
    ensures
        store_wf(step(store, guild_id, op)),
{
    ops_keep_wf(state_of(store, guild_id), op);
    assert forall|other: u64| #[trigger] step(store, guild_id, op).contains_key(other) implies step(
        store,
        guild_id,
        op,
    )[other].wf() by {
        if other != guild_id {
            assert(store.contains_key(other));
        }
    }
}

} // verus!
