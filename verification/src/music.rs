//! Per-guild playback state: songs, repeat modes, the queue of one guild and
//! the store that maps guild identifiers to queues.

pub mod laws;
pub mod player;
pub mod queue;
pub mod source;

use rand::seq::SliceRandom;
use std::collections::HashMap;
use std::collections::VecDeque;
use vstd::prelude::*;

verus! {

broadcast use vstd::seq_lib::group_to_multiset_ensures;

/// Volume of a queue on which nothing was set yet, in percent.
pub const DEFAULT_VOLUME: u8 = 50;

/// Largest volume that a queue may hold, in percent.
pub const MAX_VOLUME: u8 = 100;

/// A track that was requested: immutable once built.
#[derive(Debug)]
pub struct Song {
    pub title: String,
    pub url: String,
    pub duration: Option<String>,
    pub requester: String,
}

impl Clone for Song {
    fn clone(&self) -> (copy: Self)
        ensures
            copy == *self,
    {
        Song {
            title: self.title.clone(),
            url: self.url.clone(),
            duration: match &self.duration {
                Some(d) => Some(d.clone()),
                None => None,
            },
            requester: self.requester.clone(),
        }
    }
}

/// How playback continues when a track ends.
#[derive(Clone, Copy, Debug, PartialEq, Eq, Structural)]
pub enum LoopMode {
    /// Take the next pending song.
    Off,
    /// Replay the current song on natural completion; a skip still advances.
    Song,
    /// Append the finished song to the back before taking the next one.
    Queue,
}

impl Default for LoopMode {
    fn default() -> (mode: Self)
        ensures
            mode == LoopMode::Off,
    {
        LoopMode::Off
    }
}

impl LoopMode {
    /// The text shown to users for this mode.
    pub open spec fn label(self) -> Seq<char> {
        match self {
            LoopMode::Off => "끔"@,
            LoopMode::Song => "한 곡 반복"@,
            LoopMode::Queue => "전체 반복"@,
        }
    }

    /// Renders the mode as the text shown to users.
    pub fn to_string(&self) -> (text: String)
        ensures
            text@ == self.label(),
    {
        match self {
            LoopMode::Off => "끔".to_owned(),
            LoopMode::Song => "한 곡 반복".to_owned(),
            LoopMode::Queue => "전체 반복".to_owned(),
        }
    }
}

/// Names a track that is streaming on the voice transport. The transport
/// hands one out when a stream starts; the queue only stores and returns it.
#[derive(Clone, Copy, Debug, PartialEq, Eq, Structural)]
pub struct TrackToken {
    pub id: u64,
}

/// The mathematical value of one guild's queue.
pub struct QueueState {
    pub pending: Seq<Song>,
    pub current: Option<Song>,
    pub loop_mode: LoopMode,
    pub volume: nat,
    pub handle: Option<TrackToken>,
}

impl QueueState {
    /// The state of a guild that was never written to.
    pub open spec fn initial() -> QueueState {
        QueueState {
            pending: Seq::empty(),
            current: None,
            loop_mode: LoopMode::Off,
            volume: DEFAULT_VOLUME as nat,
            handle: None,
        }
    }

    /// The volume is a percentage, and no track handle is held while no song
    /// is current.
    pub open spec fn wf(self) -> bool {
        &&& self.volume <= MAX_VOLUME
        &&& (self.current is None ==> self.handle is None)
    }

    /// Nothing is playing and nothing waits.
    pub open spec fn is_idle(self) -> bool {
        self.current is None && self.pending.len() == 0
    }

    /// The state after `song` was appended.
    pub open spec fn add(self, song: Song) -> QueueState {
        QueueState { pending: self.pending.push(song), ..self }
    }

    /// Whether an advance replays the current song instead of moving on.
    pub open spec fn replays(self, was_skipped: bool) -> bool {
        !was_skipped && self.loop_mode == LoopMode::Song
    }

    /// The pending songs from which an advance takes the next one: in queue
    /// loop the current song has joined them at the back.
    pub open spec fn rotation(self) -> Seq<Song> {
        if self.loop_mode == LoopMode::Queue && self.current is Some {
            self.pending.push(self.current->0)
        } else {
            self.pending
        }
    }

    /// The song that an advance returns.
    pub open spec fn next_song(self, was_skipped: bool) -> Option<Song> {
        if self.replays(was_skipped) {
            self.current
        } else if self.rotation().len() > 0 {
            Some(self.rotation()[0])
        } else {
            None
        }
    }

    /// The state after an advance.
    pub open spec fn advance(self, was_skipped: bool) -> QueueState {
        if self.replays(was_skipped) {
            self
        } else if self.rotation().len() > 0 {
            QueueState {
                pending: self.rotation().drop_first(),
                current: Some(self.rotation()[0]),
                ..self
            }
        } else {
            QueueState { pending: Seq::empty(), current: None, handle: None, ..self }
        }
    }

    /// Whether `position`, counted from 1, names a pending song.
    pub open spec fn valid_position(self, position: nat) -> bool {
        1 <= position <= self.pending.len()
    }

    /// The song that a removal at `position` returns.
    pub open spec fn removed_song(self, position: nat) -> Option<Song> {
        if self.valid_position(position) {
            Some(self.pending[position - 1])
        } else {
            None
        }
    }

    /// The state after a removal at `position`.
    pub open spec fn remove_at(self, position: nat) -> QueueState {
        if self.valid_position(position) {
            QueueState { pending: self.pending.remove(position - 1), ..self }
        } else {
            self
        }
    }

    /// The state with the pending songs replaced by `order`.
    pub open spec fn reorder(self, order: Seq<Song>) -> QueueState {
        QueueState { pending: order, ..self }
    }

    /// The state after a clear: nothing pending, nothing current, no handle.
    pub open spec fn clear(self) -> QueueState {
        QueueState { pending: Seq::empty(), current: None, handle: None, ..self }
    }

    /// The state with the repeat mode replaced.
    pub open spec fn set_loop_mode(self, mode: LoopMode) -> QueueState {
        QueueState { loop_mode: mode, ..self }
    }

    /// The state with the volume replaced.
    pub open spec fn set_volume(self, percent: nat) -> QueueState {
        QueueState { volume: percent, ..self }
    }

    /// The state after the transport reported a started stream: the handle is
    /// kept only while a song is current.
    pub open spec fn attach(self, handle: TrackToken) -> QueueState {
        if self.current is Some {
            QueueState { handle: Some(handle), ..self }
        } else {
            self
        }
    }

    /// The state with the track handle dropped.
    pub open spec fn detach(self) -> QueueState {
        QueueState { handle: None, ..self }
    }
}

/// Playback state of one guild. `volume` is a percentage; the transport's
/// fraction is `volume / 100`.
pub struct GuildQueue {
    pub songs: VecDeque<Song>,
    pub current_song: Option<Song>,
    pub loop_mode: LoopMode,
    pub volume: u8,
    pub track_handle: Option<TrackToken>,
}

impl View for GuildQueue {
    type V = QueueState;

    open spec fn view(&self) -> QueueState {
        QueueState {
            pending: self.songs@,
            current: self.current_song,
            loop_mode: self.loop_mode,
            volume: self.volume as nat,
            handle: self.track_handle,
        }
    }
}

impl Default for GuildQueue {
    fn default() -> (queue: Self)
        ensures
            queue@ == QueueState::initial(),
            queue@.wf(),
    {
        GuildQueue {
            songs: VecDeque::new(),
            current_song: None,
            loop_mode: LoopMode::Off,
            volume: DEFAULT_VOLUME,
            track_handle: None,
        }
    }
}

/// Permutes `songs` with `rand::seq::SliceRandom::shuffle`, driven by
/// `rand::thread_rng`. The outside function only swaps elements of the slice,
/// so whatever order comes out holds the songs that went in, each as often as
/// before. Which order comes out is not stated.
#[verifier::external_body]
fn shuffle_songs(songs: &mut Vec<Song>)
    ensures
        final(songs)@.to_multiset() == old(songs)@.to_multiset(),
{
    songs.shuffle(&mut rand::thread_rng());
}

impl GuildQueue {
    /// Appends `song` and returns the number of pending songs.
    pub fn add_song(&mut self, song: Song) -> (len: usize)
        ensures
            final(self)@ == old(self)@.add(song),
            old(self)@.wf() ==> final(self)@.wf(),
            len == old(self)@.pending.len() + 1,
    {
        self.songs.push_back(song);
        self.songs.len()
    }

    /// Moves to the next song and returns it. Without a skip, song loop
    /// returns the current song again; where no song is left the queue goes
    /// idle and drops its track handle.
    pub fn advance(&mut self, was_skipped: bool) -> (next: Option<Song>)
        ensures
            final(self)@ == old(self)@.advance(was_skipped),
            old(self)@.wf() ==> final(self)@.wf(),
            next == old(self)@.next_song(was_skipped),
    {
        if !was_skipped && self.loop_mode == LoopMode::Song {
            return match &self.current_song {
                Some(song) => Some(song.clone()),
                None => None,
            };
        }
        if self.loop_mode == LoopMode::Queue {
            if let Some(current) = self.current_song.take() {
                self.songs.push_back(current);
            }
        }
        match self.songs.pop_front() {
            Some(song) => {
                let next = song.clone();
                self.current_song = Some(song);
                assert(self@.pending =~= old(self)@.rotation().drop_first());
                Some(next)
            },
            None => {
                self.current_song = None;
                self.track_handle = None;
                assert(self@.pending =~= Seq::<Song>::empty());
                None
            },
        }
    }

    /// Removes the pending song at `position`, counted from 1, and returns
    /// it. Any other position changes nothing and returns `None`.
    pub fn remove_at(&mut self, position: usize) -> (removed: Option<Song>)
        ensures
            final(self)@ == old(self)@.remove_at(position as nat),
            old(self)@.wf() ==> final(self)@.wf(),
            removed == old(self)@.removed_song(position as nat),
    {
        if position > 0 && position <= self.songs.len() {
            self.songs.remove(position - 1)
        } else {
            None
        }
    }

    /// Puts the pending songs into a random order and returns how many there
    /// are. The current song stays.
    pub fn shuffle(&mut self) -> (count: usize)
        ensures
            final(self)@ == old(self)@.reorder(final(self)@.pending),
            old(self)@.wf() ==> final(self)@.wf(),
            final(self)@.pending.to_multiset() == old(self)@.pending.to_multiset(),
            count == old(self)@.pending.len(),
    {
        let mut songs: Vec<Song> = Vec::new();
        while self.songs.len() > 0
            invariant
                songs@ + self.songs@ == old(self)@.pending,
                self.current_song == old(self).current_song,
                self.loop_mode == old(self).loop_mode,
                self.volume == old(self).volume,
                self.track_handle == old(self).track_handle,
            decreases self.songs@.len(),
        {
            let ghost before = self.songs@;
            if let Some(song) = self.songs.pop_front() {
                songs.push(song);
                assert(songs@ + self.songs@ =~= old(self)@.pending) by {
                    assert(before =~= seq![before[0]] + before.drop_first());
                }
            }
        }
        assert(songs@ =~= old(self)@.pending);
        shuffle_songs(&mut songs);
        let count = songs.len();
        let ghost shuffled = songs@;
        proof {
            shuffled.to_multiset_ensures();
            old(self)@.pending.to_multiset_ensures();
        }
        let mut i: usize = 0;
        while i < count
            invariant
                count == songs.len(),
                i <= count,
                songs@ == shuffled,
                self.songs@ == shuffled.subrange(0, i as int),
                self.current_song == old(self).current_song,
                self.loop_mode == old(self).loop_mode,
                self.volume == old(self).volume,
                self.track_handle == old(self).track_handle,
            decreases count - i,
        {
            self.songs.push_back(songs[i].clone());
            i = i + 1;
            assert(self.songs@ =~= shuffled.subrange(0, i as int));
        }
        assert(self.songs@ =~= shuffled);
        count
    }

    /// Empties the queue: nothing pending, nothing current, no track handle.
    /// Repeat mode and volume stay.
    pub fn clear(&mut self)
        ensures
            final(self)@ == old(self)@.clear(),
            old(self)@.wf() ==> final(self)@.wf(),
    {
        self.songs.clear();
        self.current_song = None;
        self.track_handle = None;
    }

    /// Sets the repeat mode and returns it.
    pub fn set_loop_mode(&mut self, mode: LoopMode) -> (set: LoopMode)
        ensures
            final(self)@ == old(self)@.set_loop_mode(mode),
            old(self)@.wf() ==> final(self)@.wf(),
            set == mode,
    {
        self.loop_mode = mode;
        mode
    }

    /// Sets the volume, in percent, and returns the handle of the live track
    /// that must be retuned to it, if there is one.
    pub fn set_volume(&mut self, percent: u8) -> (live: Option<TrackToken>)
        requires
            percent <= MAX_VOLUME,
        ensures
            final(self)@ == old(self)@.set_volume(percent as nat),
            old(self)@.wf() ==> final(self)@.wf(),
            live == old(self)@.handle,
    {
        self.volume = percent;
        self.track_handle
    }

    /// Records the handle of a stream that the transport started. Without a
    /// current song the handle is not kept, and the result is `false`.
    pub fn attach_handle(&mut self, handle: TrackToken) -> (kept: bool)
        ensures
            final(self)@ == old(self)@.attach(handle),
            old(self)@.wf() ==> final(self)@.wf(),
            kept == old(self)@.current is Some,
    {
        if self.current_song.is_some() {
            self.track_handle = Some(handle);
            true
        } else {
            false
        }
    }

    /// Drops the track handle.
    pub fn detach_handle(&mut self)
        ensures
            final(self)@ == old(self)@.detach(),
            old(self)@.wf() ==> final(self)@.wf(),
    {
        self.track_handle = None;
    }

    /// The current song and the pending songs, in order.
    pub fn snapshot(&self) -> (list: (Option<Song>, Vec<Song>))
        ensures
            list.0 == self@.current,
            list.1@ == self@.pending,
    {
        let current = match &self.current_song {
            Some(song) => Some(song.clone()),
            None => None,
        };
        let mut pending: Vec<Song> = Vec::new();
        let n = self.songs.len();
        let mut i: usize = 0;
        while i < n
            invariant
                n == self.songs@.len(),
                i <= n,
                pending@ == self.songs@.subrange(0, i as int),
            decreases n - i,
        {
            pending.push(self.songs[i].clone());
            i = i + 1;
            assert(pending@ =~= self.songs@.subrange(0, i as int));
        }
        assert(pending@ =~= self.songs@);
        (current, pending)
    }

    /// Whether nothing is playing and nothing waits.
    pub fn is_empty(&self) -> (idle: bool)
        ensures
            idle == self@.is_idle(),
    {
        self.current_song.is_none() && self.songs.len() == 0
    }
}

/// One operation on the queue of one guild, as a mathematical value.
pub enum QueueOp {
    Add(Song),
    Advance(bool),
    RemoveAt(nat),
    Reorder(Seq<Song>),
    Clear,
    SetLoopMode(LoopMode),
    SetVolume(nat),
    Attach(TrackToken),
    Detach,
}

impl QueueOp {
    /// Whether the operation gives a guild without an entry one. The others
    /// leave such a guild without an entry.
    pub open spec fn materializes(self) -> bool {
        !(self is Clear || self is Attach || self is Detach)
    }
}

impl QueueState {
    /// The state after `op`.
    pub open spec fn apply(self, op: QueueOp) -> QueueState {
        match op {
            QueueOp::Add(song) => self.add(song),
            QueueOp::Advance(was_skipped) => self.advance(was_skipped),
            QueueOp::RemoveAt(position) => self.remove_at(position),
            QueueOp::Reorder(order) => self.reorder(order),
            QueueOp::Clear => self.clear(),
            QueueOp::SetLoopMode(mode) => self.set_loop_mode(mode),
            QueueOp::SetVolume(percent) => self.set_volume(percent),
            QueueOp::Attach(handle) => self.attach(handle),
            QueueOp::Detach => self.detach(),
        }
    }
}

/// The state of `guild_id` in `store`: a guild without an entry reads as a
/// fresh queue.
pub open spec fn state_of(store: Map<u64, QueueState>, guild_id: u64) -> QueueState {
    if store.contains_key(guild_id) {
        store[guild_id]
    } else {
        QueueState::initial()
    }
}

/// The store after `op` on `guild_id`: only that guild's entry differs.
pub open spec fn step(store: Map<u64, QueueState>, guild_id: u64, op: QueueOp) -> Map<
    u64,
    QueueState,
> {
    if op.materializes() || store.contains_key(guild_id) {
        store.insert(guild_id, state_of(store, guild_id).apply(op))
    } else {
        store
    }
}

/// The queues of all guilds, by guild identifier.
pub struct QueueManager {
    pub queues: HashMap<u64, GuildQueue>,
}

impl View for QueueManager {
    type V = Map<u64, QueueState>;

    open spec fn view(&self) -> Map<u64, QueueState> {
        self.queues@.map_values(|queue: GuildQueue| queue@)
    }
}

impl QueueManager {
    /// The state of `guild_id`, fresh where the guild has no entry.
    pub open spec fn state(&self, guild_id: u64) -> QueueState {
        state_of(self@, guild_id)
    }

    /// Every stored queue is well formed.
    pub open spec fn wf(&self) -> bool {
        crate::music::laws::store_wf(self@)
    }
}

/// A store without any guild.
pub fn new_queue_manager() -> (manager: QueueManager)
    ensures
        manager@ == Map::<u64, QueueState>::empty(),
        manager.wf(),
{
    let manager = QueueManager { queues: HashMap::new() };
    assert(manager@ =~= Map::<u64, QueueState>::empty());
    manager
}


} // verus!
