//! The inactivity monitor: when the bot is left alone in its voice channel,
//! a delayed second look is scheduled, and only if the bot is still alone
//! then, the queue is cleared and the bot leaves.

use crate::music::player::stop;
use crate::music::{step, QueueManager, QueueOp, TrackToken};
use vstd::prelude::*;

verus! {

/// Seconds between the signal that the bot is alone and the second look.
pub const LEAVE_DELAY_SECS: u64 = 30;

/// What the monitor asks of its caller after a membership change.
#[derive(Clone, Copy, Debug, PartialEq, Eq, Structural)]
pub enum MonitorAction {
    /// The channel is populated, or the bot is in none: nothing to do.
    Nothing,
    /// The bot is alone: look again after this many seconds.
    ScheduleRecheck { delay_secs: u64 },
}

/// How many of the guild's voice states are in `channel`. Each entry of
/// `voice_channels` is the channel of one member's voice state, the bot's
/// among them.
pub open spec fn members_in(voice_channels: Seq<Option<u64>>, channel: u64) -> nat
    decreases voice_channels.len(),
{
    if voice_channels.len() == 0 {
        0
    } else {
        members_in(voice_channels.drop_last(), channel) + if voice_channels.last() == Some(
            channel,
        ) {
            1nat
        } else {
            0nat
        }
    }
}

/// Whether the bot is known to be alone: it is in a channel, the voice
/// states of the guild are known, and no more than one of them, its own, is
/// in that channel.
pub open spec fn alone(bot_channel: Option<u64>, voice_channels: Option<Seq<Option<u64>>>) -> bool {
    bot_channel is Some && voice_channels is Some && members_in(
        voice_channels->0,
        bot_channel->0,
    ) <= 1
}

/// The voice states as a mathematical value.
pub open spec fn known(voice_channels: Option<&Vec<Option<u64>>>) -> Option<Seq<Option<u64>>> {
    match voice_channels {
        Some(channels) => Some(channels@),
        None => None,
    }
}

/// What the second look decides.
#[derive(Clone, Copy, Debug, PartialEq, Eq, Structural)]
pub enum Verdict {
    /// The bot is not alone, is in no channel, or the guild is not known:
    /// nothing changes.
    Stay,
    /// The bot is still alone: the queue is cleared and the caller leaves
    /// the channel and lets go of the track that `dropped` names.
    Leave { dropped: Option<TrackToken> },
}

/// Counts the voice states that are in `channel`.
pub fn count_members(voice_channels: &Vec<Option<u64>>, channel: u64) -> (count: usize)
    ensures
        count == members_in(voice_channels@, channel),
{
    let mut count: usize = 0;
    let mut i: usize = 0;
    while i < voice_channels.len()
        invariant
            i <= voice_channels.len(),
            count == members_in(voice_channels@.subrange(0, i as int), channel),
            count <= i,
        decreases voice_channels.len() - i,
    {
        let ghost seen = voice_channels@.subrange(0, i as int + 1);
        assert(seen.drop_last() =~= voice_channels@.subrange(0, i as int));
        assert(seen.last() == voice_channels@[i as int]);
        match voice_channels[i] {
            Some(id) => {
                if id == channel {
                    count = count + 1;
                }
            },
            None => {},
        }
        i = i + 1;
    }
    assert(voice_channels@.subrange(0, i as int) =~= voice_channels@);
    count
}

/// Whether the bot, in `bot_channel`, is known to be alone there. Voice
/// states that are not known give `false`.
pub fn is_alone(bot_channel: Option<u64>, voice_channels: Option<&Vec<Option<u64>>>) -> (lonely:
    bool)
    ensures
        lonely == alone(bot_channel, known(voice_channels)),
{
    match bot_channel {
        Some(channel) => match voice_channels {
            Some(channels) => count_members(channels, channel) <= 1,
            None => false,
        },
        None => false,
    }
}

/// Reacts to a change of voice membership in a guild: where the bot is
/// alone in its channel a second look is scheduled, after the fixed delay.
/// Nothing is cleared and nobody leaves yet.
pub fn handle(bot_channel: Option<u64>, voice_channels: Option<&Vec<Option<u64>>>) -> (action:
    MonitorAction)
    ensures
        action == if alone(bot_channel, known(voice_channels)) {
            MonitorAction::ScheduleRecheck { delay_secs: LEAVE_DELAY_SECS }
        } else {
            MonitorAction::Nothing
        },
{
    if is_alone(bot_channel, voice_channels) {
        MonitorAction::ScheduleRecheck { delay_secs: LEAVE_DELAY_SECS }
    } else {
        MonitorAction::Nothing
    }
}

/// The second look, when the delay has passed. It goes by the membership as
/// it is now, not as it was when the look was scheduled: `bot_channel` and
/// `voice_channels` are read at this moment. Where the bot is still alone
/// the guild's queue is cleared and the verdict tells the caller to leave;
/// otherwise nothing changes. A bot that has left already is in no channel,
/// so a second timer for the same guild does nothing; and a guild whose
/// voice states cannot be read is not left.
pub fn recheck(
    manager: &mut QueueManager,
    guild_id: u64,
    bot_channel: Option<u64>,
    voice_channels: Option<&Vec<Option<u64>>>,
) -> (verdict: Verdict)
    ensures
        verdict == if alone(bot_channel, known(voice_channels)) {
            Verdict::Leave { dropped: old(manager).state(guild_id).handle }
        } else {
            Verdict::Stay
        },
        final(manager)@ == if alone(bot_channel, known(voice_channels)) {
            step(old(manager)@, guild_id, QueueOp::Clear)
        } else {
            old(manager)@
        },
        old(manager).wf() ==> final(manager).wf(),
{
    if is_alone(bot_channel, voice_channels) {
        Verdict::Leave { dropped: stop(manager, guild_id) }
    } else {
        Verdict::Stay
    }
}

} // verus!
