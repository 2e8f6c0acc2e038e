//! The volume command: a level is checked before it reaches the queue.

use crate::music::queue::set_volume;
use crate::music::{step, QueueManager, QueueOp, TrackToken, MAX_VOLUME};
use crate::text::{append_str, decimal, push_decimal, string_of};
use vstd::prelude::*;

verus! {

/// What became of a request to set the volume.
#[derive(Clone, Copy, Debug, PartialEq, Eq, Structural)]
pub enum VolumeOutcome {
    /// The level is no percentage: nothing was changed.
    OutOfRange,
    /// The level was stored; the live track, if any, is to be retuned.
    Stored { live: Option<TrackToken> },
}

/// Sets the volume of `guild_id` to `level` percent where `level` is at
/// most 100, and refuses any other level without changing anything.
pub fn request_volume(manager: &mut QueueManager, guild_id: u64, level: u32) -> (outcome:
    VolumeOutcome)
    ensures
        level > MAX_VOLUME ==> outcome == VolumeOutcome::OutOfRange && final(manager)@
            == old(manager)@,
        level <= MAX_VOLUME ==> outcome == (VolumeOutcome::Stored {
            live: old(manager).state(guild_id).handle,
        }) && final(manager)@ == step(old(manager)@, guild_id, QueueOp::SetVolume(level as nat)),
        old(manager).wf() ==> final(manager).wf(),
{
    if level > 100 {
        VolumeOutcome::OutOfRange
    } else {
        let live = set_volume(manager, guild_id, level as u8);
        VolumeOutcome::Stored { live }
    }
}

/// What is said after the volume was set to `level` percent.
pub fn volume_message(level: u32) -> (text: String)
    ensures
        text@ == "🔊 볼륨: **"@ + decimal(level as nat) + "%**"@,
{
    let mut out: Vec<char> = Vec::new();
    append_str(&mut out, "🔊 볼륨: **");
    push_decimal(&mut out, level as u64);
    append_str(&mut out, "%**");
    assert(out@ =~= "🔊 볼륨: **"@ + decimal(level as nat) + "%**"@);
    string_of(&out)
}

/// The words for a level that is no percentage.
pub const OUT_OF_RANGE: &'static str = "볼륨은 0~100 사이로 설정해주세요.";

} // verus!
