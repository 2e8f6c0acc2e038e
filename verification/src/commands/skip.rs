//! The skip command: what is said after a skip.

use crate::music::Song;
use crate::text::{append_str, string_of};
use vstd::prelude::*;

verus! {

/// What is said after `skipped` was skipped: the song that follows, or
/// that the queue is empty.
pub open spec fn skip_text(skipped: Song, next: Option<Song>) -> Seq<char> {
    match next {
        Some(song) => "⏭️ **"@ + skipped.title@ + "** 스킵 → **"@ + song.title@ + "**"@,
        None => "⏭️ **"@ + skipped.title@ + "** 스킵 (큐 비어있음)"@,
    }
}

/// Writes what is said after `skipped` was skipped.
pub fn skip_message(skipped: &Song, next: Option<&Song>) -> (text: String)
    ensures
        text@ == skip_text(
            *skipped,
            match next {
                Some(song) => Some(*song),
                None => None,
            },
        ),
{
    let mut out: Vec<char> = Vec::new();
    append_str(&mut out, "⏭️ **");
    append_str(&mut out, skipped.title.as_str());
    match next {
        Some(song) => {
            append_str(&mut out, "** 스킵 → **");
            append_str(&mut out, song.title.as_str());
            append_str(&mut out, "**");
            assert(out@ =~= skip_text(*skipped, Some(*song)));
        },
        None => {
            append_str(&mut out, "** 스킵 (큐 비어있음)");
            assert(out@ =~= skip_text(*skipped, None));
        },
    }
    string_of(&out)
}

/// The words for a skip that failed, with its reason.
pub fn skip_failed(reason: &str) -> (text: String)
    ensures
        text@ == "스킵 실패: "@ + reason@,
{
    let mut out: Vec<char> = Vec::new();
    append_str(&mut out, "스킵 실패: ");
    append_str(&mut out, reason);
    assert(out@ =~= "스킵 실패: "@ + reason@);
    string_of(&out)
}

} // verus!
