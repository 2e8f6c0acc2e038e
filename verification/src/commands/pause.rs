//! The pause command: what is said when playback pauses.

use crate::music::Song;
use crate::text::{append_str, string_of};
use vstd::prelude::*;

verus! {

/// What is said when `current` pauses; a song that is not known is called
/// unknown.
pub open spec fn pause_text(current: Option<Song>) -> Seq<char> {
    "⏸️ **"@ + (match current {
        Some(song) => song.title@,
        None => "알 수 없음"@,
    }) + "** 일시정지"@
}

/// Writes what is said when `current` pauses.
pub fn pause_message(current: Option<&Song>) -> (text: String)
    ensures
        text@ == pause_text(
            match current {
                Some(song) => Some(*song),
                None => None,
            },
        ),
{
    let mut out: Vec<char> = Vec::new();
    append_str(&mut out, "⏸️ **");
    match current {
        Some(song) => {
            append_str(&mut out, song.title.as_str());
            append_str(&mut out, "** 일시정지");
            assert(out@ =~= pause_text(Some(*song)));
        },
        None => {
            append_str(&mut out, "알 수 없음");
            append_str(&mut out, "** 일시정지");
            assert(out@ =~= pause_text(None));
        },
    }
    string_of(&out)
}

} // verus!
