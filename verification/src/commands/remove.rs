//! The remove command: what is said after a removal.

use crate::music::Song;
use crate::text::{append_str, decimal, push_decimal, string_of};
use vstd::prelude::*;

verus! {

/// What is said after the removal at `position`: the song that went, or
/// that no song is there.
pub open spec fn remove_text(removed: Option<Song>, position: nat) -> Seq<char> {
    match removed {
        Some(song) => "🗑️ **"@ + song.title@ + "** 제거됨 (#"@ + decimal(position) + ")"@,
        None => "#"@ + decimal(position) + " 위치에 곡이 없습니다."@,
    }
}

/// Writes what is said after the removal at `position`.
pub fn remove_message(removed: Option<&Song>, position: usize) -> (text: String)
    ensures
        text@ == remove_text(
            match removed {
                Some(song) => Some(*song),
                None => None,
            },
            position as nat,
        ),
{
    let mut out: Vec<char> = Vec::new();
    match removed {
        Some(song) => {
            append_str(&mut out, "🗑️ **");
            append_str(&mut out, song.title.as_str());
            append_str(&mut out, "** 제거됨 (#");
            push_decimal(&mut out, position as u64);
            append_str(&mut out, ")");
            assert(out@ =~= remove_text(Some(*song), position as nat));
        },
        None => {
            append_str(&mut out, "#");
            push_decimal(&mut out, position as u64);
            append_str(&mut out, " 위치에 곡이 없습니다.");
            assert(out@ =~= remove_text(None, position as nat));
        },
    }
    string_of(&out)
}

} // verus!
