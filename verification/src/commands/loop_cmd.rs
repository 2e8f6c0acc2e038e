//! The repeat command: which mode a word names.

use crate::music::LoopMode;
use crate::text::{append_str, lowercase, str_eq, string_of, to_lowercase};
use vstd::prelude::*;

verus! {

/// The mode that a word in lowercase names, if it names one.
pub open spec fn mode_named(word: Seq<char>) -> Option<LoopMode> {
    if word == "off"@ || word == "끔"@ {
        Some(LoopMode::Off)
    } else if word == "song"@ || word == "곡"@ || word == "한곡"@ {
        Some(LoopMode::Song)
    } else if word == "queue"@ || word == "큐"@ || word == "전체"@ {
        Some(LoopMode::Queue)
    } else {
        None
    }
}

/// The sign shown with a mode.
pub open spec fn sign_of(mode: LoopMode) -> Seq<char> {
    match mode {
        LoopMode::Off => "➡️"@,
        LoopMode::Song => "🔂"@,
        LoopMode::Queue => "🔁"@,
    }
}

/// The mode that a word in lowercase names; `None` for a word that names
/// none.
pub fn mode_of(text: &str) -> (mode: Option<LoopMode>)
    ensures
        mode == mode_named(text@),
{
    if str_eq(text, "off") || str_eq(text, "끔") {
        Some(LoopMode::Off)
    } else if str_eq(text, "song") || str_eq(text, "곡") || str_eq(text, "한곡") {
        Some(LoopMode::Song)
    } else if str_eq(text, "queue") || str_eq(text, "큐") || str_eq(text, "전체") {
        Some(LoopMode::Queue)
    } else {
        None
    }
}

/// Reads the mode that the user's word names, in any mix of upper and lower
/// case; `None` for a word that names none.
pub fn parse_mode(word: &str) -> (mode: Option<LoopMode>)
    ensures
        mode == mode_named(lowercase(word@)),
{
    let lower = to_lowercase(word);
    mode_of(lower.as_str())
}

/// The sign shown with `mode`.
pub fn mode_emoji(mode: LoopMode) -> (sign: &'static str)
    ensures
        sign@ == sign_of(mode),
{
    match mode {
        LoopMode::Off => "➡️",
        LoopMode::Song => "🔂",
        LoopMode::Queue => "🔁",
    }
}

/// What is said after the repeat mode was set.
pub open spec fn mode_text(mode: LoopMode) -> Seq<char> {
    sign_of(mode) + " 반복 모드: **"@ + mode.label() + "**"@
}

/// Writes what is said after the repeat mode was set.
pub fn mode_message(mode: LoopMode) -> (text: String)
    ensures
        text@ == mode_text(mode),
{
    let mut out: Vec<char> = Vec::new();
    append_str(&mut out, mode_emoji(mode));
    append_str(&mut out, " 반복 모드: **");
    let label = mode.to_string();
    append_str(&mut out, label.as_str());
    append_str(&mut out, "**");
    assert(out@ =~= mode_text(mode));
    string_of(&out)
}

/// The words for a word that names no mode.
pub const UNKNOWN_MODE: &'static str = "올바른 모드를 선택해주세요: `off`, `song`, `queue`";

} // verus!
