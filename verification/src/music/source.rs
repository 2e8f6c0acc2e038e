//! From a request to a song: what is asked of the audio source resolver, and
//! the song that its answer describes.

use crate::music::Song;
use crate::text::{append_str, chars_of, digit, digit_char, decimal, push_decimal, starts_with, string_of};
use vstd::prelude::*;

verus! {

/// What the resolver reports of a track. `duration` is in whole seconds.
pub struct YtDlpOutput {
    pub title: Option<String>,
    pub duration: Option<u64>,
    pub webpage_url: Option<String>,
    pub original_url: Option<String>,
}

/// Whether `query` is a web address: it begins with `http://` or `https://`.
pub open spec fn is_web_address(query: Seq<char>) -> bool {
    "http://"@.is_prefix_of(query) || "https://"@.is_prefix_of(query)
}

/// What the resolver is asked for `query`: a web address as it is, anything
/// else as a search for the first hit.
pub open spec fn search_text(query: Seq<char>) -> Seq<char> {
    if is_web_address(query) {
        query
    } else {
        "ytsearch1:"@ + query
    }
}

/// `seconds` as minutes, a colon and two digits of seconds.
pub open spec fn clock(seconds: nat) -> Seq<char> {
    decimal(seconds / 60) + seq![':', digit(seconds % 60 / 10), digit(seconds % 60 % 10)]
}

/// The title that `info` gives, or the words for an unknown one.
pub open spec fn title_of(info: YtDlpOutput) -> Seq<char> {
    match info.title {
        Some(title) => title@,
        None => "알 수 없음"@,
    }
}

/// The locator that `info` gives: the page's address, else the address that
/// was asked for, else nothing.
pub open spec fn url_of(info: YtDlpOutput) -> Seq<char> {
    match info.webpage_url {
        Some(url) => url@,
        None => match info.original_url {
            Some(url) => url@,
            None => Seq::empty(),
        },
    }
}

/// Whether `query` is a web address.
pub fn is_url(query: &str) -> (found: bool)
    ensures
        found == is_web_address(query@),
{
    let chars = chars_of(query);
    let plain = chars_of("http://");
    let secure = chars_of("https://");
    starts_with(&chars, &plain) || starts_with(&chars, &secure)
}

/// What the resolver is asked for `query`.
pub fn search_query(query: &str) -> (text: String)
    ensures
        text@ == search_text(query@),
{
    if is_url(query) {
        query.to_owned()
    } else {
        let mut out: Vec<char> = Vec::new();
        append_str(&mut out, "ytsearch1:");
        append_str(&mut out, query);
        assert(out@ =~= "ytsearch1:"@ + query@);
        string_of(&out)
    }
}

/// Renders `seconds` as minutes, a colon and two digits of seconds.
pub fn format_clock(seconds: u64) -> (text: String)
    ensures
        text@ == clock(seconds as nat),
{
    let mut out: Vec<char> = Vec::new();
    push_decimal(&mut out, seconds / 60);
    let rest = seconds % 60;
    out.push(':');
    out.push(digit_char(rest / 10));
    out.push(digit_char(rest % 10));
    assert(out@ =~= clock(seconds as nat));
    string_of(&out)
}

/// The song that the resolver's answer describes. A missing title becomes
/// the words for an unknown one, the locator is the page's address or else
/// the address asked for, and the requester is left empty for the caller to
/// fill in.
pub fn song_from_output(info: YtDlpOutput) -> (song: Song)
    ensures
        song.title@ == title_of(info),
        song.url@ == url_of(info),
        song.duration is Some == info.duration is Some,
        info.duration is Some ==> song.duration->0@ == clock(info.duration->0 as nat),
        song.requester@ == Seq::<char>::empty(),
{
    let duration = match info.duration {
        Some(seconds) => Some(format_clock(seconds)),
        None => None,
    };
    let url = match info.webpage_url {
        Some(url) => url,
        None => match info.original_url {
            Some(url) => url,
            None => String::new(),
        },
    };
    let title = match info.title {
        Some(title) => title,
        None => "알 수 없음".to_owned(),
    };
    Song { title, url, duration, requester: String::new() }
}

} // verus!
