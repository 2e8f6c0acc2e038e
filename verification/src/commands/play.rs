//! The play command: what is shown for a request.

use crate::music::player::Enqueued;
use crate::music::Song;
use crate::text::{append_str, string_of};
use vstd::prelude::*;

verus! {

/// The words for a user who is in no voice channel.
pub const JOIN_FIRST: &'static str = "음성 채널에 먼저 접속해주세요!";

/// The words for a song that the resolver did not find, with its reason.
pub fn not_found(reason: &str) -> (text: String)
    ensures
        text@ == "노래를 찾을 수 없습니다: "@ + reason@,
{
    let mut out: Vec<char> = Vec::new();
    append_str(&mut out, "노래를 찾을 수 없습니다: ");
    append_str(&mut out, reason);
    assert(out@ =~= "노래를 찾을 수 없습니다: "@ + reason@);
    string_of(&out)
}

/// What the user is shown after a request.
#[derive(Clone, Copy, Debug, PartialEq, Eq, Structural)]
pub enum PlayView {
    /// The card of the song that plays now.
    NowPlaying,
    /// The card of the song that was added, with its position.
    Added(usize),
    /// Nothing.
    Silent,
}

/// What the user is shown for the outcome of a request: the song that
/// starts at once, the position of one that waits, and nothing where the
/// song waits without a position to tell.
pub fn view_of(outcome: &Enqueued) -> (view: PlayView)
    ensures
        view == match *outcome {
            Enqueued::PlayNow(_) => PlayView::NowPlaying,
            Enqueued::Queued(position) => PlayView::Added(position),
            Enqueued::Waiting => PlayView::Silent,
        },
{
    match outcome {
        Enqueued::PlayNow(_) => PlayView::NowPlaying,
        Enqueued::Queued(position) => PlayView::Added(*position),
        Enqueued::Waiting => PlayView::Silent,
    }
}

/// A song as it is queued for `requester`: what the resolver found, with
/// the requester's name.
pub fn requested_by(song: Song, requester: &str) -> (queued: Song)
    ensures
        queued.title == song.title,
        queued.url == song.url,
        queued.duration == song.duration,
        queued.requester@ == requester@,
{
    Song {
        title: song.title,
        url: song.url,
        duration: song.duration,
        requester: requester.to_owned(),
    }
}

} // verus!
