//! What the commands decide and say before anything is sent.

pub mod help;
pub mod loop_cmd;
pub mod nowplaying;
pub mod pause;
pub mod play;
pub mod remove;
pub mod shuffle;
pub mod skip;
pub mod stop;
pub mod tarkov;
pub mod volume;

use vstd::prelude::*;

verus! {

/// The words for a command that needs something to be playing.
pub const NOTHING_PLAYING: &'static str = "재생 중인 곡이 없습니다.";

/// The words for a command that was used outside a server.
pub const SERVER_ONLY: &'static str = "서버에서만 사용할 수 있습니다";

/// The words for a server of which nothing is known.
pub const SERVER_UNKNOWN: &'static str = "서버 정보를 가져올 수 없습니다";

} // verus!
