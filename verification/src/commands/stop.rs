//! The stop command: what is said when playback stops.

use vstd::prelude::*;

verus! {

/// The words for a stop.
pub const STOP_MESSAGE: &'static str = "⏹️ 재생을 중지하고 퇴장합니다.";

} // verus!
