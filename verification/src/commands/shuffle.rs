//! The shuffle command: what is said after a shuffle.

use crate::text::{append_str, decimal, push_decimal, string_of};
use vstd::prelude::*;

verus! {

/// What is said after `count` songs were shuffled; `None` where nothing
/// waited, which is an error to show.
pub fn shuffle_message(count: usize) -> (text: Option<String>)
    ensures
        count == 0 ==> text is None,
        count > 0 ==> text is Some && text->0@ == "🔀 "@ + decimal(count as nat)
            + "곡을 셔플했습니다."@,
{
    if count == 0 {
        None
    } else {
        let mut out: Vec<char> = Vec::new();
        append_str(&mut out, "🔀 ");
        push_decimal(&mut out, count as u64);
        append_str(&mut out, "곡을 셔플했습니다.");
        assert(out@ =~= "🔀 "@ + decimal(count as nat) + "곡을 셔플했습니다."@);
        Some(string_of(&out))
    }
}

/// The words for a shuffle of an empty queue.
pub const QUEUE_IS_EMPTY: &'static str = "큐가 비어있습니다.";

} // verus!
