//! What is kept of the chat.

use vstd::prelude::*;

verus! {

/// Messages of a channel that are kept when older ones are cleaned up.
pub const KEPT_MESSAGES: usize = 200;

/// Messages that are handed to the assistant as context.
pub const CONTEXT_MESSAGES: usize = 50;

/// One message of the chat as it is kept.
pub struct ChatMessage {
    pub author_name: String,
    pub content: String,
    pub is_bot: bool,
}

/// Puts messages that were read newest first into the order in which they
/// were written.
pub fn oldest_first(newest_first: Vec<ChatMessage>) -> (messages: Vec<ChatMessage>)
    ensures
        messages@ == newest_first@.reverse(),
{
    let mut rest = newest_first;
    let mut messages: Vec<ChatMessage> = Vec::new();
    let ghost all = rest@;
    while rest.len() > 0
        invariant
            rest@ == all.subrange(0, rest@.len() as int),
            rest@.len() <= all.len(),
            messages@ == all.subrange(rest@.len() as int, all.len() as int).reverse(),
        decreases rest@.len(),
    {
        let ghost n = rest@.len() as int;
        if let Some(message) = rest.pop() {
            messages.push(message);
            assert(rest@ =~= all.subrange(0, n - 1));
            assert(messages@ =~= all.subrange(n - 1, all.len() as int).reverse());
        }
    }
    assert(all.subrange(0, all.len() as int) =~= all);
    messages
}

} // verus!
