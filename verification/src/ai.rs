//! The chat assistant: the questions that wait for a user's choice, and the
//! texts read from and written to the chat.

pub mod channel;
pub mod db;
pub mod gemini;

use crate::tarkov::models::Item;
use std::collections::HashMap;
use vstd::prelude::*;

verus! {

broadcast use vstd::std_specs::hash::group_hash_axioms;

/// Seconds after which a question that waits for a choice is dropped.
pub const PENDING_TIMEOUT_SECS: u64 = 120;

/// Most items that a question offers.
pub const MAX_CHOICES: usize = 10;

/// A question that waits for a user's choice among `items`. `created_at` is
/// the time at which it was asked, in seconds on the caller's clock.
pub struct PendingQuery {
    pub items: Vec<Item>,
    pub created_at: u64,
}

/// The waiting questions, one for each channel and user.
pub struct PendingQueries {
    pub queries: HashMap<u128, PendingQuery>,
}

impl View for PendingQueries {
    type V = Map<u128, PendingQuery>;

    open spec fn view(&self) -> Map<u128, PendingQuery> {
        self.queries@
    }
}

/// The key of the question of `user_id` in `channel_id`: different pairs
/// have different keys.
pub open spec fn key_of(channel_id: u64, user_id: u64) -> u128 {
    (channel_id as u128 * 0x1_0000_0000_0000_0000u128 + user_id as u128) as u128
}

/// Whether a question asked at `created_at` is too old at `now`.
pub open spec fn expired(created_at: u64, now: u64) -> bool {
    now > created_at && now - created_at > PENDING_TIMEOUT_SECS
}

/// The item that the answer `number`, counted from 1, picks from the
/// question under `key`: none where no question waits, where it is too old,
/// or where the number names no item.
pub open spec fn selected(store: Map<u128, PendingQuery>, key: u128, number: usize, now: u64)
    -> Option<Item> {
    if store.contains_key(key) && !expired(store[key].created_at, now) && 1 <= number
        <= store[key].items@.len() {
        Some(store[key].items@[number - 1])
    } else {
        None
    }
}

/// The waiting questions after the answer `number`: a question that is too
/// old is dropped, and so is one from which an item was picked. A number
/// that names no item leaves the question waiting.
pub open spec fn after_selection(
    store: Map<u128, PendingQuery>,
    key: u128,
    number: usize,
    now: u64,
) -> Map<u128, PendingQuery> {
    if store.contains_key(key) && (expired(store[key].created_at, now) || 1 <= number
        <= store[key].items@.len()) {
        store.remove(key)
    } else {
        store
    }
}

/// No question waits.
pub fn new_pending_queries() -> (pending: PendingQueries)
    ensures
        pending@ == Map::<u128, PendingQuery>::empty(),
{
    PendingQueries { queries: HashMap::new() }
}

/// The key of the question of `user_id` in `channel_id`.
pub fn pending_key(channel_id: u64, user_id: u64) -> (key: u128)
    ensures
        key == key_of(channel_id, user_id),
{
    channel_id as u128 * 0x1_0000_0000_0000_0000u128 + user_id as u128
}

/// Different pairs of channel and user have different keys.
pub proof fn keys_are_distinct(channel_a: u64, user_a: u64, channel_b: u64, user_b: u64)
    ensures
        key_of(channel_a, user_a) == key_of(channel_b, user_b) ==> channel_a == channel_b
            && user_a == user_b,
{
}

/// Keeps a question for `user_id` in `channel_id`, asked at `now`, with the
/// first ten of `items` to choose from. An older question of the same user
/// in the same channel is replaced.
pub fn remember(
    pending: &mut PendingQueries,
    channel_id: u64,
    user_id: u64,
    items: Vec<Item>,
    now: u64,
)
    ensures
        final(pending)@.dom() == old(pending)@.dom().insert(key_of(channel_id, user_id)),
        forall|key: u128|
            key != key_of(channel_id, user_id) && old(pending)@.contains_key(key)
                ==> final(pending)@[key] == old(pending)@[key],
        final(pending)@[key_of(channel_id, user_id)].created_at == now,
        final(pending)@[key_of(channel_id, user_id)].items@ == if items@.len() <= MAX_CHOICES {
            items@
        } else {
            items@.subrange(0, MAX_CHOICES as int)
        },
{
    let mut items = items;
    if items.len() > MAX_CHOICES {
        items.truncate(MAX_CHOICES);
    }
    let key = pending_key(channel_id, user_id);
    pending.queries.insert(key, PendingQuery { items, created_at: now });
}

/// Answers the question of `user_id` in `channel_id` with `number`, counted
/// from 1, at time `now`, and returns the item that was picked.
pub fn take_selection(
    pending: &mut PendingQueries,
    channel_id: u64,
    user_id: u64,
    number: usize,
    now: u64,
) -> (item: Option<Item>)
    ensures
        item == selected(old(pending)@, key_of(channel_id, user_id), number, now),
        final(pending)@ == after_selection(
            old(pending)@,
            key_of(channel_id, user_id),
            number,
            now,
        ),
{
    let key = pending_key(channel_id, user_id);
    match pending.queries.remove(&key) {
        Some(query) => {
            if now > query.created_at && now - query.created_at > PENDING_TIMEOUT_SECS {
                None
            } else if number == 0 || number > query.items.len() {
                pending.queries.insert(key, query);
                assert(pending@ =~= old(pending)@);
                None
            } else {
                let mut query = query;
                Some(query.items.remove(number - 1))
            }
        },
        None => {
            assert(pending@ =~= old(pending)@);
            None
        },
    }
}

} // verus!
