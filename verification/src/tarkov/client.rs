//! Around a query to the game's data service: the key under which an answer
//! is cached, the cache with its time to live, and what an answer's envelope
//! means.

use crate::tarkov::models::{GraphQLError, GraphQLResponse};
use crate::text::{append_str, chars_of, str_eq, string_of, trim, trimmed};
use vstd::prelude::*;

verus! {

/// Seconds for which a cached answer is used.
pub const CACHE_TTL_SECS: u64 = 300;

/// Why a query gave no data.
#[derive(Debug)]
pub enum QueryError {
    /// The service could not be reached; the text is the transport's word.
    Network(String),
    /// The service answered with errors.
    GraphQL(Vec<GraphQLError>),
    /// The answer could not be read as the expected data.
    Deserialize(String),
    /// The answer held neither data nor errors.
    EmptyResponse,
}

/// The messages of `errors`, separated by a comma and a space.
pub open spec fn messages_of(errors: Seq<GraphQLError>) -> Seq<char>
    decreases errors.len(),
{
    if errors.len() == 0 {
        Seq::empty()
    } else if errors.len() == 1 {
        errors[0].message@
    } else {
        messages_of(errors.drop_last()) + ", "@ + errors.last().message@
    }
}

impl QueryError {
    /// The words shown to users for this error.
    pub open spec fn text(self) -> Seq<char> {
        match self {
            QueryError::Network(cause) => "API 서버에 연결할 수 없습니다: "@ + cause@,
            QueryError::GraphQL(errors) => "API 오류: "@ + messages_of(errors@),
            QueryError::Deserialize(cause) => "응답 처리 중 오류가 발생했습니다: "@ + cause@,
            QueryError::EmptyResponse => "API로부터 빈 응답을 받았습니다"@,
        }
    }

    /// Renders the error in the words shown to users.
    pub fn to_string(&self) -> (text: String)
        ensures
            text@ == self.text(),
    {
        let mut out: Vec<char> = Vec::new();
        match self {
            QueryError::Network(cause) => {
                append_str(&mut out, "API 서버에 연결할 수 없습니다: ");
                append_str(&mut out, cause.as_str());
            },
            QueryError::GraphQL(errors) => {
                append_str(&mut out, "API 오류: ");
                let ghost head = out@;
                let mut i: usize = 0;
                assert(errors@.subrange(0, 0) =~= Seq::<GraphQLError>::empty());
                assert(head + Seq::<char>::empty() =~= head);
                while i < errors.len()
                    invariant
                        i <= errors.len(),
                        out@ == head + messages_of(errors@.subrange(0, i as int)),
                    decreases errors.len() - i,
                {
                    let ghost seen = errors@.subrange(0, i as int + 1);
                    assert(seen.drop_last() =~= errors@.subrange(0, i as int));
                    assert(seen.last() == errors@[i as int]);
                    if i > 0 {
                        append_str(&mut out, ", ");
                    }
                    append_str(&mut out, errors[i].message.as_str());
                    assert(out@ =~= head + messages_of(seen)) by {
                        if i == 0 {
                            assert(seen[0] == seen.last());
                        }
                    }
                    i = i + 1;
                }
                assert(errors@.subrange(0, errors.len() as int) =~= errors@);
            },
            QueryError::Deserialize(cause) => {
                append_str(&mut out, "응답 처리 중 오류가 발생했습니다: ");
                append_str(&mut out, cause.as_str());
            },
            QueryError::EmptyResponse => {
                append_str(&mut out, "API로부터 빈 응답을 받았습니다");
            },
        }
        string_of(&out)
    }
}

/// What the envelope of an answer means: errors, where it reports any, come
/// first; then data; an envelope with neither is an empty answer.
pub fn check_response<T>(response: GraphQLResponse<T>) -> (data: Result<T, QueryError>)
    ensures
        data == if response.errors is Some && response.errors->0@.len() > 0 {
            Err::<T, QueryError>(QueryError::GraphQL(response.errors->0))
        } else {
            match response.data {
                Some(value) => Ok::<T, QueryError>(value),
                None => Err::<T, QueryError>(QueryError::EmptyResponse),
            }
        },
{
    if let Some(errors) = response.errors {
        if errors.len() > 0 {
            return Err(QueryError::GraphQL(errors));
        }
    }
    match response.data {
        Some(value) => Ok(value),
        None => Err(QueryError::EmptyResponse),
    }
}

/// The key under which the answer to a query is cached: the query without
/// the whitespace around it, a colon, and the variables as text.
pub open spec fn cache_key(query_str: Seq<char>, variables: Seq<char>) -> Seq<char> {
    trimmed(query_str) + seq![':'] + variables
}

/// The key under which the answer to `query_str` with `variables`, given as
/// JSON text, is cached.
pub fn build_cache_key(query_str: &str, variables: &str) -> (key: String)
    ensures
        key@ == cache_key(query_str@, variables@),
{
    let mut out = trim(&chars_of(query_str));
    out.push(':');
    append_str(&mut out, variables);
    assert(out@ =~= cache_key(query_str@, variables@));
    string_of(&out)
}

/// Whether an answer stored at `inserted_at` may still be used at `now`.
pub open spec fn fresh(inserted_at: u64, now: u64) -> bool {
    now <= inserted_at || now - inserted_at < CACHE_TTL_SECS
}

/// Whether an answer stored at `inserted_at` may still be used at `now`.
pub fn is_fresh(inserted_at: u64, now: u64) -> (usable: bool)
    ensures
        usable == fresh(inserted_at, now),
{
    now <= inserted_at || now - inserted_at < CACHE_TTL_SECS
}

/// One cached answer: its key, when it was stored, in seconds on the
/// caller's clock, and the data as JSON text.
pub struct CacheEntry {
    pub key: String,
    pub inserted_at: u64,
    pub value: String,
}

/// The cached answers. No key occurs twice.
pub struct Cache {
    pub entries: Vec<CacheEntry>,
}

/// The entries that stay when an answer for `key` is stored at `now`:
/// those under other keys that are still fresh, in their order.
pub open spec fn kept(entries: Seq<CacheEntry>, key: Seq<char>, now: u64) -> Seq<CacheEntry>
    decreases entries.len(),
{
    if entries.len() == 0 {
        Seq::empty()
    } else if entries.last().key@ != key && fresh(entries.last().inserted_at, now) {
        kept(entries.drop_last(), key, now).push(entries.last())
    } else {
        kept(entries.drop_last(), key, now)
    }
}

/// No key occurs twice in `entries`.
pub open spec fn distinct_keys(entries: Seq<CacheEntry>) -> bool {
    forall|i: int, j: int|
        0 <= i < j < entries.len() ==> (#[trigger] entries[i]).key@ != (#[trigger] entries[j]).key@
}

/// What stays is part of what was there: every entry that stays was there,
/// under another key and still fresh, and what stays is in the old order.
pub proof fn lemma_kept(entries: Seq<CacheEntry>, key: Seq<char>, now: u64)
    ensures
        kept(entries, key, now).len() <= entries.len(),
        forall|k: int|
            0 <= k < kept(entries, key, now).len() ==> (#[trigger] kept(entries, key, now)[k]).key@
                != key && fresh(kept(entries, key, now)[k].inserted_at, now) && entries.contains(
                kept(entries, key, now)[k],
            ),
        distinct_keys(entries) ==> distinct_keys(kept(entries, key, now)),
        forall|i: int|
            0 <= i < entries.len() && (#[trigger] entries[i]).key@ != key && fresh(
                entries[i].inserted_at,
                now,
            ) ==> kept(entries, key, now).contains(entries[i]),
    decreases entries.len(),
{
    if entries.len() > 0 {
        let rest = entries.drop_last();
        lemma_kept(rest, key, now);
        let inner = kept(rest, key, now);
        let all = kept(entries, key, now);
        assert forall|k: int| 0 <= k < all.len() implies (#[trigger] all[k]).key@ != key && fresh(
            all[k].inserted_at,
            now,
        ) && entries.contains(all[k]) by {
            if k < inner.len() {
                assert(all[k] == inner[k]);
                assert(rest.contains(inner[k]));
                let at = choose|at: int| 0 <= at < rest.len() && rest[at] == inner[k];
                assert(entries[at] == inner[k]);
            } else {
                assert(all[k] == entries.last());
                assert(entries[entries.len() - 1] == entries.last());
            }
        }
        if distinct_keys(entries) {
            assert(distinct_keys(rest)) by {
                assert forall|i: int, j: int| 0 <= i < j < rest.len() implies (#[trigger] rest[i]).key@
                    != (#[trigger] rest[j]).key@ by {
                    assert(rest[i] == entries[i] && rest[j] == entries[j]);
                }
            }
            assert forall|i: int, j: int| 0 <= i < j < all.len() implies (#[trigger] all[i]).key@
                != (#[trigger] all[j]).key@ by {
                if j < inner.len() {
                    assert(all[i] == inner[i] && all[j] == inner[j]);
                } else {
                    assert(all[i] == inner[i]);
                    assert(rest.contains(inner[i]));
                    let at = choose|at: int| 0 <= at < rest.len() && rest[at] == inner[i];
                    assert(entries[at] == inner[i]);
                    assert(entries[entries.len() - 1] == all[j]);
                }
            }
        }
        assert forall|i: int|
            0 <= i < entries.len() && (#[trigger] entries[i]).key@ != key && fresh(
                entries[i].inserted_at,
                now,
            ) implies all.contains(entries[i]) by {
            if i < rest.len() {
                assert(rest[i] == entries[i]);
                assert(inner.contains(rest[i]));
                let at = choose|at: int| 0 <= at < inner.len() && inner[at] == rest[i];
                assert(all[at] == entries[i]);
            } else {
                assert(all[all.len() - 1] == entries[i]);
            }
        }
    }
}

/// A cache without answers.
pub fn new_cache() -> (cache: Cache)
    ensures
        cache.entries@.len() == 0,
        cache.wf(),
{
    Cache { entries: Vec::new() }
}

impl Cache {
    /// No key occurs twice.
    pub open spec fn wf(&self) -> bool {
        distinct_keys(self.entries@)
    }

    /// Whether the answer under `key` can be used at `now`, and is `value`.
    pub open spec fn holds(&self, key: Seq<char>, now: u64, value: Seq<char>) -> bool {
        exists|i: int|
            0 <= i < self.entries@.len() && (#[trigger] self.entries@[i]).key@ == key && fresh(
                self.entries@[i].inserted_at,
                now,
            ) && self.entries@[i].value@ == value
    }

    /// Whether an answer under `key` can be used at `now`.
    pub open spec fn hit(&self, key: Seq<char>, now: u64) -> bool {
        exists|i: int|
            0 <= i < self.entries@.len() && (#[trigger] self.entries@[i]).key@ == key && fresh(
                self.entries@[i].inserted_at,
                now,
            )
    }

    /// The number of cached answers.
    pub fn len(&self) -> (count: usize)
        ensures
            count == self.entries@.len(),
    {
        self.entries.len()
    }

    /// Whether nothing is cached.
    pub fn is_empty(&self) -> (empty: bool)
        ensures
            empty == (self.entries@.len() == 0),
    {
        self.entries.len() == 0
    }

    /// The answer cached under `key`, if there is one that is still fresh
    /// at `now`.
    pub fn get(&self, key: &str, now: u64) -> (value: Option<String>)
        ensures
            match value {
                Some(text) => self.holds(key@, now, text@),
                None => !self.hit(key@, now),
            },
    {
        let mut i: usize = 0;
        while i < self.entries.len()
            invariant
                i <= self.entries.len(),
                forall|j: int|
                    0 <= j < i ==> !((#[trigger] self.entries@[j]).key@ == key@ && fresh(
                        self.entries@[j].inserted_at,
                        now,
                    )),
            decreases self.entries.len() - i,
        {
            if str_eq(self.entries[i].key.as_str(), key) && is_fresh(
                self.entries[i].inserted_at,
                now,
            ) {
                return Some(self.entries[i].value.clone());
            }
            i = i + 1;
        }
        None
    }

    /// Stores `value` under `key` at `now`. An older answer under the same
    /// key is replaced, and the answers that are no longer fresh are
    /// dropped; the others stay in their order, with the new one behind
    /// them.
    pub fn put(&mut self, key: String, value: String, now: u64)
        ensures
            final(self).entries@ == kept(old(self).entries@, key@, now).push(
                CacheEntry { key, inserted_at: now, value },
            ),
            old(self).wf() ==> final(self).wf(),
    {
        let ghost before = self.entries@;
        let mut rest: Vec<CacheEntry> = Vec::new();
        let mut stale: Vec<CacheEntry> = Vec::new();
        core::mem::swap(&mut stale, &mut self.entries);
        assert(stale@ == before);
        let mut taken: Vec<CacheEntry> = Vec::new();
        while stale.len() > 0
            invariant
                stale@ == before.subrange(0, stale@.len() as int),
                stale@.len() <= before.len(),
                kept(before, key@, now) == kept(stale@, key@, now) + taken@.reverse(),
            decreases stale@.len(),
        {
            let ghost n = stale@.len() as int;
            let ghost prev = stale@;
            if let Some(entry) = stale.pop() {
                assert(stale@ =~= prev.drop_last());
                assert(entry == prev.last());
                assert(stale@ =~= before.subrange(0, n - 1));
                if !str_eq(entry.key.as_str(), key.as_str()) && is_fresh(entry.inserted_at, now) {
                    let ghost old_taken = taken@;
                    taken.push(entry);
                    assert(taken@.reverse() =~= seq![entry] + old_taken.reverse());
                    assert(kept(prev, key@, now) + old_taken.reverse() =~= kept(stale@, key@, now)
                        + taken@.reverse());
                }
            }
        }
        assert(kept(stale@, key@, now) =~= Seq::<CacheEntry>::empty());
        assert(kept(before, key@, now) =~= taken@.reverse());
        while taken.len() > 0
            invariant
                rest@ + taken@.reverse() == kept(before, key@, now),
            decreases taken@.len(),
        {
            let ghost prev = taken@;
            let ghost old_rest = rest@;
            if let Some(entry) = taken.pop() {
                rest.push(entry);
                assert(prev.reverse() =~= seq![entry] + taken@.reverse());
                assert(rest@ + taken@.reverse() =~= old_rest + prev.reverse());
            }
        }
        assert(rest@ =~= kept(before, key@, now));
        let entry = CacheEntry { key, inserted_at: now, value };
        rest.push(entry);
        self.entries = rest;
        proof {
            lemma_kept(before, entry.key@, now);
            if distinct_keys(before) {
                let inner = kept(before, entry.key@, now);
                let all = self.entries@;
                assert forall|a: int, b: int| 0 <= a < b < all.len() implies (#[trigger] all[a]).key@
                    != (#[trigger] all[b]).key@ by {
                    if b < inner.len() {
                        assert(all[a] == inner[a] && all[b] == inner[b]);
                    } else {
                        assert(all[a] == inner[a]);
                    }
                }
            }
        }
    }
}

} // verus!
