//! The catalog of item names, and the matching of a free-form name against
//! it.

use crate::text::{
    byte_len, chars_of, contains_chars, has_word, is_substring, join_words, joined, lowercase, overlap,
    same_chars, split_words, string_of, texts, to_lowercase, words,
};
use vstd::prelude::*;
use vstd::utf8::encode_utf8;

verus! {

/// One item of the catalog: its identifier, its full name and its short name.
#[derive(Debug)]
pub struct CatalogEntry {
    pub id: String,
    pub name: String,
    pub short_name: String,
}

impl Clone for CatalogEntry {
    fn clone(&self) -> (copy: Self)
        ensures
            copy == *self,
    {
        CatalogEntry {
            id: self.id.clone(),
            name: self.name.clone(),
            short_name: self.short_name.clone(),
        }
    }
}

/// `text` without what stands in round brackets, `depth` brackets being
/// open before it. Brackets nest; a closing bracket that closes nothing
/// stays.
pub open spec fn outside_brackets(text: Seq<char>, depth: nat) -> Seq<char>
    decreases text.len(),
{
    if text.len() == 0 {
        Seq::empty()
    } else if text[0] == '(' {
        outside_brackets(text.drop_first(), depth + 1)
    } else if text[0] == ')' && depth > 0 {
        outside_brackets(text.drop_first(), (depth - 1) as nat)
    } else if depth == 0 {
        seq![text[0]] + outside_brackets(text.drop_first(), 0)
    } else {
        outside_brackets(text.drop_first(), depth)
    }
}

/// The form in which names are compared: in lowercase, without what stands
/// in round brackets, and with its words separated by one space each.
pub open spec fn normalized(text: Seq<char>) -> Seq<char> {
    tidied(lowercase(text))
}

/// Removes what stands in round brackets, the brackets included.
pub fn remove_parentheses(s: &str) -> (stripped: String)
    ensures
        stripped@ == outside_brackets(s@, 0),
{
    let chars = chars_of(s);
    let kept = strip_brackets(&chars);
    string_of(&kept)
}

/// The characters of `text` that stand outside round brackets.
pub fn strip_brackets(text: &Vec<char>) -> (kept: Vec<char>)
    ensures
        kept@ == outside_brackets(text@, 0),
{
    let mut kept: Vec<char> = Vec::new();
    let mut depth: usize = 0;
    let len = text.len();
    let mut i: usize = 0;
    assert(text@.subrange(0, len as int) =~= text@);
    while i < len
        invariant
            len == text.len(),
            i <= len,
            depth <= i,
            outside_brackets(text@, 0) == kept@ + outside_brackets(
                text@.subrange(i as int, len as int),
                depth as nat,
            ),
        decreases len - i,
    {
        let ghost tail = text@.subrange(i as int, len as int);
        assert(tail[0] == text@[i as int]);
        assert(tail.drop_first() =~= text@.subrange(i + 1, len as int));
        let c = text[i];
        if c == '(' {
            depth = depth + 1;
        } else if c == ')' && depth > 0 {
            depth = depth - 1;
        } else if depth == 0 {
            let ghost before = kept@;
            kept.push(c);
            assert(before + (seq![c] + outside_brackets(tail.drop_first(), 0)) =~= kept@
                + outside_brackets(tail.drop_first(), 0));
        }
        i = i + 1;
    }
    assert(kept@ + Seq::<char>::empty() =~= kept@);
    kept
}

/// A text in lowercase without what stands in round brackets, and with its
/// words separated by one space each.
pub open spec fn tidied(lower: Seq<char>) -> Seq<char> {
    joined(words(outside_brackets(lower, 0)))
}

/// Removes from a text in lowercase what stands in round brackets, and
/// separates its words by one space each.
pub fn tidy(lower: &Vec<char>) -> (norm: Vec<char>)
    ensures
        norm@ == tidied(lower@),
{
    let kept = strip_brackets(lower);
    let parts = split_words(&kept);
    join_words(&parts)
}

/// The characters of a name in the form in which names are compared.
pub fn normalize_chars(s: &str) -> (norm: Vec<char>)
    ensures
        norm@ == normalized(s@),
{
    let lower = to_lowercase(s);
    let chars = chars_of(lower.as_str());
    tidy(&chars)
}

/// Brings a name into the form in which names are compared.
pub fn normalize(s: &str) -> (norm: String)
    ensures
        norm@ == normalized(s@),
{
    let text = normalize_chars(s);
    string_of(&text)
}

/// Counts the words of `a` that are among the words of `b`.
pub fn count_word_overlap(a: &Vec<Vec<char>>, b: &Vec<Vec<char>>) -> (count: usize)
    ensures
        count == overlap(texts(a@), texts(b@)),
{
    let mut count: usize = 0;
    let mut i: usize = 0;
    assert(texts(a@).subrange(0, 0) =~= Seq::<Seq<char>>::empty());
    while i < a.len()
        invariant
            i <= a.len(),
            count <= i,
            count == overlap(texts(a@).subrange(0, i as int), texts(b@)),
        decreases a.len() - i,
    {
        let ghost seen = texts(a@).subrange(0, i as int + 1);
        assert(seen.drop_last() =~= texts(a@).subrange(0, i as int));
        assert(seen.last() == a@[i as int]@);
        if has_word(b, &a[i]) {
            count = count + 1;
        }
        i = i + 1;
    }
    assert(texts(a@).subrange(0, a.len() as int) =~= texts(a@));
    count
}

/// The bytes that `text` takes in UTF-8.
pub open spec fn bytes_of(text: Seq<char>) -> nat {
    encode_utf8(text).len()
}

/// What the matching reads of one entry, as a mathematical value: its name
/// and its short name in normalized form, the bytes of the normalized short
/// name, and the bytes of the name and of the short name as they are.
pub struct NamesView {
    pub name: Seq<char>,
    pub short_name: Seq<char>,
    pub short_norm_bytes: nat,
    pub name_bytes: nat,
    pub short_bytes: nat,
}

/// What the matching reads of one entry.
pub struct Names {
    pub name: Vec<char>,
    pub short_name: Vec<char>,
    pub short_norm_bytes: usize,
    pub name_bytes: usize,
    pub short_bytes: usize,
}

impl View for Names {
    type V = NamesView;

    open spec fn view(&self) -> NamesView {
        NamesView {
            name: self.name@,
            short_name: self.short_name@,
            short_norm_bytes: self.short_norm_bytes as nat,
            name_bytes: self.name_bytes as nat,
            short_bytes: self.short_bytes as nat,
        }
    }
}

/// The values of `list`, in order.
pub open spec fn views(list: Seq<Names>) -> Seq<NamesView> {
    list.map_values(|names: Names| names@)
}

/// What the matching reads of `entry`.
pub open spec fn names_of(entry: CatalogEntry) -> NamesView {
    NamesView {
        name: normalized(entry.name@),
        short_name: normalized(entry.short_name@),
        short_norm_bytes: bytes_of(normalized(entry.short_name@)),
        name_bytes: bytes_of(entry.name@),
        short_bytes: bytes_of(entry.short_name@),
    }
}

/// What the matching reads of `entries`, in order.
pub open spec fn prepared(entries: Seq<CatalogEntry>) -> Seq<NamesView> {
    entries.map_values(|entry: CatalogEntry| names_of(entry))
}

/// Whether the name or the short name is the query itself.
pub open spec fn exact(names: NamesView, query: Seq<char>) -> bool {
    names.name == query || names.short_name == query
}

/// Whether the short name, of two bytes or more, stands in the query.
pub open spec fn short_hit(names: NamesView, query: Seq<char>) -> bool {
    names.short_norm_bytes >= 2 && is_substring(names.short_name, query)
}

/// Whether the query stands in the name.
pub open spec fn name_hit(names: NamesView, query: Seq<char>) -> bool {
    is_substring(query, names.name)
}

/// How many words of the query are words of the name.
pub open spec fn score(names: NamesView, query: Seq<char>) -> nat {
    overlap(words(query), words(names.name))
}

/// Entry `at` is the first whose name or short name is the query.
pub open spec fn first_exact(list: Seq<NamesView>, query: Seq<char>, at: int) -> bool {
    &&& 0 <= at < list.len()
    &&& exact(list[at], query)
    &&& forall|j: int| 0 <= j < at ==> !exact(#[trigger] list[j], query)
}

/// Entry `at` has the longest short name among those whose short name
/// stands in the query, and is the first of that length.
pub open spec fn best_short(list: Seq<NamesView>, query: Seq<char>, at: int) -> bool {
    &&& 0 <= at < list.len()
    &&& short_hit(list[at], query)
    &&& forall|j: int|
        0 <= j < list.len() && short_hit(#[trigger] list[j], query) ==> list[j].short_bytes
            <= list[at].short_bytes && (j < at ==> list[j].short_bytes < list[at].short_bytes)
}

/// Entry `at` has the shortest name among those whose name holds the
/// query, and is the first of that length.
pub open spec fn best_name(list: Seq<NamesView>, query: Seq<char>, at: int) -> bool {
    &&& 0 <= at < list.len()
    &&& name_hit(list[at], query)
    &&& forall|j: int|
        0 <= j < list.len() && name_hit(#[trigger] list[j], query) ==> list[j].name_bytes
            >= list[at].name_bytes && (j < at ==> list[j].name_bytes > list[at].name_bytes)
}

/// Whether entry `other` does not beat entry `at` by words in common: it
/// shares fewer words with the query, or as many under a name that is not
/// shorter, and longer if it comes first.
pub open spec fn not_better(list: Seq<NamesView>, query: Seq<char>, at: int, other: int) -> bool {
    score(list[other], query) < score(list[at], query) || (score(list[other], query) == score(
        list[at],
        query,
    ) && list[other].name_bytes >= list[at].name_bytes && (other < at ==> list[other].name_bytes
        > list[at].name_bytes))
}

/// Entry `at` shares at least one word with the query, and no entry beats
/// it by words in common.
pub open spec fn best_overlap(list: Seq<NamesView>, query: Seq<char>, at: int) -> bool {
    &&& 0 <= at < list.len()
    &&& score(list[at], query) >= 1
    &&& forall|j: int| 0 <= j < list.len() ==> #[trigger] not_better(list, query, at, j)
}

/// No entry's name or short name is the query.
pub open spec fn none_exact(list: Seq<NamesView>, query: Seq<char>) -> bool {
    forall|j: int| 0 <= j < list.len() ==> !exact(#[trigger] list[j], query)
}

/// No entry's short name stands in the query.
pub open spec fn none_short(list: Seq<NamesView>, query: Seq<char>) -> bool {
    forall|j: int| 0 <= j < list.len() ==> !short_hit(#[trigger] list[j], query)
}

/// No entry's name holds the query.
pub open spec fn none_name(list: Seq<NamesView>, query: Seq<char>) -> bool {
    forall|j: int| 0 <= j < list.len() ==> !name_hit(#[trigger] list[j], query)
}

/// No entry shares a word with the query.
pub open spec fn none_overlap(list: Seq<NamesView>, query: Seq<char>) -> bool {
    forall|j: int| 0 <= j < list.len() ==> score(#[trigger] list[j], query) == 0
}

/// Entry `at` of `list` is the match for `query`, both in normalized form.
/// An exact match comes before a short name in the query, that before a
/// name that holds the query, and that before words in common. The empty
/// query matches nothing.
pub open spec fn matches(list: Seq<NamesView>, query: Seq<char>, at: int) -> bool {
    query.len() > 0 && {
        ||| first_exact(list, query, at)
        ||| none_exact(list, query) && best_short(list, query, at)
        ||| none_exact(list, query) && none_short(list, query) && best_name(list, query, at)
        ||| none_exact(list, query) && none_short(list, query) && none_name(list, query)
            && best_overlap(list, query, at)
    }
}

/// Nothing of `list` matches `query`.
pub open spec fn nothing_matches(list: Seq<NamesView>, query: Seq<char>) -> bool {
    query.len() == 0 || (none_exact(list, query) && none_short(list, query) && none_name(
        list,
        query,
    ) && none_overlap(list, query))
}

/// Entry `at` is the match for the normalized `query`.
pub open spec fn is_match(entries: Seq<CatalogEntry>, query: Seq<char>, at: int) -> bool {
    matches(prepared(entries), query, at)
}

/// No entry matches the normalized `query`.
pub open spec fn no_match(entries: Seq<CatalogEntry>, query: Seq<char>) -> bool {
    nothing_matches(prepared(entries), query)
}

/// Reads of `entry` what the matching needs.
pub fn prepare(entry: &CatalogEntry) -> (names: Names)
    ensures
        names@ == names_of(*entry),
{
    let short_name = normalize_chars(entry.short_name.as_str());
    let short_text = string_of(&short_name);
    Names {
        name: normalize_chars(entry.name.as_str()),
        short_norm_bytes: byte_len(short_text.as_str()),
        short_name,
        name_bytes: byte_len(entry.name.as_str()),
        short_bytes: byte_len(entry.short_name.as_str()),
    }
}

/// Reads of each of `entries` what the matching needs.
pub fn prepare_all(entries: &Vec<CatalogEntry>) -> (list: Vec<Names>)
    ensures
        views(list@) == prepared(entries@),
{
    let mut list: Vec<Names> = Vec::new();
    let mut i: usize = 0;
    while i < entries.len()
        invariant
            i <= entries.len(),
            list@.len() == i,
            forall|k: int| 0 <= k < i ==> (#[trigger] list@[k])@ == names_of(entries@[k]),
        decreases entries.len() - i,
    {
        list.push(prepare(&entries[i]));
        i = i + 1;
    }
    assert(views(list@) =~= prepared(entries@));
    list
}

/// The first entry whose name or short name is the query.
pub fn find_exact(list: &Vec<Names>, query: &Vec<char>) -> (found: Option<usize>)
    ensures
        match found {
            Some(at) => first_exact(views(list@), query@, at as int),
            None => none_exact(views(list@), query@),
        },
{
    let mut i: usize = 0;
    while i < list.len()
        invariant
            i <= list.len(),
            forall|j: int| 0 <= j < i ==> !exact(#[trigger] views(list@)[j], query@),
        decreases list.len() - i,
    {
        if same_chars(&list[i].name, query) || same_chars(&list[i].short_name, query) {
            return Some(i);
        }
        i = i + 1;
    }
    None
}

/// The entry with the longest short name among those whose short name
/// stands in the query.
pub fn find_short(list: &Vec<Names>, query: &Vec<char>) -> (found: Option<usize>)
    ensures
        match found {
            Some(at) => best_short(views(list@), query@, at as int),
            None => none_short(views(list@), query@),
        },
{
    let ghost all = views(list@);
    let mut best: Option<usize> = None;
    let mut i: usize = 0;
    while i < list.len()
        invariant
            i <= list.len(),
            all == views(list@),
            match best {
                Some(at) => at < i && short_hit(all[at as int], query@) && forall|j: int|
                    0 <= j < i && short_hit(#[trigger] all[j], query@) ==> all[j].short_bytes
                        <= all[at as int].short_bytes && (j < at ==> all[j].short_bytes
                        < all[at as int].short_bytes),
                None => forall|j: int| 0 <= j < i ==> !short_hit(#[trigger] all[j], query@),
            },
        decreases list.len() - i,
    {
        if list[i].short_norm_bytes >= 2 && contains_chars(query, &list[i].short_name) {
            let longer = match best {
                Some(at) => list[i].short_bytes > list[at].short_bytes,
                None => true,
            };
            if longer {
                best = Some(i);
            }
        }
        i = i + 1;
    }
    best
}

/// The entry with the shortest name among those whose name holds the
/// query.
pub fn find_name(list: &Vec<Names>, query: &Vec<char>) -> (found: Option<usize>)
    ensures
        match found {
            Some(at) => best_name(views(list@), query@, at as int),
            None => none_name(views(list@), query@),
        },
{
    let ghost all = views(list@);
    let mut best: Option<usize> = None;
    let mut i: usize = 0;
    while i < list.len()
        invariant
            i <= list.len(),
            all == views(list@),
            match best {
                Some(at) => at < i && name_hit(all[at as int], query@) && forall|j: int|
                    0 <= j < i && name_hit(#[trigger] all[j], query@) ==> all[j].name_bytes
                        >= all[at as int].name_bytes && (j < at ==> all[j].name_bytes
                        > all[at as int].name_bytes),
                None => forall|j: int| 0 <= j < i ==> !name_hit(#[trigger] all[j], query@),
            },
        decreases list.len() - i,
    {
        if contains_chars(&list[i].name, query) {
            let shorter = match best {
                Some(at) => list[i].name_bytes < list[at].name_bytes,
                None => true,
            };
            if shorter {
                best = Some(i);
            }
        }
        i = i + 1;
    }
    best
}

/// The entry that shares the most words with the query, the one with the
/// shortest name where several share as many.
pub fn find_overlap(list: &Vec<Names>, query: &Vec<char>) -> (found: Option<usize>)
    ensures
        match found {
            Some(at) => best_overlap(views(list@), query@, at as int),
            None => none_overlap(views(list@), query@),
        },
{
    let ghost all = views(list@);
    let query_words = split_words(query);
    let mut best: Option<usize> = None;
    let mut best_score: usize = 0;
    let mut i: usize = 0;
    while i < list.len()
        invariant
            i <= list.len(),
            all == views(list@),
            texts(query_words@) == words(query@),
            match best {
                Some(at) => at < i && best_score >= 1 && best_score == score(
                    all[at as int],
                    query@,
                ) && forall|j: int| 0 <= j < i ==> #[trigger] not_better(all, query@, at as int, j),
                None => best_score == 0 && forall|j: int|
                    0 <= j < i ==> score(#[trigger] all[j], query@) == 0,
            },
        decreases list.len() - i,
    {
        let name_words = split_words(&list[i].name);
        let found = count_word_overlap(&query_words, &name_words);
        assert(found == score(all[i as int], query@));
        let better = found > best_score || (found == best_score && found > 0 && match best {
            Some(at) => list[i].name_bytes < list[at].name_bytes,
            None => false,
        });
        if better {
            proof {
                let now = i as int;
                assert forall|j: int| 0 <= j < i + 1 implies #[trigger] not_better(
                    all,
                    query@,
                    now,
                    j,
                ) by {
                    if j < i {
                        match best {
                            Some(at) => {
                                assert(not_better(all, query@, at as int, j));
                            },
                            None => {},
                        }
                    }
                }
            }
            best_score = found;
            best = Some(i);
        } else {
            proof {
                match best {
                    Some(at) => {
                        assert(not_better(all, query@, at as int, i as int));
                    },
                    None => {},
                }
            }
        }
        i = i + 1;
    }
    best
}

/// The place of the entry of `list` that matches `query`, both in
/// normalized form: the rules of the matching, on names as they are given.
pub fn match_names(list: &Vec<Names>, query: &Vec<char>) -> (found: Option<usize>)
    ensures
        match found {
            Some(at) => matches(views(list@), query@, at as int),
            None => nothing_matches(views(list@), query@),
        },
{
    if query.len() == 0 {
        return None;
    }
    if let Some(at) = find_exact(list, query) {
        return Some(at);
    }
    if let Some(at) = find_short(list, query) {
        return Some(at);
    }
    if let Some(at) = find_name(list, query) {
        return Some(at);
    }
    find_overlap(list, query)
}

/// The place of the entry that matches `query`, a name in free form.
pub fn find_match_index(entries: &Vec<CatalogEntry>, query: &str) -> (found: Option<usize>)
    ensures
        match found {
            Some(at) => is_match(entries@, normalized(query@), at as int),
            None => no_match(entries@, normalized(query@)),
        },
{
    let list = prepare_all(entries);
    let norm = normalize_chars(query);
    match_names(&list, &norm)
}

/// The names of the items of the game, held in memory.
pub struct ItemCatalog {
    pub entries: Vec<CatalogEntry>,
}

impl ItemCatalog {
    /// A catalog of `entries`.
    pub fn new(entries: Vec<CatalogEntry>) -> (catalog: ItemCatalog)
        ensures
            catalog.entries@ == entries@,
    {
        ItemCatalog { entries }
    }

    /// Replaces what the catalog holds by `entries`.
    pub fn refresh(&mut self, entries: Vec<CatalogEntry>)
        ensures
            final(self).entries@ == entries@,
    {
        self.entries = entries;
    }

    /// The number of entries.
    pub fn len(&self) -> (count: usize)
        ensures
            count == self.entries@.len(),
    {
        self.entries.len()
    }

    /// Whether the catalog holds nothing.
    pub fn is_empty(&self) -> (empty: bool)
        ensures
            empty == (self.entries@.len() == 0),
    {
        self.entries.len() == 0
    }

    /// The entry that best matches `query`, a name in free form. Names are
    /// compared in normalized form. The first entry whose name or short
    /// name is the query wins; else the entry with the longest short name
    /// that stands in the query; else the one with the shortest name that
    /// holds the query; else the one that shares the most words with it.
    /// An empty catalog, an empty query and a query that shares nothing
    /// with any entry give `None`.
    pub fn find_match(&self, query: &str) -> (found: Option<CatalogEntry>)
        ensures
            match found {
                Some(entry) => exists|at: int|
                    is_match(self.entries@, normalized(query@), at) && entry
                        == self.entries@[at],
                None => no_match(self.entries@, normalized(query@)),
            },
    {
        match find_match_index(&self.entries, query) {
            Some(at) => {
                assert(is_match(self.entries@, normalized(query@), at as int));
                Some(self.entries[at].clone())
            },
            None => None,
        }
    }
}

/// At most one entry is the match for a query.
pub proof fn match_is_unique(list: Seq<NamesView>, query: Seq<char>, a: int, b: int)
    requires
        matches(list, query, a),
        matches(list, query, b),
    ensures
        a == b,
{
    if best_overlap(list, query, a) && best_overlap(list, query, b) {
        assert(not_better(list, query, a, b));
        assert(not_better(list, query, b, a));
    }
}

/// A match and no match exclude each other.
pub proof fn match_excludes_no_match(list: Seq<NamesView>, query: Seq<char>, at: int)
    requires
        matches(list, query, at),
    ensures
        !nothing_matches(list, query),
{
}

} // verus!
