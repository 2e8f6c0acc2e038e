//! What the commands on game data decide: which entries a search finds,
//! what a menu offers, and what a pressed button asks for.

pub mod ammo;
pub mod boss;
pub mod craft;
pub mod hideout;
pub mod item;
pub mod map;
pub mod price;
pub mod quest;
pub mod questitem;
pub mod trader;

use crate::tarkov::embed::TARKOV_COLOR;
use crate::text::{
    append_str, chars_of, contains_chars, decimal, is_substring, lowercase, parse_usize,
    parsed_usize, push_decimal, slice_of, starts_with, str_eq, string_of, to_lowercase,
};
use crate::utils::components::{control_id, MENU_LIMIT};
use crate::utils::embed::{reads, Embed};
use vstd::prelude::*;

verus! {

/// How much a search found.
#[derive(Clone, Copy, Debug, PartialEq, Eq, Structural)]
pub enum Found {
    /// No entry: the user is told so.
    Nothing,
    /// One entry: it is shown at once.
    One,
    /// Several entries: a menu offers them.
    Several,
}

/// How much a search with `count` hits found.
pub fn classify(count: usize) -> (found: Found)
    ensures
        found == if count == 0 {
            Found::Nothing
        } else if count == 1 {
            Found::One
        } else {
            Found::Several
        },
{
    if count == 0 {
        Found::Nothing
    } else if count == 1 {
        Found::One
    } else {
        Found::Several
    }
}

/// Whether `needle`, already in lowercase, stands in the lowercase form of
/// `text`.
pub open spec fn mentions(text: Seq<char>, needle: Seq<char>) -> bool {
    is_substring(needle, lowercase(text))
}

/// Whether `needle`, already in lowercase, stands in the lowercase form of
/// `text`.
pub fn contains_lower(text: &str, needle: &Vec<char>) -> (found: bool)
    ensures
        found == mentions(text@, needle@),
{
    let lower = to_lowercase(text);
    let chars = chars_of(lower.as_str());
    contains_chars(&chars, needle)
}

/// The lowercase form of a search word.
pub fn needle_of(name: &str) -> (needle: Vec<char>)
    ensures
        needle@ == lowercase(name@),
{
    let lower = to_lowercase(name);
    chars_of(lower.as_str())
}

/// The places among the first `count` of `hits` that are hits, in order.
pub open spec fn hit_places(hits: Seq<bool>, count: nat) -> Seq<usize>
    decreases count,
{
    if count == 0 {
        Seq::empty()
    } else if hits[count - 1] {
        hit_places(hits, (count - 1) as nat).push((count - 1) as usize)
    } else {
        hit_places(hits, (count - 1) as nat)
    }
}

/// Every place that is found is a hit, and the places are in order.
pub proof fn lemma_hit_places(hits: Seq<bool>, count: nat)
    requires
        count <= hits.len(),
        count <= usize::MAX,
    ensures
        hit_places(hits, count).len() <= count,
        forall|k: int|
            0 <= k < hit_places(hits, count).len() ==> (#[trigger] hit_places(hits, count)[k])
                < count && hits[hit_places(hits, count)[k] as int],
        forall|i: int|
            0 <= i < count && hits[i] ==> #[trigger] hit_places(hits, count).contains(i as usize),
        forall|a: int, b: int|
            0 <= a < b < hit_places(hits, count).len() ==> hit_places(hits, count)[a]
                < hit_places(hits, count)[b],
    decreases count,
{
    if count > 0 {
        lemma_hit_places(hits, (count - 1) as nat);
        let before = hit_places(hits, (count - 1) as nat);
        let all = hit_places(hits, count);
        assert forall|i: int| 0 <= i < count && hits[i] implies #[trigger] all.contains(
            i as usize,
        ) by {
            if i < count - 1 {
                assert(before.contains(i as usize));
                let at = choose|at: int| 0 <= at < before.len() && before[at] == i as usize;
                assert(all[at] == i as usize);
            } else {
                assert(all[all.len() - 1] == i as usize);
            }
        }
    }
}

/// Whether entry `i` of `names` mentions `needle`, for each entry.
pub open spec fn name_hits(names: Seq<String>, needle: Seq<char>) -> Seq<bool> {
    Seq::new(names.len(), |i: int| mentions(names[i]@, needle))
}

/// The places of the names that hold the search word `query`, in any mix
/// of upper and lower case, in order.
pub fn search_names(names: &Vec<String>, query: &str) -> (places: Vec<usize>)
    ensures
        places@ == hit_places(name_hits(names@, lowercase(query@)), names@.len()),
{
    let needle = needle_of(query);
    let mut places: Vec<usize> = Vec::new();
    let mut i: usize = 0;
    while i < names.len()
        invariant
            i <= names.len(),
            needle@ == lowercase(query@),
            places@ == hit_places(name_hits(names@, needle@), i as nat),
        decreases names.len() - i,
    {
        if contains_lower(names[i].as_str(), &needle) {
            places.push(i);
        }
        i = i + 1;
    }
    places
}

/// The place of the first of `ids` that is `wanted`.
pub fn position_of(ids: &Vec<String>, wanted: &str) -> (place: Option<usize>)
    ensures
        match place {
            Some(at) => at < ids@.len() && ids@[at as int]@ == wanted@ && forall|j: int|
                0 <= j < at ==> (#[trigger] ids@[j])@ != wanted@,
            None => forall|j: int| 0 <= j < ids@.len() ==> (#[trigger] ids@[j])@ != wanted@,
        },
{
    let mut i: usize = 0;
    while i < ids.len()
        invariant
            i <= ids.len(),
            forall|j: int| 0 <= j < i ==> (#[trigger] ids@[j])@ != wanted@,
        decreases ids.len() - i,
    {
        if str_eq(ids[i].as_str(), wanted) {
            return Some(i);
        }
        i = i + 1;
    }
    None
}

/// What the card of a search says: the number of hits, and a word to
/// narrow the search where a menu cannot offer them all.
pub open spec fn summary_text(count: nat) -> Seq<char> {
    "**"@ + decimal(count) + "건**의 검색 결과"@ + if count > MENU_LIMIT {
        "\n결과가 많습니다. 더 구체적으로 검색해주세요."@
    } else {
        Seq::empty()
    }
}

/// Writes what the card of a search says.
pub fn search_summary(count: usize) -> (text: String)
    ensures
        text@ == summary_text(count as nat),
{
    let mut out: Vec<char> = Vec::new();
    append_str(&mut out, "**");
    push_decimal(&mut out, count as u64);
    append_str(&mut out, "건**의 검색 결과");
    if count > MENU_LIMIT {
        append_str(&mut out, "\n결과가 많습니다. 더 구체적으로 검색해주세요.");
    }
    assert(out@ =~= summary_text(count as nat));
    string_of(&out)
}

/// The card of a search with several hits: `heading` names what was
/// searched, `name` is the search word.
pub fn search_card(heading: &str, name: &str, count: usize) -> (embed: Embed)
    ensures
        reads(embed.title, heading@ + ": "@ + name@),
        reads(embed.description, summary_text(count as nat)),
        embed.color == Some(TARKOV_COLOR),
        embed.fields@.len() == 0,
        embed.footer is None,
        embed.thumbnail is None,
{
    let mut title: Vec<char> = Vec::new();
    append_str(&mut title, heading);
    append_str(&mut title, ": ");
    append_str(&mut title, name);
    assert(title@ =~= heading@ + ": "@ + name@);
    Embed {
        title: Some(string_of(&title)),
        description: Some(search_summary(count)),
        color: Some(TARKOV_COLOR),
        fields: Vec::new(),
        footer: None,
        thumbnail: None,
    }
}

/// The words for a search without hits.
pub fn no_results(name: &str) -> (text: String)
    ensures
        text@ == "검색 결과가 없습니다: "@ + name@,
{
    let mut out: Vec<char> = Vec::new();
    append_str(&mut out, "검색 결과가 없습니다: ");
    append_str(&mut out, name);
    assert(out@ =~= "검색 결과가 없습니다: "@ + name@);
    string_of(&out)
}

/// Whether `options` are exactly `expected`, each a value, a label and a
/// description.
pub open spec fn options_are(
    options: Seq<(String, String, String)>,
    expected: Seq<(Seq<char>, Seq<char>, Seq<char>)>,
) -> bool {
    &&& options.len() == expected.len()
    &&& forall|i: int|
        0 <= i < expected.len() ==> (#[trigger] options[i]).0@ == expected[i].0 && options[i].1@
            == expected[i].1 && options[i].2@ == expected[i].2
}

/// How many of `len` entries a menu offers.
pub open spec fn offered(len: nat) -> nat {
    if len <= MENU_LIMIT {
        len
    } else {
        MENU_LIMIT as nat
    }
}

/// The page that a pressed button asks for. A button to go back or on
/// carries the page in its identifier; any other button, and a page that
/// is no number, leaves the page as it is.
pub open spec fn asked_page(custom_id: Seq<char>, cmd: Seq<char>, page: usize) -> usize {
    let back = "tarkov_"@ + cmd + "_prev_"@;
    let on = "tarkov_"@ + cmd + "_next_"@;
    if back.is_prefix_of(custom_id) {
        match parsed_usize(custom_id.subrange(back.len() as int, custom_id.len() as int)) {
            Some(asked) => asked,
            None => page,
        }
    } else if on.is_prefix_of(custom_id) {
        match parsed_usize(custom_id.subrange(on.len() as int, custom_id.len() as int)) {
            Some(asked) => asked,
            None => page,
        }
    } else {
        page
    }
}

/// The last page where `page` lies behind it.
pub open spec fn within(page: usize, total_pages: usize) -> usize {
    if total_pages == 0 {
        0
    } else if page < total_pages {
        page
    } else {
        (total_pages - 1) as usize
    }
}

/// The page that is shown after a button of the command `cmd` was pressed
/// on `page`: the page that the button asks for, but no page behind the
/// last one.
pub fn turn_page(custom_id: &str, cmd: &str, page: usize, total_pages: usize) -> (shown: usize)
    ensures
        shown == within(asked_page(custom_id@, cmd@, page), total_pages),
{
    let id = chars_of(custom_id);
    let mut back: Vec<char> = Vec::new();
    append_str(&mut back, "tarkov_");
    append_str(&mut back, cmd);
    append_str(&mut back, "_prev_");
    assert(back@ =~= "tarkov_"@ + cmd@ + "_prev_"@);
    let mut on: Vec<char> = Vec::new();
    append_str(&mut on, "tarkov_");
    append_str(&mut on, cmd);
    append_str(&mut on, "_next_");
    assert(on@ =~= "tarkov_"@ + cmd@ + "_next_"@);
    let mut asked = page;
    if starts_with(&id, &back) {
        let rest = slice_of(&id, back.len(), id.len());
        if let Some(number) = parse_usize(&rest) {
            asked = number;
        }
    } else if starts_with(&id, &on) {
        let rest = slice_of(&id, on.len(), id.len());
        if let Some(number) = parse_usize(&rest) {
            asked = number;
        }
    }
    if total_pages == 0 {
        0
    } else if asked < total_pages {
        asked
    } else {
        total_pages - 1
    }
}

/// The place of the first `_` in `text` at or behind `from`.
pub fn find_underscore(text: &Vec<char>, from: usize) -> (place: Option<usize>)
    requires
        from <= text.len(),
    ensures
        match place {
            Some(at) => from <= at < text@.len() && text@[at as int] == '_' && forall|j: int|
                from <= j < at ==> text@[j] != '_',
            None => forall|j: int| from <= j < text@.len() ==> text@[j] != '_',
        },
{
    let mut i: usize = from;
    while i < text.len()
        invariant
            from <= i <= text.len(),
            forall|j: int| from <= j < i ==> text@[j] != '_',
        decreases text.len() - i,
    {
        if text[i] == '_' {
            return Some(i);
        }
        i = i + 1;
    }
    None
}

/// Whether `text` holds an underscore.
pub open spec fn has_underscore(text: Seq<char>) -> bool {
    text.contains('_')
}

/// Reads the identifier of a tab's button of the command `cmd`: the tab
/// and the entry that the button is about. The identifier is `tarkov`, the
/// command, the tab and the entry, joined by underscores; only the entry
/// may hold underscores itself. Any other identifier gives `None`.
pub fn parse_tab_id(custom_id: &str, cmd: &str) -> (parts: Option<(String, String)>)
    ensures
        match parts {
            Some((tab, target)) => custom_id@ == control_id(cmd@, tab@, target@) && !has_underscore(
                tab@,
            ) && !has_underscore(cmd@),
            None => has_underscore(cmd@) || forall|tab: Seq<char>, target: Seq<char>|
                !has_underscore(tab) ==> custom_id@ != #[trigger] control_id(cmd@, tab, target),
        },
{
    let id = chars_of(custom_id);
    let command = chars_of(cmd);
    if let Some(at) = find_underscore(&command, 0) {
        assert(command@.contains('_'));
        return None;
    }
    assert(!has_underscore(cmd@)) by {
        if cmd@.contains('_') {
            let at = choose|at: int| 0 <= at < cmd@.len() && cmd@[at] == '_';
            assert(command@[at] == '_');
        }
    }
    let mut prefix: Vec<char> = Vec::new();
    append_str(&mut prefix, "tarkov_");
    append_str(&mut prefix, cmd);
    append_str(&mut prefix, "_");
    assert(prefix@ =~= "tarkov_"@ + cmd@ + "_"@);
    if !starts_with(&id, &prefix) {
        assert forall|tab: Seq<char>, target: Seq<char>| !has_underscore(tab) implies custom_id@
            != #[trigger] control_id(cmd@, tab, target) by {
            let whole = control_id(cmd@, tab, target);
            assert(whole.subrange(0, prefix@.len() as int) =~= prefix@);
        }
        return None;
    }
    match find_underscore(&id, prefix.len()) {
        Some(at) => {
            let tab = slice_of(&id, prefix.len(), at);
            let target = slice_of(&id, at + 1, id.len());
            assert(id@ =~= control_id(cmd@, tab@, target@)) by {
                reveal_strlit("_");
                assert(id@.subrange(0, prefix@.len() as int) == prefix@);
                assert("_"@ =~= seq!['_']);
                assert(control_id(cmd@, tab@, target@) =~= prefix@ + tab@ + seq!['_'] + target@);
                assert(id@ =~= prefix@ + tab@ + seq!['_'] + target@);
            }
            assert(!has_underscore(tab@)) by {
                if tab@.contains('_') {
                    let k = choose|k: int| 0 <= k < tab@.len() && tab@[k] == '_';
                    assert(id@[prefix@.len() + k] == '_');
                }
            }
            Some((string_of(&tab), string_of(&target)))
        },
        None => {
            assert forall|tab: Seq<char>, target: Seq<char>| !has_underscore(tab) implies custom_id@
                != #[trigger] control_id(cmd@, tab, target) by {
                let whole = control_id(cmd@, tab, target);
                if custom_id@ == whole {
                    reveal_strlit("_");
                    assert("_"@ =~= seq!['_']);
                    assert(whole =~= prefix@ + tab + seq!['_'] + target);
                    assert(whole[(prefix@.len() + tab.len()) as int] == '_');
                }
            }
            None
        },
    }
}

} // verus!
