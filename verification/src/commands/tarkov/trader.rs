//! The trader and map commands share how a menu describes an entry: by
//! the beginning of its description.

use crate::commands::tarkov::{hit_places, mentions, needle_of, contains_lower, offered, options_are};
use crate::tarkov::models::Trader;
use crate::text::{chars_of, lowercase, slice_of, string_of};
use crate::utils::components::menu_count;
use vstd::prelude::*;

verus! {

/// Most characters of a description that a menu shows.
pub const HINT_LIMIT: usize = 50;

/// The first 50 characters of a description; nothing where there is none.
pub open spec fn hint_of(description: Option<String>) -> Seq<char> {
    match description {
        Some(text) => if text@.len() <= HINT_LIMIT {
            text@
        } else {
            text@.subrange(0, HINT_LIMIT as int)
        },
        None => Seq::empty(),
    }
}

/// The first 50 characters of a description.
pub fn make_hint(description: &Option<String>) -> (hint: String)
    ensures
        hint@ == hint_of(*description),
{
    match description {
        Some(text) => {
            let chars = chars_of(text.as_str());
            if chars.len() <= HINT_LIMIT {
                text.clone()
            } else {
                string_of(&slice_of(&chars, 0, HINT_LIMIT))
            }
        },
        None => String::new(),
    }
}

/// What the menu offers of `trader`: its identifier, its name, and the
/// beginning of its description.
pub open spec fn trader_option(trader: Trader) -> (Seq<char>, Seq<char>, Seq<char>) {
    (trader.id@, trader.name@, hint_of(trader.description))
}

/// Whether each of `traders` mentions `needle` in its name.
pub open spec fn trader_hits(traders: Seq<Trader>, needle: Seq<char>) -> Seq<bool> {
    Seq::new(traders.len(), |i: int| mentions(traders[i].name@, needle))
}

/// The places of the traders whose names hold the search word `name`, in
/// any mix of upper and lower case.
pub fn search_traders(traders: &Vec<Trader>, name: &str) -> (places: Vec<usize>)
    ensures
        places@ == hit_places(trader_hits(traders@, lowercase(name@)), traders@.len()),
{
    let needle = needle_of(name);
    let mut places: Vec<usize> = Vec::new();
    let mut i: usize = 0;
    while i < traders.len()
        invariant
            i <= traders.len(),
            needle@ == lowercase(name@),
            places@ == hit_places(trader_hits(traders@, needle@), i as nat),
        decreases traders.len() - i,
    {
        if contains_lower(traders[i].name.as_str(), &needle) {
            places.push(i);
        }
        i = i + 1;
    }
    places
}

/// The options of the menu of the traders found: the first 25.
pub fn trader_options(traders: &Vec<Trader>) -> (options: Vec<(String, String, String)>)
    ensures
        options_are(
            options@,
            Seq::new(offered(traders@.len()), |i: int| trader_option(traders@[i])),
        ),
{
    let count = menu_count(traders.len());
    let mut options: Vec<(String, String, String)> = Vec::new();
    let mut i: usize = 0;
    while i < count
        invariant
            i <= count <= traders.len(),
            options@.len() == i,
            forall|k: int|
                0 <= k < i ==> (#[trigger] options@[k]).0@ == trader_option(traders@[k]).0
                    && options@[k].1@ == trader_option(traders@[k]).1 && options@[k].2@
                    == trader_option(traders@[k]).2,
        decreases count - i,
    {
        let trader = &traders[i];
        options.push((trader.id.clone(), trader.name.clone(), make_hint(&trader.description)));
        i = i + 1;
    }
    options
}

} // verus!
