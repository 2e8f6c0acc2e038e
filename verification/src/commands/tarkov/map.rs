//! The map command: which maps a search finds, and the menu of them.

use crate::commands::tarkov::trader::{hint_of, make_hint};
use crate::commands::tarkov::{contains_lower, hit_places, mentions, needle_of, offered, options_are};
use crate::tarkov::models::GameMap;
use crate::text::lowercase;
use crate::utils::components::menu_count;
use vstd::prelude::*;

verus! {

/// What the menu offers of `map`: its identifier, its name, and the
/// beginning of its description.
pub open spec fn map_option(map: GameMap) -> (Seq<char>, Seq<char>, Seq<char>) {
    (map.id@, map.name@, hint_of(map.description))
}

/// Whether each of `maps` mentions `needle` in its name.
pub open spec fn map_hits(maps: Seq<GameMap>, needle: Seq<char>) -> Seq<bool> {
    Seq::new(maps.len(), |i: int| mentions(maps[i].name@, needle))
}

/// The places of the maps whose names hold the search word `name`, in any
/// mix of upper and lower case.
pub fn search_maps(maps: &Vec<GameMap>, name: &str) -> (places: Vec<usize>)
    ensures
        places@ == hit_places(map_hits(maps@, lowercase(name@)), maps@.len()),
{
    let needle = needle_of(name);
    let mut places: Vec<usize> = Vec::new();
    let mut i: usize = 0;
    while i < maps.len()
        invariant
            i <= maps.len(),
            needle@ == lowercase(name@),
            places@ == hit_places(map_hits(maps@, needle@), i as nat),
        decreases maps.len() - i,
    {
        if contains_lower(maps[i].name.as_str(), &needle) {
            places.push(i);
        }
        i = i + 1;
    }
    places
}

/// The options of the menu of the maps found: the first 25.
pub fn map_options(maps: &Vec<GameMap>) -> (options: Vec<(String, String, String)>)
    ensures
        options_are(options@, Seq::new(offered(maps@.len()), |i: int| map_option(maps@[i]))),
{
    let count = menu_count(maps.len());
    let mut options: Vec<(String, String, String)> = Vec::new();
    let mut i: usize = 0;
    while i < count
        invariant
            i <= count <= maps.len(),
            options@.len() == i,
            forall|k: int|
                0 <= k < i ==> (#[trigger] options@[k]).0@ == map_option(maps@[k]).0
                    && options@[k].1@ == map_option(maps@[k]).1 && options@[k].2@ == map_option(
                    maps@[k],
                ).2,
        decreases count - i,
    {
        let map = &maps[i];
        options.push((map.id.clone(), map.name.clone(), make_hint(&map.description)));
        i = i + 1;
    }
    options
}

} // verus!
