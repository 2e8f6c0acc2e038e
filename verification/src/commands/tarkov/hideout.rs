//! The hideout command: which stations a search finds, and the menu of
//! them.

use crate::commands::tarkov::{contains_lower, hit_places, mentions, needle_of, offered, options_are};
use crate::tarkov::models::HideoutStation;
use crate::text::{append_str, decimal, lowercase, push_decimal, string_of};
use crate::utils::components::menu_count;
use vstd::prelude::*;

verus! {

/// What the menu says of a station: how many levels it has.
pub open spec fn levels_hint(station: HideoutStation) -> Seq<char> {
    "레벨 "@ + decimal(station.levels@.len()) + "단계"@
}

/// What the menu offers of `station`: its identifier, its name, and the
/// number of its levels.
pub open spec fn station_option(station: HideoutStation) -> (Seq<char>, Seq<char>, Seq<char>) {
    (station.id@, station.name@, levels_hint(station))
}

/// Whether each of `stations` mentions `needle` in its name.
pub open spec fn station_hits(stations: Seq<HideoutStation>, needle: Seq<char>) -> Seq<bool> {
    Seq::new(stations.len(), |i: int| mentions(stations[i].name@, needle))
}

/// The places of the stations whose names hold the search word `name`, in
/// any mix of upper and lower case.
pub fn search_stations(stations: &Vec<HideoutStation>, name: &str) -> (places: Vec<usize>)
    ensures
        places@ == hit_places(station_hits(stations@, lowercase(name@)), stations@.len()),
{
    let needle = needle_of(name);
    let mut places: Vec<usize> = Vec::new();
    let mut i: usize = 0;
    while i < stations.len()
        invariant
            i <= stations.len(),
            needle@ == lowercase(name@),
            places@ == hit_places(station_hits(stations@, needle@), i as nat),
        decreases stations.len() - i,
    {
        if contains_lower(stations[i].name.as_str(), &needle) {
            places.push(i);
        }
        i = i + 1;
    }
    places
}

/// The options of the menu of the stations found: the first 25.
pub fn station_options(stations: &Vec<HideoutStation>) -> (options: Vec<(String, String, String)>)
    ensures
        options_are(
            options@,
            Seq::new(offered(stations@.len()), |i: int| station_option(stations@[i])),
        ),
{
    let count = menu_count(stations.len());
    let mut options: Vec<(String, String, String)> = Vec::new();
    let mut i: usize = 0;
    while i < count
        invariant
            i <= count <= stations.len(),
            options@.len() == i,
            forall|k: int|
                0 <= k < i ==> (#[trigger] options@[k]).0@ == station_option(stations@[k]).0
                    && options@[k].1@ == station_option(stations@[k]).1 && options@[k].2@
                    == station_option(stations@[k]).2,
        decreases count - i,
    {
        let station = &stations[i];
        let mut hint: Vec<char> = Vec::new();
        append_str(&mut hint, "레벨 ");
        push_decimal(&mut hint, station.levels.len() as u64);
        append_str(&mut hint, "단계");
        assert(hint@ =~= levels_hint(*station));
        options.push((station.id.clone(), station.name.clone(), string_of(&hint)));
        i = i + 1;
    }
    options
}

/// Whether the levels of a station are turned like pages: only a station
/// with more than one level has buttons for it.
pub fn has_level_pages(station: &HideoutStation) -> (paged: bool)
    ensures
        paged == (station.levels@.len() > 1),
{
    station.levels.len() > 1
}

} // verus!
