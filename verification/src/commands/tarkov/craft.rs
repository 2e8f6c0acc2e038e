//! The craft command: which recipes a search finds, and the menu of them.

use crate::commands::tarkov::{contains_lower, hit_places, mentions, needle_of, offered, options_are};
use crate::tarkov::models::Craft;
use crate::text::{append_str, lowercase, push_signed_decimal, signed_decimal, string_of};
use crate::utils::components::menu_count;
use vstd::prelude::*;

verus! {

/// Whether a product of `craft` mentions `needle` in its name.
pub open spec fn makes(craft: Craft, needle: Seq<char>) -> bool {
    exists|k: int|
        0 <= k < craft.reward_items@.len() && mentions(
            (#[trigger] craft.reward_items@[k]).item.name@,
            needle,
        )
}

/// Whether each of `crafts` makes something that mentions `needle`.
pub open spec fn craft_hits(crafts: Seq<Craft>, needle: Seq<char>) -> Seq<bool> {
    Seq::new(crafts.len(), |i: int| makes(crafts[i], needle))
}

/// What the menu offers of `craft`: its identifier, its first product or
/// the word for a product, and where it is made.
pub open spec fn craft_option(craft: Craft) -> (Seq<char>, Seq<char>, Seq<char>) {
    (
        craft.id@,
        if craft.reward_items@.len() > 0 {
            craft.reward_items@[0].item.name@
        } else {
            "제작품"@
        },
        craft.station.name@ + " Lv."@ + signed_decimal(craft.level as int),
    )
}

/// Whether a product of `craft` mentions `needle` in its name.
pub fn craft_makes(craft: &Craft, needle: &Vec<char>) -> (found: bool)
    ensures
        found == makes(*craft, needle@),
{
    let mut k: usize = 0;
    while k < craft.reward_items.len()
        invariant
            k <= craft.reward_items.len(),
            forall|j: int|
                0 <= j < k ==> !mentions((#[trigger] craft.reward_items@[j]).item.name@, needle@),
        decreases craft.reward_items.len() - k,
    {
        if contains_lower(craft.reward_items[k].item.name.as_str(), needle) {
            return true;
        }
        k = k + 1;
    }
    false
}

/// The places of the recipes that make something whose name holds the
/// search word `name`, in any mix of upper and lower case.
pub fn search_crafts(crafts: &Vec<Craft>, name: &str) -> (places: Vec<usize>)
    ensures
        places@ == hit_places(craft_hits(crafts@, lowercase(name@)), crafts@.len()),
{
    let needle = needle_of(name);
    let mut places: Vec<usize> = Vec::new();
    let mut i: usize = 0;
    while i < crafts.len()
        invariant
            i <= crafts.len(),
            needle@ == lowercase(name@),
            places@ == hit_places(craft_hits(crafts@, needle@), i as nat),
        decreases crafts.len() - i,
    {
        if craft_makes(&crafts[i], &needle) {
            places.push(i);
        }
        i = i + 1;
    }
    places
}

/// The options of the menu of the recipes found: the first 25.
pub fn craft_options(crafts: &Vec<Craft>) -> (options: Vec<(String, String, String)>)
    ensures
        options_are(
            options@,
            Seq::new(offered(crafts@.len()), |i: int| craft_option(crafts@[i])),
        ),
{
    let count = menu_count(crafts.len());
    let mut options: Vec<(String, String, String)> = Vec::new();
    let mut i: usize = 0;
    while i < count
        invariant
            i <= count <= crafts.len(),
            options@.len() == i,
            forall|k: int|
                0 <= k < i ==> (#[trigger] options@[k]).0@ == craft_option(crafts@[k]).0
                    && options@[k].1@ == craft_option(crafts@[k]).1 && options@[k].2@
                    == craft_option(crafts@[k]).2,
        decreases count - i,
    {
        let craft = &crafts[i];
        let label = if craft.reward_items.len() > 0 {
            craft.reward_items[0].item.name.clone()
        } else {
            "제작품".to_owned()
        };
        let mut hint: Vec<char> = Vec::new();
        append_str(&mut hint, craft.station.name.as_str());
        append_str(&mut hint, " Lv.");
        push_signed_decimal(&mut hint, craft.level as i64);
        assert(hint@ =~= craft_option(*craft).2);
        options.push((craft.id.clone(), label, string_of(&hint)));
        i = i + 1;
    }
    options
}

} // verus!
