//! The ammunition command: the orders in which its table can be sorted.

use crate::commands::tarkov::{contains_lower, hit_places, mentions, needle_of};
use crate::tarkov::models::Ammo;
use crate::text::{append_str, chars_of, lowercase, slice_of, starts_with, str_eq, string_of};
use crate::utils::components::{
    are_page_buttons, button_is, pagination_row, ActionRow, Button, ButtonStyle,
};
use vstd::prelude::*;

verus! {

/// By which figure the table of ammunition is sorted, highest first.
#[derive(Clone, Copy, Debug, PartialEq, Eq, Structural)]
pub enum AmmoSort {
    Penetration,
    Damage,
    ArmorDamage,
}

/// The entries of `list` whose figure under `sort` is `figure`, in their
/// order.
pub open spec fn with_key(list: Seq<Ammo>, sort: AmmoSort, figure: int) -> Seq<Ammo> {
    list.filter(|ammo: Ammo| sort.key_of(ammo) == figure)
}

/// Whether `sorted` is `list` sorted by the figure of `sort`, highest
/// first, with entries of the same figure in the order they had: it holds
/// what `list` holds, no figure is followed by a greater one, and for each
/// figure the entries with it are the same, in the same order.
pub open spec fn is_sorted_from(sorted: Seq<Ammo>, list: Seq<Ammo>, sort: AmmoSort) -> bool {
    &&& sorted.to_multiset() == list.to_multiset()
    &&& forall|i: int, j: int|
        0 <= i <= j < sorted.len() ==> sort.key_of(sorted[i]) >= sort.key_of(sorted[j])
    &&& forall|figure: int| #[trigger] with_key(sorted, sort, figure) == with_key(list, sort, figure)
}

/// Sorts `ammo_list` with `slice::sort_by` of std, comparing the keys that
/// `sort` gives, the greater key first. What comes out holds what went in,
/// each as often as before, and no key is followed by a greater one. The
/// sort of std is stable, so entries with equal keys keep their order.
#[verifier::external_body]
fn sort_descending(ammo_list: &mut Vec<Ammo>, sort: AmmoSort)
    ensures
        is_sorted_from(final(ammo_list)@, old(ammo_list)@, sort),
{
    ammo_list.sort_by(|a, b| sort.key(b).cmp(&sort.key(a)));
}

impl AmmoSort {
    /// The words shown for this order.
    pub open spec fn label_text(self) -> Seq<char> {
        match self {
            AmmoSort::Penetration => "관통력순"@,
            AmmoSort::Damage => "데미지순"@,
            AmmoSort::ArmorDamage => "방어력 피해순"@,
        }
    }

    /// The short name of this order in the identifiers of buttons.
    pub open spec fn id_text(self) -> Seq<char> {
        match self {
            AmmoSort::Penetration => "pen"@,
            AmmoSort::Damage => "dmg"@,
            AmmoSort::ArmorDamage => "armor"@,
        }
    }

    /// The figure of `ammo` by which this order sorts.
    pub open spec fn key_of(self, ammo: Ammo) -> int {
        match self {
            AmmoSort::Penetration => ammo.penetration_power as int,
            AmmoSort::Damage => ammo.damage as int,
            AmmoSort::ArmorDamage => ammo.armor_damage as int,
        }
    }

    /// The words shown for this order.
    pub fn label(self) -> (text: &'static str)
        ensures
            text@ == self.label_text(),
    {
        match self {
            AmmoSort::Penetration => "관통력순",
            AmmoSort::Damage => "데미지순",
            AmmoSort::ArmorDamage => "방어력 피해순",
        }
    }

    /// The short name of this order in the identifiers of buttons.
    pub fn id(self) -> (text: &'static str)
        ensures
            text@ == self.id_text(),
    {
        match self {
            AmmoSort::Penetration => "pen",
            AmmoSort::Damage => "dmg",
            AmmoSort::ArmorDamage => "armor",
        }
    }

    /// The order with the short name `id`, if there is one.
    pub fn from_id(id: &str) -> (sort: Option<AmmoSort>)
        ensures
            match sort {
                Some(found) => found.id_text() == id@,
                None => forall|any: AmmoSort| any.id_text() != id@,
            },
    {
        if str_eq(id, "pen") {
            Some(AmmoSort::Penetration)
        } else if str_eq(id, "dmg") {
            Some(AmmoSort::Damage)
        } else if str_eq(id, "armor") {
            Some(AmmoSort::ArmorDamage)
        } else {
            None
        }
    }

    /// The figure of `ammo` by which this order sorts.
    pub fn key(self, ammo: &Ammo) -> (figure: i32)
        ensures
            figure == self.key_of(*ammo),
    {
        match self {
            AmmoSort::Penetration => ammo.penetration_power,
            AmmoSort::Damage => ammo.damage,
            AmmoSort::ArmorDamage => ammo.armor_damage,
        }
    }

    /// Sorts `ammo_list` by this order's figure, highest first. Entries
    /// with the same figure keep their order.
    pub fn sort(self, ammo_list: &mut Vec<Ammo>)
        ensures
            is_sorted_from(final(ammo_list)@, old(ammo_list)@, self),
    {
        sort_descending(ammo_list, self);
    }
}

/// Whether the calibre, the name or the short name of `ammo` mentions
/// `needle`.
pub open spec fn ammo_mentions(ammo: Ammo, needle: Seq<char>) -> bool {
    mentions(ammo.caliber@, needle) || mentions(ammo.item.name@, needle) || mentions(
        ammo.item.short_name@,
        needle,
    )
}

/// Whether each of `list` mentions `needle`.
pub open spec fn ammo_hits(list: Seq<Ammo>, needle: Seq<char>) -> Seq<bool> {
    Seq::new(list.len(), |i: int| ammo_mentions(list[i], needle))
}

/// The places of the kinds of ammunition whose calibre, name or short
/// name holds the search word `name`, in any mix of upper and lower case.
pub fn search_ammo(list: &Vec<Ammo>, name: &str) -> (places: Vec<usize>)
    ensures
        places@ == hit_places(ammo_hits(list@, lowercase(name@)), list@.len()),
{
    let needle = needle_of(name);
    let mut places: Vec<usize> = Vec::new();
    let mut i: usize = 0;
    while i < list.len()
        invariant
            i <= list.len(),
            needle@ == lowercase(name@),
            places@ == hit_places(ammo_hits(list@, needle@), i as nat),
        decreases list.len() - i,
    {
        let ammo = &list[i];
        if contains_lower(ammo.caliber.as_str(), &needle) || contains_lower(
            ammo.item.name.as_str(),
            &needle,
        ) || contains_lower(ammo.item.short_name.as_str(), &needle) {
            places.push(i);
        }
        i = i + 1;
    }
    places
}

/// The order that a pressed button asks for: a button to sort carries the
/// short name of the order in its identifier.
pub fn asked_sort(custom_id: &str) -> (sort: Option<AmmoSort>)
    ensures
        match sort {
            Some(found) => custom_id@ == "tarkov_ammo_sort_"@ + found.id_text(),
            None => forall|any: AmmoSort| custom_id@ != "tarkov_ammo_sort_"@ + any.id_text(),
        },
{
    let id = chars_of(custom_id);
    let prefix = chars_of("tarkov_ammo_sort_");
    if starts_with(&id, &prefix) {
        let rest = string_of(&slice_of(&id, prefix.len(), id.len()));
        let sort = AmmoSort::from_id(rest.as_str());
        proof {
            assert(id@ =~= prefix@ + rest@);
            match sort {
                Some(found) => {},
                None => {
                    assert forall|any: AmmoSort| custom_id@ != "tarkov_ammo_sort_"@
                        + any.id_text() by {
                        if custom_id@ == "tarkov_ammo_sort_"@ + any.id_text() {
                            assert(rest@ =~= any.id_text()) by {
                                assert((prefix@ + any.id_text()).subrange(
                                    prefix@.len() as int,
                                    (prefix@ + any.id_text()).len() as int,
                                ) =~= any.id_text());
                            }
                        }
                    }
                },
            }
        }
        sort
    } else {
        proof {
            assert forall|any: AmmoSort| custom_id@ != "tarkov_ammo_sort_"@ + any.id_text() by {
                let whole = "tarkov_ammo_sort_"@ + any.id_text();
                assert(whole.subrange(0, prefix@.len() as int) =~= prefix@);
            }
        }
        None
    }
}

/// The button that sorts by `sort`: it stands out where `sort` is the
/// order that is shown.
pub open spec fn is_sort_button(button: Button, sort: AmmoSort, current: AmmoSort) -> bool {
    button_is(
        button,
        "tarkov_ammo_sort_"@ + sort.id_text(),
        sort.label_text(),
        None,
        if sort == current {
            ButtonStyle::Primary
        } else {
            ButtonStyle::Secondary
        },
        false,
    )
}

/// The button that sorts by `sort`.
pub fn sort_button(sort: AmmoSort, current: AmmoSort) -> (button: Button)
    ensures
        is_sort_button(button, sort, current),
{
    let mut id: Vec<char> = Vec::new();
    append_str(&mut id, "tarkov_ammo_sort_");
    append_str(&mut id, sort.id());
    assert(id@ =~= "tarkov_ammo_sort_"@ + sort.id_text());
    Button {
        custom_id: string_of(&id),
        label: sort.label().to_owned(),
        emoji: None,
        style: if sort == current {
            ButtonStyle::Primary
        } else {
            ButtonStyle::Secondary
        },
        disabled: false,
    }
}

/// The controls under the table of ammunition: the buttons that sort, and
/// the buttons that turn pages.
pub fn build_ammo_components(current_sort: AmmoSort, page: usize, total_pages: usize) -> (rows:
    Vec<ActionRow>)
    requires
        page < usize::MAX,
    ensures
        rows@.len() == 2,
        rows@[0] is Buttons,
        rows@[0]->Buttons_0@.len() == 3,
        is_sort_button(rows@[0]->Buttons_0@[0], AmmoSort::Penetration, current_sort),
        is_sort_button(rows@[0]->Buttons_0@[1], AmmoSort::Damage, current_sort),
        is_sort_button(rows@[0]->Buttons_0@[2], AmmoSort::ArmorDamage, current_sort),
        rows@[1] is Buttons,
        are_page_buttons(rows@[1]->Buttons_0@, "ammo"@, page as nat, total_pages as nat),
{
    let mut buttons: Vec<Button> = Vec::new();
    buttons.push(sort_button(AmmoSort::Penetration, current_sort));
    buttons.push(sort_button(AmmoSort::Damage, current_sort));
    buttons.push(sort_button(AmmoSort::ArmorDamage, current_sort));
    let mut rows: Vec<ActionRow> = Vec::new();
    rows.push(ActionRow::Buttons(buttons));
    rows.push(pagination_row("ammo", page, total_pages));
    rows
}

} // verus!
