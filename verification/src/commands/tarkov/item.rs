//! The item command: the menu of the items found, and the tabs of an
//! item's card.

use crate::commands::tarkov::{offered, options_are};
use crate::tarkov::embed::{is_item_detail, is_item_price, item_detail, item_price};
use crate::tarkov::models::Item;
use crate::text::str_eq;
use crate::utils::components::{are_tab_buttons, menu_count, tab_buttons, ActionRow};
use crate::utils::embed::Embed;
use vstd::prelude::*;

verus! {

/// What the menu offers of `item`: its identifier, its name, and its first
/// category.
pub open spec fn item_option(item: Item) -> (Seq<char>, Seq<char>, Seq<char>) {
    (
        item.id@,
        item.name@,
        if item.categories@.len() > 0 {
            item.categories@[0].name@
        } else {
            Seq::empty()
        },
    )
}

/// The options of the menu of the items found: the first 25.
pub fn item_options(items: &Vec<Item>) -> (options: Vec<(String, String, String)>)
    ensures
        options_are(
            options@,
            Seq::new(offered(items@.len()), |i: int| item_option(items@[i])),
        ),
{
    let count = menu_count(items.len());
    let mut options: Vec<(String, String, String)> = Vec::new();
    let mut i: usize = 0;
    while i < count
        invariant
            i <= count <= items.len(),
            options@.len() == i,
            forall|k: int|
                0 <= k < i ==> (#[trigger] options@[k]).0@ == item_option(items@[k]).0
                    && options@[k].1@ == item_option(items@[k]).1 && options@[k].2@ == item_option(
                    items@[k],
                ).2,
        decreases count - i,
    {
        let item = &items[i];
        let hint = if item.categories.len() > 0 {
            item.categories[0].name.clone()
        } else {
            String::new()
        };
        options.push((item.id.clone(), item.name.clone(), hint));
        i = i + 1;
    }
    options
}

/// The tabs of an item's card, each with the end of its identifier, its
/// label and whether it is shown.
pub open spec fn item_tabs(active_tab: Seq<char>) -> Seq<(&'static str, &'static str, bool)> {
    seq![("info", "기본정보", active_tab == "info"@), ("price", "가격", active_tab == "price"@)]
}

/// The row of buttons under an item's card that switch between its tabs.
pub fn tab_components(active_tab: &str, item_id: &str) -> (rows: Vec<ActionRow>)
    ensures
        rows@.len() == 1,
        rows@[0] is Buttons,
        are_tab_buttons(rows@[0]->Buttons_0@, "item"@, item_id@, item_tabs(active_tab@)),
{
    let mut tabs: Vec<(&str, &str, bool)> = Vec::new();
    tabs.push(("info", "기본정보", str_eq(active_tab, "info")));
    tabs.push(("price", "가격", str_eq(active_tab, "price")));
    assert(tabs@ =~= item_tabs(active_tab@));
    let mut rows: Vec<ActionRow> = Vec::new();
    rows.push(tab_buttons("item", item_id, &tabs));
    rows
}

/// The card that the tab `tab` of an item shows: the prices on the tab
/// `price`, the item itself on any other.
pub fn tab_card(item: &Item, tab: &str) -> (embed: Embed)
    ensures
        tab@ == "price"@ ==> is_item_price(embed, *item),
        tab@ != "price"@ ==> is_item_detail(embed, *item),
{
    if str_eq(tab, "price") {
        item_price(item)
    } else {
        item_detail(item)
    }
}

} // verus!
