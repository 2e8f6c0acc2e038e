//! The price command: the menu of the items found, with their prices.

use crate::commands::tarkov::{offered, options_are};
use crate::tarkov::embed::{format_number, number_text, push_number};
use crate::tarkov::models::Item;
use crate::text::{append_str, string_of};
use crate::utils::components::menu_count;
use vstd::prelude::*;

verus! {

/// Renders a price with commas between groups of three digits.
pub fn format_price(n: i64) -> (text: String)
    ensures
        text@ == number_text(n as int),
{
    format_number(n)
}

/// What the menu says of the price of `item`: its average of the last
/// day, or the words that none is known.
pub open spec fn price_hint(item: Item) -> Seq<char> {
    if item.avg24h_price is Some && item.avg24h_price->0 > 0 {
        "~"@ + number_text(item.avg24h_price->0 as int) + " RUB"@
    } else {
        "가격 정보 없음"@
    }
}

/// What the menu offers of `item`: its identifier, its name, and its
/// price.
pub open spec fn price_option(item: Item) -> (Seq<char>, Seq<char>, Seq<char>) {
    (item.id@, item.name@, price_hint(item))
}

/// Writes what the menu says of the price of `item`.
pub fn make_price_hint(item: &Item) -> (hint: String)
    ensures
        hint@ == price_hint(*item),
{
    let mut out: Vec<char> = Vec::new();
    let known = match item.avg24h_price {
        Some(price) => price > 0,
        None => false,
    };
    if known {
        if let Some(price) = item.avg24h_price {
            append_str(&mut out, "~");
            push_number(&mut out, price as i128);
            append_str(&mut out, " RUB");
        }
    } else {
        append_str(&mut out, "가격 정보 없음");
    }
    assert(out@ =~= price_hint(*item));
    string_of(&out)
}

/// The options of the menu of the items found: the first 25.
pub fn price_options(items: &Vec<Item>) -> (options: Vec<(String, String, String)>)
    ensures
        options_are(
            options@,
            Seq::new(offered(items@.len()), |i: int| price_option(items@[i])),
        ),
{
    let count = menu_count(items.len());
    let mut options: Vec<(String, String, String)> = Vec::new();
    let mut i: usize = 0;
    while i < count
        invariant
            i <= count <= items.len(),
            options@.len() == i,
            forall|k: int|
                0 <= k < i ==> (#[trigger] options@[k]).0@ == price_option(items@[k]).0
                    && options@[k].1@ == price_option(items@[k]).1 && options@[k].2@
                    == price_option(items@[k]).2,
        decreases count - i,
    {
        let item = &items[i];
        options.push((item.id.clone(), item.name.clone(), make_price_hint(item)));
        i = i + 1;
    }
    options
}

} // verus!
