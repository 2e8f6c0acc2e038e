//! Texts and page arithmetic for the cards that show game data.

use crate::tarkov::models::{
    Ammo, Boss, BossHealth, Category, Craft, CraftItem, GameMap, HideoutItemReq, HideoutStation,
    Item, MapBoss, MapExtract, StationLevelReq, Task, TaskObjective, TaskRewardItem, Trader,
    TraderLevel, VendorPrice,
};
use crate::text::{
    append_chars, append_str, byte_len, chars_of, decimal, digit, digit_char, head_of,
    head_within, magnitude_wide, padded_left, padded_right, push_decimal, push_decimal_wide,
    push_padded_left, push_padded_right, push_repeated, push_signed_decimal,
    push_signed_decimal_wide, repeated, signed_decimal, str_eq, string_of,
};
use crate::utils::embed::{reads, Embed};
use vstd::prelude::*;
use vstd::utf8::encode_utf8;

verus! {

/// Colour of every card of game data.
pub const TARKOV_COLOR: u32 = 0xC8AA6E;

/// Rows on one page of a table.
pub const ITEMS_PER_PAGE: usize = 10;

/// The three digits of `n`, with leading zeros.
pub open spec fn three_digits(n: nat) -> Seq<char>
    recommends
        n < 1000,
{
    seq![digit(n / 100), digit(n / 10 % 10), digit(n % 10)]
}

/// The digits of `n` in groups of three, separated by commas.
pub open spec fn grouped(n: nat) -> Seq<char>
    decreases n,
{
    if n < 1000 {
        decimal(n)
    } else {
        grouped(n / 1000) + seq![','] + three_digits(n % 1000)
    }
}

/// `n` with its digits in groups of three, and a minus sign before them
/// where it is negative.
pub open spec fn number_text(n: int) -> Seq<char> {
    if n < 0 {
        seq!['-'] + grouped((-n) as nat)
    } else {
        grouped(n as nat)
    }
}

/// A duration in words: hours and minutes where there are any, else the
/// seconds. Less than a minute, and anything negative, is given in seconds.
pub open spec fn duration_text(seconds: int) -> Seq<char> {
    let hours = seconds / 3600;
    let minutes = seconds % 3600 / 60;
    if seconds < 60 {
        signed_decimal(seconds) + "초"@
    } else if hours > 0 && minutes > 0 {
        decimal(hours as nat) + "시간 "@ + decimal(minutes as nat) + "분"@
    } else if hours > 0 {
        decimal(hours as nat) + "시간"@
    } else {
        decimal(minutes as nat) + "분"@
    }
}

/// Appends the digits of `n` in groups of three.
pub fn push_grouped(out: &mut Vec<char>, n: u128)
    ensures
        final(out)@ == old(out)@ + grouped(n as nat),
    decreases n,
{
    if n < 1000 {
        push_decimal_wide(out, n);
    } else {
        push_grouped(out, n / 1000);
        let rest = (n % 1000) as u64;
        out.push(',');
        out.push(digit_char(rest / 100));
        out.push(digit_char(rest / 10 % 10));
        out.push(digit_char(rest % 10));
        assert(out@ =~= old(out)@ + grouped(n as nat));
    }
}

/// Appends `n` with commas between groups of three digits.
pub fn push_number(out: &mut Vec<char>, n: i128)
    ensures
        final(out)@ == old(out)@ + number_text(n as int),
{
    if n < 0 {
        out.push('-');
    }
    push_grouped(out, magnitude_wide(n));
    assert(out@ =~= old(out)@ + number_text(n as int));
}

/// Renders `n` with commas between groups of three digits.
pub fn format_number(n: i64) -> (text: String)
    ensures
        text@ == number_text(n as int),
{
    let mut out: Vec<char> = Vec::new();
    push_number(&mut out, n as i128);
    assert(out@ =~= number_text(n as int));
    string_of(&out)
}

/// Renders a duration of `seconds` in words.
pub fn format_duration(seconds: i32) -> (text: String)
    ensures
        text@ == duration_text(seconds as int),
{
    let mut out: Vec<char> = Vec::new();
    if seconds < 60 {
        push_signed_decimal(&mut out, seconds as i64);
        append_str(&mut out, "초");
    } else {
        let total = seconds as u64;
        let hours = total / 3600;
        let minutes = total % 3600 / 60;
        if hours > 0 && minutes > 0 {
            push_decimal(&mut out, hours);
            append_str(&mut out, "시간 ");
            push_decimal(&mut out, minutes);
            append_str(&mut out, "분");
        } else if hours > 0 {
            push_decimal(&mut out, hours);
            append_str(&mut out, "시간");
        } else {
            push_decimal(&mut out, minutes);
            append_str(&mut out, "분");
        }
    }
    assert(out@ =~= duration_text(seconds as int));
    string_of(&out)
}

/// One page of a table: which page is shown, of how many, and the rows on
/// it, from `start` up to `end`.
#[derive(Clone, Copy, Debug, PartialEq, Eq, Structural)]
pub struct TablePage {
    pub page: usize,
    pub total_pages: usize,
    pub start: usize,
    pub end: usize,
}

/// The pages that `len` rows fill: at least one.
pub open spec fn pages_for(len: nat) -> nat {
    if len == 0 {
        1
    } else {
        ((len + ITEMS_PER_PAGE - 1) / ITEMS_PER_PAGE as int) as nat
    }
}

/// The page of a table of `len` rows that a request for `page`, counted
/// from 0, shows: a page past the last one shows the last one.
pub fn table_page(len: usize, page: usize) -> (shown: TablePage)
    ensures
        (shown.page as nat, shown.total_pages as nat, shown.start as nat, shown.end as nat)
            == table_page_of(len as nat, page as nat),
        shown.start <= shown.end <= len,
        shown.page < shown.total_pages,
{
    let total_pages = if len == 0 {
        1
    } else {
        (len - 1) / ITEMS_PER_PAGE + 1
    };
    let page = if page < total_pages {
        page
    } else {
        total_pages - 1
    };
    let start = page * ITEMS_PER_PAGE;
    let end = if len - start >= ITEMS_PER_PAGE {
        start + ITEMS_PER_PAGE
    } else {
        len
    };
    TablePage { page, total_pages, start, end }
}

/// Whether `link` is there exactly if `expected` is, and is the same link.
pub open spec fn same_link(link: Option<String>, expected: Option<String>) -> bool {
    match expected {
        Some(text) => reads(link, text@),
        None => link is None,
    }
}

/// A copy of an optional link.
pub fn copy_link(link: &Option<String>) -> (copy: Option<String>)
    ensures
        same_link(copy, *link),
{
    match link {
        Some(text) => Some(text.clone()),
        None => None,
    }
}

/// A card of game data with this title and text.
pub fn card(title: String, description: String, footer: Option<String>, thumbnail: Option<String>)
    -> (embed: Embed)
    ensures
        embed.title == Some(title),
        embed.description == Some(description),
        embed.color == Some(TARKOV_COLOR),
        embed.fields@.len() == 0,
        embed.footer == footer,
        embed.thumbnail == thumbnail,
{
    Embed {
        title: Some(title),
        description: Some(description),
        color: Some(TARKOV_COLOR),
        fields: Vec::new(),
        footer,
        thumbnail,
    }
}

/// The names of the first `count` of `categories`, separated by a comma
/// and a space.
pub open spec fn category_names(categories: Seq<Category>, count: nat) -> Seq<char>
    decreases count,
{
    if count == 0 {
        Seq::empty()
    } else if count == 1 {
        categories[0].name@
    } else {
        category_names(categories, (count - 1) as nat) + ", "@ + categories[count - 1].name@
    }
}

/// The text of the card of an item: its description, short name,
/// categories, base price, weight and size.
pub open spec fn item_detail_text(item: Item) -> Seq<char> {
    (match item.description {
        Some(text) => text@ + "\n"@,
        None => Seq::empty(),
    }) + "\n**단축명**: "@ + item.short_name@ + (if item.categories@.len() > 0 {
        "\n**카테고리**: "@ + category_names(item.categories@, item.categories@.len())
    } else {
        Seq::empty()
    }) + "\n**기본가**: "@ + number_text(item.base_price as int) + " RUB"@ + "\n**무게**: "@
        + item.weight@ + " kg"@ + "\n**크기**: "@ + signed_decimal(item.width as int) + "x"@
        + signed_decimal(item.height as int)
}

/// Whether `embed` is the card of `item` itself.
pub open spec fn is_item_detail(embed: Embed, item: Item) -> bool {
    &&& reads(embed.title, item.name@)
    &&& reads(embed.description, item_detail_text(item))
    &&& embed.color == Some(TARKOV_COLOR)
    &&& embed.fields@.len() == 0
    &&& embed.footer is None
    &&& same_link(embed.thumbnail, item.grid_image_link)
}

/// The card of an item: what it is, what it costs at base, what it weighs
/// and how much room it takes.
pub fn item_detail(item: &Item) -> (embed: Embed)
    ensures
        is_item_detail(embed, *item),
{
    let mut out: Vec<char> = Vec::new();
    if let Some(text) = &item.description {
        append_str(&mut out, text.as_str());
        append_str(&mut out, "\n");
    }
    append_str(&mut out, "\n**단축명**: ");
    append_str(&mut out, item.short_name.as_str());
    if item.categories.len() > 0 {
        append_str(&mut out, "\n**카테고리**: ");
        let ghost start = out@;
        let mut i: usize = 0;
        assert(start + category_names(item.categories@, 0) =~= start);
        while i < item.categories.len()
            invariant
                i <= item.categories.len(),
                out@ == start + category_names(item.categories@, i as nat),
            decreases item.categories.len() - i,
        {
            if i > 0 {
                append_str(&mut out, ", ");
            }
            append_str(&mut out, item.categories[i].name.as_str());
            i = i + 1;
            assert(out@ =~= start + category_names(item.categories@, i as nat));
        }
    }
    append_str(&mut out, "\n**기본가**: ");
    push_number(&mut out, item.base_price as i128);
    append_str(&mut out, " RUB");
    append_str(&mut out, "\n**무게**: ");
    append_str(&mut out, item.weight.as_str());
    append_str(&mut out, " kg");
    append_str(&mut out, "\n**크기**: ");
    push_signed_decimal(&mut out, item.width as i64);
    append_str(&mut out, "x");
    push_signed_decimal(&mut out, item.height as i64);
    assert(out@ =~= item_detail_text(*item));
    card(item.name.clone(), string_of(&out), None, copy_link(&item.grid_image_link))
}

/// The lines of what the first `count` of `prices` pay: the vendor, the
/// price and the currency.
pub open spec fn vendor_lines(prices: Seq<VendorPrice>, count: nat) -> Seq<char>
    decreases count,
{
    if count == 0 {
        Seq::empty()
    } else {
        vendor_lines(prices, (count - 1) as nat) + "  "@ + prices[count - 1].vendor.name@ + ": "@
            + number_text(prices[count - 1].price as int) + " "@ + prices[count - 1].currency@
            + "\n"@
    }
}

/// What the flea market paid for `item` in the last day: the average with
/// the lowest and the highest price where they are known, or the word that
/// it is not traded.
pub open spec fn flea_text(item: Item) -> Seq<char> {
    if item.avg24h_price is Some && item.avg24h_price->0 > 0 {
        "  평균: "@ + number_text(item.avg24h_price->0 as int) + " RUB\n"@ + (match item.low24h_price {
            Some(low) => "  최저: "@ + number_text(low as int) + " RUB\n"@,
            None => Seq::empty(),
        }) + (match item.high24h_price {
            Some(high) => "  최고: "@ + number_text(high as int) + " RUB\n"@,
            None => Seq::empty(),
        })
    } else {
        "  거래 불가 또는 데이터 없음\n"@
    }
}

/// The text of the card of an item's prices.
pub open spec fn item_price_text(item: Item) -> Seq<char> {
    "**벼룩시장 (24시간)**\n"@ + flea_text(item) + if item.sell_for@.len() > 0 {
        "\n**상인 매입가**\n"@ + vendor_lines(item.sell_for@, item.sell_for@.len())
    } else {
        Seq::empty()
    }
}

/// Whether `embed` is the card of the prices of `item`.
pub open spec fn is_item_price(embed: Embed, item: Item) -> bool {
    &&& reads(embed.title, item.name@ + " - 가격 정보"@)
    &&& reads(embed.description, item_price_text(item))
    &&& embed.color == Some(TARKOV_COLOR)
    &&& embed.fields@.len() == 0
    &&& embed.footer is None
    &&& same_link(embed.thumbnail, item.icon_link)
}

/// The card of an item's prices: the flea market of the last day, and what
/// each vendor pays.
pub fn item_price(item: &Item) -> (embed: Embed)
    ensures
        is_item_price(embed, *item),
{
    let mut out: Vec<char> = Vec::new();
    append_str(&mut out, "**벼룩시장 (24시간)**\n");
    let ghost head = out@;
    let traded = match item.avg24h_price {
        Some(avg) => avg > 0,
        None => false,
    };
    if traded {
        if let Some(avg) = item.avg24h_price {
            append_str(&mut out, "  평균: ");
            push_number(&mut out, avg as i128);
            append_str(&mut out, " RUB\n");
        }
        if let Some(low) = item.low24h_price {
            append_str(&mut out, "  최저: ");
            push_number(&mut out, low as i128);
            append_str(&mut out, " RUB\n");
        }
        if let Some(high) = item.high24h_price {
            append_str(&mut out, "  최고: ");
            push_number(&mut out, high as i128);
            append_str(&mut out, " RUB\n");
        }
    } else {
        append_str(&mut out, "  거래 불가 또는 데이터 없음\n");
    }
    assert(out@ =~= head + flea_text(*item));
    if item.sell_for.len() > 0 {
        append_str(&mut out, "\n**상인 매입가**\n");
        let ghost start = out@;
        let mut i: usize = 0;
        assert(start + vendor_lines(item.sell_for@, 0) =~= start);
        while i < item.sell_for.len()
            invariant
                i <= item.sell_for.len(),
                out@ == start + vendor_lines(item.sell_for@, i as nat),
            decreases item.sell_for.len() - i,
        {
            let price = &item.sell_for[i];
            append_str(&mut out, "  ");
            append_str(&mut out, price.vendor.name.as_str());
            append_str(&mut out, ": ");
            push_number(&mut out, price.price as i128);
            append_str(&mut out, " ");
            append_str(&mut out, price.currency.as_str());
            append_str(&mut out, "\n");
            i = i + 1;
            assert(out@ =~= start + vendor_lines(item.sell_for@, i as nat));
        }
    }
    assert(out@ =~= item_price_text(*item));
    let mut title = chars_of(item.name.as_str());
    append_str(&mut title, " - 가격 정보");
    assert(title@ =~= item.name@ + " - 가격 정보"@);
    card(string_of(&title), string_of(&out), None, copy_link(&item.icon_link))
}

/// Most bytes of a short name that a row of the table shows in full.
pub const NAME_LIMIT: usize = 18;

/// The name of a kind of ammunition as a row of the table shows it: a
/// short name of more than 18 bytes is cut between two characters at or
/// before byte 15 and gets three dots.
pub open spec fn row_name(short_name: Seq<char>) -> Seq<char> {
    if encode_utf8(short_name).len() > NAME_LIMIT {
        head_within(short_name, NAME_LIMIT - 3) + "..."@
    } else {
        short_name
    }
}

/// The row of the table for `ammo`: its name, its penetration, its damage
/// and its damage to armour, in columns.
pub open spec fn ammo_row(ammo: Ammo) -> Seq<char> {
    padded_right(row_name(ammo.item.short_name@), 20) + " "@ + padded_left(
        signed_decimal(ammo.penetration_power as int),
        4,
    ) + " "@ + padded_left(signed_decimal(ammo.damage as int), 6) + " "@ + padded_left(
        signed_decimal(ammo.armor_damage as int),
        4,
    ) + "\n"@
}

/// The rows of the table for the kinds of ammunition from place `start` up
/// to place `end`.
pub open spec fn ammo_rows(list: Seq<Ammo>, start: nat, end: nat) -> Seq<char>
    decreases end,
{
    if end <= start {
        Seq::empty()
    } else {
        ammo_rows(list, start, (end - 1) as nat) + ammo_row(list[end - 1])
    }
}

/// The head of the table of ammunition.
pub open spec fn ammo_head() -> Seq<char> {
    "```\n"@ + padded_right("이름"@, 20) + " "@ + padded_left("관통"@, 4) + " "@ + padded_left(
        "데미지"@,
        4,
    ) + " "@ + padded_left("방피"@, 4) + "\n"@ + repeated('-', 36) + "\n"@
}

/// The page of the table that a request for `page`, counted from 0, shows,
/// as the page, the number of pages, and the places from which and up to
/// which rows are on it.
pub open spec fn table_page_of(len: nat, page: nat) -> (nat, nat, nat, nat) {
    let total = pages_for(len);
    let shown = if page < total {
        page
    } else {
        (total - 1) as nat
    };
    let start = (shown * ITEMS_PER_PAGE) as nat;
    let end = if start + ITEMS_PER_PAGE <= len {
        (start + ITEMS_PER_PAGE) as nat
    } else {
        len
    };
    (shown, total, start, end)
}

/// The heading of a table: its name, the page counted from 1, and the
/// number of pages.
pub open spec fn paged_title(name: Seq<char>, page: nat, total_pages: nat) -> Seq<char> {
    name + " ("@ + decimal(page + 1) + "/"@ + decimal(total_pages) + ")"@
}

/// Writes the heading of a table.
pub fn make_paged_title(name: &Vec<char>, page: usize, total_pages: usize) -> (title: String)
    requires
        page < usize::MAX,
    ensures
        title@ == paged_title(name@, page as nat, total_pages as nat),
{
    let mut out: Vec<char> = Vec::new();
    append_chars(&mut out, name);
    append_str(&mut out, " (");
    push_decimal(&mut out, (page + 1) as u64);
    append_str(&mut out, "/");
    push_decimal(&mut out, total_pages as u64);
    append_str(&mut out, ")");
    assert(out@ =~= paged_title(name@, page as nat, total_pages as nat));
    string_of(&out)
}

/// Appends a number in a column of `width` characters, at the right.
pub fn push_column(out: &mut Vec<char>, n: i64, width: usize)
    ensures
        final(out)@ == old(out)@ + padded_left(signed_decimal(n as int), width as nat),
{
    let mut digits: Vec<char> = Vec::new();
    push_signed_decimal(&mut digits, n);
    assert(digits@ =~= signed_decimal(n as int));
    push_padded_left(out, &digits, width);
}

/// Appends the head of the table of ammunition.
pub fn push_ammo_head(out: &mut Vec<char>)
    ensures
        final(out)@ == old(out)@ + ammo_head(),
{
    let mut head: Vec<char> = Vec::new();
    append_str(&mut head, "```\n");
    push_padded_right(&mut head, &chars_of("이름"), 20);
    append_str(&mut head, " ");
    push_padded_left(&mut head, &chars_of("관통"), 4);
    append_str(&mut head, " ");
    push_padded_left(&mut head, &chars_of("데미지"), 4);
    append_str(&mut head, " ");
    push_padded_left(&mut head, &chars_of("방피"), 4);
    append_str(&mut head, "\n");
    push_repeated(&mut head, '-', 36);
    append_str(&mut head, "\n");
    assert(head@ =~= ammo_head());
    append_chars(out, &head);
}

/// Appends the row of the table for `ammo`.
pub fn push_ammo_row(out: &mut Vec<char>, ammo: &Ammo)
    ensures
        final(out)@ == old(out)@ + ammo_row(*ammo),
{
    let name = if byte_len(ammo.item.short_name.as_str()) > NAME_LIMIT {
        let mut cut = head_of(ammo.item.short_name.as_str(), NAME_LIMIT - 3);
        append_str(&mut cut, "...");
        cut
    } else {
        chars_of(ammo.item.short_name.as_str())
    };
    assert(name@ =~= row_name(ammo.item.short_name@));
    let mut row: Vec<char> = Vec::new();
    push_padded_right(&mut row, &name, 20);
    append_str(&mut row, " ");
    push_column(&mut row, ammo.penetration_power as i64, 4);
    append_str(&mut row, " ");
    push_column(&mut row, ammo.damage as i64, 6);
    append_str(&mut row, " ");
    push_column(&mut row, ammo.armor_damage as i64, 4);
    append_str(&mut row, "\n");
    assert(row@ =~= ammo_row(*ammo));
    append_chars(out, &row);
}

/// The table of ammunition, ten kinds to a page: name, penetration,
/// damage and damage to armour. `sort` names the order and is shown at the
/// foot with the number of kinds; `page` is counted from 0.
pub fn ammo_table(ammo_list: &Vec<Ammo>, sort: &str, page: usize) -> (embed: Embed)
    ensures
        reads(
            embed.title,
            paged_title(
                "탄약 비교"@,
                table_page_of(ammo_list@.len(), page as nat).0,
                table_page_of(ammo_list@.len(), page as nat).1,
            ),
        ),
        reads(
            embed.description,
            ammo_head() + ammo_rows(
                ammo_list@,
                table_page_of(ammo_list@.len(), page as nat).2,
                table_page_of(ammo_list@.len(), page as nat).3,
            ) + "```"@,
        ),
        embed.color == Some(TARKOV_COLOR),
        embed.fields@.len() == 0,
        reads(embed.footer, "정렬: "@ + sort@ + " | 총 "@ + decimal(ammo_list@.len()) + "발"@),
        embed.thumbnail is None,
{
    let shown = table_page(ammo_list.len(), page);
    let mut out: Vec<char> = Vec::new();
    push_ammo_head(&mut out);
    assert(out@ =~= ammo_head());
    let mut i: usize = shown.start;
    assert(ammo_head() + ammo_rows(ammo_list@, shown.start as nat, shown.start as nat)
        =~= ammo_head());
    while i < shown.end
        invariant
            shown.start <= i <= shown.end <= ammo_list.len(),
            out@ == ammo_head() + ammo_rows(ammo_list@, shown.start as nat, i as nat),
        decreases shown.end - i,
    {
        push_ammo_row(&mut out, &ammo_list[i]);
        i = i + 1;
        assert(out@ =~= ammo_head() + ammo_rows(ammo_list@, shown.start as nat, i as nat));
    }
    append_str(&mut out, "```");
    let mut footer: Vec<char> = Vec::new();
    append_str(&mut footer, "정렬: ");
    append_str(&mut footer, sort);
    append_str(&mut footer, " | 총 ");
    push_decimal(&mut footer, ammo_list.len() as u64);
    append_str(&mut footer, "발");
    assert(footer@ =~= "정렬: "@ + sort@ + " | 총 "@ + decimal(ammo_list@.len()) + "발"@);
    card(
        make_paged_title(&chars_of("탄약 비교"), shown.page, shown.total_pages),
        string_of(&out),
        Some(string_of(&footer)),
        None,
    )
}

/// The row of the table for one level of a trader: the level, the player
/// level and the reputation it asks for, and the trade it asks for.
pub open spec fn level_row(level: TraderLevel) -> Seq<char> {
    padded_right(signed_decimal(level.level as int), 4) + " "@ + padded_left(
        signed_decimal(level.required_player_level as int),
        6,
    ) + " "@ + padded_left(level.required_reputation@, 6) + " "@ + padded_left(
        number_text(level.required_commerce as int),
        12,
    ) + "\n"@
}

/// The rows of the table for the first `count` of `levels`.
pub open spec fn level_rows(levels: Seq<TraderLevel>, count: nat) -> Seq<char>
    decreases count,
{
    if count == 0 {
        Seq::empty()
    } else {
        level_rows(levels, (count - 1) as nat) + level_row(levels[count - 1])
    }
}

/// The head of the table of a trader's levels.
pub open spec fn level_head() -> Seq<char> {
    "\n**레벨 요구사항**\n```\n"@ + padded_right("Lv"@, 4) + " "@ + padded_left("플레이어"@, 6)
        + " "@ + padded_left("평판"@, 6) + " "@ + padded_left("거래액"@, 12) + "\n"@ + repeated(
        '-',
        32,
    ) + "\n"@
}

/// What the card of a trader says before the table: its description, its
/// currency and when its stock is renewed.
pub open spec fn trader_intro(trader: Trader) -> Seq<char> {
    (match trader.description {
        Some(text) => text@ + "\n\n"@,
        None => Seq::empty(),
    }) + "**거래 화폐**: "@ + trader.currency.name@ + "\n"@ + (match trader.reset_time {
        Some(reset) => "**리셋 시간**: "@ + reset@ + "\n"@,
        None => Seq::empty(),
    })
}

/// The text of the card of a trader.
pub open spec fn trader_text(trader: Trader) -> Seq<char> {
    trader_intro(trader) + if trader.levels@.len() > 0 {
        level_head() + level_rows(trader.levels@, trader.levels@.len()) + "```"@
    } else {
        Seq::empty()
    }
}

/// Appends what the card of a trader says before the table.
pub fn push_trader_intro(out: &mut Vec<char>, trader: &Trader)
    ensures
        final(out)@ == old(out)@ + trader_intro(*trader),
{
    let mut intro: Vec<char> = Vec::new();
    if let Some(text) = &trader.description {
        append_str(&mut intro, text.as_str());
        append_str(&mut intro, "\n\n");
    }
    append_str(&mut intro, "**거래 화폐**: ");
    append_str(&mut intro, trader.currency.name.as_str());
    append_str(&mut intro, "\n");
    if let Some(reset) = &trader.reset_time {
        append_str(&mut intro, "**리셋 시간**: ");
        append_str(&mut intro, reset.as_str());
        append_str(&mut intro, "\n");
    }
    assert(intro@ =~= trader_intro(*trader));
    append_chars(out, &intro);
}

/// Appends the head of the table of a trader's levels.
pub fn push_level_head(out: &mut Vec<char>)
    ensures
        final(out)@ == old(out)@ + level_head(),
{
    let mut head: Vec<char> = Vec::new();
    append_str(&mut head, "\n**레벨 요구사항**\n```\n");
    push_padded_right(&mut head, &chars_of("Lv"), 4);
    append_str(&mut head, " ");
    push_padded_left(&mut head, &chars_of("플레이어"), 6);
    append_str(&mut head, " ");
    push_padded_left(&mut head, &chars_of("평판"), 6);
    append_str(&mut head, " ");
    push_padded_left(&mut head, &chars_of("거래액"), 12);
    append_str(&mut head, "\n");
    push_repeated(&mut head, '-', 32);
    append_str(&mut head, "\n");
    assert(head@ =~= level_head());
    append_chars(out, &head);
}

/// Appends the row of the table for one level of a trader.
pub fn push_level_row(out: &mut Vec<char>, level: &TraderLevel)
    ensures
        final(out)@ == old(out)@ + level_row(*level),
{
    let mut row: Vec<char> = Vec::new();
    let mut number: Vec<char> = Vec::new();
    push_signed_decimal(&mut number, level.level as i64);
    assert(number@ =~= signed_decimal(level.level as int));
    push_padded_right(&mut row, &number, 4);
    append_str(&mut row, " ");
    push_column(&mut row, level.required_player_level as i64, 6);
    append_str(&mut row, " ");
    push_padded_left(&mut row, &chars_of(level.required_reputation.as_str()), 6);
    append_str(&mut row, " ");
    let mut trade: Vec<char> = Vec::new();
    push_number(&mut trade, level.required_commerce as i128);
    assert(trade@ =~= number_text(level.required_commerce as int));
    push_padded_left(&mut row, &trade, 12);
    append_str(&mut row, "\n");
    assert(row@ =~= level_row(*level));
    append_chars(out, &row);
}

/// The card of a trader: its currency, when its stock is renewed, and the
/// table of what its levels ask for.
pub fn trader_info(trader: &Trader) -> (embed: Embed)
    ensures
        reads(embed.title, trader.name@),
        reads(embed.description, trader_text(*trader)),
        embed.color == Some(TARKOV_COLOR),
        embed.fields@.len() == 0,
        embed.footer is None,
        same_link(embed.thumbnail, trader.image_link),
{
    let mut out: Vec<char> = Vec::new();
    push_trader_intro(&mut out, trader);
    assert(out@ =~= trader_intro(*trader));
    if trader.levels.len() > 0 {
        push_level_head(&mut out);
        let ghost start = out@;
        let mut i: usize = 0;
        assert(start + level_rows(trader.levels@, 0) =~= start);
        while i < trader.levels.len()
            invariant
                i <= trader.levels.len(),
                out@ == start + level_rows(trader.levels@, i as nat),
            decreases trader.levels.len() - i,
        {
            push_level_row(&mut out, &trader.levels[i]);
            i = i + 1;
            assert(out@ =~= start + level_rows(trader.levels@, i as nat));
        }
        append_str(&mut out, "```");
        assert(out@ =~= trader_intro(*trader) + (level_head() + level_rows(
            trader.levels@,
            trader.levels@.len(),
        ) + "```"@));
    } else {
        assert(out@ =~= trader_intro(*trader) + Seq::<char>::empty());
    }
    card(trader.name.clone(), string_of(&out), None, copy_link(&trader.image_link))
}

/// A line of a list: a dash, the text, and the end of the line.
pub open spec fn bullet(text: Seq<char>) -> Seq<char> {
    "- "@ + text + "\n"@
}

/// A line of a list of things with their counts.
pub open spec fn counted_bullet(name: Seq<char>, count: int) -> Seq<char> {
    "- "@ + name + " x"@ + signed_decimal(count) + "\n"@
}

/// Appends a line of a list.
pub fn push_bullet(out: &mut Vec<char>, text: &str)
    ensures
        final(out)@ == old(out)@ + bullet(text@),
{
    let mut line: Vec<char> = Vec::new();
    append_str(&mut line, "- ");
    append_str(&mut line, text);
    append_str(&mut line, "\n");
    assert(line@ =~= bullet(text@));
    append_chars(out, &line);
}

/// Appends a line of a list of things with their counts.
pub fn push_counted_bullet(out: &mut Vec<char>, name: &str, count: i32)
    ensures
        final(out)@ == old(out)@ + counted_bullet(name@, count as int),
{
    let mut line: Vec<char> = Vec::new();
    append_str(&mut line, "- ");
    append_str(&mut line, name);
    append_str(&mut line, " x");
    push_signed_decimal(&mut line, count as i64);
    append_str(&mut line, "\n");
    assert(line@ =~= counted_bullet(name@, count as int));
    append_chars(out, &line);
}

/// The lines of the first `count` of `names`.
pub open spec fn name_bullets(names: Seq<String>, count: nat) -> Seq<char>
    decreases count,
{
    if count == 0 {
        Seq::empty()
    } else {
        name_bullets(names, (count - 1) as nat) + bullet(names[count - 1]@)
    }
}

/// A list of names under a heading; nothing where there are no names.
pub open spec fn name_section(heading: Seq<char>, names: Seq<String>) -> Seq<char> {
    if names.len() > 0 {
        heading + name_bullets(names, names.len())
    } else {
        Seq::empty()
    }
}

/// Appends a list of names under a heading.
pub fn push_name_section(out: &mut Vec<char>, heading: &str, names: &Vec<String>)
    ensures
        final(out)@ == old(out)@ + name_section(heading@, names@),
{
    if names.len() > 0 {
        append_str(out, heading);
        let ghost start = out@;
        let mut i: usize = 0;
        assert(start + name_bullets(names@, 0) =~= start);
        while i < names.len()
            invariant
                i <= names.len(),
                out@ == start + name_bullets(names@, i as nat),
            decreases names.len() - i,
        {
            push_bullet(out, names[i].as_str());
            i = i + 1;
            assert(out@ =~= start + name_bullets(names@, i as nat));
        }
        assert(out@ =~= old(out)@ + name_section(heading@, names@));
    } else {
        assert(out@ =~= old(out)@ + name_section(heading@, names@));
    }
}

/// The line of an objective: marked where it is optional.
pub open spec fn objective_line(objective: TaskObjective) -> Seq<char> {
    bullet(
        (if objective.optional {
            "(선택) "@
        } else {
            Seq::empty()
        }) + objective.description@,
    )
}

/// The lines of the first `count` of `objectives`.
pub open spec fn objective_lines(objectives: Seq<TaskObjective>, count: nat) -> Seq<char>
    decreases count,
{
    if count == 0 {
        Seq::empty()
    } else {
        objective_lines(objectives, (count - 1) as nat) + objective_line(objectives[count - 1])
    }
}

/// The lines of the first `count` of the rewards `items`.
pub open spec fn reward_lines(items: Seq<TaskRewardItem>, count: nat) -> Seq<char>
    decreases count,
{
    if count == 0 {
        Seq::empty()
    } else {
        reward_lines(items, (count - 1) as nat) + counted_bullet(
            items[count - 1].item.name@,
            items[count - 1].count as int,
        )
    }
}

/// What the card of a quest says first: who gives it, where it takes
/// place, and from which level on.
pub open spec fn quest_intro(task: Task) -> Seq<char> {
    "**상인**: "@ + task.trader.name@ + "\n"@ + (match task.map {
        Some(map) => "**맵**: "@ + map.name@ + "\n"@,
        None => Seq::empty(),
    }) + (match task.min_player_level {
        Some(level) => "**최소 레벨**: "@ + signed_decimal(level as int) + "\n"@,
        None => Seq::empty(),
    })
}

/// The objectives of a quest under their heading.
pub open spec fn quest_objectives(task: Task) -> Seq<char> {
    if task.objectives@.len() > 0 {
        "\n**목표**\n"@ + objective_lines(task.objectives@, task.objectives@.len())
    } else {
        Seq::empty()
    }
}

/// The rewards of a quest under their heading.
pub open spec fn quest_rewards(task: Task) -> Seq<char> {
    if task.finish_rewards is Some && task.finish_rewards->0.items@.len() > 0 {
        "\n**완료 보상**\n"@ + reward_lines(
            task.finish_rewards->0.items@,
            task.finish_rewards->0.items@.len(),
        )
    } else {
        Seq::empty()
    }
}

/// The text of the card of a quest.
pub open spec fn quest_text(task: Task, prev_quests: Seq<String>, next_quests: Seq<String>) -> Seq<
    char,
> {
    quest_intro(task) + quest_objectives(task) + quest_rewards(task) + name_section(
        "\n**이전 퀘스트**\n"@,
        prev_quests,
    ) + name_section("\n**다음 퀘스트**\n"@, next_quests)
}

/// Appends what the card of a quest says first.
pub fn push_quest_intro(out: &mut Vec<char>, task: &Task)
    ensures
        final(out)@ == old(out)@ + quest_intro(*task),
{
    let mut intro: Vec<char> = Vec::new();
    append_str(&mut intro, "**상인**: ");
    append_str(&mut intro, task.trader.name.as_str());
    append_str(&mut intro, "\n");
    if let Some(map) = &task.map {
        append_str(&mut intro, "**맵**: ");
        append_str(&mut intro, map.name.as_str());
        append_str(&mut intro, "\n");
    }
    if let Some(level) = task.min_player_level {
        append_str(&mut intro, "**최소 레벨**: ");
        push_signed_decimal(&mut intro, level as i64);
        append_str(&mut intro, "\n");
    }
    assert(intro@ =~= quest_intro(*task));
    append_chars(out, &intro);
}

/// Appends the objectives of a quest under their heading.
pub fn push_quest_objectives(out: &mut Vec<char>, task: &Task)
    ensures
        final(out)@ == old(out)@ + quest_objectives(*task),
{
    if task.objectives.len() > 0 {
        append_str(out, "\n**목표**\n");
        let ghost start = out@;
        let mut i: usize = 0;
        assert(start + objective_lines(task.objectives@, 0) =~= start);
        while i < task.objectives.len()
            invariant
                i <= task.objectives.len(),
                out@ == start + objective_lines(task.objectives@, i as nat),
            decreases task.objectives.len() - i,
        {
            let objective = &task.objectives[i];
            let mut text: Vec<char> = Vec::new();
            if objective.optional {
                append_str(&mut text, "(선택) ");
            }
            append_str(&mut text, objective.description.as_str());
            let line = string_of(&text);
            push_bullet(out, line.as_str());
            assert(bullet(line@) =~= objective_line(*objective));
            i = i + 1;
            assert(out@ =~= start + objective_lines(task.objectives@, i as nat));
        }
        assert(out@ =~= old(out)@ + quest_objectives(*task));
    } else {
        assert(out@ =~= old(out)@ + quest_objectives(*task));
    }
}

/// Appends the rewards of a quest under their heading.
pub fn push_quest_rewards(out: &mut Vec<char>, task: &Task)
    ensures
        final(out)@ == old(out)@ + quest_rewards(*task),
{
    if let Some(rewards) = &task.finish_rewards {
        if rewards.items.len() > 0 {
            append_str(out, "\n**완료 보상**\n");
            let ghost start = out@;
            let mut i: usize = 0;
            assert(start + reward_lines(rewards.items@, 0) =~= start);
            while i < rewards.items.len()
                invariant
                    i <= rewards.items.len(),
                    out@ == start + reward_lines(rewards.items@, i as nat),
                decreases rewards.items.len() - i,
            {
                push_counted_bullet(out, rewards.items[i].item.name.as_str(), rewards.items[i].count);
                i = i + 1;
                assert(out@ =~= start + reward_lines(rewards.items@, i as nat));
            }
            assert(out@ =~= old(out)@ + quest_rewards(*task));
            return ;
        }
    }
    assert(out@ =~= old(out)@ + quest_rewards(*task));
}

/// The card of a quest: who gives it and where, its objectives and
/// rewards, and the quests before and after it.
pub fn quest_info(task: &Task, prev_quests: &Vec<String>, next_quests: &Vec<String>) -> (embed:
    Embed)
    ensures
        reads(embed.title, task.name@),
        reads(embed.description, quest_text(*task, prev_quests@, next_quests@)),
        embed.color == Some(TARKOV_COLOR),
        embed.fields@.len() == 0,
        embed.footer is None,
        embed.thumbnail is None,
{
    let mut out: Vec<char> = Vec::new();
    push_quest_intro(&mut out, task);
    push_quest_objectives(&mut out, task);
    push_quest_rewards(&mut out, task);
    push_name_section(&mut out, "\n**이전 퀘스트**\n", prev_quests);
    push_name_section(&mut out, "\n**다음 퀘스트**\n", next_quests);
    assert(out@ =~= quest_text(*task, prev_quests@, next_quests@));
    card(task.name.clone(), string_of(&out), None, None)
}

/// The line of a quest that needs an item: its name and who gives it.
pub open spec fn quest_item_line(quest: (String, String)) -> Seq<char> {
    "- **"@ + quest.0@ + "** ("@ + quest.1@ + ")\n"@
}

/// The lines of the quests from place `start` up to place `end`.
pub open spec fn quest_item_lines(quests: Seq<(String, String)>, start: nat, end: nat) -> Seq<char>
    decreases end,
{
    if end <= start {
        Seq::empty()
    } else {
        quest_item_lines(quests, start, (end - 1) as nat) + quest_item_line(quests[end - 1])
    }
}

/// The text of the list of quests that need an item, on the page from
/// `start` to `end`.
pub open spec fn quest_item_text(quests: Seq<(String, String)>, start: nat, end: nat) -> Seq<char> {
    if quests.len() == 0 {
        "해당 아이템이 필요한 퀘스트가 없습니다."@
    } else {
        quest_item_lines(quests, start, end)
    }
}

/// The card of the quests that need an item, ten to a page. Each quest is
/// given by its name and the name of its trader; `page` is counted from 0.
pub fn questitem_list(quests: &Vec<(String, String)>, item_name: &str, page: usize) -> (embed:
    Embed)
    ensures
        reads(
            embed.title,
            paged_title(
                "\""@ + item_name@ + "\" 필요 퀘스트"@,
                table_page_of(quests@.len(), page as nat).0,
                table_page_of(quests@.len(), page as nat).1,
            ),
        ),
        reads(
            embed.description,
            quest_item_text(
                quests@,
                table_page_of(quests@.len(), page as nat).2,
                table_page_of(quests@.len(), page as nat).3,
            ),
        ),
        embed.color == Some(TARKOV_COLOR),
        embed.fields@.len() == 0,
        reads(embed.footer, "총 "@ + decimal(quests@.len()) + "개 퀘스트"@),
        embed.thumbnail is None,
{
    let shown = table_page(quests.len(), page);
    let mut out: Vec<char> = Vec::new();
    if quests.len() == 0 {
        append_str(&mut out, "해당 아이템이 필요한 퀘스트가 없습니다.");
    } else {
        let mut i: usize = shown.start;
        assert(quest_item_lines(quests@, shown.start as nat, shown.start as nat) =~= out@);
        while i < shown.end
            invariant
                shown.start <= i <= shown.end <= quests.len(),
                out@ == quest_item_lines(quests@, shown.start as nat, i as nat),
            decreases shown.end - i,
        {
            let mut line: Vec<char> = Vec::new();
            append_str(&mut line, "- **");
            append_str(&mut line, quests[i].0.as_str());
            append_str(&mut line, "** (");
            append_str(&mut line, quests[i].1.as_str());
            append_str(&mut line, ")\n");
            assert(line@ =~= quest_item_line(quests@[i as int]));
            append_chars(&mut out, &line);
            i = i + 1;
        }
    }
    let mut name: Vec<char> = Vec::new();
    append_str(&mut name, "\"");
    append_str(&mut name, item_name);
    append_str(&mut name, "\" 필요 퀘스트");
    assert(name@ =~= "\""@ + item_name@ + "\" 필요 퀘스트"@);
    let mut footer: Vec<char> = Vec::new();
    append_str(&mut footer, "총 ");
    push_decimal(&mut footer, quests.len() as u64);
    append_str(&mut footer, "개 퀘스트");
    assert(footer@ =~= "총 "@ + decimal(quests@.len()) + "개 퀘스트"@);
    card(
        make_paged_title(&name, shown.page, shown.total_pages),
        string_of(&out),
        Some(string_of(&footer)),
        None,
    )
}

/// What follows the name of an extraction point: the faction that may use
/// it, in brackets; nothing where none is given.
pub open spec fn faction_label(faction: Option<String>) -> Seq<char> {
    match faction {
        Some(name) => if name@ == "pmc"@ {
            " (PMC)"@
        } else if name@ == "scav"@ {
            " (Scav)"@
        } else if name@ == "shared"@ {
            " (공용)"@
        } else {
            " ("@ + name@ + ")"@
        },
        None => Seq::empty(),
    }
}

/// The line of an extraction point.
pub open spec fn extract_line(extract: MapExtract) -> Seq<char> {
    bullet(extract.name@ + faction_label(extract.faction))
}

/// The lines of the first `count` of `extracts`.
pub open spec fn extract_lines(extracts: Seq<MapExtract>, count: nat) -> Seq<char>
    decreases count,
{
    if count == 0 {
        Seq::empty()
    } else {
        extract_lines(extracts, (count - 1) as nat) + extract_line(extracts[count - 1])
    }
}

/// The line of a place where a boss appears, with the chance in percent.
pub open spec fn spawn_line(name: Seq<char>, percent: int) -> Seq<char> {
    bullet(name + " (스폰 확률: "@ + signed_decimal(percent) + "%)"@)
}

/// The lines of the first `count` of the bosses of a map.
pub open spec fn map_boss_lines(bosses: Seq<MapBoss>, count: nat) -> Seq<char>
    decreases count,
{
    if count == 0 {
        Seq::empty()
    } else {
        map_boss_lines(bosses, (count - 1) as nat) + spawn_line(
            bosses[count - 1].name@,
            bosses[count - 1].spawn_percent as int,
        )
    }
}

/// What the card of a map says first: its description, how long a raid
/// lasts, and how many players it takes.
pub open spec fn map_intro(map: GameMap) -> Seq<char> {
    (match map.description {
        Some(text) => text@ + "\n\n"@,
        None => Seq::empty(),
    }) + (match map.raid_duration {
        Some(minutes) => "**레이드 시간**: "@ + signed_decimal(minutes as int) + "분\n"@,
        None => Seq::empty(),
    }) + (match map.players {
        Some(players) => "**플레이어 수**: "@ + players@ + "\n"@,
        None => Seq::empty(),
    })
}

/// The extraction points of a map under their heading.
pub open spec fn map_extracts(map: GameMap) -> Seq<char> {
    if map.extracts@.len() > 0 {
        "\n**탈출구**\n"@ + extract_lines(map.extracts@, map.extracts@.len())
    } else {
        Seq::empty()
    }
}

/// The bosses of a map under their heading.
pub open spec fn map_bosses(map: GameMap) -> Seq<char> {
    if map.bosses@.len() > 0 {
        "\n**보스**\n"@ + map_boss_lines(map.bosses@, map.bosses@.len())
    } else {
        Seq::empty()
    }
}

/// Appends the line of a place where a boss appears.
pub fn push_spawn_line(out: &mut Vec<char>, name: &str, percent: i32)
    ensures
        final(out)@ == old(out)@ + spawn_line(name@, percent as int),
{
    let mut text: Vec<char> = Vec::new();
    append_str(&mut text, name);
    append_str(&mut text, " (스폰 확률: ");
    push_signed_decimal(&mut text, percent as i64);
    append_str(&mut text, "%)");
    let line = string_of(&text);
    assert(line@ =~= name@ + " (스폰 확률: "@ + signed_decimal(percent as int) + "%)"@);
    push_bullet(out, line.as_str());
}

/// Appends what the card of a map says first.
pub fn push_map_intro(out: &mut Vec<char>, map: &GameMap)
    ensures
        final(out)@ == old(out)@ + map_intro(*map),
{
    let mut intro: Vec<char> = Vec::new();
    if let Some(text) = &map.description {
        append_str(&mut intro, text.as_str());
        append_str(&mut intro, "\n\n");
    }
    if let Some(minutes) = map.raid_duration {
        append_str(&mut intro, "**레이드 시간**: ");
        push_signed_decimal(&mut intro, minutes as i64);
        append_str(&mut intro, "분\n");
    }
    if let Some(players) = &map.players {
        append_str(&mut intro, "**플레이어 수**: ");
        append_str(&mut intro, players.as_str());
        append_str(&mut intro, "\n");
    }
    assert(intro@ =~= map_intro(*map));
    append_chars(out, &intro);
}

/// Appends the line of an extraction point.
pub fn push_extract_line(out: &mut Vec<char>, extract: &MapExtract)
    ensures
        final(out)@ == old(out)@ + extract_line(*extract),
{
    let mut text = chars_of(extract.name.as_str());
    match &extract.faction {
        Some(name) => {
            if str_eq(name.as_str(), "pmc") {
                append_str(&mut text, " (PMC)");
            } else if str_eq(name.as_str(), "scav") {
                append_str(&mut text, " (Scav)");
            } else if str_eq(name.as_str(), "shared") {
                append_str(&mut text, " (공용)");
            } else {
                append_str(&mut text, " (");
                append_str(&mut text, name.as_str());
                append_str(&mut text, ")");
            }
        },
        None => {},
    }
    assert(text@ =~= extract.name@ + faction_label(extract.faction));
    let line = string_of(&text);
    push_bullet(out, line.as_str());
}

/// Appends the extraction points of a map under their heading.
pub fn push_map_extracts(out: &mut Vec<char>, map: &GameMap)
    ensures
        final(out)@ == old(out)@ + map_extracts(*map),
{
    if map.extracts.len() > 0 {
        append_str(out, "\n**탈출구**\n");
        let ghost start = out@;
        let mut i: usize = 0;
        assert(start + extract_lines(map.extracts@, 0) =~= start);
        while i < map.extracts.len()
            invariant
                i <= map.extracts.len(),
                out@ == start + extract_lines(map.extracts@, i as nat),
            decreases map.extracts.len() - i,
        {
            push_extract_line(out, &map.extracts[i]);
            i = i + 1;
            assert(out@ =~= start + extract_lines(map.extracts@, i as nat));
        }
        assert(out@ =~= old(out)@ + map_extracts(*map));
    } else {
        assert(out@ =~= old(out)@ + map_extracts(*map));
    }
}

/// Appends the bosses of a map under their heading.
pub fn push_map_bosses(out: &mut Vec<char>, map: &GameMap)
    ensures
        final(out)@ == old(out)@ + map_bosses(*map),
{
    if map.bosses.len() > 0 {
        append_str(out, "\n**보스**\n");
        let ghost start = out@;
        let mut i: usize = 0;
        assert(start + map_boss_lines(map.bosses@, 0) =~= start);
        while i < map.bosses.len()
            invariant
                i <= map.bosses.len(),
                out@ == start + map_boss_lines(map.bosses@, i as nat),
            decreases map.bosses.len() - i,
        {
            push_spawn_line(out, map.bosses[i].name.as_str(), map.bosses[i].spawn_percent);
            i = i + 1;
            assert(out@ =~= start + map_boss_lines(map.bosses@, i as nat));
        }
        assert(out@ =~= old(out)@ + map_bosses(*map));
    } else {
        assert(out@ =~= old(out)@ + map_bosses(*map));
    }
}

/// The card of a map: how long a raid lasts, how many players it takes,
/// its extraction points and its bosses.
pub fn map_info(map: &GameMap) -> (embed: Embed)
    ensures
        reads(embed.title, map.name@),
        reads(embed.description, map_intro(*map) + map_extracts(*map) + map_bosses(*map)),
        embed.color == Some(TARKOV_COLOR),
        embed.fields@.len() == 0,
        embed.footer is None,
        embed.thumbnail is None,
{
    let mut out: Vec<char> = Vec::new();
    push_map_intro(&mut out, map);
    push_map_extracts(&mut out, map);
    push_map_bosses(&mut out, map);
    assert(out@ =~= map_intro(*map) + map_extracts(*map) + map_bosses(*map));
    card(map.name.clone(), string_of(&out), None, None)
}

/// The health of the first `count` body parts together.
pub open spec fn total_health(parts: Seq<BossHealth>, count: nat) -> int
    decreases count,
{
    if count == 0 {
        0
    } else {
        total_health(parts, (count - 1) as nat) + parts[count - 1].max
    }
}

/// The lines of the health of the first `count` body parts, numbered from
/// 1.
pub open spec fn part_lines(parts: Seq<BossHealth>, count: nat) -> Seq<char>
    decreases count,
{
    if count == 0 {
        Seq::empty()
    } else {
        part_lines(parts, (count - 1) as nat) + "  부위 "@ + decimal(count) + ": "@
            + signed_decimal(parts[count - 1].max as int) + " HP\n"@
    }
}

/// What the card of a boss says of its health: the total, and each body
/// part where there are several; nothing where the health is not known.
pub open spec fn health_text(health: Option<Vec<BossHealth>>) -> Seq<char> {
    match health {
        Some(parts) => "**총 체력**: "@ + signed_decimal(total_health(parts@, parts@.len()))
            + " HP\n"@ + if parts@.len() > 1 {
            "**부위별 체력**\n"@ + part_lines(parts@, parts@.len())
        } else {
            Seq::empty()
        },
        None => Seq::empty(),
    }
}

/// A list of names under a heading, or the words for an empty list.
pub open spec fn name_list(heading: Seq<char>, names: Seq<Seq<char>>, none: Seq<char>) -> Seq<
    char,
> {
    if names.len() == 0 {
        none
    } else {
        heading + bullets(names, names.len())
    }
}

/// The lines of the first `count` of `names`.
pub open spec fn bullets(names: Seq<Seq<char>>, count: nat) -> Seq<char>
    decreases count,
{
    if count == 0 {
        Seq::empty()
    } else {
        bullets(names, (count - 1) as nat) + bullet(names[count - 1])
    }
}

/// The lines of the first `count` of the places where a boss appears.
pub open spec fn spawn_lines(spawn_maps: Seq<(String, i32)>, count: nat) -> Seq<char>
    decreases count,
{
    if count == 0 {
        Seq::empty()
    } else {
        spawn_lines(spawn_maps, (count - 1) as nat) + spawn_line(
            spawn_maps[count - 1].0@,
            spawn_maps[count - 1].1 as int,
        )
    }
}

/// The places where a boss appears under their heading, or the words that
/// none is known.
pub open spec fn spawn_text(spawn_maps: Seq<(String, i32)>) -> Seq<char> {
    if spawn_maps.len() == 0 {
        "스폰 위치 정보가 없습니다."@
    } else {
        "**스폰 위치**\n"@ + spawn_lines(spawn_maps, spawn_maps.len())
    }
}

/// The names of what a boss wears.
pub open spec fn equipment_names(boss: Boss) -> Seq<Seq<char>> {
    Seq::new(boss.equipment@.len(), |i: int| boss.equipment@[i].item.name@)
}

/// The names of what a boss drops.
pub open spec fn loot_names(boss: Boss) -> Seq<Seq<char>> {
    Seq::new(boss.items@.len(), |i: int| boss.items@[i].item.name@)
}

/// The text of the tab `tab` of the card of a boss.
pub open spec fn boss_text(boss: Boss, tab: Seq<char>, spawn_maps: Seq<(String, i32)>) -> Seq<
    char,
> {
    if tab == "info"@ {
        health_text(boss.health)
    } else if tab == "equip"@ {
        name_list("**장비 목록**\n"@, equipment_names(boss), "장비 정보가 없습니다."@)
    } else if tab == "drops"@ {
        name_list("**드롭 아이템**\n"@, loot_names(boss), "드롭 아이템 정보가 없습니다."@)
    } else if tab == "spawns"@ {
        spawn_text(spawn_maps)
    } else {
        "알 수 없는 탭입니다."@
    }
}

/// Writes what the card of a boss says of its health.
pub fn make_health_text(health: &Option<Vec<BossHealth>>) -> (text: Vec<char>)
    ensures
        text@ == health_text(*health),
{
    let mut out: Vec<char> = Vec::new();
    if let Some(parts) = health {
        let mut total: i128 = 0;
        let mut i: usize = 0;
        while i < parts.len()
            invariant
                i <= parts.len(),
                total == total_health(parts@, i as nat),
                -0x8000_0000 * i <= total <= 0x8000_0000 * i,
            decreases parts.len() - i,
        {
            total = total + parts[i].max as i128;
            i = i + 1;
        }
        append_str(&mut out, "**총 체력**: ");
        push_signed_decimal_wide(&mut out, total);
        append_str(&mut out, " HP\n");
        let ghost head = out@;
        assert(head =~= "**총 체력**: "@ + signed_decimal(total_health(parts@, parts@.len()))
            + " HP\n"@);
        if parts.len() > 1 {
            append_str(&mut out, "**부위별 체력**\n");
            let ghost start = out@;
            let mut k: usize = 0;
            assert(start + part_lines(parts@, 0) =~= start);
            while k < parts.len()
                invariant
                    k <= parts.len(),
                    out@ == start + part_lines(parts@, k as nat),
                decreases parts.len() - k,
            {
                let mut line: Vec<char> = Vec::new();
                append_str(&mut line, "  부위 ");
                push_decimal(&mut line, (k + 1) as u64);
                append_str(&mut line, ": ");
                push_signed_decimal(&mut line, parts[k].max as i64);
                append_str(&mut line, " HP\n");
                append_chars(&mut out, &line);
                k = k + 1;
                assert(out@ =~= start + part_lines(parts@, k as nat));
            }
            assert(out@ =~= health_text(*health));
        } else {
            assert(out@ =~= health_text(*health));
        }
    }
    out
}

/// Writes the names of what a boss wears, as a list.
pub fn make_equipment_text(boss: &Boss) -> (text: Vec<char>)
    ensures
        text@ == name_list("**장비 목록**\n"@, equipment_names(*boss), "장비 정보가 없습니다."@),
{
    let mut out: Vec<char> = Vec::new();
    if boss.equipment.len() == 0 {
        append_str(&mut out, "장비 정보가 없습니다.");
    } else {
        append_str(&mut out, "**장비 목록**\n");
        let ghost start = out@;
        let ghost names = equipment_names(*boss);
        let mut i: usize = 0;
        assert(start + bullets(names, 0) =~= start);
        while i < boss.equipment.len()
            invariant
                i <= boss.equipment.len(),
                names == equipment_names(*boss),
                out@ == start + bullets(names, i as nat),
            decreases boss.equipment.len() - i,
        {
            push_bullet(&mut out, boss.equipment[i].item.name.as_str());
            i = i + 1;
            assert(out@ =~= start + bullets(names, i as nat));
        }
    }
    out
}

/// Writes the names of what a boss drops, as a list.
pub fn make_loot_text(boss: &Boss) -> (text: Vec<char>)
    ensures
        text@ == name_list("**드롭 아이템**\n"@, loot_names(*boss), "드롭 아이템 정보가 없습니다."@),
{
    let mut out: Vec<char> = Vec::new();
    if boss.items.len() == 0 {
        append_str(&mut out, "드롭 아이템 정보가 없습니다.");
    } else {
        append_str(&mut out, "**드롭 아이템**\n");
        let ghost start = out@;
        let ghost names = loot_names(*boss);
        let mut i: usize = 0;
        assert(start + bullets(names, 0) =~= start);
        while i < boss.items.len()
            invariant
                i <= boss.items.len(),
                names == loot_names(*boss),
                out@ == start + bullets(names, i as nat),
            decreases boss.items.len() - i,
        {
            push_bullet(&mut out, boss.items[i].item.name.as_str());
            i = i + 1;
            assert(out@ =~= start + bullets(names, i as nat));
        }
    }
    out
}

/// Writes the places where a boss appears, as a list.
pub fn make_spawn_text(spawn_maps: &Vec<(String, i32)>) -> (text: Vec<char>)
    ensures
        text@ == spawn_text(spawn_maps@),
{
    let mut out: Vec<char> = Vec::new();
    if spawn_maps.len() == 0 {
        append_str(&mut out, "스폰 위치 정보가 없습니다.");
    } else {
        append_str(&mut out, "**스폰 위치**\n");
        let ghost start = out@;
        let mut i: usize = 0;
        assert(start + spawn_lines(spawn_maps@, 0) =~= start);
        while i < spawn_maps.len()
            invariant
                i <= spawn_maps.len(),
                out@ == start + spawn_lines(spawn_maps@, i as nat),
            decreases spawn_maps.len() - i,
        {
            push_spawn_line(&mut out, spawn_maps[i].0.as_str(), spawn_maps[i].1);
            i = i + 1;
            assert(out@ =~= start + spawn_lines(spawn_maps@, i as nat));
        }
    }
    out
}

/// The card of a boss, showing one tab: `info` its health, `equip` what
/// it wears, `drops` what it drops, `spawns` the maps on which it appears,
/// each given by its name and the chance in whole percent. Any other tab
/// shows that it is unknown.
pub fn boss_info(boss: &Boss, tab: &str, spawn_maps: &Vec<(String, i32)>) -> (embed: Embed)
    ensures
        reads(embed.title, boss.name@),
        reads(embed.description, boss_text(*boss, tab@, spawn_maps@)),
        embed.color == Some(TARKOV_COLOR),
        embed.fields@.len() == 0,
        embed.footer is None,
        same_link(embed.thumbnail, boss.image_poster_link),
{
    let text = if str_eq(tab, "info") {
        make_health_text(&boss.health)
    } else if str_eq(tab, "equip") {
        make_equipment_text(boss)
    } else if str_eq(tab, "drops") {
        make_loot_text(boss)
    } else if str_eq(tab, "spawns") {
        make_spawn_text(spawn_maps)
    } else {
        chars_of("알 수 없는 탭입니다.")
    };
    card(boss.name.clone(), string_of(&text), None, copy_link(&boss.image_poster_link))
}

/// The lines of the first `count` of the items that a level needs.
pub open spec fn item_req_lines(items: Seq<HideoutItemReq>, count: nat) -> Seq<char>
    decreases count,
{
    if count == 0 {
        Seq::empty()
    } else {
        item_req_lines(items, (count - 1) as nat) + counted_bullet(
            items[count - 1].item.name@,
            items[count - 1].count as int,
        )
    }
}

/// The line of a station that a level needs, with its level.
pub open spec fn station_req_line(req: StationLevelReq) -> Seq<char> {
    "- "@ + req.station.name@ + " Lv."@ + signed_decimal(req.level as int) + "\n"@
}

/// The lines of the first `count` of the stations that a level needs.
pub open spec fn station_req_lines(reqs: Seq<StationLevelReq>, count: nat) -> Seq<char>
    decreases count,
{
    if count == 0 {
        Seq::empty()
    } else {
        station_req_lines(reqs, (count - 1) as nat) + station_req_line(reqs[count - 1])
    }
}

/// The level of a station that a request for `level_idx`, counted from 0,
/// shows: a level past the last one shows the last one.
pub open spec fn shown_level(total_levels: nat, level_idx: nat) -> nat {
    if total_levels == 0 {
        0
    } else if level_idx < total_levels {
        level_idx
    } else {
        (total_levels - 1) as nat
    }
}

/// What the card of a station says first of a level: which level it is
/// and how long it takes to build.
pub open spec fn level_intro(level: int, construction_time: int) -> Seq<char> {
    "**레벨 "@ + signed_decimal(level) + "**\n\n"@ + "**건설 시간**: "@ + duration_text(
        construction_time,
    ) + "\n"@
}

/// The items that a level needs under their heading.
pub open spec fn level_items(items: Seq<HideoutItemReq>) -> Seq<char> {
    if items.len() > 0 {
        "\n**필요 아이템**\n"@ + item_req_lines(items, items.len())
    } else {
        Seq::empty()
    }
}

/// The stations that a level needs under their heading.
pub open spec fn level_stations(reqs: Seq<StationLevelReq>) -> Seq<char> {
    if reqs.len() > 0 {
        "\n**필요 시설**\n"@ + station_req_lines(reqs, reqs.len())
    } else {
        Seq::empty()
    }
}

/// The text of the card of a station for the level at place `at`.
pub open spec fn hideout_text(station: HideoutStation, at: nat) -> Seq<char> {
    if at < station.levels@.len() {
        let level = station.levels@[at as int];
        level_intro(level.level as int, level.construction_time as int) + level_items(
            level.item_requirements@,
        ) + level_stations(level.station_level_requirements@)
    } else {
        "레벨 정보가 없습니다."@
    }
}

/// Appends the items that a level needs under their heading.
pub fn push_level_items(out: &mut Vec<char>, items: &Vec<HideoutItemReq>)
    ensures
        final(out)@ == old(out)@ + level_items(items@),
{
    if items.len() > 0 {
        append_str(out, "\n**필요 아이템**\n");
        let ghost start = out@;
        let mut i: usize = 0;
        assert(start + item_req_lines(items@, 0) =~= start);
        while i < items.len()
            invariant
                i <= items.len(),
                out@ == start + item_req_lines(items@, i as nat),
            decreases items.len() - i,
        {
            push_counted_bullet(out, items[i].item.name.as_str(), items[i].count);
            i = i + 1;
            assert(out@ =~= start + item_req_lines(items@, i as nat));
        }
        assert(out@ =~= old(out)@ + level_items(items@));
    } else {
        assert(out@ =~= old(out)@ + level_items(items@));
    }
}

/// Appends the stations that a level needs under their heading.
pub fn push_level_stations(out: &mut Vec<char>, reqs: &Vec<StationLevelReq>)
    ensures
        final(out)@ == old(out)@ + level_stations(reqs@),
{
    if reqs.len() > 0 {
        append_str(out, "\n**필요 시설**\n");
        let ghost start = out@;
        let mut i: usize = 0;
        assert(start + station_req_lines(reqs@, 0) =~= start);
        while i < reqs.len()
            invariant
                i <= reqs.len(),
                out@ == start + station_req_lines(reqs@, i as nat),
            decreases reqs.len() - i,
        {
            let mut line: Vec<char> = Vec::new();
            append_str(&mut line, "- ");
            append_str(&mut line, reqs[i].station.name.as_str());
            append_str(&mut line, " Lv.");
            push_signed_decimal(&mut line, reqs[i].level as i64);
            append_str(&mut line, "\n");
            assert(line@ =~= station_req_line(reqs@[i as int]));
            append_chars(out, &line);
            i = i + 1;
            assert(out@ =~= start + station_req_lines(reqs@, i as nat));
        }
        assert(out@ =~= old(out)@ + level_stations(reqs@));
    } else {
        assert(out@ =~= old(out)@ + level_stations(reqs@));
    }
}

/// Appends what the card of a station says first of a level.
pub fn push_level_intro(out: &mut Vec<char>, level: i32, construction_time: i32)
    ensures
        final(out)@ == old(out)@ + level_intro(level as int, construction_time as int),
{
    let mut intro: Vec<char> = Vec::new();
    append_str(&mut intro, "**레벨 ");
    push_signed_decimal(&mut intro, level as i64);
    append_str(&mut intro, "**\n\n");
    append_str(&mut intro, "**건설 시간**: ");
    let time = format_duration(construction_time);
    append_str(&mut intro, time.as_str());
    append_str(&mut intro, "\n");
    assert(intro@ =~= level_intro(level as int, construction_time as int));
    append_chars(out, &intro);
}

/// The card of a station of the hideout, showing one of its levels: how
/// long it takes to build, and the items and stations it needs.
/// `level_idx` is counted from 0; the heading counts levels from 1.
pub fn hideout_info(station: &HideoutStation, level_idx: usize) -> (embed: Embed)
    ensures
        reads(
            embed.title,
            paged_title(
                station.name@,
                shown_level(station.levels@.len(), level_idx as nat),
                if station.levels@.len() == 0 {
                    1
                } else {
                    station.levels@.len()
                },
            ),
        ),
        reads(
            embed.description,
            hideout_text(*station, shown_level(station.levels@.len(), level_idx as nat)),
        ),
        embed.color == Some(TARKOV_COLOR),
        embed.fields@.len() == 0,
        embed.footer is None,
        embed.thumbnail is None,
{
    let total = station.levels.len();
    let at: usize = if total == 0 {
        0
    } else if level_idx < total {
        level_idx
    } else {
        total - 1
    };
    let mut out: Vec<char> = Vec::new();
    if at < total {
        let level = &station.levels[at];
        push_level_intro(&mut out, level.level, level.construction_time);
        push_level_items(&mut out, &level.item_requirements);
        push_level_stations(&mut out, &level.station_level_requirements);
        assert(out@ =~= hideout_text(*station, at as nat));
    } else {
        append_str(&mut out, "레벨 정보가 없습니다.");
    }
    let shown_total = if total == 0 {
        1
    } else {
        total
    };
    card(
        make_paged_title(&chars_of(station.name.as_str()), at, shown_total),
        string_of(&out),
        None,
        None,
    )
}

/// What follows a product of a recipe: its average price, where one is
/// known.
pub open spec fn product_price(item: CraftItem) -> Seq<char> {
    match item.item.avg24h_price {
        Some(price) => " (~"@ + number_text(price as int) + " RUB)"@,
        None => Seq::empty(),
    }
}

/// What a material of a recipe costs: its price times its count, where a
/// price above nothing is known; else nothing.
pub open spec fn material_cost(item: CraftItem) -> int {
    if item.item.avg24h_price is Some && item.item.avg24h_price->0 > 0 {
        item.item.avg24h_price->0 * item.count
    } else {
        0
    }
}

/// What follows a material of a recipe: what it costs, where that is
/// known.
pub open spec fn material_price(item: CraftItem) -> Seq<char> {
    if item.item.avg24h_price is Some && item.item.avg24h_price->0 > 0 {
        " (~"@ + number_text(material_cost(item)) + " RUB)"@
    } else {
        Seq::empty()
    }
}

/// The line of a product of a recipe.
pub open spec fn product_line(item: CraftItem) -> Seq<char> {
    "- "@ + item.item.name@ + " x"@ + signed_decimal(item.count as int) + product_price(item)
        + "\n"@
}

/// The line of a material of a recipe.
pub open spec fn material_line(item: CraftItem) -> Seq<char> {
    "- "@ + item.item.name@ + " x"@ + signed_decimal(item.count as int) + material_price(item)
        + "\n"@
}

/// The lines of the first `count` products.
pub open spec fn product_lines(items: Seq<CraftItem>, count: nat) -> Seq<char>
    decreases count,
{
    if count == 0 {
        Seq::empty()
    } else {
        product_lines(items, (count - 1) as nat) + product_line(items[count - 1])
    }
}

/// The lines of the first `count` materials.
pub open spec fn material_lines(items: Seq<CraftItem>, count: nat) -> Seq<char>
    decreases count,
{
    if count == 0 {
        Seq::empty()
    } else {
        material_lines(items, (count - 1) as nat) + material_line(items[count - 1])
    }
}

/// What the first `count` materials cost together.
pub open spec fn total_cost(items: Seq<CraftItem>, count: nat) -> int
    decreases count,
{
    if count == 0 {
        0
    } else {
        total_cost(items, (count - 1) as nat) + material_cost(items[count - 1])
    }
}

/// What the card of a recipe says first: where it is made and how long it
/// takes.
pub open spec fn craft_intro(craft: Craft) -> Seq<char> {
    "**제작소**: "@ + craft.station.name@ + " Lv."@ + signed_decimal(craft.level as int) + "\n"@
        + "**제작 시간**: "@ + duration_text(craft.duration as int) + "\n"@
}

/// The products of a recipe under their heading.
pub open spec fn craft_products(craft: Craft) -> Seq<char> {
    if craft.reward_items@.len() > 0 {
        "\n**생산품**\n"@ + product_lines(craft.reward_items@, craft.reward_items@.len())
    } else {
        Seq::empty()
    }
}

/// The materials of a recipe under their heading, with what they cost
/// together where that is above nothing.
pub open spec fn craft_materials(craft: Craft) -> Seq<char> {
    if craft.required_items@.len() > 0 {
        "\n**필요 재료**\n"@ + material_lines(craft.required_items@, craft.required_items@.len())
            + if total_cost(craft.required_items@, craft.required_items@.len()) > 0 {
            "\n**총 재료 비용**: ~"@ + number_text(
                total_cost(craft.required_items@, craft.required_items@.len()),
            ) + " RUB"@
        } else {
            Seq::empty()
        }
    } else {
        Seq::empty()
    }
}

/// The heading of the card of a recipe: its first product, or the word
/// for making.
pub open spec fn craft_title(craft: Craft) -> Seq<char> {
    (if craft.reward_items@.len() > 0 {
        craft.reward_items@[0].item.name@
    } else {
        "제작"@
    }) + " 제작법"@
}

/// Appends what the card of a recipe says first.
pub fn push_craft_intro(out: &mut Vec<char>, craft: &Craft)
    ensures
        final(out)@ == old(out)@ + craft_intro(*craft),
{
    let mut intro: Vec<char> = Vec::new();
    append_str(&mut intro, "**제작소**: ");
    append_str(&mut intro, craft.station.name.as_str());
    append_str(&mut intro, " Lv.");
    push_signed_decimal(&mut intro, craft.level as i64);
    append_str(&mut intro, "\n");
    append_str(&mut intro, "**제작 시간**: ");
    let time = format_duration(craft.duration);
    append_str(&mut intro, time.as_str());
    append_str(&mut intro, "\n");
    assert(intro@ =~= craft_intro(*craft));
    append_chars(out, &intro);
}

/// Appends the products of a recipe under their heading.
pub fn push_craft_products(out: &mut Vec<char>, craft: &Craft)
    ensures
        final(out)@ == old(out)@ + craft_products(*craft),
{
    let items = &craft.reward_items;
    if items.len() > 0 {
        append_str(out, "\n**생산품**\n");
        let ghost start = out@;
        let mut i: usize = 0;
        assert(start + product_lines(items@, 0) =~= start);
        while i < items.len()
            invariant
                i <= items.len(),
                out@ == start + product_lines(items@, i as nat),
            decreases items.len() - i,
        {
            let mut line: Vec<char> = Vec::new();
            append_str(&mut line, "- ");
            append_str(&mut line, items[i].item.name.as_str());
            append_str(&mut line, " x");
            push_signed_decimal(&mut line, items[i].count as i64);
            if let Some(price) = items[i].item.avg24h_price {
                append_str(&mut line, " (~");
                push_number(&mut line, price as i128);
                append_str(&mut line, " RUB)");
            }
            append_str(&mut line, "\n");
            assert(line@ =~= product_line(items@[i as int]));
            append_chars(out, &line);
            i = i + 1;
            assert(out@ =~= start + product_lines(items@, i as nat));
        }
        assert(out@ =~= old(out)@ + craft_products(*craft));
    } else {
        assert(out@ =~= old(out)@ + craft_products(*craft));
    }
}

/// Appends the materials of a recipe under their heading, with what they
/// cost together.
pub fn push_craft_materials(out: &mut Vec<char>, craft: &Craft)
    requires
        craft.required_items@.len() <= u32::MAX,
    ensures
        final(out)@ == old(out)@ + craft_materials(*craft),
{
    let items = &craft.required_items;
    if items.len() > 0 {
        append_str(out, "\n**필요 재료**\n");
        let ghost start = out@;
        let mut total: i128 = 0;
        let mut i: usize = 0;
        assert(start + material_lines(items@, 0) =~= start);
        while i < items.len()
            invariant
                i <= items.len() <= u32::MAX,
                out@ == start + material_lines(items@, i as nat),
                total == total_cost(items@, i as nat),
                -0x4000_0000_0000_0000_0000_0000 * i <= total <= 0x4000_0000_0000_0000_0000_0000
                    * i,
            decreases items.len() - i,
        {
            let mut line: Vec<char> = Vec::new();
            append_str(&mut line, "- ");
            append_str(&mut line, items[i].item.name.as_str());
            append_str(&mut line, " x");
            push_signed_decimal(&mut line, items[i].count as i64);
            let priced = match items[i].item.avg24h_price {
                Some(price) => price > 0,
                None => false,
            };
            if priced {
                if let Some(price) = items[i].item.avg24h_price {
                    let count = items[i].count;
                    assert(-0x4000_0000_0000_0000_0000_0000 <= price * count
                        <= 0x4000_0000_0000_0000_0000_0000) by (nonlinear_arith)
                        requires
                            0 < price <= 0x7fff_ffff_ffff_ffff,
                            -0x8000_0000 <= count <= 0x7fff_ffff,
                    ;
                    let cost: i128 = price as i128 * count as i128;
                    total = total + cost;
                    append_str(&mut line, " (~");
                    push_number(&mut line, cost);
                    append_str(&mut line, " RUB)");
                }
            }
            append_str(&mut line, "\n");
            assert(line@ =~= material_line(items@[i as int]));
            append_chars(out, &line);
            i = i + 1;
            assert(out@ =~= start + material_lines(items@, i as nat));
        }
        if total > 0 {
            append_str(out, "\n**총 재료 비용**: ~");
            push_number(out, total);
            append_str(out, " RUB");
        }
        assert(out@ =~= old(out)@ + craft_materials(*craft));
    } else {
        assert(out@ =~= old(out)@ + craft_materials(*craft));
    }
}

/// The card of a recipe: where it is made, how long it takes, what comes
/// out and what goes in, with prices where they are known. A recipe has
/// no more materials than a `u32` counts.
pub fn craft_info(craft: &Craft) -> (embed: Embed)
    requires
        craft.required_items@.len() <= u32::MAX,
    ensures
        reads(embed.title, craft_title(*craft)),
        reads(
            embed.description,
            craft_intro(*craft) + craft_products(*craft) + craft_materials(*craft),
        ),
        embed.color == Some(TARKOV_COLOR),
        embed.fields@.len() == 0,
        embed.footer is None,
        embed.thumbnail is None,
{
    let mut out: Vec<char> = Vec::new();
    push_craft_intro(&mut out, craft);
    push_craft_products(&mut out, craft);
    push_craft_materials(&mut out, craft);
    assert(out@ =~= craft_intro(*craft) + craft_products(*craft) + craft_materials(*craft));
    let mut title: Vec<char> = Vec::new();
    if craft.reward_items.len() > 0 {
        append_str(&mut title, craft.reward_items[0].item.name.as_str());
    } else {
        append_str(&mut title, "제작");
    }
    append_str(&mut title, " 제작법");
    assert(title@ =~= craft_title(*craft));
    card(string_of(&title), string_of(&out), None, None)
}

} // verus!
