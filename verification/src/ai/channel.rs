//! Reading what users write in the assistant's channel, and the texts sent
//! back.

use crate::ai::{after_selection, key_of, selected, take_selection, PendingQueries, PendingQuery};
use crate::tarkov::catalog::{is_match, no_match, normalized, ItemCatalog};
use crate::tarkov::embed::{number_text, push_number};
use crate::tarkov::models::Item;
use crate::text::{
    append_str, byte_len, chars_of, decimal, ends_with, head_of, head_within, parse_usize,
    parsed_usize, push_decimal, remove_all, slice_of, starts_with, string_of, texts, trim,
    trimmed, without_all,
};
use vstd::prelude::*;
use vstd::utf8::encode_utf8;

verus! {

/// Most bytes that one chat message may hold.
pub const MESSAGE_LIMIT: usize = 2000;

/// `text` without the first of `suffixes` that it ends with.
pub open spec fn without_first_suffix(text: Seq<char>, suffixes: Seq<Seq<char>>) -> Seq<char>
    decreases suffixes.len(),
{
    if suffixes.len() == 0 {
        text
    } else if suffixes[0].is_suffix_of(text) {
        text.subrange(0, text.len() - suffixes[0].len())
    } else {
        without_first_suffix(text, suffixes.drop_first())
    }
}

/// The endings that may follow a number in an answer.
pub open spec fn number_suffixes() -> Seq<Seq<char>> {
    seq!["번이요"@, "번요"@, "번이"@, "번째"@, "번"@, "이요"@, "요"@]
}

/// The number that an answer names: what is left of it without the first
/// ending that fits and without whitespace around it, read as a number.
pub open spec fn number_in(text: Seq<char>) -> Option<usize> {
    parsed_usize(trimmed(without_first_suffix(text, number_suffixes())))
}

/// Removes from `text` the first of `suffixes` that it ends with.
pub fn strip_first_suffix(text: &Vec<char>, suffixes: &Vec<Vec<char>>) -> (rest: Vec<char>)
    ensures
        rest@ == without_first_suffix(text@, texts(suffixes@)),
{
    let ghost all = texts(suffixes@);
    let mut i: usize = 0;
    assert(all.subrange(0, all.len() as int) =~= all);
    while i < suffixes.len()
        invariant
            i <= suffixes.len(),
            all == texts(suffixes@),
            without_first_suffix(text@, all) == without_first_suffix(
                text@,
                all.subrange(i as int, all.len() as int),
            ),
        decreases suffixes.len() - i,
    {
        let ghost tail = all.subrange(i as int, all.len() as int);
        assert(tail[0] == suffixes@[i as int]@);
        assert(tail.drop_first() =~= all.subrange(i + 1, all.len() as int));
        if ends_with(text, &suffixes[i]) {
            return slice_of(text, 0, text.len() - suffixes[i].len());
        }
        i = i + 1;
    }
    assert(text@.subrange(0, text.len() as int) =~= text@);
    slice_of(text, 0, text.len())
}

/// Reads the number that an answer names, such as `1`, `1번` or `2요`.
pub fn extract_number(text: &str) -> (number: Option<usize>)
    ensures
        number == number_in(text@),
{
    let mut suffixes: Vec<Vec<char>> = Vec::new();
    suffixes.push(chars_of("번이요"));
    suffixes.push(chars_of("번요"));
    suffixes.push(chars_of("번이"));
    suffixes.push(chars_of("번째"));
    suffixes.push(chars_of("번"));
    suffixes.push(chars_of("이요"));
    suffixes.push(chars_of("요"));
    assert(texts(suffixes@) =~= number_suffixes());
    let chars = chars_of(text);
    let rest = strip_first_suffix(&chars, &suffixes);
    let inner = trim(&rest);
    parse_usize(&inner)
}

/// `text` after each of `suffixes` in turn: where the text ends with the
/// suffix, the suffix and the whitespace before it go.
pub open spec fn without_each_suffix(text: Seq<char>, suffixes: Seq<Seq<char>>) -> Seq<char>
    decreases suffixes.len(),
{
    if suffixes.len() == 0 {
        text
    } else if suffixes[0].is_suffix_of(text) {
        without_each_suffix(
            trimmed(text.subrange(0, text.len() - suffixes[0].len())),
            suffixes.drop_first(),
        )
    } else {
        without_each_suffix(text, suffixes.drop_first())
    }
}

/// The words that may follow what a user asks about.
pub open spec fn query_suffixes() -> Seq<Seq<char>> {
    seq![
        "가격"@,
        "시세"@,
        "정보"@,
        "어디"@,
        "뭐야"@,
        "알려줘"@,
        "검색"@,
        "찾아줘"@,
        "얼마"@,
        "어때"@,
        "좀"@,
        "가격이"@,
        "가격은"@,
        "시세는"@,
        "정보는"@,
    ]
}

/// The mention of the user `id`, with an exclamation mark or without.
pub open spec fn mention(id: u64, marked: bool) -> Seq<char> {
    if marked {
        "<@!"@ + decimal(id as nat) + ">"@
    } else {
        "<@"@ + decimal(id as nat) + ">"@
    }
}

/// What a message asks about: the message without the mentions of the bot,
/// without whitespace around it, and without the words that may follow.
pub open spec fn query_in(content: Seq<char>, bot_id: u64) -> Seq<char> {
    without_each_suffix(
        trimmed(without_all(without_all(content, mention(bot_id, false)), mention(bot_id, true))),
        query_suffixes(),
    )
}

/// The mention of the user `id`.
pub fn mention_of(id: u64, marked: bool) -> (text: Vec<char>)
    ensures
        text@ == mention(id, marked),
{
    let mut out: Vec<char> = Vec::new();
    if marked {
        append_str(&mut out, "<@!");
    } else {
        append_str(&mut out, "<@");
    }
    push_decimal(&mut out, id);
    append_str(&mut out, ">");
    assert(out@ =~= mention(id, marked));
    out
}

/// Removes each of `suffixes` in turn from the end of `text`, with the
/// whitespace before it.
pub fn strip_each_suffix(text: Vec<char>, suffixes: &Vec<Vec<char>>) -> (rest: Vec<char>)
    ensures
        rest@ == without_each_suffix(text@, texts(suffixes@)),
{
    let ghost all = texts(suffixes@);
    let mut rest = text;
    let mut i: usize = 0;
    assert(all.subrange(0, all.len() as int) =~= all);
    while i < suffixes.len()
        invariant
            i <= suffixes.len(),
            all == texts(suffixes@),
            without_each_suffix(text@, all) == without_each_suffix(
                rest@,
                all.subrange(i as int, all.len() as int),
            ),
        decreases suffixes.len() - i,
    {
        let ghost tail = all.subrange(i as int, all.len() as int);
        assert(tail[0] == suffixes@[i as int]@);
        assert(tail.drop_first() =~= all.subrange(i + 1, all.len() as int));
        if ends_with(&rest, &suffixes[i]) {
            let cut = slice_of(&rest, 0, rest.len() - suffixes[i].len());
            rest = trim(&cut);
        }
        i = i + 1;
    }
    rest
}

/// Reads what a message that mentions the bot asks about.
pub fn extract_query(content: &str, bot_id: u64) -> (query: String)
    ensures
        query@ == query_in(content@, bot_id),
{
    let chars = chars_of(content);
    let plain = remove_all(&chars, &mention_of(bot_id, false));
    let raw = remove_all(&plain, &mention_of(bot_id, true));
    let inner = trim(&raw);
    let mut suffixes: Vec<Vec<char>> = Vec::new();
    suffixes.push(chars_of("가격"));
    suffixes.push(chars_of("시세"));
    suffixes.push(chars_of("정보"));
    suffixes.push(chars_of("어디"));
    suffixes.push(chars_of("뭐야"));
    suffixes.push(chars_of("알려줘"));
    suffixes.push(chars_of("검색"));
    suffixes.push(chars_of("찾아줘"));
    suffixes.push(chars_of("얼마"));
    suffixes.push(chars_of("어때"));
    suffixes.push(chars_of("좀"));
    suffixes.push(chars_of("가격이"));
    suffixes.push(chars_of("가격은"));
    suffixes.push(chars_of("시세는"));
    suffixes.push(chars_of("정보는"));
    assert(texts(suffixes@) =~= query_suffixes());
    let rest = strip_each_suffix(inner, &suffixes);
    string_of(&rest)
}

/// Whether an attachment with this content type is an image.
pub fn is_image_attachment(content_type: Option<&str>) -> (image: bool)
    ensures
        image == match content_type {
            Some(kind) => "image/"@.is_prefix_of(kind@),
            None => false,
        },
{
    match content_type {
        Some(kind) => {
            let chars = chars_of(kind);
            let prefix = chars_of("image/");
            starts_with(&chars, &prefix)
        },
        None => false,
    }
}

/// Renders `n` with commas between groups of three digits.
pub fn format_number(n: i64) -> (text: String)
    ensures
        text@ == crate::tarkov::embed::number_text(n as int),
{
    crate::tarkov::embed::format_number(n)
}

/// The line that offers `item` as choice `number`.
pub open spec fn choice_line(number: nat, item: Item) -> Seq<char> {
    "**"@ + decimal(number) + "**. "@ + item.name@ + " ("@ + item.short_name@ + ")\n"@
}

/// The lines that offer the first `count` of `items`, numbered from 1.
pub open spec fn choice_lines(items: Seq<Item>, count: nat) -> Seq<char>
    decreases count,
{
    if count == 0 {
        Seq::empty()
    } else {
        choice_lines(items, (count - 1) as nat) + choice_line(count, items[count - 1])
    }
}

/// The message that offers `items` for choice: a heading, then one line for
/// each of the first ten.
pub open spec fn choices_text(items: Seq<Item>) -> Seq<char> {
    "**여러 아이템이 검색되었습니다. 번호를 입력해주세요:**\n"@ + choice_lines(
        items,
        if items.len() <= 10 {
            items.len()
        } else {
            10
        },
    )
}

/// Writes the message that offers `items` for choice.
pub fn format_item_choices(items: &Vec<Item>) -> (text: String)
    ensures
        text@ == choices_text(items@),
{
    let mut out: Vec<char> = Vec::new();
    append_str(&mut out, "**여러 아이템이 검색되었습니다. 번호를 입력해주세요:**\n");
    let ghost heading = out@;
    let count: usize = if items.len() <= 10 {
        items.len()
    } else {
        10
    };
    let mut i: usize = 0;
    assert(heading + choice_lines(items@, 0) =~= heading);
    while i < count
        invariant
            i <= count <= items.len(),
            out@ == heading + choice_lines(items@, i as nat),
        decreases count - i,
    {
        let ghost before = out@;
        append_str(&mut out, "**");
        push_decimal(&mut out, (i + 1) as u64);
        append_str(&mut out, "**. ");
        append_str(&mut out, items[i].name.as_str());
        append_str(&mut out, " (");
        append_str(&mut out, items[i].short_name.as_str());
        append_str(&mut out, ")\n");
        assert(out@ =~= before + choice_line((i + 1) as nat, items@[i as int]));
        i = i + 1;
        assert(out@ =~= heading + choice_lines(items@, i as nat));
    }
    string_of(&out)
}

/// `text` as it fits into one chat message: a text of no more than 2000
/// bytes as it is; a longer one cut between two characters at or before
/// byte 1997, with three dots after it.
pub open spec fn fitted(text: Seq<char>) -> Seq<char> {
    if encode_utf8(text).len() <= MESSAGE_LIMIT {
        text
    } else {
        head_within(text, MESSAGE_LIMIT - 3) + "..."@
    }
}

/// Shortens `text` to what one chat message may hold.
pub fn truncate_for_discord(text: &str) -> (short: String)
    ensures
        short@ == fitted(text@),
{
    if byte_len(text) <= MESSAGE_LIMIT {
        return text.to_owned();
    }
    let mut out = head_of(text, MESSAGE_LIMIT - 3);
    append_str(&mut out, "...");
    string_of(&out)
}

/// Whether a message concerns the assistant at all: the assistant is set
/// up, the message is in its channel, and no bot wrote it.
pub fn concerns_assistant(configured: bool, channel_id: u64, tv_channel_id: u64, author_is_bot: bool)
    -> (concerned: bool)
    ensures
        concerned == (configured && channel_id == tv_channel_id && !author_is_bot),
{
    configured && channel_id == tv_channel_id && !author_is_bot
}

/// What the assistant does with a message.
pub enum Step {
    /// Look at the image that came with it.
    AnalyzeImage,
    /// Show the prices of the item that the message picked.
    ShowSelection(Item),
    /// Answer the text, which mentions the bot.
    AnswerText,
    /// Nothing: the message is only kept.
    Nothing,
}

/// What the assistant does with a message, as a rule: an image comes
/// first; then a number that picks from a waiting question; then a
/// mention.
pub open spec fn step_for(
    store: Map<u128, PendingQuery>,
    key: u128,
    content: Seq<char>,
    has_image: bool,
    mentioned: bool,
    now: u64,
) -> Step {
    if has_image {
        Step::AnalyzeImage
    } else {
        let picked = match number_in(trimmed(content)) {
            Some(number) => selected(store, key, number, now),
            None => None,
        };
        match picked {
            Some(item) => Step::ShowSelection(item),
            None => if mentioned {
                Step::AnswerText
            } else {
                Step::Nothing
            },
        }
    }
}

/// The waiting questions after a message: a message without an image that
/// names a number answers the question of its user in its channel.
pub open spec fn pending_after(
    store: Map<u128, PendingQuery>,
    key: u128,
    content: Seq<char>,
    has_image: bool,
    now: u64,
) -> Map<u128, PendingQuery> {
    if has_image {
        store
    } else {
        match number_in(trimmed(content)) {
            Some(number) => after_selection(store, key, number, now),
            None => store,
        }
    }
}

/// Decides what the assistant does with a message of `user_id` in
/// `channel_id`, written at `now`.
pub fn next_step(
    pending: &mut PendingQueries,
    channel_id: u64,
    user_id: u64,
    content: &str,
    has_image: bool,
    mentioned: bool,
    now: u64,
) -> (step: Step)
    ensures
        step == step_for(
            old(pending)@,
            key_of(channel_id, user_id),
            content@,
            has_image,
            mentioned,
            now,
        ),
        final(pending)@ == pending_after(
            old(pending)@,
            key_of(channel_id, user_id),
            content@,
            has_image,
            now,
        ),
{
    if has_image {
        return Step::AnalyzeImage;
    }
    let inner = string_of(&trim(&chars_of(content)));
    if let Some(number) = extract_number(inner.as_str()) {
        if let Some(item) = take_selection(pending, channel_id, user_id, number, now) {
            return Step::ShowSelection(item);
        }
    }
    if mentioned {
        Step::AnswerText
    } else {
        Step::Nothing
    }
}

/// What follows a search for the text of a message.
#[derive(Clone, Copy, Debug, PartialEq, Eq, Structural)]
pub enum SearchResult {
    /// One item: its prices are shown.
    ShowPrice,
    /// Several items: they are offered for choice.
    OfferChoices,
    /// No item, or no answer: the assistant answers freely.
    Chat,
}

/// What follows a search that found `count` items; `None` for a search
/// that failed.
pub fn after_search(count: Option<usize>) -> (result: SearchResult)
    ensures
        result == match count {
            Some(found) => if found == 1 {
                SearchResult::ShowPrice
            } else if found > 1 {
                SearchResult::OfferChoices
            } else {
                SearchResult::Chat
            },
            None => SearchResult::Chat,
        },
{
    match count {
        Some(found) => if found == 1 {
            SearchResult::ShowPrice
        } else if found > 1 {
            SearchResult::OfferChoices
        } else {
            SearchResult::Chat
        },
        None => SearchResult::Chat,
    }
}

/// What is kept of an answer that showed the prices of an item.
pub fn price_note(item_name: &str) -> (note: String)
    ensures
        note@ == "[아이템 가격 정보: "@ + item_name@ + "]"@,
{
    let mut out: Vec<char> = Vec::new();
    append_str(&mut out, "[아이템 가격 정보: ");
    append_str(&mut out, item_name);
    append_str(&mut out, "]");
    assert(out@ =~= "[아이템 가격 정보: "@ + item_name@ + "]"@);
    string_of(&out)
}

/// The names under which an item that was recognised as `name` is looked
/// up: first the official name that the catalog matches, and, where that
/// differs, `name` itself as a second try.
pub fn lookup_names(catalog: Option<&ItemCatalog>, name: &str) -> (names: (String, Option<String>))
    ensures
        match names.1 {
            Some(second) => second@ == name@ && names.0@ != name@,
            None => names.0@ == name@,
        },
        catalog is None ==> names.0@ == name@,
        catalog is Some && no_match(catalog->0.entries@, normalized(name@)) ==> names.0@ == name@,
        catalog is Some && !no_match(catalog->0.entries@, normalized(name@)) ==> exists|at: int|
            is_match(catalog->0.entries@, normalized(name@), at) && names.0
                == catalog->0.entries@[at].name,
{
    let first = match catalog {
        Some(known) => match known.find_match(name) {
            Some(entry) => {
                proof {
                    let at = choose|at: int|
                        is_match(known.entries@, normalized(name@), at) && entry
                            == known.entries@[at];
                    crate::tarkov::catalog::match_excludes_no_match(
                        crate::tarkov::catalog::prepared(known.entries@),
                        normalized(name@),
                        at,
                    );
                }
                entry.name
            },
            None => name.to_owned(),
        },
        None => name.to_owned(),
    };
    if crate::text::str_eq(first.as_str(), name) {
        (first, None)
    } else {
        (first, Some(name.to_owned()))
    }
}

/// An item that was recognised in an image, with what was found for it:
/// the official name and the price of one.
pub struct PricedItem {
    pub name: String,
    pub qty: u32,
    pub found: Option<(String, i64)>,
}

/// The price of one of `item`: the average of the last day, else the base
/// price.
pub fn unit_price(item: &Item) -> (price: i64)
    ensures
        price == match item.avg24h_price {
            Some(average) => average,
            None => item.base_price,
        },
{
    match item.avg24h_price {
        Some(average) => average,
        None => item.base_price,
    }
}

/// What all of one recognised item cost.
pub open spec fn cost_of(item: PricedItem) -> int {
    match item.found {
        Some((_, price)) => price * item.qty,
        None => 0,
    }
}

/// What the first `count` recognised items cost together.
pub open spec fn cost_sum(items: Seq<PricedItem>, count: nat) -> int
    decreases count,
{
    if count == 0 {
        0
    } else {
        cost_sum(items, (count - 1) as nat) + cost_of(items[count - 1])
    }
}

/// The line of the report for one recognised item: what it costs, with the
/// price of one where there are several; or that no price was found.
pub open spec fn report_line(item: PricedItem) -> Seq<char> {
    match item.found {
        Some((name, price)) => if item.qty > 1 {
            "- "@ + name@ + " x"@ + decimal(item.qty as nat) + " — "@ + number_text(
                price * item.qty,
            ) + "₽ (개당 "@ + number_text(price as int) + "₽)"@ + "\n"@
        } else {
            "- "@ + name@ + " — "@ + number_text(price as int) + "₽"@ + "\n"@
        },
        None => "- "@ + item.name@ + " — 가격 조회 실패"@ + "\n"@,
    }
}

/// The lines of the report for the first `count` recognised items.
pub open spec fn report_lines(items: Seq<PricedItem>, count: nat) -> Seq<char>
    decreases count,
{
    if count == 0 {
        Seq::empty()
    } else {
        report_lines(items, (count - 1) as nat) + report_line(items[count - 1])
    }
}

/// The report on the items of an image: a heading, a line for each item,
/// and what they cost together.
pub open spec fn report_text(items: Seq<PricedItem>) -> Seq<char> {
    "**아이템 가격 분석**\n"@ + report_lines(items, items.len()) + "\n**합계: "@ + number_text(
        cost_sum(items, items.len()),
    ) + "₽**"@
}

/// Appends the line of the report for one recognised item.
pub fn push_report_line(out: &mut Vec<char>, item: &PricedItem)
    ensures
        final(out)@ == old(out)@ + report_line(*item),
{
    let mut line: Vec<char> = Vec::new();
    append_str(&mut line, "- ");
    match &item.found {
        Some((name, price)) => {
            append_str(&mut line, name.as_str());
            if item.qty > 1 {
                let qty = item.qty;
                let one = *price;
                assert(-0x8000_0000_0000_0000_0000_0000 <= one * qty
                    <= 0x8000_0000_0000_0000_0000_0000) by (nonlinear_arith)
                    requires
                        -0x8000_0000_0000_0000 <= one <= 0x7fff_ffff_ffff_ffff,
                        0 <= qty <= 0xffff_ffff,
                ;
                append_str(&mut line, " x");
                push_decimal(&mut line, qty as u64);
                append_str(&mut line, " — ");
                push_number(&mut line, one as i128 * qty as i128);
                append_str(&mut line, "₽ (개당 ");
                push_number(&mut line, one as i128);
                append_str(&mut line, "₽)");
            } else {
                append_str(&mut line, " — ");
                push_number(&mut line, *price as i128);
                append_str(&mut line, "₽");
            }
        },
        None => {
            append_str(&mut line, item.name.as_str());
            append_str(&mut line, " — 가격 조회 실패");
        },
    }
    append_str(&mut line, "\n");
    assert(line@ =~= report_line(*item));
    crate::text::append_chars(out, &line);
}

/// Writes the report on the items of an image. An image holds no more
/// items than a `u32` counts.
pub fn price_report(items: &Vec<PricedItem>) -> (text: String)
    requires
        items@.len() <= u32::MAX,
    ensures
        text@ == report_text(items@),
{
    let mut out: Vec<char> = Vec::new();
    append_str(&mut out, "**아이템 가격 분석**\n");
    let ghost head = out@;
    let mut total: i128 = 0;
    let mut i: usize = 0;
    assert(head + report_lines(items@, 0) =~= head);
    while i < items.len()
        invariant
            i <= items.len() <= u32::MAX,
            out@ == head + report_lines(items@, i as nat),
            total == cost_sum(items@, i as nat),
            -0x8000_0000_0000_0000_0000_0000 * i <= total <= 0x8000_0000_0000_0000_0000_0000 * i,
        decreases items.len() - i,
    {
        push_report_line(&mut out, &items[i]);
        if let Some((_, price)) = &items[i].found {
            let qty = items[i].qty;
            let one = *price;
            assert(-0x8000_0000_0000_0000_0000_0000 <= one * qty
                <= 0x8000_0000_0000_0000_0000_0000) by (nonlinear_arith)
                requires
                    -0x8000_0000_0000_0000 <= one <= 0x7fff_ffff_ffff_ffff,
                    0 <= qty <= 0xffff_ffff,
            ;
            total = total + one as i128 * qty as i128;
        }
        i = i + 1;
        assert(out@ =~= head + report_lines(items@, i as nat));
    }
    append_str(&mut out, "\n**합계: ");
    push_number(&mut out, total);
    append_str(&mut out, "₽**");
    assert(out@ =~= report_text(items@));
    string_of(&out)
}

} // verus!
