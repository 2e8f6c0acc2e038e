//! Text helpers shared by the modules: strings as sequences of characters,
//! prefixes and suffixes, and decimal numbers.

use vstd::prelude::*;
use vstd::string::StringSliceAdditionalSpecFns;
use vstd::utf8::{decode_utf8, encode_utf8, is_char_boundary};

verus! {

/// Appends `c` to `text` with `String::push` of std, which adds the one
/// character at the end and keeps what was there.
#[verifier::external_body]
fn push_char(text: &mut String, c: char)
    ensures
        final(text)@ == old(text)@.push(c),
{
    text.push(c);
}

/// The characters of `s`, in order.
pub fn chars_of(s: &str) -> (chars: Vec<char>)
    ensures
        chars@ == s@,
{
    let mut chars: Vec<char> = Vec::new();
    for c in it: s.chars()
        invariant
            chars@ == it.seq().subrange(0, it.index() as int),
            it.seq() == s@,
    {
        chars.push(c);
        assert(chars@ =~= it.seq().subrange(0, it.index() + 1));
    }
    assert(chars@ =~= s@);
    chars
}

/// The string made of `chars`, in order.
pub fn string_of(chars: &Vec<char>) -> (text: String)
    ensures
        text@ == chars@,
{
    let mut text = String::new();
    let mut i: usize = 0;
    while i < chars.len()
        invariant
            i <= chars.len(),
            text@ == chars@.subrange(0, i as int),
        decreases chars.len() - i,
    {
        push_char(&mut text, chars[i]);
        i = i + 1;
        assert(text@ =~= chars@.subrange(0, i as int));
    }
    assert(text@ =~= chars@);
    text
}

/// Appends the characters of `s` to `out`.
pub fn append_str(out: &mut Vec<char>, s: &str)
    ensures
        final(out)@ == old(out)@ + s@,
{
    let chars = chars_of(s);
    append_chars(out, &chars);
}

/// Appends `chars` to `out`.
pub fn append_chars(out: &mut Vec<char>, chars: &Vec<char>)
    ensures
        final(out)@ == old(out)@ + chars@,
{
    let mut i: usize = 0;
    while i < chars.len()
        invariant
            i <= chars.len(),
            out@ == old(out)@ + chars@.subrange(0, i as int),
        decreases chars.len() - i,
    {
        out.push(chars[i]);
        i = i + 1;
        assert(out@ =~= old(out)@ + chars@.subrange(0, i as int));
    }
    assert(chars@.subrange(0, chars.len() as int) =~= chars@);
}

/// Whether `text` begins with `prefix`.
pub fn starts_with(text: &Vec<char>, prefix: &Vec<char>) -> (found: bool)
    ensures
        found == prefix@.is_prefix_of(text@),
{
    if prefix.len() > text.len() {
        return false;
    }
    let mut i: usize = 0;
    while i < prefix.len()
        invariant
            i <= prefix.len() <= text.len(),
            forall|k: int| 0 <= k < i ==> text@[k] == prefix@[k],
        decreases prefix.len() - i,
    {
        if text[i] != prefix[i] {
            return false;
        }
        i = i + 1;
    }
    true
}

/// Whether `text` ends with `suffix`.
pub fn ends_with(text: &Vec<char>, suffix: &Vec<char>) -> (found: bool)
    ensures
        found == suffix@.is_suffix_of(text@),
{
    if suffix.len() > text.len() {
        return false;
    }
    let offset = text.len() - suffix.len();
    let mut i: usize = 0;
    while i < suffix.len()
        invariant
            i <= suffix.len() <= text.len(),
            offset == text.len() - suffix.len(),
            forall|k: int| 0 <= k < i ==> text@[offset + k] == suffix@[k],
        decreases suffix.len() - i,
    {
        if text[offset + i] != suffix[i] {
            assert(text@.subrange(offset as int, text.len() as int)[i as int] != suffix@[i as int]);
            return false;
        }
        i = i + 1;
    }
    assert(text@.subrange(offset as int, text.len() as int) =~= suffix@);
    true
}

/// Whether `a` and `b` hold the same characters.
pub fn same_chars(a: &Vec<char>, b: &Vec<char>) -> (same: bool)
    ensures
        same == (a@ == b@),
{
    if a.len() != b.len() {
        return false;
    }
    let mut i: usize = 0;
    while i < a.len()
        invariant
            i <= a.len(),
            a.len() == b.len(),
            forall|k: int| 0 <= k < i ==> a@[k] == b@[k],
        decreases a.len() - i,
    {
        if a[i] != b[i] {
            return false;
        }
        i = i + 1;
    }
    assert(a@ =~= b@);
    true
}

/// Whether `a` and `b` are the same text.
pub fn str_eq(a: &str, b: &str) -> (same: bool)
    ensures
        same == (a@ == b@),
{
    let left = chars_of(a);
    let right = chars_of(b);
    same_chars(&left, &right)
}

/// The character of the decimal digit `d`.
pub open spec fn digit(d: nat) -> char
    recommends
        d < 10,
{
    if d == 0 {
        '0'
    } else if d == 1 {
        '1'
    } else if d == 2 {
        '2'
    } else if d == 3 {
        '3'
    } else if d == 4 {
        '4'
    } else if d == 5 {
        '5'
    } else if d == 6 {
        '6'
    } else if d == 7 {
        '7'
    } else if d == 8 {
        '8'
    } else {
        '9'
    }
}

/// The decimal digits of `n`, without leading zeros.
pub open spec fn decimal(n: nat) -> Seq<char>
    decreases n,
{
    if n < 10 {
        seq![digit(n)]
    } else {
        decimal(n / 10).push(digit(n % 10))
    }
}

/// The decimal digits of `n`, with a minus sign before them where `n` is
/// negative.
pub open spec fn signed_decimal(n: int) -> Seq<char> {
    if n < 0 {
        seq!['-'] + decimal((-n) as nat)
    } else {
        decimal(n as nat)
    }
}

/// The character of the decimal digit `d`.
pub fn digit_char(d: u64) -> (c: char)
    requires
        d < 10,
    ensures
        c == digit(d as nat),
{
    if d == 0 {
        '0'
    } else if d == 1 {
        '1'
    } else if d == 2 {
        '2'
    } else if d == 3 {
        '3'
    } else if d == 4 {
        '4'
    } else if d == 5 {
        '5'
    } else if d == 6 {
        '6'
    } else if d == 7 {
        '7'
    } else if d == 8 {
        '8'
    } else {
        '9'
    }
}

/// Appends the decimal digits of `n` to `out`.
pub fn push_decimal_wide(out: &mut Vec<char>, n: u128)
    ensures
        final(out)@ == old(out)@ + decimal(n as nat),
    decreases n,
{
    if n >= 10 {
        push_decimal_wide(out, n / 10);
    }
    out.push(digit_char((n % 10) as u64));
    assert(out@ =~= old(out)@ + decimal(n as nat));
}

/// Appends the decimal digits of `n` to `out`.
pub fn push_decimal(out: &mut Vec<char>, n: u64)
    ensures
        final(out)@ == old(out)@ + decimal(n as nat),
{
    push_decimal_wide(out, n as u128);
}

/// The size of `n` without its sign.
pub fn magnitude_wide(n: i128) -> (size: u128)
    ensures
        size == if n < 0 {
            -n
        } else {
            n as int
        },
{
    if n >= 0 {
        n as u128
    } else {
        (-(n + 1)) as u128 + 1
    }
}

/// The size of `n` without its sign.
pub fn magnitude(n: i64) -> (size: u64)
    ensures
        size == if n < 0 {
            -n
        } else {
            n as int
        },
{
    if n >= 0 {
        n as u64
    } else {
        (-(n + 1)) as u64 + 1
    }
}

/// Appends the decimal digits of `n` to `out`, with a minus sign before them
/// where `n` is negative.
pub fn push_signed_decimal_wide(out: &mut Vec<char>, n: i128)
    ensures
        final(out)@ == old(out)@ + signed_decimal(n as int),
{
    if n < 0 {
        out.push('-');
    }
    push_decimal_wide(out, magnitude_wide(n));
    assert(out@ =~= old(out)@ + signed_decimal(n as int));
}

/// Appends the decimal digits of `n` to `out`, with a minus sign before them
/// where `n` is negative.
pub fn push_signed_decimal(out: &mut Vec<char>, n: i64)
    ensures
        final(out)@ == old(out)@ + signed_decimal(n as int),
{
    push_signed_decimal_wide(out, n as i128);
}

/// `count` spaces.
pub open spec fn spaces(count: nat) -> Seq<char> {
    Seq::new(count, |i: int| ' ')
}

/// `text` with spaces behind it up to `width` characters.
pub open spec fn padded_right(text: Seq<char>, width: nat) -> Seq<char> {
    if text.len() >= width {
        text
    } else {
        text + spaces((width - text.len()) as nat)
    }
}

/// `text` with spaces before it up to `width` characters.
pub open spec fn padded_left(text: Seq<char>, width: nat) -> Seq<char> {
    if text.len() >= width {
        text
    } else {
        spaces((width - text.len()) as nat) + text
    }
}

/// `count` times the character `c`.
pub open spec fn repeated(c: char, count: nat) -> Seq<char> {
    Seq::new(count, |i: int| c)
}

/// Appends `count` times the character `c`.
pub fn push_repeated(out: &mut Vec<char>, c: char, count: usize)
    ensures
        final(out)@ == old(out)@ + repeated(c, count as nat),
{
    let mut i: usize = 0;
    while i < count
        invariant
            i <= count,
            out@ == old(out)@ + repeated(c, i as nat),
        decreases count - i,
    {
        out.push(c);
        i = i + 1;
        assert(out@ =~= old(out)@ + repeated(c, i as nat));
    }
}

/// Appends `text` with spaces behind it up to `width` characters.
pub fn push_padded_right(out: &mut Vec<char>, text: &Vec<char>, width: usize)
    ensures
        final(out)@ == old(out)@ + padded_right(text@, width as nat),
{
    append_chars(out, text);
    if text.len() < width {
        push_repeated(out, ' ', width - text.len());
        assert(repeated(' ', (width - text.len()) as nat) =~= spaces((width - text.len()) as nat));
    }
    assert(out@ =~= old(out)@ + padded_right(text@, width as nat));
}

/// Appends `text` with spaces before it up to `width` characters.
pub fn push_padded_left(out: &mut Vec<char>, text: &Vec<char>, width: usize)
    ensures
        final(out)@ == old(out)@ + padded_left(text@, width as nat),
{
    if text.len() < width {
        push_repeated(out, ' ', width - text.len());
        assert(repeated(' ', (width - text.len()) as nat) =~= spaces((width - text.len()) as nat));
    }
    append_chars(out, text);
    assert(out@ =~= old(out)@ + padded_left(text@, width as nat));
}

/// What `str::to_lowercase` of std makes of a text: its lowercase form by
/// the rules of Unicode.
pub uninterp spec fn lowercase(text: Seq<char>) -> Seq<char>;

/// Calls `str::to_lowercase` of std. The result depends on the text alone.
#[verifier::external_body]
pub(crate) fn to_lowercase(text: &str) -> (lower: String)
    ensures
        lower@ == lowercase(text@),
{
    text.to_lowercase()
}

/// Whether a character is whitespace: it is one of the code points with
/// the Unicode property `White_Space`. These are the tabulator to the
/// carriage return, the space, the next line, the no-break space, the ogham
/// space mark, the spaces from the en quad to the hair space, the line and
/// the paragraph separator, the narrow no-break space, the medium
/// mathematical space and the ideographic space.
pub open spec fn is_whitespace(c: char) -> bool {
    let code = c as u32;
    ||| 0x09 <= code <= 0x0D
    ||| code == 0x20
    ||| code == 0x85
    ||| code == 0xA0
    ||| code == 0x1680
    ||| 0x2000 <= code <= 0x200A
    ||| code == 0x2028
    ||| code == 0x2029
    ||| code == 0x202F
    ||| code == 0x205F
    ||| code == 0x3000
}

/// Whether `c` is whitespace.
pub fn is_space(c: char) -> (space: bool)
    ensures
        space == is_whitespace(c),
{
    let code = c as u32;
    (0x09 <= code && code <= 0x0D) || code == 0x20 || code == 0x85 || code == 0xA0 || code
        == 0x1680 || (0x2000 <= code && code <= 0x200A) || code == 0x2028 || code == 0x2029
        || code == 0x202F || code == 0x205F || code == 0x3000
}

/// The longest beginning of `text` without whitespace.
pub open spec fn first_word(text: Seq<char>) -> Seq<char>
    decreases text.len(),
{
    if text.len() == 0 || is_whitespace(text[0]) {
        Seq::empty()
    } else {
        seq![text[0]] + first_word(text.drop_first())
    }
}

/// The words of `text`: its longest runs of characters that are not
/// whitespace, in order.
pub open spec fn words(text: Seq<char>) -> Seq<Seq<char>>
    decreases text.len(),
{
    if text.len() == 0 {
        Seq::empty()
    } else if is_whitespace(text[0]) {
        words(text.drop_first())
    } else {
        proof {
            lemma_first_word(text);
        }
        seq![first_word(text)] + words(
            text.subrange(first_word(text).len() as int, text.len() as int),
        )
    }
}

/// The texts that `parts` hold, in order.
pub open spec fn texts(parts: Seq<Vec<char>>) -> Seq<Seq<char>> {
    parts.map_values(|part: Vec<char>| part@)
}

/// `parts` in one text, with one space between neighbours.
pub open spec fn joined(parts: Seq<Seq<char>>) -> Seq<char>
    decreases parts.len(),
{
    if parts.len() == 0 {
        Seq::empty()
    } else if parts.len() == 1 {
        parts[0]
    } else {
        joined(parts.drop_last()) + seq![' '] + parts.last()
    }
}

/// A word is a beginning of the text, is not longer than it, and ends where
/// the text ends or whitespace stands.
pub proof fn lemma_first_word(text: Seq<char>)
    ensures
        first_word(text).len() <= text.len(),
        first_word(text) == text.subrange(0, first_word(text).len() as int),
        first_word(text).len() < text.len() ==> is_whitespace(text[first_word(text).len() as int]),
        text.len() > 0 && !is_whitespace(text[0]) ==> first_word(text).len() > 0,
        forall|k: int| 0 <= k < first_word(text).len() ==> !is_whitespace(#[trigger] text[k]),
    decreases text.len(),
{
    if text.len() == 0 || is_whitespace(text[0]) {
        assert(text.subrange(0, 0) =~= Seq::<char>::empty());
    } else {
        let rest = text.drop_first();
        lemma_first_word(rest);
        let n = first_word(rest).len() as int;
        assert(first_word(text) =~= text.subrange(0, n + 1)) by {
            assert(first_word(rest) == rest.subrange(0, n));
        }
        assert forall|k: int| 0 <= k < first_word(text).len() implies !is_whitespace(
            #[trigger] text[k],
        ) by {
            if k > 0 {
                assert(text[k] == rest[k - 1]);
            }
        }
    }
}

/// The run of characters without whitespace that starts at `start` and
/// ends before `end` is the first word of what stands from `start` on.
pub proof fn lemma_word_ends(text: Seq<char>, start: int, end: int)
    requires
        0 <= start <= end <= text.len(),
        forall|k: int| start <= k < end ==> !is_whitespace(#[trigger] text[k]),
        end == text.len() || is_whitespace(text[end]),
    ensures
        first_word(text.subrange(start, text.len() as int)) == text.subrange(start, end),
    decreases end - start,
{
    let tail = text.subrange(start, text.len() as int);
    if start == end {
        if tail.len() > 0 {
            assert(tail[0] == text[start]);
        }
        assert(text.subrange(start, end) =~= Seq::<char>::empty());
    } else {
        assert(tail[0] == text[start]);
        lemma_word_ends(text, start + 1, end);
        assert(tail.drop_first() =~= text.subrange(start + 1, text.len() as int));
        assert(seq![text[start]] + text.subrange(start + 1, end) =~= text.subrange(start, end));
    }
}

/// Cuts `text` into its words.
pub fn split_words(text: &Vec<char>) -> (parts: Vec<Vec<char>>)
    ensures
        texts(parts@) == words(text@),
{
    let mut parts: Vec<Vec<char>> = Vec::new();
    let len = text.len();
    let mut i: usize = 0;
    assert(text@.subrange(0, len as int) =~= text@);
    assert(texts(parts@) =~= Seq::<Seq<char>>::empty());
    while i < len
        invariant
            len == text.len(),
            i <= len,
            words(text@) == texts(parts@) + words(text@.subrange(i as int, len as int)),
        decreases len - i,
    {
        let ghost tail = text@.subrange(i as int, len as int);
        assert(tail[0] == text@[i as int]);
        if is_space(text[i]) {
            assert(tail.drop_first() =~= text@.subrange(i + 1, len as int));
            i = i + 1;
        } else {
            let start = i;
            let mut word: Vec<char> = Vec::new();
            while i < len && !is_space(text[i])
                invariant
                    len == text.len(),
                    start <= i <= len,
                    word@ == text@.subrange(start as int, i as int),
                    forall|k: int| start <= k < i ==> !is_whitespace(#[trigger] text@[k]),
                decreases len - i,
            {
                word.push(text[i]);
                i = i + 1;
                assert(word@ =~= text@.subrange(start as int, i as int));
            }
            proof {
                lemma_word_ends(text@, start as int, i as int);
                assert(first_word(tail) == word@);
                assert(tail.subrange(word@.len() as int, tail.len() as int) =~= text@.subrange(
                    i as int,
                    len as int,
                ));
            }
            let ghost before = texts(parts@);
            parts.push(word);
            assert(texts(parts@) =~= before + seq![word@]);
            assert(before + (seq![word@] + words(text@.subrange(i as int, len as int)))
                =~= texts(parts@) + words(text@.subrange(i as int, len as int)));
        }
    }
    assert(words(text@.subrange(len as int, len as int)) =~= Seq::<Seq<char>>::empty());
    assert(texts(parts@) + Seq::<Seq<char>>::empty() =~= texts(parts@));
    parts
}

/// Puts `parts` into one text, with one space between neighbours.
pub fn join_words(parts: &Vec<Vec<char>>) -> (text: Vec<char>)
    ensures
        text@ == joined(texts(parts@)),
{
    let mut text: Vec<char> = Vec::new();
    let mut i: usize = 0;
    assert(texts(parts@).subrange(0, 0) =~= Seq::<Seq<char>>::empty());
    while i < parts.len()
        invariant
            i <= parts.len(),
            text@ == joined(texts(parts@).subrange(0, i as int)),
        decreases parts.len() - i,
    {
        let ghost seen = texts(parts@).subrange(0, i as int + 1);
        assert(seen.drop_last() =~= texts(parts@).subrange(0, i as int));
        assert(seen.last() == parts@[i as int]@);
        if i > 0 {
            text.push(' ');
        }
        append_chars(&mut text, &parts[i]);
        assert(text@ =~= joined(seen)) by {
            if i > 0 {
                assert(seen.len() > 1);
            } else {
                assert(seen.len() == 1);
                assert(seen[0] == seen.last());
                assert(Seq::<char>::empty() + parts@[i as int]@ =~= parts@[i as int]@);
            }
        }
        i = i + 1;
    }
    assert(texts(parts@).subrange(0, parts.len() as int) =~= texts(parts@));
    text
}

/// `text` without the whitespace at its beginning.
pub open spec fn trim_start(text: Seq<char>) -> Seq<char>
    decreases text.len(),
{
    if text.len() > 0 && is_whitespace(text[0]) {
        trim_start(text.drop_first())
    } else {
        text
    }
}

/// `text` without the whitespace at its end.
pub open spec fn trim_end(text: Seq<char>) -> Seq<char>
    decreases text.len(),
{
    if text.len() > 0 && is_whitespace(text.last()) {
        trim_end(text.drop_last())
    } else {
        text
    }
}

/// `text` without the whitespace at its beginning and at its end.
pub open spec fn trimmed(text: Seq<char>) -> Seq<char> {
    trim_end(trim_start(text))
}

/// The characters of `text` from `start` up to `end`.
pub fn slice_of(text: &Vec<char>, start: usize, end: usize) -> (part: Vec<char>)
    requires
        start <= end <= text.len(),
    ensures
        part@ == text@.subrange(start as int, end as int),
{
    let mut part: Vec<char> = Vec::new();
    let mut i: usize = start;
    while i < end
        invariant
            start <= i <= end <= text.len(),
            part@ == text@.subrange(start as int, i as int),
        decreases end - i,
    {
        part.push(text[i]);
        i = i + 1;
        assert(part@ =~= text@.subrange(start as int, i as int));
    }
    part
}

/// Removes the whitespace at the beginning and at the end of `text`.
pub fn trim(text: &Vec<char>) -> (inner: Vec<char>)
    ensures
        inner@ == trimmed(text@),
{
    let len = text.len();
    let mut start: usize = 0;
    assert(text@.subrange(0, len as int) =~= text@);
    while start < len && is_space(text[start])
        invariant
            len == text.len(),
            start <= len,
            trim_start(text@) == trim_start(text@.subrange(start as int, len as int)),
        decreases len - start,
    {
        assert(text@.subrange(start as int, len as int).drop_first() =~= text@.subrange(
            start + 1,
            len as int,
        ));
        start = start + 1;
    }
    assert(trim_start(text@) == text@.subrange(start as int, len as int));
    let mut end: usize = len;
    while end > start && is_space(text[end - 1])
        invariant
            len == text.len(),
            start <= end <= len,
            trimmed(text@) == trim_end(text@.subrange(start as int, end as int)),
        decreases end - start,
    {
        assert(text@.subrange(start as int, end as int).drop_last() =~= text@.subrange(
            start as int,
            end - 1,
        ));
        end = end - 1;
    }
    slice_of(text, start, end)
}

/// The value of a decimal digit; `None` for any other character.
pub open spec fn digit_value(c: char) -> Option<nat> {
    if c == '0' {
        Some(0)
    } else if c == '1' {
        Some(1)
    } else if c == '2' {
        Some(2)
    } else if c == '3' {
        Some(3)
    } else if c == '4' {
        Some(4)
    } else if c == '5' {
        Some(5)
    } else if c == '6' {
        Some(6)
    } else if c == '7' {
        Some(7)
    } else if c == '8' {
        Some(8)
    } else if c == '9' {
        Some(9)
    } else {
        None
    }
}

/// The number that the decimal digits of `text` spell; `None` where a
/// character is no digit. No digits spell 0.
pub open spec fn digits_value(text: Seq<char>) -> Option<nat>
    decreases text.len(),
{
    if text.len() == 0 {
        Some(0)
    } else {
        match (digits_value(text.drop_last()), digit_value(text.last())) {
            (Some(value), Some(d)) => Some(value * 10 + d),
            _ => None,
        }
    }
}

/// The number that `text` spells, if it is no greater than `max`: one or
/// more decimal digits, with a plus sign before them or none.
pub open spec fn parsed_number(text: Seq<char>, max: nat) -> Option<nat> {
    let body = if text.len() > 0 && text[0] == '+' {
        text.drop_first()
    } else {
        text
    };
    if body.len() == 0 {
        None
    } else {
        match digits_value(body) {
            Some(value) => if value <= max {
                Some(value)
            } else {
                None
            },
            None => None,
        }
    }
}

/// The number that `text` spells for a `usize`.
pub open spec fn parsed_usize(text: Seq<char>) -> Option<usize> {
    match parsed_number(text, usize::MAX as nat) {
        Some(value) => Some(value as usize),
        None => None,
    }
}

/// The number that `text` spells for a `u64`.
pub open spec fn parsed_u64(text: Seq<char>) -> Option<u64> {
    match parsed_number(text, u64::MAX as nat) {
        Some(value) => Some(value as u64),
        None => None,
    }
}

/// The value of the decimal digit `c`.
pub fn digit_of(c: char) -> (value: Option<u64>)
    ensures
        match value {
            Some(d) => digit_value(c) == Some(d as nat) && d < 10,
            None => digit_value(c) is None,
        },
{
    if c == '0' {
        Some(0)
    } else if c == '1' {
        Some(1)
    } else if c == '2' {
        Some(2)
    } else if c == '3' {
        Some(3)
    } else if c == '4' {
        Some(4)
    } else if c == '5' {
        Some(5)
    } else if c == '6' {
        Some(6)
    } else if c == '7' {
        Some(7)
    } else if c == '8' {
        Some(8)
    } else if c == '9' {
        Some(9)
    } else {
        None
    }
}

/// Digits only spell a number if every beginning of them does, and the
/// number is no smaller than what a beginning spells.
pub proof fn lemma_digits_grow(text: Seq<char>, cut: int)
    requires
        0 <= cut <= text.len(),
    ensures
        digits_value(text) is Some ==> digits_value(text.subrange(0, cut)) is Some
            && digits_value(text.subrange(0, cut))->0 <= digits_value(text)->0,
    decreases text.len() - cut,
{
    if cut == text.len() {
        assert(text.subrange(0, cut) =~= text);
    } else {
        lemma_digits_grow(text.drop_last(), cut);
        assert(text.drop_last().subrange(0, cut) =~= text.subrange(0, cut));
    }
}

/// Reads `text` as a number that is no greater than `max`.
pub fn parse_number(text: &Vec<char>, max: u64) -> (value: Option<u64>)
    ensures
        match value {
            Some(v) => parsed_number(text@, max as nat) == Some(v as nat),
            None => parsed_number(text@, max as nat) is None,
        },
{
    let len = text.len();
    let start: usize = if len > 0 && text[0] == '+' {
        1
    } else {
        0
    };
    if start == len {
        return None;
    }
    let ghost body = text@.subrange(start as int, len as int);
    assert(body =~= if start == 1 {
        text@.drop_first()
    } else {
        text@
    });
    let mut value: u64 = 0;
    let mut i: usize = start;
    assert(body.subrange(0, 0) =~= Seq::<char>::empty());
    while i < len
        invariant
            len == text.len(),
            start <= i <= len,
            body == text@.subrange(start as int, len as int),
            body.len() > 0,
            body == if text@.len() > 0 && text@[0] == '+' {
                text@.drop_first()
            } else {
                text@
            },
            digits_value(body.subrange(0, i - start)) == Some(value as nat),
            value <= max,
        decreases len - i,
    {
        let ghost seen = body.subrange(0, i - start + 1);
        assert(seen.drop_last() =~= body.subrange(0, i - start));
        assert(seen.last() == text@[i as int]);
        proof {
            lemma_digits_grow(body, i - start + 1);
        }
        match digit_of(text[i]) {
            Some(d) => {
                if value > (u64::MAX - d) / 10 {
                    return None;
                }
                value = value * 10 + d;
                if value > max {
                    return None;
                }
            },
            None => {
                return None;
            },
        }
        i = i + 1;
    }
    assert(body.subrange(0, len - start) =~= body);
    Some(value)
}

/// Reads `text` as a `usize`, as its decimal digits spell it.
pub fn parse_usize(text: &Vec<char>) -> (value: Option<usize>)
    ensures
        value == parsed_usize(text@),
{
    match parse_number(text, usize::MAX as u64) {
        Some(v) => Some(v as usize),
        None => None,
    }
}

/// Reads `text` as a `u64`, as its decimal digits spell it.
pub fn parse_u64(text: &Vec<char>) -> (value: Option<u64>)
    ensures
        value == parsed_u64(text@),
{
    parse_number(text, u64::MAX)
}

/// Whether `needle` stands in `hay` at place `at`.
pub open spec fn occurs_at(needle: Seq<char>, hay: Seq<char>, at: int) -> bool {
    0 <= at && at + needle.len() <= hay.len() && hay.subrange(at, at + needle.len()) == needle
}

/// Whether `needle` stands somewhere in `hay`. The empty text stands in
/// every text.
pub open spec fn is_substring(needle: Seq<char>, hay: Seq<char>) -> bool {
    exists|at: int| occurs_at(needle, hay, at)
}

/// Whether `needle` stands in `hay` at place `at`.
pub fn found_at(hay: &Vec<char>, needle: &Vec<char>, at: usize) -> (found: bool)
    requires
        at + needle.len() <= hay.len(),
    ensures
        found == occurs_at(needle@, hay@, at as int),
{
    let mut k: usize = 0;
    while k < needle.len()
        invariant
            k <= needle.len(),
            at + needle.len() <= hay.len(),
            forall|j: int| 0 <= j < k ==> hay@[at + j] == needle@[j],
        decreases needle.len() - k,
    {
        if hay[at + k] != needle[k] {
            assert(hay@.subrange(at as int, at + needle.len())[k as int] != needle@[k as int]);
            return false;
        }
        k = k + 1;
    }
    assert(hay@.subrange(at as int, at + needle.len()) =~= needle@);
    true
}

/// Whether `needle` stands somewhere in `hay`.
pub fn contains_chars(hay: &Vec<char>, needle: &Vec<char>) -> (found: bool)
    ensures
        found == is_substring(needle@, hay@),
{
    if needle.len() > hay.len() {
        assert forall|at: int| !occurs_at(needle@, hay@, at) by {}
        return false;
    }
    let last = hay.len() - needle.len();
    let mut at: usize = 0;
    while at < last
        invariant
            last == hay.len() - needle.len(),
            at <= last,
            forall|j: int| 0 <= j < at ==> !occurs_at(needle@, hay@, j),
        decreases last - at,
    {
        if found_at(hay, needle, at) {
            return true;
        }
        at = at + 1;
    }
    if found_at(hay, needle, last) {
        return true;
    }
    assert forall|j: int| !occurs_at(needle@, hay@, j) by {}
    false
}

/// How many of the words of `a` are among the words of `b`.
pub open spec fn overlap(a: Seq<Seq<char>>, b: Seq<Seq<char>>) -> nat
    decreases a.len(),
{
    if a.len() == 0 {
        0
    } else {
        overlap(a.drop_last(), b) + if b.contains(a.last()) {
            1nat
        } else {
            0nat
        }
    }
}

/// Whether `word` is among `list`.
pub fn has_word(list: &Vec<Vec<char>>, word: &Vec<char>) -> (found: bool)
    ensures
        found == texts(list@).contains(word@),
{
    let mut k: usize = 0;
    while k < list.len()
        invariant
            k <= list.len(),
            forall|j: int| 0 <= j < k ==> texts(list@)[j] != word@,
        decreases list.len() - k,
    {
        if same_chars(&list[k], word) {
            assert(texts(list@)[k as int] == word@);
            return true;
        }
        k = k + 1;
    }
    false
}

/// `text` without every occurrence of `pattern`, found from left to right.
/// The empty pattern removes nothing.
pub open spec fn without_all(text: Seq<char>, pattern: Seq<char>) -> Seq<char>
    decreases text.len(),
{
    if text.len() == 0 || pattern.len() == 0 {
        text
    } else if pattern.is_prefix_of(text) {
        without_all(text.subrange(pattern.len() as int, text.len() as int), pattern)
    } else {
        seq![text[0]] + without_all(text.drop_first(), pattern)
    }
}

/// `text` without the occurrences of `pattern` at its beginning.
pub open spec fn without_leading(text: Seq<char>, pattern: Seq<char>) -> Seq<char>
    decreases text.len(),
{
    if pattern.len() > 0 && pattern.is_prefix_of(text) {
        without_leading(text.subrange(pattern.len() as int, text.len() as int), pattern)
    } else {
        text
    }
}

/// `text` without the occurrences of `pattern` at its end.
pub open spec fn without_trailing(text: Seq<char>, pattern: Seq<char>) -> Seq<char>
    decreases text.len(),
{
    if pattern.len() > 0 && pattern.is_suffix_of(text) {
        without_trailing(text.subrange(0, text.len() - pattern.len()), pattern)
    } else {
        text
    }
}

/// Removes every occurrence of `pattern` from `text`.
pub fn remove_all(text: &Vec<char>, pattern: &Vec<char>) -> (rest: Vec<char>)
    ensures
        rest@ == without_all(text@, pattern@),
{
    let len = text.len();
    if pattern.len() == 0 {
        assert(text@.subrange(0, len as int) =~= text@);
        return slice_of(text, 0, len);
    }
    let mut rest: Vec<char> = Vec::new();
    let mut i: usize = 0;
    assert(text@.subrange(0, len as int) =~= text@);
    while i < len
        invariant
            len == text.len(),
            i <= len,
            pattern.len() > 0,
            without_all(text@, pattern@) == rest@ + without_all(
                text@.subrange(i as int, len as int),
                pattern@,
            ),
        decreases len - i,
    {
        let ghost tail = text@.subrange(i as int, len as int);
        if pattern.len() <= len - i && found_at(text, pattern, i) {
            assert(tail.subrange(0, pattern.len() as int) =~= text@.subrange(
                i as int,
                i + pattern.len(),
            ));
            assert(tail.subrange(pattern.len() as int, tail.len() as int) =~= text@.subrange(
                i + pattern.len(),
                len as int,
            ));
            i = i + pattern.len();
        } else {
            assert(!pattern@.is_prefix_of(tail)) by {
                if pattern.len() <= len - i {
                    assert(tail.subrange(0, pattern.len() as int) =~= text@.subrange(
                        i as int,
                        i + pattern.len(),
                    ));
                }
            }
            let ghost before = rest@;
            rest.push(text[i]);
            assert(tail[0] == text@[i as int]);
            assert(tail.drop_first() =~= text@.subrange(i + 1, len as int));
            assert(before + (seq![tail[0]] + without_all(tail.drop_first(), pattern@)) =~= rest@
                + without_all(tail.drop_first(), pattern@));
            i = i + 1;
        }
    }
    assert(rest@ + Seq::<char>::empty() =~= rest@);
    rest
}

/// Removes the occurrences of `pattern` at the beginning of `text`.
pub fn trim_leading(text: &Vec<char>, pattern: &Vec<char>) -> (rest: Vec<char>)
    ensures
        rest@ == without_leading(text@, pattern@),
{
    let len = text.len();
    let mut i: usize = 0;
    assert(text@.subrange(0, len as int) =~= text@);
    while pattern.len() > 0 && pattern.len() <= len - i && found_at(text, pattern, i)
        invariant
            len == text.len(),
            i <= len,
            without_leading(text@, pattern@) == without_leading(
                text@.subrange(i as int, len as int),
                pattern@,
            ),
        decreases len - i,
    {
        let ghost tail = text@.subrange(i as int, len as int);
        assert(tail.subrange(0, pattern.len() as int) =~= text@.subrange(
            i as int,
            i + pattern.len(),
        ));
        assert(tail.subrange(pattern.len() as int, tail.len() as int) =~= text@.subrange(
            i + pattern.len(),
            len as int,
        ));
        i = i + pattern.len();
    }
    proof {
        let tail = text@.subrange(i as int, len as int);
        if pattern.len() > 0 && pattern.len() <= len - i {
            assert(tail.subrange(0, pattern.len() as int) =~= text@.subrange(
                i as int,
                i + pattern.len(),
            ));
        }
    }
    slice_of(text, i, len)
}

/// Removes the occurrences of `pattern` at the end of `text`.
pub fn trim_trailing(text: &Vec<char>, pattern: &Vec<char>) -> (rest: Vec<char>)
    ensures
        rest@ == without_trailing(text@, pattern@),
{
    let mut end: usize = text.len();
    assert(text@.subrange(0, end as int) =~= text@);
    while pattern.len() > 0 && pattern.len() <= end && found_at(text, pattern, end - pattern.len())
        invariant
            end <= text.len(),
            without_trailing(text@, pattern@) == without_trailing(
                text@.subrange(0, end as int),
                pattern@,
            ),
        decreases end,
    {
        let ghost head = text@.subrange(0, end as int);
        assert(head.subrange(head.len() - pattern.len(), head.len() as int) =~= text@.subrange(
            end - pattern.len(),
            end as int,
        ));
        assert(head.subrange(0, head.len() - pattern.len()) =~= text@.subrange(
            0,
            end - pattern.len(),
        ));
        end = end - pattern.len();
    }
    proof {
        let head = text@.subrange(0, end as int);
        if pattern.len() > 0 && pattern.len() <= end {
            assert(head.subrange(head.len() - pattern.len(), head.len() as int) =~= text@.subrange(
                end - pattern.len(),
                end as int,
            ));
        }
    }
    slice_of(text, 0, end)
}

/// The last place at or before `index` at which `bytes` can be cut between
/// two characters.
pub open spec fn boundary_before(bytes: Seq<u8>, index: int) -> int
    decreases index,
{
    if index <= 0 || is_char_boundary(bytes, index) {
        index
    } else {
        boundary_before(bytes, index - 1)
    }
}

/// The longest beginning of `text` that ends between two characters and
/// takes no more than `limit` bytes in UTF-8.
pub open spec fn head_within(text: Seq<char>, limit: int) -> Seq<char> {
    decode_utf8(encode_utf8(text).subrange(0, boundary_before(encode_utf8(text), limit)))
}

/// The bytes that `text` takes in UTF-8.
pub fn byte_len(text: &str) -> (len: usize)
    ensures
        len == encode_utf8(text@).len(),
{
    text.as_bytes().len()
}

/// The longest beginning of `text` of no more than `limit` bytes.
pub fn head_of(text: &str, limit: usize) -> (head: Vec<char>)
    requires
        limit <= encode_utf8(text@).len(),
    ensures
        head@ == head_within(text@, limit as int),
{
    broadcast use vstd::utf8::group_utf8_lib;

    let mut end: usize = limit;
    while end > 0 && !text.is_char_boundary(end)
        invariant
            end <= limit,
            boundary_before(text.spec_bytes(), limit as int) == boundary_before(
                text.spec_bytes(),
                end as int,
            ),
        decreases end,
    {
        end = end - 1;
    }
    proof {
        if end == 0 {
            vstd::utf8::is_char_boundary_start_end_of_seq(text.spec_bytes());
        }
    }
    let (head, _) = text.split_at(end);
    proof {
        vstd::utf8::encode_utf8_decode_utf8(head@);
    }
    chars_of(head)
}

} // verus!
