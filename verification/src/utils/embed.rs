//! The cards that show the music: what plays, what was added, what waits,
//! and what went wrong.

use crate::music::Song;
use crate::text::{append_str, decimal, push_decimal, string_of};
use vstd::prelude::*;

verus! {

/// Songs on one page of the list.
pub const SONGS_PER_PAGE: usize = 10;

/// One page of the list: which page is shown, counted from 1, of how many,
/// and the songs on it, from `start` up to `end`.
#[derive(Clone, Copy, Debug, PartialEq, Eq, Structural)]
pub struct QueuePage {
    pub page: usize,
    pub total_pages: usize,
    pub start: usize,
    pub end: usize,
}

/// The pages that `len` songs fill: at least one.
pub open spec fn pages_for(len: nat) -> nat {
    if len == 0 {
        1
    } else {
        ((len + SONGS_PER_PAGE - 1) / SONGS_PER_PAGE as int) as nat
    }
}

/// The page of a list of `len` songs that a request for `page`, counted
/// from 1, shows, as the page, the number of pages, and the places from
/// which and up to which songs are on it. Page 0 shows the first page, a
/// page past the last one shows the last one.
pub open spec fn queue_page_of(len: nat, page: nat) -> (nat, nat, nat, nat) {
    let total = pages_for(len);
    let shown = if page < 1 {
        1
    } else if page > total {
        total
    } else {
        page
    };
    let start = if len == 0 {
        0
    } else {
        ((shown - 1) * SONGS_PER_PAGE) as nat
    };
    let end = if start + SONGS_PER_PAGE <= len {
        (start + SONGS_PER_PAGE) as nat
    } else {
        len
    };
    (shown, total, start, end)
}

/// The page of a list of `len` songs that a request for `page`, counted
/// from 1, shows.
pub fn queue_page(len: usize, page: usize) -> (shown: QueuePage)
    ensures
        (shown.page as nat, shown.total_pages as nat, shown.start as nat, shown.end as nat)
            == queue_page_of(len as nat, page as nat),
        shown.start <= shown.end <= len,
        shown.page >= 1,
{
    let total_pages = if len == 0 {
        1
    } else {
        (len - 1) / SONGS_PER_PAGE + 1
    };
    let page = if page < 1 {
        1
    } else if page > total_pages {
        total_pages
    } else {
        page
    };
    let start = if len == 0 {
        0
    } else {
        (page - 1) * SONGS_PER_PAGE
    };
    let end = if len - start >= SONGS_PER_PAGE {
        start + SONGS_PER_PAGE
    } else {
        len
    };
    QueuePage { page, total_pages, start, end }
}

/// Colour of the card of the song that plays.
pub const PLAYING_COLOR: u32 = 0x1DB954;

/// Colour of the cards about the queue.
pub const QUEUE_COLOR: u32 = 0x5865F2;

/// Colour of the card of an error.
pub const ERROR_COLOR: u32 = 0xED4245;

/// One named value on a card.
#[derive(Debug)]
pub struct EmbedField {
    pub name: String,
    pub value: String,
    pub inline: bool,
}

/// A card: what is shown to users in place of plain text.
#[derive(Debug)]
pub struct Embed {
    pub title: Option<String>,
    pub description: Option<String>,
    pub color: Option<u32>,
    pub fields: Vec<EmbedField>,
    pub footer: Option<String>,
    pub thumbnail: Option<String>,
}

/// Whether `text` is there and reads `expected`.
pub open spec fn reads(text: Option<String>, expected: Seq<char>) -> bool {
    text is Some && text->0@ == expected
}

/// Whether `field` has exactly these properties.
pub open spec fn field_is(field: EmbedField, name: Seq<char>, value: Seq<char>, inline: bool)
    -> bool {
    field.name@ == name && field.value@ == value && field.inline == inline
}

/// The title of `song` as a link to it.
pub open spec fn song_link(song: Song) -> Seq<char> {
    "["@ + song.title@ + "]("@ + song.url@ + ")"@
}

/// The duration of `song` as it follows a link: nothing where it has none.
pub open spec fn duration_mark(song: Song) -> Seq<char> {
    match song.duration {
        Some(duration) => " `"@ + duration@ + "`"@,
        None => Seq::empty(),
    }
}

/// The line of the waiting song with number `number`.
pub open spec fn queue_line(number: nat, song: Song) -> Seq<char> {
    "**"@ + decimal(number) + ".** "@ + song_link(song) + duration_mark(song) + "\n"@
}

/// The lines of the waiting songs from place `start` up to place `end`,
/// numbered by their places counted from 1.
pub open spec fn queue_lines(songs: Seq<Song>, start: nat, end: nat) -> Seq<char>
    decreases end,
{
    if end <= start {
        Seq::empty()
    } else {
        queue_lines(songs, start, (end - 1) as nat) + queue_line(end, songs[end - 1])
    }
}

/// What the list says of the current song: nothing where there is none.
pub open spec fn current_line(current: Option<Song>) -> Seq<char> {
    match current {
        Some(song) => "**현재 재생:** "@ + song_link(song) + duration_mark(song) + "\n\n"@,
        None => Seq::empty(),
    }
}

/// The text of the list of waiting songs on the page from `start` to `end`.
pub open spec fn queue_text(current: Option<Song>, songs: Seq<Song>, start: nat, end: nat) -> Seq<
    char,
> {
    current_line(current) + if songs.len() == 0 {
        "큐가 비어있습니다."@
    } else {
        queue_lines(songs, start, end)
    }
}

/// The heading of the list of waiting songs.
pub open spec fn queue_title(page: nat, total_pages: nat) -> Seq<char> {
    "📋 재생 목록 ("@ + decimal(page) + "/"@ + decimal(total_pages) + ")"@
}

/// The foot of the list of waiting songs.
pub open spec fn queue_footer(len: nat) -> Seq<char> {
    "총 "@ + decimal(len) + " 곡"@
}

/// Appends the title of `song` as a link to it.
pub fn push_song_link(out: &mut Vec<char>, song: &Song)
    ensures
        final(out)@ == old(out)@ + song_link(*song),
{
    append_str(out, "[");
    append_str(out, song.title.as_str());
    append_str(out, "](");
    append_str(out, song.url.as_str());
    append_str(out, ")");
    assert(out@ =~= old(out)@ + song_link(*song));
}

/// Appends the duration of `song` as it follows a link.
pub fn push_duration_mark(out: &mut Vec<char>, song: &Song)
    ensures
        final(out)@ == old(out)@ + duration_mark(*song),
{
    match &song.duration {
        Some(duration) => {
            append_str(out, " `");
            append_str(out, duration.as_str());
            append_str(out, "`");
        },
        None => {},
    }
    assert(out@ =~= old(out)@ + duration_mark(*song));
}

/// A field with these properties.
pub fn field(name: &str, value: &str, inline: bool) -> (made: EmbedField)
    ensures
        field_is(made, name@, value@, inline),
{
    EmbedField { name: name.to_owned(), value: value.to_owned(), inline }
}

/// The fields of a card about `song`: its duration, where it has one, and
/// then the field `last_name` with `last_value`.
pub open spec fn are_song_fields(
    fields: Seq<EmbedField>,
    song: Song,
    last_name: Seq<char>,
    last_value: Seq<char>,
) -> bool {
    match song.duration {
        Some(duration) => fields.len() == 2 && field_is(fields[0], "길이"@, duration@, true)
            && field_is(fields[1], last_name, last_value, true),
        None => fields.len() == 1 && field_is(fields[0], last_name, last_value, true),
    }
}

/// The fields of a card about `song`.
pub fn song_fields(song: &Song, last_name: &str, last_value: &str) -> (fields: Vec<EmbedField>)
    ensures
        are_song_fields(fields@, *song, last_name@, last_value@),
{
    let mut fields: Vec<EmbedField> = Vec::new();
    if let Some(duration) = &song.duration {
        fields.push(field("길이", duration.as_str(), true));
    }
    fields.push(field(last_name, last_value, true));
    fields
}

/// The card of the song that plays: a link to it, its duration, and who
/// asked for it.
pub fn now_playing(song: &Song) -> (embed: Embed)
    ensures
        reads(embed.title, "🎵 현재 재생 중"@),
        reads(embed.description, song_link(*song)),
        embed.color == Some(PLAYING_COLOR),
        are_song_fields(embed.fields@, *song, "요청"@, song.requester@),
        embed.footer is None,
        embed.thumbnail is None,
{
    let mut link: Vec<char> = Vec::new();
    push_song_link(&mut link, song);
    assert(link@ =~= song_link(*song));
    Embed {
        title: Some("🎵 현재 재생 중".to_owned()),
        description: Some(string_of(&link)),
        color: Some(PLAYING_COLOR),
        fields: song_fields(song, "요청", song.requester.as_str()),
        footer: None,
        thumbnail: None,
    }
}

/// The card of a song that was added at `position`.
pub fn added_to_queue(song: &Song, position: usize) -> (embed: Embed)
    ensures
        reads(embed.title, "✅ 큐에 추가됨"@),
        reads(embed.description, song_link(*song)),
        embed.color == Some(QUEUE_COLOR),
        are_song_fields(embed.fields@, *song, "위치"@, "#"@ + decimal(position as nat)),
        embed.footer is None,
        embed.thumbnail is None,
{
    let mut link: Vec<char> = Vec::new();
    push_song_link(&mut link, song);
    assert(link@ =~= song_link(*song));
    let mut place: Vec<char> = Vec::new();
    append_str(&mut place, "#");
    push_decimal(&mut place, position as u64);
    assert(place@ =~= "#"@ + decimal(position as nat));
    let place_text = string_of(&place);
    Embed {
        title: Some("✅ 큐에 추가됨".to_owned()),
        description: Some(string_of(&link)),
        color: Some(QUEUE_COLOR),
        fields: song_fields(song, "위치", place_text.as_str()),
        footer: None,
        thumbnail: None,
    }
}

/// The card of the list of waiting songs: the current song, the songs of
/// the page asked for, the page and the number of pages in the heading, and
/// the number of waiting songs at the foot.
pub fn queue_list(current: Option<&Song>, songs: &Vec<Song>, page: usize) -> (embed: Embed)
    ensures
        reads(
            embed.title,
            queue_title(
                queue_page_of(songs@.len(), page as nat).0,
                queue_page_of(songs@.len(), page as nat).1,
            ),
        ),
        reads(
            embed.description,
            queue_text(
                match current {
                    Some(song) => Some(*song),
                    None => None,
                },
                songs@,
                queue_page_of(songs@.len(), page as nat).2,
                queue_page_of(songs@.len(), page as nat).3,
            ),
        ),
        embed.color == Some(QUEUE_COLOR),
        embed.fields@.len() == 0,
        reads(embed.footer, queue_footer(songs@.len())),
        embed.thumbnail is None,
{
    let shown = queue_page(songs.len(), page);
    let mut text: Vec<char> = Vec::new();
    if let Some(song) = current {
        append_str(&mut text, "**현재 재생:** ");
        push_song_link(&mut text, song);
        push_duration_mark(&mut text, song);
        append_str(&mut text, "\n\n");
    }
    let ghost head = text@;
    assert(head =~= current_line(
        match current {
            Some(song) => Some(*song),
            None => None,
        },
    ));
    if songs.len() == 0 {
        append_str(&mut text, "큐가 비어있습니다.");
    } else {
        let mut i: usize = shown.start;
        assert(head + queue_lines(songs@, shown.start as nat, shown.start as nat) =~= head);
        while i < shown.end
            invariant
                shown.start <= i <= shown.end <= songs.len(),
                text@ == head + queue_lines(songs@, shown.start as nat, i as nat),
            decreases shown.end - i,
        {
            let ghost before = text@;
            append_str(&mut text, "**");
            push_decimal(&mut text, (i + 1) as u64);
            append_str(&mut text, ".** ");
            push_song_link(&mut text, &songs[i]);
            push_duration_mark(&mut text, &songs[i]);
            append_str(&mut text, "\n");
            assert(text@ =~= before + queue_line((i + 1) as nat, songs@[i as int]));
            i = i + 1;
            assert(text@ =~= head + queue_lines(songs@, shown.start as nat, i as nat));
        }
    }
    let mut title: Vec<char> = Vec::new();
    append_str(&mut title, "📋 재생 목록 (");
    push_decimal(&mut title, shown.page as u64);
    append_str(&mut title, "/");
    push_decimal(&mut title, shown.total_pages as u64);
    append_str(&mut title, ")");
    assert(title@ =~= queue_title(shown.page as nat, shown.total_pages as nat));
    let mut footer: Vec<char> = Vec::new();
    append_str(&mut footer, "총 ");
    push_decimal(&mut footer, songs.len() as u64);
    append_str(&mut footer, " 곡");
    assert(footer@ =~= queue_footer(songs@.len()));
    Embed {
        title: Some(string_of(&title)),
        description: Some(string_of(&text)),
        color: Some(QUEUE_COLOR),
        fields: Vec::new(),
        footer: Some(string_of(&footer)),
        thumbnail: None,
    }
}

/// The card of an error with the given message.
pub fn error(message: &str) -> (embed: Embed)
    ensures
        reads(embed.title, "❌ 오류"@),
        reads(embed.description, message@),
        embed.color == Some(ERROR_COLOR),
        embed.fields@.len() == 0,
        embed.footer is None,
        embed.thumbnail is None,
{
    Embed {
        title: Some("❌ 오류".to_owned()),
        description: Some(message.to_owned()),
        color: Some(ERROR_COLOR),
        fields: Vec::new(),
        footer: None,
        thumbnail: None,
    }
}

} // verus!
