//! Texts of the controls under a message.

use crate::music::Song;
use crate::text::{append_str, chars_of, decimal, push_decimal, slice_of, string_of};
use vstd::prelude::*;

verus! {

/// Most options that a menu may offer.
pub const MENU_LIMIT: usize = 25;

/// Most characters of a label or a description in a menu.
pub const LABEL_LIMIT: usize = 100;

/// `text` in no more than `max_chars` characters: as it is where it fits,
/// else cut so that three dots after it fill the room.
pub open spec fn shortened(text: Seq<char>, max_chars: nat) -> Seq<char> {
    if text.len() <= max_chars {
        text
    } else {
        text.subrange(0, max_chars - 3) + "..."@
    }
}

/// Shortens `s` to `max_chars` characters, the three dots at its end
/// included. A text that is too long needs room for the dots.
pub fn truncate_str(s: &str, max_chars: usize) -> (short: String)
    requires
        s@.len() <= max_chars || max_chars >= 3,
    ensures
        short@ == shortened(s@, max_chars as nat),
{
    let chars = chars_of(s);
    if chars.len() <= max_chars {
        s.to_owned()
    } else {
        let mut out = slice_of(&chars, 0, max_chars - 3);
        append_str(&mut out, "...");
        string_of(&out)
    }
}

/// Shortens `s` to `max_chars` characters where there is room for the three
/// dots, and returns `None` where a text that is too long leaves none.
pub fn try_truncate_str(s: &str, max_chars: usize) -> (short: Option<String>)
    ensures
        match short {
            Some(text) => (s@.len() <= max_chars || max_chars >= 3) && text@ == shortened(
                s@,
                max_chars as nat,
            ),
            None => s@.len() > max_chars && max_chars < 3,
        },
{
    if max_chars >= 3 || s.unicode_len() <= max_chars {
        Some(truncate_str(s, max_chars))
    } else {
        None
    }
}

/// How many of `len` waiting songs a menu offers.
pub fn menu_count(len: usize) -> (count: usize)
    ensures
        count == if len <= MENU_LIMIT {
            len
        } else {
            MENU_LIMIT
        },
{
    if len <= MENU_LIMIT {
        len
    } else {
        MENU_LIMIT
    }
}

/// The state of the three buttons that turn pages: whether going back and
/// going on are possible, the pages they lead to, and the page and the
/// number of pages that the label between them shows.
#[derive(Clone, Copy, Debug, PartialEq, Eq, Structural)]
pub struct PageButtons {
    pub prev_disabled: bool,
    pub next_disabled: bool,
    pub prev_page: usize,
    pub next_page: usize,
    pub shown_page: usize,
    pub shown_total: usize,
}

/// The buttons for page `current_page`, counted from 0, of `total_pages`.
/// Going back is off on the first page, going on is off on the last page
/// and where there are no pages; the label counts pages from 1 and shows at
/// least one page.
pub fn page_buttons(current_page: usize, total_pages: usize) -> (buttons: PageButtons)
    requires
        current_page < usize::MAX,
    ensures
        buttons.prev_disabled == (current_page == 0),
        buttons.next_disabled == (total_pages == 0 || current_page >= total_pages - 1),
        buttons.prev_page == if current_page == 0 {
            0
        } else {
            current_page - 1
        },
        buttons.next_page == current_page + 1,
        buttons.shown_page == current_page + 1,
        buttons.shown_total == if total_pages == 0 {
            1
        } else {
            total_pages as int
        },
{
    PageButtons {
        prev_disabled: current_page == 0,
        next_disabled: total_pages == 0 || current_page >= total_pages - 1,
        prev_page: if current_page == 0 {
            0
        } else {
            current_page - 1
        },
        next_page: current_page + 1,
        shown_page: current_page + 1,
        shown_total: if total_pages == 0 {
            1
        } else {
            total_pages
        },
    }
}

/// How a button looks.
#[derive(Clone, Copy, Debug, PartialEq, Eq, Structural)]
pub enum ButtonStyle {
    Primary,
    Secondary,
    Success,
    Danger,
}

/// A button under a message.
#[derive(Debug)]
pub struct Button {
    pub custom_id: String,
    pub label: String,
    pub emoji: Option<char>,
    pub style: ButtonStyle,
    pub disabled: bool,
}

/// One option of a menu.
#[derive(Debug)]
pub struct SelectOption {
    pub label: String,
    pub value: String,
    pub description: Option<String>,
}

/// A menu under a message.
#[derive(Debug)]
pub struct SelectMenu {
    pub custom_id: String,
    pub placeholder: String,
    pub options: Vec<SelectOption>,
}

/// One row of controls under a message.
#[derive(Debug)]
pub enum ActionRow {
    Buttons(Vec<Button>),
    SelectMenu(SelectMenu),
}

/// Whether `button` has exactly these properties.
pub open spec fn button_is(
    button: Button,
    custom_id: Seq<char>,
    label: Seq<char>,
    emoji: Option<char>,
    style: ButtonStyle,
    disabled: bool,
) -> bool {
    &&& button.custom_id@ == custom_id
    &&& button.label@ == label
    &&& button.emoji == emoji
    &&& button.style == style
    &&& button.disabled == disabled
}

/// Whether `option` has exactly these properties.
pub open spec fn option_is(
    option: SelectOption,
    label: Seq<char>,
    value: Seq<char>,
    description: Option<Seq<char>>,
) -> bool {
    &&& option.label@ == label
    &&& option.value@ == value
    &&& match description {
        Some(text) => option.description is Some && option.description->0@ == text,
        None => option.description is None,
    }
}

/// Whether `buttons` are the three buttons that steer the music: the first
/// resumes where playback is paused and pauses where it is not, the second
/// skips, the third stops; all three off where `disabled`.
pub open spec fn are_music_buttons(buttons: Seq<Button>, is_paused: bool, disabled: bool) -> bool {
    &&& buttons.len() == 3
    &&& if is_paused {
        button_is(buttons[0], "music_resume"@, "재개"@, Some('▶'), ButtonStyle::Success, disabled)
    } else {
        button_is(
            buttons[0],
            "music_pause"@,
            "일시정지"@,
            Some('⏸'),
            ButtonStyle::Primary,
            disabled,
        )
    }
    &&& button_is(buttons[1], "music_skip"@, "스킵"@, Some('⏭'), ButtonStyle::Secondary, disabled)
    &&& button_is(buttons[2], "music_stop"@, "정지"@, Some('⏹'), ButtonStyle::Danger, disabled)
}

/// A button with these properties.
pub fn button(
    custom_id: &str,
    label: &str,
    emoji: Option<char>,
    style: ButtonStyle,
    disabled: bool,
) -> (made: Button)
    ensures
        button_is(made, custom_id@, label@, emoji, style, disabled),
{
    Button { custom_id: custom_id.to_owned(), label: label.to_owned(), emoji, style, disabled }
}

/// The three buttons that steer the music, all of them on or all off.
pub fn steering_buttons(is_paused: bool, disabled: bool) -> (buttons: Vec<Button>)
    ensures
        are_music_buttons(buttons@, is_paused, disabled),
{
    let mut buttons: Vec<Button> = Vec::new();
    if is_paused {
        buttons.push(button("music_resume", "재개", Some('▶'), ButtonStyle::Success, disabled));
    } else {
        buttons.push(button("music_pause", "일시정지", Some('⏸'), ButtonStyle::Primary, disabled));
    }
    buttons.push(button("music_skip", "스킵", Some('⏭'), ButtonStyle::Secondary, disabled));
    buttons.push(button("music_stop", "정지", Some('⏹'), ButtonStyle::Danger, disabled));
    buttons
}

/// The row of buttons that steer the music while something plays.
pub fn music_buttons(is_paused: bool) -> (row: ActionRow)
    ensures
        row is Buttons,
        are_music_buttons(row->Buttons_0@, is_paused, false),
{
    ActionRow::Buttons(steering_buttons(is_paused, false))
}

/// The row of buttons that steer the music, all switched off.
pub fn music_buttons_disabled() -> (row: ActionRow)
    ensures
        row is Buttons,
        are_music_buttons(row->Buttons_0@, false, true),
{
    ActionRow::Buttons(steering_buttons(false, true))
}

/// What the menu says of the waiting song at place `index`, counted from
/// 0: its place, counted from 1, and its duration where it has one.
pub open spec fn place_text(index: nat, song: Song) -> Seq<char> {
    match song.duration {
        Some(duration) => decimal(index + 1) + "번째 · "@ + duration@,
        None => decimal(index + 1) + "번째"@,
    }
}

/// The value of the menu's option at place `index`.
pub open spec fn place_value(index: nat) -> Seq<char> {
    "queue_"@ + decimal(index)
}

/// The words on the closed menu: how many songs it offers, and of how many
/// where it cannot offer all.
pub open spec fn menu_title(len: nat) -> Seq<char> {
    if len > MENU_LIMIT {
        "대기열 ("@ + decimal(MENU_LIMIT as nat) + "/"@ + decimal(len) + "곡)"@
    } else {
        "대기열 ("@ + decimal(len) + "곡)"@
    }
}

/// Whether `menu` is the menu of the waiting songs `upcoming`: one option
/// for each of the first 25, with the title and the place of the song, both
/// shortened to 100 characters.
pub open spec fn is_queue_menu(menu: SelectMenu, upcoming: Seq<Song>) -> bool {
    &&& menu.custom_id@ == "music_queue_select"@
    &&& menu.placeholder@ == menu_title(upcoming.len())
    &&& menu.options@.len() == if upcoming.len() <= MENU_LIMIT {
        upcoming.len()
    } else {
        MENU_LIMIT as nat
    }
    &&& forall|i: int|
        0 <= i < menu.options@.len() ==> option_is(
            #[trigger] menu.options@[i],
            shortened(upcoming[i].title@, LABEL_LIMIT as nat),
            place_value(i as nat),
            Some(shortened(place_text(i as nat, upcoming[i]), LABEL_LIMIT as nat)),
        )
}

/// The characters of `text`, shortened to `max_chars`.
pub fn shorten(text: &Vec<char>, max_chars: usize) -> (short: String)
    requires
        max_chars >= 3,
    ensures
        short@ == shortened(text@, max_chars as nat),
{
    if text.len() <= max_chars {
        string_of(text)
    } else {
        let mut out = slice_of(text, 0, max_chars - 3);
        append_str(&mut out, "...");
        string_of(&out)
    }
}

/// The menu that lists the waiting songs.
pub fn queue_select_menu(upcoming: &Vec<Song>) -> (row: ActionRow)
    ensures
        row is SelectMenu,
        is_queue_menu(row->SelectMenu_0, upcoming@),
{
    let count = menu_count(upcoming.len());
    let mut options: Vec<SelectOption> = Vec::new();
    let mut i: usize = 0;
    while i < count
        invariant
            i <= count <= upcoming.len(),
            count <= MENU_LIMIT,
            options@.len() == i,
            forall|k: int|
                0 <= k < i ==> option_is(
                    #[trigger] options@[k],
                    shortened(upcoming@[k].title@, LABEL_LIMIT as nat),
                    place_value(k as nat),
                    Some(shortened(place_text(k as nat, upcoming@[k]), LABEL_LIMIT as nat)),
                ),
        decreases count - i,
    {
        let song = &upcoming[i];
        let label = truncate_str(song.title.as_str(), LABEL_LIMIT);
        let mut place: Vec<char> = Vec::new();
        push_decimal(&mut place, (i + 1) as u64);
        match &song.duration {
            Some(duration) => {
                append_str(&mut place, "번째 · ");
                append_str(&mut place, duration.as_str());
            },
            None => {
                append_str(&mut place, "번째");
            },
        }
        assert(place@ =~= place_text(i as nat, *song));
        let mut value: Vec<char> = Vec::new();
        append_str(&mut value, "queue_");
        push_decimal(&mut value, i as u64);
        assert(value@ =~= place_value(i as nat));
        let option = SelectOption {
            label,
            value: string_of(&value),
            description: Some(shorten(&place, LABEL_LIMIT)),
        };
        options.push(option);
        i = i + 1;
    }
    let mut title: Vec<char> = Vec::new();
    append_str(&mut title, "대기열 (");
    push_decimal(&mut title, count as u64);
    if upcoming.len() > MENU_LIMIT {
        append_str(&mut title, "/");
        push_decimal(&mut title, upcoming.len() as u64);
    }
    append_str(&mut title, "곡)");
    assert(title@ =~= menu_title(upcoming@.len()));
    ActionRow::SelectMenu(
        SelectMenu {
            custom_id: "music_queue_select".to_owned(),
            placeholder: string_of(&title),
            options,
        },
    )
}

/// The controls under a message about the music: the buttons, and the menu
/// of the waiting songs where any wait.
pub fn music_components(is_paused: bool, upcoming: &Vec<Song>) -> (rows: Vec<ActionRow>)
    ensures
        rows@.len() == if upcoming@.len() == 0 {
            1nat
        } else {
            2nat
        },
        rows@[0] is Buttons,
        are_music_buttons(rows@[0]->Buttons_0@, is_paused, false),
        upcoming@.len() > 0 ==> rows@[1] is SelectMenu && is_queue_menu(
            rows@[1]->SelectMenu_0,
            upcoming@,
        ),
{
    let mut rows: Vec<ActionRow> = Vec::new();
    rows.push(music_buttons(is_paused));
    if upcoming.len() > 0 {
        rows.push(queue_select_menu(upcoming));
    }
    rows
}

/// The controls under a message when nothing plays: the buttons, switched
/// off.
pub fn music_components_disabled() -> (rows: Vec<ActionRow>)
    ensures
        rows@.len() == 1,
        rows@[0] is Buttons,
        are_music_buttons(rows@[0]->Buttons_0@, false, true),
{
    let mut rows: Vec<ActionRow> = Vec::new();
    rows.push(music_buttons_disabled());
    rows
}

/// The identifier of a button of the command `cmd`: what it does, and the
/// page or the item it is about.
pub open spec fn control_id(cmd: Seq<char>, action: Seq<char>, target: Seq<char>) -> Seq<char> {
    "tarkov_"@ + cmd + "_"@ + action + "_"@ + target
}

/// The label between the buttons that turn pages.
pub open spec fn page_label(shown_page: nat, shown_total: nat) -> Seq<char> {
    decimal(shown_page) + "/"@ + decimal(shown_total)
}

/// Whether `buttons` are the three buttons that turn the pages of the
/// command `cmd`, on page `current_page`, counted from 0, of `total_pages`.
pub open spec fn are_page_buttons(
    buttons: Seq<Button>,
    cmd: Seq<char>,
    current_page: nat,
    total_pages: nat,
) -> bool {
    &&& buttons.len() == 3
    &&& button_is(
        buttons[0],
        control_id(
            cmd,
            "prev"@,
            decimal(
                if current_page == 0 {
                    0
                } else {
                    (current_page - 1) as nat
                },
            ),
        ),
        "<< 이전"@,
        None,
        ButtonStyle::Secondary,
        current_page == 0,
    )
    &&& button_is(
        buttons[1],
        control_id(cmd, "page"@, decimal(current_page)),
        page_label(
            current_page + 1,
            if total_pages == 0 {
                1
            } else {
                total_pages
            },
        ),
        None,
        ButtonStyle::Secondary,
        true,
    )
    &&& button_is(
        buttons[2],
        control_id(cmd, "next"@, decimal(current_page + 1)),
        "다음 >>"@,
        None,
        ButtonStyle::Secondary,
        total_pages == 0 || current_page >= total_pages - 1,
    )
}

/// The identifier of a button of the command `cmd`.
pub fn make_control_id(cmd: &str, action: &str, target: &Vec<char>) -> (id: String)
    ensures
        id@ == control_id(cmd@, action@, target@),
{
    let mut out: Vec<char> = Vec::new();
    append_str(&mut out, "tarkov_");
    append_str(&mut out, cmd);
    append_str(&mut out, "_");
    append_str(&mut out, action);
    append_str(&mut out, "_");
    crate::text::append_chars(&mut out, target);
    assert(out@ =~= control_id(cmd@, action@, target@));
    string_of(&out)
}

/// The digits of `n`.
pub fn digits_of(n: usize) -> (digits: Vec<char>)
    ensures
        digits@ == decimal(n as nat),
{
    let mut out: Vec<char> = Vec::new();
    push_decimal(&mut out, n as u64);
    assert(out@ =~= decimal(n as nat));
    out
}

/// The row of buttons that turn the pages of the command `cmd`: back, the
/// page shown, and on. Going back is off on the first page and going on is
/// off on the last; the label in the middle is never a button to press.
pub fn pagination_row(cmd: &str, current_page: usize, total_pages: usize) -> (row: ActionRow)
    requires
        current_page < usize::MAX,
    ensures
        row is Buttons,
        are_page_buttons(row->Buttons_0@, cmd@, current_page as nat, total_pages as nat),
{
    let state = page_buttons(current_page, total_pages);
    let mut label: Vec<char> = Vec::new();
    push_decimal(&mut label, state.shown_page as u64);
    append_str(&mut label, "/");
    push_decimal(&mut label, state.shown_total as u64);
    assert(label@ =~= page_label(state.shown_page as nat, state.shown_total as nat));
    let mut buttons: Vec<Button> = Vec::new();
    buttons.push(
        Button {
            custom_id: make_control_id(cmd, "prev", &digits_of(state.prev_page)),
            label: "<< 이전".to_owned(),
            emoji: None,
            style: ButtonStyle::Secondary,
            disabled: state.prev_disabled,
        },
    );
    buttons.push(
        Button {
            custom_id: make_control_id(cmd, "page", &digits_of(current_page)),
            label: string_of(&label),
            emoji: None,
            style: ButtonStyle::Secondary,
            disabled: true,
        },
    );
    buttons.push(
        Button {
            custom_id: make_control_id(cmd, "next", &digits_of(state.next_page)),
            label: "다음 >>".to_owned(),
            emoji: None,
            style: ButtonStyle::Secondary,
            disabled: state.next_disabled,
        },
    );
    ActionRow::Buttons(buttons)
}

/// Whether `menu` offers the first 25 of `options`, each given as a value,
/// a label and a description; an empty description is left out.
pub open spec fn is_item_menu(
    menu: SelectMenu,
    custom_id: Seq<char>,
    placeholder: Seq<char>,
    options: Seq<(String, String, String)>,
) -> bool {
    &&& menu.custom_id@ == custom_id
    &&& menu.placeholder@ == placeholder
    &&& menu.options@.len() == if options.len() <= MENU_LIMIT {
        options.len()
    } else {
        MENU_LIMIT as nat
    }
    &&& forall|i: int|
        0 <= i < menu.options@.len() ==> option_is(
            #[trigger] menu.options@[i],
            options[i].1@,
            options[i].0@,
            if options[i].2@.len() == 0 {
                None
            } else {
                Some(options[i].2@)
            },
        )
}

/// A menu of the first 25 of `options`, each a value, a label and a
/// description.
pub fn item_select_menu(custom_id: &str, placeholder: &str, options: Vec<(String, String, String)>)
    -> (row: ActionRow)
    ensures
        row is SelectMenu,
        is_item_menu(row->SelectMenu_0, custom_id@, placeholder@, options@),
{
    let count = menu_count(options.len());
    let mut menu_options: Vec<SelectOption> = Vec::new();
    let mut i: usize = 0;
    while i < count
        invariant
            i <= count <= options.len(),
            menu_options@.len() == i,
            forall|k: int|
                0 <= k < i ==> option_is(
                    #[trigger] menu_options@[k],
                    options@[k].1@,
                    options@[k].0@,
                    if options@[k].2@.len() == 0 {
                        None
                    } else {
                        Some(options@[k].2@)
                    },
                ),
        decreases count - i,
    {
        let description = if options[i].2.as_str().unicode_len() == 0 {
            None
        } else {
            Some(options[i].2.clone())
        };
        menu_options.push(
            SelectOption { label: options[i].1.clone(), value: options[i].0.clone(), description },
        );
        i = i + 1;
    }
    ActionRow::SelectMenu(
        SelectMenu {
            custom_id: custom_id.to_owned(),
            placeholder: placeholder.to_owned(),
            options: menu_options,
        },
    )
}

/// Whether `buttons` switch between `tabs`, each given as the end of its
/// identifier, its label and whether it is shown now.
pub open spec fn are_tab_buttons(
    buttons: Seq<Button>,
    cmd: Seq<char>,
    item_id: Seq<char>,
    tabs: Seq<(&str, &str, bool)>,
) -> bool {
    &&& buttons.len() == tabs.len()
    &&& forall|i: int|
        0 <= i < tabs.len() ==> button_is(
            #[trigger] buttons[i],
            control_id(cmd, tabs[i].0@, item_id),
            tabs[i].1@,
            None,
            if tabs[i].2 {
                ButtonStyle::Primary
            } else {
                ButtonStyle::Secondary
            },
            false,
        )
}

/// The row of buttons that switch between the tabs of an item's card. The
/// tab that is shown stands out.
pub fn tab_buttons(cmd: &str, item_id: &str, tabs: &Vec<(&str, &str, bool)>) -> (row: ActionRow)
    ensures
        row is Buttons,
        are_tab_buttons(row->Buttons_0@, cmd@, item_id@, tabs@),
{
    let target = chars_of(item_id);
    let mut buttons: Vec<Button> = Vec::new();
    let mut i: usize = 0;
    while i < tabs.len()
        invariant
            i <= tabs.len(),
            target@ == item_id@,
            buttons@.len() == i,
            forall|k: int|
                0 <= k < i ==> button_is(
                    #[trigger] buttons@[k],
                    control_id(cmd@, tabs@[k].0@, item_id@),
                    tabs@[k].1@,
                    None,
                    if tabs@[k].2 {
                        ButtonStyle::Primary
                    } else {
                        ButtonStyle::Secondary
                    },
                    false,
                ),
        decreases tabs.len() - i,
    {
        let tab = &tabs[i];
        buttons.push(
            Button {
                custom_id: make_control_id(cmd, tab.0, &target),
                label: tab.1.to_owned(),
                emoji: None,
                style: if tab.2 {
                    ButtonStyle::Primary
                } else {
                    ButtonStyle::Secondary
                },
                disabled: false,
            },
        );
        i = i + 1;
    }
    ActionRow::Buttons(buttons)
}

} // verus!
