//! The buttons and the menu under a message about the music: which
//! control was used, who may use it, and what the message shows after.

use crate::commands::NOTHING_PLAYING;
use crate::music::Song;
use crate::text::str_eq;
use crate::utils::components::{
    are_music_buttons, is_queue_menu, music_components, music_components_disabled, ActionRow,
};
use crate::utils::embed::{
    are_song_fields, error, now_playing, reads, song_link, Embed, ERROR_COLOR, PLAYING_COLOR,
    QUEUE_COLOR,
};
use vstd::prelude::*;

verus! {

/// The words for a bot that is in no voice channel.
pub const BOT_NOT_CONNECTED: &'static str = "봇이 음성 채널에 없습니다.";

/// The words for a user who is not in the bot's voice channel.
pub const NOT_SAME_CHANNEL: &'static str = "봇과 같은 음성 채널에 있어야 합니다.";

/// A control under a message about the music.
#[derive(Clone, Copy, Debug, PartialEq, Eq, Structural)]
pub enum MusicControl {
    Pause,
    Resume,
    Skip,
    Stop,
    QueueSelect,
}

impl MusicControl {
    /// The identifier of the control.
    pub open spec fn id_text(self) -> Seq<char> {
        match self {
            MusicControl::Pause => "music_pause"@,
            MusicControl::Resume => "music_resume"@,
            MusicControl::Skip => "music_skip"@,
            MusicControl::Stop => "music_stop"@,
            MusicControl::QueueSelect => "music_queue_select"@,
        }
    }
}

/// The control with the identifier `custom_id`, if it is one of the
/// music's.
pub fn parse_control(custom_id: &str) -> (control: Option<MusicControl>)
    ensures
        match control {
            Some(found) => found.id_text() == custom_id@,
            None => forall|any: MusicControl| any.id_text() != custom_id@,
        },
{
    if str_eq(custom_id, "music_pause") {
        Some(MusicControl::Pause)
    } else if str_eq(custom_id, "music_resume") {
        Some(MusicControl::Resume)
    } else if str_eq(custom_id, "music_skip") {
        Some(MusicControl::Skip)
    } else if str_eq(custom_id, "music_stop") {
        Some(MusicControl::Stop)
    } else if str_eq(custom_id, "music_queue_select") {
        Some(MusicControl::QueueSelect)
    } else {
        None
    }
}

/// Whether a user may use the controls: the bot is in a voice channel and
/// the user is in the same one.
pub fn user_in_bot_channel(bot_channel: Option<u64>, user_channel: Option<u64>) -> (allowed: bool)
    ensures
        allowed == (bot_channel is Some && user_channel == bot_channel),
{
    match bot_channel {
        Some(bot) => match user_channel {
            Some(user) => user == bot,
            None => false,
        },
        None => false,
    }
}

/// What a message shows: a card, and the controls under it.
pub struct MessageView {
    pub embed: Embed,
    pub components: Vec<ActionRow>,
}

/// Whether `rows` are the controls while something may play: the buttons,
/// and the menu of the waiting songs where any wait.
pub open spec fn are_live_controls(rows: Seq<ActionRow>, is_paused: bool, upcoming: Seq<Song>)
    -> bool {
    &&& rows.len() == if upcoming.len() == 0 {
        1nat
    } else {
        2nat
    }
    &&& rows[0] is Buttons
    &&& are_music_buttons(rows[0]->Buttons_0@, is_paused, false)
    &&& (upcoming.len() > 0 ==> rows[1] is SelectMenu && is_queue_menu(
        rows[1]->SelectMenu_0,
        upcoming,
    ))
}

/// Whether `rows` are the controls when nothing plays: the buttons,
/// switched off.
pub open spec fn are_dead_controls(rows: Seq<ActionRow>) -> bool {
    &&& rows.len() == 1
    &&& rows[0] is Buttons
    &&& are_music_buttons(rows[0]->Buttons_0@, false, true)
}

/// Whether `embed` is the card of the song `song` under the heading
/// `title`, or, without a song, the card of the error that nothing plays.
pub open spec fn is_song_card(embed: Embed, current: Option<Song>, title: Seq<char>) -> bool {
    match current {
        Some(song) => {
            &&& reads(embed.title, title)
            &&& reads(embed.description, song_link(song))
            &&& embed.color == Some(PLAYING_COLOR)
            &&& are_song_fields(embed.fields@, song, "요청"@, song.requester@)
            &&& embed.footer is None
            &&& embed.thumbnail is None
        },
        None => {
            &&& reads(embed.title, "❌ 오류"@)
            &&& reads(embed.description, NOTHING_PLAYING@)
            &&& embed.color == Some(ERROR_COLOR)
            &&& embed.fields@.len() == 0
            &&& embed.footer is None
            &&& embed.thumbnail is None
        },
    }
}

/// The card of the current song, under the heading of a pause where
/// `is_paused`; without a song, the card of the error that nothing plays.
pub fn song_card(current: Option<&Song>, is_paused: bool) -> (embed: Embed)
    ensures
        is_song_card(
            embed,
            match current {
                Some(song) => Some(*song),
                None => None,
            },
            if is_paused {
                "⏸️ 일시정지"@
            } else {
                "🎵 현재 재생 중"@
            },
        ),
{
    match current {
        Some(song) => {
            let mut embed = now_playing(song);
            if is_paused {
                embed.title = Some("⏸️ 일시정지".to_owned());
            }
            embed
        },
        None => error(NOTHING_PLAYING),
    }
}

/// What the message shows after pausing, resuming or choosing from the
/// menu: the current song, under the heading of a pause where playback is
/// paused, and the controls with the button that fits.
pub fn playing_view(current: Option<&Song>, upcoming: &Vec<Song>, is_paused: bool) -> (view: MessageView)
    ensures
        is_song_card(
            view.embed,
            match current {
                Some(song) => Some(*song),
                None => None,
            },
            if is_paused {
                "⏸️ 일시정지"@
            } else {
                "🎵 현재 재생 중"@
            },
        ),
        are_live_controls(view.components@, is_paused, upcoming@),
{
    MessageView { embed: song_card(current, is_paused), components: music_components(is_paused, upcoming) }
}

/// What the message shows after a skip: the song that plays now with the
/// controls, or, where nothing is left, that the queue is empty, with the
/// controls switched off.
pub fn skipped_view(next: Option<&Song>, upcoming: &Vec<Song>) -> (view: MessageView)
    ensures
        match next {
            Some(song) => is_song_card(view.embed, Some(*song), "🎵 현재 재생 중"@)
                && are_live_controls(view.components@, false, upcoming@),
            None => reads(view.embed.title, "⏭️ 스킵 완료"@) && reads(
                view.embed.description,
                "큐가 비어있습니다."@,
            ) && view.embed.color == Some(QUEUE_COLOR) && view.embed.fields@.len() == 0
                && view.embed.footer is None && view.embed.thumbnail is None
                && are_dead_controls(view.components@),
        },
{
    match next {
        Some(song) => MessageView {
            embed: now_playing(song),
            components: music_components(false, upcoming),
        },
        None => MessageView {
            embed: Embed {
                title: Some("⏭️ 스킵 완료".to_owned()),
                description: Some("큐가 비어있습니다.".to_owned()),
                color: Some(QUEUE_COLOR),
                fields: Vec::new(),
                footer: None,
                thumbnail: None,
            },
            components: music_components_disabled(),
        },
    }
}

/// What the message shows after a stop: that playback stopped, with the
/// controls switched off.
pub fn stopped_view() -> (view: MessageView)
    ensures
        reads(view.embed.title, "⏹️ 재생 중지"@),
        reads(view.embed.description, "재생을 중지하고 퇴장합니다."@),
        view.embed.color == Some(ERROR_COLOR),
        view.embed.fields@.len() == 0,
        view.embed.footer is None,
        view.embed.thumbnail is None,
        are_dead_controls(view.components@),
{
    MessageView {
        embed: Embed {
            title: Some("⏹️ 재생 중지".to_owned()),
            description: Some("재생을 중지하고 퇴장합니다.".to_owned()),
            color: Some(ERROR_COLOR),
            fields: Vec::new(),
            footer: None,
            thumbnail: None,
        },
        components: music_components_disabled(),
    }
}

/// What the message shows where a skip finds no voice session: the error
/// that nothing plays, with the controls switched off.
pub fn idle_view() -> (view: MessageView)
    ensures
        is_song_card(view.embed, None, Seq::empty()),
        are_dead_controls(view.components@),
{
    MessageView { embed: error(NOTHING_PLAYING), components: music_components_disabled() }
}

} // verus!
