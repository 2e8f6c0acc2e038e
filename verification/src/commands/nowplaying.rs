//! The command that shows the current song, with the repeat mode and the
//! volume.

use crate::music::{LoopMode, Song};
use crate::text::{append_str, decimal, push_decimal, string_of};
use crate::utils::embed::{
    are_song_fields, field_is, now_playing, reads, song_link, Embed, EmbedField, PLAYING_COLOR,
};
use vstd::prelude::*;

verus! {

/// The card of the song that plays, with the repeat mode and the volume,
/// in percent, behind the song's own fields.
pub fn now_playing_card(song: &Song, loop_mode: LoopMode, volume: u8) -> (embed: Embed)
    ensures
        reads(embed.title, "🎵 현재 재생 중"@),
        reads(embed.description, song_link(*song)),
        embed.color == Some(PLAYING_COLOR),
        embed.fields@.len() >= 3,
        are_song_fields(
            embed.fields@.subrange(0, embed.fields@.len() - 2),
            *song,
            "요청"@,
            song.requester@,
        ),
        field_is(embed.fields@[embed.fields@.len() - 2], "반복"@, loop_mode.label(), true),
        field_is(
            embed.fields@[embed.fields@.len() - 1],
            "볼륨"@,
            decimal(volume as nat) + "%"@,
            true,
        ),
        embed.footer is None,
        embed.thumbnail is None,
{
    let mut embed = now_playing(song);
    let ghost own = embed.fields@;
    let mut level: Vec<char> = Vec::new();
    push_decimal(&mut level, volume as u64);
    append_str(&mut level, "%");
    assert(level@ =~= decimal(volume as nat) + "%"@);
    embed.fields.push(
        EmbedField { name: "반복".to_owned(), value: loop_mode.to_string(), inline: true },
    );
    embed.fields.push(EmbedField { name: "볼륨".to_owned(), value: string_of(&level), inline: true });
    assert(embed.fields@.subrange(0, embed.fields@.len() - 2) =~= own);
    embed
}

} // verus!
