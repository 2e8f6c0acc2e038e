//! The help command: the card that lists the commands.

use crate::utils::embed::{field_is, reads, Embed, EmbedField, QUEUE_COLOR};
use vstd::prelude::*;

verus! {

/// The list of the commands about music.
pub open spec fn music_help() -> Seq<char> {
    "`/play` (`/p`) — 음악 재생 또는 큐에 추가
`/skip` (`/s`) — 현재 곡 건너뛰기
`/stop` (`/st`) — 재생 중지 및 퇴장
`/queue` (`/q`) — 재생 목록 표시
`/pause` (`/pa`) — 일시정지
`/resume` (`/r`) — 재개
`/nowplaying` (`/np`) — 현재 재생 중인 곡
`/loop` (`/l`) — 반복 모드 (off/song/queue)
`/shuffle` (`/sh`) — 큐 셔플
`/remove` (`/rm`) — 큐에서 곡 제거
`/volume` (`/v`) — 볼륨 조절 (0-100)"@
}

/// The list of the commands about game data.
pub open spec fn tarkov_help() -> Seq<char> {
    "`/item` (`/아이템`) — 아이템 검색 (정보/가격 탭)
`/price` (`/가격`) — 벼룩시장 가격 조회
`/ammo` (`/탄약`) — 탄약 관통력/데미지 비교
`/trader` (`/상인`) — 트레이더 정보
`/quest` (`/퀘스트`) — 퀘스트 정보
`/questitem` (`/퀘스트아이템`) — 퀘스트 필요 아이템
`/hideout` (`/은신처`) — 은신처 정보
`/craft` (`/제작`) — 제작 레시피
`/map` (`/맵`) — 맵 정보
`/boss` (`/보스`) — 보스 정보"@
}

/// The card that lists the commands: those about music and those about
/// game data, each in a field of its own.
pub fn help_card() -> (embed: Embed)
    ensures
        reads(embed.title, "EveryBot 도움말"@),
        embed.description is None,
        embed.color == Some(QUEUE_COLOR),
        embed.fields@.len() == 2,
        field_is(embed.fields@[0], "음악"@, music_help(), false),
        field_is(embed.fields@[1], "타르코프"@, tarkov_help(), false),
        embed.footer is None,
        embed.thumbnail is None,
{
    let mut fields: Vec<EmbedField> = Vec::new();
    fields.push(
        EmbedField {
            name: "음악".to_owned(),
            value: "`/play` (`/p`) — 음악 재생 또는 큐에 추가
`/skip` (`/s`) — 현재 곡 건너뛰기
`/stop` (`/st`) — 재생 중지 및 퇴장
`/queue` (`/q`) — 재생 목록 표시
`/pause` (`/pa`) — 일시정지
`/resume` (`/r`) — 재개
`/nowplaying` (`/np`) — 현재 재생 중인 곡
`/loop` (`/l`) — 반복 모드 (off/song/queue)
`/shuffle` (`/sh`) — 큐 셔플
`/remove` (`/rm`) — 큐에서 곡 제거
`/volume` (`/v`) — 볼륨 조절 (0-100)".to_owned(),
            inline: false,
        },
    );
    fields.push(
        EmbedField {
            name: "타르코프".to_owned(),
            value: "`/item` (`/아이템`) — 아이템 검색 (정보/가격 탭)
`/price` (`/가격`) — 벼룩시장 가격 조회
`/ammo` (`/탄약`) — 탄약 관통력/데미지 비교
`/trader` (`/상인`) — 트레이더 정보
`/quest` (`/퀘스트`) — 퀘스트 정보
`/questitem` (`/퀘스트아이템`) — 퀘스트 필요 아이템
`/hideout` (`/은신처`) — 은신처 정보
`/craft` (`/제작`) — 제작 레시피
`/map` (`/맵`) — 맵 정보
`/boss` (`/보스`) — 보스 정보".to_owned(),
            inline: false,
        },
    );
    Embed {
        title: Some("EveryBot 도움말".to_owned()),
        description: None,
        color: Some(QUEUE_COLOR),
        fields,
        footer: None,
        thumbnail: None,
    }
}

} // verus!
