use every_discord_bot::music::Song;
use every_discord_bot::utils::components::{
    item_select_menu, music_buttons, music_buttons_disabled, music_components,
    music_components_disabled, pagination_row, queue_select_menu, tab_buttons, ActionRow,
    ButtonStyle,
};
use every_discord_bot::utils::embed::{added_to_queue, error, now_playing, queue_list};

fn test_song(title: &str) -> Song {
    Song {
        title: title.to_string(),
        url: format!("https://example.com/{title}"),
        duration: Some("3:00".to_string()),
        requester: "tester".to_string(),
    }
}

#[test]
fn test_pagination_row_first_page() {
    let row = pagination_row("ammo", 0, 5);
    match &row {
        ActionRow::Buttons(buttons) => {
            assert_eq!(buttons.len(), 3);
            assert_eq!(buttons[0].custom_id, "tarkov_ammo_prev_0");
            assert_eq!(buttons[0].label, "<< 이전");
            assert!(buttons[0].disabled);
            assert_eq!(buttons[1].custom_id, "tarkov_ammo_page_0");
            assert_eq!(buttons[1].label, "1/5");
            assert!(buttons[1].disabled);
            assert_eq!(buttons[2].custom_id, "tarkov_ammo_next_1");
            assert_eq!(buttons[2].label, "다음 >>");
            assert!(!buttons[2].disabled);
            assert!(buttons.iter().all(|b| b.style == ButtonStyle::Secondary && b.emoji.is_none()));
        }
        _ => panic!("Expected Buttons action row"),
    }
}

#[test]
fn test_pagination_row_last_page() {
    let row = pagination_row("ammo", 4, 5);
    match &row {
        ActionRow::Buttons(buttons) => {
            assert_eq!(buttons.len(), 3);
            assert_eq!(buttons[0].custom_id, "tarkov_ammo_prev_3");
            assert!(!buttons[0].disabled);
            assert_eq!(buttons[1].label, "5/5");
            assert_eq!(buttons[2].custom_id, "tarkov_ammo_next_5");
            assert!(buttons[2].disabled);
        }
        _ => panic!("Expected Buttons action row"),
    }
}

#[test]
fn test_pagination_row_single_page() {
    let row = pagination_row("quest", 0, 1);
    match &row {
        ActionRow::Buttons(buttons) => {
            assert_eq!(buttons.len(), 3);
            assert!(buttons[0].disabled && buttons[1].disabled && buttons[2].disabled);
            assert_eq!(buttons[1].label, "1/1");
        }
        _ => panic!("Expected Buttons action row"),
    }
}

#[test]
fn test_pagination_row_zero_pages() {
    let row = pagination_row("quest", 0, 0);
    match &row {
        ActionRow::Buttons(buttons) => {
            assert_eq!(buttons.len(), 3);
            assert!(buttons[2].disabled);
            assert_eq!(buttons[1].label, "1/1");
        }
        _ => panic!("Expected Buttons action row"),
    }
}

#[test]
fn test_item_select_menu_basic() {
    let options = vec![
        ("id1".into(), "Item 1".into(), "Desc 1".into()),
        ("id2".into(), "Item 2".into(), "Desc 2".into()),
    ];
    let row = item_select_menu("tarkov_item_select", "아이템을 선택하세요", options);
    match &row {
        ActionRow::SelectMenu(menu) => {
            assert_eq!(menu.custom_id, "tarkov_item_select");
            assert_eq!(menu.placeholder, "아이템을 선택하세요");
            assert_eq!(menu.options.len(), 2);
            assert_eq!(menu.options[0].label, "Item 1");
            assert_eq!(menu.options[0].value, "id1");
            assert_eq!(menu.options[0].description.as_deref(), Some("Desc 1"));
            assert_eq!(menu.options[1].value, "id2");
        }
        _ => panic!("Expected SelectMenu action row"),
    }
}

#[test]
fn test_item_select_menu_respects_25_limit() {
    let options: Vec<(String, String, String)> =
        (0..30).map(|i| (format!("id{i}"), format!("Item {i}"), format!("Desc {i}"))).collect();
    assert_eq!(options.len(), 30);

    let row = item_select_menu("tarkov_item_select", "선택하세요", options);
    match &row {
        ActionRow::SelectMenu(menu) => {
            assert_eq!(menu.options.len(), 25);
            assert_eq!(menu.options[24].value, "id24");
        }
        _ => panic!("Expected SelectMenu action row"),
    }
}

#[test]
fn test_item_select_menu_empty_description() {
    let options = vec![("id1".into(), "Item 1".into(), String::new())];
    let row = item_select_menu("test_select", "선택하세요", options);
    match &row {
        ActionRow::SelectMenu(menu) => {
            assert_eq!(menu.options.len(), 1);
            assert!(menu.options[0].description.is_none());
        }
        _ => panic!("Expected SelectMenu action row"),
    }
}

#[test]
fn test_tab_buttons_active_highlight() {
    let tabs = vec![("info", "기본정보", true), ("price", "가격", false), ("trader", "트레이더", false)];
    let row = tab_buttons("item", "abc123", &tabs);
    match &row {
        ActionRow::Buttons(buttons) => {
            assert_eq!(buttons.len(), 3);
            assert_eq!(buttons[0].custom_id, "tarkov_item_info_abc123");
            assert_eq!(buttons[0].label, "기본정보");
            assert_eq!(buttons[0].style, ButtonStyle::Primary);
            assert_eq!(buttons[1].custom_id, "tarkov_item_price_abc123");
            assert_eq!(buttons[1].style, ButtonStyle::Secondary);
            assert_eq!(buttons[2].style, ButtonStyle::Secondary);
            assert!(buttons.iter().all(|b| !b.disabled));
        }
        _ => panic!("Expected Buttons action row"),
    }
}

#[test]
fn test_tab_buttons_multiple_inactive() {
    let tabs = vec![
        ("info", "기본정보", false),
        ("equip", "장비", false),
        ("drops", "드롭 아이템", true),
        ("spawns", "스폰 위치", false),
    ];
    let row = tab_buttons("boss", "boss1", &tabs);
    match &row {
        ActionRow::Buttons(buttons) => {
            assert_eq!(buttons.len(), 4);
            assert_eq!(buttons[2].style, ButtonStyle::Primary);
            assert_eq!(buttons[3].custom_id, "tarkov_boss_spawns_boss1");
        }
        _ => panic!("Expected Buttons action row"),
    }
}

#[test]
fn music_buttons_by_state() {
    let ids = |row: &ActionRow| match row {
        ActionRow::Buttons(buttons) => buttons
            .iter()
            .map(|b| (b.custom_id.clone(), b.label.clone(), b.emoji, b.style, b.disabled))
            .collect::<Vec<_>>(),
        _ => panic!("Expected Buttons action row"),
    };
    assert_eq!(
        ids(&music_buttons(false)),
        vec![
            ("music_pause".to_string(), "일시정지".to_string(), Some('⏸'), ButtonStyle::Primary, false),
            ("music_skip".to_string(), "스킵".to_string(), Some('⏭'), ButtonStyle::Secondary, false),
            ("music_stop".to_string(), "정지".to_string(), Some('⏹'), ButtonStyle::Danger, false),
        ]
    );
    assert_eq!(
        ids(&music_buttons(true))[0],
        ("music_resume".to_string(), "재개".to_string(), Some('▶'), ButtonStyle::Success, false)
    );
    assert_eq!(
        ids(&music_buttons_disabled()),
        vec![
            ("music_pause".to_string(), "일시정지".to_string(), Some('⏸'), ButtonStyle::Primary, true),
            ("music_skip".to_string(), "스킵".to_string(), Some('⏭'), ButtonStyle::Secondary, true),
            ("music_stop".to_string(), "정지".to_string(), Some('⏹'), ButtonStyle::Danger, true),
        ]
    );
    assert_eq!(music_components_disabled().len(), 1);
}

#[test]
fn queue_menu_lists_the_first_25() {
    let mut songs: Vec<Song> = (0..30).map(|i| test_song(&format!("Song {i}"))).collect();
    songs[1].duration = None;
    songs[2].title = "가".repeat(120);
    match queue_select_menu(&songs) {
        ActionRow::SelectMenu(menu) => {
            assert_eq!(menu.custom_id, "music_queue_select");
            assert_eq!(menu.placeholder, "대기열 (25/30곡)");
            assert_eq!(menu.options.len(), 25);
            assert_eq!(menu.options[0].label, "Song 0");
            assert_eq!(menu.options[0].value, "queue_0");
            assert_eq!(menu.options[0].description.as_deref(), Some("1번째 · 3:00"));
            assert_eq!(menu.options[1].description.as_deref(), Some("2번째"));
            assert_eq!(menu.options[2].label, format!("{}...", "가".repeat(97)));
            assert_eq!(menu.options[24].value, "queue_24");
        }
        _ => panic!("Expected SelectMenu action row"),
    }
    match queue_select_menu(&songs[..3].to_vec()) {
        ActionRow::SelectMenu(menu) => assert_eq!(menu.placeholder, "대기열 (3곡)"),
        _ => panic!("Expected SelectMenu action row"),
    }
    assert_eq!(music_components(false, &vec![]).len(), 1);
    let rows = music_components(true, &songs);
    assert_eq!(rows.len(), 2);
    assert!(matches!(rows[0], ActionRow::Buttons(_)));
    assert!(matches!(rows[1], ActionRow::SelectMenu(_)));
}

#[test]
fn test_now_playing_creates_embed() {
    let song = test_song("Test Song");
    let embed = now_playing(&song);
    assert_eq!(embed.title.as_deref(), Some("🎵 현재 재생 중"));
    assert_eq!(embed.description.as_deref(), Some("[Test Song](https://example.com/Test Song)"));
    assert_eq!(embed.color, Some(0x1DB954));
    assert_eq!(embed.fields.len(), 2);
    assert_eq!((embed.fields[0].name.as_str(), embed.fields[0].value.as_str()), ("길이", "3:00"));
    assert_eq!((embed.fields[1].name.as_str(), embed.fields[1].value.as_str()), ("요청", "tester"));
    assert!(embed.fields.iter().all(|f| f.inline));
}

#[test]
fn test_added_to_queue_creates_embed() {
    let song = test_song("Queued Song");
    let embed = added_to_queue(&song, 3);
    assert_eq!(embed.title.as_deref(), Some("✅ 큐에 추가됨"));
    assert_eq!(embed.color, Some(0x5865F2));
    assert_eq!((embed.fields[1].name.as_str(), embed.fields[1].value.as_str()), ("위치", "#3"));
    let mut bare = test_song("Bare");
    bare.duration = None;
    let embed = added_to_queue(&bare, 12);
    assert_eq!(embed.fields.len(), 1);
    assert_eq!(embed.fields[0].value, "#12");
}

#[test]
fn test_queue_list_empty() {
    let embed = queue_list(None, &vec![], 1);
    assert_eq!(embed.title.as_deref(), Some("📋 재생 목록 (1/1)"));
    assert_eq!(embed.description.as_deref(), Some("큐가 비어있습니다."));
    assert_eq!(embed.footer.as_deref(), Some("총 0 곡"));
}

#[test]
fn test_queue_list_with_songs() {
    let current = test_song("Current");
    let songs: Vec<Song> = vec![test_song("Song 1"), test_song("Song 2"), test_song("Song 3")];
    let embed = queue_list(Some(&current), &songs, 1);
    assert_eq!(
        embed.description.as_deref(),
        Some(
            "**현재 재생:** [Current](https://example.com/Current) `3:00`\n\n\
             **1.** [Song 1](https://example.com/Song 1) `3:00`\n\
             **2.** [Song 2](https://example.com/Song 2) `3:00`\n\
             **3.** [Song 3](https://example.com/Song 3) `3:00`\n"
        )
    );
    assert_eq!(embed.title.as_deref(), Some("📋 재생 목록 (1/1)"));
    assert_eq!(embed.footer.as_deref(), Some("총 3 곡"));
}

#[test]
fn test_queue_list_pagination() {
    let songs: Vec<Song> = (1..=15).map(|i| test_song(&format!("Song {i}"))).collect();
    let embed = queue_list(None, &songs, 2);
    assert_eq!(embed.title.as_deref(), Some("📋 재생 목록 (2/2)"));
    let text = embed.description.unwrap();
    assert_eq!(text.lines().count(), 5);
    assert!(text.starts_with("**11.** [Song 11]"));
    assert!(text.ends_with("**15.** [Song 15](https://example.com/Song 15) `3:00`\n"));
    assert_eq!(queue_list(None, &songs, 0).title.as_deref(), Some("📋 재생 목록 (1/2)"));
    assert_eq!(queue_list(None, &songs, 9).title.as_deref(), Some("📋 재생 목록 (2/2)"));
}

#[test]
fn test_error_embed_creates() {
    let embed = error("something went wrong");
    assert_eq!(embed.title.as_deref(), Some("❌ 오류"));
    assert_eq!(embed.description.as_deref(), Some("something went wrong"));
    assert_eq!(embed.color, Some(0xED4245));
    assert!(embed.fields.is_empty());
}
