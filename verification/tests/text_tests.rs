use every_discord_bot::ai::channel::{
    extract_number, format_item_choices, is_image_attachment, truncate_for_discord,
};
use every_discord_bot::commands::loop_cmd::{mode_emoji, mode_of, parse_mode};
use every_discord_bot::text::is_space;
use every_discord_bot::commands::tarkov::ammo::AmmoSort;
use every_discord_bot::commands::tarkov::price::format_price;
use every_discord_bot::commands::tarkov::quest::build_quest_chain;
use every_discord_bot::commands::volume::{request_volume, VolumeOutcome};
use every_discord_bot::config::Config;
use every_discord_bot::music::queue::get_volume;
use every_discord_bot::music::{new_queue_manager, LoopMode};
use every_discord_bot::tarkov::catalog::{normalize, remove_parentheses};
use every_discord_bot::tarkov::embed::{format_duration, format_number, table_page};
use every_discord_bot::tarkov::models::{
    Ammo, AmmoItem, Item, Task, TaskRequirement, TaskRequirementRef, TaskTrader,
};
use every_discord_bot::utils::components::{
    menu_count, page_buttons, truncate_str, try_truncate_str,
};
use every_discord_bot::utils::embed::queue_page;

#[test]
fn test_remove_parentheses() {
    assert_eq!(remove_parentheses("AFAK (tactical)"), "AFAK ");
    assert_eq!(remove_parentheses("item (a (b)) end"), "item  end");
    assert_eq!(remove_parentheses("no parens"), "no parens");
    assert_eq!(remove_parentheses("(all gone)"), "");
}

#[test]
fn remove_parentheses_unbalanced() {
    assert_eq!(remove_parentheses("a) b"), "a) b");
    assert_eq!(remove_parentheses("a (b"), "a ");
    assert_eq!(remove_parentheses("(a)) b"), ") b");
    assert_eq!(remove_parentheses(""), "");
}

#[test]
fn test_normalize() {
    assert_eq!(normalize("  AFAK (Tactical)  "), "afak");
    assert_eq!(normalize("Bastion Helmet"), "bastion helmet");
}

#[test]
fn normalize_collapses_whitespace() {
    assert_eq!(normalize("A \t B\n\nC"), "a b c");
    assert_eq!(normalize("   "), "");
    assert_eq!(normalize(""), "");
    assert_eq!(normalize("LEDX"), "ledx");
}

#[test]
fn test_format_number() {
    assert_eq!(format_number(0), "0");
    assert_eq!(format_number(999), "999");
    assert_eq!(format_number(1000), "1,000");
    assert_eq!(format_number(1_500_000), "1,500,000");
    assert_eq!(format_number(-1234), "-1,234");
}

#[test]
fn format_number_extremes() {
    assert_eq!(format_number(i64::MAX), "9,223,372,036,854,775,807");
    assert_eq!(format_number(i64::MIN), "-9,223,372,036,854,775,808");
    assert_eq!(format_number(1_000_001), "1,000,001");
    assert_eq!(format_number(-1), "-1");
    assert_eq!(format_price(12_345), "12,345");
    assert_eq!(every_discord_bot::ai::channel::format_number(1000), "1,000");
}

#[test]
fn test_format_duration() {
    assert_eq!(format_duration(30), "30초");
    assert_eq!(format_duration(300), "5분");
    assert_eq!(format_duration(3600), "1시간");
    assert_eq!(format_duration(5400), "1시간 30분");
}

#[test]
fn format_duration_edges() {
    assert_eq!(format_duration(0), "0초");
    assert_eq!(format_duration(59), "59초");
    assert_eq!(format_duration(60), "1분");
    assert_eq!(format_duration(3599), "59분");
    assert_eq!(format_duration(3660), "1시간 1분");
    assert_eq!(format_duration(-5), "-5초");
    assert_eq!(format_duration(i32::MIN), "-2147483648초");
    assert_eq!(format_duration(i32::MAX), "596523시간 14분");
}

#[test]
fn table_page_bounds() {
    let shown = table_page(0, 3);
    assert_eq!((shown.page, shown.total_pages, shown.start, shown.end), (0, 1, 0, 0));
    let shown = table_page(25, 1);
    assert_eq!((shown.page, shown.total_pages, shown.start, shown.end), (1, 3, 10, 20));
    let shown = table_page(25, 9);
    assert_eq!((shown.page, shown.total_pages, shown.start, shown.end), (2, 3, 20, 25));
    let shown = table_page(10, 0);
    assert_eq!((shown.page, shown.total_pages, shown.start, shown.end), (0, 1, 0, 10));
}

#[test]
fn queue_page_bounds() {
    let shown = queue_page(0, 1);
    assert_eq!((shown.page, shown.total_pages, shown.start, shown.end), (1, 1, 0, 0));
    let shown = queue_page(15, 2);
    assert_eq!((shown.page, shown.total_pages, shown.start, shown.end), (2, 2, 10, 15));
    let shown = queue_page(15, 0);
    assert_eq!((shown.page, shown.total_pages, shown.start, shown.end), (1, 2, 0, 10));
    let shown = queue_page(15, 99);
    assert_eq!((shown.page, shown.total_pages, shown.start, shown.end), (2, 2, 10, 15));
    let shown = queue_page(usize::MAX, usize::MAX);
    assert_eq!(shown.end, usize::MAX);
}

#[test]
fn extract_number_reads_answers() {
    assert_eq!(extract_number("1"), Some(1));
    assert_eq!(extract_number("1번"), Some(1));
    assert_eq!(extract_number("1번이요"), Some(1));
    assert_eq!(extract_number("2요"), Some(2));
    assert_eq!(extract_number("3번째"), Some(3));
    assert_eq!(extract_number(" 7 번"), Some(7));
    assert_eq!(extract_number("+4"), Some(4));
    assert_eq!(extract_number("007"), Some(7));
    assert_eq!(extract_number(""), None);
    assert_eq!(extract_number("번"), None);
    assert_eq!(extract_number("abc"), None);
    assert_eq!(extract_number("-1"), None);
    assert_eq!(extract_number("1.5"), None);
    assert_eq!(extract_number("1번요요"), None);
    assert_eq!(extract_number("99999999999999999999999999"), None);
}

#[test]
fn image_attachments_by_content_type() {
    assert!(is_image_attachment(Some("image/png")));
    assert!(is_image_attachment(Some("image/")));
    assert!(!is_image_attachment(Some("video/mp4")));
    assert!(!is_image_attachment(Some("Image/png")));
    assert!(!is_image_attachment(None));
}

fn item(name: &str, short: &str) -> Item {
    Item {
        id: format!("id-{short}"),
        name: name.to_string(),
        short_name: short.to_string(),
        base_price: 100,
        weight: "0.50".to_string(),
        width: 1,
        height: 1,
        description: None,
        grid_image_link: None,
        icon_link: None,
        avg24h_price: None,
        low24h_price: None,
        high24h_price: None,
        sell_for: vec![],
        categories: vec![],
    }
}

#[test]
fn item_choices_list_the_first_ten() {
    let two = vec![item("LEDX Skin Transilluminator", "LEDX"), item("Graphics card", "GPU")];
    assert_eq!(
        format_item_choices(&two),
        "**여러 아이템이 검색되었습니다. 번호를 입력해주세요:**\n**1**. LEDX Skin Transilluminator (LEDX)\n**2**. Graphics card (GPU)\n"
    );
    let many: Vec<Item> = (0..12).map(|i| item(&format!("Item {i}"), &format!("I{i}"))).collect();
    let text = format_item_choices(&many);
    assert_eq!(text.lines().count(), 11);
    assert!(text.ends_with("**10**. Item 9 (I9)\n"));
    assert_eq!(
        format_item_choices(&vec![]),
        "**여러 아이템이 검색되었습니다. 번호를 입력해주세요:**\n"
    );
}

#[test]
fn truncate_for_discord_cuts_between_characters() {
    assert_eq!(truncate_for_discord("short"), "short");
    let exact = "a".repeat(2000);
    assert_eq!(truncate_for_discord(&exact), exact);
    let long = "a".repeat(2001);
    let cut = truncate_for_discord(&long);
    assert_eq!(cut.len(), 2000);
    assert_eq!(cut, format!("{}...", "a".repeat(1997)));
    let korean = "가".repeat(700);
    let cut = truncate_for_discord(&korean);
    assert_eq!(cut, format!("{}...", "가".repeat(665)));
    assert_eq!(cut.len(), 1998);
}

#[test]
fn truncate_str_counts_characters() {
    assert_eq!(truncate_str("hello", 5), "hello");
    assert_eq!(truncate_str("hello!", 5), "he...");
    assert_eq!(truncate_str("가나다라마바", 5), "가나...");
    assert_eq!(truncate_str("abcd", 3), "...");
    assert_eq!(truncate_str("", 0), "");
    assert_eq!(try_truncate_str("abcd", 2), None);
    assert_eq!(try_truncate_str("ab", 2), Some("ab".to_string()));
    assert_eq!(try_truncate_str("abcdef", 4), Some("a...".to_string()));
}

#[test]
fn menu_and_page_buttons() {
    assert_eq!(menu_count(0), 0);
    assert_eq!(menu_count(25), 25);
    assert_eq!(menu_count(26), 25);
    let first = page_buttons(0, 5);
    assert!(first.prev_disabled && !first.next_disabled);
    assert_eq!((first.prev_page, first.next_page), (0, 1));
    assert_eq!((first.shown_page, first.shown_total), (1, 5));
    let last = page_buttons(4, 5);
    assert!(!last.prev_disabled && last.next_disabled);
    assert_eq!((last.prev_page, last.next_page), (3, 5));
    let none = page_buttons(0, 0);
    assert!(none.prev_disabled && none.next_disabled);
    assert_eq!((none.shown_page, none.shown_total), (1, 1));
}

#[test]
fn loop_words_name_modes() {
    assert_eq!(parse_mode("off"), Some(LoopMode::Off));
    assert_eq!(parse_mode("끔"), Some(LoopMode::Off));
    assert_eq!(parse_mode("SONG"), Some(LoopMode::Song));
    assert_eq!(parse_mode("곡"), Some(LoopMode::Song));
    assert_eq!(parse_mode("한곡"), Some(LoopMode::Song));
    assert_eq!(parse_mode("Queue"), Some(LoopMode::Queue));
    assert_eq!(parse_mode("큐"), Some(LoopMode::Queue));
    assert_eq!(parse_mode("전체"), Some(LoopMode::Queue));
    assert_eq!(parse_mode("all"), None);
    assert_eq!(parse_mode(""), None);
    assert_eq!(mode_of("song"), Some(LoopMode::Song));
    assert_eq!(mode_of("SONG"), None);
    assert_eq!(mode_of("전체"), Some(LoopMode::Queue));
    assert_eq!(mode_emoji(LoopMode::Off), "➡️");
    assert_eq!(mode_emoji(LoopMode::Song), "🔂");
    assert_eq!(mode_emoji(LoopMode::Queue), "🔁");
}

#[test]
fn volume_requests_are_checked() {
    let mut manager = new_queue_manager();
    assert_eq!(request_volume(&mut manager, 1, 101), VolumeOutcome::OutOfRange);
    assert_eq!(get_volume(&manager, 1), 50);
    assert!(manager.queues.is_empty());
    assert_eq!(request_volume(&mut manager, 1, 100), VolumeOutcome::Stored { live: None });
    assert_eq!(get_volume(&manager, 1), 100);
    assert_eq!(request_volume(&mut manager, 1, u32::MAX), VolumeOutcome::OutOfRange);
    assert_eq!(get_volume(&manager, 1), 100);
}

#[test]
fn config_from_values() {
    let config = Config::from_values(
        "token".to_string(),
        Some("key".to_string()),
        Some("1234567890".to_string()),
        None,
    );
    assert_eq!(config.discord_token, "token");
    assert_eq!(config.gemini_api_key.as_deref(), Some("key"));
    assert_eq!(config.tv_channel_id, Some(1234567890));
    assert_eq!(config.db_path, "everybot.db");
    assert!(config.assistant_enabled());

    let config = Config::from_values(
        "token".to_string(),
        None,
        Some("not a number".to_string()),
        Some("/tmp/bot.db".to_string()),
    );
    assert_eq!(config.tv_channel_id, None);
    assert_eq!(config.db_path, "/tmp/bot.db");
    assert!(!config.assistant_enabled());

    let config = Config::from_values(
        String::new(),
        Some("key".to_string()),
        Some("18446744073709551616".to_string()),
        None,
    );
    assert_eq!(config.tv_channel_id, None);
    let config = Config::from_values(
        String::new(),
        None,
        Some("18446744073709551615".to_string()),
        None,
    );
    assert_eq!(config.tv_channel_id, Some(u64::MAX));
}

fn ammo(name: &str, damage: i32, armor_damage: i32, penetration_power: i32) -> Ammo {
    Ammo {
        item: AmmoItem {
            id: name.to_string(),
            name: name.to_string(),
            short_name: name.to_string(),
            icon_link: None,
            grid_image_link: None,
        },
        caliber: "7.62x39mm".to_string(),
        damage,
        armor_damage,
        penetration_power,
        projectile_count: None,
    }
}

#[test]
fn ammo_sort_orders_highest_first() {
    assert_eq!(AmmoSort::Penetration.label(), "관통력순");
    assert_eq!(AmmoSort::Damage.label(), "데미지순");
    assert_eq!(AmmoSort::ArmorDamage.label(), "방어력 피해순");
    assert_eq!(AmmoSort::Penetration.id(), "pen");
    assert_eq!(AmmoSort::from_id("dmg"), Some(AmmoSort::Damage));
    assert_eq!(AmmoSort::from_id("armor"), Some(AmmoSort::ArmorDamage));
    assert_eq!(AmmoSort::from_id("pen"), Some(AmmoSort::Penetration));
    assert_eq!(AmmoSort::from_id("x"), None);

    let mut list = vec![ammo("a", 50, 30, 20), ammo("b", 70, 10, 40), ammo("c", 60, 20, 40)];
    let names = |list: &Vec<Ammo>| list.iter().map(|a| a.item.name.clone()).collect::<Vec<_>>();
    AmmoSort::Damage.sort(&mut list);
    assert_eq!(names(&list), vec!["b", "c", "a"]);
    AmmoSort::ArmorDamage.sort(&mut list);
    assert_eq!(names(&list), vec!["a", "c", "b"]);
    AmmoSort::Penetration.sort(&mut list);
    assert_eq!(names(&list), vec!["c", "b", "a"]);
}

fn task(id: &str, name: &str, needs: &[(&str, &str)]) -> Task {
    Task {
        id: id.to_string(),
        name: name.to_string(),
        trader: TaskTrader { name: "Prapor".to_string() },
        map: None,
        min_player_level: None,
        objectives: vec![],
        finish_rewards: None,
        task_requirements: needs
            .iter()
            .map(|(id, name)| TaskRequirement {
                task: TaskRequirementRef { id: id.to_string(), name: name.to_string() },
            })
            .collect(),
    }
}

#[test]
fn quest_chain_lists_previous_and_next() {
    let first = task("t1", "Debut", &[]);
    let second = task("t2", "Checking", &[("t1", "Debut")]);
    let third = task("t3", "Shootout", &[("t2", "Checking"), ("t1", "Debut")]);
    let all = vec![first, second, third];
    let (prev, next) = build_quest_chain(&all[0], &all);
    assert!(prev.is_empty());
    assert_eq!(next, vec!["Checking", "Shootout"]);
    let (prev, next) = build_quest_chain(&all[2], &all);
    assert_eq!(prev, vec!["Checking", "Debut"]);
    assert!(next.is_empty());
    let (prev, next) = build_quest_chain(&all[1], &all);
    assert_eq!(prev, vec!["Debut"]);
    assert_eq!(next, vec!["Shootout"]);
}

#[test]
fn whitespace_is_what_std_calls_whitespace() {
    let mut count = 0;
    for code in 0..=0x10FFFFu32 {
        if let Some(c) = char::from_u32(code) {
            assert_eq!(is_space(c), c.is_whitespace(), "U+{code:04X}");
            if is_space(c) {
                count += 1;
            }
        }
    }
    assert_eq!(count, 25);
    assert!(is_space(' ') && is_space('\t') && is_space('\u{3000}') && is_space('\u{00A0}'));
    assert!(!is_space('a') && !is_space('\u{200B}') && !is_space('\u{180E}'));
}
