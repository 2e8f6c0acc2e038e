use every_discord_bot::tarkov::embed::{
    ammo_table, boss_info, craft_info, hideout_info, item_detail, item_price, map_info,
    quest_info, questitem_list, trader_info,
};
use every_discord_bot::tarkov::models::{
    Ammo, AmmoItem, Boss, BossEquipment, BossHealth, BossLootItem, Category, Craft, CraftItem,
    CraftItemInfo, CraftStation, Currency, EquipmentItem, GameMap, HideoutItemReq, HideoutLevel,
    HideoutStation, Item, LootItemInfo, MapBoss, MapExtract, RewardItemInfo, StationLevelReq,
    StationRef, Task, TaskMap, TaskObjective, TaskRequirement, TaskRequirementRef,
    TaskRewardItem, TaskRewards, TaskTrader, Trader, TraderLevel, Vendor, VendorPrice,
};

fn sample_item() -> Item {
    Item {
        id: "abc123".into(),
        name: "LEDX".into(),
        short_name: "LEDX".into(),
        base_price: 100_000,
        weight: format!("{:.2}", 0.5),
        width: 1,
        height: 1,
        description: Some("의료 장비".into()),
        grid_image_link: Some("https://example.com/img.png".into()),
        icon_link: Some("https://example.com/icon.png".into()),
        avg24h_price: Some(1_500_000),
        low24h_price: Some(1_200_000),
        high24h_price: Some(1_800_000),
        sell_for: vec![VendorPrice {
            vendor: Vendor { name: "치료사".into() },
            price: 300_000,
            currency: "RUB".into(),
        }],
        categories: vec![Category { name: "의료".into() }],
    }
}

fn sample_ammo() -> Ammo {
    Ammo {
        item: AmmoItem {
            id: "ammo1".into(),
            name: "7.62x39mm BP".into(),
            short_name: "BP".into(),
            icon_link: None,
            grid_image_link: None,
        },
        caliber: "7.62x39mm".into(),
        damage: 58,
        armor_damage: 47,
        penetration_power: 47,
        projectile_count: None,
    }
}

fn sample_trader() -> Trader {
    Trader {
        id: "t1".into(),
        name: "프라포르".into(),
        description: Some("무기 거래상".into()),
        image_link: Some("https://example.com/prapor.png".into()),
        reset_time: Some("2h".into()),
        levels: vec![
            TraderLevel {
                level: 1,
                required_player_level: 1,
                required_reputation: format!("{:.2}", 0.0),
                required_commerce: 0,
            },
            TraderLevel {
                level: 2,
                required_player_level: 15,
                required_reputation: format!("{:.2}", 0.2),
                required_commerce: 1_000_000,
            },
        ],
        currency: Currency { name: "RUB".into() },
    }
}

fn sample_task() -> Task {
    Task {
        id: "task1".into(),
        name: "보급품 조달".into(),
        trader: TaskTrader { name: "프라포르".into() },
        map: Some(TaskMap { name: "세관".into() }),
        min_player_level: Some(5),
        objectives: vec![
            TaskObjective { description: "아이템 3개 찾기".into(), optional: false },
            TaskObjective { description: "보너스 목표".into(), optional: true },
        ],
        finish_rewards: Some(TaskRewards {
            items: vec![TaskRewardItem { item: RewardItemInfo { name: "루블".into() }, count: 50000 }],
        }),
        task_requirements: vec![TaskRequirement {
            task: TaskRequirementRef { id: "task0".into(), name: "첫 번째 퀘스트".into() },
        }],
    }
}

fn sample_map() -> GameMap {
    GameMap {
        id: "map1".into(),
        name: "세관".into(),
        description: Some("위험한 지역".into()),
        raid_duration: Some(45),
        players: Some("8-12".into()),
        bosses: vec![MapBoss { name: "레쉴라".into(), spawn_percent: (0.38_f64 * 100.0) as i32 }],
        extracts: vec![
            MapExtract { name: "출구 A".into(), faction: Some("pmc".into()) },
            MapExtract { name: "출구 B".into(), faction: None },
        ],
    }
}

fn sample_boss() -> Boss {
    Boss {
        name: "킬라".into(),
        health: Some(vec![BossHealth { max: 890 }, BossHealth { max: 70 }]),
        image_poster_link: Some("https://example.com/killa.png".into()),
        equipment: vec![
            BossEquipment { item: EquipmentItem { name: "RPK-16".into() } },
            BossEquipment { item: EquipmentItem { name: "Maska-1Sch".into() } },
        ],
        items: vec![BossLootItem { item: LootItemInfo { name: "킬라의 헬멧".into() } }],
    }
}

fn sample_hideout() -> HideoutStation {
    HideoutStation {
        id: "s1".into(),
        name: "작업대".into(),
        levels: vec![HideoutLevel {
            level: 1,
            construction_time: 3600,
            item_requirements: vec![HideoutItemReq {
                item: RewardItemInfo { name: "볼트".into() },
                count: 3,
            }],
            station_level_requirements: vec![StationLevelReq {
                station: StationRef { name: "발전기".into() },
                level: 1,
            }],
        }],
    }
}

fn sample_craft() -> Craft {
    Craft {
        id: "c1".into(),
        duration: 7200,
        station: CraftStation { name: "작업대".into() },
        level: 2,
        reward_items: vec![CraftItem {
            item: CraftItemInfo { name: "총기 부품".into(), avg24h_price: Some(50_000) },
            count: 1,
        }],
        required_items: vec![
            CraftItem {
                item: CraftItemInfo { name: "볼트".into(), avg24h_price: Some(10_000) },
                count: 3,
            },
            CraftItem {
                item: CraftItemInfo { name: "너트".into(), avg24h_price: None },
                count: 5,
            },
        ],
    }
}

#[test]
fn test_item_detail_creates() {
    let item = sample_item();
    let embed = item_detail(&item);
    assert_eq!(embed.title.as_deref(), Some("LEDX"));
    assert_eq!(
        embed.description.as_deref(),
        Some(
            "의료 장비\n\n**단축명**: LEDX\n**카테고리**: 의료\n**기본가**: 100,000 RUB\n\
             **무게**: 0.50 kg\n**크기**: 1x1"
        )
    );
    assert_eq!(embed.color, Some(0xC8AA6E));
    assert_eq!(embed.thumbnail.as_deref(), Some("https://example.com/img.png"));
}

#[test]
fn test_item_detail_no_description() {
    let mut item = sample_item();
    item.description = None;
    item.grid_image_link = None;
    item.categories.push(Category { name: "장비".into() });
    let embed = item_detail(&item);
    assert_eq!(
        embed.description.as_deref(),
        Some(
            "\n**단축명**: LEDX\n**카테고리**: 의료, 장비\n**기본가**: 100,000 RUB\n\
             **무게**: 0.50 kg\n**크기**: 1x1"
        )
    );
    assert!(embed.thumbnail.is_none());
    item.categories.clear();
    assert_eq!(
        item_detail(&item).description.as_deref(),
        Some("\n**단축명**: LEDX\n**기본가**: 100,000 RUB\n**무게**: 0.50 kg\n**크기**: 1x1")
    );
}

#[test]
fn test_item_price_creates() {
    let item = sample_item();
    let embed = item_price(&item);
    assert_eq!(embed.title.as_deref(), Some("LEDX - 가격 정보"));
    assert_eq!(
        embed.description.as_deref(),
        Some(
            "**벼룩시장 (24시간)**\n  평균: 1,500,000 RUB\n  최저: 1,200,000 RUB\n  \
             최고: 1,800,000 RUB\n\n**상인 매입가**\n  치료사: 300,000 RUB\n"
        )
    );
    assert_eq!(embed.thumbnail.as_deref(), Some("https://example.com/icon.png"));
}

#[test]
fn test_item_price_no_flea_data() {
    let mut item = sample_item();
    item.avg24h_price = None;
    item.low24h_price = None;
    item.high24h_price = None;
    item.sell_for = vec![];
    let embed = item_price(&item);
    assert_eq!(
        embed.description.as_deref(),
        Some("**벼룩시장 (24시간)**\n  거래 불가 또는 데이터 없음\n")
    );
    item.avg24h_price = Some(0);
    item.low24h_price = Some(5);
    assert_eq!(
        item_price(&item).description.as_deref(),
        Some("**벼룩시장 (24시간)**\n  거래 불가 또는 데이터 없음\n")
    );
}

fn ammo_head() -> String {
    format!(
        "```\n{:<20} {:>4} {:>4} {:>4}\n{}\n",
        "이름",
        "관통",
        "데미지",
        "방피",
        "-".repeat(36)
    )
}

#[test]
fn test_ammo_table_creates() {
    let ammo_list = vec![sample_ammo()];
    let embed = ammo_table(&ammo_list, "관통력순", 0);
    assert_eq!(embed.title.as_deref(), Some("탄약 비교 (1/1)"));
    assert_eq!(
        embed.description.unwrap(),
        format!("{}{:<20} {:>4} {:>6} {:>4}\n```", ammo_head(), "BP", 47, 58, 47)
    );
    assert_eq!(embed.footer.as_deref(), Some("정렬: 관통력순 | 총 1발"));
}

#[test]
fn test_ammo_table_empty() {
    let embed = ammo_table(&vec![], "관통력순", 0);
    assert_eq!(embed.title.as_deref(), Some("탄약 비교 (1/1)"));
    assert_eq!(embed.description.unwrap(), format!("{}```", ammo_head()));
    assert_eq!(embed.footer.as_deref(), Some("정렬: 관통력순 | 총 0발"));
}

#[test]
fn test_ammo_table_pagination() {
    let ammo_list: Vec<Ammo> = (0..25).map(|_| sample_ammo()).collect();
    let embed = ammo_table(&ammo_list, "데미지순", 1);
    assert_eq!(embed.title.as_deref(), Some("탄약 비교 (2/3)"));
    assert_eq!(embed.description.as_ref().unwrap().lines().count(), 14);
    let last = ammo_table(&ammo_list, "데미지순", 7);
    assert_eq!(last.title.as_deref(), Some("탄약 비교 (3/3)"));
    assert_eq!(last.description.as_ref().unwrap().lines().count(), 9);
    assert_eq!(last.footer.as_deref(), Some("정렬: 데미지순 | 총 25발"));
}

#[test]
fn ammo_table_shortens_long_names() {
    let mut ammo = sample_ammo();
    ammo.item.short_name = "abcdefghijklmnopqrs".into();
    ammo.damage = -5;
    ammo.penetration_power = 123456;
    let embed = ammo_table(&vec![ammo], "x", 0);
    assert_eq!(
        embed.description.unwrap(),
        format!("{}{:<20} {:>4} {:>6} {:>4}\n```", ammo_head(), "abcdefghijklmno...", 123456, -5, 47)
    );
    let mut exact = sample_ammo();
    exact.item.short_name = "abcdefghijklmnopqr".into();
    let embed = ammo_table(&vec![exact], "x", 0);
    assert!(embed.description.unwrap().contains("abcdefghijklmnopqr   "));
}

#[test]
fn test_trader_info_creates() {
    let trader = sample_trader();
    let embed = trader_info(&trader);
    assert_eq!(embed.title.as_deref(), Some("프라포르"));
    let expected = format!(
        "무기 거래상\n\n**거래 화폐**: RUB\n**리셋 시간**: 2h\n\n**레벨 요구사항**\n```\n\
         {:<4} {:>6} {:>6} {:>12}\n{}\n{:<4} {:>6} {:>6.2} {:>12}\n{:<4} {:>6} {:>6.2} {:>12}\n```",
        "Lv",
        "플레이어",
        "평판",
        "거래액",
        "-".repeat(32),
        1,
        1,
        0.0,
        "0",
        2,
        15,
        0.2,
        "1,000,000",
    );
    assert_eq!(embed.description.unwrap(), expected);
    assert_eq!(embed.thumbnail.as_deref(), Some("https://example.com/prapor.png"));
    let mut bare = sample_trader();
    bare.description = None;
    bare.reset_time = None;
    bare.levels.clear();
    bare.image_link = None;
    assert_eq!(trader_info(&bare).description.as_deref(), Some("**거래 화폐**: RUB\n"));
}

#[test]
fn test_quest_info_creates() {
    let task = sample_task();
    let embed =
        quest_info(&task, &vec!["첫 번째 퀘스트".to_string()], &vec!["세 번째 퀘스트".to_string()]);
    assert_eq!(embed.title.as_deref(), Some("보급품 조달"));
    assert_eq!(
        embed.description.as_deref(),
        Some(
            "**상인**: 프라포르\n**맵**: 세관\n**최소 레벨**: 5\n\n**목표**\n- 아이템 3개 찾기\n\
             - (선택) 보너스 목표\n\n**완료 보상**\n- 루블 x50000\n\n**이전 퀘스트**\n\
             - 첫 번째 퀘스트\n\n**다음 퀘스트**\n- 세 번째 퀘스트\n"
        )
    );
}

#[test]
fn test_quest_info_no_chain() {
    let mut task = sample_task();
    let embed = quest_info(&task, &vec![], &vec![]);
    assert!(!embed.description.as_ref().unwrap().contains("퀘스트"));
    task.map = None;
    task.min_player_level = None;
    task.objectives.clear();
    task.finish_rewards = Some(TaskRewards { items: vec![] });
    assert_eq!(quest_info(&task, &vec![], &vec![]).description.as_deref(), Some("**상인**: 프라포르\n"));
}

#[test]
fn test_questitem_list_creates() {
    let quests = vec![
        ("보급품 조달".to_string(), "프라포르".to_string()),
        ("두 번째 퀘스트".to_string(), "치료사".to_string()),
    ];
    let embed = questitem_list(&quests, "LEDX", 0);
    assert_eq!(embed.title.as_deref(), Some("\"LEDX\" 필요 퀘스트 (1/1)"));
    assert_eq!(
        embed.description.as_deref(),
        Some("- **보급품 조달** (프라포르)\n- **두 번째 퀘스트** (치료사)\n")
    );
    assert_eq!(embed.footer.as_deref(), Some("총 2개 퀘스트"));
}

#[test]
fn test_questitem_list_empty() {
    let embed = questitem_list(&vec![], "없는아이템", 0);
    assert_eq!(embed.title.as_deref(), Some("\"없는아이템\" 필요 퀘스트 (1/1)"));
    assert_eq!(embed.description.as_deref(), Some("해당 아이템이 필요한 퀘스트가 없습니다."));
    assert_eq!(embed.footer.as_deref(), Some("총 0개 퀘스트"));
}

#[test]
fn test_map_info_creates() {
    let mut map = sample_map();
    map.extracts.push(MapExtract { name: "출구 C".into(), faction: Some("scav".into()) });
    map.extracts.push(MapExtract { name: "출구 D".into(), faction: Some("shared".into()) });
    map.extracts.push(MapExtract { name: "출구 E".into(), faction: Some("usec".into()) });
    let embed = map_info(&map);
    assert_eq!(embed.title.as_deref(), Some("세관"));
    assert_eq!(
        embed.description.as_deref(),
        Some(
            "위험한 지역\n\n**레이드 시간**: 45분\n**플레이어 수**: 8-12\n\n**탈출구**\n\
             - 출구 A (PMC)\n- 출구 B\n- 출구 C (Scav)\n- 출구 D (공용)\n- 출구 E (usec)\n\n\
             **보스**\n- 레쉴라 (스폰 확률: 38%)\n"
        )
    );
}

#[test]
fn test_boss_info_all_tabs() {
    let boss = sample_boss();
    let spawns = vec![("인터체인지".to_string(), (0.35_f64 * 100.0) as i32)];

    let embed_info = boss_info(&boss, "info", &spawns);
    assert_eq!(embed_info.title.as_deref(), Some("킬라"));
    assert_eq!(embed_info.thumbnail.as_deref(), Some("https://example.com/killa.png"));
    assert_eq!(
        embed_info.description.as_deref(),
        Some("**총 체력**: 960 HP\n**부위별 체력**\n  부위 1: 890 HP\n  부위 2: 70 HP\n")
    );
    let embed_equip = boss_info(&boss, "equip", &spawns);
    assert_eq!(embed_equip.description.as_deref(), Some("**장비 목록**\n- RPK-16\n- Maska-1Sch\n"));
    let embed_drops = boss_info(&boss, "drops", &spawns);
    assert_eq!(embed_drops.description.as_deref(), Some("**드롭 아이템**\n- 킬라의 헬멧\n"));
    let embed_spawns = boss_info(&boss, "spawns", &spawns);
    assert_eq!(
        embed_spawns.description.unwrap(),
        format!("**스폰 위치**\n- 인터체인지 (스폰 확률: {}%)\n", (0.35_f64 * 100.0) as i32)
    );
}

#[test]
fn test_boss_info_unknown_tab() {
    let boss = sample_boss();
    let embed = boss_info(&boss, "unknown", &vec![]);
    assert_eq!(embed.description.as_deref(), Some("알 수 없는 탭입니다."));
}

#[test]
fn test_boss_info_empty_data() {
    let boss = Boss {
        name: "테스트 보스".into(),
        health: None,
        image_poster_link: None,
        equipment: vec![],
        items: vec![],
    };
    assert_eq!(boss_info(&boss, "info", &vec![]).description.as_deref(), Some(""));
    assert_eq!(
        boss_info(&boss, "equip", &vec![]).description.as_deref(),
        Some("장비 정보가 없습니다.")
    );
    assert_eq!(
        boss_info(&boss, "drops", &vec![]).description.as_deref(),
        Some("드롭 아이템 정보가 없습니다.")
    );
    assert_eq!(
        boss_info(&boss, "spawns", &vec![]).description.as_deref(),
        Some("스폰 위치 정보가 없습니다.")
    );
    let single = Boss { health: Some(vec![BossHealth { max: 500 }]), ..boss };
    assert_eq!(
        boss_info(&single, "info", &vec![]).description.as_deref(),
        Some("**총 체력**: 500 HP\n")
    );
}

#[test]
fn test_hideout_info_creates() {
    let station = sample_hideout();
    let embed = hideout_info(&station, 0);
    assert_eq!(embed.title.as_deref(), Some("작업대 (1/1)"));
    assert_eq!(
        embed.description.as_deref(),
        Some(
            "**레벨 1**\n\n**건설 시간**: 1시간\n\n**필요 아이템**\n- 볼트 x3\n\n\
             **필요 시설**\n- 발전기 Lv.1\n"
        )
    );
}

#[test]
fn test_hideout_info_out_of_bounds() {
    let station = sample_hideout();
    let embed = hideout_info(&station, 100);
    assert_eq!(embed.title.as_deref(), Some("작업대 (1/1)"));
    assert!(embed.description.unwrap().starts_with("**레벨 1**"));
    let empty = HideoutStation { id: "s".into(), name: "빈 시설".into(), levels: vec![] };
    let embed = hideout_info(&empty, 3);
    assert_eq!(embed.title.as_deref(), Some("빈 시설 (1/1)"));
    assert_eq!(embed.description.as_deref(), Some("레벨 정보가 없습니다."));
}

#[test]
fn test_craft_info_creates() {
    let craft = sample_craft();
    let embed = craft_info(&craft);
    assert_eq!(embed.title.as_deref(), Some("총기 부품 제작법"));
    assert_eq!(
        embed.description.as_deref(),
        Some(
            "**제작소**: 작업대 Lv.2\n**제작 시간**: 2시간\n\n**생산품**\n\
             - 총기 부품 x1 (~50,000 RUB)\n\n**필요 재료**\n- 볼트 x3 (~30,000 RUB)\n\
             - 너트 x5\n\n**총 재료 비용**: ~30,000 RUB"
        )
    );
}

#[test]
fn test_craft_info_no_prices() {
    let mut craft = sample_craft();
    for item in &mut craft.required_items {
        item.item.avg24h_price = None;
    }
    for item in &mut craft.reward_items {
        item.item.avg24h_price = None;
    }
    let embed = craft_info(&craft);
    assert_eq!(
        embed.description.as_deref(),
        Some(
            "**제작소**: 작업대 Lv.2\n**제작 시간**: 2시간\n\n**생산품**\n- 총기 부품 x1\n\n\
             **필요 재료**\n- 볼트 x3\n- 너트 x5\n"
        )
    );
    craft.reward_items.clear();
    craft.required_items.clear();
    let embed = craft_info(&craft);
    assert_eq!(embed.title.as_deref(), Some("제작 제작법"));
    assert_eq!(embed.description.as_deref(), Some("**제작소**: 작업대 Lv.2\n**제작 시간**: 2시간\n"));
}
