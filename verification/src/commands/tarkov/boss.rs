//! The boss command: which bosses a search finds, the menu of them, the
//! tabs of a boss's card, and the maps on which a boss appears.

use crate::commands::tarkov::{contains_lower, hit_places, mentions, needle_of, offered, options_are};
use crate::tarkov::embed::total_health;
use crate::tarkov::models::{Boss, BossHealth, GameMap, MapBoss};
use crate::text::{append_str, lowercase, push_signed_decimal_wide, signed_decimal, str_eq, string_of};
use crate::utils::components::{are_tab_buttons, menu_count, tab_buttons, ActionRow};
use vstd::prelude::*;

verus! {

/// What the menu says of the health of a boss: the total, or nothing
/// where it is not known.
pub open spec fn health_hint(health: Option<Vec<BossHealth>>) -> Seq<char> {
    match health {
        Some(parts) => "체력 "@ + signed_decimal(total_health(parts@, parts@.len())) + " HP"@,
        None => Seq::empty(),
    }
}

/// What the menu offers of `boss`: its name as value and as label, and
/// its health.
pub open spec fn boss_option(boss: Boss) -> (Seq<char>, Seq<char>, Seq<char>) {
    (boss.name@, boss.name@, health_hint(boss.health))
}

/// Whether each of `bosses` mentions `needle` in its name.
pub open spec fn boss_hits(bosses: Seq<Boss>, needle: Seq<char>) -> Seq<bool> {
    Seq::new(bosses.len(), |i: int| mentions(bosses[i].name@, needle))
}

/// The places of the bosses whose names hold the search word `name`, in
/// any mix of upper and lower case.
pub fn search_bosses(bosses: &Vec<Boss>, name: &str) -> (places: Vec<usize>)
    ensures
        places@ == hit_places(boss_hits(bosses@, lowercase(name@)), bosses@.len()),
{
    let needle = needle_of(name);
    let mut places: Vec<usize> = Vec::new();
    let mut i: usize = 0;
    while i < bosses.len()
        invariant
            i <= bosses.len(),
            needle@ == lowercase(name@),
            places@ == hit_places(boss_hits(bosses@, needle@), i as nat),
        decreases bosses.len() - i,
    {
        if contains_lower(bosses[i].name.as_str(), &needle) {
            places.push(i);
        }
        i = i + 1;
    }
    places
}

/// Writes what the menu says of the health of a boss.
pub fn make_health_hint(health: &Option<Vec<BossHealth>>) -> (hint: String)
    ensures
        hint@ == health_hint(*health),
{
    match health {
        Some(parts) => {
            let mut total: i128 = 0;
            let mut i: usize = 0;
            while i < parts.len()
                invariant
                    i <= parts.len(),
                    total == total_health(parts@, i as nat),
                    -0x8000_0000 * i <= total <= 0x8000_0000 * i,
                decreases parts.len() - i,
            {
                total = total + parts[i].max as i128;
                i = i + 1;
            }
            let mut out: Vec<char> = Vec::new();
            append_str(&mut out, "체력 ");
            push_signed_decimal_wide(&mut out, total);
            append_str(&mut out, " HP");
            assert(out@ =~= health_hint(*health));
            string_of(&out)
        },
        None => String::new(),
    }
}

/// The options of the menu of the bosses found: the first 25.
pub fn boss_options(bosses: &Vec<Boss>) -> (options: Vec<(String, String, String)>)
    ensures
        options_are(
            options@,
            Seq::new(offered(bosses@.len()), |i: int| boss_option(bosses@[i])),
        ),
{
    let count = menu_count(bosses.len());
    let mut options: Vec<(String, String, String)> = Vec::new();
    let mut i: usize = 0;
    while i < count
        invariant
            i <= count <= bosses.len(),
            options@.len() == i,
            forall|k: int|
                0 <= k < i ==> (#[trigger] options@[k]).0@ == boss_option(bosses@[k]).0
                    && options@[k].1@ == boss_option(bosses@[k]).1 && options@[k].2@ == boss_option(
                    bosses@[k],
                ).2,
        decreases count - i,
    {
        let boss = &bosses[i];
        options.push((boss.name.clone(), boss.name.clone(), make_health_hint(&boss.health)));
        i = i + 1;
    }
    options
}

/// The tabs of a boss's card, each with the end of its identifier, its
/// label and whether it is shown.
pub open spec fn boss_tabs(active_tab: Seq<char>) -> Seq<(&'static str, &'static str, bool)> {
    seq![
        ("info", "기본정보", active_tab == "info"@),
        ("equip", "장비", active_tab == "equip"@),
        ("drops", "드롭 아이템", active_tab == "drops"@),
        ("spawns", "스폰 위치", active_tab == "spawns"@),
    ]
}

/// The row of buttons under a boss's card that switch between its tabs.
pub fn tab_components(active_tab: &str, boss_name: &str) -> (rows: Vec<ActionRow>)
    ensures
        rows@.len() == 1,
        rows@[0] is Buttons,
        are_tab_buttons(rows@[0]->Buttons_0@, "boss"@, boss_name@, boss_tabs(active_tab@)),
{
    let mut tabs: Vec<(&str, &str, bool)> = Vec::new();
    tabs.push(("info", "기본정보", str_eq(active_tab, "info")));
    tabs.push(("equip", "장비", str_eq(active_tab, "equip")));
    tabs.push(("drops", "드롭 아이템", str_eq(active_tab, "drops")));
    tabs.push(("spawns", "스폰 위치", str_eq(active_tab, "spawns")));
    assert(tabs@ =~= boss_tabs(active_tab@));
    let mut rows: Vec<ActionRow> = Vec::new();
    rows.push(tab_buttons("boss", boss_name, &tabs));
    rows
}

/// The chance, in whole percent, of the first of `bosses` with the name
/// `name`; `None` where none has that name.
pub open spec fn chance_on(bosses: Seq<MapBoss>, name: Seq<char>) -> Option<i32>
    decreases bosses.len(),
{
    if bosses.len() == 0 {
        None
    } else if bosses[0].name@ == name {
        Some(bosses[0].spawn_percent)
    } else {
        chance_on(bosses.drop_first(), name)
    }
}

/// The maps among the first `count` of `maps` on which the boss `name`
/// appears, each with its chance there, in order.
pub open spec fn spawns_of(maps: Seq<GameMap>, name: Seq<char>, count: nat) -> Seq<
    (Seq<char>, i32),
>
    decreases count,
{
    if count == 0 {
        Seq::empty()
    } else {
        match chance_on(maps[count - 1].bosses@, name) {
            Some(percent) => spawns_of(maps, name, (count - 1) as nat).push(
                (maps[count - 1].name@, percent),
            ),
            None => spawns_of(maps, name, (count - 1) as nat),
        }
    }
}

/// The chance, in whole percent, with which the boss `name` appears on
/// `map`: that of the first boss of that name on the map.
pub fn spawn_chance(map: &GameMap, name: &str) -> (chance: Option<i32>)
    ensures
        chance == chance_on(map.bosses@, name@),
{
    let len = map.bosses.len();
    let mut i: usize = 0;
    assert(map.bosses@.subrange(0, len as int) =~= map.bosses@);
    while i < len
        invariant
            len == map.bosses.len(),
            i <= len,
            chance_on(map.bosses@, name@) == chance_on(
                map.bosses@.subrange(i as int, len as int),
                name@,
            ),
        decreases len - i,
    {
        let ghost tail = map.bosses@.subrange(i as int, len as int);
        assert(tail[0] == map.bosses@[i as int]);
        assert(tail.drop_first() =~= map.bosses@.subrange(i + 1, len as int));
        if str_eq(map.bosses[i].name.as_str(), name) {
            return Some(map.bosses[i].spawn_percent);
        }
        i = i + 1;
    }
    None
}

/// The maps on which `boss` appears, each with the chance in whole
/// percent: the maps that list a boss of its name, in their order.
pub fn build_spawn_maps(boss: &Boss, maps: &Vec<GameMap>) -> (spawns: Vec<(String, i32)>)
    ensures
        spawns@.len() == spawns_of(maps@, boss.name@, maps@.len()).len(),
        forall|k: int|
            0 <= k < spawns@.len() ==> (#[trigger] spawns@[k]).0@ == spawns_of(
                maps@,
                boss.name@,
                maps@.len(),
            )[k].0 && spawns@[k].1 == spawns_of(maps@, boss.name@, maps@.len())[k].1,
{
    let mut spawns: Vec<(String, i32)> = Vec::new();
    let mut i: usize = 0;
    while i < maps.len()
        invariant
            i <= maps.len(),
            spawns@.len() == spawns_of(maps@, boss.name@, i as nat).len(),
            forall|k: int|
                0 <= k < spawns@.len() ==> (#[trigger] spawns@[k]).0@ == spawns_of(
                    maps@,
                    boss.name@,
                    i as nat,
                )[k].0 && spawns@[k].1 == spawns_of(maps@, boss.name@, i as nat)[k].1,
        decreases maps.len() - i,
    {
        if let Some(percent) = spawn_chance(&maps[i], boss.name.as_str()) {
            spawns.push((maps[i].name.clone(), percent));
        }
        i = i + 1;
    }
    spawns
}

} // verus!
