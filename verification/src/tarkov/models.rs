//! The data that the game's data service returns, as plain values.

use vstd::prelude::*;

verus! {

/// The envelope of an answer of the data service: the data, the errors, or both.
pub struct GraphQLResponse<T> {
    pub data: Option<T>,
    pub errors: Option<Vec<GraphQLError>>,
}

/// One error that the data service reports.
#[derive(Clone, Debug)]
pub struct GraphQLError {
    pub message: String,
}

/// An item of the game. `weight` is the weight in kilograms, written with
/// two decimals.
#[derive(Clone, Debug)]
pub struct Item {
    pub id: String,
    pub name: String,
    pub short_name: String,
    pub base_price: i64,
    pub weight: String,
    pub width: i32,
    pub height: i32,
    pub description: Option<String>,
    pub grid_image_link: Option<String>,
    pub icon_link: Option<String>,
    pub avg24h_price: Option<i64>,
    pub low24h_price: Option<i64>,
    pub high24h_price: Option<i64>,
    pub sell_for: Vec<VendorPrice>,
    pub categories: Vec<Category>,
}

/// What one vendor pays for an item.
#[derive(Clone, Debug)]
pub struct VendorPrice {
    pub vendor: Vendor,
    pub price: i64,
    pub currency: String,
}

/// A vendor, by name.
#[derive(Clone, Debug)]
pub struct Vendor {
    pub name: String,
}

/// A category of items, by name.
#[derive(Clone, Debug)]
pub struct Category {
    pub name: String,
}

/// A kind of ammunition, with the figures by which tables are sorted.
#[derive(Clone, Debug)]
pub struct Ammo {
    pub item: AmmoItem,
    pub caliber: String,
    pub damage: i32,
    pub armor_damage: i32,
    pub penetration_power: i32,
    pub projectile_count: Option<i32>,
}

/// The item that a kind of ammunition is.
#[derive(Clone, Debug)]
pub struct AmmoItem {
    pub id: String,
    pub name: String,
    pub short_name: String,
    pub icon_link: Option<String>,
    pub grid_image_link: Option<String>,
}

/// A currency, by name.
#[derive(Clone, Debug)]
pub struct Currency {
    pub name: String,
}

/// A quest, with the quests that must be done before it.
#[derive(Clone, Debug)]
pub struct Task {
    pub id: String,
    pub name: String,
    pub trader: TaskTrader,
    pub map: Option<TaskMap>,
    pub min_player_level: Option<i32>,
    pub objectives: Vec<TaskObjective>,
    pub finish_rewards: Option<TaskRewards>,
    pub task_requirements: Vec<TaskRequirement>,
}

/// The trader who gives a quest.
#[derive(Clone, Debug)]
pub struct TaskTrader {
    pub name: String,
}

/// The map on which a quest takes place.
#[derive(Clone, Debug)]
pub struct TaskMap {
    pub name: String,
}

/// One objective of a quest.
#[derive(Clone, Debug)]
pub struct TaskObjective {
    pub description: String,
    pub optional: bool,
}

/// What finishing a quest gives.
#[derive(Clone, Debug)]
pub struct TaskRewards {
    pub items: Vec<TaskRewardItem>,
}

/// An item among the rewards, with its count.
#[derive(Clone, Debug)]
pub struct TaskRewardItem {
    pub item: RewardItemInfo,
    pub count: i32,
}

/// An item named in a reward or a requirement.
#[derive(Clone, Debug)]
pub struct RewardItemInfo {
    pub name: String,
}

/// A quest that must be done before another.
#[derive(Clone, Debug)]
pub struct TaskRequirement {
    pub task: TaskRequirementRef,
}

/// Names the quest that a requirement points to.
#[derive(Clone, Debug)]
pub struct TaskRequirementRef {
    pub id: String,
    pub name: String,
}

/// An extraction point of a map, with the faction that may use it.
#[derive(Clone, Debug)]
pub struct MapExtract {
    pub name: String,
    pub faction: Option<String>,
}

/// A boss: health by body part, what it wears and what it drops.
#[derive(Clone, Debug)]
pub struct Boss {
    pub name: String,
    pub health: Option<Vec<BossHealth>>,
    pub image_poster_link: Option<String>,
    pub equipment: Vec<BossEquipment>,
    pub items: Vec<BossLootItem>,
}

/// The health of one body part.
#[derive(Clone, Debug)]
pub struct BossHealth {
    pub max: i32,
}

/// One piece of a boss's equipment.
#[derive(Clone, Debug)]
pub struct BossEquipment {
    pub item: EquipmentItem,
}

/// An item of equipment, by name.
#[derive(Clone, Debug)]
pub struct EquipmentItem {
    pub name: String,
}

/// One item that a boss drops.
#[derive(Clone, Debug)]
pub struct BossLootItem {
    pub item: LootItemInfo,
}

/// A dropped item, by name.
#[derive(Clone, Debug)]
pub struct LootItemInfo {
    pub name: String,
}

/// A station of the hideout with its levels.
#[derive(Clone, Debug)]
pub struct HideoutStation {
    pub id: String,
    pub name: String,
    pub levels: Vec<HideoutLevel>,
}

/// One level of a station and what it takes to build.
#[derive(Clone, Debug)]
pub struct HideoutLevel {
    pub level: i32,
    pub construction_time: i32,
    pub item_requirements: Vec<HideoutItemReq>,
    pub station_level_requirements: Vec<StationLevelReq>,
}

/// An item that a level needs, with its count.
#[derive(Clone, Debug)]
pub struct HideoutItemReq {
    pub item: RewardItemInfo,
    pub count: i32,
}

/// Another station that a level needs, with its level.
#[derive(Clone, Debug)]
pub struct StationLevelReq {
    pub station: StationRef,
    pub level: i32,
}

/// A station, by name.
#[derive(Clone, Debug)]
pub struct StationRef {
    pub name: String,
}

/// A recipe: where it is made, how long it takes, what goes in and what comes out.
#[derive(Clone, Debug)]
pub struct Craft {
    pub id: String,
    pub duration: i32,
    pub station: CraftStation,
    pub level: i32,
    pub reward_items: Vec<CraftItem>,
    pub required_items: Vec<CraftItem>,
}

/// The station of a recipe, by name.
#[derive(Clone, Debug)]
pub struct CraftStation {
    pub name: String,
}

/// An item of a recipe, with its count.
#[derive(Clone, Debug)]
pub struct CraftItem {
    pub item: CraftItemInfo,
    pub count: i32,
}

/// An item of a recipe with its average price of the last day.
#[derive(Clone, Debug)]
pub struct CraftItemInfo {
    pub name: String,
    pub avg24h_price: Option<i64>,
}

/// A trader, with what each of its levels asks for.
#[derive(Clone, Debug)]
pub struct Trader {
    pub id: String,
    pub name: String,
    pub description: Option<String>,
    pub image_link: Option<String>,
    pub reset_time: Option<String>,
    pub levels: Vec<TraderLevel>,
    pub currency: Currency,
}

/// One level of a trader. `required_reputation` is the reputation asked
/// for, written with two decimals.
#[derive(Clone, Debug)]
pub struct TraderLevel {
    pub level: i32,
    pub required_player_level: i32,
    pub required_reputation: String,
    pub required_commerce: i64,
}

/// A map of the game, with its bosses and its extraction points.
#[derive(Clone, Debug)]
pub struct GameMap {
    pub id: String,
    pub name: String,
    pub description: Option<String>,
    pub raid_duration: Option<i32>,
    pub players: Option<String>,
    pub bosses: Vec<MapBoss>,
    pub extracts: Vec<MapExtract>,
}

/// A boss on a map. `spawn_percent` is the chance that it appears there,
/// in whole percent.
#[derive(Clone, Debug)]
pub struct MapBoss {
    pub name: String,
    pub spawn_percent: i32,
}

} // verus!
