use vstd::prelude::*;

use crate::product_service::ServiceEffectKind;
use crate::roster::{DurableHunterRosterState, DurableHunterState};

verus! {

/// Version of the durable player aggregate this library writes.
pub const DURABLE_PLAYER_SCHEMA_VERSION: u16 = 17;

/// Highest gear enhancement level.
pub const MAX_GEAR_ENHANCEMENT_LEVEL: u8 = 20;

/// Town grid bounds (inclusive minimum, exclusive maximum edge).
pub const TOWN_GRID_MIN: i32 = -32;
pub const TOWN_GRID_MAX: i32 = 32;

/// Largest quantity a single production order may request.
pub const MAX_PRODUCTION_QUANTITY: u32 = 1_000;

/// Town navigation grid geometry in scene pixels.
pub const TOWN_NAV_CELL_WIDTH: i32 = 24;
pub const TOWN_NAV_CELL_HEIGHT: i32 = 18;
pub const TOWN_NAV_ORIGIN_X: i32 = 1627;
pub const TOWN_NAV_ORIGIN_Y: i32 = 600;

/// Authoritative navigation screen of a session.
#[derive(Clone, Copy, Debug, PartialEq, Eq, Structural)]
pub enum OriginalScreen {
    Boot,
    Village,
    HunterRoster,
    Field,
}

/// Entries of the village bottom menu.
#[derive(Clone, Copy, Debug, PartialEq, Eq, Structural)]
pub enum BottomMenuIntent {
    Build,
    Character,
    Archive,
    Store,
    Raid,
}

/// What the shared world currently renders.
#[derive(Clone, Copy, Debug, PartialEq, Eq, Structural)]
pub enum WorldMode {
    Inactive,
    Village,
    Field,
}

/// Kind of a projected world entity.
#[derive(Clone, Copy, Debug, PartialEq, Eq, Structural)]
pub enum WorldEntityKind {
    Hunter,
    Npc,
    Monster,
}

/// Presentation state of a projected world entity.
#[derive(Clone, Copy, Debug, PartialEq, Eq, Structural)]
pub enum WorldEntityActionState {
    Idle,
    Walking,
    Attacking,
    Dead,
}

/// Facing of a projected world entity.
#[derive(Clone, Copy, Debug, PartialEq, Eq, Structural)]
pub enum Facing {
    Left,
    Right,
}

/// Navigation state of a player.
#[derive(Clone, Copy, Debug, PartialEq, Eq, Structural)]
pub struct OriginalFlowPlayerState {
    pub screen: OriginalScreen,
    pub boot_completed: bool,
}

impl Default for OriginalFlowPlayerState {
    fn default() -> (state: Self)
        ensures
            state.screen == OriginalScreen::Boot,
            !state.boot_completed,
    {
        OriginalFlowPlayerState { screen: OriginalScreen::Boot, boot_completed: false }
    }
}

/// Town stock of one material.
#[derive(Clone, Debug, PartialEq, Eq)]
pub struct DurableMaterialStock {
    pub id: String,
    pub town_quantity: u32,
    pub hunter_quantity: u32,
    pub requested: u32,
    pub unit_price: u64,
}

/// Stock of one product at one building instance.
#[derive(Clone, Debug, PartialEq, Eq)]
pub struct DurableProductStock {
    pub building_instance_id: String,
    pub product_id: String,
    pub quantity: u32,
}

/// One individually rolled piece of crafted gear waiting for sale.
#[derive(Clone, Debug, PartialEq, Eq)]
pub struct DurableCraftedGearStock {
    pub building_instance_id: String,
    pub gear_instance_id: u128,
    pub product_id: String,
    pub gear_kind: String,
    pub rating: u16,
    pub quality: u8,
    pub primary_stat: u32,
    pub option_type: u8,
    pub option_value: u16,
    pub icon_path: String,
    pub ruleset: String,
}

/// A placed building instance. `id` always names a base building.
#[derive(Clone, Debug, PartialEq, Eq)]
pub struct DurableBuilding {
    pub instance_id: String,
    pub id: String,
    pub equipped_skin_id: Option<u64>,
    pub level: u8,
    pub uses: u32,
    pub grid_x: i32,
    pub grid_y: i32,
    pub seeded_by: Option<String>,
}

/// One settled line of a Hunter loot sale.
#[derive(Clone, Debug, PartialEq, Eq)]
pub struct DurableTradeSettlement {
    pub settlement_id: String,
    pub field_trip_id: u64,
    pub material_id: String,
    pub quantity: u32,
    pub unit_price: u64,
    pub total_gold: u64,
}

/// The durable town: wallet, buildings, stocks and settlements.
#[derive(Clone, Debug, PartialEq, Eq)]
pub struct DurableBuildingState {
    pub town_gold: u64,
    pub buildings: Vec<DurableBuilding>,
    pub hunter_materials: u32,
    pub materials: u32,
    pub runes: u32,
    pub weapons: u32,
    pub armor: u32,
    pub material_stocks: Vec<DurableMaterialStock>,
    pub product_stocks: Vec<DurableProductStock>,
    pub crafted_gear_stocks: Vec<DurableCraftedGearStock>,
    pub hunter_equipment_purchases: u32,
    pub town_seed_version: u16,
    pub next_building_instance_id: u64,
    pub field_trip_id: u64,
    pub settled_field_trip_id: u64,
    pub trade_settlements: Vec<DurableTradeSettlement>,
}

/// The initial material stocks of a town: none.
pub fn default_material_stocks() -> (stocks: Vec<DurableMaterialStock>)
    ensures
        stocks@.len() == 0,
{
    Vec::new()
}

impl Default for DurableBuildingState {
    /// A fresh town: 1,500 gold, 20 Hunter materials, nothing built.
    fn default() -> (state: Self)
        ensures
            state.town_gold == 1_500,
            state.buildings@.len() == 0,
            state.hunter_materials == 20,
            state.materials == 0 && state.runes == 0 && state.weapons == 0 && state.armor == 0,
            state.material_stocks@.len() == 0,
            state.product_stocks@.len() == 0,
            state.crafted_gear_stocks@.len() == 0,
            state.hunter_equipment_purchases == 0,
            state.town_seed_version == 0,
            state.next_building_instance_id == 1,
            state.field_trip_id == 0,
            state.settled_field_trip_id == 0,
            state.trade_settlements@.len() == 0,
    {
        DurableBuildingState {
            town_gold: 1_500,
            buildings: Vec::new(),
            hunter_materials: 20,
            materials: 0,
            runes: 0,
            weapons: 0,
            armor: 0,
            material_stocks: default_material_stocks(),
            product_stocks: Vec::new(),
            crafted_gear_stocks: Vec::new(),
            hunter_equipment_purchases: 0,
            town_seed_version: 0,
            next_building_instance_id: 1,
            field_trip_id: 0,
            settled_field_trip_id: 0,
            trade_settlements: Vec::new(),
        }
    }
}

/// Monster density chosen for one hunting map.
#[derive(Clone, Debug, PartialEq, Eq)]
pub struct DurableMonsterMapDensity {
    pub map_id: String,
    pub density_level: u8,
}

/// Durable monster density configuration, with the fields of the older
/// single-map format kept readable.
#[derive(Clone, Debug, PartialEq, Eq)]
pub struct DurableMonsterFieldConfig {
    pub densities: Vec<DurableMonsterMapDensity>,
    pub legacy_map_id: Option<String>,
    pub legacy_density_level: Option<u8>,
}

impl Default for DurableMonsterFieldConfig {
    /// No density chosen for any map; restoring gives every map level 1.
    fn default() -> (config: Self)
        ensures
            config.densities@.len() == 0,
            config.legacy_map_id is None,
            config.legacy_density_level is None,
    {
        DurableMonsterFieldConfig { densities: Vec::new(), legacy_map_id: None, legacy_density_level: None }
    }
}

/// An in-progress paid service visit (Inn, Infirmary, Restaurant, Tavern).
#[derive(Clone, Debug, PartialEq, Eq)]
pub struct DurableProductServiceVisit {
    pub hunter_id: u32,
    pub building_instance_id: String,
    pub building_id: String,
    pub product_id: String,
    pub effect_kind: ServiceEffectKind,
    pub remaining_ms: u64,
    pub effect_value: u64,
    pub payment_gold: u64,
}

/// All in-progress service visits.
#[derive(Clone, Debug, PartialEq, Eq)]
pub struct DurableProductServiceState {
    pub visits: Vec<DurableProductServiceVisit>,
}

impl Default for DurableProductServiceState {
    /// No visit in progress.
    fn default() -> (state: Self)
        ensures
            state.visits@.len() == 0,
    {
        DurableProductServiceState { visits: Vec::new() }
    }
}

/// A treatment of the older Infirmary-only format.
#[derive(Clone, Debug, PartialEq, Eq)]
pub struct DurableInfirmaryTreatment {
    pub hunter_id: u32,
    pub building_instance_id: String,
    pub product_id: String,
    pub remaining_ms: u64,
    pub effect_value: u64,
    pub payment_gold: u64,
}

/// The older Infirmary-only durable section, migrated on restore.
#[derive(Clone, Debug, PartialEq, Eq)]
pub struct DurableLegacyInfirmaryState {
    pub roster_resolved: bool,
    pub hunters: Vec<DurableHunterState>,
    pub treatments: Vec<DurableInfirmaryTreatment>,
}

/// Continuity of one Hunter's world actor: where it stands and whether it is
/// inside a hunting region.
#[derive(Clone, Debug, PartialEq, Eq)]
pub struct HunterAgentState {
    pub hunter_id: u32,
    pub x: i32,
    pub y: i32,
    pub region_id: Option<String>,
    pub entry_stage: u8,
}

/// Everything a player session persists.
#[derive(Clone, Debug, PartialEq, Eq)]
pub struct DurablePlayerAggregate {
    pub schema_version: u16,
    pub navigation: OriginalFlowPlayerState,
    pub buildings: DurableBuildingState,
    pub hunter_roster: DurableHunterRosterState,
    pub product_services: DurableProductServiceState,
    pub monster_field_config: DurableMonsterFieldConfig,
    pub hunter_world_runtime: Vec<HunterAgentState>,
    pub legacy_infirmary: Option<DurableLegacyInfirmaryState>,
}

impl Default for DurablePlayerAggregate {
    /// A fresh player at the current schema: boot screen, a fresh town, an
    /// unresolved empty roster, no visits, no world actors.
    fn default() -> (aggregate: Self)
        ensures
            aggregate.schema_version == DURABLE_PLAYER_SCHEMA_VERSION,
            aggregate.navigation == (OriginalFlowPlayerState { screen: OriginalScreen::Boot, boot_completed: false }),
            aggregate.buildings.town_gold == 1_500,
            aggregate.buildings.buildings@.len() == 0,
            aggregate.buildings.hunter_materials == 20,
            aggregate.buildings.next_building_instance_id == 1,
            aggregate.hunter_roster.hunters@.len() == 0,
            aggregate.hunter_roster.waiting_queue@.len() == 0,
            !aggregate.hunter_roster.roster_resolved,
            aggregate.product_services.visits@.len() == 0,
            aggregate.monster_field_config.densities@.len() == 0,
            aggregate.hunter_world_runtime@.len() == 0,
            aggregate.legacy_infirmary is None,
    {
        DurablePlayerAggregate {
            schema_version: DURABLE_PLAYER_SCHEMA_VERSION,
            navigation: OriginalFlowPlayerState::default(),
            buildings: DurableBuildingState::default(),
            hunter_roster: DurableHunterRosterState::default(),
            product_services: DurableProductServiceState::default(),
            monster_field_config: DurableMonsterFieldConfig::default(),
            hunter_world_runtime: Vec::new(),
            legacy_infirmary: None,
        }
    }
}

} // verus!
