use hunter_town::catalog::{
    AuthoritativeBuildingContent, BaseBuildingDefinition, EconomyItemDefinition, LocalizedName,
};
use hunter_town::contracts::{
    DurableMaterialStock, DurablePlayerAggregate, HunterAgentState, OriginalFlowPlayerState, OriginalScreen,
};
use hunter_town::product_service::HunterServiceGauge;
use hunter_town::roster::{
    DurableHunterHunt, DurableHunterLoot, DurableHunterProfile, DurableHunterRosterState,
    DurableHunterState,
};
use hunter_town::session::{OriginalFlowSession, ServerMessage};
use hunter_town::session_auto_trade::HunterAgentPosition;
use hunter_town::session_commands::ClientCommand;
use hunter_town::session_restore::default_town_building_state;

const ORDINARY_REGION_ID: &str = "region:1";

fn hunter(hunter_id: u32) -> DurableHunterState {
    DurableHunterState {
        hunter_id,
        profile: DurableHunterProfile {
            display_name: format!("Hunter {hunter_id}"),
            class_id: "berserker".to_owned(),
            visual_family: "H1".to_owned(),
            action_state: "idle".to_owned(),
            animation_name: "hunter_stay".to_owned(),
            skills: Vec::new(),
            equipment_slots: Vec::new(),
            ..DurableHunterProfile::default()
        },
        hunt: DurableHunterHunt::default(),
        gold: 1_000,
        current_hp: 100,
        max_hp: 100,
        stamina: HunterServiceGauge { current: 100, maximum: 1_000 },
        satiety: HunterServiceGauge { current: 100, maximum: 1_000 },
        mood: HunterServiceGauge { current: 100, maximum: 1_000 },
        owned_items: Vec::new(),
    }
}

fn operational_migration_roster() -> DurableHunterRosterState {
    DurableHunterRosterState {
        roster_resolved: true,
        wallets_resolved: true,
        hunters: vec![hunter(1), hunter(2)],
        ..DurableHunterRosterState::default()
    }
}

fn loot(item_id: &str, quantity: u32) -> DurableHunterLoot {
    DurableHunterLoot { item_id: item_id.to_owned(), quantity }
}

fn material(id: &str, price: u64) -> EconomyItemDefinition {
    EconomyItemDefinition {
        item_id: id.to_owned(),
        internal_name: None,
        item_type: Some("material".to_owned()),
        town_pays_hunter_gold_per_unit: Some(price),
        localized_names: vec![LocalizedName { locale: "en".to_owned(), name: id.to_owned() }],
        hunter_pays_town_gold_by_tier: Vec::new(),
    }
}

/// Content with a Trading Post footprint, the catalog prices of two
/// materials, and one ordinary hunting region.
fn trade_content() -> AuthoritativeBuildingContent {
    let mut content = AuthoritativeBuildingContent::empty();
    content.catalog.bases.push(BaseBuildingDefinition {
        id: "build_3".to_owned(),
        display_name: "Trading Post".to_owned(),
        category: None,
        max_instances: 1,
        grid_width: 2,
        grid_height: 2,
        movable: Some(true),
        base_sprite_asset_id: None,
    });
    content.gameplay.items.push(material("material:1", 10));
    content.gameplay.items.push(material("material:32", 10));
    content.gameplay.items.push(material("material:92", 20));
    content.ordinary_hunt_regions.push(ORDINARY_REGION_ID.to_owned());
    content
}

fn village(roster: DurableHunterRosterState) -> OriginalFlowSession {
    let mut flow = OriginalFlowSession::from_aggregate_with_content(
        DurablePlayerAggregate {
            navigation: OriginalFlowPlayerState { screen: OriginalScreen::Village, boot_completed: true },
            hunter_roster: roster,
            ..DurablePlayerAggregate::default()
        },
        7,
        trade_content(),
    );
    ensure_test_trading_post(&mut flow);
    flow
}

fn ensure_test_trading_post(flow: &mut OriginalFlowSession) {
    if flow.buildings.buildings.iter().any(|building| building.id == "build_3") {
        return;
    }
    let trading_post = default_town_building_state()
        .buildings
        .into_iter()
        .find(|building| building.id == "build_3")
        .expect("test town includes Trading Post");
    flow.buildings.buildings.push(trading_post);
}

fn hunting_in_ordinary_region(hunter: &mut DurableHunterState) {
    hunter.hunt.zone_id = Some(ORDINARY_REGION_ID.to_owned());
    hunter.hunt.status = "hunting".to_owned();
}

/// Stands the Hunter's agent on its trade destination and lets the arrival
/// settle, as the town world does once the walk ends.
fn advance_until_trade_settles(flow: &mut OriginalFlowSession, hunter_id: u32) {
    let task = flow
        .hunter_roster
        .hunters
        .iter()
        .find(|hunter| hunter.hunter_id == hunter_id)
        .and_then(|hunter| hunter.hunt.pending_trade.clone())
        .expect("Hunter walks to the Trading Post");
    let agents = vec![HunterAgentPosition {
        hunter_id,
        region_id: None,
        entry_stage: 0,
        x: task.interaction_x,
        y: task.interaction_y,
    }];
    flow.settle_arrived_hunter_trades(&agents);
    assert!(flow
        .hunter_roster
        .hunters
        .iter()
        .find(|hunter| hunter.hunter_id == hunter_id)
        .unwrap()
        .hunt
        .pending_trade
        .is_none());
}

fn requested_stock(id: &str, requested: u32, unit_price: u64) -> DurableMaterialStock {
    DurableMaterialStock { id: id.to_owned(), town_quantity: 0, hunter_quantity: 0, requested, unit_price }
}

fn is_accepted(message: &ServerMessage) -> bool {
    matches!(message, ServerMessage::IntentResult { accepted: true, .. })
}

fn rejection_reason(message: &ServerMessage) -> Option<String> {
    match message {
        ServerMessage::IntentResult { accepted: false, reason, .. } => reason.clone(),
        _ => None,
    }
}

#[test]
fn hunter_sells_multiple_catalog_materials_in_one_authoritative_settlement() {
    let mut roster = operational_migration_roster();
    roster.hunters[0].hunt.loot = vec![loot("material:32", 2), loot("material:92", 3)];
    let mut flow = village(roster);
    let town_gold_before = flow.buildings.town_gold;
    let hunter_gold_before = flow.hunter_roster.hunters[0].gold;

    let sold = flow
        .handle_command_with_id(ClientCommand::SellHunterLoot { hunter_id: 1 }, 103)
        .unwrap();

    assert!(is_accepted(&sold.message));
    assert_eq!(flow.buildings.town_gold, town_gold_before);
    assert!(flow.hunter_roster.hunters[0].hunt.pending_trade.is_some());
    advance_until_trade_settles(&mut flow, 1);
    assert_eq!(flow.buildings.town_gold, town_gold_before - 80);
    assert_eq!(flow.hunter_roster.hunters[0].gold, hunter_gold_before + 80);
    assert!(flow.hunter_roster.hunters[0].hunt.loot.is_empty());
    assert_eq!(flow.buildings.trade_settlements.len(), 2);
    assert_eq!(flow.buildings.trade_settlements[0].material_id, "material:32");
    assert_eq!(flow.buildings.trade_settlements[0].total_gold, 20);
    assert_eq!(flow.buildings.trade_settlements[1].material_id, "material:92");
    assert_eq!(flow.buildings.trade_settlements[1].total_gold, 60);
    let stock = |id: &str| {
        flow.buildings.material_stocks.iter().find(|stock| stock.id == id).unwrap().town_quantity
    };
    assert_eq!(stock("material:32"), 2);
    assert_eq!(stock("material:92"), 3);
}

#[test]
fn idle_hunter_auto_sells_only_requested_materials() {
    let mut roster = operational_migration_roster();
    roster.hunters[0].hunt.loot = vec![loot("material:32", 2), loot("material:92", 3)];
    let mut flow = village(roster);
    flow.buildings.material_stocks = vec![requested_stock("material:32", 1, 10)];
    let town_gold_before = flow.buildings.town_gold;
    let hunter_gold_before = flow.hunter_roster.hunters[0].gold;

    flow.auto_sell_requested_hunter_loot();
    assert_eq!(flow.buildings.town_gold, town_gold_before);
    advance_until_trade_settles(&mut flow, 1);

    assert_eq!(flow.buildings.town_gold, town_gold_before - 10);
    assert_eq!(flow.hunter_roster.hunters[0].gold, hunter_gold_before + 10);
    assert_eq!(flow.buildings.material_stocks[0].town_quantity, 1);
    assert_eq!(flow.buildings.material_stocks[0].requested, 0);
    assert_eq!(
        flow.hunter_roster.hunters[0].hunt.loot,
        vec![loot("material:32", 1), loot("material:92", 3)]
    );
    assert_eq!(flow.buildings.trade_settlements.len(), 1);
}

#[test]
fn idle_hunter_can_auto_sell_again_without_starting_a_new_field_trip() {
    let mut roster = operational_migration_roster();
    roster.hunters[0].hunt.loot = vec![loot("material:32", 2)];
    let mut flow = village(roster);
    flow.buildings.material_stocks = vec![requested_stock("material:32", 1, 10)];

    flow.auto_sell_requested_hunter_loot();
    advance_until_trade_settles(&mut flow, 1);
    flow.buildings.material_stocks[0].requested = 1;
    flow.auto_sell_requested_hunter_loot();
    advance_until_trade_settles(&mut flow, 1);

    assert_eq!(flow.buildings.town_gold, 1_480);
    assert_eq!(flow.hunter_roster.hunters[0].gold, 1_020);
    assert!(flow.hunter_roster.hunters[0].hunt.loot.is_empty());
    assert_eq!(flow.buildings.material_stocks[0].town_quantity, 2);
    assert_eq!(flow.buildings.material_stocks[0].requested, 0);
    assert_eq!(flow.buildings.trade_settlements.len(), 2);
    assert_eq!(flow.buildings.field_trip_id, 1);
    assert!(flow.buildings.trade_settlements.iter().all(|settlement| settlement.field_trip_id == 1));
    assert_ne!(
        flow.buildings.trade_settlements[0].settlement_id,
        flow.buildings.trade_settlements[1].settlement_id
    );
}

#[test]
fn ordinary_field_hunter_auto_sells_requested_material_and_ignores_legacy_gold_row() {
    let mut roster = operational_migration_roster();
    hunting_in_ordinary_region(&mut roster.hunters[0]);
    roster.hunters[0].hunt.loot = vec![loot("gold", 500), loot("material:32", 2)];
    let mut flow = village(roster);
    flow.buildings.material_stocks = vec![requested_stock("material:32", 2, 0)];
    let hunter_gold_before = flow.hunter_roster.hunters[0].gold;

    flow.auto_sell_requested_hunter_loot();
    advance_until_trade_settles(&mut flow, 1);

    assert_eq!(flow.buildings.town_gold, 1_480);
    assert_eq!(flow.hunter_roster.hunters[0].gold, hunter_gold_before + 20);
    assert_eq!(flow.buildings.material_stocks[0].unit_price, 10);
    assert!(flow.hunter_roster.hunters[0].hunt.loot.is_empty());
    assert_eq!(flow.buildings.material_stocks[0].town_quantity, 2);
    assert_eq!(flow.buildings.material_stocks[0].requested, 0);
}

#[test]
fn ordinary_field_hunter_sell_command_uses_the_requested_material_lane() {
    let mut roster = operational_migration_roster();
    hunting_in_ordinary_region(&mut roster.hunters[0]);
    roster.hunters[0].hunt.loot = vec![loot("material:32", 2), loot("material:92", 3)];
    let mut flow = village(roster);
    flow.buildings.material_stocks = vec![requested_stock("material:32", 1, 10)];

    let result = flow
        .handle_command_with_id(ClientCommand::SellHunterLoot { hunter_id: 1 }, 8_001)
        .unwrap();

    assert!(is_accepted(&result.message));
    advance_until_trade_settles(&mut flow, 1);
    assert_eq!(flow.buildings.material_stocks[0].town_quantity, 1);
    assert_eq!(flow.buildings.material_stocks[0].requested, 0);
    assert_eq!(flow.hunter_roster.hunters[0].hunt.loot[0].quantity, 1);
    assert_eq!(flow.hunter_roster.hunters[0].hunt.loot[1].quantity, 3);
}

#[test]
fn auto_sale_buys_only_the_quantity_the_town_wallet_can_afford() {
    let mut roster = operational_migration_roster();
    roster.hunters[0].hunt.loot = vec![loot("material:32", 2)];
    let mut flow = village(roster);
    flow.buildings.town_gold = 15;
    flow.buildings.material_stocks = vec![requested_stock("material:32", 2, 10)];
    let hunter_gold_before = flow.hunter_roster.hunters[0].gold;

    flow.auto_sell_requested_hunter_loot();
    advance_until_trade_settles(&mut flow, 1);

    assert_eq!(flow.buildings.town_gold, 5);
    assert_eq!(flow.hunter_roster.hunters[0].gold, hunter_gold_before + 10);
    assert_eq!(flow.buildings.material_stocks[0].town_quantity, 1);
    assert_eq!(flow.buildings.material_stocks[0].requested, 1);
    assert_eq!(flow.hunter_roster.hunters[0].hunt.loot[0].quantity, 1);
}

#[test]
fn settlement_rows_carry_the_command_id_and_numbered_lines() {
    let mut roster = operational_migration_roster();
    roster.hunters[0].hunt.loot = vec![loot("material:92", 1), loot("material:32", 1)];
    let mut flow = village(roster);
    let command_id: u128 = 0x0123_4567_89ab_cdef_0011_2233_4455_6677;
    let message = flow.settle_hunter_loot_internal(command_id, 1, false);
    assert!(is_accepted(&message));
    assert_eq!(flow.buildings.trade_settlements.len(), 2);
    assert_eq!(flow.buildings.trade_settlements[0].settlement_id, "01234567-89ab-cdef-0011-223344556677");
    assert_eq!(flow.buildings.trade_settlements[0].material_id, "material:32");
    assert_eq!(flow.buildings.trade_settlements[1].settlement_id, "01234567-89ab-cdef-0011-223344556677:1");
    assert_eq!(flow.buildings.trade_settlements[1].material_id, "material:92");
    assert_eq!(flow.buildings.town_gold, 1_500 - 30);
    assert_eq!(flow.hunter_roster.hunters[0].gold, 1_030);

    let durable = flow.durable_state();
    let replay = flow.settle_hunter_loot_internal(command_id, 1, false);
    assert!(is_accepted(&replay));
    assert_eq!(flow.durable_state(), durable);
    let conflict = flow.settle_hunter_loot_internal(command_id, 2, false);
    assert_eq!(
        rejection_reason(&conflict).as_deref(),
        Some("command id was already used for a different hunter action")
    );
}

#[test]
fn settlement_refusals_leave_the_town_untouched() {
    let mut roster = operational_migration_roster();
    roster.hunters[0].hunt.loot = vec![loot("material:32", 1)];
    roster.hunters[1].hunt.loot = vec![loot("material:999", 1)];
    let mut flow = village(roster);
    flow.buildings.town_gold = 9;
    let durable = flow.durable_state();

    let poor = flow.settle_hunter_loot_internal(1, 1, false);
    assert_eq!(rejection_reason(&poor).as_deref(), Some("town wallet cannot afford loot"));
    let unknown = flow.settle_hunter_loot_internal(2, 2, false);
    assert_eq!(rejection_reason(&unknown).as_deref(), Some("loot definition is unavailable"));
    let missing = flow.settle_hunter_loot_internal(3, 7, false);
    assert_eq!(rejection_reason(&missing).as_deref(), Some("hunter is not in the active town roster"));
    flow.hunter_roster.hunters[0].hunt.loot.clear();
    let empty = flow.settle_hunter_loot_internal(4, 1, false);
    assert_eq!(rejection_reason(&empty).as_deref(), Some("hunter has no hunt loot"));
    flow.hunter_roster.hunters[0].hunt.status = "hunting".to_owned();
    let busy = flow.settle_hunter_loot_internal(5, 1, false);
    assert_eq!(rejection_reason(&busy).as_deref(), Some("hunter must be idle to sell loot"));
    flow.hunter_roster.hunters[0].hunt.status = "idle".to_owned();
    flow.hunter_roster.hunters[0].hunt.loot = vec![loot("material:32", 1)];
    assert_eq!(flow.durable_state(), durable);
}

#[test]
fn refused_arrival_releases_the_walking_hunter() {
    let mut roster = operational_migration_roster();
    roster.hunters[0].hunt.loot = vec![loot("material:32", 1)];
    let mut flow = village(roster);
    let walk = flow.handle_command_with_id(ClientCommand::SellHunterLoot { hunter_id: 1 }, 40).unwrap();
    assert!(is_accepted(&walk.message));
    flow.buildings.town_gold = 3;
    advance_until_trade_settles(&mut flow, 1);
    let hunter = &flow.hunter_roster.hunters[0];
    assert_eq!(hunter.hunt.status, "idle");
    assert_eq!(hunter.profile.action_state, "idle");
    assert_eq!(hunter.hunt.loot, vec![loot("material:32", 1)]);
    assert_eq!(flow.buildings.town_gold, 3);
}

#[test]
fn next_auto_trade_settlement_id_packs_trip_hunter_and_sequence() {
    let flow = village(operational_migration_roster());
    let expected: u128 = (1u128 << 64) | (2u128 << 32) | 1;
    assert_eq!(flow.next_auto_trade_settlement_id(2), Some(expected));
}

#[test]
fn simulation_tick_starts_the_automatic_sale_of_requested_loot() {
    let mut roster = operational_migration_roster();
    roster.hunters[0].hunt.loot = vec![loot("material:32", 2)];
    let mut flow = village(roster);
    flow.buildings.material_stocks = vec![requested_stock("material:32", 1, 10)];
    let town_gold_before = flow.buildings.town_gold;

    flow.advance_simulation_tick().expect("village tick");

    let task = flow.hunter_roster.hunters[0].hunt.pending_trade.clone().expect("walks to trade");
    assert!(task.requested_only);
    assert_eq!(flow.hunter_roster.hunters[0].profile.action_state, "returning_to_trade");
    assert_eq!(flow.buildings.town_gold, town_gold_before);
    assert!(flow.hunter_roster.hunters[1].hunt.pending_trade.is_none());
}

#[test]
fn simulation_tick_settles_a_trade_once_the_agent_reaches_the_trading_post() {
    let mut roster = operational_migration_roster();
    roster.hunters[0].hunt.loot = vec![loot("material:32", 2)];
    let mut flow = village(roster);
    flow.buildings.material_stocks = vec![requested_stock("material:32", 1, 10)];
    let town_gold_before = flow.buildings.town_gold;
    flow.advance_simulation_tick().expect("village tick");
    let task = flow.hunter_roster.hunters[0].hunt.pending_trade.clone().expect("walks to trade");

    flow.advance_simulation_tick().expect("village tick");
    assert!(flow.hunter_roster.hunters[0].hunt.pending_trade.is_some());

    flow.hunter_world_runtime = vec![HunterAgentState {
        hunter_id: 1,
        x: task.interaction_x,
        y: task.interaction_y,
        region_id: None,
        entry_stage: 0,
    }];
    flow.advance_simulation_tick().expect("village tick");

    assert!(flow.hunter_roster.hunters[0].hunt.pending_trade.is_none());
    assert_eq!(flow.buildings.town_gold, town_gold_before - 10);
    assert_eq!(flow.buildings.material_stocks[0].requested, 0);
    assert_eq!(flow.buildings.trade_settlements.len(), 1);
    assert_eq!(flow.hunter_roster.hunters[0].hunt.loot, vec![loot("material:32", 1)]);
}
