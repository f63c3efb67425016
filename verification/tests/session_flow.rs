use hunter_town::hunter_projection::{
    equipment_slot_snapshots, gear_enhancement_task_snapshot, gear_enhancement_snapshots, loot_snapshots, material_snapshots, skill_snapshots,
};
use hunter_town::roster::{DurableEquipmentSlot, DurableHunterSkill};
use hunter_town::catalog::{
    AuthoritativeBuildingContent, BaseBuildingDefinition, EconomyItemDefinition,
    EconomyProductDefinition, GearProductRoute, LocalizedName, ServiceDefinition,
};
use hunter_town::contracts::{
    DurableBuilding, DurableMaterialStock, DurablePlayerAggregate, DurableProductServiceState,
    DurableProductServiceVisit, DurableProductStock, OriginalFlowPlayerState, OriginalScreen,
    DURABLE_PLAYER_SCHEMA_VERSION,
};
use hunter_town::product_service::{HunterServiceGauge, ServiceEffectKind};
use hunter_town::roster::{
    hunter_service_gauge, DurableGearEnhancementTask, DurableHunterHunt, DurableHunterLoot,
    DurableHunterOwnedItem, DurableHunterProfile, DurableHunterRosterState, DurableHunterState,
    GearEnhancementTaskStatus,
};
use hunter_town::session::{OriginalFlowSession, ServerMessage};
use hunter_town::session_auto_trade::HunterAgentPosition;
use hunter_town::session_commands::ClientCommand;
use hunter_town::session_restore::default_town_building_state;
use uuid::Uuid;

const TEST_BANDAGE_ID: &str = "product:5";
const FIXTURE_HUNT_ZONE_ID: &str = "fixture-hunt-zone";

fn profile(hunter_id: u32) -> DurableHunterProfile {
    DurableHunterProfile {
        display_name: format!("Hunter {hunter_id}"),
        class_id: "berserker".to_owned(),
        visual_family: "H1".to_owned(),
        action_state: "idle".to_owned(),
        animation_name: "hunter_stay".to_owned(),
        skills: Vec::new(),
        equipment_slots: Vec::new(),
        ..DurableHunterProfile::default()
    }
}

fn hunter(hunter_id: u32, gold: u64, current_hp: u64, max_hp: u64) -> DurableHunterState {
    DurableHunterState {
        hunter_id,
        profile: profile(hunter_id),
        hunt: DurableHunterHunt::default(),
        gold,
        current_hp,
        max_hp,
        stamina: HunterServiceGauge { current: 100, maximum: 1_000 },
        satiety: HunterServiceGauge { current: 100, maximum: 1_000 },
        mood: HunterServiceGauge { current: 100, maximum: 1_000 },
        owned_items: Vec::new(),
    }
}

/// The resolved two-Hunter roster the migration starts from.
fn operational_migration_roster() -> DurableHunterRosterState {
    DurableHunterRosterState {
        roster_resolved: true,
        wallets_resolved: true,
        hunters: vec![hunter(1, 1_000, 100, 100), hunter(2, 1_000, 100, 100)],
        ..DurableHunterRosterState::default()
    }
}

fn base(id: &str, width: u16, height: u16) -> BaseBuildingDefinition {
    BaseBuildingDefinition {
        id: id.to_owned(),
        display_name: id.to_owned(),
        category: None,
        max_instances: 1,
        grid_width: width,
        grid_height: height,
        movable: Some(true),
        base_sprite_asset_id: None,
    }
}

fn material(id: &str, price: u64) -> EconomyItemDefinition {
    EconomyItemDefinition {
        item_id: id.to_owned(),
        internal_name: None,
        item_type: Some("material".to_owned()),
        town_pays_hunter_gold_per_unit: Some(price),
        localized_names: vec![LocalizedName { locale: "en".to_owned(), name: id.to_owned() }],
        hunter_pays_town_gold_by_tier: Vec::new(),
    }
}

/// Building content with a Trading Post footprint and two priced materials.
fn trade_content() -> AuthoritativeBuildingContent {
    let mut content = AuthoritativeBuildingContent::empty();
    content.catalog.bases.push(base("build_3", 2, 2));
    content.gameplay.items.push(material("material:32", 10));
    content.gameplay.items.push(material("material:92", 10));
    content
}

fn service_product(product_id: &str, building_id: &str) -> EconomyProductDefinition {
    EconomyProductDefinition {
        product_id: product_id.to_owned(),
        building_id: Some(building_id.to_owned()),
        duration_ms: Some(600),
        inputs: Vec::new(),
        outputs: Vec::new(),
        sale_price: Vec::new(),
        service: Some(ServiceDefinition {
            required_level: 0,
            use_money: 90,
            effect_value: 250,
            service_time_ms: 600,
        }),
        conversion_options: Vec::new(),
        gear_route: None,
    }
}

fn infirmary_flow(roster_resolved: bool) -> OriginalFlowSession {
    let mut aggregate = DurablePlayerAggregate {
        navigation: OriginalFlowPlayerState {
            screen: OriginalScreen::Village,
            boot_completed: true,
        },
        buildings: default_town_building_state(),
        hunter_roster: DurableHunterRosterState {
            roster_resolved,
            wallets_resolved: roster_resolved,
            hunters: (1..=5).map(|hunter_id| hunter(hunter_id, 1_000, 100, 1_000)).collect(),
            ..DurableHunterRosterState::default()
        },
        product_services: DurableProductServiceState { visits: Vec::new() },
        ..DurablePlayerAggregate::default()
    };
    let infirmary_instance_id = aggregate
        .buildings
        .buildings
        .iter()
        .find(|building| building.id == "build_12")
        .expect("test infirmary")
        .instance_id
        .clone();
    aggregate.buildings.product_stocks.push(DurableProductStock {
        building_instance_id: infirmary_instance_id,
        product_id: TEST_BANDAGE_ID.to_owned(),
        quantity: 5,
    });
    let mut content = AuthoritativeBuildingContent::empty();
    content.gameplay.products.push(service_product(TEST_BANDAGE_ID, "build_12"));
    OriginalFlowSession::from_aggregate_with_content(aggregate, 7, content)
}

fn infirmary_instance_id(flow: &OriginalFlowSession) -> String {
    flow.buildings
        .buildings
        .iter()
        .find(|building| building.id == "build_12")
        .expect("test infirmary")
        .instance_id
        .clone()
}

fn ensure_test_trading_post(flow: &mut OriginalFlowSession) {
    if flow.buildings.buildings.iter().any(|building| building.id == "build_3") {
        return;
    }
    let trading_post = default_town_building_state()
        .buildings
        .into_iter()
        .find(|building| building.id == "build_3")
        .expect("test town includes Trading Post");
    flow.buildings.buildings.push(trading_post);
}

fn rejection_reason(message: &ServerMessage) -> Option<String> {
    match message {
        ServerMessage::IntentResult { accepted: false, reason, .. } => reason.clone(),
        _ => None,
    }
}

fn is_accepted(message: &ServerMessage) -> bool {
    matches!(message, ServerMessage::IntentResult { accepted: true, .. })
}

fn village_aggregate(roster: DurableHunterRosterState) -> DurablePlayerAggregate {
    DurablePlayerAggregate {
        navigation: OriginalFlowPlayerState {
            screen: OriginalScreen::Village,
            boot_completed: true,
        },
        hunter_roster: roster,
        ..DurablePlayerAggregate::default()
    }
}

#[test]
fn terminal_enhancement_task_is_released_when_restoring_a_session() {
    let mut roster = operational_migration_roster();
    roster.hunters[0].hunt.gear_enhancement = Some(DurableGearEnhancementTask {
        status: GearEnhancementTaskStatus::Configuring,
        stop_reason: Some("evidence_disabled".to_owned()),
        ..DurableGearEnhancementTask::default()
    });
    roster.hunters[0].profile.action_state = "configuring_enhancement".to_owned();

    let flow = OriginalFlowSession::from_aggregate(
        DurablePlayerAggregate {
            navigation: OriginalFlowPlayerState {
                screen: OriginalScreen::Village,
                boot_completed: true,
            },
            buildings: default_town_building_state(),
            hunter_roster: roster,
            ..DurablePlayerAggregate::default()
        },
        7,
    );

    assert!(flow.hunter_roster.hunters[0].hunt.gear_enhancement.is_none());
    assert_eq!(flow.hunter_roster.hunters[0].profile.action_state, "idle");
    assert_eq!(flow.hunter_roster.hunters[0].profile.animation_name, "hunter_stay");
}

#[test]
fn legacy_enhancement_task_and_orphaned_action_are_released_on_restore() {
    let mut roster = operational_migration_roster();
    roster.hunters[0].hunt.gear_enhancement = Some(DurableGearEnhancementTask {
        building_instance_id: "forge-legacy".to_owned(),
        status: GearEnhancementTaskStatus::WaitingForInteraction,
        interaction_x: 1,
        interaction_y: 2,
        ..DurableGearEnhancementTask::default()
    });
    roster.hunters[0].profile.action_state = "waiting_for_enhancement_interaction".to_owned();
    roster.hunters[1].profile.action_state = "configuring_enhancement".to_owned();

    let flow = OriginalFlowSession::from_aggregate(
        DurablePlayerAggregate {
            navigation: OriginalFlowPlayerState {
                screen: OriginalScreen::Village,
                boot_completed: true,
            },
            buildings: default_town_building_state(),
            hunter_roster: roster,
            ..DurablePlayerAggregate::default()
        },
        7,
    );

    assert!(flow.hunter_roster.hunters[0].hunt.gear_enhancement.is_none());
    assert!(flow.hunter_roster.hunters[1].hunt.gear_enhancement.is_none());
    assert_eq!(flow.hunter_roster.hunters[0].profile.action_state, "idle");
    assert_eq!(flow.hunter_roster.hunters[1].profile.action_state, "idle");
}

#[test]
fn infirmary_fails_closed_when_hunter_roster_is_unresolved() {
    let mut flow = infirmary_flow(false);
    let instance_id = infirmary_instance_id(&flow);
    let stock_before = flow.buildings.product_stocks[0].quantity;
    let result = flow
        .handle_command(ClientCommand::StartInfirmaryTreatment {
            instance_id,
            hunter_id: 1,
            product_id: TEST_BANDAGE_ID.to_owned(),
        })
        .expect("binding-blocked result");

    assert!(matches!(result.message, ServerMessage::BindingBlocked { .. }));
    assert!(!result.durable_state_changed);
    assert_eq!(flow.buildings.product_stocks[0].quantity, stock_before);
    let snapshot = flow.infirmary_snapshot();
    assert!(!snapshot.roster_resolved);
    assert_eq!(
        snapshot.blockers,
        vec![
            "hunter_roster_binding",
            "hunter_health_state_binding",
            "hunter_wallet_state_binding",
        ]
    );
    assert!(snapshot.active.is_empty());
}

#[test]
fn infirmary_consumes_stock_then_applies_healing_and_payment_on_completion() {
    let mut flow = infirmary_flow(true);
    let instance_id = infirmary_instance_id(&flow);
    let gold_before = flow.buildings.town_gold;
    let hunter_gold_before = flow.hunter_roster.hunters[0].gold;
    let accepted = flow
        .handle_command(ClientCommand::StartInfirmaryTreatment {
            instance_id,
            hunter_id: 1,
            product_id: TEST_BANDAGE_ID.to_owned(),
        })
        .expect("treatment result");

    assert!(is_accepted(&accepted.message));
    assert!(accepted.durable_state_changed);
    assert_eq!(flow.buildings.product_stocks[0].quantity, 4);
    assert_eq!(flow.hunter_roster.hunters[0].gold, hunter_gold_before - 90);
    let started = flow.infirmary_snapshot();
    assert_eq!(started.slots, 3);
    assert_eq!(started.available_slots, 2);
    assert_eq!(started.active[0].remaining_ms, 600);
    assert_eq!(started.active[0].effect_value, 250);
    assert_eq!(started.active[0].payment_gold, 90);
    assert_eq!(started.hunters[0].treatment_state, "treating");

    assert!(flow.advance_visual_clock_by(200));
    assert!(flow.advance_visual_clock_by(200));
    assert_eq!(flow.infirmary_snapshot().active[0].remaining_ms, 200);
    assert_eq!(flow.hunter_roster.hunters[0].current_hp, 100);
    assert_eq!(flow.buildings.town_gold, gold_before);

    assert!(flow.advance_visual_clock_by(200));
    assert!(flow.infirmary_snapshot().active.is_empty());
    assert_eq!(flow.hunter_roster.hunters[0].current_hp, 350);
    assert_eq!(flow.buildings.town_gold, gold_before + 90);
    assert_eq!(
        flow.buildings.town_gold + flow.hunter_roster.hunters[0].gold,
        gold_before + hunter_gold_before
    );
    assert_eq!(flow.infirmary_snapshot().hunters[0].treatment_state, "idle");
}

#[test]
fn product_service_rejects_insufficient_hunter_gold_without_consuming_stock() {
    let mut flow = infirmary_flow(true);
    let instance_id = infirmary_instance_id(&flow);
    flow.hunter_roster.hunters[0].gold = 89;

    let result = flow
        .handle_command(ClientCommand::StartBuildingService {
            instance_id,
            hunter_id: 1,
            product_id: TEST_BANDAGE_ID.to_owned(),
        })
        .expect("service result");

    assert_eq!(rejection_reason(&result.message).as_deref(), Some("insufficient_hunter_gold"));
    assert_eq!(flow.buildings.product_stocks[0].quantity, 5);
    assert_eq!(flow.hunter_roster.hunters[0].gold, 89);
    assert!(flow.product_services.visits.is_empty());
}

#[test]
fn inn_restaurant_and_tavern_restore_their_recovered_gauges() {
    for (building_id, product_id, effect_kind) in [
        ("build_9", "product:0", ServiceEffectKind::Stamina),
        ("build_13", "product:10", ServiceEffectKind::Satiety),
        ("build_19", "product:15", ServiceEffectKind::Mood),
    ] {
        let mut flow = infirmary_flow(true);
        let instance_id = flow
            .buildings
            .buildings
            .iter()
            .find(|building| building.id == building_id)
            .expect("test service building")
            .instance_id
            .clone();
        flow.buildings.product_stocks.push(DurableProductStock {
            building_instance_id: instance_id.clone(),
            product_id: product_id.to_owned(),
            quantity: 5,
        });
        flow.building_content.gameplay.products.push(service_product(product_id, building_id));
        let town_gold_before = flow.buildings.town_gold;

        let result = flow
            .handle_command(ClientCommand::StartBuildingService {
                instance_id,
                hunter_id: 1,
                product_id: product_id.to_owned(),
            })
            .expect("service result");
        assert!(is_accepted(&result.message));
        assert_eq!(flow.hunter_roster.hunters[0].gold, 910);
        assert_eq!(hunter_service_gauge(&flow.hunter_roster.hunters[0], effect_kind).current, 100);

        for _ in 0..3 {
            flow.advance_visual_clock_by(200);
        }
        assert_eq!(hunter_service_gauge(&flow.hunter_roster.hunters[0], effect_kind).current, 350);
        assert_eq!(flow.buildings.town_gold, town_gold_before + 90);
        assert!(flow.product_services.visits.is_empty());
    }
}

#[test]
fn infirmary_enforces_slots_per_building_instance_and_rejects_unknown_hunters() {
    let mut flow = infirmary_flow(true);
    let first_instance_id = infirmary_instance_id(&flow);
    let mut second = flow
        .buildings
        .buildings
        .iter()
        .find(|building| building.id == "build_12")
        .expect("test infirmary")
        .clone();
    second.instance_id = Uuid::from_u128(1200).to_string();
    second.grid_x = 24;
    flow.buildings.buildings.push(second.clone());
    flow.buildings.product_stocks.push(DurableProductStock {
        building_instance_id: second.instance_id.clone(),
        product_id: TEST_BANDAGE_ID.to_owned(),
        quantity: 2,
    });

    for hunter_id in 1..=3 {
        let result = flow
            .handle_command(ClientCommand::StartInfirmaryTreatment {
                instance_id: first_instance_id.clone(),
                hunter_id,
                product_id: TEST_BANDAGE_ID.to_owned(),
            })
            .expect("treatment result");
        assert!(is_accepted(&result.message));
    }
    let full = flow
        .handle_command(ClientCommand::StartInfirmaryTreatment {
            instance_id: first_instance_id,
            hunter_id: 4,
            product_id: TEST_BANDAGE_ID.to_owned(),
        })
        .expect("full result");
    assert_eq!(rejection_reason(&full.message).as_deref(), Some("service_slots_full"));

    let second_instance_id = second.instance_id.clone();
    let other_instance = flow
        .handle_command(ClientCommand::StartInfirmaryTreatment {
            instance_id: second_instance_id.clone(),
            hunter_id: 4,
            product_id: TEST_BANDAGE_ID.to_owned(),
        })
        .expect("second infirmary result");
    assert!(is_accepted(&other_instance.message));

    let unknown = flow
        .handle_command(ClientCommand::StartInfirmaryTreatment {
            instance_id: second_instance_id,
            hunter_id: 999,
            product_id: TEST_BANDAGE_ID.to_owned(),
        })
        .expect("unknown hunter result");
    assert_eq!(rejection_reason(&unknown.message).as_deref(), Some("hunter_unknown"));
}

#[test]
fn infirmary_protocol_snapshot_exposes_hunters_queue_and_capacity() {
    let flow = infirmary_flow(true);
    let infirmary = flow.infirmary_snapshot();
    assert!(infirmary.roster_resolved);
    assert_eq!(infirmary.slots, 3);
    assert_eq!(infirmary.available_slots, 3);
    assert_eq!(infirmary.hunters[0].hunter_id, 1);
    assert_eq!(infirmary.hunters[0].treatment_state, "idle");
    assert!(infirmary.active.is_empty());
    assert!(infirmary.blockers.is_empty());
}

#[test]
fn autonomous_healing_uses_owned_healing_potion_below_ten_percent() {
    let mut flow = infirmary_flow(true);
    let hunter = &mut flow.hunter_roster.hunters[0];
    hunter.current_hp = 90;
    hunter.max_hp = 1_000;
    hunter.hunt.status = "hunting".to_owned();
    hunter.hunt.zone_id = Some(FIXTURE_HUNT_ZONE_ID.to_owned());
    hunter.owned_items.push(DurableHunterOwnedItem {
        product_id: "recipe:consumable:0:level:0".to_owned(),
        quantity: 2,
        ..DurableHunterOwnedItem::default()
    });

    flow.apply_autonomous_hunter_healing_policy();

    assert_eq!(flow.hunter_roster.hunters[0].current_hp, 1_000);
    assert_eq!(flow.hunter_roster.hunters[0].owned_items[0].quantity, 1);
    assert_eq!(flow.hunter_roster.hunters[0].hunt.zone_id.as_deref(), Some(FIXTURE_HUNT_ZONE_ID));
    assert_eq!(flow.hunter_roster.hunters[0].profile.action_state, "using_healing_potion");
}

#[test]
fn autonomous_healing_respects_recovered_potion_cooldown() {
    let mut flow = infirmary_flow(true);
    let hunter = &mut flow.hunter_roster.hunters[0];
    hunter.current_hp = 100;
    hunter.max_hp = 100_000;
    hunter.hunt.status = "hunting".to_owned();
    hunter.hunt.zone_id = Some(FIXTURE_HUNT_ZONE_ID.to_owned());
    hunter.owned_items.push(DurableHunterOwnedItem {
        product_id: "recipe:consumable:0:level:0".to_owned(),
        quantity: 2,
        ..DurableHunterOwnedItem::default()
    });

    flow.apply_autonomous_hunter_healing_policy();
    flow.apply_autonomous_hunter_healing_policy();

    assert_eq!(flow.hunter_roster.hunters[0].current_hp, 4_100);
    assert_eq!(flow.hunter_roster.hunters[0].owned_items[0].quantity, 1);
    assert_eq!(flow.hunter_roster.hunters[0].hunt.healing_potion_cooldown_ms, 20_000);

    let restored = OriginalFlowSession::from_aggregate(flow.durable_state(), 7);
    assert_eq!(restored.hunter_roster.hunters[0].hunt.healing_potion_cooldown_ms, 20_000);
}

#[test]
fn autonomous_healing_returns_to_infirmary_when_no_potion_is_owned() {
    let mut flow = infirmary_flow(true);
    let hunter = &mut flow.hunter_roster.hunters[0];
    hunter.current_hp = 99;
    hunter.max_hp = 1_000;
    hunter.hunt.status = "hunting".to_owned();
    hunter.hunt.zone_id = Some(FIXTURE_HUNT_ZONE_ID.to_owned());

    flow.apply_autonomous_hunter_healing_policy();

    assert_eq!(flow.hunter_roster.hunters[0].current_hp, 99);
    assert!(flow.hunter_roster.hunters[0].hunt.zone_id.is_none());
    assert_eq!(flow.hunter_roster.hunters[0].hunt.status, "idle");
    assert_eq!(flow.hunter_roster.hunters[0].profile.action_state, "returning_for_infirmary");
}

#[test]
fn autonomous_healing_routes_low_hp_town_hunter_to_infirmary() {
    let mut flow = infirmary_flow(true);
    let hunter = &mut flow.hunter_roster.hunters[0];
    hunter.current_hp = 99;
    hunter.max_hp = 1_000;
    hunter.hunt.status = "idle".to_owned();
    hunter.hunt.zone_id = None;
    hunter.profile.action_state = "idle".to_owned();

    flow.apply_autonomous_hunter_healing_policy();

    assert_eq!(flow.hunter_roster.hunters[0].hunt.status, "idle");
    assert_eq!(flow.hunter_roster.hunters[0].profile.action_state, "returning_for_infirmary");
    assert_eq!(flow.hunter_roster.hunters[0].profile.animation_name, "hunter_walk");
}

#[test]
fn autonomous_healing_picks_the_highest_potion_and_skips_busy_hunters() {
    let mut flow = infirmary_flow(true);
    let hunter = &mut flow.hunter_roster.hunters[0];
    hunter.current_hp = 10;
    hunter.max_hp = 100_000;
    for (product_id, quantity) in [
        ("recipe:consumable:0:level:1", 1),
        ("recipe:consumable:0:level:3", 0),
        ("recipe:consumable:0:level:2", 1),
        ("recipe:consumable:0:level:9", 4),
    ] {
        hunter.owned_items.push(DurableHunterOwnedItem {
            product_id: product_id.to_owned(),
            quantity,
            ..DurableHunterOwnedItem::default()
        });
    }
    flow.hunter_roster.hunters[1].current_hp = 1;
    flow.hunter_roster.hunters[1].max_hp = 1_000;
    flow.hunter_roster.hunters[1].hunt.healing_potion_cooldown_ms = 100;

    flow.apply_autonomous_hunter_healing_policy();

    assert_eq!(flow.hunter_roster.hunters[0].current_hp, 10 + 32_400);
    assert_eq!(flow.hunter_roster.hunters[0].owned_items[2].quantity, 0);
    assert_eq!(flow.hunter_roster.hunters[0].owned_items[0].quantity, 1);
    assert_eq!(flow.hunter_roster.hunters[1].current_hp, 1);
    assert_eq!(flow.hunter_roster.hunters[1].profile.action_state, "idle");
}

#[test]
fn session_constructor_does_not_repair_or_seed_building_state() {
    let mut aggregate = DurablePlayerAggregate::default();
    aggregate.buildings.buildings.push(DurableBuilding {
        instance_id: Uuid::from_u128(99).to_string(),
        id: "build_4".to_owned(),
        equipped_skin_id: None,
        level: 1,
        uses: 0,
        grid_x: 0,
        grid_y: 10,
        seeded_by: None,
    });
    let restored = OriginalFlowSession::from_aggregate(aggregate, 7);
    assert_eq!(restored.buildings.buildings.len(), 1);
    assert_eq!(restored.buildings.buildings[0].id, "build_4");
    assert_eq!(restored.buildings.buildings[0].grid_y, 10);
}

#[test]
fn schema_ten_roster_overflow_upgrades_to_waiting_fifo() {
    let roster = DurableHunterRosterState {
        roster_resolved: true,
        wallets_resolved: true,
        hunters: (1..=10)
            .map(|hunter_id| DurableHunterState {
                hunter_id,
                gold: 0,
                current_hp: 1,
                max_hp: 1,
                stamina: HunterServiceGauge::default(),
                satiety: HunterServiceGauge::default(),
                mood: HunterServiceGauge::default(),
                profile: profile(hunter_id),
                hunt: DurableHunterHunt::default(),
                owned_items: Vec::new(),
            })
            .collect(),
        ..DurableHunterRosterState::default()
    };
    let flow = OriginalFlowSession::from_aggregate(
        DurablePlayerAggregate {
            schema_version: 10,
            hunter_roster: roster,
            ..DurablePlayerAggregate::default()
        },
        7,
    );
    let durable = flow.durable_state();
    assert_eq!(durable.schema_version, DURABLE_PLAYER_SCHEMA_VERSION);
    assert_eq!(durable.hunter_roster.hunters.len(), 8);
    assert_eq!(durable.hunter_roster.waiting_queue.len(), 2);
    assert_eq!(durable.hunter_roster.waiting_queue[0].hunter.hunter_id, 9);
    assert_eq!(durable.hunter_roster.waiting_queue[1].hunter.hunter_id, 10);
}

#[test]
fn removed_hunter_roster_screen_restores_to_village() {
    let flow = OriginalFlowSession::from_aggregate(
        DurablePlayerAggregate {
            schema_version: 15,
            navigation: OriginalFlowPlayerState {
                screen: OriginalScreen::HunterRoster,
                boot_completed: true,
            },
            ..DurablePlayerAggregate::default()
        },
        7,
    );

    assert_eq!(flow.state().screen, OriginalScreen::Village);
    assert_eq!(flow.durable_state().schema_version, DURABLE_PLAYER_SCHEMA_VERSION);
}

#[test]
fn restore_migrates_old_schemas_without_touching_current_ones() {
    let mut old = DurablePlayerAggregate {
        schema_version: 2,
        ..DurablePlayerAggregate::default()
    };
    old.buildings.hunter_materials = 0;
    old.buildings.material_stocks.push(DurableMaterialStock {
        id: "material:1".to_owned(),
        town_quantity: 3,
        hunter_quantity: 0,
        requested: 0,
        unit_price: 1,
    });
    let restored = OriginalFlowSession::from_aggregate(old, 7);
    assert_eq!(restored.buildings.hunter_materials, 20);
    assert!(restored.buildings.material_stocks.is_empty());

    let mut current = DurablePlayerAggregate::default();
    current.buildings.hunter_materials = 0;
    current.buildings.material_stocks.push(DurableMaterialStock {
        id: "material:1".to_owned(),
        town_quantity: 3,
        hunter_quantity: 0,
        requested: 0,
        unit_price: 1,
    });
    let kept = OriginalFlowSession::from_aggregate(current, 7);
    assert_eq!(kept.buildings.hunter_materials, 0);
    assert_eq!(kept.buildings.material_stocks.len(), 1);
}

#[test]
fn restore_drops_legacy_gold_loot_rows() {
    let mut roster = operational_migration_roster();
    roster.hunters[0].hunt.loot = vec![
        DurableHunterLoot { item_id: "gold".to_owned(), quantity: 500 },
        DurableHunterLoot { item_id: "material:32".to_owned(), quantity: 2 },
    ];
    roster.hunters[1].hunt.status = "returning_for_infirmary".to_owned();
    roster.hunters[1].profile.action_state = "returning_for_infirmary".to_owned();
    let flow = OriginalFlowSession::from_aggregate(village_aggregate(roster), 7);
    assert_eq!(
        flow.hunter_roster.hunters[0].hunt.loot,
        vec![DurableHunterLoot { item_id: "material:32".to_owned(), quantity: 2 }]
    );
    assert_eq!(flow.hunter_roster.hunters[1].hunt.status, "idle");
    assert_eq!(flow.hunter_roster.hunters[1].profile.action_state, "idle");
}

#[test]
fn pending_trade_restore_normalizes_or_releases_inconsistent_state() {
    let mut roster = operational_migration_roster();
    roster.hunters[0].hunt.loot = vec![DurableHunterLoot {
        item_id: "material:32".to_owned(),
        quantity: 1,
    }];
    let mut flow = OriginalFlowSession::from_aggregate_with_content(
        village_aggregate(roster),
        7,
        trade_content(),
    );
    ensure_test_trading_post(&mut flow);
    let scheduled = flow
        .handle_command_with_id(ClientCommand::SellHunterLoot { hunter_id: 1 }, 105)
        .expect("schedule trade");
    assert!(is_accepted(&scheduled.message));

    let mut compatible = flow.durable_state();
    compatible.hunter_roster.hunters[0].hunt.status = "idle".to_owned();
    compatible.hunter_roster.hunters[0].profile.action_state = "idle".to_owned();
    compatible.hunter_roster.hunters[0].profile.animation_name = "hunter_stay".to_owned();
    let restored = OriginalFlowSession::from_aggregate(compatible.clone(), 7);
    assert!(restored.hunter_roster.hunters[0].hunt.pending_trade.is_some());
    assert_eq!(restored.hunter_roster.hunters[0].profile.action_state, "returning_to_trade");

    compatible.buildings.buildings.retain(|building| building.id != "build_3");
    let missing_building = OriginalFlowSession::from_aggregate(compatible, 7);
    assert!(missing_building.hunter_roster.hunters[0].hunt.pending_trade.is_none());
    assert_eq!(missing_building.hunter_roster.hunters[0].profile.action_state, "idle");

    let mut orphaned = flow.durable_state();
    orphaned.hunter_roster.hunters[0].hunt.pending_trade = None;
    let orphaned = OriginalFlowSession::from_aggregate(orphaned, 7);
    assert_eq!(orphaned.hunter_roster.hunters[0].profile.action_state, "idle");
}

#[test]
fn hunter_trade_does_not_preempt_service_or_recovery() {
    let mut roster = operational_migration_roster();
    roster.hunters[0].hunt.loot = vec![DurableHunterLoot {
        item_id: "material:32".to_owned(),
        quantity: 1,
    }];
    let mut aggregate = village_aggregate(roster);
    aggregate.product_services = DurableProductServiceState {
        visits: vec![DurableProductServiceVisit {
            hunter_id: 1,
            building_instance_id: "service-instance".to_owned(),
            building_id: "build_12".to_owned(),
            product_id: "service:test".to_owned(),
            effect_kind: ServiceEffectKind::Hp,
            remaining_ms: 1_000,
            effect_value: 1,
            payment_gold: 1,
        }],
    };
    let mut flow = OriginalFlowSession::from_aggregate_with_content(aggregate, 7, trade_content());
    ensure_test_trading_post(&mut flow);

    let service_rejection = flow
        .handle_command_with_id(ClientCommand::SellHunterLoot { hunter_id: 1 }, 106)
        .expect("service trade result");
    assert_eq!(
        rejection_reason(&service_rejection.message).as_deref(),
        Some("hunter is unavailable for trade")
    );
    assert!(flow.hunter_roster.hunters[0].hunt.pending_trade.is_none());

    flow.product_services.visits.clear();
    flow.hunter_roster.hunters[0].hunt.status = "returning_for_infirmary".to_owned();
    flow.hunter_roster.hunters[0].profile.action_state = "returning_for_infirmary".to_owned();
    let recovery_rejection = flow
        .handle_command_with_id(ClientCommand::SellHunterLoot { hunter_id: 1 }, 107)
        .expect("recovery trade result");
    assert_eq!(
        rejection_reason(&recovery_rejection.message).as_deref(),
        Some("hunter is unavailable for trade")
    );
    assert!(flow.hunter_roster.hunters[0].hunt.pending_trade.is_none());
}

#[test]
fn sale_walk_is_idempotent_per_command_id() {
    let mut roster = operational_migration_roster();
    roster.hunters[0].hunt.loot = vec![DurableHunterLoot {
        item_id: "material:32".to_owned(),
        quantity: 1,
    }];
    let mut flow = OriginalFlowSession::from_aggregate_with_content(
        village_aggregate(roster),
        7,
        trade_content(),
    );
    let no_post = flow
        .handle_command_with_id(ClientCommand::SellHunterLoot { hunter_id: 1 }, 9)
        .expect("sale result");
    assert_eq!(rejection_reason(&no_post.message).as_deref(), Some("trading post is unavailable"));
    assert!(!no_post.durable_state_changed);
    ensure_test_trading_post(&mut flow);
    let first = flow
        .handle_command_with_id(ClientCommand::SellHunterLoot { hunter_id: 1 }, 10)
        .expect("sale result");
    assert!(is_accepted(&first.message));
    assert!(first.durable_state_changed);
    let task = flow.hunter_roster.hunters[0].hunt.pending_trade.clone().expect("walking to trade");
    assert_eq!(task.command_id, 10);
    assert!(!task.requested_only);
    let replay = flow
        .handle_command_with_id(ClientCommand::SellHunterLoot { hunter_id: 1 }, 10)
        .expect("replay result");
    assert!(is_accepted(&replay.message));
    assert!(!replay.durable_state_changed);
    let other = flow
        .handle_command_with_id(ClientCommand::SellHunterLoot { hunter_id: 1 }, 11)
        .expect("second command result");
    assert_eq!(
        rejection_reason(&other.message).as_deref(),
        Some("hunter is already traveling to trade")
    );
    let unknown = flow
        .handle_command_with_id(ClientCommand::SellHunterLoot { hunter_id: 77 }, 12)
        .expect("unknown hunter result");
    assert_eq!(
        rejection_reason(&unknown.message).as_deref(),
        Some("hunter is not in the active town roster")
    );
}

#[test]
fn auto_sale_does_not_enter_rejection_path_when_wallet_cannot_buy_one_unit() {
    let mut roster = operational_migration_roster();
    roster.hunters[0].hunt.loot = vec![DurableHunterLoot {
        item_id: "material:32".to_owned(),
        quantity: 2,
    }];
    let mut flow = OriginalFlowSession::from_aggregate_with_content(
        village_aggregate(roster),
        7,
        trade_content(),
    );
    flow.buildings.town_gold = 9;
    flow.buildings.material_stocks = vec![DurableMaterialStock {
        id: "material:32".to_owned(),
        town_quantity: 0,
        hunter_quantity: 0,
        requested: 2,
        unit_price: 10,
    }];

    let hunter = &flow.hunter_roster.hunters[0];
    assert!(!flow.has_affordable_auto_sale(hunter));
    flow.advance_simulation_tick().expect("village tick");
    assert_eq!(flow.buildings.town_gold, 9);
    assert_eq!(flow.buildings.trade_settlements.len(), 0);
    assert_eq!(flow.hunter_roster.hunters[0].hunt.loot[0].quantity, 2);
}

#[test]
fn simulation_outcome_is_invariant_to_scheduler_tick_rate() {
    let state = OriginalFlowPlayerState {
        screen: OriginalScreen::Village,
        boot_completed: true,
    };
    let mut ten_hz = OriginalFlowSession::from_state(state.clone());
    let mut twenty_hz = OriginalFlowSession::from_state(state);

    let mut ten_hz_result = None;
    for _ in 0..10 {
        ten_hz_result = ten_hz.advance_simulation_step(100_000_000);
    }
    let mut twenty_hz_result = None;
    for _ in 0..20 {
        if let Some(result) = twenty_hz.advance_simulation_step(50_000_000) {
            twenty_hz_result = Some(result);
        }
    }

    let ten_hz_result = ten_hz_result.expect("10 Hz produces a domain frame");
    let twenty_hz_result = twenty_hz_result.expect("20 Hz produces a domain frame");
    assert_eq!(ten_hz_result.simulation_tick, twenty_hz_result.simulation_tick);
    assert_eq!(ten_hz_result, twenty_hz_result);
    assert_eq!(ten_hz.durable_state(), twenty_hz.durable_state());
}

#[test]
fn boot_and_navigation_commands_follow_the_screen_flow() {
    let mut flow = OriginalFlowSession::from_state(OriginalFlowPlayerState::default());
    assert!(flow.advance_simulation_tick().is_none());
    assert!(!flow.shared_world_active());
    let boot = flow.handle_command(ClientCommand::CompleteBoot).expect("boot result");
    assert!(is_accepted(&boot.message));
    assert!(boot.durable_state_changed);
    let again = flow.handle_command(ClientCommand::CompleteBoot).expect("boot result");
    assert_eq!(rejection_reason(&again.message).as_deref(), Some("boot_already_completed"));
    assert!(!again.durable_state_changed);
    let field = flow.handle_command(ClientCommand::EnterField).expect("field result");
    assert!(is_accepted(&field.message));
    assert_eq!(flow.buildings.field_trip_id, 1);
    assert!(flow.shared_world_active());
    let back = flow.handle_command(ClientCommand::NavigateBack).expect("back result");
    assert!(is_accepted(&back.message));
    assert_eq!(flow.state().screen, OriginalScreen::Village);
    assert_eq!(flow.buildings.settled_field_trip_id, 1);
    let stay = flow.handle_command(ClientCommand::NavigateBack).expect("back result");
    assert_eq!(rejection_reason(&stay.message).as_deref(), Some("navigation_unavailable"));
    assert!(flow.handle_command(ClientCommand::RequestResync).is_none());
}

#[test]
fn village_menu_keeps_focus_and_blocks_unbound_entries() {
    let mut flow = OriginalFlowSession::from_state(OriginalFlowPlayerState {
        screen: OriginalScreen::Village,
        boot_completed: true,
    });
    let character = flow
        .handle_command(ClientCommand::SelectBottomMenu {
            menu: hunter_town::contracts::BottomMenuIntent::Character,
        })
        .expect("menu result");
    assert!(is_accepted(&character.message));
    assert_eq!(flow.state().screen, OriginalScreen::Village);
    let raid = flow
        .handle_command(ClientCommand::SelectBottomMenu {
            menu: hunter_town::contracts::BottomMenuIntent::Raid,
        })
        .expect("menu result");
    assert!(matches!(
        raid.message,
        ServerMessage::BindingBlocked { ref blockers, .. } if blockers == &vec!["raid_rules_binding".to_owned()]
    ));
    let progression = flow
        .handle_command(ClientCommand::OpenHunterProgression { hunter_id: 1 })
        .expect("progression result");
    assert!(is_accepted(&progression.message));
    assert!(!progression.durable_state_changed);
}

#[test]
fn default_town_template_places_28_buildings() {
    let town = default_town_building_state();
    assert_eq!(town.buildings.len(), 28);
    assert_eq!(town.buildings[0].id, "build_1");
    assert_eq!(town.buildings[0].instance_id, Uuid::from_u128(1).to_string());
    assert_eq!((town.buildings[0].grid_x, town.buildings[0].grid_y), (-12, -6));
    assert_eq!(town.buildings[27].id, "build_28");
    assert_eq!((town.buildings[27].grid_x, town.buildings[27].grid_y), (12, 6));
    assert_eq!(town.town_seed_version, 2);
}

#[test]
fn autonomous_healing_walks_to_stocked_infirmary_and_starts_service() {
    let mut flow = infirmary_flow(true);
    flow.building_content.catalog.bases.push(base("build_12", 2, 2));
    let instance_id = infirmary_instance_id(&flow);
    let hunter = &mut flow.hunter_roster.hunters[0];
    hunter.current_hp = 99;
    hunter.max_hp = 1_000;
    hunter.hunt.status = "hunting".to_owned();
    hunter.hunt.zone_id = Some(FIXTURE_HUNT_ZONE_ID.to_owned());
    hunter.profile.action_state = "hunting".to_owned();
    let hunter_gold_before = hunter.gold;
    let stock_of = |flow: &OriginalFlowSession| {
        flow.buildings
            .product_stocks
            .iter()
            .find(|stock| stock.building_instance_id == instance_id && stock.product_id == TEST_BANDAGE_ID)
            .unwrap()
            .quantity
    };
    let stock_before = stock_of(&flow);

    flow.apply_autonomous_hunter_healing_policy();
    let plans = flow.autonomous_infirmary_plans();
    assert_eq!(plans.len(), 1);
    assert_eq!(plans[0].hunter_id, 1);
    assert_eq!(plans[0].building_instance_id, instance_id);
    assert_eq!(plans[0].product_id, TEST_BANDAGE_ID);
    let agents = vec![HunterAgentPosition {
        hunter_id: 1,
        region_id: None,
        entry_stage: 0,
        x: plans[0].destination_x,
        y: plans[0].destination_y,
    }];
    flow.start_arrived_autonomous_infirmary_services(&plans, &agents);

    assert_eq!(flow.product_services.visits.len(), 1);
    assert_eq!(flow.product_services.visits[0].hunter_id, 1);
    assert_eq!(flow.product_services.visits[0].product_id, TEST_BANDAGE_ID);
    assert_eq!(flow.hunter_roster.hunters[0].gold, hunter_gold_before - 90);
    assert_eq!(flow.hunter_roster.hunters[0].profile.action_state, "serving");
    assert_eq!(stock_of(&flow), stock_before - 1);

    flow.advance_product_services(600);
    assert_eq!(flow.hunter_roster.hunters[0].current_hp, 349);
    assert_eq!(flow.hunter_roster.hunters[0].profile.action_state, "idle");
}

#[test]
fn infirmary_plans_share_out_slots_and_prefer_stronger_treatments() {
    let mut flow = infirmary_flow(true);
    flow.building_content.catalog.bases.push(base("build_12", 2, 2));
    let instance_id = infirmary_instance_id(&flow);
    let mut strong = service_product("product:6", "build_12");
    strong.service.as_mut().unwrap().effect_value = 500;
    strong.service.as_mut().unwrap().use_money = 200;
    flow.building_content.gameplay.products.push(strong);
    flow.buildings.product_stocks.push(DurableProductStock {
        building_instance_id: instance_id.clone(),
        product_id: "product:6".to_owned(),
        quantity: 1,
    });
    for hunter in flow.hunter_roster.hunters.iter_mut().take(3) {
        hunter.profile.action_state = "returning_for_infirmary".to_owned();
    }
    flow.hunter_roster.hunters[2].gold = 100;

    let plans = flow.autonomous_infirmary_plans();
    assert_eq!(plans[0].hunter_id, 1);
    assert_eq!(plans[0].product_id, "product:6");
    assert_eq!(plans[0].effect_value, 500);
    assert_eq!(plans[1].hunter_id, 2);
    assert_eq!(plans[1].product_id, TEST_BANDAGE_ID);
    assert!(plans.iter().all(|plan| plan.building_instance_id == instance_id));
    let third = plans.iter().find(|plan| plan.hunter_id == 3);
    if let Some(plan) = third {
        assert_eq!(plan.product_id, TEST_BANDAGE_ID);
    }
    let away = vec![HunterAgentPosition { hunter_id: 1, region_id: None, entry_stage: 0, x: -999, y: -999 }];
    let before = flow.durable_state();
    flow.start_arrived_autonomous_infirmary_services(&plans, &away);
    assert_eq!(flow.durable_state(), before);
}

#[test]
fn enhancement_visit_survives_reconnect_and_resumes_until_interaction_ready() {
    let mut content = AuthoritativeBuildingContent::empty();
    content.catalog.bases.push(base("build_15", 2, 2));
    let aggregate = DurablePlayerAggregate {
        buildings: default_town_building_state(),
        ..village_aggregate(operational_migration_roster())
    };
    let mut flow = OriginalFlowSession::from_aggregate_with_content(aggregate, 7, content.clone());
    let started = flow
        .handle_command_with_id(ClientCommand::StartHunterEnhancement { hunter_id: 1 }, 8_101)
        .unwrap();
    assert!(is_accepted(&started.message));
    assert_eq!(flow.hunter_roster.hunters[0].profile.action_state, "traveling_to_enhancement_forge");

    let durable = flow.durable_state();
    let restored = OriginalFlowSession::from_aggregate_with_content(durable, 7, content);
    let task = restored.hunter_roster.hunters[0]
        .hunt
        .gear_enhancement
        .as_ref()
        .expect("enhancement task survives reconnect");
    assert_eq!(task.status, GearEnhancementTaskStatus::Traveling);
    assert_eq!(task.workflow_version, 1);
    assert_eq!(task.building_instance_id, flow.buildings.buildings[14].instance_id);
}

#[test]
fn enhancement_visit_requests_are_validated_and_replayed() {
    let mut content = AuthoritativeBuildingContent::empty();
    content.catalog.bases.push(base("build_15", 2, 2));
    let aggregate = DurablePlayerAggregate {
        buildings: default_town_building_state(),
        ..village_aggregate(operational_migration_roster())
    };
    let mut flow = OriginalFlowSession::from_aggregate_with_content(aggregate, 7, content);
    let start = |flow: &mut OriginalFlowSession, hunter_id: u32, id: u128| {
        flow.handle_command_with_id(ClientCommand::StartHunterEnhancement { hunter_id }, id).unwrap()
    };
    assert!(is_accepted(&start(&mut flow, 1, 5).message));
    let replay = start(&mut flow, 1, 5);
    assert!(is_accepted(&replay.message));
    assert!(!replay.durable_state_changed);
    assert_eq!(rejection_reason(&start(&mut flow, 2, 5).message).as_deref(), Some("command_id_conflict"));
    assert_eq!(
        rejection_reason(&start(&mut flow, 1, 6).message).as_deref(),
        Some("enhancement_task_already_active")
    );
    assert_eq!(rejection_reason(&start(&mut flow, 9, 7).message).as_deref(), Some("hunter_unknown"));
    flow.hunter_roster.hunters[1].current_hp = 0;
    assert_eq!(rejection_reason(&start(&mut flow, 2, 8).message).as_deref(), Some("hunter_unavailable"));
    flow.buildings.buildings.retain(|building| building.id != "build_15");
    assert_eq!(
        rejection_reason(&start(&mut flow, 2, 9).message).as_deref(),
        Some("enhancement_forge_unavailable")
    );
}

fn owned_gear(product_id: &str, gear_instance_id: u128, enhancement_level: Option<u8>) -> DurableHunterOwnedItem {
    DurableHunterOwnedItem {
        product_id: product_id.to_owned(),
        quantity: 1,
        enhancement_level,
        gear_instance_id: Some(gear_instance_id),
        quality: Some(2),
        primary_stat: Some(100),
        option_type: Some(0),
        option_value: Some(0),
        ruleset: Some("test-reviewed-gear-row".to_owned()),
    }
}

fn forge_task(status: GearEnhancementTaskStatus) -> DurableGearEnhancementTask {
    DurableGearEnhancementTask {
        workflow_version: 1,
        building_instance_id: "forge-1".to_owned(),
        status,
        interaction_x: 3,
        interaction_y: 4,
        ..DurableGearEnhancementTask::default()
    }
}

fn enhancement_content() -> AuthoritativeBuildingContent {
    let mut content = AuthoritativeBuildingContent::empty();
    content.catalog.bases.push(base("build_15", 2, 2));
    content.gameplay.items.push(material("material:32", 10));
    content.gameplay.items.push(material("material:92", 10));
    let mut weapon = service_product("recipe:weapon:0:rating:0", "build_10");
    weapon.service = None;
    weapon.gear_route = Some(GearProductRoute {
        kind: "weapon".to_owned(),
        sale_building_id: "build_7".to_owned(),
        difficulty_group: 1,
        rating: 0,
    });
    content.gameplay.products.push(weapon);
    let mut potion = service_product("product:5", "build_12");
    potion.service = None;
    content.gameplay.products.push(potion);
    content
}

fn is_enhancement_blocked(message: &ServerMessage) -> bool {
    matches!(
        message,
        ServerMessage::BindingBlocked { intent, blockers }
            if intent == "enhance_hunter_gear"
                && blockers == &vec![
                    "gear_enhancement_cost_binding".to_owned(),
                    "gear_enhancement_rng_binding".to_owned(),
                ]
    )
}

#[test]
fn gear_enhancement_validates_requests_and_fails_closed_at_the_forge() {
    let mut roster = operational_migration_roster();
    roster.hunters[0].owned_items = vec![
        owned_gear("recipe:weapon:0:rating:0", 8001, Some(0)),
        owned_gear("product:5", 8002, None),
        owned_gear("recipe:weapon:0:rating:0", 8003, Some(20)),
        owned_gear("recipe:weapon:9:rating:0", 8004, None),
    ];
    let mut flow = OriginalFlowSession::from_aggregate_with_content(
        village_aggregate(roster),
        7,
        enhancement_content(),
    );
    let enhance = |flow: &mut OriginalFlowSession, gear: u128, mode: &str, materials: &[&str], id: u128| {
        flow.handle_command_with_id(
            ClientCommand::EnhanceHunterGear {
                hunter_id: 1,
                gear_instance_id: gear,
                mode: mode.to_owned(),
                optional_material_ids: materials.iter().map(|m| (*m).to_owned()).collect(),
            },
            id,
        )
        .unwrap()
    };

    let invalid_mode = enhance(&mut flow, 8001, "invalid-mode", &[], 0);
    assert_eq!(rejection_reason(&invalid_mode.message).as_deref(), Some("enhancement_mode_invalid"));
    let duplicated = enhance(&mut flow, 8001, "single", &["material:32", "material:32"], 0);
    assert_eq!(
        rejection_reason(&duplicated.message).as_deref(),
        Some("enhancement_optional_material_duplicated")
    );
    let unknown = enhance(&mut flow, 8001, "to_10", &["material:32", "material:1"], 0);
    assert_eq!(
        rejection_reason(&unknown.message).as_deref(),
        Some("enhancement_optional_material_unknown")
    );
    let premature = enhance(&mut flow, 8001, "single", &[], 0);
    assert_eq!(
        rejection_reason(&premature.message).as_deref(),
        Some("enhancement_visit_not_started")
    );

    flow.hunter_roster.hunters[0].hunt.gear_enhancement = Some(forge_task(GearEnhancementTaskStatus::Traveling));
    let traveling = enhance(&mut flow, 8001, "single", &[], 0);
    assert_eq!(
        rejection_reason(&traveling.message).as_deref(),
        Some("hunter_not_ready_at_enhancement_forge")
    );
    flow.hunter_roster.hunters[0].hunt.gear_enhancement =
        Some(forge_task(GearEnhancementTaskStatus::WaitingForInteraction));
    for (gear, reason) in [
        (9999, "gear_instance_not_owned"),
        (8002, "product_is_not_gear"),
        (8003, "gear_enhancement_cap_reached"),
        (8004, "gear_definition_unavailable"),
    ] {
        let refused = enhance(&mut flow, gear, "to_20", &[], 0);
        assert_eq!(rejection_reason(&refused.message).as_deref(), Some(reason));
        assert!(!refused.durable_state_changed);
    }
    let unrecorded = enhance(&mut flow, 8001, "single", &[], 0);
    assert!(is_enhancement_blocked(&unrecorded.message));
    assert!(flow.hunter_roster.hunters[0].hunt.gear_enhancement.is_none());

    flow.hunter_roster.hunters[0].hunt.gear_enhancement =
        Some(forge_task(GearEnhancementTaskStatus::WaitingForInteraction));
    flow.hunter_roster.hunters[0].profile.action_state = "waiting_for_enhancement_interaction".to_owned();
    let gold_before = flow.hunter_roster.hunters[0].gold;
    let result = enhance(&mut flow, 8001, "to_15", &["material:32", "material:92"], 77);
    assert!(is_enhancement_blocked(&result.message));
    assert!(result.durable_state_changed);
    let hunter = &flow.hunter_roster.hunters[0];
    assert_eq!(hunter.gold, gold_before);
    assert_eq!(hunter.owned_items[0].enhancement_level, Some(0));
    assert!(hunter.hunt.gear_enhancement.is_none());
    assert_eq!(hunter.profile.action_state, "idle");
    assert_eq!(hunter.profile.animation_name, "hunter_stay");

    let replay = enhance(&mut flow, 8001, "to_15", &["material:32", "material:92"], 77);
    assert!(is_enhancement_blocked(&replay.message));
    assert!(!replay.durable_state_changed);
    let conflict = enhance(&mut flow, 8001, "to_15", &["material:92"], 77);
    assert_eq!(rejection_reason(&conflict.message).as_deref(), Some("command_id_conflict"));
}

#[test]
fn unresolved_progression_and_economy_intents_never_grant_state() {
    let mut flow = OriginalFlowSession::from_state(OriginalFlowPlayerState {
        screen: OriginalScreen::Village,
        boot_completed: true,
    });
    let commands = [
        ClientCommand::OpenHunterProgression { hunter_id: 1 },
        ClientCommand::ClaimQuestReward { quest_id: "quest-1".to_owned() },
        ClientCommand::OpenShop { shop_id: "main".to_owned() },
        ClientCommand::PurchaseShopItem {
            hunter_id: 1,
            shop_id: "main".to_owned(),
            product_id: "product-1".to_owned(),
        },
        ClientCommand::ClaimMail { mail_id: "mail-1".to_owned() },
        ClientCommand::ClaimRewardedAd { placement: "unknown".to_owned() },
        ClientCommand::StartTopupPurchase { product_id: "unknown".to_owned() },
    ];

    for command in commands {
        let result = flow.handle_command(command).expect("intent result");
        assert!(!result.durable_state_changed);
        match &result.message {
            ServerMessage::BindingBlocked { .. } | ServerMessage::IntentResult { accepted: false, .. } => {}
            ServerMessage::IntentResult { accepted: true, intent, .. } if intent == "open_hunter_progression" => {}
            _ => panic!("unresolved intent unexpectedly granted state"),
        }
        assert_eq!(flow.state().screen, OriginalScreen::Village);
    }
}

#[test]
fn building_use_and_shop_sale_report_their_capability_bindings() {
    let mut content = AuthoritativeBuildingContent::empty();
    content.gameplay.capabilities.push(hunter_town::catalog::BuildingCapabilityDefinition {
        building_id: "build_7".to_owned(),
        kind: "weapon-display-and-sale".to_owned(),
        static_data_ready: true,
        runnable: false,
    });
    content.gameplay.capabilities.push(hunter_town::catalog::BuildingCapabilityDefinition {
        building_id: "build_3".to_owned(),
        kind: "loot-purchase-reservations".to_owned(),
        static_data_ready: true,
        runnable: true,
    });
    let aggregate = DurablePlayerAggregate {
        buildings: default_town_building_state(),
        ..village_aggregate(operational_migration_roster())
    };
    let mut flow = OriginalFlowSession::from_aggregate_with_content(aggregate, 7, content);
    let blockers = |message: &ServerMessage| match message {
        ServerMessage::BindingBlocked { blockers, .. } => blockers.clone(),
        other => panic!("expected blockers, got {other:?}"),
    };
    let instance = |flow: &OriginalFlowSession, id: &str| {
        flow.buildings.buildings.iter().find(|b| b.id == id).unwrap().instance_id.clone()
    };
    let sell = |flow: &mut OriginalFlowSession, shop: &str| {
        flow.handle_command(ClientCommand::SellShopItem {
            shop_id: shop.to_owned(),
            product_id: "recipe:weapon:0:rating:0".to_owned(),
        })
        .unwrap()
    };
    let weapon_shop = sell(&mut flow, "build_7");
    assert_eq!(blockers(&weapon_shop.message), vec!["building_capability_rules_binding".to_owned()]);
    assert!(!weapon_shop.durable_state_changed);
    assert_eq!(
        blockers(&sell(&mut flow, "build_3").message),
        vec!["building_capability_identity_binding".to_owned()]
    );
    assert_eq!(blockers(&sell(&mut flow, "main").message), vec!["building_base_id_parse".to_owned()]);
    assert_eq!(blockers(&sell(&mut flow, "build_07").message), vec!["building_base_id_parse".to_owned()]);

    let trading_post = instance(&flow, "build_3");
    let used = flow.handle_command(ClientCommand::UseBuilding { instance_id: trading_post }).unwrap();
    assert_eq!(blockers(&used.message), vec!["building_capability_executor_binding".to_owned()]);
    let town_hall = instance(&flow, "build_1");
    let idle = flow.handle_command(ClientCommand::UseBuilding { instance_id: town_hall }).unwrap();
    assert_eq!(blockers(&idle.message), vec!["building_capability_identity_binding".to_owned()]);
    let missing = flow
        .handle_command(ClientCommand::UseBuilding { instance_id: "missing-instance".to_owned() })
        .unwrap();
    assert_eq!(rejection_reason(&missing.message).as_deref(), Some("building_instance_unknown"));
}

#[test]
fn carried_trade_materials_are_shown_under_their_best_known_name() {
    let mut content = trade_content();
    content.gameplay.items[0].localized_names.push(LocalizedName {
        locale: "vi".to_owned(),
        name: "Vải lanh".to_owned(),
    });
    let mut internal_only = material("material:7", 5);
    internal_only.localized_names.clear();
    internal_only.internal_name = Some("Bone".to_owned());
    content.gameplay.items.push(internal_only);
    let flow = OriginalFlowSession::from_aggregate_with_content(
        village_aggregate(operational_migration_roster()),
        7,
        content,
    );
    let rows = flow.trade_material_presentations(&vec![
        ("material:32".to_owned(), 3),
        ("material:92".to_owned(), 4),
        ("material:7".to_owned(), 5),
        ("material:999".to_owned(), 6),
    ]);
    let shown: Vec<(&str, &str, u32)> = rows
        .iter()
        .map(|row| (row.material_id.as_str(), row.display_name.as_str(), row.quantity))
        .collect();
    assert_eq!(
        shown,
        vec![
            ("material:32", "Vải lanh", 3),
            ("material:92", "material:92", 4),
            ("material:7", "Bone", 5),
            ("material:999", "material:999", 6),
        ]
    );
}

#[test]
fn back_from_field_persists_only_the_village_screen() {
    let mut flow = OriginalFlowSession::from_state(OriginalFlowPlayerState {
        screen: OriginalScreen::Field,
        boot_completed: true,
    });
    flow.handle_command(ClientCommand::NavigateBack);
    assert_eq!(flow.state().screen, OriginalScreen::Village);
    assert_eq!(flow.world_mode(), hunter_town::contracts::WorldMode::Village);
}

#[test]
fn unresolved_bottom_menu_does_not_change_screen() {
    let mut flow = OriginalFlowSession::from_state(OriginalFlowPlayerState {
        screen: OriginalScreen::Village,
        boot_completed: true,
    });
    let result = flow
        .handle_command(ClientCommand::SelectBottomMenu {
            menu: hunter_town::contracts::BottomMenuIntent::Store,
        })
        .expect("store intent returns a result");
    assert!(!result.durable_state_changed);
    assert!(matches!(result.message, ServerMessage::BindingBlocked { .. }));
    assert_eq!(flow.state().screen, OriginalScreen::Village);
}

#[test]
fn roster_view_lists_owned_gear_skills_slots_and_carried_materials() {

    let mut used_up = owned_gear("recipe:weapon:0:rating:0", 8005, Some(3));
    used_up.quantity = 0;
    let mut potion = owned_gear("product:5", 0, None);
    potion.gear_instance_id = None;
    let items = vec![owned_gear("recipe:weapon:0:rating:0", 8001, Some(2)), used_up, potion, owned_gear("recipe:armor:1", 8002, None)];
    let gear: Vec<(String, Option<u8>, u8, Option<u128>, &str)> = gear_enhancement_snapshots(&items)
        .into_iter()
        .map(|row| (row.product_id, row.level, row.max_level, row.instance_id, row.evidence_state))
        .collect();
    assert_eq!(
        gear,
        vec![
            ("recipe:weapon:0:rating:0".to_owned(), Some(2), 20, Some(8001), "unresolved"),
            ("recipe:armor:1".to_owned(), None, 20, Some(8002), "unresolved"),
        ]
    );

    let skills = vec![DurableHunterSkill {
        skill_id: "skill:1".to_owned(),
        display_name: "Cleave".to_owned(),
        icon_path: Some("/icons/cleave.png".to_owned()),
        animation_name: None,
        skill_level: 2,
        equipped_slot: Some(0),
        ready: false,
        cooldown_remaining_ms: 1_500,
    }];
    let skill_rows = skill_snapshots(&skills);
    assert_eq!(skill_rows.len(), 1);
    assert_eq!(skill_rows[0].skill_id, "skill:1");
    assert_eq!(skill_rows[0].level, 2);
    assert_eq!(skill_rows[0].cooldown_remaining_ms, 1_500);
    assert!(!skill_rows[0].ready);

    let slots = vec![DurableEquipmentSlot {
        slot_id: "weapon".to_owned(),
        catalog_kind: "starter_weapon".to_owned(),
        catalog_index: 4,
        display_name: "Rusty Sword".to_owned(),
        icon_path: "/icons/sword.png".to_owned(),
        presentation_gender: "male".to_owned(),
        required_class_id: Some("berserker".to_owned()),
        locked: true,
        evidence_state: "fixture".to_owned(),
    }];
    let slot_rows = equipment_slot_snapshots(&slots);
    assert_eq!(slot_rows[0].icon_path.as_deref(), Some("/icons/sword.png"));
    assert_eq!(slot_rows[0].placeholder_icon_path, None);
    assert_eq!(slot_rows[0].locked, Some(true));
    assert_eq!(slot_rows[0].catalog_index, 4);

    let loot = vec![
        DurableHunterLoot { item_id: "gold".to_owned(), quantity: 9 },
        DurableHunterLoot { item_id: "material:32".to_owned(), quantity: 3 },
        DurableHunterLoot { item_id: "material:7".to_owned(), quantity: 0 },
        DurableHunterLoot { item_id: "material:92".to_owned(), quantity: 4 },
    ];
    let loot_rows = loot_snapshots(&loot);
    assert_eq!(loot_rows.len(), 4);
    assert_eq!((loot_rows[0].item_id.as_str(), loot_rows[0].quantity), ("gold", 9));
    let materials: Vec<(String, Option<String>, String, u64, u32)> = material_snapshots(&loot)
        .into_iter()
        .map(|row| (row.material_id, row.display_name, row.icon_path, row.quantity, row.order))
        .collect();
    assert_eq!(
        materials,
        vec![
            (
                "material:32".to_owned(),
                None,
                "/content/releases/evil-hunter-1.411/material-icons/material-32.png".to_owned(),
                3,
                1,
            ),
            (
                "material:92".to_owned(),
                None,
                "/content/releases/evil-hunter-1.411/material-icons/material-92.png".to_owned(),
                4,
                3,
            ),
        ]
    );
}

#[test]
fn enhancement_visit_waits_for_its_bindings_and_projects_its_state() {
    let mut content = AuthoritativeBuildingContent::empty();
    content.catalog.bases.push(base("build_15", 2, 2));
    let aggregate = DurablePlayerAggregate {
        buildings: default_town_building_state(),
        ..village_aggregate(operational_migration_roster())
    };
    let mut flow = OriginalFlowSession::from_aggregate_with_content(aggregate, 7, content);
    let started = flow.handle_command_with_id(ClientCommand::StartHunterEnhancement { hunter_id: 1 }, 9).unwrap();
    assert!(is_accepted(&started.message));
    let task = flow.hunter_roster.hunters[0].hunt.gear_enhancement.clone().expect("visit begun");
    assert_eq!(
        task.blockers,
        vec!["gear_enhancement_cost_binding".to_owned(), "gear_enhancement_rng_binding".to_owned()]
    );
    let traveling = gear_enhancement_task_snapshot(&task);
    assert_eq!(traveling.status, "traveling");
    assert!(!traveling.interaction_ready);
    assert_eq!(traveling.blockers, task.blockers);
    assert!(traveling.attempts.is_empty() && traveling.required_materials.is_empty());
    assert_eq!(traveling.next_attempt_gold_cost, None);

    let mut result = forge_task(GearEnhancementTaskStatus::Result);
    result.selected_gear_instance_id = Some(8001);
    result.mode = Some("to_10".to_owned());
    result.attempts.push(hunter_town::roster::DurableGearEnhancementAttempt {
        attempt: 1,
        starting_level: 0,
        resulting_level: 1,
        succeeded: true,
        gold_spent: 40,
        materials_spent: vec![DurableHunterLoot { item_id: "material:32".to_owned(), quantity: 2 }],
    });
    result.spent_gold = 40;
    result.final_level = Some(1);
    let shown = gear_enhancement_task_snapshot(&result);
    assert_eq!(shown.status, "result");
    assert!(shown.interaction_ready);
    assert_eq!(shown.selected_gear_instance_id, Some(8001));
    assert_eq!(shown.mode.as_deref(), Some("to_10"));
    assert_eq!(shown.attempts.len(), 1);
    assert_eq!(shown.attempts[0].materials_spent[0].material_id, "material:32");
    assert_eq!(shown.attempts[0].materials_spent[0].quantity, 2);
    assert_eq!(shown.spent_gold, 40);
    assert_eq!(shown.final_level, Some(1));
}

#[test]
fn cancelling_a_started_treatment_returns_payment_and_stock() {
    let mut flow = infirmary_flow(true);
    let instance_id = infirmary_instance_id(&flow);
    let hunter_gold_before = flow.hunter_roster.hunters[0].gold;
    let town_gold_before = flow.buildings.town_gold;
    let stocks_before = flow.buildings.product_stocks.clone();
    let started = flow
        .handle_command(ClientCommand::StartInfirmaryTreatment {
            instance_id,
            hunter_id: 1,
            product_id: TEST_BANDAGE_ID.to_owned(),
        })
        .unwrap();
    assert!(is_accepted(&started.message));
    assert_eq!(flow.hunter_roster.hunters[0].gold, hunter_gold_before - 90);
    assert_eq!(flow.buildings.product_stocks[0].quantity, 4);

    let untouched = flow.durable_state();
    flow.cancel_hunter_service_visits(2);
    assert_eq!(flow.durable_state(), untouched);

    flow.cancel_hunter_service_visits(1);
    assert!(flow.product_services.visits.is_empty());
    assert_eq!(flow.hunter_roster.hunters[0].gold, hunter_gold_before);
    assert_eq!(flow.buildings.product_stocks, stocks_before);
    assert_eq!(flow.buildings.town_gold, town_gold_before);
}

#[test]
fn cancelled_visits_restock_a_missing_product_row() {
    let mut flow = infirmary_flow(true);
    let instance_id = infirmary_instance_id(&flow);
    let started = flow
        .handle_command(ClientCommand::StartInfirmaryTreatment {
            instance_id: instance_id.clone(),
            hunter_id: 1,
            product_id: TEST_BANDAGE_ID.to_owned(),
        })
        .unwrap();
    assert!(is_accepted(&started.message));
    flow.buildings.product_stocks.clear();
    flow.cancel_hunter_service_visits(1);
    assert_eq!(
        flow.buildings.product_stocks,
        vec![DurableProductStock {
            building_instance_id: instance_id,
            product_id: TEST_BANDAGE_ID.to_owned(),
            quantity: 1,
        }]
    );
}

#[test]
fn restored_hunters_are_consistent_with_the_restored_town() {
    let mut roster = operational_migration_roster();
    roster.hunters[0].hunt.loot = vec![
        DurableHunterLoot { item_id: "gold".to_owned(), quantity: 5 },
        DurableHunterLoot { item_id: "material:ore".to_owned(), quantity: 2 },
    ];
    roster.hunters[0].hunt.pending_trade = Some(hunter_town::roster::DurableHunterTradeTask {
        workflow_version: hunter_town::roster::HUNTER_TRADE_WORKFLOW_VERSION,
        command_id: 11,
        requested_only: false,
        building_instance_id: Uuid::from_u128(404).to_string(),
        interaction_x: 0,
        interaction_y: 0,
    });
    roster.hunters[0].hunt.status = "returning_to_trade".to_owned();
    roster.hunters[0].profile.action_state = "returning_to_trade".to_owned();
    roster.hunters[1].profile.action_state = "configuring_enhancement".to_owned();
    let restored = OriginalFlowSession::from_aggregate(village_aggregate(roster), 7);
    let first = &restored.hunter_roster.hunters[0];
    assert_eq!(first.hunt.loot.len(), 1);
    assert_eq!(first.hunt.loot[0].item_id, "material:ore");
    assert!(first.hunt.pending_trade.is_none());
    assert_ne!(first.profile.action_state, "returning_to_trade");
    let second = &restored.hunter_roster.hunters[1];
    assert!(second.hunt.gear_enhancement.is_none());
    assert_eq!(second.profile.action_state, "idle");
}

#[test]
fn fixed_simulation_tick_advances_the_clock_once_without_changing_navigation() {
    let state = OriginalFlowPlayerState {
        screen: OriginalScreen::Village,
        boot_completed: true,
    };
    let mut flow = OriginalFlowSession::from_aggregate(village_aggregate(operational_migration_roster()), 7);
    let before_state = flow.state.clone();
    let before_tick = flow.visual_tick;
    let result = flow.advance_simulation_tick().expect("village tick");
    assert_eq!(result.domain_ticks, 1);
    assert_eq!(result.simulation_tick, before_tick.wrapping_add(1));
    assert_eq!(flow.visual_tick, before_tick.wrapping_add(1));
    assert_eq!(flow.state, before_state);
    assert_eq!(flow.state, state);
}

#[test]
fn simulation_tick_starts_the_treatment_of_a_hunter_that_reached_its_infirmary() {
    let mut flow = infirmary_flow(true);
    flow.building_content.catalog.bases.push(base("build_12", 2, 2));
    let hunter = &mut flow.hunter_roster.hunters[0];
    hunter.profile.action_state = "returning_for_infirmary".to_owned();
    let hunter_gold_before = hunter.gold;

    let plans = flow.autonomous_infirmary_plans();
    assert_eq!(plans[0].hunter_id, 1);
    flow.advance_simulation_tick().expect("village tick");
    assert!(flow.product_services.visits.is_empty());

    flow.hunter_world_runtime = vec![hunter_town::contracts::HunterAgentState {
        hunter_id: 1,
        x: plans[0].destination_x,
        y: plans[0].destination_y,
        region_id: None,
        entry_stage: 0,
    }];
    flow.advance_simulation_tick().expect("village tick");

    assert_eq!(flow.product_services.visits.len(), 1);
    assert_eq!(flow.product_services.visits[0].hunter_id, 1);
    assert_eq!(flow.product_services.visits[0].product_id, TEST_BANDAGE_ID);
    assert_eq!(flow.hunter_roster.hunters[0].gold, hunter_gold_before - 90);
    assert_eq!(flow.hunter_roster.hunters[0].profile.action_state, "serving");
}

#[test]
fn banish_promotes_fifo_and_is_idempotent_across_restore() {
    let roster = DurableHunterRosterState {
        roster_resolved: true,
        wallets_resolved: true,
        hunters: (1..=8).map(|hunter_id| hunter(hunter_id, 100, 100, 100)).collect(),
        waiting_queue: (9..=10)
            .map(|hunter_id| hunter_town::roster::DurableWaitingHunter {
                hunter: hunter(hunter_id, 100, 100, 100),
            })
            .collect(),
        ..DurableHunterRosterState::default()
    };
    let aggregate = DurablePlayerAggregate {
        schema_version: DURABLE_PLAYER_SCHEMA_VERSION,
        ..village_aggregate(roster)
    };
    let command_id = Uuid::from_u128(9001).as_u128();
    let mut flow = OriginalFlowSession::from_aggregate(aggregate, 7);
    assert!(flow.hunter_roster.hunters.iter().any(|hunter| hunter.hunter_id == 3));
    assert!(!flow.hunter_roster.hunters.iter().any(|hunter| hunter.hunter_id == 9));
    let accepted = flow
        .handle_command_with_id(ClientCommand::BanishHunter { hunter_id: 3 }, command_id)
        .unwrap();
    assert!(accepted.durable_state_changed);
    assert!(is_accepted(&accepted.message));
    assert_eq!(flow.hunter_roster.hunters.len(), 8);
    assert_eq!(flow.hunter_roster.hunters.last().unwrap().hunter_id, 9);
    assert_eq!(flow.hunter_roster.waiting_queue[0].hunter.hunter_id, 10);
    assert!(!flow.hunter_roster.hunters.iter().any(|hunter| hunter.hunter_id == 3));
    assert!(!flow.hunter_roster.hunters.iter().any(|hunter| hunter.hunter_id == 10));

    let mut restored = OriginalFlowSession::from_aggregate(flow.durable_state(), 7);
    let duplicate = restored
        .handle_command_with_id(ClientCommand::BanishHunter { hunter_id: 3 }, command_id)
        .unwrap();
    assert!(!duplicate.durable_state_changed);
    assert!(is_accepted(&duplicate.message));

    let not_active = restored
        .handle_command_with_id(ClientCommand::BanishHunter { hunter_id: 10 }, Uuid::from_u128(9002).as_u128())
        .unwrap();
    assert!(!not_active.durable_state_changed);
    assert_eq!(rejection_reason(&not_active.message).as_deref(), Some("active_hunter_unknown"));
}

#[test]
fn banish_refuses_busy_hunters_and_reused_command_ids() {
    let mut flow = OriginalFlowSession::from_aggregate(village_aggregate(operational_migration_roster()), 7);
    flow.hunter_roster.hunters[0].hunt.gear_enhancement = Some(DurableGearEnhancementTask::default());
    let busy = flow.handle_command_with_id(ClientCommand::BanishHunter { hunter_id: 1 }, 5).unwrap();
    assert_eq!(rejection_reason(&busy.message).as_deref(), Some("hunter_busy"));
    assert!(!busy.durable_state_changed);
    let mut three = operational_migration_roster();
    three.hunters.push(hunter(3, 1_000, 100, 100));
    let mut flow = OriginalFlowSession::from_aggregate(village_aggregate(three), 7);
    let banished = flow.handle_command_with_id(ClientCommand::BanishHunter { hunter_id: 2 }, 7).unwrap();
    assert!(is_accepted(&banished.message));
    let conflict = flow.handle_command_with_id(ClientCommand::BanishHunter { hunter_id: 3 }, 7).unwrap();
    assert_eq!(rejection_reason(&conflict.message).as_deref(), Some("banish_command_conflict"));
    assert!(!conflict.durable_state_changed);
    let mut unresolved = OriginalFlowSession::from_aggregate(
        village_aggregate(DurableHunterRosterState {
            roster_resolved: false,
            ..operational_migration_roster()
        }),
        7,
    );
    let refused = unresolved.handle_command(ClientCommand::BanishHunter { hunter_id: 1 }).unwrap();
    assert_eq!(rejection_reason(&refused.message).as_deref(), Some("hunter_roster_unresolved"));
}

#[test]
fn farm_reports_are_refused_by_the_session() {
    let mut flow = OriginalFlowSession::from_aggregate(village_aggregate(operational_migration_roster()), 7);
    let result = flow.handle_command(ClientCommand::SubmitFarmReport).unwrap();
    assert!(!result.durable_state_changed);
    assert_eq!(
        rejection_reason(&result.message).as_deref(),
        Some("farm reports are handled by the queue ingress")
    );
}

#[test]
fn restore_without_content_keeps_saved_map_densities() {
    let mut aggregate = village_aggregate(operational_migration_roster());
    aggregate.monster_field_config.densities = vec![
        hunter_town::contracts::DurableMonsterMapDensity { map_id: "map:forest".to_owned(), density_level: 3 },
        hunter_town::contracts::DurableMonsterMapDensity { map_id: "map:cave".to_owned(), density_level: 2 },
    ];
    let restored = OriginalFlowSession::from_aggregate(aggregate, 7);
    let saved = restored.durable_state().monster_field_config.densities;
    assert_eq!(saved.len(), 2);
    assert_eq!(saved[0].map_id, "map:forest");
    assert_eq!(saved[0].density_level, 3);
    assert_eq!(saved[1].map_id, "map:cave");
    assert_eq!(saved[1].density_level, 2);
}
