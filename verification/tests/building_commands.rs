use hunter_town::contracts::BottomMenuIntent;
use hunter_town::village_projection::{field_snapshot, BindingConfidence};
use hunter_town::catalog::{
    AuthoritativeBuildingContent, BaseBuildingDefinition, BuildingLevelDefinition,
    BuildingLevelPrerequisite, EconomyAmount,
};
use hunter_town::contracts::{DurablePlayerAggregate, OriginalFlowPlayerState, OriginalScreen};
use hunter_town::product_service::HunterServiceGauge;
use hunter_town::roster::{
    DurableHunterHunt, DurableHunterProfile, DurableHunterRosterState, DurableHunterState,
    DurableHunterTradeTask,
};
use hunter_town::session::{OriginalFlowSession, ServerMessage};
use hunter_town::session_commands::ClientCommand;

fn base(id: &str, max_instances: u32) -> BaseBuildingDefinition {
    BaseBuildingDefinition {
        id: id.to_owned(),
        display_name: id.to_owned(),
        category: None,
        max_instances,
        grid_width: 2,
        grid_height: 2,
        movable: Some(true),
        base_sprite_asset_id: None,
    }
}

fn row(id: &str, level: u16, gold: u64, prerequisites: Vec<BuildingLevelPrerequisite>) -> BuildingLevelDefinition {
    BuildingLevelDefinition {
        building_id: id.to_owned(),
        level,
        production_slots: None,
        costs: vec![EconomyAmount { resource_id: "currency:gold".to_owned(), quantity: gold }],
        prerequisites,
    }
}

fn town() -> OriginalFlowSession {
    let mut content = AuthoritativeBuildingContent::empty();
    content.catalog.bases.push(base("build_1", 2));
    content.catalog.bases.push(base("build_2", 1));
    content.catalog.levels.push(row("build_1", 1, 100, Vec::new()));
    content.catalog.levels.push(row("build_1", 2, 300, Vec::new()));
    content.catalog.levels.push(row(
        "build_2",
        1,
        50,
        vec![BuildingLevelPrerequisite { building_id: "build_1".to_owned(), required_level: 2 }],
    ));
    OriginalFlowSession::from_aggregate_with_content(
        DurablePlayerAggregate {
            navigation: OriginalFlowPlayerState { screen: OriginalScreen::Village, boot_completed: true },
            hunter_roster: DurableHunterRosterState::default(),
            ..DurablePlayerAggregate::default()
        },
        7,
        content,
    )
}

fn construct(flow: &mut OriginalFlowSession, building_id: &str, grid_x: i32, grid_y: i32) -> ServerMessage {
    flow.handle_command(ClientCommand::ConstructBuildingAt { building_id: building_id.to_owned(), grid_x, grid_y })
        .unwrap()
        .message
}

fn rejection_reason(message: &ServerMessage) -> Option<String> {
    match message {
        ServerMessage::IntentResult { accepted: false, reason, .. } => reason.clone(),
        _ => None,
    }
}

fn accepted(message: &ServerMessage) -> bool {
    matches!(message, ServerMessage::IntentResult { accepted: true, .. })
}

#[test]
fn construction_pays_the_first_level_and_places_a_fresh_instance() {
    let mut flow = town();
    let placed = construct(&mut flow, "build_1", 0, 0);
    assert!(accepted(&placed));
    assert_eq!(flow.buildings.town_gold, 1_400);
    assert_eq!(flow.buildings.next_building_instance_id, 2);
    let building = &flow.buildings.buildings[0];
    assert_eq!(building.id, "build_1");
    assert_eq!(building.level, 1);
    assert_eq!((building.grid_x, building.grid_y), (0, 0));
    assert_eq!(building.instance_id.len(), 36);
    assert_eq!(&building.instance_id[14..15], "4");

    assert_eq!(rejection_reason(&construct(&mut flow, "build_1", 1, 1)).as_deref(), Some("placement_blocked"));
    assert_eq!(rejection_reason(&construct(&mut flow, "build_1", 31, 0)).as_deref(), Some("placement_blocked"));
    assert!(accepted(&construct(&mut flow, "build_1", 4, 0)));
    assert_ne!(flow.buildings.buildings[0].instance_id, flow.buildings.buildings[1].instance_id);
    assert_eq!(rejection_reason(&construct(&mut flow, "build_1", 8, 0)).as_deref(), Some("max_build_reached"));
    assert_eq!(rejection_reason(&construct(&mut flow, "build_9", 8, 0)).as_deref(), Some("building_unknown"));
    assert_eq!(
        rejection_reason(&construct(&mut flow, "build_2", 8, 0)).as_deref(),
        Some("building_prerequisite_required:build_1")
    );
    let unplaced = flow
        .handle_command(ClientCommand::ConstructBuilding { building_id: "build_1".to_owned() })
        .unwrap();
    assert_eq!(rejection_reason(&unplaced.message).as_deref(), Some("placement_required"));
}

#[test]
fn construction_and_upgrade_fail_closed_on_an_unaffordable_row() {
    let mut flow = town();
    flow.buildings.town_gold = 99;
    let before = flow.durable_state();
    assert_eq!(
        rejection_reason(&construct(&mut flow, "build_1", 0, 0)).as_deref(),
        Some("insufficient_building_cost")
    );
    assert_eq!(flow.durable_state(), before);
}

#[test]
fn upgrade_pays_the_next_level_and_unlocks_prerequisites() {
    let mut flow = town();
    assert!(accepted(&construct(&mut flow, "build_1", 0, 0)));
    let instance_id = flow.buildings.buildings[0].instance_id.clone();
    let upgraded = flow.handle_command(ClientCommand::UpgradeBuilding { instance_id: instance_id.clone() }).unwrap();
    assert!(accepted(&upgraded.message));
    assert_eq!(flow.buildings.buildings[0].level, 2);
    assert_eq!(flow.buildings.town_gold, 1_100);
    let maxed = flow.handle_command(ClientCommand::UpgradeBuilding { instance_id }).unwrap();
    assert_eq!(rejection_reason(&maxed.message).as_deref(), Some("maximum_level"));
    assert!(accepted(&construct(&mut flow, "build_2", 6, 6)));
    assert_eq!(flow.buildings.town_gold, 1_050);
    let unknown = flow.handle_command(ClientCommand::UpgradeBuilding { instance_id: "nope".to_owned() }).unwrap();
    assert_eq!(rejection_reason(&unknown.message).as_deref(), Some("building_instance_unknown"));
}

#[test]
fn move_keeps_clear_of_other_buildings_and_incoming_traders() {
    let mut flow = town();
    assert!(accepted(&construct(&mut flow, "build_1", 0, 0)));
    assert!(accepted(&construct(&mut flow, "build_1", 4, 0)));
    let first = flow.buildings.buildings[0].instance_id.clone();
    let move_to = |flow: &mut OriginalFlowSession, grid_x: i32, grid_y: i32| {
        flow.handle_command(ClientCommand::MoveBuilding { instance_id: first.clone(), grid_x, grid_y })
            .unwrap()
            .message
    };
    assert_eq!(rejection_reason(&move_to(&mut flow, 3, 0)).as_deref(), Some("placement_blocked"));
    assert!(accepted(&move_to(&mut flow, 1, 0)));
    assert_eq!((flow.buildings.buildings[0].grid_x, flow.buildings.buildings[0].grid_y), (1, 0));
    let mut roster = DurableHunterRosterState::default();
    let mut walker = DurableHunterState {
        hunter_id: 1,
        profile: DurableHunterProfile {
            display_name: "Hunter 1".to_owned(),
            class_id: "berserker".to_owned(),
            visual_family: "H1".to_owned(),
            action_state: "returning_to_trade".to_owned(),
            animation_name: "hunter_walk".to_owned(),
            skills: Vec::new(),
            equipment_slots: Vec::new(),
            ..DurableHunterProfile::default()
        },
        hunt: DurableHunterHunt::default(),
        gold: 0,
        current_hp: 100,
        max_hp: 100,
        stamina: HunterServiceGauge { current: 1, maximum: 1 },
        satiety: HunterServiceGauge { current: 1, maximum: 1 },
        mood: HunterServiceGauge { current: 1, maximum: 1 },
        owned_items: Vec::new(),
    };
    walker.hunt.pending_trade = Some(DurableHunterTradeTask {
        building_instance_id: first.clone(),
        ..DurableHunterTradeTask::default()
    });
    roster.hunters.push(walker);
    flow.hunter_roster = roster;
    assert_eq!(
        rejection_reason(&move_to(&mut flow, -6, 0)).as_deref(),
        Some("building_has_incoming_hunter")
    );
}

#[test]
fn building_snapshot_projects_definitions_states_and_instances() {
    let mut flow = town();
    flow.building_content.catalog.bases[0].category = Some("civic".to_owned());
    assert!(accepted(&construct(&mut flow, "build_1", 0, 0)));
    let system = flow.building_snapshot();
    assert_eq!(system.evidence_label, "evil-hunter-1.411-postgresql-authoritative-content");
    assert_eq!(system.town_gold, 1_400);
    assert_eq!(system.definitions.len(), 2);
    let hall = &system.definitions[0];
    assert_eq!(hall.id, "build_1");
    assert_eq!(hall.feature, "civic");
    assert_eq!(hall.max_level, 2);
    assert_eq!(hall.construct_cost, 100);
    assert_eq!(hall.max_build, 2);
    assert_eq!((hall.grid_width, hall.grid_height), (2, 2));
    let second = &system.definitions[1];
    assert_eq!(second.feature, "unresolved");
    assert_eq!(second.prerequisite_id.as_deref(), Some("build_1"));
    assert_eq!(second.prerequisite_level, 2);

    let hall_state = &system.states[0];
    assert!(hall_state.constructed);
    assert_eq!(hall_state.level, 1);
    assert_eq!(hall_state.upgrade_cost, Some(300));
    assert!(hall_state.can_upgrade);
    assert!(!hall_state.can_construct);
    let second_state = &system.states[1];
    assert!(!second_state.constructed);
    assert!(!second_state.can_construct);
    assert_eq!(second_state.condition.as_deref(), Some("building_prerequisite_required:build_1"));
    assert_eq!(second_state.upgrade_cost, None);

    assert_eq!(system.instances.len(), 1);
    assert_eq!(system.instances[0].building_id, "build_1");
    assert_eq!(system.instances[0].upgrade_cost, Some(300));

    let instance_id = flow.buildings.buildings[0].instance_id.clone();
    assert!(accepted(&flow.handle_command(ClientCommand::UpgradeBuilding { instance_id }).unwrap().message));
    let upgraded = flow.building_snapshot();
    assert_eq!(upgraded.states[0].level, 2);
    assert_eq!(upgraded.states[0].condition.as_deref(), Some("maximum_level"));
    assert!(!upgraded.states[0].can_upgrade);
    assert_eq!(upgraded.instances[0].upgrade_cost, None);
    assert_eq!(upgraded.states[1].condition, None);
    assert!(upgraded.states[1].can_construct);
}

#[test]
fn village_and_field_views_carry_their_fixed_scene_and_bindings() {
    let flow = town();
    let village = flow.village_snapshot();
    assert_eq!(village.source_scene, "level1");
    assert_eq!(village.canvas_nodes, vec!["UICanvas", "MainCanvas", "WorldCanvas"]);
    assert_eq!(village.world_nodes, vec!["MapManager", "BuildGroup", "BottomView"]);
    assert_eq!(
        village.bottom_menu,
        vec![
            BottomMenuIntent::Build,
            BottomMenuIntent::Character,
            BottomMenuIntent::Archive,
            BottomMenuIntent::Store,
            BottomMenuIntent::Raid,
        ]
    );
    let bindings: Vec<(&str, BindingConfidence, bool)> =
        village.bindings.iter().map(|b| (b.id, b.confidence, b.resolved)).collect();
    assert_eq!(
        bindings,
        vec![
            ("scene.level1", BindingConfidence::Confirmed, true),
            ("village.background", BindingConfidence::Tentative, false),
            ("village.camera_bounds", BindingConfidence::Unknown, false),
            ("village.building_anchors", BindingConfidence::Unknown, false),
        ]
    );
    assert_eq!(village.building_system, flow.building_snapshot());
    let field = field_snapshot();
    assert_eq!(field.scene_nodes, vec!["World", "Hunter", "Evil", "HpBar", "StatusGroup"]);
    assert!(field.visual_projection_runnable && field.gameplay_runnable);
    assert!(field.blockers.is_empty());
}

#[test]
fn refusals_leave_the_town_untouched_except_an_out_of_range_level_row() {
    let mut flow = town();
    assert!(accepted(&construct(&mut flow, "build_1", 0, 0)));
    let instance_id = flow.buildings.buildings[0].instance_id.clone();
    let before = flow.durable_state();
    for command in [
        ClientCommand::UpgradeBuilding { instance_id: "nope".to_owned() },
        ClientCommand::ConstructBuildingAt { building_id: "build_01".to_owned(), grid_x: 8, grid_y: 8 },
        ClientCommand::MoveBuilding { instance_id: "nope".to_owned(), grid_x: 4, grid_y: 4 },
        ClientCommand::ConstructBuilding { building_id: "build_2".to_owned() },
    ] {
        let result = flow.handle_command(command).unwrap();
        assert!(rejection_reason(&result.message).is_some());
        assert!(!result.durable_state_changed);
    }
    assert_eq!(flow.durable_state(), before);

    flow.buildings.buildings[0].level = 255;
    flow.building_content.catalog.levels.push(row("build_1", 256, 10, Vec::new()));
    let gold_before = flow.buildings.town_gold;
    let out_of_range = flow.handle_command(ClientCommand::UpgradeBuilding { instance_id }).unwrap();
    assert_eq!(rejection_reason(&out_of_range.message).as_deref(), Some("building_level_out_of_range"));
    assert_eq!(flow.buildings.town_gold, gold_before - 10);
    assert_eq!(flow.buildings.buildings[0].level, 255);
}

#[test]
fn a_level_row_naming_gold_twice_pays_both_costs_in_turn() {
    let mut flow = town();
    flow.building_content.catalog.levels.retain(|row| row.building_id != "build_1" || row.level != 1);
    let mut doubled = row("build_1", 1, 600, Vec::new());
    doubled.costs.push(EconomyAmount { resource_id: "currency:gold".to_owned(), quantity: 700 });
    flow.building_content.catalog.levels.push(doubled);
    let gold = flow.buildings.town_gold;
    assert!(gold >= 1_300);
    assert!(accepted(&construct(&mut flow, "build_1", 0, 0)));
    assert_eq!(flow.buildings.town_gold, gold - 1_300);

    flow.buildings.town_gold = 900;
    let before = flow.durable_state();
    assert_eq!(
        rejection_reason(&construct(&mut flow, "build_1", 6, 6)).as_deref(),
        Some("insufficient_building_cost")
    );
    assert_eq!(flow.durable_state(), before);
}
