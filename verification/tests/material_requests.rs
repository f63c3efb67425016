use hunter_town::catalog::{
    AuthoritativeBuildingContent, BaseBuildingDefinition, BuildingCapabilityDefinition, EconomyItemDefinition, LocalizedName,
};
use hunter_town::contracts::{
    DurableMaterialStock, DurablePlayerAggregate, OriginalFlowPlayerState, OriginalScreen,
};
use hunter_town::session::{OriginalFlowSession, ServerMessage};
use hunter_town::session_commands::ClientCommand;
use hunter_town::session_restore::default_town_building_state;
use uuid::Uuid;

const ACTIVE_MATERIAL_REQUEST: u32 = 1;

fn material(id: &str, name: &str, price: u64) -> EconomyItemDefinition {
    EconomyItemDefinition {
        item_id: id.to_owned(),
        internal_name: None,
        item_type: Some("material".to_owned()),
        town_pays_hunter_gold_per_unit: Some(price),
        localized_names: vec![LocalizedName { locale: "en".to_owned(), name: name.to_owned() }],
        hunter_pays_town_gold_by_tier: Vec::new(),
    }
}

/// Content whose Trading Post takes requests for three priced materials.
fn reservation_content() -> AuthoritativeBuildingContent {
    let mut content = AuthoritativeBuildingContent::empty();
    content.gameplay.capabilities.push(BuildingCapabilityDefinition {
        building_id: "build_3".to_owned(),
        kind: "loot-purchase-reservations".to_owned(),
        static_data_ready: true,
        runnable: true,
    });
    content.gameplay.items.push(material("material:1", "Linen Cloth", 10));
    content.gameplay.items.push(material("material:2", "Wool", 12));
    content.gameplay.items.push(material("material:6", "Cotton", 14));
    content
}

/// The template town, its Trading Post taking material requests.
fn booted_town() -> OriginalFlowSession {
    let content = reservation_content();
    let mut flow = OriginalFlowSession::from_aggregate_with_content(
        DurablePlayerAggregate {
            navigation: OriginalFlowPlayerState { screen: OriginalScreen::Boot, boot_completed: false },
            buildings: default_town_building_state(),
            ..DurablePlayerAggregate::default()
        },
        7,
        content,
    );
    flow.handle_command(ClientCommand::CompleteBoot);
    flow
}

fn instance_of(flow: &OriginalFlowSession, building_id: &str) -> String {
    flow.buildings.buildings.iter().find(|building| building.id == building_id).unwrap().instance_id.clone()
}

fn request(flow: &mut OriginalFlowSession, instance_id: &str, material_id: &str, quantity: u32) -> ServerMessage {
    flow.handle_command(ClientCommand::SetMaterialRequest {
        instance_id: instance_id.to_owned(),
        material_id: material_id.to_owned(),
        quantity,
    })
    .unwrap()
    .message
}

fn rejection_reason(message: &ServerMessage) -> Option<String> {
    match message {
        ServerMessage::IntentResult { accepted: false, reason, .. } => reason.clone(),
        _ => None,
    }
}

#[test]
fn trading_post_reservation_is_authoritative_and_sale_fails_closed_without_seller() {
    let mut flow = booted_town();
    let town_hall_instance_id = instance_of(&flow, "build_1");
    let trading_post_instance_id = instance_of(&flow, "build_3");
    assert!(flow
        .building_snapshot()
        .material_stocks
        .iter()
        .any(|stock| stock.id == "material:1" && stock.town_quantity == 0));
    let wrong_building = request(&mut flow, &town_hall_instance_id, "material:1", 3);
    assert_eq!(rejection_reason(&wrong_building).as_deref(), Some("building_capability_mismatch"));
    let quantity_request = request(&mut flow, &trading_post_instance_id, "material:1", 2);
    assert!(matches!(quantity_request, ServerMessage::IntentResult { accepted: true, .. }));
    assert_eq!(
        flow.buildings.material_stocks.iter().find(|stock| stock.id == "material:1").unwrap().requested,
        2
    );
    let locked_difficulty = request(&mut flow, &trading_post_instance_id, "material:2", ACTIVE_MATERIAL_REQUEST);
    assert_eq!(rejection_reason(&locked_difficulty).as_deref(), Some("material_difficulty_locked"));
    request(&mut flow, &trading_post_instance_id, "material:1", ACTIVE_MATERIAL_REQUEST);
    flow.handle_command(ClientCommand::CancelMaterialRequest {
        instance_id: trading_post_instance_id.clone(),
        material_id: "material:1".to_owned(),
    });
    let material_index = flow.buildings.material_stocks.iter().position(|stock| stock.id == "material:1").unwrap();
    assert_eq!(flow.buildings.material_stocks[material_index].requested, 0);
    request(&mut flow, &trading_post_instance_id, "material:1", ACTIVE_MATERIAL_REQUEST);
    flow.buildings.material_stocks[material_index].hunter_quantity = 5;
    flow.handle_command(ClientCommand::EnterField);
    flow.handle_command(ClientCommand::NavigateBack);
    assert_eq!(flow.buildings.town_gold, 1_500);
    assert_eq!(flow.buildings.material_stocks[material_index].town_quantity, 0);
    assert_eq!(flow.buildings.material_stocks[material_index].hunter_quantity, 5);
    assert_eq!(flow.buildings.material_stocks[material_index].requested, ACTIVE_MATERIAL_REQUEST);
    assert!(flow.buildings.trade_settlements.is_empty());
    hunter_town::trading_post::settle_returning_hunters(&mut flow.buildings);
    assert!(flow.buildings.trade_settlements.is_empty());
}

#[test]
fn new_requests_keep_the_stock_list_sorted_by_id() {
    let mut flow = booted_town();
    let post = instance_of(&flow, "build_3");
    flow.buildings.material_stocks = vec![
        DurableMaterialStock { id: "material:9".to_owned(), town_quantity: 1, hunter_quantity: 0, requested: 0, unit_price: 3 },
        DurableMaterialStock { id: "material:10".to_owned(), town_quantity: 2, hunter_quantity: 0, requested: 0, unit_price: 3 },
    ];
    assert!(matches!(request(&mut flow, &post, "material:6", 4), ServerMessage::IntentResult { accepted: true, .. }));
    let ids: Vec<&str> = flow.buildings.material_stocks.iter().map(|stock| stock.id.as_str()).collect();
    assert_eq!(ids, vec!["material:10", "material:6", "material:9"]);
    let added = &flow.buildings.material_stocks[1];
    assert_eq!((added.requested, added.unit_price, added.town_quantity), (4, 14, 0));
    assert_eq!(rejection_reason(&request(&mut flow, &post, "material:6", 0)).as_deref(), Some("material_quantity_invalid"));
    assert_eq!(
        rejection_reason(&request(&mut flow, &post, "gold", 1)).as_deref(),
        Some("material_difficulty_unresolved")
    );
    assert_eq!(
        rejection_reason(&request(&mut flow, &post, "material:11", 1)).as_deref(),
        Some("material_price_unresolved")
    );
    let unknown = flow
        .handle_command(ClientCommand::CancelMaterialRequest {
            instance_id: post,
            material_id: "material:12".to_owned(),
        })
        .unwrap();
    assert_eq!(rejection_reason(&unknown.message).as_deref(), Some("material_request_unknown"));
}

#[test]
fn shared_field_focus_keeps_building_and_economy_commands_available() {
    let mut flow = OriginalFlowSession::from_state(OriginalFlowPlayerState::default());
    let mut content = reservation_content();
    for id in ["build_2", "build_15"] {
        content.catalog.bases.push(BaseBuildingDefinition {
            id: id.to_owned(),
            display_name: id.to_owned(),
            category: None,
            max_instances: 1,
            grid_width: 2,
            grid_height: 2,
            movable: Some(true),
            base_sprite_asset_id: None,
        });
    }
    flow.building_content = content;
    flow.handle_command(ClientCommand::CompleteBoot);
    flow.handle_command(ClientCommand::EnterField);
    assert!(flow.shared_world_active());
    assert!(flow.advance_visual_clock_by(100));

    let rejection = |message: ServerMessage| match message {
        ServerMessage::IntentResult { accepted: false, reason: Some(reason), .. } => reason,
        other => panic!("expected rejection, got {other:?}"),
    };
    assert_eq!(rejection(flow.construct_building("build_2")), "placement_required");
    assert_eq!(rejection(flow.upgrade_building("missing-instance")), "building_instance_unknown");
    assert_eq!(rejection(flow.move_building("missing-instance", 0, 0)), "building_instance_unknown");
    assert_eq!(
        rejection(flow.craft_shop_item(Uuid::nil().as_u128(), "missing-instance", "missing-recipe", None, 1)),
        "building_instance_unknown"
    );
    assert_eq!(
        rejection(flow.start_product_service("missing-instance", 1, "missing-product")),
        "service_instance_unknown"
    );
    assert_eq!(
        rejection(flow.purchase_shop_item(Uuid::nil().as_u128(), 1, "missing-building", "missing-product")),
        "building_unknown"
    );
    assert_eq!(rejection(flow.start_hunter_enhancement(Uuid::nil().as_u128(), u32::MAX)), "hunter_unknown");
    assert_eq!(
        rejection(flow.enhance_hunter_gear(Uuid::nil().as_u128(), 1, Uuid::nil().as_u128(), "invalid-mode", &[])),
        "enhancement_mode_invalid"
    );
    let trading_post_instance_id = instance_of(&flow, "build_3");

    let request = flow
        .handle_command(ClientCommand::SetMaterialRequest {
            instance_id: trading_post_instance_id.clone(),
            material_id: "material:1".to_owned(),
            quantity: 100,
        })
        .expect("request result");
    assert!(matches!(request.message, ServerMessage::IntentResult { accepted: true, .. }));
    assert!(request.durable_state_changed);
    assert_eq!(
        flow.buildings
            .material_stocks
            .iter()
            .find(|stock| stock.id == "material:1")
            .expect("requested material")
            .requested,
        100
    );

    let cancel = flow
        .handle_command(ClientCommand::CancelMaterialRequest {
            instance_id: trading_post_instance_id,
            material_id: "material:1".to_owned(),
        })
        .expect("cancel result");
    assert!(matches!(cancel.message, ServerMessage::IntentResult { accepted: true, .. }));
    assert!(cancel.durable_state_changed);
}
