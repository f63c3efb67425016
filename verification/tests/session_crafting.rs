use hunter_town::catalog::{
    AuthoritativeBuildingContent, BaseBuildingDefinition, BuildingCapabilityDefinition, BuildingLevelDefinition,
    ConversionOption, EconomyAmount, EconomyItemDefinition, EconomyProductDefinition,
    GearProductRoute, ServiceDefinition,
};
use hunter_town::contracts::{
    DurableCraftedGearStock, DurableMaterialStock, DurablePlayerAggregate, DurableProductStock,
    OriginalFlowPlayerState, OriginalScreen,
};
use hunter_town::web_rebuild_gear::{WeaponBase, WeaponCatalog};
use hunter_town::product_service::HunterServiceGauge;
use hunter_town::roster::{
    DurableEquipmentSlot, DurableHunterHunt, DurableHunterProfile, DurableHunterRosterState,
    DurableHunterState,
};
use hunter_town::session::{OriginalFlowSession, ServerMessage};
use hunter_town::session_commands::ClientCommand;
use hunter_town::session_restore::default_town_building_state;

const TEST_BANDAGE_ID: &str = "product:5";

fn hunter(hunter_id: u32) -> DurableHunterState {
    DurableHunterState {
        hunter_id,
        profile: DurableHunterProfile {
            display_name: format!("Hunter {hunter_id}"),
            class_id: "berserker".to_owned(),
            visual_family: "H1".to_owned(),
            action_state: "idle".to_owned(),
            animation_name: "hunter_stay".to_owned(),
            skills: Vec::new(),
            equipment_slots: Vec::new(),
            ..DurableHunterProfile::default()
        },
        hunt: DurableHunterHunt::default(),
        gold: 1_000,
        current_hp: 100,
        max_hp: 1_000,
        stamina: HunterServiceGauge { current: 100, maximum: 1_000 },
        satiety: HunterServiceGauge { current: 100, maximum: 1_000 },
        mood: HunterServiceGauge { current: 100, maximum: 1_000 },
        owned_items: Vec::new(),
    }
}

fn operational_migration_roster() -> DurableHunterRosterState {
    DurableHunterRosterState {
        roster_resolved: true,
        wallets_resolved: true,
        hunters: vec![hunter(1), hunter(2)],
        ..DurableHunterRosterState::default()
    }
}

/// The 28 core base buildings of the town template.
fn core_bases() -> Vec<BaseBuildingDefinition> {
    (1..=28)
        .map(|id| BaseBuildingDefinition {
            id: format!("build_{id}"),
            display_name: format!("Building {id}"),
            category: None,
            max_instances: 1,
            grid_width: 2,
            grid_height: 2,
            movable: Some(true),
            base_sprite_asset_id: None,
        })
        .collect()
}

fn material_stock(id: &str, town_quantity: u32) -> DurableMaterialStock {
    DurableMaterialStock {
        id: id.to_owned(),
        town_quantity,
        hunter_quantity: 0,
        requested: 0,
        unit_price: 1,
    }
}

/// A town whose producer building crafts `product_id` out of two units of
/// material 11 per piece, routed by `route`.
fn gear_flow_for_building(
    product_id: &str,
    sale_price: u64,
    producer_building_id: &str,
    route: GearProductRoute,
) -> OriginalFlowSession {
    let mut aggregate = DurablePlayerAggregate {
        navigation: OriginalFlowPlayerState {
            screen: OriginalScreen::Village,
            boot_completed: true,
        },
        buildings: default_town_building_state(),
        hunter_roster: operational_migration_roster(),
        ..DurablePlayerAggregate::default()
    };
    aggregate.buildings.material_stocks.push(material_stock("material:11", 20));
    let mut parts = product_id.split(':');
    let _ = parts.next();
    let gear_kind = parts.next().expect("test gear kind");
    let gear_index = parts.next().expect("test gear index");
    let gear_item_id = format!("gear:{gear_kind}:{gear_index}");
    let mut content = AuthoritativeBuildingContent::empty();
    content.catalog.bases = core_bases();
    content.gameplay.items.push(EconomyItemDefinition {
        item_id: gear_item_id.clone(),
        internal_name: None,
        item_type: Some(gear_kind.to_owned()),
        town_pays_hunter_gold_per_unit: None,
        localized_names: Vec::new(),
        hunter_pays_town_gold_by_tier: vec![sale_price; 5],
    });
    content.gameplay.capabilities.push(BuildingCapabilityDefinition {
        building_id: producer_building_id.to_owned(),
        kind: "weapon-and-armor-crafting".to_owned(),
        static_data_ready: true,
        runnable: true,
    });
    content.gameplay.products.push(EconomyProductDefinition {
        product_id: product_id.to_owned(),
        building_id: Some(producer_building_id.to_owned()),
        duration_ms: None,
        inputs: vec![EconomyAmount {
            resource_id: "material:11".to_owned(),
            quantity: 2,
        }],
        outputs: vec![EconomyAmount {
            resource_id: gear_item_id,
            quantity: 1,
        }],
        sale_price: Vec::new(),
        service: None,
        conversion_options: Vec::new(),
        gear_route: Some(route),
    });
    OriginalFlowSession::from_aggregate_with_content(aggregate, 7, content)
}

fn building_instance_id(flow: &OriginalFlowSession, building_id: &str) -> String {
    flow.buildings
        .buildings
        .iter()
        .find(|building| building.id == building_id)
        .unwrap()
        .instance_id
        .clone()
}

fn rejection_reason(message: &ServerMessage) -> Option<String> {
    match message {
        ServerMessage::IntentResult { accepted: false, reason, .. } => reason.clone(),
        _ => None,
    }
}

fn infirmary_flow() -> OriginalFlowSession {
    let mut aggregate = DurablePlayerAggregate {
        navigation: OriginalFlowPlayerState {
            screen: OriginalScreen::Village,
            boot_completed: true,
        },
        buildings: default_town_building_state(),
        hunter_roster: DurableHunterRosterState {
            roster_resolved: true,
            wallets_resolved: true,
            hunters: (1..=5).map(hunter).collect(),
            ..DurableHunterRosterState::default()
        },
        ..DurablePlayerAggregate::default()
    };
    let infirmary_instance_id = aggregate
        .buildings
        .buildings
        .iter()
        .find(|building| building.id == "build_12")
        .expect("test infirmary")
        .instance_id
        .clone();
    aggregate.buildings.product_stocks.push(DurableProductStock {
        building_instance_id: infirmary_instance_id,
        product_id: TEST_BANDAGE_ID.to_owned(),
        quantity: 5,
    });
    let mut content = AuthoritativeBuildingContent::empty();
    content.gameplay.products.push(EconomyProductDefinition {
        product_id: TEST_BANDAGE_ID.to_owned(),
        building_id: Some("build_12".to_owned()),
        duration_ms: Some(600),
        inputs: Vec::new(),
        outputs: Vec::new(),
        sale_price: Vec::new(),
        service: Some(ServiceDefinition {
            required_level: 0,
            use_money: 90,
            effect_value: 250,
            service_time_ms: 600,
        }),
        conversion_options: Vec::new(),
        gear_route: None,
    });
    OriginalFlowSession::from_aggregate_with_content(aggregate, 7, content)
}

#[test]
fn jeweler_crafts_accessories_into_accessory_shop_stock() {
    let product_id = "recipe:ring:0:rating:0";
    let route = GearProductRoute {
        kind: "ring".to_owned(),
        sale_building_id: "build_22".to_owned(),
        difficulty_group: 1,
        rating: 0,
    };
    let mut flow = gear_flow_for_building(product_id, 80, "build_21", route);
    let jeweler_id = building_instance_id(&flow, "build_21");

    let crafted = flow
        .handle_command(ClientCommand::CraftShopItem {
            instance_id: jeweler_id,
            recipe_id: product_id.to_owned(),
            material_id: None,
            quantity: 2,
        })
        .unwrap();
    assert_eq!(
        rejection_reason(&crafted.message).as_deref(),
        Some("gear_creation_evidence_unresolved")
    );
    assert!(flow.buildings.product_stocks.is_empty());
}

#[test]
fn blacksmith_routes_wearable_armor_to_armor_shop_and_enforces_difficulty_levels() {
    // Helmet 10 belongs to difficulty group 2. Its quality/rating is not
    // the building-level gate.
    let product_id = "recipe:helmet:10:rating:1";
    let route = GearProductRoute {
        kind: "helmet".to_owned(),
        sale_building_id: "build_8".to_owned(),
        difficulty_group: 2,
        rating: 1,
    };
    let mut flow = gear_flow_for_building(product_id, 90, "build_10", route);
    let blacksmith_id = building_instance_id(&flow, "build_10");
    let before = flow.buildings.clone();

    let locked = flow
        .handle_command(ClientCommand::CraftShopItem {
            instance_id: blacksmith_id.clone(),
            recipe_id: product_id.to_owned(),
            material_id: None,
            quantity: 1,
        })
        .unwrap();
    assert_eq!(rejection_reason(&locked.message).as_deref(), Some("product_level_locked"));
    assert_eq!(flow.buildings, before);

    flow.buildings
        .buildings
        .iter_mut()
        .find(|building| building.instance_id == blacksmith_id)
        .unwrap()
        .level = 2;
    let crafted = flow
        .handle_command(ClientCommand::CraftShopItem {
            instance_id: building_instance_id(&flow, "build_10"),
            recipe_id: product_id.to_owned(),
            material_id: None,
            quantity: 1,
        })
        .unwrap();
    assert_eq!(
        rejection_reason(&crafted.message).as_deref(),
        Some("gear_creation_evidence_unresolved")
    );
}

#[test]
fn infirmary_production_ignores_display_capacity_but_consumes_materials() {
    let mut flow = infirmary_flow();
    let instance_id = building_instance_id(&flow, "build_12");
    flow.buildings.material_stocks.push(material_stock("material:11", 20));
    let product = flow
        .building_content
        .gameplay
        .products
        .iter_mut()
        .find(|product| product.product_id == TEST_BANDAGE_ID)
        .expect("test bandage product");
    product.service = None;
    product.conversion_options = vec![ConversionOption {
        input_resource_id: "material:11".to_owned(),
        input_quantity: 1,
        output_stock_quantity: 1,
    }];

    let result = flow
        .handle_command(ClientCommand::CraftShopItem {
            instance_id: instance_id.clone(),
            recipe_id: TEST_BANDAGE_ID.to_owned(),
            material_id: Some("material:11".to_owned()),
            quantity: 10,
        })
        .expect("bandage production result");

    assert!(matches!(result.message, ServerMessage::IntentResult { accepted: true, .. }));
    assert_eq!(flow.buildings.material_stocks[0].town_quantity, 10);
    assert_eq!(
        flow.buildings
            .product_stocks
            .iter()
            .find(|stock| stock.building_instance_id == instance_id && stock.product_id == TEST_BANDAGE_ID)
            .expect("bandage stock")
            .quantity,
        15
    );
}

#[test]
fn production_orders_pay_inputs_and_respect_capacity_and_replay() {
    let mut flow = infirmary_flow();
    let alchemist = building_instance_id(&flow, "build_14");
    flow.buildings.material_stocks.push(material_stock("material:11", 20));
    flow.building_content.gameplay.capabilities.push(BuildingCapabilityDefinition {
        building_id: "build_14".to_owned(),
        kind: "potion-crafting".to_owned(),
        static_data_ready: true,
        runnable: true,
    });
    flow.building_content.gameplay.products.push(EconomyProductDefinition {
        product_id: "recipe:tonic:0".to_owned(),
        building_id: Some("build_14".to_owned()),
        duration_ms: None,
        inputs: vec![EconomyAmount { resource_id: "material:11".to_owned(), quantity: 3 }],
        outputs: Vec::new(),
        sale_price: Vec::new(),
        service: None,
        conversion_options: Vec::new(),
        gear_route: None,
    });
    let order = |quantity: u32| ClientCommand::CraftShopItem {
        instance_id: alchemist.clone(),
        recipe_id: "recipe:tonic:0".to_owned(),
        material_id: None,
        quantity,
    };
    let zero = flow.handle_command_with_id(order(0), 0).unwrap();
    assert_eq!(rejection_reason(&zero.message).as_deref(), Some("quantity_invalid"));
    let first = flow.handle_command_with_id(order(2), 31).unwrap();
    assert!(matches!(first.message, ServerMessage::IntentResult { accepted: true, .. }));
    assert!(first.durable_state_changed);
    assert_eq!(flow.buildings.material_stocks[0].town_quantity, 14);
    let replay = flow.handle_command_with_id(order(2), 31).unwrap();
    assert!(matches!(replay.message, ServerMessage::IntentResult { accepted: true, .. }));
    assert!(!replay.durable_state_changed);
    assert_eq!(flow.buildings.material_stocks[0].town_quantity, 14);
    let conflict = flow.handle_command_with_id(order(1), 31).unwrap();
    assert_eq!(rejection_reason(&conflict.message).as_deref(), Some("command_id_conflict"));
    let too_many = flow.handle_command_with_id(order(5), 32).unwrap();
    assert_eq!(rejection_reason(&too_many.message).as_deref(), Some("insufficient_materials"));
    let unknown = flow
        .handle_command(ClientCommand::CraftShopItem {
            instance_id: "missing-instance".to_owned(),
            recipe_id: "missing-recipe".to_owned(),
            material_id: None,
            quantity: 1,
        })
        .unwrap();
    assert_eq!(rejection_reason(&unknown.message).as_deref(), Some("building_instance_unknown"));
}

fn weapon_route() -> GearProductRoute {
    GearProductRoute {
        kind: "weapon".to_owned(),
        sale_building_id: "build_7".to_owned(),
        difficulty_group: 1,
        rating: 0,
    }
}

fn crafted_row(instance_id: String, product_id: &str, gear_instance_id: u128, quality: u8) -> DurableCraftedGearStock {
    DurableCraftedGearStock {
        building_instance_id: instance_id,
        gear_instance_id,
        product_id: product_id.to_owned(),
        gear_kind: "weapon".to_owned(),
        rating: 0,
        quality,
        primary_stat: 100,
        option_type: 0,
        option_value: 0,
        icon_path: "/content/releases/evil-hunter-1.411/gear-icons/weapon-0.png".to_owned(),
        ruleset: "test-reviewed-gear-row".to_owned(),
    }
}

fn purchase(hunter_id: u32, shop_id: &str, product_id: &str) -> ClientCommand {
    ClientCommand::PurchaseShopItem {
        hunter_id,
        shop_id: shop_id.to_owned(),
        product_id: product_id.to_owned(),
    }
}

#[test]
fn blacksmith_stock_purchase_conserves_hunter_and_town_gold() {
    let product_id = "recipe:weapon:0:rating:0";
    let mut flow = gear_flow_for_building(product_id, 75, "build_10", weapon_route());
    let blacksmith_id = building_instance_id(&flow, "build_10");
    let weapon_shop_id = building_instance_id(&flow, "build_7");

    let crafted = flow
        .handle_command(ClientCommand::CraftShopItem {
            instance_id: blacksmith_id,
            recipe_id: product_id.to_owned(),
            material_id: None,
            quantity: 2,
        })
        .unwrap();
    assert!(matches!(crafted.message, ServerMessage::IntentResult { accepted: false, .. }));
    assert_eq!(flow.buildings.material_stocks[0].town_quantity, 20);
    assert!(flow.buildings.crafted_gear_stocks.is_empty());
    flow.buildings.crafted_gear_stocks.push(crafted_row(weapon_shop_id.clone(), product_id, 7001, 2));
    flow.buildings.product_stocks.push(DurableProductStock {
        building_instance_id: weapon_shop_id,
        product_id: product_id.to_owned(),
        quantity: 1,
    });
    let second_row_shop = building_instance_id(&flow, "build_7");
    flow.buildings.crafted_gear_stocks.push(crafted_row(second_row_shop, product_id, 7002, 3));
    flow.buildings.product_stocks[0].quantity = 2;

    let gold_before = flow.buildings.town_gold;
    let hunter_gold_before = flow.hunter_roster.hunters[0].gold;
    let bought = flow.handle_command(purchase(1, "build_7", product_id)).unwrap();
    assert!(matches!(bought.message, ServerMessage::IntentResult { accepted: true, .. }));
    assert_eq!(flow.buildings.product_stocks[0].quantity, 1);
    assert_eq!(flow.buildings.town_gold, gold_before + 75);
    assert_eq!(flow.hunter_roster.hunters[0].gold, hunter_gold_before - 75);
    assert_eq!(flow.hunter_roster.hunters[0].owned_items[0].product_id, product_id);
    assert_eq!(flow.hunter_roster.hunters[0].owned_items[0].quantity, 1);
    assert_eq!(flow.buildings.crafted_gear_stocks.len(), 1);
    assert!(flow.hunter_roster.hunters[0].owned_items[0].quality.is_some());
    assert_eq!(
        flow.hunter_roster.hunters[0].owned_items[0].ruleset.as_deref(),
        Some("test-reviewed-gear-row")
    );
    assert_eq!(flow.buildings.hunter_equipment_purchases, 1);

    let second = flow.handle_command_with_id(purchase(1, "build_7", product_id), 8_000).unwrap();
    assert!(matches!(second.message, ServerMessage::IntentResult { accepted: true, .. }));
    let owned = &flow.hunter_roster.hunters[0].owned_items;
    assert_eq!(owned.len(), 2);
    assert!(owned.iter().all(|item| item.quantity == 1));
    assert!(owned.iter().all(|item| item.gear_instance_id.is_some()));
    assert_ne!(owned[0].gear_instance_id, owned[1].gear_instance_id);

    let recipes = flow.building_snapshot().recipes;
    assert!(recipes
        .iter()
        .any(|recipe| recipe.id == product_id && recipe.shop_id == "build_10"));
    assert_eq!(flow.buildings.product_stocks[0].quantity, 0);
}

#[test]
fn alchemist_crafts_and_sells_catalog_potion_at_recovered_price() {
    let product_id = "recipe:consumable:0:level:0";
    let mut aggregate = DurablePlayerAggregate {
        navigation: OriginalFlowPlayerState { screen: OriginalScreen::Village, boot_completed: true },
        buildings: default_town_building_state(),
        hunter_roster: operational_migration_roster(),
        ..DurablePlayerAggregate::default()
    };
    aggregate.buildings.material_stocks.push(material_stock("material:139", 3));
    let mut content = AuthoritativeBuildingContent::empty();
    content.catalog.bases = core_bases();
    content.gameplay.capabilities.push(BuildingCapabilityDefinition {
        building_id: "build_14".to_owned(),
        kind: "potion-crafting".to_owned(),
        static_data_ready: true,
        runnable: true,
    });
    content.gameplay.items.push(EconomyItemDefinition {
        item_id: "consumable:0".to_owned(),
        internal_name: None,
        item_type: Some("consumable".to_owned()),
        town_pays_hunter_gold_per_unit: None,
        localized_names: Vec::new(),
        hunter_pays_town_gold_by_tier: vec![68, 120, 200],
    });
    content.catalog.levels.push(BuildingLevelDefinition {
        building_id: "build_11".to_owned(),
        level: 1,
        production_slots: Some(4),
        costs: Vec::new(),
        prerequisites: Vec::new(),
    });
    content.gameplay.products.push(EconomyProductDefinition {
        product_id: product_id.to_owned(),
        building_id: Some("build_14".to_owned()),
        duration_ms: None,
        inputs: vec![EconomyAmount { resource_id: "material:139".to_owned(), quantity: 3 }],
        outputs: vec![EconomyAmount { resource_id: "consumable:0".to_owned(), quantity: 1 }],
        sale_price: Vec::new(),
        service: None,
        conversion_options: Vec::new(),
        gear_route: None,
    });
    let mut flow = OriginalFlowSession::from_aggregate_with_content(aggregate, 7, content);
    let alchemist_id = building_instance_id(&flow, "build_14");
    let crafted = flow
        .handle_command(ClientCommand::CraftShopItem {
            instance_id: alchemist_id,
            recipe_id: product_id.to_owned(),
            material_id: None,
            quantity: 1,
        })
        .unwrap();
    assert!(matches!(crafted.message, ServerMessage::IntentResult { accepted: true, .. }));
    let potion_shop_id = building_instance_id(&flow, "build_11");
    let shop_stock = |flow: &OriginalFlowSession| {
        flow.buildings
            .product_stocks
            .iter()
            .find(|stock| stock.building_instance_id == potion_shop_id && stock.product_id == product_id)
            .map(|stock| stock.quantity)
    };
    assert_eq!(shop_stock(&flow), Some(1));
    let potion_row = flow
        .building_snapshot()
        .recipes
        .into_iter()
        .find(|recipe| recipe.id == product_id && recipe.shop_id == "build_11")
        .expect("potion shop row");
    assert_eq!(potion_row.stock, 1);
    assert_eq!(potion_row.sale_price, 68);

    let town_gold_before = flow.buildings.town_gold;
    let hunter_gold_before = flow.hunter_roster.hunters[0].gold;
    let equipment_purchase_count_before = flow.buildings.hunter_equipment_purchases;
    let purchased = flow.handle_command(purchase(1, "build_11", product_id)).unwrap();
    assert!(matches!(purchased.message, ServerMessage::IntentResult { accepted: true, .. }));
    assert_eq!(shop_stock(&flow), Some(0));
    assert_eq!(flow.buildings.town_gold, town_gold_before + 68);
    assert_eq!(flow.hunter_roster.hunters[0].gold, hunter_gold_before - 68);
    assert_eq!(flow.buildings.hunter_equipment_purchases, equipment_purchase_count_before);
    assert_eq!(flow.hunter_roster.hunters[0].owned_items[0].product_id, product_id);
}

/// A town whose weapon shop stocks one crafted piece of weapon 0, priced 75.
fn stocked_weapon_shop() -> OriginalFlowSession {
    let product_id = "recipe:weapon:0:rating:0";
    let mut flow = gear_flow_for_building(product_id, 75, "build_10", weapon_route());
    let shop = building_instance_id(&flow, "build_7");
    flow.buildings.crafted_gear_stocks.push(crafted_row(shop.clone(), product_id, 0x51, 2));
    flow.buildings.product_stocks.push(DurableProductStock {
        building_instance_id: shop,
        product_id: product_id.to_owned(),
        quantity: 1,
    });
    flow
}

#[test]
fn purchase_refusals_leave_the_town_unchanged() {
    let product_id = "recipe:weapon:0:rating:0";
    let mut flow = stocked_weapon_shop();
    let before = flow.durable_state();
    let reason = |flow: &mut OriginalFlowSession, command: ClientCommand, id: u128| {
        rejection_reason(&flow.handle_command_with_id(command, id).unwrap().message)
    };
    assert_eq!(reason(&mut flow, purchase(1, "build_7", "recipe:none"), 1).as_deref(), Some("recipe_unknown"));
    assert_eq!(
        reason(&mut flow, purchase(1, "build_8", product_id), 2).as_deref(),
        Some("recipe_building_mismatch")
    );
    assert_eq!(reason(&mut flow, purchase(9, "build_7", product_id), 3).as_deref(), Some("hunter_unknown"));
    flow.hunter_roster.hunters[0].gold = 74;
    assert_eq!(
        reason(&mut flow, purchase(1, "build_7", product_id), 4).as_deref(),
        Some("insufficient_hunter_gold")
    );
    flow.hunter_roster.hunters[0].gold = 1_000;
    flow.hunter_roster.hunters[0].hunt.status = "hunting".to_owned();
    assert_eq!(reason(&mut flow, purchase(1, "build_7", product_id), 5).as_deref(), Some("hunter_not_in_town"));
    flow.hunter_roster.hunters[0].hunt.status = "idle".to_owned();
    flow.buildings.crafted_gear_stocks.clear();
    assert_eq!(
        reason(&mut flow, purchase(1, "build_7", product_id), 6).as_deref(),
        Some("crafted_gear_stock_empty")
    );
    flow.buildings.product_stocks[0].quantity = 0;
    assert_eq!(reason(&mut flow, purchase(1, "build_7", product_id), 7).as_deref(), Some("product_stock_empty"));
    flow.state.screen = OriginalScreen::Boot;
    assert_eq!(reason(&mut flow, purchase(1, "build_7", product_id), 8).as_deref(), Some("village_unavailable"));
    flow.state.screen = OriginalScreen::Village;
    flow.buildings.product_stocks[0].quantity = 1;
    flow.buildings.crafted_gear_stocks = before.buildings.crafted_gear_stocks.clone();
    assert_eq!(flow.durable_state(), before);
}

#[test]
fn purchase_command_id_replays_and_conflicts() {
    let product_id = "recipe:weapon:0:rating:0";
    let mut flow = stocked_weapon_shop();
    let first = flow.handle_command_with_id(purchase(1, "build_7", product_id), 77).unwrap();
    assert!(matches!(first.message, ServerMessage::IntentResult { accepted: true, .. }));
    assert!(first.durable_state_changed);
    let gold_after = flow.hunter_roster.hunters[0].gold;
    flow.buildings.product_stocks[0].quantity = 1;
    let replay = flow.handle_command_with_id(purchase(1, "build_7", product_id), 77).unwrap();
    assert!(matches!(replay.message, ServerMessage::IntentResult { accepted: true, .. }));
    assert!(!replay.durable_state_changed);
    assert_eq!(flow.hunter_roster.hunters[0].gold, gold_after);
    flow.buildings.crafted_gear_stocks.push(crafted_row(building_instance_id(&flow, "build_7"), product_id, 0x52, 1));
    let conflict = flow.handle_command_with_id(purchase(2, "build_7", product_id), 77).unwrap();
    assert_eq!(rejection_reason(&conflict.message).as_deref(), Some("command_id_conflict"));
}

#[test]
fn consumable_purchases_stack_in_one_owned_row() {
    let mut flow = stocked_weapon_shop();
    let product_id = "recipe:consumable:0:level:1";
    flow.building_content.gameplay.items.push(EconomyItemDefinition {
        item_id: "consumable:0".to_owned(),
        internal_name: None,
        item_type: Some("consumable".to_owned()),
        town_pays_hunter_gold_per_unit: None,
        localized_names: Vec::new(),
        hunter_pays_town_gold_by_tier: vec![68, 120],
    });
    flow.building_content.gameplay.products.push(EconomyProductDefinition {
        product_id: product_id.to_owned(),
        building_id: Some("build_14".to_owned()),
        duration_ms: None,
        inputs: Vec::new(),
        outputs: vec![EconomyAmount { resource_id: "consumable:0".to_owned(), quantity: 1 }],
        sale_price: Vec::new(),
        service: None,
        conversion_options: Vec::new(),
        gear_route: None,
    });
    let potion_shop = building_instance_id(&flow, "build_11");
    flow.buildings.product_stocks.push(DurableProductStock {
        building_instance_id: potion_shop,
        product_id: product_id.to_owned(),
        quantity: 3,
    });
    for _ in 0..2 {
        let bought = flow.handle_command(purchase(2, "build_11", product_id)).unwrap();
        assert!(matches!(bought.message, ServerMessage::IntentResult { accepted: true, .. }));
    }
    let hunter = &flow.hunter_roster.hunters[1];
    assert_eq!(hunter.gold, 1_000 - 240);
    assert_eq!(hunter.owned_items.len(), 1);
    assert_eq!(hunter.owned_items[0].quantity, 2);
    assert!(hunter.owned_items[0].gear_instance_id.is_none());
    assert_eq!(flow.buildings.hunter_equipment_purchases, 0);
}

fn weapon_slot() -> DurableEquipmentSlot {
    DurableEquipmentSlot {
        slot_id: "weapon".to_owned(),
        catalog_kind: "fixture".to_owned(),
        catalog_index: 0,
        display_name: "Old Sword".to_owned(),
        icon_path: "old.png".to_owned(),
        presentation_gender: "male".to_owned(),
        required_class_id: None,
        locked: false,
        evidence_state: "fixture".to_owned(),
    }
}

fn weapon_catalog() -> WeaponCatalog {
    WeaponCatalog {
        weapons: vec![WeaponBase {
            id: "sword-0".to_owned(),
            class_id: "berserker".to_owned(),
            attack_damage_min: 10,
            attack_damage_max: 20,
            display_name_en: "Training Sword".to_owned(),
            display_name_vi: "Kiem Tap".to_owned(),
            visual_family: "H1".to_owned(),
            expected_inventory_icon: "/icons/weapon-0.png".to_owned(),
        }],
    }
}

#[test]
fn weapon_purchase_equips_the_bought_instance() {
    let product_id = "recipe:weapon:0:rating:0";
    let mut flow = stocked_weapon_shop();
    flow.building_content.weapons = weapon_catalog();
    let no_slot = flow.handle_command(purchase(1, "build_7", product_id)).unwrap();
    assert_eq!(rejection_reason(&no_slot.message).as_deref(), Some("weapon_slot_unavailable"));
    flow.hunter_roster.hunters[0].profile.equipment_slots.push(weapon_slot());
    flow.hunter_roster.hunters[1].profile.equipment_slots.push(weapon_slot());
    flow.hunter_roster.hunters[1].profile.visual_family = "H2".to_owned();
    let wrong_family = flow.handle_command(purchase(2, "build_7", product_id)).unwrap();
    assert_eq!(rejection_reason(&wrong_family.message).as_deref(), Some("weapon_class_incompatible"));

    let bought = flow.handle_command(purchase(1, "build_7", product_id)).unwrap();
    assert!(matches!(bought.message, ServerMessage::IntentResult { accepted: true, .. }));
    let slot = &flow.hunter_roster.hunters[0].profile.equipment_slots[0];
    assert_eq!(slot.catalog_kind, "rebuild_weapon_instance:00000000-0000-0000-0000-000000000051");
    assert_eq!(slot.catalog_index, 0);
    assert_eq!(slot.display_name, "Kiem Tap");
    assert_eq!(slot.icon_path, "/icons/weapon-0.png");
    assert_eq!(slot.required_class_id.as_deref(), Some("berserker"));
    assert_eq!(slot.evidence_state, "web_rebuild_weapon_v1");
    assert_eq!(flow.hunter_roster.hunters[0].owned_items[0].gear_instance_id, Some(0x51));
}

#[test]
fn owned_weapon_equip_command_validates_and_replays() {
    let product_id = "recipe:weapon:0:rating:0";
    let mut flow = stocked_weapon_shop();
    flow.hunter_roster.hunters[0].profile.equipment_slots.push(weapon_slot());
    let bought = flow.handle_command(purchase(1, "build_7", product_id)).unwrap();
    assert!(matches!(bought.message, ServerMessage::IntentResult { accepted: true, .. }));
    let equip = |flow: &mut OriginalFlowSession, hunter_id: u32, gear_instance_id: u128, id: u128| {
        flow.handle_command_with_id(ClientCommand::EquipHunterWeapon { hunter_id, gear_instance_id }, id).unwrap()
    };
    assert_eq!(
        rejection_reason(&equip(&mut flow, 1, 0x51, 1).message).as_deref(),
        Some("weapon_definition_unresolved")
    );
    flow.building_content.weapons = weapon_catalog();
    assert_eq!(rejection_reason(&equip(&mut flow, 1, 0x99, 2).message).as_deref(), Some("gear_instance_unknown"));
    assert_eq!(rejection_reason(&equip(&mut flow, 7, 0x51, 3).message).as_deref(), Some("hunter_unknown"));
    let done = equip(&mut flow, 1, 0x51, 4);
    assert!(matches!(done.message, ServerMessage::IntentResult { accepted: true, .. }));
    assert!(done.durable_state_changed);
    assert_eq!(
        flow.hunter_roster.hunters[0].profile.equipment_slots[0].catalog_kind,
        "rebuild_weapon_instance:00000000-0000-0000-0000-000000000051"
    );
    let replay = equip(&mut flow, 1, 0x51, 4);
    assert!(matches!(replay.message, ServerMessage::IntentResult { accepted: true, .. }));
    assert!(!replay.durable_state_changed);
    assert_eq!(rejection_reason(&equip(&mut flow, 2, 0x51, 4).message).as_deref(), Some("command_id_conflict"));
    flow.hunter_roster.hunters[0].profile.visual_family = "H3".to_owned();
    assert_eq!(rejection_reason(&equip(&mut flow, 1, 0x51, 5).message).as_deref(), Some("weapon_class_mismatch"));
}
