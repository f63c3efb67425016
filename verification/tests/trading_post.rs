use hunter_town::catalog::{BuildingGameplayCatalog, EconomyItemDefinition, LocalizedName};
use hunter_town::contracts::{DurableBuildingState, DurableMaterialStock};
use hunter_town::material_catalog::material_catalog_stocks;
use hunter_town::trading_post::{material_difficulty_rating, settle_returning_hunters};

const ACTIVE_MATERIAL_REQUEST: u32 = 1;

#[test]
fn settlement_preserves_economy_until_seller_attribution_is_available() {
    let mut state = DurableBuildingState {
        town_gold: 25,
        field_trip_id: 4,
        material_stocks: vec![DurableMaterialStock {
            id: "material:1".to_owned(),
            town_quantity: 0,
            hunter_quantity: 5,
            requested: ACTIVE_MATERIAL_REQUEST,
            unit_price: 10,
        }],
        ..DurableBuildingState::default()
    };

    assert!(!settle_returning_hunters(&mut state));
    assert_eq!(state.town_gold, 25);
    assert_eq!(state.material_stocks[0].town_quantity, 0);
    assert_eq!(state.material_stocks[0].hunter_quantity, 5);
    assert_eq!(state.material_stocks[0].requested, ACTIVE_MATERIAL_REQUEST);
    assert!(state.trade_settlements.is_empty());
    assert!(!settle_returning_hunters(&mut state));
    assert!(state.trade_settlements.is_empty());
}

#[test]
fn decoded_material_ratings_cover_all_six_trading_post_levels() {
    assert_eq!(material_difficulty_rating("material:1"), Some(0));
    assert_eq!(material_difficulty_rating("material:2"), Some(1));
    assert_eq!(material_difficulty_rating("material:3"), Some(2));
    assert_eq!(material_difficulty_rating("material:4"), Some(3));
    assert_eq!(material_difficulty_rating("material:5"), Some(4));
    assert_eq!(material_difficulty_rating("material:171"), Some(5));
    assert_eq!(material_difficulty_rating("currency:gold"), None);
}

#[test]
fn material_ratings_reject_out_of_range_and_malformed_indices() {
    assert_eq!(material_difficulty_rating("material:368"), Some(5));
    assert_eq!(material_difficulty_rating("material:369"), None);
    assert_eq!(material_difficulty_rating("material:"), None);
    assert_eq!(material_difficulty_rating("material:+1"), Some(0));
    assert_eq!(material_difficulty_rating("material:x"), None);
}

#[test]
fn empty_return_trip_is_marked_settled_once() {
    let mut state = DurableBuildingState {
        field_trip_id: 3,
        ..DurableBuildingState::default()
    };
    assert!(settle_returning_hunters(&mut state));
    assert_eq!(state.settled_field_trip_id, 3);
    assert_eq!(state.town_gold, 1_500);
    assert!(!settle_returning_hunters(&mut state));
    let mut no_trip = DurableBuildingState::default();
    assert!(!settle_returning_hunters(&mut no_trip));
}

fn catalog_item(id: &str, name: &str, price: u64) -> EconomyItemDefinition {
    EconomyItemDefinition {
        item_id: id.to_owned(),
        internal_name: None,
        item_type: Some("material".to_owned()),
        town_pays_hunter_gold_per_unit: Some(price),
        localized_names: vec![LocalizedName { locale: "en".to_owned(), name: name.to_owned() }],
        hunter_pays_town_gold_by_tier: Vec::new(),
    }
}

fn gameplay(items: Vec<EconomyItemDefinition>) -> BuildingGameplayCatalog {
    BuildingGameplayCatalog { capabilities: Vec::new(), items, products: Vec::new() }
}

fn stock(id: &str, town_quantity: u32, requested: u32, unit_price: u64) -> DurableMaterialStock {
    DurableMaterialStock { id: id.to_owned(), town_quantity, hunter_quantity: 0, requested, unit_price }
}

#[test]
fn material_catalog_excludes_unresolved_placeholder_rows() {
    let gameplay = gameplay(vec![
        catalog_item("material:1", "Linen Cloth", 10),
        catalog_item("material:132", "B---", 0),
    ]);

    let projected = material_catalog_stocks(&gameplay, &[]);

    assert_eq!(projected.len(), 1);
    assert_eq!(projected[0].id, "material:1");
}

#[test]
fn material_catalog_orders_by_index_and_keeps_retired_durable_rows() {
    let gameplay = gameplay(vec![
        catalog_item("material:10", "Iron Ore", 7),
        catalog_item("material:2", "  Wool  ", 3),
        catalog_item("material:3", "   ", 4),
        catalog_item("material:10", "Shadowed duplicate", 99),
    ]);
    let durable = vec![
        stock("material:10", 5, 2, 1),
        stock("material:7", 1, 0, 6),
        stock("legacy", 9, 0, 2),
        stock("material:7", 3, 3, 3),
    ];

    let projected = material_catalog_stocks(&gameplay, &durable);

    assert_eq!(
        projected,
        vec![
            stock("material:2", 0, 0, 3),
            stock("material:7", 1, 0, 6),
            stock("material:10", 5, 2, 7),
            stock("legacy", 9, 0, 2),
        ]
    );
}

#[test]
fn material_catalog_hides_items_without_price_or_english_name() {
    let mut unpriced = catalog_item("material:4", "Salt", 1);
    unpriced.town_pays_hunter_gold_per_unit = None;
    let mut unnamed = catalog_item("material:5", "Sel", 1);
    unnamed.localized_names[0].locale = "fr".to_owned();
    let projected = material_catalog_stocks(&gameplay(vec![unpriced, unnamed]), &[stock("material:4", 2, 0, 1)]);
    assert!(projected.is_empty());
}
