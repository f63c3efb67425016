use vstd::prelude::*;

use crate::building_domain::{
    base_building_id_valid, building_has_base, find_building_by_base, is_base_building_id, gold_cost, gold_cost_of, mutation_condition, mutation_condition_of,
};
use crate::catalog::{
    find_base, find_item, find_level, AuthoritativeBuildingContent, BaseBuildingDefinition,
    BuildingCapabilityDefinition, BuildingGameplayCatalog, BuildingLevelDefinition, EconomyItemDefinition,
};
use crate::contracts::{DurableBuilding, DurableMaterialStock};
use crate::material_catalog::{english_name, in_catalog_order, material_catalog_stocks, shown_row};
use crate::presentation::{
    material_icon_of, material_icon_path, product_display_name, product_icon_of, product_icon_path, product_name_of,
    service_effect_kind, service_label_of,
};
use crate::building_domain::{
    consumable_price_of, consumable_purchase_price, gear_price_of, gear_purchase_price, product_sale_building_id,
    sale_building_of,
};
use crate::catalog::EconomyProductDefinition;
use crate::contracts::DurableProductStock;
use crate::product_service::{capacity_for_level, capacity_spec, service_kind_for, ServiceEffectKind};
use crate::seqs::{first_index, lemma_first_index_is, lemma_first_index_none};
use crate::session::OriginalFlowSession;
use crate::text::str_eq;
use crate::trading_post::{difficulty_rating_of, material_difficulty_rating};

verus! {

/// What the client shows of a base building.
#[derive(Clone, Debug, PartialEq, Eq)]
pub struct BuildingDefinitionSnapshot {
    pub id: String,
    pub name: String,
    pub feature: String,
    pub max_level: u8,
    pub construct_cost: u64,
    pub prerequisite_id: Option<String>,
    pub prerequisite_level: u8,
    pub max_build: u32,
    pub grid_width: u32,
    pub grid_height: u32,
    pub sprite_asset_id: Option<String>,
}

/// The town's progress on one base building.
#[derive(Clone, Debug, PartialEq, Eq)]
pub struct BuildingStateSnapshot {
    pub id: String,
    pub constructed: bool,
    pub level: u8,
    pub upgrade_cost: Option<u64>,
    pub can_construct: bool,
    pub can_upgrade: bool,
    pub condition: Option<String>,
    pub uses: u32,
}

/// One placed building.
#[derive(Clone, Debug, PartialEq, Eq)]
pub struct BuildingInstanceSnapshot {
    pub instance_id: String,
    pub building_id: String,
    pub level: u8,
    pub grid_x: i32,
    pub grid_y: i32,
    pub grid_width: u32,
    pub grid_height: u32,
    pub sprite_asset_id: Option<String>,
    pub upgrade_cost: Option<u64>,
    pub can_upgrade: bool,
    pub condition: Option<String>,
    pub uses: u32,
    pub seeded_by: Option<String>,
}

/// One row of the Trading Post's material list.
#[derive(Clone, Debug, PartialEq, Eq)]
pub struct MaterialStockSnapshot {
    pub id: String,
    pub display_name: String,
    pub icon: String,
    pub town_quantity: u32,
    pub hunter_quantity: u32,
    pub requested: u32,
    pub unit_price: u64,
    pub difficulty: u8,
}

/// A capability of building `id` whose static data is ready.
pub open spec fn ready_capability_of(id: Seq<char>) -> spec_fn(BuildingCapabilityDefinition) -> bool {
    |c: BuildingCapabilityDefinition| c.building_id@ == id && c.static_data_ready
}

/// The feature a building shows: its category, else the kind of its first
/// capability with ready static data, else `unresolved`.
pub open spec fn feature_of(building: BaseBuildingDefinition, gameplay: BuildingGameplayCatalog) -> Seq<char> {
    match building.category {
        Some(category) => category@,
        None => match first_index(gameplay.capabilities@, ready_capability_of(building.id@)) {
            Some(k) => gameplay.capabilities@[k].kind@,
            None => "unresolved"@,
        },
    }
}

/// The highest level row of building `id` that fits a building level (0
/// when there is none).
pub open spec fn max_level_of(levels: Seq<BuildingLevelDefinition>, id: Seq<char>) -> u8
    decreases levels.len(),
{
    if levels.len() == 0 {
        0
    } else {
        let rest = max_level_of(levels.drop_last(), id);
        let row = levels.last();
        if row.building_id@ == id && row.level <= u8::MAX && row.level as u8 > rest {
            row.level as u8
        } else {
            rest
        }
    }
}

/// The definition snapshot of a base building: its construction row's gold
/// cost and first prerequisite (a level that does not fit a building level
/// reads as 0), its highest level, limit, size and sprite.
pub open spec fn definition_shown(
    snapshot: BuildingDefinitionSnapshot,
    building: BaseBuildingDefinition,
    content: AuthoritativeBuildingContent,
) -> bool {
    let construction = find_level(content.catalog.levels@, building.id@, 1);
    &&& snapshot.id == building.id
    &&& snapshot.name == building.display_name
    &&& snapshot.feature@ == feature_of(building, content.gameplay)
    &&& snapshot.max_level == max_level_of(content.catalog.levels@, building.id@)
    &&& snapshot.construct_cost == match construction {
        Some(row) => match gold_cost_of(row) {
            Some(cost) => cost,
            None => 0,
        },
        None => 0,
    }
    &&& match construction {
        Some(row) if row.prerequisites@.len() > 0 => {
            let first = row.prerequisites@[0];
            &&& snapshot.prerequisite_id == Some(first.building_id)
            &&& snapshot.prerequisite_level == (if first.required_level <= u8::MAX { first.required_level as u8 } else { 0 })
        },
        _ => snapshot.prerequisite_id is None && snapshot.prerequisite_level == 0,
    }
    &&& snapshot.max_build == building.max_instances
    &&& snapshot.grid_width == building.grid_width as u32
    &&& snapshot.grid_height == building.grid_height as u32
    &&& snapshot.sprite_asset_id == building.base_sprite_asset_id
}

/// The feature of a building (see [`feature_of`]).
fn building_feature(building: &BaseBuildingDefinition, gameplay: &BuildingGameplayCatalog) -> (feature: String)
    ensures
        feature@ == feature_of(*building, *gameplay),
{
    match &building.category {
        Some(category) => {
            return category.clone();
        },
        None => {},
    }
    let capabilities = &gameplay.capabilities;
    let mut k: usize = 0;
    while k < capabilities.len()
        invariant
            0 <= k <= capabilities@.len(),
            capabilities@ == gameplay.capabilities@,
            building.category is None,
            forall|j: int| 0 <= j < k ==> !ready_capability_of(building.id@)(#[trigger] capabilities@[j]),
        decreases capabilities@.len() - k,
    {
        if str_eq(capabilities[k].building_id.as_str(), building.id.as_str()) && capabilities[k].static_data_ready {
            proof {
                lemma_first_index_is(capabilities@, ready_capability_of(building.id@), k as int);
            }
            return capabilities[k].kind.clone();
        }
        k = k + 1;
    }
    proof {
        lemma_first_index_none(capabilities@, ready_capability_of(building.id@));
    }
    "unresolved".to_owned()
}

/// The highest fitting level row of building `id`.
fn max_building_level(levels: &Vec<BuildingLevelDefinition>, id: &str) -> (level: u8)
    ensures
        level == max_level_of(levels@, id@),
{
    let mut level: u8 = 0;
    let mut i: usize = 0;
    while i < levels.len()
        invariant
            0 <= i <= levels@.len(),
            level == max_level_of(levels@.take(i as int), id@),
        decreases levels@.len() - i,
    {
        let ghost next = levels@.take(i + 1);
        assert(next.drop_last() =~= levels@.take(i as int));
        assert(next.last() == levels@[i as int]);
        let row = &levels[i];
        let same = str_eq(row.building_id.as_str(), id);
        if same && row.level <= 255 {
            let candidate = row.level as u8;
            if candidate > level {
                level = candidate;
            }
        }
        i = i + 1;
    }
    assert(levels@.take(levels@.len() as int) =~= levels@);
    level
}

/// The definition snapshot of a base building (see [`definition_shown`]).
pub fn building_definition_snapshot(building: &BaseBuildingDefinition, content: &AuthoritativeBuildingContent) -> (snapshot:
    BuildingDefinitionSnapshot)
    ensures
        definition_shown(snapshot, *building, *content),
{
    let construction = content.catalog.level(building.id.as_str(), 1);
    let construct_cost = match construction {
        Some(row) => match gold_cost(row) {
            Some(cost) => cost,
            None => 0,
        },
        None => 0,
    };
    let (prerequisite_id, prerequisite_level) = match construction {
        Some(row) => {
            if row.prerequisites.len() > 0 {
                let first = &row.prerequisites[0];
                let level: u8 = if first.required_level <= 255 {
                    first.required_level as u8
                } else {
                    0
                };
                (Some(first.building_id.clone()), level)
            } else {
                (None, 0)
            }
        },
        None => (None, 0),
    };
    BuildingDefinitionSnapshot {
        id: building.id.clone(),
        name: building.display_name.clone(),
        feature: building_feature(building, &content.gameplay),
        max_level: max_building_level(&content.catalog.levels, building.id.as_str()),
        construct_cost,
        prerequisite_id,
        prerequisite_level,
        max_build: building.max_instances,
        grid_width: building.grid_width as u32,
        grid_height: building.grid_height as u32,
        sprite_asset_id: building.base_sprite_asset_id.clone(),
    }
}

/// The state snapshot of a base building: whether the town built it (its
/// first placed instance), the level and uses of that instance, and whether
/// the next row (the first level when unbuilt) can be built, with its gold
/// cost for an upgrade and the reason it cannot (`maximum_level` past the
/// last row).
pub open spec fn state_shown(
    snapshot: BuildingStateSnapshot,
    definition: BaseBuildingDefinition,
    session: OriginalFlowSession,
) -> bool {
    let buildings = session.buildings.buildings@;
    let built = first_index(buildings, building_has_base(definition.id@));
    let constructed = built is Some;
    let level: u8 = match built {
        Some(b) => buildings[b].level,
        None => 0,
    };
    let target: u16 = if constructed { (level + 1) as u16 } else { 1 };
    let row = find_level(session.building_content.catalog.levels@, definition.id@, target);
    let condition = mutation_condition_of(buildings, row);
    &&& snapshot.id == definition.id
    &&& snapshot.constructed == constructed
    &&& snapshot.level == level
    &&& snapshot.upgrade_cost == (if constructed {
        match row {
            Some(r) => gold_cost_of(r),
            None => None,
        }
    } else {
        None
    })
    &&& snapshot.can_construct == (!constructed && row is Some && condition is None)
    &&& snapshot.can_upgrade == (constructed && row is Some && condition is None)
    &&& (if row is None && constructed {
        snapshot.condition matches Some(c) && c@ == "maximum_level"@
    } else {
        match condition {
            Some(c) => snapshot.condition matches Some(s) && s@ == c,
            None => snapshot.condition is None,
        }
    })
    &&& snapshot.uses == match built {
        Some(b) => buildings[b].uses,
        None => 0,
    }
}

/// The state snapshot of a base building (see [`state_shown`]).
pub fn building_state_snapshot(session: &OriginalFlowSession, definition: &BaseBuildingDefinition) -> (snapshot:
    BuildingStateSnapshot)
    ensures
        state_shown(snapshot, *definition, *session),
{
    let buildings = &session.buildings.buildings;
    let built = find_building_by_base(buildings, definition.id.as_str());
    let constructed = built.is_some();
    let level: u8 = match built {
        Some(b) => buildings[b].level,
        None => 0,
    };
    let target: u16 = if constructed {
        level as u16 + 1
    } else {
        1
    };
    let row = session.building_content.catalog.level(definition.id.as_str(), target);
    let condition = mutation_condition(buildings, row);
    let gold = match row {
        Some(r) => gold_cost(r),
        None => None,
    };
    let can_build = row.is_some() && condition.is_none();
    let shown_condition = if row.is_none() && constructed {
        Some("maximum_level".to_owned())
    } else {
        condition
    };
    BuildingStateSnapshot {
        id: definition.id.clone(),
        constructed,
        level,
        upgrade_cost: if constructed {
            gold
        } else {
            None
        },
        can_construct: !constructed && can_build,
        can_upgrade: constructed && can_build,
        condition: shown_condition,
        uses: match built {
            Some(b) => buildings[b].uses,
            None => 0,
        },
    }
}

/// The snapshot of a placed building whose base is known: its grid cell
/// and size, sprite, and whether its next level row can be built, with that
/// row's gold cost and the reason it cannot.
pub open spec fn instance_shown(
    snapshot: BuildingInstanceSnapshot,
    building: DurableBuilding,
    base: BaseBuildingDefinition,
    session: OriginalFlowSession,
) -> bool {
    let row = find_level(session.building_content.catalog.levels@, building.id@, (building.level + 1) as u16);
    let condition = mutation_condition_of(session.buildings.buildings@, row);
    &&& snapshot.instance_id == building.instance_id
    &&& snapshot.building_id == building.id
    &&& snapshot.level == building.level
    &&& snapshot.grid_x == building.grid_x
    &&& snapshot.grid_y == building.grid_y
    &&& snapshot.grid_width == base.grid_width as u32
    &&& snapshot.grid_height == base.grid_height as u32
    &&& snapshot.sprite_asset_id == base.base_sprite_asset_id
    &&& snapshot.upgrade_cost == match row {
        Some(r) => gold_cost_of(r),
        None => None,
    }
    &&& snapshot.can_upgrade == (row is Some && condition is None)
    &&& match condition {
        Some(c) => snapshot.condition matches Some(s) && s@ == c,
        None => snapshot.condition is None,
    }
    &&& snapshot.uses == building.uses
    &&& snapshot.seeded_by == building.seeded_by
}

/// The instance snapshots of the placed buildings whose id is a base
/// building id of a known base, in placement order.
pub open spec fn instances_shown(
    snapshots: Seq<BuildingInstanceSnapshot>,
    buildings: Seq<DurableBuilding>,
    session: OriginalFlowSession,
) -> bool
    decreases buildings.len(),
{
    if buildings.len() == 0 {
        snapshots.len() == 0
    } else if !is_base_building_id(buildings.last().id@) {
        instances_shown(snapshots, buildings.drop_last(), session)
    } else {
        match find_base(session.building_content.catalog.bases@, buildings.last().id@) {
            None => instances_shown(snapshots, buildings.drop_last(), session),
            Some(base) => snapshots.len() > 0 && instance_shown(snapshots.last(), buildings.last(), base, session)
                && instances_shown(snapshots.drop_last(), buildings.drop_last(), session),
        }
    }
}

/// The snapshot of a placed building of known base `base`.
fn building_instance_snapshot(
    session: &OriginalFlowSession,
    building: &DurableBuilding,
    base: &BaseBuildingDefinition,
) -> (snapshot: BuildingInstanceSnapshot)
    ensures
        instance_shown(snapshot, *building, *base, *session),
{
    let row = session.building_content.catalog.level(building.id.as_str(), building.level as u16 + 1);
    let condition = mutation_condition(&session.buildings.buildings, row);
    BuildingInstanceSnapshot {
        instance_id: building.instance_id.clone(),
        building_id: building.id.clone(),
        level: building.level,
        grid_x: building.grid_x,
        grid_y: building.grid_y,
        grid_width: base.grid_width as u32,
        grid_height: base.grid_height as u32,
        sprite_asset_id: base.base_sprite_asset_id.clone(),
        upgrade_cost: match row {
            Some(r) => gold_cost(r),
            None => None,
        },
        can_upgrade: row.is_some() && condition.is_none(),
        condition,
        uses: building.uses,
        seeded_by: building.seeded_by.clone(),
    }
}

/// The instance snapshots of the placed buildings (see
/// [`instances_shown`]).
pub fn building_instance_snapshots(session: &OriginalFlowSession) -> (snapshots: Vec<BuildingInstanceSnapshot>)
    ensures
        instances_shown(snapshots@, session.buildings.buildings@, *session),
{
    let buildings = &session.buildings.buildings;
    let mut snapshots: Vec<BuildingInstanceSnapshot> = Vec::new();
    let mut i: usize = 0;
    while i < buildings.len()
        invariant
            0 <= i <= buildings@.len(),
            buildings@ == session.buildings.buildings@,
            instances_shown(snapshots@, buildings@.take(i as int), *session),
        decreases buildings@.len() - i,
    {
        let ghost before = snapshots@;
        assert(buildings@.take(i + 1).drop_last() =~= buildings@.take(i as int));
        assert(buildings@.take(i + 1).last() == buildings@[i as int]);
        if base_building_id_valid(buildings[i].id.as_str()) {
            match session.building_content.catalog.base(buildings[i].id.as_str()) {
                Some(base) => {
                    let snapshot = building_instance_snapshot(session, &buildings[i], base);
                    snapshots.push(snapshot);
                    assert(snapshots@.drop_last() =~= before);
                },
                None => {},
            }
        }
        i = i + 1;
    }
    assert(buildings@.take(buildings@.len() as int) =~= buildings@);
    snapshots
}

/// The English name of the catalog item `id`, if any.
pub open spec fn item_english_name(items: Seq<EconomyItemDefinition>, id: Seq<char>) -> Option<Seq<char>> {
    match find_item(items, id) {
        Some(item) => english_name(item),
        None => None,
    }
}

/// A material row of the Trading Post: the catalog stock row with the
/// item's English name (else its id), its icon (else empty) and its
/// difficulty rating (255 when unknown).
pub open spec fn material_row_shown(
    snapshot: MaterialStockSnapshot,
    stock: DurableMaterialStock,
    gameplay: BuildingGameplayCatalog,
) -> bool {
    &&& snapshot.id == stock.id
    &&& snapshot.display_name@ == match item_english_name(gameplay.items@, stock.id@) {
        Some(name) => name,
        None => stock.id@,
    }
    &&& snapshot.icon@ == match material_icon_of(stock.id@) {
        Some(icon) => icon,
        None => Seq::empty(),
    }
    &&& snapshot.town_quantity == stock.town_quantity
    &&& snapshot.hunter_quantity == stock.hunter_quantity
    &&& snapshot.requested == stock.requested
    &&& snapshot.unit_price == stock.unit_price
    &&& snapshot.difficulty == match difficulty_rating_of(stock.id@) {
        Some(rating) => rating,
        None => u8::MAX,
    }
}

/// The English name of catalog item `id`.
fn item_english_name_of(gameplay: &BuildingGameplayCatalog, id: &str) -> (name: Option<String>)
    ensures
        name matches Some(n) ==> item_english_name(gameplay.items@, id@) == Some(n@),
        name is None ==> item_english_name(gameplay.items@, id@) is None,
{
    let item = match gameplay.item(id) {
        Some(item) => item,
        None => {
            return None;
        },
    };
    let names = &item.localized_names;
    let mut k: usize = 0;
    while k < names.len()
        invariant
            0 <= k <= names@.len(),
            names@ == item.localized_names@,
            find_item(gameplay.items@, id@) == Some(*item),
            forall|j: int| 0 <= j < k ==> !crate::material_catalog::name_in("en"@)(#[trigger] names@[j]),
        decreases names@.len() - k,
    {
        if str_eq(names[k].locale.as_str(), "en") {
            proof {
                lemma_first_index_is(names@, crate::material_catalog::name_in("en"@), k as int);
            }
            return Some(names[k].name.clone());
        }
        k = k + 1;
    }
    proof {
        lemma_first_index_none(names@, crate::material_catalog::name_in("en"@));
    }
    None
}

/// The Trading Post's material rows (see [`material_row_shown`]), one per
/// row of the material catalog, in its order.
pub fn material_stock_snapshots(gameplay: &BuildingGameplayCatalog, durable: &Vec<DurableMaterialStock>) -> (rows: Vec<
    MaterialStockSnapshot,
>)
    ensures
        exists|listing: Seq<DurableMaterialStock>|
            {
                &&& in_catalog_order(listing)
                &&& forall|x: DurableMaterialStock| listing.contains(x) <==> shown_row(gameplay.items@, durable@, x)
                &&& rows@.len() == listing.len()
                &&& forall|i: int| 0 <= i < listing.len() ==> #[trigger] material_row_shown(rows@[i], listing[i], *gameplay)
            },
{
    let listing = material_catalog_stocks(gameplay, durable.as_slice());
    let mut rows: Vec<MaterialStockSnapshot> = Vec::new();
    let mut i: usize = 0;
    while i < listing.len()
        invariant
            0 <= i <= listing@.len(),
            rows@.len() == i,
            forall|k: int| 0 <= k < i ==> #[trigger] material_row_shown(rows@[k], listing@[k], *gameplay),
        decreases listing@.len() - i,
    {
        let stock = &listing[i];
        let display_name = match item_english_name_of(gameplay, stock.id.as_str()) {
            Some(name) => name,
            None => stock.id.clone(),
        };
        let icon = match material_icon_path(stock.id.as_str()) {
            Some(icon) => icon,
            None => String::new(),
        };
        let difficulty = match material_difficulty_rating(stock.id.as_str()) {
            Some(rating) => rating,
            None => 255,
        };
        rows.push(
            MaterialStockSnapshot {
                id: stock.id.clone(),
                display_name,
                icon,
                town_quantity: stock.town_quantity,
                hunter_quantity: stock.hunter_quantity,
                requested: stock.requested,
                unit_price: stock.unit_price,
                difficulty,
            },
        );
        i = i + 1;
    }
    assert(rows@.len() == listing@.len());
    rows
}

/// One material line of a shop recipe.
#[derive(Clone, Debug, PartialEq, Eq)]
pub struct RecipeMaterialCostSnapshot {
    pub material_id: String,
    pub display_name: String,
    pub quantity: u32,
    pub output_quantity: u32,
}

/// One recipe row of a shop.
#[derive(Clone, Debug, PartialEq, Eq)]
pub struct ShopRecipeSnapshot {
    pub id: String,
    pub shop_id: String,
    pub icon: String,
    pub product_name: String,
    pub material_costs: Vec<RecipeMaterialCostSnapshot>,
    pub stock: u32,
    pub sale_price: u64,
    pub kind: &'static str,
    pub required_level: u16,
    pub duration_ms: u64,
    pub effect_value: u64,
    pub effect_kind: &'static str,
    pub capacity: u16,
}

/// A product a shop lists: one it produces, or one it sells.
pub open spec fn listed_by(product: EconomyProductDefinition, shop_id: Seq<char>) -> bool {
    (product.building_id matches Some(b) && b@ == shop_id) || sale_building_of(product) == Some(shop_id)
}

/// The building that holds a listed product's stock: the first placed
/// instance of its sale shop, else the listing shop's first instance.
pub open spec fn stock_building_of(
    product: EconomyProductDefinition,
    shop_id: Seq<char>,
    buildings: Seq<DurableBuilding>,
) -> Option<DurableBuilding> {
    let sale_instance = match sale_building_of(product) {
        Some(sale) => first_index(buildings, building_has_base(sale)),
        None => None,
    };
    match sale_instance {
        Some(k) => Some(buildings[k]),
        None => match first_index(buildings, building_has_base(shop_id)) {
            Some(k) => Some(buildings[k]),
            None => None,
        },
    }
}

/// The stock of a product at a building instance: the last stock row of
/// that pair, or 0.
pub open spec fn stored_units(stocks: Seq<DurableProductStock>, instance_id: Seq<char>, product_id: Seq<char>) -> u32
    decreases stocks.len(),
{
    if stocks.len() == 0 {
        0
    } else if stocks.last().building_instance_id@ == instance_id && stocks.last().product_id@ == product_id {
        stocks.last().quantity
    } else {
        stored_units(stocks.drop_last(), instance_id, product_id)
    }
}

/// The stock a shop shows for a listed product.
pub open spec fn shown_stock(product: EconomyProductDefinition, shop_id: Seq<char>, session: OriginalFlowSession) -> u32 {
    match stock_building_of(product, shop_id, session.buildings.buildings@) {
        Some(b) => stored_units(session.buildings.product_stocks@, b.instance_id@, product.product_id@),
        None => 0,
    }
}

/// The name a recipe shows: the product's own name, else its first output
/// item's English name, else `Unresolved product`.
pub open spec fn recipe_name(product: EconomyProductDefinition, items: Seq<EconomyItemDefinition>) -> Seq<char> {
    match product_name_of(product.product_id@) {
        Some(name) => name,
        None => {
            let output_name = if product.outputs@.len() > 0 {
                item_english_name(items, product.outputs@[0].resource_id@)
            } else {
                None
            };
            match output_name {
                Some(name) => name,
                None => "Unresolved product"@,
            }
        },
    }
}

/// The key under which a shop lists a product once: its id for gear, its
/// name otherwise.
pub open spec fn recipe_key(product: EconomyProductDefinition, items: Seq<EconomyItemDefinition>) -> Seq<char> {
    if product.gear_route is Some {
        product.product_id@
    } else {
        recipe_name(product, items)
    }
}

/// How many listed gear products of a kind and rating a shop has counted.
pub open spec fn bucket_count(buckets: Seq<(Seq<char>, u16)>, key: (Seq<char>, u16)) -> nat
    decreases buckets.len(),
{
    if buckets.len() == 0 {
        0
    } else {
        bucket_count(buckets.drop_last(), key) + (if buckets.last() == key { 1nat } else { 0nat })
    }
}

/// What a shop has listed so far: the products, the keys taken, and the
/// gear kinds and ratings counted.
pub struct ShopListing {
    pub products: Seq<EconomyProductDefinition>,
    pub keys: Seq<Seq<char>>,
    pub buckets: Seq<(Seq<char>, u16)>,
}

/// Lists one more product in shop `shop_id`. A product the shop neither
/// produces nor sells is passed over. One it produces counts against the
/// six of its gear kind and rating, or, when not gear, against the shop's
/// 24 keys. One it sells needs stock. A key already taken is passed over.
pub open spec fn list_product(
    listing: ShopListing,
    product: EconomyProductDefinition,
    shop_id: Seq<char>,
    session: OriginalFlowSession,
) -> ShopListing {
    let items = session.building_content.gameplay.items@;
    let native = product.building_id matches Some(b) && b@ == shop_id;
    let sold_here = sale_building_of(product) == Some(shop_id);
    if !native && !sold_here {
        listing
    } else {
        let capped = native && match product.gear_route {
            Some(route) => bucket_count(listing.buckets, (route.kind@, route.rating)) >= 6,
            None => listing.keys.len() >= 24,
        };
        if capped {
            listing
        } else {
            let buckets = match product.gear_route {
                Some(route) if native => listing.buckets.push((route.kind@, route.rating)),
                _ => listing.buckets,
            };
            let key = recipe_key(product, items);
            if sold_here && shown_stock(product, shop_id, session) == 0 {
                ShopListing { buckets, ..listing }
            } else if listing.keys.contains(key) {
                ShopListing { buckets, ..listing }
            } else {
                ShopListing { products: listing.products.push(product), keys: listing.keys.push(key), buckets }
            }
        }
    }
}

/// The listing of shop `shop_id` over `products`, in catalog order.
pub open spec fn shop_listing(
    products: Seq<EconomyProductDefinition>,
    shop_id: Seq<char>,
    session: OriginalFlowSession,
) -> ShopListing
    decreases products.len(),
{
    if products.len() == 0 {
        ShopListing { products: seq![], keys: seq![], buckets: seq![] }
    } else {
        list_product(shop_listing(products.drop_last(), shop_id, session), products.last(), shop_id, session)
    }
}

/// A listed product is a service: it has a service, or its stock sits in a
/// service building and it converts materials.
pub open spec fn service_recipe(product: EconomyProductDefinition, stock_building_id: Seq<char>) -> bool {
    product.service is Some || (service_kind_for(stock_building_id) is Some && product.conversion_options@.len() > 0)
}

/// The material lines a recipe reads: each input at one per piece, then,
/// for a service, each conversion option with its stock yield.
pub open spec fn cost_entries(product: EconomyProductDefinition, service: bool) -> Seq<(String, u64, u64)> {
    let inputs = product.inputs@.map_values(|c: crate::catalog::EconomyAmount| (c.resource_id, c.quantity, 1u64));
    if service {
        inputs + product.conversion_options@.map_values(
            |o: crate::catalog::ConversionOption| (o.input_resource_id, o.input_quantity, o.output_stock_quantity),
        )
    } else {
        inputs
    }
}

/// The name a material line shows: the item's English name, the currency's
/// name, or `Unresolved material`.
pub open spec fn cost_name(items: Seq<EconomyItemDefinition>, id: Seq<char>) -> Seq<char> {
    match item_english_name(items, id) {
        Some(name) => name,
        None => if id == "currency:gem"@ {
            "Gem"@
        } else if id == "currency:elemental"@ {
            "Elemental"@
        } else {
            "Unresolved material"@
        },
    }
}

/// The material lines shown: the entries whose amounts fit `u32`, in order.
pub open spec fn cost_rows_shown(
    rows: Seq<RecipeMaterialCostSnapshot>,
    entries: Seq<(String, u64, u64)>,
    items: Seq<EconomyItemDefinition>,
) -> bool
    decreases entries.len(),
{
    if entries.len() == 0 {
        rows.len() == 0
    } else {
        let entry = entries.last();
        if entry.1 <= u32::MAX && entry.2 <= u32::MAX {
            &&& rows.len() > 0
            &&& rows.last().material_id == entry.0
            &&& rows.last().display_name@ == cost_name(items, entry.0@)
            &&& rows.last().quantity == entry.1
            &&& rows.last().output_quantity == entry.2
            &&& cost_rows_shown(rows.drop_last(), entries.drop_last(), items)
        } else {
            cost_rows_shown(rows, entries.drop_last(), items)
        }
    }
}

/// The price a recipe row shows: a service's fee, else the first sale
/// price, else the consumable price, else the gear price, else 0.
pub open spec fn shown_price(product: EconomyProductDefinition, gameplay: BuildingGameplayCatalog) -> u64 {
    match product.service {
        Some(service) => service.use_money,
        None => if product.sale_price@.len() > 0 {
            product.sale_price@[0].quantity
        } else {
            match consumable_price_of(gameplay, product) {
                Some(price) => price,
                None => match gear_price_of(gameplay, product) {
                    Some(price) => price,
                    None => 0,
                },
            }
        },
    }
}

/// The recipe row of a product listed by shop `shop_id`.
pub open spec fn recipe_shown(
    row: ShopRecipeSnapshot,
    product: EconomyProductDefinition,
    shop_id: String,
    session: OriginalFlowSession,
) -> bool {
    let content = session.building_content;
    let stock_building = stock_building_of(product, shop_id@, session.buildings.buildings@);
    let stock_level: u16 = match stock_building {
        Some(b) => b.level as u16,
        None => 1,
    };
    let stock_building_id = match stock_building {
        Some(b) => b.id@,
        None => shop_id@,
    };
    let service = service_recipe(product, stock_building_id);
    &&& row.id == product.product_id
    &&& row.shop_id == shop_id
    &&& row.icon@ == match product_icon_of(product.product_id@) {
        Some(icon) => icon,
        None => Seq::empty(),
    }
    &&& row.product_name@ == recipe_name(product, content.gameplay.items@)
    &&& cost_rows_shown(row.material_costs@, cost_entries(product, service), content.gameplay.items@)
    &&& row.stock == shown_stock(product, shop_id@, session)
    &&& row.sale_price == shown_price(product, content.gameplay)
    &&& row.kind@ == (if service { "service"@ } else { "craft"@ })
    &&& row.required_level == match product.gear_route {
        Some(route) => route.rating,
        None => match product.service {
            Some(s) => s.required_level,
            None => 0,
        },
    }
    &&& row.duration_ms == match product.duration_ms {
        Some(d) => d,
        None => 0,
    }
    &&& row.effect_value == match product.service {
        Some(s) => s.effect_value,
        None => 0,
    }
    &&& row.effect_kind@ == service_label_of(shop_id@)
    &&& row.capacity == match find_level(content.catalog.levels@, stock_building_id, stock_level) {
        Some(level) if level.production_slots is Some => level.production_slots->0,
        _ => match capacity_spec(stock_building_id, stock_level) {
            Some(c) => c,
            None => 0,
        },
    }
}

/// Finds the building that holds a listed product's stock (see
/// [`stock_building_of`]).
fn stock_building_index(
    gameplay: &BuildingGameplayCatalog,
    product: &EconomyProductDefinition,
    shop_id: &str,
    buildings: &Vec<DurableBuilding>,
) -> (index: Option<usize>)
    ensures
        match stock_building_of(*product, shop_id@, buildings@) {
            Some(b) => index matches Some(k) && k < buildings@.len() && buildings@[k as int] == b,
            None => index is None,
        },
{
    proof {
        crate::seqs::lemma_first_index(buildings@, building_has_base(shop_id@));
    }
    let sale = product_sale_building_id(gameplay, product);
    match sale {
        Some(sale_id) => {
            proof {
                crate::seqs::lemma_first_index(buildings@, building_has_base(sale_id@));
            }
            match find_building_by_base(buildings, sale_id.as_str()) {
                Some(k) => {
                    return Some(k);
                },
                None => {},
            }
        },
        None => {},
    }
    find_building_by_base(buildings, shop_id)
}

/// The stock of a product at a building instance (see [`stored_units`]).
pub(crate) fn stored_units_of(stocks: &Vec<DurableProductStock>, instance_id: &str, product_id: &str) -> (units: u32)
    ensures
        units == stored_units(stocks@, instance_id@, product_id@),
{
    let mut i = stocks.len();
    assert(stocks@.take(i as int) =~= stocks@);
    while i > 0
        invariant
            0 <= i <= stocks@.len(),
            stored_units(stocks@, instance_id@, product_id@) == stored_units(stocks@.take(i as int), instance_id@, product_id@),
        decreases i,
    {
        let ghost prefix = stocks@.take(i as int);
        assert(prefix.drop_last() =~= stocks@.take(i - 1));
        assert(prefix.last() == stocks@[i - 1]);
        let stock = &stocks[i - 1];
        if str_eq(stock.building_instance_id.as_str(), instance_id) && str_eq(stock.product_id.as_str(), product_id) {
            return stock.quantity;
        }
        i = i - 1;
    }
    0
}

/// The name a recipe shows (see [`recipe_name`]).
fn recipe_name_of(product: &EconomyProductDefinition, gameplay: &BuildingGameplayCatalog) -> (name: String)
    ensures
        name@ == recipe_name(*product, gameplay.items@),
{
    match product_display_name(product.product_id.as_str()) {
        Some(name) => {
            return name.to_owned();
        },
        None => {},
    }
    if product.outputs.len() > 0 {
        match item_english_name_of(gameplay, product.outputs[0].resource_id.as_str()) {
            Some(name) => {
                return name;
            },
            None => {},
        }
    }
    "Unresolved product".to_owned()
}

/// The views of gear kinds and ratings counted.
pub open spec fn bucket_views(buckets: Seq<(String, u16)>) -> Seq<(Seq<char>, u16)> {
    buckets.map_values(|b: (String, u16)| (b.0@, b.1))
}

/// The views of keys taken.
pub open spec fn key_views(keys: Seq<String>) -> Seq<Seq<char>> {
    keys.map_values(|k: String| k@)
}

/// How many listed gear products of kind `kind` and `rating` are counted.
fn count_bucket(buckets: &Vec<(String, u16)>, kind: &str, rating: u16) -> (count: usize)
    ensures
        count == bucket_count(bucket_views(buckets@), (kind@, rating)),
{
    let mut count: usize = 0;
    let mut i: usize = 0;
    while i < buckets.len()
        invariant
            0 <= i <= buckets@.len(),
            count <= i,
            count == bucket_count(bucket_views(buckets@.take(i as int)), (kind@, rating)),
        decreases buckets@.len() - i,
    {
        assert(bucket_views(buckets@.take(i + 1)).drop_last() =~= bucket_views(buckets@.take(i as int)));
        if buckets[i].1 == rating && str_eq(buckets[i].0.as_str(), kind) {
            count = count + 1;
        }
        i = i + 1;
    }
    assert(buckets@.take(buckets@.len() as int) =~= buckets@);
    count
}

/// Whether `key` is taken.
fn key_taken(keys: &Vec<String>, key: &str) -> (taken: bool)
    ensures
        taken == key_views(keys@).contains(key@),
{
    let mut i: usize = 0;
    while i < keys.len()
        invariant
            0 <= i <= keys@.len(),
            forall|j: int| 0 <= j < i ==> #[trigger] keys@[j]@ != key@,
        decreases keys@.len() - i,
    {
        if str_eq(keys[i].as_str(), key) {
            assert(key_views(keys@)[i as int] == key@);
            return true;
        }
        i = i + 1;
    }
    proof {
        if key_views(keys@).contains(key@) {
            let j = choose|j: int| 0 <= j < key_views(keys@).len() && key_views(keys@)[j] == key@;
            assert(keys@[j]@ == key@);
        }
    }
    false
}

/// The name a material line shows (see [`cost_name`]).
fn cost_name_of(gameplay: &BuildingGameplayCatalog, id: &str) -> (name: String)
    ensures
        name@ == cost_name(gameplay.items@, id@),
{
    match item_english_name_of(gameplay, id) {
        Some(name) => name,
        None => if str_eq(id, "currency:gem") {
            "Gem".to_owned()
        } else if str_eq(id, "currency:elemental") {
            "Elemental".to_owned()
        } else {
            "Unresolved material".to_owned()
        },
    }
}

/// Appends the shown line of one material entry.
fn push_cost_row(
    rows: &mut Vec<RecipeMaterialCostSnapshot>,
    gameplay: &BuildingGameplayCatalog,
    entries: Ghost<Seq<(String, u64, u64)>>,
    id: &String,
    quantity: u64,
    output: u64,
)
    requires
        cost_rows_shown(old(rows)@, entries@, gameplay.items@),
    ensures
        cost_rows_shown(final(rows)@, entries@.push((*id, quantity, output)), gameplay.items@),
{
    let ghost before = rows@;
    let ghost next = entries@.push((*id, quantity, output));
    assert(next.drop_last() =~= entries@);
    if quantity <= 0xffff_ffff && output <= 0xffff_ffff {
        rows.push(
            RecipeMaterialCostSnapshot {
                material_id: id.clone(),
                display_name: cost_name_of(gameplay, id.as_str()),
                quantity: quantity as u32,
                output_quantity: output as u32,
            },
        );
        assert(rows@.drop_last() =~= before);
    }
}

/// The material lines of a recipe (see [`cost_rows_shown`]).
fn recipe_cost_rows(product: &EconomyProductDefinition, service: bool, gameplay: &BuildingGameplayCatalog) -> (rows: Vec<
    RecipeMaterialCostSnapshot,
>)
    ensures
        cost_rows_shown(rows@, cost_entries(*product, service), gameplay.items@),
{
    let mut rows: Vec<RecipeMaterialCostSnapshot> = Vec::new();
    let ghost inputs = product.inputs@.map_values(|c: crate::catalog::EconomyAmount| (c.resource_id, c.quantity, 1u64));
    let mut i: usize = 0;
    assert(inputs.take(0) =~= Seq::<(String, u64, u64)>::empty());
    while i < product.inputs.len()
        invariant
            0 <= i <= product.inputs@.len(),
            inputs == product.inputs@.map_values(|c: crate::catalog::EconomyAmount| (c.resource_id, c.quantity, 1u64)),
            cost_rows_shown(rows@, inputs.take(i as int), gameplay.items@),
        decreases product.inputs@.len() - i,
    {
        let cost = &product.inputs[i];
        push_cost_row(&mut rows, gameplay, Ghost(inputs.take(i as int)), &cost.resource_id, cost.quantity, 1);
        assert(inputs.take(i as int).push((cost.resource_id, cost.quantity, 1u64)) =~= inputs.take(i + 1));
        i = i + 1;
    }
    assert(inputs.take(inputs.len() as int) =~= inputs);
    if service {
        let ghost options = product.conversion_options@.map_values(
            |o: crate::catalog::ConversionOption| (o.input_resource_id, o.input_quantity, o.output_stock_quantity),
        );
        let mut j: usize = 0;
        assert(inputs + options.take(0) =~= inputs);
        while j < product.conversion_options.len()
            invariant
                0 <= j <= product.conversion_options@.len(),
                options == product.conversion_options@.map_values(
                    |o: crate::catalog::ConversionOption| (o.input_resource_id, o.input_quantity, o.output_stock_quantity),
                ),
                cost_rows_shown(rows@, inputs + options.take(j as int), gameplay.items@),
            decreases product.conversion_options@.len() - j,
        {
            let option = &product.conversion_options[j];
            push_cost_row(
                &mut rows,
                gameplay,
                Ghost(inputs + options.take(j as int)),
                &option.input_resource_id,
                option.input_quantity,
                option.output_stock_quantity,
            );
            assert((inputs + options.take(j as int)).push(
                (option.input_resource_id, option.input_quantity, option.output_stock_quantity),
            ) =~= inputs + options.take(j + 1));
            j = j + 1;
        }
        assert(options.take(options.len() as int) =~= options);
    }
    rows
}

/// The recipe row of a listed product whose stock building (by index) and
/// stock were already found.
fn recipe_row(
    session: &OriginalFlowSession,
    product: &EconomyProductDefinition,
    shop_id: &String,
    stock_building: Option<usize>,
    stock: u32,
    name: String,
) -> (row: ShopRecipeSnapshot)
    requires
        match stock_building_of(*product, shop_id@, session.buildings.buildings@) {
            Some(b) => stock_building matches Some(k) && k < session.buildings.buildings@.len()
                && session.buildings.buildings@[k as int] == b,
            None => stock_building is None,
        },
        stock == shown_stock(*product, shop_id@, *session),
        name@ == recipe_name(*product, session.building_content.gameplay.items@),
    ensures
        recipe_shown(row, *product, *shop_id, *session),
{
    let content = &session.building_content;
    let (stock_level, stock_building_id): (u16, &str) = match stock_building {
        Some(k) => (session.buildings.buildings[k].level as u16, session.buildings.buildings[k].id.as_str()),
        None => (1, shop_id.as_str()),
    };
    let service = product.service.is_some() || (ServiceEffectKind::for_building(stock_building_id).is_some()
        && product.conversion_options.len() > 0);
    let sale_price = match &product.service {
        Some(service_definition) => service_definition.use_money,
        None => if product.sale_price.len() > 0 {
            product.sale_price[0].quantity
        } else {
            match consumable_purchase_price(&content.gameplay, product) {
                Some(price) => price,
                None => match gear_purchase_price(&content.gameplay, product) {
                    Some(price) => price,
                    None => 0,
                },
            }
        },
    };
    let required_level = match &product.gear_route {
        Some(route) => route.rating,
        None => match &product.service {
            Some(service_definition) => service_definition.required_level,
            None => 0,
        },
    };
    let capacity: u16 = match content.catalog.level(stock_building_id, stock_level) {
        Some(level) if level.production_slots.is_some() => level.production_slots.unwrap(),
        _ => match capacity_for_level(stock_building_id, stock_level) {
            Some(c) => c,
            None => 0,
        },
    };
    ShopRecipeSnapshot {
        id: product.product_id.clone(),
        shop_id: shop_id.clone(),
        icon: match product_icon_path(product.product_id.as_str()) {
            Some(icon) => icon.to_owned(),
            None => String::new(),
        },
        product_name: name,
        material_costs: recipe_cost_rows(product, service, &content.gameplay),
        stock,
        sale_price,
        kind: if service {
            "service"
        } else {
            "craft"
        },
        required_level,
        duration_ms: match product.duration_ms {
            Some(d) => d,
            None => 0,
        },
        effect_value: match &product.service {
            Some(service_definition) => service_definition.effect_value,
            None => 0,
        },
        effect_kind: service_effect_kind(shop_id.as_str()),
        capacity,
    }
}

/// The recipe rows of shop `shop_id` (see [`shop_listing`] and
/// [`recipe_shown`]).
fn shop_recipe_rows(session: &OriginalFlowSession, shop_id: &String) -> (rows: Vec<ShopRecipeSnapshot>)
    ensures
        ({
            let listed = shop_listing(session.building_content.gameplay.products@, shop_id@, *session).products;
            &&& rows@.len() == listed.len()
            &&& forall|k: int| 0 <= k < listed.len() ==> #[trigger] recipe_shown(rows@[k], listed[k], *shop_id, *session)
        }),
{
    let gameplay = &session.building_content.gameplay;
    let products = &gameplay.products;
    let mut rows: Vec<ShopRecipeSnapshot> = Vec::new();
    let mut keys: Vec<String> = Vec::new();
    let mut buckets: Vec<(String, u16)> = Vec::new();
    let mut i: usize = 0;
    while i < products.len()
        invariant
            0 <= i <= products@.len(),
            products@ == session.building_content.gameplay.products@,
            gameplay == &session.building_content.gameplay,
            ({
                let listing = shop_listing(products@.take(i as int), shop_id@, *session);
                &&& rows@.len() == listing.products.len()
                &&& forall|k: int| 0 <= k < listing.products.len() ==> #[trigger] recipe_shown(
                    rows@[k],
                    listing.products[k],
                    *shop_id,
                    *session,
                )
                &&& key_views(keys@) == listing.keys
                &&& bucket_views(buckets@) == listing.buckets
            }),
        decreases products@.len() - i,
    {
        let ghost listing = shop_listing(products@.take(i as int), shop_id@, *session);
        assert(products@.take(i + 1).drop_last() =~= products@.take(i as int));
        assert(products@.take(i + 1).last() == products@[i as int]);
        let product = &products[i];
        let native = match &product.building_id {
            Some(b) => str_eq(b.as_str(), shop_id.as_str()),
            None => false,
        };
        let sold_here = match product_sale_building_id(gameplay, product) {
            Some(sale) => str_eq(sale.as_str(), shop_id.as_str()),
            None => false,
        };
        if !native && !sold_here {
            i = i + 1;
            continue;
        }
        let capped = native && match &product.gear_route {
            Some(route) => count_bucket(&buckets, route.kind.as_str(), route.rating) >= 6,
            None => keys.len() >= 24,
        };
        proof {
            assert(key_views(keys@).len() == keys@.len());
        }
        if capped {
            i = i + 1;
            continue;
        }
        if native {
            match &product.gear_route {
                Some(route) => {
                    let ghost before = buckets@;
                    buckets.push((route.kind.clone(), route.rating));
                    assert(bucket_views(buckets@) =~= bucket_views(before).push((route.kind@, route.rating)));
                },
                None => {},
            }
        }
        let stock_building = stock_building_index(gameplay, product, shop_id.as_str(), &session.buildings.buildings);
        let stock = match stock_building {
            Some(k) => stored_units_of(
                &session.buildings.product_stocks,
                session.buildings.buildings[k].instance_id.as_str(),
                product.product_id.as_str(),
            ),
            None => 0,
        };
        if sold_here && stock == 0 {
            i = i + 1;
            continue;
        }
        let name = recipe_name_of(product, gameplay);
        let key = if product.gear_route.is_some() {
            product.product_id.clone()
        } else {
            name.clone()
        };
        if key_taken(&keys, key.as_str()) {
            i = i + 1;
            continue;
        }
        let ghost before_keys = keys@;
        keys.push(key);
        assert(key_views(keys@) =~= key_views(before_keys).push(recipe_key(*product, gameplay.items@)));
        let row = recipe_row(session, product, shop_id, stock_building, stock, name);
        let ghost before_rows = rows@;
        rows.push(row);
        assert forall|k: int| 0 <= k < rows@.len() implies #[trigger] recipe_shown(
            rows@[k],
            list_product(listing, *product, shop_id@, *session).products[k],
            *shop_id,
            *session,
        ) by {
            if k < before_rows.len() {
                assert(rows@[k] == before_rows[k]);
            }
        }
        i = i + 1;
    }
    assert(products@.take(products@.len() as int) =~= products@);
    rows
}

/// Every shop's listed products, shops in catalog order (bases whose id is
/// not a base building id list nothing), each paired with the shop's id.
pub open spec fn all_listings(bases: Seq<BaseBuildingDefinition>, session: OriginalFlowSession) -> Seq<
    (String, EconomyProductDefinition),
>
    decreases bases.len(),
{
    if bases.len() == 0 {
        seq![]
    } else if !is_base_building_id(bases.last().id@) {
        all_listings(bases.drop_last(), session)
    } else {
        let shop = bases.last().id;
        all_listings(bases.drop_last(), session) + shop_listing(
            session.building_content.gameplay.products@,
            shop@,
            session,
        ).products.map_values(|p: EconomyProductDefinition| (shop, p))
    }
}

/// The recipe rows of every shop (see [`all_listings`]).
pub fn recipe_snapshots(session: &OriginalFlowSession) -> (rows: Vec<ShopRecipeSnapshot>)
    ensures
        ({
            let listed = all_listings(session.building_content.catalog.bases@, *session);
            &&& rows@.len() == listed.len()
            &&& forall|k: int| 0 <= k < listed.len() ==> #[trigger] recipe_shown(rows@[k], listed[k].1, listed[k].0, *session)
        }),
{
    let bases = &session.building_content.catalog.bases;
    let mut rows: Vec<ShopRecipeSnapshot> = Vec::new();
    let mut i: usize = 0;
    while i < bases.len()
        invariant
            0 <= i <= bases@.len(),
            bases@ == session.building_content.catalog.bases@,
            ({
                let listed = all_listings(bases@.take(i as int), *session);
                &&& rows@.len() == listed.len()
                &&& forall|k: int| 0 <= k < listed.len() ==> #[trigger] recipe_shown(rows@[k], listed[k].1, listed[k].0, *session)
            }),
        decreases bases@.len() - i,
    {
        let ghost before = rows@;
        let ghost listed = all_listings(bases@.take(i as int), *session);
        assert(bases@.take(i + 1).drop_last() =~= bases@.take(i as int));
        assert(bases@.take(i + 1).last() == bases@[i as int]);
        let shop_id = &bases[i].id;
        if !base_building_id_valid(shop_id.as_str()) {
            assert(all_listings(bases@.take(i + 1), *session) == listed);
            i = i + 1;
            continue;
        }
        let mut shop_rows = shop_recipe_rows(session, shop_id);
        let ghost added = shop_listing(session.building_content.gameplay.products@, shop_id@, *session).products.map_values(
            |p: EconomyProductDefinition| (*shop_id, p),
        );
        let ghost moved = shop_rows@;
        rows.append(&mut shop_rows);
        proof {
            let next = all_listings(bases@.take(i + 1), *session);
            assert(next =~= listed + added);
            assert forall|k: int| 0 <= k < next.len() implies #[trigger] recipe_shown(rows@[k], next[k].1, next[k].0, *session) by {
                if k < listed.len() {
                    assert(rows@[k] == before[k]);
                } else {
                    assert(rows@[k] == moved[k - listed.len()]);
                }
            }
        }
        i = i + 1;
    }
    assert(bases@.take(bases@.len() as int) =~= bases@);
    rows
}

/// Label of the content the building snapshot is drawn from.
pub const BUILDING_EVIDENCE_LABEL: &'static str = "evil-hunter-1.411-postgresql-authoritative-content";

/// What the client shows of the town's buildings and economy.
#[derive(Clone, Debug, PartialEq, Eq)]
pub struct BuildingSystemSnapshot {
    pub evidence_label: &'static str,
    pub town_gold: u64,
    pub definitions: Vec<BuildingDefinitionSnapshot>,
    pub states: Vec<BuildingStateSnapshot>,
    pub instances: Vec<BuildingInstanceSnapshot>,
    pub hunter_materials: u32,
    pub materials: u32,
    pub runes: u32,
    pub weapons: u32,
    pub armor: u32,
    pub hunter_equipment_purchases: u32,
    pub material_stocks: Vec<MaterialStockSnapshot>,
    pub recipes: Vec<ShopRecipeSnapshot>,
}

/// The building snapshot of a session: a definition and a state per base
/// building in catalog order, the placed buildings, the town's counters,
/// the Trading Post's material rows and every shop's recipe rows.
pub open spec fn building_system_shown(snapshot: BuildingSystemSnapshot, session: OriginalFlowSession) -> bool {
    let town = session.buildings;
    let content = session.building_content;
    let bases = content.catalog.bases@;
    let listed = all_listings(bases, session);
    &&& snapshot.evidence_label@ == BUILDING_EVIDENCE_LABEL@
    &&& snapshot.town_gold == town.town_gold
    &&& snapshot.definitions@.len() == bases.len()
    &&& forall|i: int| 0 <= i < bases.len() ==> #[trigger] definition_shown(snapshot.definitions@[i], bases[i], content)
    &&& snapshot.states@.len() == bases.len()
    &&& forall|i: int| 0 <= i < bases.len() ==> #[trigger] state_shown(snapshot.states@[i], bases[i], session)
    &&& instances_shown(snapshot.instances@, town.buildings@, session)
    &&& snapshot.hunter_materials == town.hunter_materials
    &&& snapshot.materials == town.materials
    &&& snapshot.runes == town.runes
    &&& snapshot.weapons == town.weapons
    &&& snapshot.armor == town.armor
    &&& snapshot.hunter_equipment_purchases == town.hunter_equipment_purchases
    &&& exists|listing: Seq<DurableMaterialStock>|
        {
            &&& in_catalog_order(listing)
            &&& forall|x: DurableMaterialStock| listing.contains(x) <==> shown_row(content.gameplay.items@, town.material_stocks@, x)
            &&& snapshot.material_stocks@.len() == listing.len()
            &&& forall|i: int| 0 <= i < listing.len() ==> #[trigger] material_row_shown(snapshot.material_stocks@[i], listing[i], content.gameplay)
        }
    &&& snapshot.recipes@.len() == listed.len()
    &&& forall|k: int| 0 <= k < listed.len() ==> #[trigger] recipe_shown(snapshot.recipes@[k], listed[k].1, listed[k].0, session)
}

impl OriginalFlowSession {
    /// The building snapshot of the session (see [`building_system_shown`]).
    pub fn building_snapshot(&self) -> (snapshot: BuildingSystemSnapshot)
        ensures
            building_system_shown(snapshot, *self),
    {
        let content = &self.building_content;
        let bases = &content.catalog.bases;
        let mut definitions: Vec<BuildingDefinitionSnapshot> = Vec::new();
        let mut states: Vec<BuildingStateSnapshot> = Vec::new();
        let mut i: usize = 0;
        while i < bases.len()
            invariant
                0 <= i <= bases@.len(),
                bases@ == self.building_content.catalog.bases@,
                content == &self.building_content,
                definitions@.len() == i,
                states@.len() == i,
                forall|k: int| 0 <= k < i ==> #[trigger] definition_shown(definitions@[k], bases@[k], *content),
                forall|k: int| 0 <= k < i ==> #[trigger] state_shown(states@[k], bases@[k], *self),
            decreases bases@.len() - i,
        {
            definitions.push(building_definition_snapshot(&bases[i], content));
            states.push(building_state_snapshot(self, &bases[i]));
            i = i + 1;
        }
        BuildingSystemSnapshot {
            evidence_label: BUILDING_EVIDENCE_LABEL,
            town_gold: self.buildings.town_gold,
            definitions,
            states,
            instances: building_instance_snapshots(self),
            hunter_materials: self.buildings.hunter_materials,
            materials: self.buildings.materials,
            runes: self.buildings.runes,
            weapons: self.buildings.weapons,
            armor: self.buildings.armor,
            hunter_equipment_purchases: self.buildings.hunter_equipment_purchases,
            material_stocks: material_stock_snapshots(&content.gameplay, &self.buildings.material_stocks),
            recipes: recipe_snapshots(self),
        }
    }
}

} // verus!
