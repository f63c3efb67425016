use vstd::prelude::*;

use crate::building_domain::{
    base_building_id_valid, building_has_base, is_base_building_id, consumable_price_of, consumable_purchase_price, find_building_by_base, gear_price_of,
    gear_purchase_price, product_sale_building_id, sale_building_of,
};
use crate::catalog::{find_product, BuildingGameplayCatalog, EconomyProductDefinition};
use crate::contracts::{DurableBuildingState, DurableCraftedGearStock};
use crate::ids::{id_text, id_to_text};
use crate::roster::{
    command_key, hunt_is_idle, DurableEquipmentSlot, DurableHunterOwnedItem, DurableHunterProfile,
    DurableHunterRosterState, DurableHunterState,
};
use crate::seqs::{first_index, lemma_first_index, lemma_first_index_is, lemma_first_index_none};
use crate::session::{is_accepted, is_rejected, world_active, OriginalFlowSession, ServerMessage};
use crate::session_services::{find_hunter_index, find_product_stock, hunter_has_id, stock_for};
use crate::text::{append_decimal, append_str, chars_of, decimal_text, str_eq, string_from_chars};
use crate::web_rebuild_gear::{rebuild_weapon_definition, weapon_definition_of, RebuildWeaponDefinition};

verus! {

/// The price a Hunter pays for a product: a gear product's first sale price
/// when it has one, else the gear price of its output item, else the
/// consumable price of its level, else 0 (unresolved).
pub open spec fn purchase_price(gameplay: BuildingGameplayCatalog, product: EconomyProductDefinition) -> u64 {
    if product.gear_route is Some && product.sale_price@.len() > 0 {
        product.sale_price@[0].quantity
    } else {
        match gear_price_of(gameplay, product) {
            Some(price) => price,
            None => match consumable_price_of(gameplay, product) {
                Some(price) => price,
                None => 0,
            },
        }
    }
}

/// What a Hunter pays for gear: a gear product listed with a sale price
/// costs its first sale price; without one, a gear product whose single
/// `gear:` output the catalog prices costs that item's tier price at the
/// route's rating.
pub proof fn lemma_gear_purchase_pays_rating_tier(gameplay: BuildingGameplayCatalog, product: EconomyProductDefinition)
    ensures
        product.gear_route is Some && product.sale_price@.len() > 0 ==> purchase_price(gameplay, product)
            == product.sale_price@[0].quantity,
        ({
            &&& product.gear_route matches Some(route)
            &&& product.sale_price@.len() == 0
            &&& product.outputs@.len() > 0
            &&& product.outputs@[0].quantity == 1
            &&& crate::text::has_prefix(product.outputs@[0].resource_id@, "gear:"@)
            &&& crate::catalog::find_item(gameplay.items@, product.outputs@[0].resource_id@) matches Some(item)
            &&& route.rating < item.hunter_pays_town_gold_by_tier@.len()
        }) ==> purchase_price(gameplay, product) == crate::catalog::find_item(
            gameplay.items@,
            product.outputs@[0].resource_id@,
        ).unwrap().hunter_pays_town_gold_by_tier@[product.gear_route.unwrap().rating as int],
{
    crate::building_domain::lemma_gear_price_is_rating_tier(gameplay, product);
}

/// The price a Hunter pays for a product (see [`purchase_price`]).
fn purchase_price_of(gameplay: &BuildingGameplayCatalog, product: &EconomyProductDefinition) -> (price: u64)
    ensures
        price == purchase_price(*gameplay, *product),
{
    if product.gear_route.is_some() && product.sale_price.len() > 0 {
        return product.sale_price[0].quantity;
    }
    match gear_purchase_price(gameplay, product) {
        Some(price) => price,
        None => match consumable_purchase_price(gameplay, product) {
            Some(price) => price,
            None => 0,
        },
    }
}

/// The command key of a purchase.
pub open spec fn purchase_key(hunter_id: u32, shop_id: Seq<char>, product_id: Seq<char>) -> Seq<char> {
    "purchase_shop_item:"@ + decimal_text(hunter_id as nat) + ":"@ + shop_id + ":"@ + product_id
}

/// The command key of a purchase.
fn purchase_key_text(hunter_id: u32, shop_id: &str, product_id: &str) -> (key: String)
    ensures
        key@ == purchase_key(hunter_id, shop_id@, product_id@),
{
    let mut chars: Vec<char> = Vec::new();
    append_str(&mut chars, "purchase_shop_item:");
    append_decimal(&mut chars, hunter_id as u64);
    append_str(&mut chars, ":");
    append_str(&mut chars, shop_id);
    append_str(&mut chars, ":");
    append_str(&mut chars, product_id);
    string_from_chars(&chars)
}

/// An equipment slot with id `slot_id`.
pub open spec fn slot_named(slot_id: Seq<char>) -> spec_fn(DurableEquipmentSlot) -> bool {
    |slot: DurableEquipmentSlot| slot.slot_id@ == slot_id
}

/// A crafted gear row of `product_id` stocked at building instance
/// `instance_id`.
pub open spec fn gear_for(instance_id: Seq<char>, product_id: Seq<char>) -> spec_fn(DurableCraftedGearStock) -> bool {
    |gear: DurableCraftedGearStock| gear.building_instance_id@ == instance_id && gear.product_id@ == product_id
}

/// How a purchase is answered.
pub enum PurchaseDecision {
    /// Accepted again with no change: the command id already bought this.
    Replay,
    /// Refused with a reason, with no change.
    Reject(Seq<char>),
    /// Accepted: the Hunter at index `hunter` buys one unit of stock row
    /// `stock` of shop `building` at `price`, and for gear the crafted row
    /// `gear`.
    Buy { building: int, stock: int, hunter: int, price: u64, gear: Option<int> },
}

/// The decision on a Hunter's purchase from a shop, checks in order: the
/// shared world; the shop id's form; the product; that the shop sells it; the shop's presence;
/// its level for gear; its stock of the product; a resolved price; the
/// Hunter; that it is idle in town and can pay; a used (non-nil) command id;
/// for a weapon, the Hunter's weapon family and weapon slot; for gear, a
/// crafted row in the shop.
pub open spec fn purchase_decision(
    session: OriginalFlowSession,
    command_id: u128,
    hunter_id: u32,
    shop_id: Seq<char>,
    product_id: Seq<char>,
) -> PurchaseDecision {
    let town = session.buildings;
    let content = session.building_content;
    if !world_active(session.state.screen) {
        PurchaseDecision::Reject("village_unavailable"@)
    } else if !is_base_building_id(shop_id) {
        PurchaseDecision::Reject("building_unknown"@)
    } else {
        match find_product(content.gameplay.products@, product_id) {
            None => PurchaseDecision::Reject("recipe_unknown"@),
            Some(product) => if sale_building_of(product) != Some(shop_id) {
                PurchaseDecision::Reject("recipe_building_mismatch"@)
            } else {
                match first_index(town.buildings@, building_has_base(shop_id)) {
                    None => PurchaseDecision::Reject("building_instance_unknown"@),
                    Some(b) => {
                        let building = town.buildings@[b];
                        if product.gear_route matches Some(route) && route.difficulty_group > building.level {
                            PurchaseDecision::Reject("product_level_locked"@)
                        } else {
                            match first_index(town.product_stocks@, stock_for(building.instance_id@, product_id)) {
                                None => PurchaseDecision::Reject("product_stock_empty"@),
                                Some(s) => if town.product_stocks@[s].quantity == 0 {
                                    PurchaseDecision::Reject("product_stock_empty"@)
                                } else if purchase_price(content.gameplay, product) == 0 {
                                    PurchaseDecision::Reject("sale_price_unresolved"@)
                                } else {
                                    let price = purchase_price(content.gameplay, product);
                                    match first_index(session.hunter_roster.hunters@, hunter_has_id(hunter_id)) {
                                        None => PurchaseDecision::Reject("hunter_unknown"@),
                                        Some(h) => {
                                            let hunter = session.hunter_roster.hunters@[h];
                                            let previous = command_key(session.hunter_roster.hunt_commands@, command_id);
                                            let weapon = weapon_definition_of(product_id, content.weapons);
                                            if !hunt_is_idle(hunter.hunt) {
                                                PurchaseDecision::Reject("hunter_not_in_town"@)
                                            } else if hunter.gold < price {
                                                PurchaseDecision::Reject("insufficient_hunter_gold"@)
                                            } else if command_id != 0 && previous is Some {
                                                if previous == Some(purchase_key(hunter_id, shop_id, product_id)) {
                                                    PurchaseDecision::Replay
                                                } else {
                                                    PurchaseDecision::Reject("command_id_conflict"@)
                                                }
                                            } else if weapon matches Some(d) && d.visual_family@
                                                != hunter.profile.visual_family@ {
                                                PurchaseDecision::Reject("weapon_class_incompatible"@)
                                            } else if weapon is Some && first_index(
                                                hunter.profile.equipment_slots@,
                                                slot_named("weapon"@),
                                            ) is None {
                                                PurchaseDecision::Reject("weapon_slot_unavailable"@)
                                            } else if product.gear_route is Some {
                                                match first_index(
                                                    town.crafted_gear_stocks@,
                                                    gear_for(building.instance_id@, product_id),
                                                ) {
                                                    None => PurchaseDecision::Reject("crafted_gear_stock_empty"@),
                                                    Some(g) => PurchaseDecision::Buy {
                                                        building: b,
                                                        stock: s,
                                                        hunter: h,
                                                        price,
                                                        gear: Some(g),
                                                    },
                                                }
                                            } else {
                                                PurchaseDecision::Buy { building: b, stock: s, hunter: h, price, gear: None }
                                            }
                                        },
                                    }
                                },
                            }
                        }
                    },
                }
            },
        }
    }
}

/// `a + 1`, held at `u32::MAX`.
pub open spec fn one_more(a: u32) -> u32 {
    if a == u32::MAX {
        a
    } else {
        (a + 1) as u32
    }
}

/// A consumable the Hunter owns: a stack of `product_id` without a gear
/// instance.
pub open spec fn consumable_stack(product_id: Seq<char>) -> spec_fn(DurableHunterOwnedItem) -> bool {
    |item: DurableHunterOwnedItem| item.product_id@ == product_id && item.gear_instance_id is None
}

/// The owned items after buying one unit of consumable `product_id`: the
/// first stack of it grows by one (held at the maximum), or a new stack of
/// one is added.
pub open spec fn consumable_added(
    before: Seq<DurableHunterOwnedItem>,
    after: Seq<DurableHunterOwnedItem>,
    product_id: Seq<char>,
) -> bool {
    match first_index(before, consumable_stack(product_id)) {
        Some(k) => after == before.update(k, DurableHunterOwnedItem { quantity: one_more(before[k].quantity), ..before[k] }),
        None => {
            &&& after.len() == before.len() + 1
            &&& after.drop_last() == before
            &&& after.last().product_id@ == product_id
            &&& after.last().quantity == 1
            &&& after.last().enhancement_level is None
            &&& after.last().gear_instance_id is None
            &&& after.last().quality is None
            &&& after.last().primary_stat is None
            &&& after.last().option_type is None
            &&& after.last().option_value is None
            &&& after.last().ruleset is None
        },
    }
}

/// The owned gear item made from a crafted row: one unit of `product_id`
/// at enhancement 0 with the row's rolled fields.
pub open spec fn owned_gear(item: DurableHunterOwnedItem, product_id: Seq<char>, gear: DurableCraftedGearStock) -> bool {
    &&& item.product_id@ == product_id
    &&& item.quantity == 1
    &&& item.enhancement_level == Some(0u8)
    &&& item.gear_instance_id == Some(gear.gear_instance_id)
    &&& item.quality == Some(gear.quality)
    &&& item.primary_stat == Some(gear.primary_stat)
    &&& item.option_type == Some(gear.option_type)
    &&& item.option_value == Some(gear.option_value)
    &&& item.ruleset == Some(gear.ruleset)
}

/// The weapon slot shows weapon `definition` as gear instance `gear_id`,
/// required of the Hunter's class.
pub open spec fn weapon_slot_shows(
    before: DurableEquipmentSlot,
    after: DurableEquipmentSlot,
    definition: RebuildWeaponDefinition,
    gear_id: u128,
    class_id: String,
) -> bool {
    &&& after.catalog_kind@ == "rebuild_weapon_instance:"@ + id_text(gear_id)
    &&& after.catalog_index == definition.gear_index
    &&& after.display_name == definition.display_name_vi
    &&& after.icon_path == definition.icon_path
    &&& after.required_class_id == Some(class_id)
    &&& after.evidence_state@ == "web_rebuild_weapon_v1"@
    &&& after.slot_id == before.slot_id
    &&& after.presentation_gender == before.presentation_gender
    &&& after.locked == before.locked
}

/// The profile with the first weapon slot equipped with `definition` as gear
/// instance `gear_id`.
pub open spec fn weapon_equipped(
    before: DurableHunterProfile,
    after: DurableHunterProfile,
    definition: RebuildWeaponDefinition,
    gear_id: u128,
) -> bool {
    let k = first_index(before.equipment_slots@, slot_named("weapon"@)).unwrap();
    &&& after.equipment_slots@.len() == before.equipment_slots@.len()
    &&& forall|j: int| 0 <= j < before.equipment_slots@.len() && j != k ==> #[trigger] after.equipment_slots@[j]
        == before.equipment_slots@[j]
    &&& weapon_slot_shows(before.equipment_slots@[k], after.equipment_slots@[k], definition, gear_id, before.class_id)
    &&& after == DurableHunterProfile { equipment_slots: after.equipment_slots, ..before }
}

/// The Hunter after buying: it pays the price and owns the product (a
/// consumable stacks; gear is a new item of the crafted row, a weapon also
/// equipped); nothing else about it changes.
pub open spec fn hunter_bought(
    before: DurableHunterState,
    after: DurableHunterState,
    product_id: Seq<char>,
    price: u64,
    gear: Option<DurableCraftedGearStock>,
    weapon: Option<RebuildWeaponDefinition>,
) -> bool {
    &&& after.gold == before.gold - price
    &&& match gear {
        None => consumable_added(before.owned_items@, after.owned_items@, product_id),
        Some(row) => {
            &&& after.owned_items@.len() == before.owned_items@.len() + 1
            &&& after.owned_items@.drop_last() == before.owned_items@
            &&& owned_gear(after.owned_items@.last(), product_id, row)
        },
    }
    &&& match (gear, weapon) {
        (Some(row), Some(definition)) => weapon_equipped(before.profile, after.profile, definition, row.gear_instance_id),
        _ => after.profile == before.profile,
    }
    &&& after == DurableHunterState {
        gold: after.gold,
        owned_items: after.owned_items,
        profile: after.profile,
        ..before
    }
}

/// `a + b`, held at `u64::MAX`.
pub open spec fn sat_add(a: u64, b: u64) -> u64 {
    if a + b > u64::MAX {
        u64::MAX
    } else {
        (a + b) as u64
    }
}

/// The effect of a decided purchase: the shop's stock row loses a unit, the
/// town gains the price (held at the maximum), a gear purchase takes its
/// crafted row out of the shop and counts as an equipment purchase, the
/// Hunter buys (see [`hunter_bought`]), and a non-nil command id is
/// recorded; nothing else changes.
pub open spec fn purchase_made(
    before: OriginalFlowSession,
    after: OriginalFlowSession,
    command_id: u128,
    hunter_id: u32,
    shop_id: Seq<char>,
    product_id: Seq<char>,
    stock: int,
    h: int,
    price: u64,
    gear: Option<int>,
) -> bool {
    let town = before.buildings;
    let new_town = after.buildings;
    let commands = before.hunter_roster.hunt_commands@;
    let new_commands = after.hunter_roster.hunt_commands@;
    let row = match gear {
        Some(g) => Some(town.crafted_gear_stocks@[g]),
        None => None,
    };
    &&& new_town.product_stocks@ == town.product_stocks@.update(
        stock,
        crate::contracts::DurableProductStock {
            quantity: (town.product_stocks@[stock].quantity - 1) as u32,
            ..town.product_stocks@[stock]
        },
    )
    &&& new_town.town_gold == sat_add(town.town_gold, price)
    &&& match gear {
        Some(g) => {
            &&& new_town.crafted_gear_stocks@ == town.crafted_gear_stocks@.remove(g)
            &&& new_town.hunter_equipment_purchases == (if town.hunter_equipment_purchases == u32::MAX {
                u32::MAX
            } else {
                (town.hunter_equipment_purchases + 1) as u32
            })
        },
        None => {
            &&& new_town.crafted_gear_stocks == town.crafted_gear_stocks
            &&& new_town.hunter_equipment_purchases == town.hunter_equipment_purchases
        },
    }
    &&& new_town == DurableBuildingState {
        product_stocks: new_town.product_stocks,
        town_gold: new_town.town_gold,
        crafted_gear_stocks: new_town.crafted_gear_stocks,
        hunter_equipment_purchases: new_town.hunter_equipment_purchases,
        ..town
    }
    &&& after.hunter_roster.hunters@.len() == before.hunter_roster.hunters@.len()
    &&& forall|k: int| 0 <= k < before.hunter_roster.hunters@.len() && k != h ==> #[trigger] after.hunter_roster.hunters@[k]
        == before.hunter_roster.hunters@[k]
    &&& hunter_bought(
        before.hunter_roster.hunters@[h],
        after.hunter_roster.hunters@[h],
        product_id,
        price,
        row,
        weapon_definition_of(product_id, before.building_content.weapons),
    )
    &&& if command_id != 0 {
        &&& new_commands.len() == commands.len() + 1
        &&& new_commands.drop_last() == commands
        &&& new_commands.last().command_id == command_id
        &&& new_commands.last().key@ == purchase_key(hunter_id, shop_id, product_id)
    } else {
        new_commands == commands
    }
    &&& after.hunter_roster == DurableHunterRosterState {
        hunters: after.hunter_roster.hunters,
        hunt_commands: after.hunter_roster.hunt_commands,
        ..before.hunter_roster
    }
    &&& after == OriginalFlowSession { buildings: after.buildings, hunter_roster: after.hunter_roster, ..before }
}

/// The reply to and effect of a purchase.
pub open spec fn purchase_outcome(
    before: OriginalFlowSession,
    after: OriginalFlowSession,
    command_id: u128,
    hunter_id: u32,
    shop_id: Seq<char>,
    product_id: Seq<char>,
    message: ServerMessage,
) -> bool {
    match purchase_decision(before, command_id, hunter_id, shop_id, product_id) {
        PurchaseDecision::Replay => is_accepted(message, "purchase_shop_item"@) && after == before,
        PurchaseDecision::Reject(reason) => is_rejected(message, "purchase_shop_item"@, reason) && after == before,
        PurchaseDecision::Buy { building, stock, hunter, price, gear } => is_accepted(message, "purchase_shop_item"@)
            && purchase_made(before, after, command_id, hunter_id, shop_id, product_id, stock, hunter, price, gear),
    }
}

/// Finds the first stack of consumable `product_id`.
fn find_consumable_stack(items: &Vec<DurableHunterOwnedItem>, product_id: &str) -> (index: Option<usize>)
    ensures
        index matches Some(k) ==> first_index(items@, consumable_stack(product_id@)) == Some(k as int) && k < items@.len(),
        index is None ==> first_index(items@, consumable_stack(product_id@)) is None,
{
    let mut k: usize = 0;
    while k < items.len()
        invariant
            0 <= k <= items@.len(),
            forall|j: int| 0 <= j < k ==> !consumable_stack(product_id@)(#[trigger] items@[j]),
        decreases items@.len() - k,
    {
        if str_eq(items[k].product_id.as_str(), product_id) && items[k].gear_instance_id.is_none() {
            proof {
                lemma_first_index_is(items@, consumable_stack(product_id@), k as int);
            }
            return Some(k);
        }
        k = k + 1;
    }
    proof {
        lemma_first_index_none(items@, consumable_stack(product_id@));
    }
    None
}

/// Finds the first equipment slot with id `slot_id`.
fn find_slot(slots: &Vec<DurableEquipmentSlot>, slot_id: &str) -> (index: Option<usize>)
    ensures
        index matches Some(k) ==> first_index(slots@, slot_named(slot_id@)) == Some(k as int) && k < slots@.len(),
        index is None ==> first_index(slots@, slot_named(slot_id@)) is None,
{
    let mut k: usize = 0;
    while k < slots.len()
        invariant
            0 <= k <= slots@.len(),
            forall|j: int| 0 <= j < k ==> !slot_named(slot_id@)(#[trigger] slots@[j]),
        decreases slots@.len() - k,
    {
        if str_eq(slots[k].slot_id.as_str(), slot_id) {
            proof {
                lemma_first_index_is(slots@, slot_named(slot_id@), k as int);
            }
            return Some(k);
        }
        k = k + 1;
    }
    proof {
        lemma_first_index_none(slots@, slot_named(slot_id@));
    }
    None
}

/// Finds the first crafted row of `product_id` stocked at `instance_id`.
fn find_crafted_gear(stocks: &Vec<DurableCraftedGearStock>, instance_id: &str, product_id: &str) -> (index: Option<usize>)
    ensures
        index matches Some(k) ==> first_index(stocks@, gear_for(instance_id@, product_id@)) == Some(k as int) && k
            < stocks@.len(),
        index is None ==> first_index(stocks@, gear_for(instance_id@, product_id@)) is None,
{
    let mut k: usize = 0;
    while k < stocks.len()
        invariant
            0 <= k <= stocks@.len(),
            forall|j: int| 0 <= j < k ==> !gear_for(instance_id@, product_id@)(#[trigger] stocks@[j]),
        decreases stocks@.len() - k,
    {
        if str_eq(stocks[k].building_instance_id.as_str(), instance_id) && str_eq(
            stocks[k].product_id.as_str(),
            product_id,
        ) {
            proof {
                lemma_first_index_is(stocks@, gear_for(instance_id@, product_id@), k as int);
            }
            return Some(k);
        }
        k = k + 1;
    }
    proof {
        lemma_first_index_none(stocks@, gear_for(instance_id@, product_id@));
    }
    None
}

/// One more unit in an owned stack, held at the maximum.
fn add_one_unit(item: &mut DurableHunterOwnedItem)
    ensures
        *final(item) == (DurableHunterOwnedItem { quantity: one_more(old(item).quantity), ..*old(item) }),
{
    if item.quantity < u32::MAX {
        item.quantity = item.quantity + 1;
    }
}

/// Shows weapon `definition` as gear instance `gear_id` in a slot.
fn show_weapon(slot: &mut DurableEquipmentSlot, definition: &RebuildWeaponDefinition, gear_id: u128, class_id: String)
    ensures
        weapon_slot_shows(*old(slot), *final(slot), *definition, gear_id, class_id),
{
    let mut kind: Vec<char> = Vec::new();
    append_str(&mut kind, "rebuild_weapon_instance:");
    let text = id_to_text(gear_id);
    append_str(&mut kind, text.as_str());
    slot.catalog_kind = string_from_chars(&kind);
    slot.catalog_index = definition.gear_index;
    slot.display_name = definition.display_name_vi.clone();
    slot.icon_path = definition.icon_path.clone();
    slot.required_class_id = Some(class_id);
    slot.evidence_state = "web_rebuild_weapon_v1".to_owned();
}

/// The Hunter pays and takes the product (see [`hunter_bought`]).
fn hand_over(
    hunter: &mut DurableHunterState,
    product_id: &str,
    price: u64,
    gear: Option<DurableCraftedGearStock>,
    weapon: &Option<RebuildWeaponDefinition>,
)
    requires
        old(hunter).gold >= price,
        gear is Some && weapon is Some ==> first_index(old(hunter).profile.equipment_slots@, slot_named("weapon"@)) is Some,
    ensures
        hunter_bought(*old(hunter), *final(hunter), product_id@, price, gear, *weapon),
{
    hunter.gold = hunter.gold - price;
    match gear {
        None => {
            match find_consumable_stack(&hunter.owned_items, product_id) {
                Some(k) => {
                    add_one_unit(&mut hunter.owned_items[k]);
                },
                None => {
                    let ghost before = hunter.owned_items@;
                    hunter.owned_items.push(
                        DurableHunterOwnedItem {
                            product_id: product_id.to_owned(),
                            quantity: 1,
                            enhancement_level: None,
                            gear_instance_id: None,
                            quality: None,
                            primary_stat: None,
                            option_type: None,
                            option_value: None,
                            ruleset: None,
                        },
                    );
                    assert(hunter.owned_items@.drop_last() =~= before);
                },
            }
        },
        Some(row) => {
            let gear_id = row.gear_instance_id;
            let ghost before = hunter.owned_items@;
            hunter.owned_items.push(
                DurableHunterOwnedItem {
                    product_id: product_id.to_owned(),
                    quantity: 1,
                    enhancement_level: Some(0),
                    gear_instance_id: Some(row.gear_instance_id),
                    quality: Some(row.quality),
                    primary_stat: Some(row.primary_stat),
                    option_type: Some(row.option_type),
                    option_value: Some(row.option_value),
                    ruleset: Some(row.ruleset),
                },
            );
            assert(hunter.owned_items@.drop_last() =~= before);
            match weapon {
                Some(definition) => {
                    let k = match find_slot(&hunter.profile.equipment_slots, "weapon") {
                        Some(k) => k,
                        None => {
                            proof {
                                reveal_strlit("weapon");
                            }
                            return;
                        },
                    };
                    let class_id = hunter.profile.class_id.clone();
                    show_weapon(&mut hunter.profile.equipment_slots[k], definition, gear_id, class_id);
                },
                None => {},
            }
        },
    }
}

/// One unit fewer in a product stock.
fn take_one_unit(stock: &mut crate::contracts::DurableProductStock)
    requires
        old(stock).quantity > 0,
    ensures
        *final(stock) == (crate::contracts::DurableProductStock { quantity: (old(stock).quantity - 1) as u32, ..*old(stock) }),
{
    stock.quantity = stock.quantity - 1;
}

impl OriginalFlowSession {
    /// Carries out a decided purchase (see [`purchase_made`]).
    fn complete_purchase(
        &mut self,
        command_id: u128,
        hunter_id: u32,
        shop_id: &str,
        product_id: &str,
        stock: usize,
        h: usize,
        price: u64,
        gear: Option<usize>,
    )
        requires
            stock < old(self).buildings.product_stocks@.len(),
            old(self).buildings.product_stocks@[stock as int].quantity > 0,
            h < old(self).hunter_roster.hunters@.len(),
            old(self).hunter_roster.hunters@[h as int].gold >= price,
            gear matches Some(g) ==> g < old(self).buildings.crafted_gear_stocks@.len(),
            gear is Some && weapon_definition_of(product_id@, old(self).building_content.weapons) is Some ==> first_index(
                old(self).hunter_roster.hunters@[h as int].profile.equipment_slots@,
                slot_named("weapon"@),
            ) is Some,
            command_id != 0 ==> command_key(old(self).hunter_roster.hunt_commands@, command_id) is None,
        ensures
            purchase_made(
                *old(self),
                *final(self),
                command_id,
                hunter_id,
                shop_id@,
                product_id@,
                stock as int,
                h as int,
                price,
                match gear {
                    Some(g) => Some(g as int),
                    None => None,
                },
            ),
    {
        let weapon = rebuild_weapon_definition(product_id, &self.building_content.weapons);
        let row = match gear {
            Some(g) => Some(self.buildings.crafted_gear_stocks.remove(g)),
            None => None,
        };
        take_one_unit(&mut self.buildings.product_stocks[stock]);
        self.buildings.town_gold = if self.buildings.town_gold > u64::MAX - price {
            u64::MAX
        } else {
            self.buildings.town_gold + price
        };
        if gear.is_some() && self.buildings.hunter_equipment_purchases < u32::MAX {
            self.buildings.hunter_equipment_purchases = self.buildings.hunter_equipment_purchases + 1;
        }
        hand_over(&mut self.hunter_roster.hunters[h], product_id, price, row, &weapon);
        if command_id != 0 {
            let key = purchase_key_text(hunter_id, shop_id, product_id);
            let ghost commands = self.hunter_roster.hunt_commands@;
            self.hunter_roster.record_command(command_id, key);
            assert(self.hunter_roster.hunt_commands@.drop_last() =~= commands);
        }
    }

    /// A Hunter buys one unit of a product from a shop under `command_id`
    /// (see [`purchase_decision`] and [`purchase_made`]).
    pub fn purchase_shop_item(&mut self, command_id: u128, hunter_id: u32, shop_id: &str, product_id: &str) -> (message: ServerMessage)
        ensures
            purchase_outcome(*old(self), *final(self), command_id, hunter_id, shop_id@, product_id@, message),
    {
        let intent = "purchase_shop_item";
        if !self.shared_world_active() {
            return self.rejected(intent, "village_unavailable");
        }
        if !base_building_id_valid(shop_id) {
            return self.rejected(intent, "building_unknown");
        }
        let product = match self.building_content.gameplay.product(product_id) {
            Some(product) => product,
            None => {
                return self.rejected(intent, "recipe_unknown");
            },
        };
        let sells = match product_sale_building_id(&self.building_content.gameplay, product) {
            Some(shop) => str_eq(shop.as_str(), shop_id),
            None => false,
        };
        if !sells {
            return self.rejected(intent, "recipe_building_mismatch");
        }
        let b = match find_building_by_base(&self.buildings.buildings, shop_id) {
            Some(b) => b,
            None => {
                return self.rejected(intent, "building_instance_unknown");
            },
        };
        let building = &self.buildings.buildings[b];
        let locked = match &product.gear_route {
            Some(route) => route.difficulty_group > building.level as u16,
            None => false,
        };
        if locked {
            return self.rejected(intent, "product_level_locked");
        }
        let stock = match find_product_stock(&self.buildings.product_stocks, building.instance_id.as_str(), product_id) {
            Some(stock) => stock,
            None => {
                return self.rejected(intent, "product_stock_empty");
            },
        };
        if self.buildings.product_stocks[stock].quantity == 0 {
            return self.rejected(intent, "product_stock_empty");
        }
        let price = purchase_price_of(&self.building_content.gameplay, product);
        if price == 0 {
            return self.rejected(intent, "sale_price_unresolved");
        }
        let h = match find_hunter_index(&self.hunter_roster.hunters, hunter_id) {
            Some(h) => h,
            None => {
                return self.rejected(intent, "hunter_unknown");
            },
        };
        let hunter = &self.hunter_roster.hunters[h];
        if !hunter.hunt.is_idle() {
            return self.rejected(intent, "hunter_not_in_town");
        }
        if hunter.gold < price {
            return self.rejected(intent, "insufficient_hunter_gold");
        }
        if command_id != 0 {
            match self.hunter_roster.command_key(command_id) {
                Some(previous) => {
                    let key = purchase_key_text(hunter_id, shop_id, product_id);
                    return if str_eq(previous.as_str(), key.as_str()) {
                        self.accepted(intent)
                    } else {
                        self.rejected(intent, "command_id_conflict")
                    };
                },
                None => {},
            }
        }
        let weapon = rebuild_weapon_definition(product_id, &self.building_content.weapons);
        let incompatible = match &weapon {
            Some(definition) => !str_eq(definition.visual_family.as_str(), hunter.profile.visual_family.as_str()),
            None => false,
        };
        if incompatible {
            return self.rejected(intent, "weapon_class_incompatible");
        }
        if weapon.is_some() && find_slot(&hunter.profile.equipment_slots, "weapon").is_none() {
            proof {
                reveal_strlit("weapon");
            }
            return self.rejected(intent, "weapon_slot_unavailable");
        }
        proof {
            reveal_strlit("weapon");
        }
        let gear = if product.gear_route.is_some() {
            match find_crafted_gear(
                &self.buildings.crafted_gear_stocks,
                self.buildings.buildings[b].instance_id.as_str(),
                product_id,
            ) {
                Some(g) => Some(g),
                None => {
                    return self.rejected(intent, "crafted_gear_stock_empty");
                },
            }
        } else {
            None
        };
        self.complete_purchase(command_id, hunter_id, shop_id, product_id, stock, h, price, gear);
        self.accepted(intent)
    }
}

/// An owned item carrying gear instance `gear_id`.
pub open spec fn carries_gear(gear_id: u128) -> spec_fn(DurableHunterOwnedItem) -> bool {
    |item: DurableHunterOwnedItem| item.gear_instance_id == Some(gear_id)
}

/// Why a Hunter cannot equip gear instance `gear_id` as its weapon: it owns
/// no item of that instance (the first such item counts), the item is no
/// known weapon, the weapon's family is not the Hunter's, or the Hunter has
/// no weapon slot.
pub open spec fn equip_refusal(hunter: DurableHunterState, gear_id: u128, weapons: crate::web_rebuild_gear::WeaponCatalog) -> Option<
    Seq<char>,
> {
    match first_index(hunter.owned_items@, carries_gear(gear_id)) {
        None => Some("gear_instance_unknown"@),
        Some(k) => match weapon_definition_of(hunter.owned_items@[k].product_id@, weapons) {
            None => Some("weapon_definition_unresolved"@),
            Some(definition) => if definition.visual_family@ != hunter.profile.visual_family@ {
                Some("weapon_class_mismatch"@)
            } else if first_index(hunter.profile.equipment_slots@, slot_named("weapon"@)) is None {
                Some("weapon_slot_unavailable"@)
            } else {
                None
            },
        },
    }
}

/// The weapon definition of the first owned item of gear instance `gear_id`.
pub open spec fn owned_weapon(hunter: DurableHunterState, gear_id: u128, weapons: crate::web_rebuild_gear::WeaponCatalog) -> RebuildWeaponDefinition {
    let k = first_index(hunter.owned_items@, carries_gear(gear_id)).unwrap();
    weapon_definition_of(hunter.owned_items@[k].product_id@, weapons).unwrap()
}

/// Finds the first owned item of gear instance `gear_id`.
fn find_owned_gear(items: &Vec<DurableHunterOwnedItem>, gear_id: u128) -> (index: Option<usize>)
    ensures
        index matches Some(k) ==> first_index(items@, carries_gear(gear_id)) == Some(k as int) && k < items@.len(),
        index is None ==> first_index(items@, carries_gear(gear_id)) is None,
{
    let mut k: usize = 0;
    while k < items.len()
        invariant
            0 <= k <= items@.len(),
            forall|j: int| 0 <= j < k ==> !carries_gear(gear_id)(#[trigger] items@[j]),
        decreases items@.len() - k,
    {
        if items[k].gear_instance_id == Some(gear_id) {
            proof {
                lemma_first_index_is(items@, carries_gear(gear_id), k as int);
            }
            return Some(k);
        }
        k = k + 1;
    }
    proof {
        lemma_first_index_none(items@, carries_gear(gear_id));
    }
    None
}

/// Equips a Hunter's owned gear instance `gear_id` as its weapon (see
/// [`equip_refusal`]); a refusal changes nothing.
pub fn equip_owned_rebuild_weapon(
    hunter: &mut DurableHunterState,
    gear_id: u128,
    weapons: &crate::web_rebuild_gear::WeaponCatalog,
) -> (result: Result<(), &'static str>)
    ensures
        match equip_refusal(*old(hunter), gear_id, *weapons) {
            Some(reason) => result matches Err(e) && e@ == reason && *final(hunter) == *old(hunter),
            None => result is Ok && weapon_equipped(
                old(hunter).profile,
                final(hunter).profile,
                owned_weapon(*old(hunter), gear_id, *weapons),
                gear_id,
            ) && *final(hunter) == (DurableHunterState { profile: final(hunter).profile, ..*old(hunter) }),
        },
{
    let k = match find_owned_gear(&hunter.owned_items, gear_id) {
        Some(k) => k,
        None => {
            return Err("gear_instance_unknown");
        },
    };
    let definition = match rebuild_weapon_definition(hunter.owned_items[k].product_id.as_str(), weapons) {
        Some(definition) => definition,
        None => {
            return Err("weapon_definition_unresolved");
        },
    };
    if !str_eq(definition.visual_family.as_str(), hunter.profile.visual_family.as_str()) {
        return Err("weapon_class_mismatch");
    }
    let slot = match find_slot(&hunter.profile.equipment_slots, "weapon") {
        Some(slot) => slot,
        None => {
            proof {
                reveal_strlit("weapon");
            }
            return Err("weapon_slot_unavailable");
        },
    };
    proof {
        reveal_strlit("weapon");
    }
    let class_id = hunter.profile.class_id.clone();
    let ghost slots = hunter.profile.equipment_slots@;
    show_weapon(&mut hunter.profile.equipment_slots[slot], &definition, gear_id, class_id);
    Ok(())
}

/// Why a Hunter cannot equip gear instance `gear_id` (see
/// [`equip_refusal`]).
fn equip_refusal_of(hunter: &DurableHunterState, gear_id: u128, weapons: &crate::web_rebuild_gear::WeaponCatalog) -> (reason:
    Option<&'static str>)
    ensures
        reason matches Some(r) ==> equip_refusal(*hunter, gear_id, *weapons) == Some(r@),
        reason is None ==> equip_refusal(*hunter, gear_id, *weapons) is None,
{
    let k = match find_owned_gear(&hunter.owned_items, gear_id) {
        Some(k) => k,
        None => {
            return Some("gear_instance_unknown");
        },
    };
    let definition = match rebuild_weapon_definition(hunter.owned_items[k].product_id.as_str(), weapons) {
        Some(definition) => definition,
        None => {
            return Some("weapon_definition_unresolved");
        },
    };
    if !str_eq(definition.visual_family.as_str(), hunter.profile.visual_family.as_str()) {
        return Some("weapon_class_mismatch");
    }
    proof {
        reveal_strlit("weapon");
    }
    if find_slot(&hunter.profile.equipment_slots, "weapon").is_none() {
        return Some("weapon_slot_unavailable");
    }
    None
}

/// The command key of a weapon equip.
pub open spec fn equip_key(hunter_id: u32, gear_id: u128) -> Seq<char> {
    "equip_hunter_weapon:"@ + decimal_text(hunter_id as nat) + ":"@ + id_text(gear_id)
}

/// The command key of a weapon equip.
fn equip_key_text(hunter_id: u32, gear_id: u128) -> (key: String)
    ensures
        key@ == equip_key(hunter_id, gear_id),
{
    let mut chars: Vec<char> = Vec::new();
    append_str(&mut chars, "equip_hunter_weapon:");
    append_decimal(&mut chars, hunter_id as u64);
    append_str(&mut chars, ":");
    let text = id_to_text(gear_id);
    append_str(&mut chars, text.as_str());
    string_from_chars(&chars)
}

/// The reply to and effect of a weapon equip command, checks in order: the
/// shared world; a used (non-nil) command id; the Hunter; the equip itself.
pub open spec fn equip_outcome(
    before: OriginalFlowSession,
    after: OriginalFlowSession,
    command_id: u128,
    hunter_id: u32,
    gear_id: u128,
    message: ServerMessage,
) -> bool {
    let previous = command_key(before.hunter_roster.hunt_commands@, command_id);
    if !world_active(before.state.screen) {
        is_rejected(message, "equip_hunter_weapon"@, "world_unavailable"@) && after == before
    } else if command_id != 0 && previous is Some {
        if previous == Some(equip_key(hunter_id, gear_id)) {
            is_accepted(message, "equip_hunter_weapon"@) && after == before
        } else {
            is_rejected(message, "equip_hunter_weapon"@, "command_id_conflict"@) && after == before
        }
    } else {
        match first_index(before.hunter_roster.hunters@, hunter_has_id(hunter_id)) {
            None => is_rejected(message, "equip_hunter_weapon"@, "hunter_unknown"@) && after == before,
            Some(h) => {
                let hunter = before.hunter_roster.hunters@[h];
                let weapons = before.building_content.weapons;
                match equip_refusal(hunter, gear_id, weapons) {
                    Some(reason) => is_rejected(message, "equip_hunter_weapon"@, reason) && after == before,
                    None => {
                        let commands = before.hunter_roster.hunt_commands@;
                        let new_commands = after.hunter_roster.hunt_commands@;
                        let equipped = after.hunter_roster.hunters@[h];
                        &&& is_accepted(message, "equip_hunter_weapon"@)
                        &&& after.hunter_roster.hunters@.len() == before.hunter_roster.hunters@.len()
                        &&& forall|k: int| 0 <= k < before.hunter_roster.hunters@.len() && k != h ==> #[trigger] after.hunter_roster.hunters@[k]
                            == before.hunter_roster.hunters@[k]
                        &&& weapon_equipped(hunter.profile, equipped.profile, owned_weapon(hunter, gear_id, weapons), gear_id)
                        &&& equipped == (DurableHunterState { profile: equipped.profile, ..hunter })
                        &&& if command_id != 0 {
                            &&& new_commands.len() == commands.len() + 1
                            &&& new_commands.drop_last() == commands
                            &&& new_commands.last().command_id == command_id
                            &&& new_commands.last().key@ == equip_key(hunter_id, gear_id)
                        } else {
                            new_commands == commands
                        }
                        &&& after == OriginalFlowSession {
                            hunter_roster: DurableHunterRosterState {
                                hunters: after.hunter_roster.hunters,
                                hunt_commands: after.hunter_roster.hunt_commands,
                                ..before.hunter_roster
                            },
                            ..before
                        }
                    },
                }
            },
        }
    }
}

impl OriginalFlowSession {
    /// Equips a Hunter's owned rebuild weapon under `command_id` (see
    /// [`equip_outcome`]).
    pub fn equip_rebuild_weapon(&mut self, command_id: u128, hunter_id: u32, gear_instance_id: u128) -> (message: ServerMessage)
        ensures
            equip_outcome(*old(self), *final(self), command_id, hunter_id, gear_instance_id, message),
    {
        let intent = "equip_hunter_weapon";
        if !self.shared_world_active() {
            return self.rejected(intent, "world_unavailable");
        }
        if command_id != 0 {
            match self.hunter_roster.command_key(command_id) {
                Some(previous) => {
                    let key = equip_key_text(hunter_id, gear_instance_id);
                    return if str_eq(previous.as_str(), key.as_str()) {
                        self.accepted(intent)
                    } else {
                        self.rejected(intent, "command_id_conflict")
                    };
                },
                None => {},
            }
        }
        let h = match find_hunter_index(&self.hunter_roster.hunters, hunter_id) {
            Some(h) => h,
            None => {
                return self.rejected(intent, "hunter_unknown");
            },
        };
        match equip_refusal_of(&self.hunter_roster.hunters[h], gear_instance_id, &self.building_content.weapons) {
            Some(reason) => {
                return self.rejected(intent, reason);
            },
            None => {},
        }
        let _ = equip_owned_rebuild_weapon(&mut self.hunter_roster.hunters[h], gear_instance_id, &self.building_content.weapons);
        if command_id != 0 {
            let key = equip_key_text(hunter_id, gear_instance_id);
            let ghost commands = self.hunter_roster.hunt_commands@;
            self.hunter_roster.record_command(command_id, key);
            assert(self.hunter_roster.hunt_commands@.drop_last() =~= commands);
        }
        self.accepted(intent)
    }
}

/// A purchase moves gold from the Hunter to the town wallet and creates
/// none: the town gains exactly what the Hunter pays, when the town wallet
/// does not overflow; the shop's stock row loses exactly one unit.
pub proof fn lemma_purchase_conserves_gold(
    before: OriginalFlowSession,
    after: OriginalFlowSession,
    command_id: u128,
    hunter_id: u32,
    shop_id: Seq<char>,
    product_id: Seq<char>,
    message: ServerMessage,
)
    requires
        purchase_outcome(before, after, command_id, hunter_id, shop_id, product_id, message),
        purchase_decision(before, command_id, hunter_id, shop_id, product_id) is Buy,
        before.buildings.town_gold + before.hunter_roster.hunters@[purchase_decision(
            before,
            command_id,
            hunter_id,
            shop_id,
            product_id,
        )->hunter].gold <= u64::MAX,
    ensures
        ({
            let decision = purchase_decision(before, command_id, hunter_id, shop_id, product_id);
            let h = decision->hunter;
            let s = decision->stock;
            &&& after.buildings.town_gold + after.hunter_roster.hunters@[h].gold == before.buildings.town_gold
                + before.hunter_roster.hunters@[h].gold
            &&& after.buildings.product_stocks@[s].quantity + 1 == before.buildings.product_stocks@[s].quantity
        }),
{
    let decision = purchase_decision(before, command_id, hunter_id, shop_id, product_id);
    let h = decision->hunter;
    let s = decision->stock;
    let price = decision->price;
    lemma_first_index(before.hunter_roster.hunters@, hunter_has_id(hunter_id));
    let b = first_index(before.buildings.buildings@, crate::building_domain::building_has_base(shop_id)).unwrap();
    lemma_first_index(before.buildings.buildings@, crate::building_domain::building_has_base(shop_id));
    lemma_first_index(
        before.buildings.product_stocks@,
        stock_for(before.buildings.buildings@[b].instance_id@, product_id),
    );
    assert(before.hunter_roster.hunters@[h].gold >= price);
    assert(before.buildings.product_stocks@[s].quantity > 0);
}

/// The units of `product_id` a Hunter owns, over all its rows.
pub open spec fn owned_units(items: Seq<DurableHunterOwnedItem>, product_id: Seq<char>) -> int
    decreases items.len(),
{
    if items.len() == 0 {
        0
    } else {
        owned_units(items.drop_last(), product_id) + (if items.last().product_id@ == product_id {
            items.last().quantity as int
        } else {
            0
        })
    }
}

/// Replacing row `k` by a row of the same product changes the owned units
/// by the difference of the two quantities.
proof fn lemma_owned_units_update(
    items: Seq<DurableHunterOwnedItem>,
    k: int,
    row: DurableHunterOwnedItem,
    product_id: Seq<char>,
)
    requires
        0 <= k < items.len(),
        items[k].product_id@ == product_id,
        row.product_id@ == product_id,
    ensures
        owned_units(items.update(k, row), product_id) == owned_units(items, product_id) - items[k].quantity
            + row.quantity,
    decreases items.len(),
{
    let updated = items.update(k, row);
    if k == items.len() - 1 {
        assert(updated.drop_last() =~= items.drop_last());
    } else {
        lemma_owned_units_update(items.drop_last(), k, row, product_id);
        assert(updated.drop_last() =~= items.drop_last().update(k, row));
    }
}

/// A purchase gives the buying Hunter exactly one more unit of the product
/// (unless its stack is already at the maximum), and counts an equipment
/// purchase exactly when the product is gear (held at the maximum).
pub proof fn lemma_purchase_adds_one_unit(
    before: OriginalFlowSession,
    after: OriginalFlowSession,
    command_id: u128,
    hunter_id: u32,
    shop_id: Seq<char>,
    product_id: Seq<char>,
    message: ServerMessage,
)
    requires
        purchase_outcome(before, after, command_id, hunter_id, shop_id, product_id, message),
        purchase_decision(before, command_id, hunter_id, shop_id, product_id) is Buy,
        ({
            let h = purchase_decision(before, command_id, hunter_id, shop_id, product_id)->hunter;
            let items = before.hunter_roster.hunters@[h].owned_items@;
            first_index(items, consumable_stack(product_id)) matches Some(k) ==> items[k].quantity < u32::MAX
        }),
    ensures
        ({
            let decision = purchase_decision(before, command_id, hunter_id, shop_id, product_id);
            let h = decision->hunter;
            &&& owned_units(after.hunter_roster.hunters@[h].owned_items@, product_id) == owned_units(
                before.hunter_roster.hunters@[h].owned_items@,
                product_id,
            ) + 1
            &&& after.buildings.hunter_equipment_purchases == (if decision->gear is Some
                && before.buildings.hunter_equipment_purchases < u32::MAX {
                before.buildings.hunter_equipment_purchases + 1
            } else {
                before.buildings.hunter_equipment_purchases as int
            })
        }),
{
    let decision = purchase_decision(before, command_id, hunter_id, shop_id, product_id);
    let h = decision->hunter;
    let old_items = before.hunter_roster.hunters@[h].owned_items@;
    let new_items = after.hunter_roster.hunters@[h].owned_items@;
    match decision->gear {
        Some(g) => {
            assert(new_items.drop_last() == old_items);
        },
        None => {
            lemma_first_index(old_items, consumable_stack(product_id));
            match first_index(old_items, consumable_stack(product_id)) {
                Some(k) => {
                    let row = DurableHunterOwnedItem { quantity: one_more(old_items[k].quantity), ..old_items[k] };
                    lemma_owned_units_update(old_items, k, row, product_id);
                },
                None => {
                    assert(new_items.drop_last() == old_items);
                },
            }
        },
    }
}

} // verus!
