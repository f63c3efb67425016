use vstd::prelude::*;

use crate::building_domain::{
    base_building_id_valid, building_has_base, is_base_building_id, building_has_instance, can_pay_costs, can_pay_in_turn, costs_payable, payable_in_turn,
    find_building_by_base, find_building_by_instance, ledger, pay_all, pay_costs, product_sale_building_id,
    sale_building_of,
};
use crate::catalog::{
    find_level, find_product, offers_capability, BuildingCatalog, BuildingGameplayCatalog, ConversionOption,
    EconomyAmount, EconomyProductDefinition,
};
use crate::contracts::{DurableBuilding, DurableBuildingState, DurableProductStock, MAX_PRODUCTION_QUANTITY};
use crate::product_service::{capacity_for_level, capacity_spec, service_kind_for, ServiceEffectKind};
use crate::roster::{command_key, HuntCommandRecord};
use crate::seqs::{first_index, lemma_first_index_is, lemma_first_index_none};
use crate::session::{is_accepted, is_rejected, world_active, OriginalFlowSession, ServerMessage};
use crate::session_services::{find_product_stock, stock_for};
use crate::text::{append_decimal, append_str, decimal_text, str_eq, string_from_chars};

verus! {

/// `a * b`, saturating at `u64::MAX`.
pub open spec fn saturated_product(a: u64, b: u64) -> u64 {
    if a * b > u64::MAX {
        u64::MAX
    } else {
        (a * b) as u64
    }
}

/// `a * b`, saturating at `u64::MAX`.
pub fn saturating_product(a: u64, b: u64) -> (product: u64)
    ensures
        product == saturated_product(a, b),
{
    assert((a as u128) * (b as u128) <= 0xffff_ffff_ffff_ffffu128 * 0xffff_ffff_ffff_ffffu128) by (nonlinear_arith)
        requires
            a <= 0xffff_ffff_ffff_ffffu64,
            b <= 0xffff_ffff_ffff_ffffu64,
    ;
    let wide: u128 = (a as u128) * (b as u128);
    if wide > 0xffff_ffff_ffff_ffffu128 {
        u64::MAX
    } else {
        wide as u64
    }
}

/// The command key of a production order.
pub open spec fn craft_key(instance_id: Seq<char>, recipe_id: Seq<char>, material_id: Option<Seq<char>>, quantity: u32) -> Seq<char> {
    "craft_shop_item:"@ + instance_id + ":"@ + recipe_id + ":"@ + (match material_id {
        Some(m) => m,
        None => Seq::empty(),
    }) + ":"@ + decimal_text(quantity as nat)
}

/// The command key of a production order.
fn craft_key_text(instance_id: &str, recipe_id: &str, material_id: Option<&str>, quantity: u32) -> (key: String)
    ensures
        key@ == craft_key(instance_id@, recipe_id@, match material_id {
            Some(m) => Some(m@),
            None => None,
        }, quantity),
{
    let mut chars: Vec<char> = Vec::new();
    append_str(&mut chars, "craft_shop_item:");
    append_str(&mut chars, instance_id);
    append_str(&mut chars, ":");
    append_str(&mut chars, recipe_id);
    append_str(&mut chars, ":");
    match material_id {
        Some(m) => append_str(&mut chars, m),
        None => {},
    }
    append_str(&mut chars, ":");
    append_decimal(&mut chars, quantity as u64);
    proof {
        match material_id {
            Some(m) => {},
            None => {
                assert(chars@ =~= "craft_shop_item:"@ + instance_id@ + ":"@ + recipe_id@ + ":"@ + Seq::<char>::empty() + ":"@
                    + decimal_text(quantity as nat));
            },
        }
    }
    string_from_chars(&chars)
}

/// A product a service building consumes in its service flow: it has a
/// decoded service, or its building is a service building and it has
/// material conversion options.
pub open spec fn is_service_product(product: EconomyProductDefinition, building_id: Seq<char>) -> bool {
    product.service is Some || (service_kind_for(building_id) is Some && product.conversion_options@.len() > 0)
}

/// The building offers one of the three crafting capabilities.
pub open spec fn crafting_capable(gameplay: BuildingGameplayCatalog, building_id: Seq<char>) -> bool {
    ||| offers_capability(gameplay.capabilities@, building_id, "weapon-and-armor-crafting"@)
    ||| offers_capability(gameplay.capabilities@, building_id, "potion-crafting"@)
    ||| offers_capability(gameplay.capabilities@, building_id, "accessory-crafting"@)
}

/// Display-stock capacity of a building: its level row's production slots,
/// else the service slot table, else none (0).
pub open spec fn production_capacity(catalog: BuildingCatalog, building: DurableBuilding) -> u32 {
    let level = building.level as u16;
    let slots = match find_level(catalog.levels@, building.id@, level) {
        Some(row) => row.production_slots,
        None => None,
    };
    match slots {
        Some(s) => s as u32,
        None => match capacity_spec(building.id@, level) {
            Some(c) => c as u32,
            None => 0,
        },
    }
}

/// Units of product stock held at a building instance, added saturating.
pub open spec fn stocked_units(stocks: Seq<DurableProductStock>, instance_id: Seq<char>) -> u32
    decreases stocks.len(),
{
    if stocks.len() == 0 {
        0
    } else {
        let before = stocked_units(stocks.drop_last(), instance_id);
        if stocks.last().building_instance_id@ == instance_id {
            before.saturating_add(stocks.last().quantity)
        } else {
            before
        }
    }
}

/// The conversion option of a product for a chosen material.
pub open spec fn option_for(material_id: Seq<char>) -> spec_fn(ConversionOption) -> bool {
    |o: ConversionOption| o.input_resource_id@ == material_id
}

/// The material cost of converting `quantity` units through `option`: as
/// many batches as needed (rounding up), saturating.
pub open spec fn conversion_cost(option: ConversionOption, quantity: u32) -> EconomyAmount {
    let per_batch: u64 = if option.output_stock_quantity == 0 { 1 } else { option.output_stock_quantity };
    let batches = (quantity as u64).saturating_add(option.output_stock_quantity.saturating_sub(1)) / per_batch;
    EconomyAmount {
        resource_id: option.input_resource_id,
        quantity: saturated_product(option.input_quantity, batches),
    }
}

/// A product's inputs scaled by `quantity`, saturating.
pub open spec fn scaled_inputs(inputs: Seq<EconomyAmount>, quantity: u32) -> Seq<EconomyAmount> {
    inputs.map_values(|a: EconomyAmount| EconomyAmount { quantity: saturated_product(a.quantity, quantity as u64), ..a })
}

/// Where a production order's stock goes: the product's shop, if it has
/// one (the first placed building of that base), else the producer.
pub open spec fn stock_building(buildings: Seq<DurableBuilding>, producer: int, product: EconomyProductDefinition) -> Option<int> {
    match sale_building_of(product) {
        Some(shop) => first_index(buildings, building_has_base(shop)),
        None => Some(producer),
    }
}

/// The costs of a production order, if its material choice is valid.
pub open spec fn craft_costs(
    product: EconomyProductDefinition,
    service_product: bool,
    material_id: Option<Seq<char>>,
    quantity: u32,
) -> Option<Seq<EconomyAmount>> {
    if service_product {
        match material_id {
            None => None,
            Some(m) => match first_index(product.conversion_options@, option_for(m)) {
                None => None,
                Some(o) => Some(seq![conversion_cost(product.conversion_options@[o], quantity)]),
            },
        }
    } else {
        Some(scaled_inputs(product.inputs@, quantity))
    }
}

/// How a production order is answered.
pub enum CraftDecision {
    /// Accepted again with no change: the command id was already used for
    /// this order.
    Replay,
    /// Refused with a reason, with no change.
    Reject(Seq<char>),
    /// Accepted: the costs are paid and the stock grows.
    Produce,
}

/// The decision on a production order, checks in order.
pub open spec fn craft_decision(
    session: OriginalFlowSession,
    command_id: u128,
    instance_id: Seq<char>,
    recipe_id: Seq<char>,
    material_id: Option<Seq<char>>,
    quantity: u32,
) -> CraftDecision {
    let buildings = session.buildings.buildings@;
    let gameplay = session.building_content.gameplay;
    if !world_active(session.state.screen) {
        CraftDecision::Reject("village_unavailable"@)
    } else if command_id != 0 && command_key(session.hunter_roster.hunt_commands@, command_id) is Some {
        if command_key(session.hunter_roster.hunt_commands@, command_id) == Some(
            craft_key(instance_id, recipe_id, material_id, quantity),
        ) {
            CraftDecision::Replay
        } else {
            CraftDecision::Reject("command_id_conflict"@)
        }
    } else {
        match first_index(buildings, building_has_instance(instance_id)) {
            None => CraftDecision::Reject("building_instance_unknown"@),
            Some(b) => {
                let building = buildings[b];
                if !(1 <= quantity <= MAX_PRODUCTION_QUANTITY) {
                    CraftDecision::Reject("quantity_invalid"@)
                } else if !is_base_building_id(building.id@) {
                    CraftDecision::Reject("building_unknown"@)
                } else {
                    match find_product(gameplay.products@, recipe_id) {
                        None => CraftDecision::Reject("recipe_unknown"@),
                        Some(product) => if !(product.building_id matches Some(owner) && owner@ == building.id@) {
                            CraftDecision::Reject("recipe_building_mismatch"@)
                        } else {
                            let service_product = is_service_product(product, building.id@);
                            if product.gear_route matches Some(route) && route.difficulty_group > building.level as u16 {
                                CraftDecision::Reject("product_level_locked"@)
                            } else if product.gear_route is Some {
                                CraftDecision::Reject("gear_creation_evidence_unresolved"@)
                            } else if !crafting_capable(gameplay, building.id@) && !service_product {
                                CraftDecision::Reject("building_capability_mismatch"@)
                            } else {
                                match stock_building(buildings, b, product) {
                                    None => CraftDecision::Reject("sale_building_instance_unknown"@),
                                    Some(s) => {
                                        let target = buildings[s];
                                        let capacity = production_capacity(session.building_content.catalog, target);
                                        let stocked = stocked_units(
                                            session.buildings.product_stocks@,
                                            target.instance_id@,
                                        );
                                        if !service_product && capacity > 0 && stocked.saturating_add(quantity)
                                            > capacity {
                                            CraftDecision::Reject("product_capacity_exceeded"@)
                                        } else {
                                            match craft_costs(product, service_product, material_id, quantity) {
                                                None => if material_id is None {
                                                    CraftDecision::Reject("material_selection_required"@)
                                                } else {
                                                    CraftDecision::Reject("material_selection_invalid"@)
                                                },
                                                Some(costs) => if !costs_payable(ledger(session.buildings), costs)
                                                    || !payable_in_turn(ledger(session.buildings), costs) {
                                                    CraftDecision::Reject("insufficient_materials"@)
                                                } else {
                                                    CraftDecision::Produce
                                                },
                                            }
                                        }
                                    },
                                }
                            }
                        },
                    }
                }
            },
        }
    }
}

/// The effect of an accepted production order: its costs paid, the target
/// stock raised by `quantity` (saturating) or created, and the command id
/// recorded; nothing else changes.
pub open spec fn produced(
    before: OriginalFlowSession,
    after: OriginalFlowSession,
    command_id: u128,
    instance_id: Seq<char>,
    recipe_id: Seq<char>,
    material_id: Option<Seq<char>>,
    quantity: u32,
) -> bool {
    let buildings = before.buildings.buildings@;
    let b = first_index(buildings, building_has_instance(instance_id)).unwrap();
    let product = find_product(before.building_content.gameplay.products@, recipe_id).unwrap();
    let service_product = is_service_product(product, buildings[b].id@);
    let target = buildings[stock_building(buildings, b, product).unwrap()];
    let costs = craft_costs(product, service_product, material_id, quantity).unwrap();
    let stocks = before.buildings.product_stocks@;
    &&& ledger(after.buildings) == pay_all(ledger(before.buildings), costs)
    &&& match first_index(stocks, stock_for(target.instance_id@, recipe_id)) {
        Some(i) => after.buildings.product_stocks@ == stocks.update(
            i,
            DurableProductStock { quantity: stocks[i].quantity.saturating_add(quantity), ..stocks[i] },
        ),
        None => {
            &&& after.buildings.product_stocks@.len() == stocks.len() + 1
            &&& after.buildings.product_stocks@.drop_last() == stocks
            &&& after.buildings.product_stocks@.last().building_instance_id == target.instance_id
            &&& after.buildings.product_stocks@.last().product_id@ == recipe_id
            &&& after.buildings.product_stocks@.last().quantity == quantity
        },
    }
    &&& after.buildings == DurableBuildingState {
        town_gold: after.buildings.town_gold,
        material_stocks: after.buildings.material_stocks,
        product_stocks: after.buildings.product_stocks,
        ..before.buildings
    }
    &&& after.hunter_roster.hunt_commands@ == (if command_id != 0 {
        before.hunter_roster.hunt_commands@.push(
            HuntCommandRecord { command_id, key: after.hunter_roster.hunt_commands@.last().key },
        )
    } else {
        before.hunter_roster.hunt_commands@
    })
    &&& command_id != 0 ==> after.hunter_roster.hunt_commands@.last().key@ == craft_key(
        instance_id,
        recipe_id,
        material_id,
        quantity,
    )
    &&& after == OriginalFlowSession {
        buildings: after.buildings,
        hunter_roster: crate::roster::DurableHunterRosterState {
            hunt_commands: after.hunter_roster.hunt_commands,
            ..before.hunter_roster
        },
        ..before
    }
}

/// The reply to and effect of a production order.
pub open spec fn craft_outcome(
    before: OriginalFlowSession,
    after: OriginalFlowSession,
    command_id: u128,
    instance_id: Seq<char>,
    recipe_id: Seq<char>,
    material_id: Option<Seq<char>>,
    quantity: u32,
    message: ServerMessage,
) -> bool {
    match craft_decision(before, command_id, instance_id, recipe_id, material_id, quantity) {
        CraftDecision::Replay => is_accepted(message, "craft_shop_item"@) && after == before,
        CraftDecision::Reject(reason) => is_rejected(message, "craft_shop_item"@, reason) && after == before,
        CraftDecision::Produce => is_accepted(message, "craft_shop_item"@) && produced(
            before,
            after,
            command_id,
            instance_id,
            recipe_id,
            material_id,
            quantity,
        ),
    }
}

/// Whether the building offers one of the three crafting capabilities.
fn is_crafting_capable(gameplay: &BuildingGameplayCatalog, building_id: &str) -> (capable: bool)
    ensures
        capable == crafting_capable(*gameplay, building_id@),
{
    gameplay.has_capability(building_id, "weapon-and-armor-crafting") || gameplay.has_capability(
        building_id,
        "potion-crafting",
    ) || gameplay.has_capability(building_id, "accessory-crafting")
}

/// Display-stock capacity of a building (see [`production_capacity`]).
fn building_production_capacity(catalog: &BuildingCatalog, building: &DurableBuilding) -> (capacity: u32)
    ensures
        capacity == production_capacity(*catalog, *building),
{
    let level = building.level as u16;
    let slots = match catalog.level(building.id.as_str(), level) {
        Some(row) => row.production_slots,
        None => None,
    };
    match slots {
        Some(s) => s as u32,
        None => match capacity_for_level(building.id.as_str(), level) {
            Some(c) => c as u32,
            None => 0,
        },
    }
}

/// Units of product stock held at a building instance.
fn count_stocked_units(stocks: &Vec<DurableProductStock>, instance_id: &str) -> (units: u32)
    ensures
        units == stocked_units(stocks@, instance_id@),
{
    let mut units: u32 = 0;
    let mut i: usize = 0;
    while i < stocks.len()
        invariant
            0 <= i <= stocks@.len(),
            units == stocked_units(stocks@.take(i as int), instance_id@),
        decreases stocks@.len() - i,
    {
        assert(stocks@.take(i + 1).drop_last() =~= stocks@.take(i as int));
        if str_eq(stocks[i].building_instance_id.as_str(), instance_id) {
            units = units.saturating_add(stocks[i].quantity);
        }
        i = i + 1;
    }
    assert(stocks@.take(stocks@.len() as int) =~= stocks@);
    units
}

/// Finds a product's conversion option for a chosen material.
fn find_conversion_option(options: &Vec<ConversionOption>, material_id: &str) -> (index: Option<usize>)
    ensures
        index matches Some(i) ==> first_index(options@, option_for(material_id@)) == Some(i as int) && i < options@.len(),
        index is None ==> first_index(options@, option_for(material_id@)) is None,
{
    let ghost p = option_for(material_id@);
    let mut i: usize = 0;
    while i < options.len()
        invariant
            0 <= i <= options@.len(),
            p == option_for(material_id@),
            forall|j: int| 0 <= j < i ==> !p(#[trigger] options@[j]),
        decreases options@.len() - i,
    {
        if str_eq(options[i].input_resource_id.as_str(), material_id) {
            proof {
                lemma_first_index_is(options@, p, i as int);
            }
            return Some(i);
        }
        i = i + 1;
    }
    proof {
        lemma_first_index_none(options@, p);
    }
    None
}

/// A product's inputs scaled by `quantity`.
fn scale_inputs(inputs: &Vec<EconomyAmount>, quantity: u32) -> (costs: Vec<EconomyAmount>)
    ensures
        costs@ == scaled_inputs(inputs@, quantity),
{
    let mut costs: Vec<EconomyAmount> = Vec::new();
    let mut i: usize = 0;
    while i < inputs.len()
        invariant
            0 <= i <= inputs@.len(),
            costs@ == scaled_inputs(inputs@.take(i as int), quantity),
        decreases inputs@.len() - i,
    {
        costs.push(
            EconomyAmount {
                resource_id: inputs[i].resource_id.clone(),
                quantity: saturating_product(inputs[i].quantity, quantity as u64),
            },
        );
        assert(scaled_inputs(inputs@.take(i + 1), quantity) =~= scaled_inputs(inputs@.take(i as int), quantity).push(
            EconomyAmount { quantity: saturated_product(inputs@[i as int].quantity, quantity as u64), ..inputs@[i as int] },
        ));
        i = i + 1;
    }
    assert(inputs@.take(inputs@.len() as int) =~= inputs@);
    costs
}

/// The outcome of checking a production order.
pub enum CraftPlan {
    Replay,
    Reject(&'static str),
    Produce { target: usize, costs: Vec<EconomyAmount> },
}

impl OriginalFlowSession {
    /// Checks a production order (see [`craft_decision`]); an order to
    /// produce comes with its target building and costs.
    fn craft_plan(
        &self,
        command_id: u128,
        instance_id: &str,
        recipe_id: &str,
        material_id: Option<&str>,
        quantity: u32,
        key: &String,
    ) -> (plan: CraftPlan)
        requires
            key@ == craft_key(instance_id@, recipe_id@, match material_id {
                Some(m) => Some(m@),
                None => None,
            }, quantity),
        ensures
            ({
                let material = match material_id {
                    Some(m) => Some(m@),
                    None => None,
                };
                match plan {
                    CraftPlan::Replay => craft_decision(*self, command_id, instance_id@, recipe_id@, material, quantity)
                        is Replay,
                    CraftPlan::Reject(reason) => craft_decision(
                        *self,
                        command_id,
                        instance_id@,
                        recipe_id@,
                        material,
                        quantity,
                    ) == CraftDecision::Reject(reason@),
                    CraftPlan::Produce { target, costs } => {
                        let buildings = self.buildings.buildings@;
                        let b = first_index(buildings, building_has_instance(instance_id@)).unwrap();
                        let product = find_product(self.building_content.gameplay.products@, recipe_id@).unwrap();
                        &&& craft_decision(*self, command_id, instance_id@, recipe_id@, material, quantity) is Produce
                        &&& stock_building(buildings, b, product) == Some(target as int)
                        &&& target < buildings.len()
                        &&& craft_costs(product, is_service_product(product, buildings[b].id@), material, quantity)
                            == Some(costs@)
                        &&& costs_payable(ledger(self.buildings), costs@)
                        &&& payable_in_turn(ledger(self.buildings), costs@)
                    },
                }
            }),
    {
        if !self.shared_world_active() {
            return CraftPlan::Reject("village_unavailable");
        }
        if command_id != 0 {
            match self.hunter_roster.command_key(command_id) {
                Some(previous) => {
                    return if str_eq(previous.as_str(), key.as_str()) {
                        CraftPlan::Replay
                    } else {
                        CraftPlan::Reject("command_id_conflict")
                    };
                },
                None => {},
            }
        }
        let b = match find_building_by_instance(&self.buildings.buildings, instance_id) {
            Some(b) => b,
            None => {
                return CraftPlan::Reject("building_instance_unknown");
            },
        };
        if !(1 <= quantity && quantity <= MAX_PRODUCTION_QUANTITY) {
            return CraftPlan::Reject("quantity_invalid");
        }
        if !base_building_id_valid(self.buildings.buildings[b].id.as_str()) {
            return CraftPlan::Reject("building_unknown");
        }
        let product = match self.building_content.gameplay.product(recipe_id) {
            Some(product) => product,
            None => {
                return CraftPlan::Reject("recipe_unknown");
            },
        };
        let owner_matches = match &product.building_id {
            Some(owner) => str_eq(owner.as_str(), self.buildings.buildings[b].id.as_str()),
            None => false,
        };
        if !owner_matches {
            return CraftPlan::Reject("recipe_building_mismatch");
        }
        let service_product = product.service.is_some() || (ServiceEffectKind::for_building(
            self.buildings.buildings[b].id.as_str(),
        ).is_some() && product.conversion_options.len() > 0);
        match &product.gear_route {
            Some(route) => {
                if route.difficulty_group > self.buildings.buildings[b].level as u16 {
                    return CraftPlan::Reject("product_level_locked");
                }
                return CraftPlan::Reject("gear_creation_evidence_unresolved");
            },
            None => {},
        }
        if !is_crafting_capable(&self.building_content.gameplay, self.buildings.buildings[b].id.as_str())
            && !service_product {
            return CraftPlan::Reject("building_capability_mismatch");
        }
        let target = match product_sale_building_id(&self.building_content.gameplay, product) {
            Some(shop) => match find_building_by_base(&self.buildings.buildings, shop.as_str()) {
                Some(s) => s,
                None => {
                    return CraftPlan::Reject("sale_building_instance_unknown");
                },
            },
            None => b,
        };
        let capacity = building_production_capacity(&self.building_content.catalog, &self.buildings.buildings[target]);
        let stocked = count_stocked_units(
            &self.buildings.product_stocks,
            self.buildings.buildings[target].instance_id.as_str(),
        );
        if !service_product && capacity > 0 && stocked.saturating_add(quantity) > capacity {
            return CraftPlan::Reject("product_capacity_exceeded");
        }
        let costs: Vec<EconomyAmount> = if service_product {
            let material = match material_id {
                Some(m) => m,
                None => {
                    return CraftPlan::Reject("material_selection_required");
                },
            };
            let o = match find_conversion_option(&product.conversion_options, material) {
                Some(o) => o,
                None => {
                    return CraftPlan::Reject("material_selection_invalid");
                },
            };
            let option = &product.conversion_options[o];
            let per_batch: u64 = if option.output_stock_quantity == 0 {
                1
            } else {
                option.output_stock_quantity
            };
            let batches = (quantity as u64).saturating_add(option.output_stock_quantity.saturating_sub(1)) / per_batch;
            let mut single: Vec<EconomyAmount> = Vec::new();
            single.push(
                EconomyAmount {
                    resource_id: option.input_resource_id.clone(),
                    quantity: saturating_product(option.input_quantity, batches),
                },
            );
            assert(single@ =~= seq![conversion_cost(product.conversion_options@[o as int], quantity)]);
            single
        } else {
            scale_inputs(&product.inputs, quantity)
        };
        if !can_pay_costs(&self.buildings, &costs) || !can_pay_in_turn(&self.buildings, &costs) {
            return CraftPlan::Reject("insufficient_materials");
        }
        CraftPlan::Produce { target, costs }
    }

    /// A production order at building `instance_id` for `quantity` units of
    /// `recipe_id`, converting `material_id` for service products (see
    /// [`craft_decision`] and [`produced`]).
    #[verifier::rlimit(30)]
    pub fn craft_shop_item(
        &mut self,
        command_id: u128,
        instance_id: &str,
        recipe_id: &str,
        material_id: Option<&str>,
        quantity: u32,
    ) -> (message: ServerMessage)
        ensures
            craft_outcome(
                *old(self),
                *final(self),
                command_id,
                instance_id@,
                recipe_id@,
                match material_id {
                    Some(m) => Some(m@),
                    None => None,
                },
                quantity,
                message,
            ),
    {
        let intent = "craft_shop_item";
        let key = craft_key_text(instance_id, recipe_id, material_id, quantity);
        let (target, costs) = match self.craft_plan(command_id, instance_id, recipe_id, material_id, quantity, &key) {
            CraftPlan::Replay => {
                return self.accepted(intent);
            },
            CraftPlan::Reject(reason) => {
                return self.rejected(intent, reason);
            },
            CraftPlan::Produce { target, costs } => (target, costs),
        };
        let target_instance = self.buildings.buildings[target].instance_id.clone();
        let ghost before = *self;
        pay_costs(&mut self.buildings, &costs);
        match find_product_stock(&self.buildings.product_stocks, target_instance.as_str(), recipe_id) {
            Some(s) => {
                let raised = self.buildings.product_stocks[s].quantity.saturating_add(quantity);
                self.buildings.product_stocks[s].quantity = raised;
            },
            None => {
                self.buildings.product_stocks.push(
                    DurableProductStock {
                        building_instance_id: target_instance,
                        product_id: recipe_id.to_owned(),
                        quantity,
                    },
                );
                assert(self.buildings.product_stocks@.drop_last() =~= before.buildings.product_stocks@);
            },
        }
        if command_id != 0 {
            self.hunter_roster.record_command(command_id, key);
        }
        self.accepted(intent)
    }
}

/// The units a conversion batch yields; an option yielding 0 counts as 1.
pub open spec fn batch_size(option: ConversionOption) -> int {
    if option.output_stock_quantity == 0 {
        1
    } else {
        option.output_stock_quantity as int
    }
}

/// `batches` batches of `per` units are the fewest that hold `quantity`
/// units.
pub open spec fn covering_batches(quantity: int, per: int, batches: int) -> bool {
    0 <= batches && quantity <= batches * per && batches * per < quantity + per
}

/// A conversion order pays for whole batches: the material cost is the
/// option's input quantity times the fewest batches of
/// `output_stock_quantity` units (an output of 0 counts as 1) that cover the
/// order, saturating at `u64::MAX`; so an order of any units costs at least
/// one batch.
pub proof fn lemma_conversion_cost_covers_order(option: ConversionOption, quantity: u32)
    ensures
        conversion_cost(option, quantity).resource_id == option.input_resource_id,
        ({
            exists|batches: int|
                #[trigger] covering_batches(quantity as int, batch_size(option), batches) && conversion_cost(option, quantity).quantity == (if option.input_quantity * batches > u64::MAX {
                    u64::MAX as int
                } else {
                    option.input_quantity * batches
                })
        }),
        quantity > 0 ==> conversion_cost(option, quantity).quantity >= option.input_quantity,
{
    let out = option.output_stock_quantity;
    let per: int = if out == 0 { 1 } else { out as int };
    let raw: int = quantity + (if out == 0 { 0int } else { out - 1 });
    let summed: int = if raw > u64::MAX { u64::MAX as int } else { raw };
    let b: int = summed / per;
    vstd::arithmetic::div_mod::lemma_fundamental_div_mod(summed, per);
    assert(summed == per * b + summed % per);
    assert(0 <= summed % per < per);
    assert((quantity as u64).saturating_add(out.saturating_sub(1)) == summed);
    if raw > u64::MAX {
        assert(out > u64::MAX / 2);
        assert(quantity >= 1);
        assert(b == 1) by (nonlinear_arith)
            requires
                summed == per * b + summed % per,
                0 <= summed % per < per,
                per > u64::MAX / 2,
                per <= u64::MAX,
                summed == u64::MAX,
        ;
    } else {
        assert(b * per == per * b) by (nonlinear_arith);
    }
    assert(b >= 0) by (nonlinear_arith)
        requires
            summed >= 0,
            per > 0,
            b == summed / per,
    ;
    assert(quantity <= b * per && b * per < quantity + per) by (nonlinear_arith)
        requires
            summed == per * b + summed % per,
            0 <= summed % per < per,
            raw > u64::MAX ==> b == 1 && per >= quantity && quantity >= 1,
            raw <= u64::MAX ==> summed == raw,
            raw == quantity + per - 1,
    ;
    let per_batch: u64 = if out == 0 { 1 } else { out };
    assert(per_batch as int == per);
    let batches: u64 = (quantity as u64).saturating_add(out.saturating_sub(1)) / per_batch;
    assert(batches as int == b);
    assert(conversion_cost(option, quantity).quantity == saturated_product(option.input_quantity, batches));
    assert(batch_size(option) == per);
    assert(covering_batches(quantity as int, per, b));
    if quantity > 0 {
        assert(b >= 1) by (nonlinear_arith)
            requires
                quantity <= b * per,
                quantity > 0,
                per > 0,
                b >= 0,
        ;
        assert(option.input_quantity * b >= option.input_quantity) by (nonlinear_arith)
            requires
                b >= 1,
        ;
    }
}

/// An accepted order for a crafted (non-service) product never fills the
/// receiving building past its display capacity, when it has one: the units
/// already stocked there plus the order fit.
pub proof fn lemma_craft_respects_capacity(
    session: OriginalFlowSession,
    command_id: u128,
    instance_id: Seq<char>,
    recipe_id: Seq<char>,
    material_id: Option<Seq<char>>,
    quantity: u32,
)
    requires
        craft_decision(session, command_id, instance_id, recipe_id, material_id, quantity) is Produce,
    ensures
        ({
            let buildings = session.buildings.buildings@;
            let b = first_index(buildings, building_has_instance(instance_id)).unwrap();
            let product = find_product(session.building_content.gameplay.products@, recipe_id).unwrap();
            let target = buildings[stock_building(buildings, b, product).unwrap()];
            let capacity = production_capacity(session.building_content.catalog, target);
            !is_service_product(product, buildings[b].id@) && capacity > 0 ==> stocked_units(
                session.buildings.product_stocks@,
                target.instance_id@,
            ) + quantity <= capacity
        }),
        1 <= quantity <= MAX_PRODUCTION_QUANTITY,
{
}

} // verus!
