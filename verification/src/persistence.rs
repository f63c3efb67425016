use vstd::prelude::*;

use crate::contracts::{DurableBuilding, DurableBuildingState, DurableCraftedGearStock, DurableInfirmaryTreatment, DurableLegacyInfirmaryState, DurableMaterialStock, DurableMonsterFieldConfig, DurableMonsterMapDensity, DurablePlayerAggregate, DurableProductServiceState, DurableProductServiceVisit, DurableProductStock, DurableTradeSettlement, HunterAgentState};
use crate::roster::{DurableHunterTrait, DurableEquipmentSlot, DurableGearEnhancementAttempt, DurableGearEnhancementTask, DurableHunterHunt, DurableHunterLoot, DurableHunterOwnedItem, DurableHunterProfile, DurableHunterRosterState, DurableHunterSkill, DurableHunterState, DurableHunterTradeTask, DurableWaitingHunter, HuntCommandRecord};
use crate::text::str_eq;

verus! {

/// Two optional strings hold the same text.
pub open spec fn same_text(a: Option<String>, b: Option<String>) -> bool {
    match (a, b) {
        (Some(x), Some(y)) => x@ == y@,
        (None, None) => true,
        _ => false,
    }
}

/// A copy of an optional string.
pub fn copy_text(a: &Option<String>) -> (r: Option<String>)
    ensures
        r == *a,
{
    match a {
        Some(s) => Some(s.clone()),
        None => None,
    }
}

/// Whether two optional strings hold the same text.
pub fn equal_text(a: &Option<String>, b: &Option<String>) -> (r: bool)
    ensures
        r == same_text(*a, *b),
{
    match (a, b) {
        (Some(x), Some(y)) => str_eq(x.as_str(), y.as_str()),
        (None, None) => true,
        _ => false,
    }
}

/// Two material stock values hold the same content.
pub open spec fn same_material_stock(a: DurableMaterialStock, b: DurableMaterialStock) -> bool {
    &&& a.id@ == b.id@
    &&& a.town_quantity == b.town_quantity
    &&& a.hunter_quantity == b.hunter_quantity
    &&& a.requested == b.requested
    &&& a.unit_price == b.unit_price
}

/// Two sequences hold the same material stock values, in order.
pub open spec fn same_material_stocks(a: Seq<DurableMaterialStock>, b: Seq<DurableMaterialStock>) -> bool {
    a.len() == b.len() && forall|i: int| 0 <= i < a.len() ==> #[trigger] same_material_stock(a[i], b[i])
}

/// A copy of a material stock value.
pub fn copy_material_stock(a: &DurableMaterialStock) -> (r: DurableMaterialStock)
    ensures
        r == *a,
{
    DurableMaterialStock {
        id: a.id.clone(),
        town_quantity: a.town_quantity,
        hunter_quantity: a.hunter_quantity,
        requested: a.requested,
        unit_price: a.unit_price,
    }
}

/// Whether two material stock values hold the same content.
pub fn equal_material_stock(a: &DurableMaterialStock, b: &DurableMaterialStock) -> (r: bool)
    ensures
        r == same_material_stock(*a, *b),
{
    str_eq(a.id.as_str(), b.id.as_str())
        && a.town_quantity == b.town_quantity
        && a.hunter_quantity == b.hunter_quantity
        && a.requested == b.requested
        && a.unit_price == b.unit_price
}

/// A copy of a sequence of material stock values.
pub fn copy_material_stocks(a: &Vec<DurableMaterialStock>) -> (r: Vec<DurableMaterialStock>)
    ensures
        r@ == a@,
{
    let mut r: Vec<DurableMaterialStock> = Vec::new();
    let mut i: usize = 0;
    while i < a.len()
        invariant
            0 <= i <= a@.len(),
            r@.len() == i,
            forall|k: int| 0 <= k < i ==> r@[k] == a@[k],
        decreases a@.len() - i,
    {
        r.push(copy_material_stock(&a[i]));
        i = i + 1;
    }
    assert(r@ =~= a@);
    r
}

/// Whether two sequences hold the same material stock values, in order.
pub fn equal_material_stocks(a: &Vec<DurableMaterialStock>, b: &Vec<DurableMaterialStock>) -> (r: bool)
    ensures
        r == same_material_stocks(a@, b@),
{
    if a.len() != b.len() {
        return false;
    }
    let mut i: usize = 0;
    while i < a.len()
        invariant
            0 <= i <= a@.len(),
            a@.len() == b@.len(),
            forall|k: int| 0 <= k < i ==> #[trigger] same_material_stock(a@[k], b@[k]),
        decreases a@.len() - i,
    {
        if !equal_material_stock(&a[i], &b[i]) {
            return false;
        }
        i = i + 1;
    }
    true
}

/// Two product stock values hold the same content.
pub open spec fn same_product_stock(a: DurableProductStock, b: DurableProductStock) -> bool {
    &&& a.building_instance_id@ == b.building_instance_id@
    &&& a.product_id@ == b.product_id@
    &&& a.quantity == b.quantity
}

/// Two sequences hold the same product stock values, in order.
pub open spec fn same_product_stocks(a: Seq<DurableProductStock>, b: Seq<DurableProductStock>) -> bool {
    a.len() == b.len() && forall|i: int| 0 <= i < a.len() ==> #[trigger] same_product_stock(a[i], b[i])
}

/// A copy of a product stock value.
pub fn copy_product_stock(a: &DurableProductStock) -> (r: DurableProductStock)
    ensures
        r == *a,
{
    DurableProductStock {
        building_instance_id: a.building_instance_id.clone(),
        product_id: a.product_id.clone(),
        quantity: a.quantity,
    }
}

/// Whether two product stock values hold the same content.
pub fn equal_product_stock(a: &DurableProductStock, b: &DurableProductStock) -> (r: bool)
    ensures
        r == same_product_stock(*a, *b),
{
    str_eq(a.building_instance_id.as_str(), b.building_instance_id.as_str())
        && str_eq(a.product_id.as_str(), b.product_id.as_str())
        && a.quantity == b.quantity
}

/// A copy of a sequence of product stock values.
pub fn copy_product_stocks(a: &Vec<DurableProductStock>) -> (r: Vec<DurableProductStock>)
    ensures
        r@ == a@,
{
    let mut r: Vec<DurableProductStock> = Vec::new();
    let mut i: usize = 0;
    while i < a.len()
        invariant
            0 <= i <= a@.len(),
            r@.len() == i,
            forall|k: int| 0 <= k < i ==> r@[k] == a@[k],
        decreases a@.len() - i,
    {
        r.push(copy_product_stock(&a[i]));
        i = i + 1;
    }
    assert(r@ =~= a@);
    r
}

/// Whether two sequences hold the same product stock values, in order.
pub fn equal_product_stocks(a: &Vec<DurableProductStock>, b: &Vec<DurableProductStock>) -> (r: bool)
    ensures
        r == same_product_stocks(a@, b@),
{
    if a.len() != b.len() {
        return false;
    }
    let mut i: usize = 0;
    while i < a.len()
        invariant
            0 <= i <= a@.len(),
            a@.len() == b@.len(),
            forall|k: int| 0 <= k < i ==> #[trigger] same_product_stock(a@[k], b@[k]),
        decreases a@.len() - i,
    {
        if !equal_product_stock(&a[i], &b[i]) {
            return false;
        }
        i = i + 1;
    }
    true
}

/// Two crafted gear stock values hold the same content.
pub open spec fn same_crafted_gear_stock(a: DurableCraftedGearStock, b: DurableCraftedGearStock) -> bool {
    &&& a.building_instance_id@ == b.building_instance_id@
    &&& a.gear_instance_id == b.gear_instance_id
    &&& a.product_id@ == b.product_id@
    &&& a.gear_kind@ == b.gear_kind@
    &&& a.rating == b.rating
    &&& a.quality == b.quality
    &&& a.primary_stat == b.primary_stat
    &&& a.option_type == b.option_type
    &&& a.option_value == b.option_value
    &&& a.icon_path@ == b.icon_path@
    &&& a.ruleset@ == b.ruleset@
}

/// Two sequences hold the same crafted gear stock values, in order.
pub open spec fn same_crafted_gear_stocks(a: Seq<DurableCraftedGearStock>, b: Seq<DurableCraftedGearStock>) -> bool {
    a.len() == b.len() && forall|i: int| 0 <= i < a.len() ==> #[trigger] same_crafted_gear_stock(a[i], b[i])
}

/// A copy of a crafted gear stock value.
pub fn copy_crafted_gear_stock(a: &DurableCraftedGearStock) -> (r: DurableCraftedGearStock)
    ensures
        r == *a,
{
    DurableCraftedGearStock {
        building_instance_id: a.building_instance_id.clone(),
        gear_instance_id: a.gear_instance_id,
        product_id: a.product_id.clone(),
        gear_kind: a.gear_kind.clone(),
        rating: a.rating,
        quality: a.quality,
        primary_stat: a.primary_stat,
        option_type: a.option_type,
        option_value: a.option_value,
        icon_path: a.icon_path.clone(),
        ruleset: a.ruleset.clone(),
    }
}

/// Whether two crafted gear stock values hold the same content.
pub fn equal_crafted_gear_stock(a: &DurableCraftedGearStock, b: &DurableCraftedGearStock) -> (r: bool)
    ensures
        r == same_crafted_gear_stock(*a, *b),
{
    str_eq(a.building_instance_id.as_str(), b.building_instance_id.as_str())
        && a.gear_instance_id == b.gear_instance_id
        && str_eq(a.product_id.as_str(), b.product_id.as_str())
        && str_eq(a.gear_kind.as_str(), b.gear_kind.as_str())
        && a.rating == b.rating
        && a.quality == b.quality
        && a.primary_stat == b.primary_stat
        && a.option_type == b.option_type
        && a.option_value == b.option_value
        && str_eq(a.icon_path.as_str(), b.icon_path.as_str())
        && str_eq(a.ruleset.as_str(), b.ruleset.as_str())
}

/// A copy of a sequence of crafted gear stock values.
pub fn copy_crafted_gear_stocks(a: &Vec<DurableCraftedGearStock>) -> (r: Vec<DurableCraftedGearStock>)
    ensures
        r@ == a@,
{
    let mut r: Vec<DurableCraftedGearStock> = Vec::new();
    let mut i: usize = 0;
    while i < a.len()
        invariant
            0 <= i <= a@.len(),
            r@.len() == i,
            forall|k: int| 0 <= k < i ==> r@[k] == a@[k],
        decreases a@.len() - i,
    {
        r.push(copy_crafted_gear_stock(&a[i]));
        i = i + 1;
    }
    assert(r@ =~= a@);
    r
}

/// Whether two sequences hold the same crafted gear stock values, in order.
pub fn equal_crafted_gear_stocks(a: &Vec<DurableCraftedGearStock>, b: &Vec<DurableCraftedGearStock>) -> (r: bool)
    ensures
        r == same_crafted_gear_stocks(a@, b@),
{
    if a.len() != b.len() {
        return false;
    }
    let mut i: usize = 0;
    while i < a.len()
        invariant
            0 <= i <= a@.len(),
            a@.len() == b@.len(),
            forall|k: int| 0 <= k < i ==> #[trigger] same_crafted_gear_stock(a@[k], b@[k]),
        decreases a@.len() - i,
    {
        if !equal_crafted_gear_stock(&a[i], &b[i]) {
            return false;
        }
        i = i + 1;
    }
    true
}

/// Two building values hold the same content.
pub open spec fn same_building(a: DurableBuilding, b: DurableBuilding) -> bool {
    &&& a.instance_id@ == b.instance_id@
    &&& a.id@ == b.id@
    &&& a.equipped_skin_id == b.equipped_skin_id
    &&& a.level == b.level
    &&& a.uses == b.uses
    &&& a.grid_x == b.grid_x
    &&& a.grid_y == b.grid_y
    &&& same_text(a.seeded_by, b.seeded_by)
}

/// Two sequences hold the same building values, in order.
pub open spec fn same_buildings(a: Seq<DurableBuilding>, b: Seq<DurableBuilding>) -> bool {
    a.len() == b.len() && forall|i: int| 0 <= i < a.len() ==> #[trigger] same_building(a[i], b[i])
}

/// A copy of a building value.
pub fn copy_building(a: &DurableBuilding) -> (r: DurableBuilding)
    ensures
        r == *a,
{
    DurableBuilding {
        instance_id: a.instance_id.clone(),
        id: a.id.clone(),
        equipped_skin_id: a.equipped_skin_id,
        level: a.level,
        uses: a.uses,
        grid_x: a.grid_x,
        grid_y: a.grid_y,
        seeded_by: copy_text(&a.seeded_by),
    }
}

/// Whether two building values hold the same content.
pub fn equal_building(a: &DurableBuilding, b: &DurableBuilding) -> (r: bool)
    ensures
        r == same_building(*a, *b),
{
    str_eq(a.instance_id.as_str(), b.instance_id.as_str())
        && str_eq(a.id.as_str(), b.id.as_str())
        && (match (a.equipped_skin_id, b.equipped_skin_id) { (Some(x), Some(y)) => x == y, (None, None) => true, _ => false })
        && a.level == b.level
        && a.uses == b.uses
        && a.grid_x == b.grid_x
        && a.grid_y == b.grid_y
        && equal_text(&a.seeded_by, &b.seeded_by)
}

/// A copy of a sequence of building values.
pub fn copy_buildings(a: &Vec<DurableBuilding>) -> (r: Vec<DurableBuilding>)
    ensures
        r@ == a@,
{
    let mut r: Vec<DurableBuilding> = Vec::new();
    let mut i: usize = 0;
    while i < a.len()
        invariant
            0 <= i <= a@.len(),
            r@.len() == i,
            forall|k: int| 0 <= k < i ==> r@[k] == a@[k],
        decreases a@.len() - i,
    {
        r.push(copy_building(&a[i]));
        i = i + 1;
    }
    assert(r@ =~= a@);
    r
}

/// Whether two sequences hold the same building values, in order.
pub fn equal_buildings(a: &Vec<DurableBuilding>, b: &Vec<DurableBuilding>) -> (r: bool)
    ensures
        r == same_buildings(a@, b@),
{
    if a.len() != b.len() {
        return false;
    }
    let mut i: usize = 0;
    while i < a.len()
        invariant
            0 <= i <= a@.len(),
            a@.len() == b@.len(),
            forall|k: int| 0 <= k < i ==> #[trigger] same_building(a@[k], b@[k]),
        decreases a@.len() - i,
    {
        if !equal_building(&a[i], &b[i]) {
            return false;
        }
        i = i + 1;
    }
    true
}

/// Two trade settlement values hold the same content.
pub open spec fn same_trade_settlement(a: DurableTradeSettlement, b: DurableTradeSettlement) -> bool {
    &&& a.settlement_id@ == b.settlement_id@
    &&& a.field_trip_id == b.field_trip_id
    &&& a.material_id@ == b.material_id@
    &&& a.quantity == b.quantity
    &&& a.unit_price == b.unit_price
    &&& a.total_gold == b.total_gold
}

/// Two sequences hold the same trade settlement values, in order.
pub open spec fn same_trade_settlements(a: Seq<DurableTradeSettlement>, b: Seq<DurableTradeSettlement>) -> bool {
    a.len() == b.len() && forall|i: int| 0 <= i < a.len() ==> #[trigger] same_trade_settlement(a[i], b[i])
}

/// A copy of a trade settlement value.
pub fn copy_trade_settlement(a: &DurableTradeSettlement) -> (r: DurableTradeSettlement)
    ensures
        r == *a,
{
    DurableTradeSettlement {
        settlement_id: a.settlement_id.clone(),
        field_trip_id: a.field_trip_id,
        material_id: a.material_id.clone(),
        quantity: a.quantity,
        unit_price: a.unit_price,
        total_gold: a.total_gold,
    }
}

/// Whether two trade settlement values hold the same content.
pub fn equal_trade_settlement(a: &DurableTradeSettlement, b: &DurableTradeSettlement) -> (r: bool)
    ensures
        r == same_trade_settlement(*a, *b),
{
    str_eq(a.settlement_id.as_str(), b.settlement_id.as_str())
        && a.field_trip_id == b.field_trip_id
        && str_eq(a.material_id.as_str(), b.material_id.as_str())
        && a.quantity == b.quantity
        && a.unit_price == b.unit_price
        && a.total_gold == b.total_gold
}

/// A copy of a sequence of trade settlement values.
pub fn copy_trade_settlements(a: &Vec<DurableTradeSettlement>) -> (r: Vec<DurableTradeSettlement>)
    ensures
        r@ == a@,
{
    let mut r: Vec<DurableTradeSettlement> = Vec::new();
    let mut i: usize = 0;
    while i < a.len()
        invariant
            0 <= i <= a@.len(),
            r@.len() == i,
            forall|k: int| 0 <= k < i ==> r@[k] == a@[k],
        decreases a@.len() - i,
    {
        r.push(copy_trade_settlement(&a[i]));
        i = i + 1;
    }
    assert(r@ =~= a@);
    r
}

/// Whether two sequences hold the same trade settlement values, in order.
pub fn equal_trade_settlements(a: &Vec<DurableTradeSettlement>, b: &Vec<DurableTradeSettlement>) -> (r: bool)
    ensures
        r == same_trade_settlements(a@, b@),
{
    if a.len() != b.len() {
        return false;
    }
    let mut i: usize = 0;
    while i < a.len()
        invariant
            0 <= i <= a@.len(),
            a@.len() == b@.len(),
            forall|k: int| 0 <= k < i ==> #[trigger] same_trade_settlement(a@[k], b@[k]),
        decreases a@.len() - i,
    {
        if !equal_trade_settlement(&a[i], &b[i]) {
            return false;
        }
        i = i + 1;
    }
    true
}

/// Two map density values hold the same content.
pub open spec fn same_map_density(a: DurableMonsterMapDensity, b: DurableMonsterMapDensity) -> bool {
    &&& a.map_id@ == b.map_id@
    &&& a.density_level == b.density_level
}

/// Two sequences hold the same map density values, in order.
pub open spec fn same_map_densities(a: Seq<DurableMonsterMapDensity>, b: Seq<DurableMonsterMapDensity>) -> bool {
    a.len() == b.len() && forall|i: int| 0 <= i < a.len() ==> #[trigger] same_map_density(a[i], b[i])
}

/// A copy of a map density value.
pub fn copy_map_density(a: &DurableMonsterMapDensity) -> (r: DurableMonsterMapDensity)
    ensures
        r == *a,
{
    DurableMonsterMapDensity {
        map_id: a.map_id.clone(),
        density_level: a.density_level,
    }
}

/// Whether two map density values hold the same content.
pub fn equal_map_density(a: &DurableMonsterMapDensity, b: &DurableMonsterMapDensity) -> (r: bool)
    ensures
        r == same_map_density(*a, *b),
{
    str_eq(a.map_id.as_str(), b.map_id.as_str())
        && a.density_level == b.density_level
}

/// A copy of a sequence of map density values.
pub fn copy_map_densities(a: &Vec<DurableMonsterMapDensity>) -> (r: Vec<DurableMonsterMapDensity>)
    ensures
        r@ == a@,
{
    let mut r: Vec<DurableMonsterMapDensity> = Vec::new();
    let mut i: usize = 0;
    while i < a.len()
        invariant
            0 <= i <= a@.len(),
            r@.len() == i,
            forall|k: int| 0 <= k < i ==> r@[k] == a@[k],
        decreases a@.len() - i,
    {
        r.push(copy_map_density(&a[i]));
        i = i + 1;
    }
    assert(r@ =~= a@);
    r
}

/// Whether two sequences hold the same map density values, in order.
pub fn equal_map_densities(a: &Vec<DurableMonsterMapDensity>, b: &Vec<DurableMonsterMapDensity>) -> (r: bool)
    ensures
        r == same_map_densities(a@, b@),
{
    if a.len() != b.len() {
        return false;
    }
    let mut i: usize = 0;
    while i < a.len()
        invariant
            0 <= i <= a@.len(),
            a@.len() == b@.len(),
            forall|k: int| 0 <= k < i ==> #[trigger] same_map_density(a@[k], b@[k]),
        decreases a@.len() - i,
    {
        if !equal_map_density(&a[i], &b[i]) {
            return false;
        }
        i = i + 1;
    }
    true
}

/// Two service visit values hold the same content.
pub open spec fn same_service_visit(a: DurableProductServiceVisit, b: DurableProductServiceVisit) -> bool {
    &&& a.hunter_id == b.hunter_id
    &&& a.building_instance_id@ == b.building_instance_id@
    &&& a.building_id@ == b.building_id@
    &&& a.product_id@ == b.product_id@
    &&& a.effect_kind == b.effect_kind
    &&& a.remaining_ms == b.remaining_ms
    &&& a.effect_value == b.effect_value
    &&& a.payment_gold == b.payment_gold
}

/// Two sequences hold the same service visit values, in order.
pub open spec fn same_service_visits(a: Seq<DurableProductServiceVisit>, b: Seq<DurableProductServiceVisit>) -> bool {
    a.len() == b.len() && forall|i: int| 0 <= i < a.len() ==> #[trigger] same_service_visit(a[i], b[i])
}

/// A copy of a service visit value.
pub fn copy_service_visit(a: &DurableProductServiceVisit) -> (r: DurableProductServiceVisit)
    ensures
        r == *a,
{
    DurableProductServiceVisit {
        hunter_id: a.hunter_id,
        building_instance_id: a.building_instance_id.clone(),
        building_id: a.building_id.clone(),
        product_id: a.product_id.clone(),
        effect_kind: a.effect_kind,
        remaining_ms: a.remaining_ms,
        effect_value: a.effect_value,
        payment_gold: a.payment_gold,
    }
}

/// Whether two service visit values hold the same content.
pub fn equal_service_visit(a: &DurableProductServiceVisit, b: &DurableProductServiceVisit) -> (r: bool)
    ensures
        r == same_service_visit(*a, *b),
{
    a.hunter_id == b.hunter_id
        && str_eq(a.building_instance_id.as_str(), b.building_instance_id.as_str())
        && str_eq(a.building_id.as_str(), b.building_id.as_str())
        && str_eq(a.product_id.as_str(), b.product_id.as_str())
        && a.effect_kind == b.effect_kind
        && a.remaining_ms == b.remaining_ms
        && a.effect_value == b.effect_value
        && a.payment_gold == b.payment_gold
}

/// A copy of a sequence of service visit values.
pub fn copy_service_visits(a: &Vec<DurableProductServiceVisit>) -> (r: Vec<DurableProductServiceVisit>)
    ensures
        r@ == a@,
{
    let mut r: Vec<DurableProductServiceVisit> = Vec::new();
    let mut i: usize = 0;
    while i < a.len()
        invariant
            0 <= i <= a@.len(),
            r@.len() == i,
            forall|k: int| 0 <= k < i ==> r@[k] == a@[k],
        decreases a@.len() - i,
    {
        r.push(copy_service_visit(&a[i]));
        i = i + 1;
    }
    assert(r@ =~= a@);
    r
}

/// Whether two sequences hold the same service visit values, in order.
pub fn equal_service_visits(a: &Vec<DurableProductServiceVisit>, b: &Vec<DurableProductServiceVisit>) -> (r: bool)
    ensures
        r == same_service_visits(a@, b@),
{
    if a.len() != b.len() {
        return false;
    }
    let mut i: usize = 0;
    while i < a.len()
        invariant
            0 <= i <= a@.len(),
            a@.len() == b@.len(),
            forall|k: int| 0 <= k < i ==> #[trigger] same_service_visit(a@[k], b@[k]),
        decreases a@.len() - i,
    {
        if !equal_service_visit(&a[i], &b[i]) {
            return false;
        }
        i = i + 1;
    }
    true
}

/// Two infirmary treatment values hold the same content.
pub open spec fn same_infirmary_treatment(a: DurableInfirmaryTreatment, b: DurableInfirmaryTreatment) -> bool {
    &&& a.hunter_id == b.hunter_id
    &&& a.building_instance_id@ == b.building_instance_id@
    &&& a.product_id@ == b.product_id@
    &&& a.remaining_ms == b.remaining_ms
    &&& a.effect_value == b.effect_value
    &&& a.payment_gold == b.payment_gold
}

/// Two sequences hold the same infirmary treatment values, in order.
pub open spec fn same_infirmary_treatments(a: Seq<DurableInfirmaryTreatment>, b: Seq<DurableInfirmaryTreatment>) -> bool {
    a.len() == b.len() && forall|i: int| 0 <= i < a.len() ==> #[trigger] same_infirmary_treatment(a[i], b[i])
}

/// A copy of a infirmary treatment value.
pub fn copy_infirmary_treatment(a: &DurableInfirmaryTreatment) -> (r: DurableInfirmaryTreatment)
    ensures
        r == *a,
{
    DurableInfirmaryTreatment {
        hunter_id: a.hunter_id,
        building_instance_id: a.building_instance_id.clone(),
        product_id: a.product_id.clone(),
        remaining_ms: a.remaining_ms,
        effect_value: a.effect_value,
        payment_gold: a.payment_gold,
    }
}

/// Whether two infirmary treatment values hold the same content.
pub fn equal_infirmary_treatment(a: &DurableInfirmaryTreatment, b: &DurableInfirmaryTreatment) -> (r: bool)
    ensures
        r == same_infirmary_treatment(*a, *b),
{
    a.hunter_id == b.hunter_id
        && str_eq(a.building_instance_id.as_str(), b.building_instance_id.as_str())
        && str_eq(a.product_id.as_str(), b.product_id.as_str())
        && a.remaining_ms == b.remaining_ms
        && a.effect_value == b.effect_value
        && a.payment_gold == b.payment_gold
}

/// A copy of a sequence of infirmary treatment values.
pub fn copy_infirmary_treatments(a: &Vec<DurableInfirmaryTreatment>) -> (r: Vec<DurableInfirmaryTreatment>)
    ensures
        r@ == a@,
{
    let mut r: Vec<DurableInfirmaryTreatment> = Vec::new();
    let mut i: usize = 0;
    while i < a.len()
        invariant
            0 <= i <= a@.len(),
            r@.len() == i,
            forall|k: int| 0 <= k < i ==> r@[k] == a@[k],
        decreases a@.len() - i,
    {
        r.push(copy_infirmary_treatment(&a[i]));
        i = i + 1;
    }
    assert(r@ =~= a@);
    r
}

/// Whether two sequences hold the same infirmary treatment values, in order.
pub fn equal_infirmary_treatments(a: &Vec<DurableInfirmaryTreatment>, b: &Vec<DurableInfirmaryTreatment>) -> (r: bool)
    ensures
        r == same_infirmary_treatments(a@, b@),
{
    if a.len() != b.len() {
        return false;
    }
    let mut i: usize = 0;
    while i < a.len()
        invariant
            0 <= i <= a@.len(),
            a@.len() == b@.len(),
            forall|k: int| 0 <= k < i ==> #[trigger] same_infirmary_treatment(a@[k], b@[k]),
        decreases a@.len() - i,
    {
        if !equal_infirmary_treatment(&a[i], &b[i]) {
            return false;
        }
        i = i + 1;
    }
    true
}

/// Two hunter agent values hold the same content.
pub open spec fn same_hunter_agent(a: HunterAgentState, b: HunterAgentState) -> bool {
    &&& a.hunter_id == b.hunter_id
    &&& a.x == b.x
    &&& a.y == b.y
    &&& same_text(a.region_id, b.region_id)
    &&& a.entry_stage == b.entry_stage
}

/// Two sequences hold the same hunter agent values, in order.
pub open spec fn same_hunter_agents(a: Seq<HunterAgentState>, b: Seq<HunterAgentState>) -> bool {
    a.len() == b.len() && forall|i: int| 0 <= i < a.len() ==> #[trigger] same_hunter_agent(a[i], b[i])
}

/// A copy of a hunter agent value.
pub fn copy_hunter_agent(a: &HunterAgentState) -> (r: HunterAgentState)
    ensures
        r == *a,
{
    HunterAgentState {
        hunter_id: a.hunter_id,
        x: a.x,
        y: a.y,
        region_id: copy_text(&a.region_id),
        entry_stage: a.entry_stage,
    }
}

/// Whether two hunter agent values hold the same content.
pub fn equal_hunter_agent(a: &HunterAgentState, b: &HunterAgentState) -> (r: bool)
    ensures
        r == same_hunter_agent(*a, *b),
{
    a.hunter_id == b.hunter_id
        && a.x == b.x
        && a.y == b.y
        && equal_text(&a.region_id, &b.region_id)
        && a.entry_stage == b.entry_stage
}

/// A copy of a sequence of hunter agent values.
pub fn copy_hunter_agents(a: &Vec<HunterAgentState>) -> (r: Vec<HunterAgentState>)
    ensures
        r@ == a@,
{
    let mut r: Vec<HunterAgentState> = Vec::new();
    let mut i: usize = 0;
    while i < a.len()
        invariant
            0 <= i <= a@.len(),
            r@.len() == i,
            forall|k: int| 0 <= k < i ==> r@[k] == a@[k],
        decreases a@.len() - i,
    {
        r.push(copy_hunter_agent(&a[i]));
        i = i + 1;
    }
    assert(r@ =~= a@);
    r
}

/// Whether two sequences hold the same hunter agent values, in order.
pub fn equal_hunter_agents(a: &Vec<HunterAgentState>, b: &Vec<HunterAgentState>) -> (r: bool)
    ensures
        r == same_hunter_agents(a@, b@),
{
    if a.len() != b.len() {
        return false;
    }
    let mut i: usize = 0;
    while i < a.len()
        invariant
            0 <= i <= a@.len(),
            a@.len() == b@.len(),
            forall|k: int| 0 <= k < i ==> #[trigger] same_hunter_agent(a@[k], b@[k]),
        decreases a@.len() - i,
    {
        if !equal_hunter_agent(&a[i], &b[i]) {
            return false;
        }
        i = i + 1;
    }
    true
}

/// Two hunter loot values hold the same content.
pub open spec fn same_hunter_loot(a: DurableHunterLoot, b: DurableHunterLoot) -> bool {
    &&& a.item_id@ == b.item_id@
    &&& a.quantity == b.quantity
}

/// Two sequences hold the same hunter loot values, in order.
pub open spec fn same_hunter_loots(a: Seq<DurableHunterLoot>, b: Seq<DurableHunterLoot>) -> bool {
    a.len() == b.len() && forall|i: int| 0 <= i < a.len() ==> #[trigger] same_hunter_loot(a[i], b[i])
}

/// A copy of a hunter loot value.
pub fn copy_hunter_loot(a: &DurableHunterLoot) -> (r: DurableHunterLoot)
    ensures
        r == *a,
{
    DurableHunterLoot {
        item_id: a.item_id.clone(),
        quantity: a.quantity,
    }
}

/// Whether two hunter loot values hold the same content.
pub fn equal_hunter_loot(a: &DurableHunterLoot, b: &DurableHunterLoot) -> (r: bool)
    ensures
        r == same_hunter_loot(*a, *b),
{
    str_eq(a.item_id.as_str(), b.item_id.as_str())
        && a.quantity == b.quantity
}

/// A copy of a sequence of hunter loot values.
pub fn copy_hunter_loots(a: &Vec<DurableHunterLoot>) -> (r: Vec<DurableHunterLoot>)
    ensures
        r@ == a@,
{
    let mut r: Vec<DurableHunterLoot> = Vec::new();
    let mut i: usize = 0;
    while i < a.len()
        invariant
            0 <= i <= a@.len(),
            r@.len() == i,
            forall|k: int| 0 <= k < i ==> r@[k] == a@[k],
        decreases a@.len() - i,
    {
        r.push(copy_hunter_loot(&a[i]));
        i = i + 1;
    }
    assert(r@ =~= a@);
    r
}

/// Whether two sequences hold the same hunter loot values, in order.
pub fn equal_hunter_loots(a: &Vec<DurableHunterLoot>, b: &Vec<DurableHunterLoot>) -> (r: bool)
    ensures
        r == same_hunter_loots(a@, b@),
{
    if a.len() != b.len() {
        return false;
    }
    let mut i: usize = 0;
    while i < a.len()
        invariant
            0 <= i <= a@.len(),
            a@.len() == b@.len(),
            forall|k: int| 0 <= k < i ==> #[trigger] same_hunter_loot(a@[k], b@[k]),
        decreases a@.len() - i,
    {
        if !equal_hunter_loot(&a[i], &b[i]) {
            return false;
        }
        i = i + 1;
    }
    true
}

/// Two owned item values hold the same content.
pub open spec fn same_owned_item(a: DurableHunterOwnedItem, b: DurableHunterOwnedItem) -> bool {
    &&& a.product_id@ == b.product_id@
    &&& a.quantity == b.quantity
    &&& a.enhancement_level == b.enhancement_level
    &&& a.gear_instance_id == b.gear_instance_id
    &&& a.quality == b.quality
    &&& a.primary_stat == b.primary_stat
    &&& a.option_type == b.option_type
    &&& a.option_value == b.option_value
    &&& same_text(a.ruleset, b.ruleset)
}

/// Two sequences hold the same owned item values, in order.
pub open spec fn same_owned_items(a: Seq<DurableHunterOwnedItem>, b: Seq<DurableHunterOwnedItem>) -> bool {
    a.len() == b.len() && forall|i: int| 0 <= i < a.len() ==> #[trigger] same_owned_item(a[i], b[i])
}

/// A copy of a owned item value.
pub fn copy_owned_item(a: &DurableHunterOwnedItem) -> (r: DurableHunterOwnedItem)
    ensures
        r == *a,
{
    DurableHunterOwnedItem {
        product_id: a.product_id.clone(),
        quantity: a.quantity,
        enhancement_level: a.enhancement_level,
        gear_instance_id: a.gear_instance_id,
        quality: a.quality,
        primary_stat: a.primary_stat,
        option_type: a.option_type,
        option_value: a.option_value,
        ruleset: copy_text(&a.ruleset),
    }
}

/// Whether two owned item values hold the same content.
pub fn equal_owned_item(a: &DurableHunterOwnedItem, b: &DurableHunterOwnedItem) -> (r: bool)
    ensures
        r == same_owned_item(*a, *b),
{
    str_eq(a.product_id.as_str(), b.product_id.as_str())
        && a.quantity == b.quantity
        && (match (a.enhancement_level, b.enhancement_level) { (Some(x), Some(y)) => x == y, (None, None) => true, _ => false })
        && (match (a.gear_instance_id, b.gear_instance_id) { (Some(x), Some(y)) => x == y, (None, None) => true, _ => false })
        && (match (a.quality, b.quality) { (Some(x), Some(y)) => x == y, (None, None) => true, _ => false })
        && (match (a.primary_stat, b.primary_stat) { (Some(x), Some(y)) => x == y, (None, None) => true, _ => false })
        && (match (a.option_type, b.option_type) { (Some(x), Some(y)) => x == y, (None, None) => true, _ => false })
        && (match (a.option_value, b.option_value) { (Some(x), Some(y)) => x == y, (None, None) => true, _ => false })
        && equal_text(&a.ruleset, &b.ruleset)
}

/// A copy of a sequence of owned item values.
pub fn copy_owned_items(a: &Vec<DurableHunterOwnedItem>) -> (r: Vec<DurableHunterOwnedItem>)
    ensures
        r@ == a@,
{
    let mut r: Vec<DurableHunterOwnedItem> = Vec::new();
    let mut i: usize = 0;
    while i < a.len()
        invariant
            0 <= i <= a@.len(),
            r@.len() == i,
            forall|k: int| 0 <= k < i ==> r@[k] == a@[k],
        decreases a@.len() - i,
    {
        r.push(copy_owned_item(&a[i]));
        i = i + 1;
    }
    assert(r@ =~= a@);
    r
}

/// Whether two sequences hold the same owned item values, in order.
pub fn equal_owned_items(a: &Vec<DurableHunterOwnedItem>, b: &Vec<DurableHunterOwnedItem>) -> (r: bool)
    ensures
        r == same_owned_items(a@, b@),
{
    if a.len() != b.len() {
        return false;
    }
    let mut i: usize = 0;
    while i < a.len()
        invariant
            0 <= i <= a@.len(),
            a@.len() == b@.len(),
            forall|k: int| 0 <= k < i ==> #[trigger] same_owned_item(a@[k], b@[k]),
        decreases a@.len() - i,
    {
        if !equal_owned_item(&a[i], &b[i]) {
            return false;
        }
        i = i + 1;
    }
    true
}

/// Two hunter skill values hold the same content.
pub open spec fn same_hunter_skill(a: DurableHunterSkill, b: DurableHunterSkill) -> bool {
    &&& a.skill_id@ == b.skill_id@
    &&& a.display_name@ == b.display_name@
    &&& same_text(a.icon_path, b.icon_path)
    &&& same_text(a.animation_name, b.animation_name)
    &&& a.skill_level == b.skill_level
    &&& a.equipped_slot == b.equipped_slot
    &&& a.ready == b.ready
    &&& a.cooldown_remaining_ms == b.cooldown_remaining_ms
}

/// Two sequences hold the same hunter skill values, in order.
pub open spec fn same_hunter_skills(a: Seq<DurableHunterSkill>, b: Seq<DurableHunterSkill>) -> bool {
    a.len() == b.len() && forall|i: int| 0 <= i < a.len() ==> #[trigger] same_hunter_skill(a[i], b[i])
}

/// A copy of a hunter skill value.
pub fn copy_hunter_skill(a: &DurableHunterSkill) -> (r: DurableHunterSkill)
    ensures
        r == *a,
{
    DurableHunterSkill {
        skill_id: a.skill_id.clone(),
        display_name: a.display_name.clone(),
        icon_path: copy_text(&a.icon_path),
        animation_name: copy_text(&a.animation_name),
        skill_level: a.skill_level,
        equipped_slot: a.equipped_slot,
        ready: a.ready,
        cooldown_remaining_ms: a.cooldown_remaining_ms,
    }
}

/// Whether two hunter skill values hold the same content.
pub fn equal_hunter_skill(a: &DurableHunterSkill, b: &DurableHunterSkill) -> (r: bool)
    ensures
        r == same_hunter_skill(*a, *b),
{
    str_eq(a.skill_id.as_str(), b.skill_id.as_str())
        && str_eq(a.display_name.as_str(), b.display_name.as_str())
        && equal_text(&a.icon_path, &b.icon_path)
        && equal_text(&a.animation_name, &b.animation_name)
        && a.skill_level == b.skill_level
        && (match (a.equipped_slot, b.equipped_slot) { (Some(x), Some(y)) => x == y, (None, None) => true, _ => false })
        && a.ready == b.ready
        && a.cooldown_remaining_ms == b.cooldown_remaining_ms
}

/// A copy of a sequence of hunter skill values.
pub fn copy_hunter_skills(a: &Vec<DurableHunterSkill>) -> (r: Vec<DurableHunterSkill>)
    ensures
        r@ == a@,
{
    let mut r: Vec<DurableHunterSkill> = Vec::new();
    let mut i: usize = 0;
    while i < a.len()
        invariant
            0 <= i <= a@.len(),
            r@.len() == i,
            forall|k: int| 0 <= k < i ==> r@[k] == a@[k],
        decreases a@.len() - i,
    {
        r.push(copy_hunter_skill(&a[i]));
        i = i + 1;
    }
    assert(r@ =~= a@);
    r
}

/// Whether two sequences hold the same hunter skill values, in order.
pub fn equal_hunter_skills(a: &Vec<DurableHunterSkill>, b: &Vec<DurableHunterSkill>) -> (r: bool)
    ensures
        r == same_hunter_skills(a@, b@),
{
    if a.len() != b.len() {
        return false;
    }
    let mut i: usize = 0;
    while i < a.len()
        invariant
            0 <= i <= a@.len(),
            a@.len() == b@.len(),
            forall|k: int| 0 <= k < i ==> #[trigger] same_hunter_skill(a@[k], b@[k]),
        decreases a@.len() - i,
    {
        if !equal_hunter_skill(&a[i], &b[i]) {
            return false;
        }
        i = i + 1;
    }
    true
}

/// Two equipment slot values hold the same content.
pub open spec fn same_equipment_slot(a: DurableEquipmentSlot, b: DurableEquipmentSlot) -> bool {
    &&& a.slot_id@ == b.slot_id@
    &&& a.catalog_kind@ == b.catalog_kind@
    &&& a.catalog_index == b.catalog_index
    &&& a.display_name@ == b.display_name@
    &&& a.icon_path@ == b.icon_path@
    &&& a.presentation_gender@ == b.presentation_gender@
    &&& same_text(a.required_class_id, b.required_class_id)
    &&& a.locked == b.locked
    &&& a.evidence_state@ == b.evidence_state@
}

/// Two sequences hold the same equipment slot values, in order.
pub open spec fn same_equipment_slots(a: Seq<DurableEquipmentSlot>, b: Seq<DurableEquipmentSlot>) -> bool {
    a.len() == b.len() && forall|i: int| 0 <= i < a.len() ==> #[trigger] same_equipment_slot(a[i], b[i])
}

/// A copy of a equipment slot value.
pub fn copy_equipment_slot(a: &DurableEquipmentSlot) -> (r: DurableEquipmentSlot)
    ensures
        r == *a,
{
    DurableEquipmentSlot {
        slot_id: a.slot_id.clone(),
        catalog_kind: a.catalog_kind.clone(),
        catalog_index: a.catalog_index,
        display_name: a.display_name.clone(),
        icon_path: a.icon_path.clone(),
        presentation_gender: a.presentation_gender.clone(),
        required_class_id: copy_text(&a.required_class_id),
        locked: a.locked,
        evidence_state: a.evidence_state.clone(),
    }
}

/// Whether two equipment slot values hold the same content.
pub fn equal_equipment_slot(a: &DurableEquipmentSlot, b: &DurableEquipmentSlot) -> (r: bool)
    ensures
        r == same_equipment_slot(*a, *b),
{
    str_eq(a.slot_id.as_str(), b.slot_id.as_str())
        && str_eq(a.catalog_kind.as_str(), b.catalog_kind.as_str())
        && a.catalog_index == b.catalog_index
        && str_eq(a.display_name.as_str(), b.display_name.as_str())
        && str_eq(a.icon_path.as_str(), b.icon_path.as_str())
        && str_eq(a.presentation_gender.as_str(), b.presentation_gender.as_str())
        && equal_text(&a.required_class_id, &b.required_class_id)
        && a.locked == b.locked
        && str_eq(a.evidence_state.as_str(), b.evidence_state.as_str())
}

/// A copy of a sequence of equipment slot values.
pub fn copy_equipment_slots(a: &Vec<DurableEquipmentSlot>) -> (r: Vec<DurableEquipmentSlot>)
    ensures
        r@ == a@,
{
    let mut r: Vec<DurableEquipmentSlot> = Vec::new();
    let mut i: usize = 0;
    while i < a.len()
        invariant
            0 <= i <= a@.len(),
            r@.len() == i,
            forall|k: int| 0 <= k < i ==> r@[k] == a@[k],
        decreases a@.len() - i,
    {
        r.push(copy_equipment_slot(&a[i]));
        i = i + 1;
    }
    assert(r@ =~= a@);
    r
}

/// Whether two sequences hold the same equipment slot values, in order.
pub fn equal_equipment_slots(a: &Vec<DurableEquipmentSlot>, b: &Vec<DurableEquipmentSlot>) -> (r: bool)
    ensures
        r == same_equipment_slots(a@, b@),
{
    if a.len() != b.len() {
        return false;
    }
    let mut i: usize = 0;
    while i < a.len()
        invariant
            0 <= i <= a@.len(),
            a@.len() == b@.len(),
            forall|k: int| 0 <= k < i ==> #[trigger] same_equipment_slot(a@[k], b@[k]),
        decreases a@.len() - i,
    {
        if !equal_equipment_slot(&a[i], &b[i]) {
            return false;
        }
        i = i + 1;
    }
    true
}

/// Two trade task values hold the same content.
pub open spec fn same_trade_task(a: DurableHunterTradeTask, b: DurableHunterTradeTask) -> bool {
    &&& a.workflow_version == b.workflow_version
    &&& a.command_id == b.command_id
    &&& a.requested_only == b.requested_only
    &&& a.building_instance_id@ == b.building_instance_id@
    &&& a.interaction_x == b.interaction_x
    &&& a.interaction_y == b.interaction_y
}

/// A copy of a trade task value.
pub fn copy_trade_task(a: &DurableHunterTradeTask) -> (r: DurableHunterTradeTask)
    ensures
        r == *a,
{
    DurableHunterTradeTask {
        workflow_version: a.workflow_version,
        command_id: a.command_id,
        requested_only: a.requested_only,
        building_instance_id: a.building_instance_id.clone(),
        interaction_x: a.interaction_x,
        interaction_y: a.interaction_y,
    }
}

/// Whether two trade task values hold the same content.
pub fn equal_trade_task(a: &DurableHunterTradeTask, b: &DurableHunterTradeTask) -> (r: bool)
    ensures
        r == same_trade_task(*a, *b),
{
    a.workflow_version == b.workflow_version
        && a.command_id == b.command_id
        && a.requested_only == b.requested_only
        && str_eq(a.building_instance_id.as_str(), b.building_instance_id.as_str())
        && a.interaction_x == b.interaction_x
        && a.interaction_y == b.interaction_y
}

/// Two lists of strings hold the same texts, in order.
pub open spec fn same_string_list(a: Seq<String>, b: Seq<String>) -> bool {
    a.len() == b.len() && forall|i: int| 0 <= i < a.len() ==> (#[trigger] a[i])@ == b[i]@
}

/// A copy of a list of strings.
pub fn copy_string_list(a: &Vec<String>) -> (r: Vec<String>)
    ensures
        same_string_list(r@, a@),
{
    let mut r: Vec<String> = Vec::new();
    let mut i: usize = 0;
    while i < a.len()
        invariant
            0 <= i <= a@.len(),
            r@.len() == i,
            forall|k: int| 0 <= k < i ==> (#[trigger] r@[k])@ == a@[k]@,
        decreases a@.len() - i,
    {
        r.push(a[i].clone());
        i = i + 1;
    }
    r
}

/// Whether two lists of strings hold the same texts, in order.
pub fn equal_string_list(a: &Vec<String>, b: &Vec<String>) -> (r: bool)
    ensures
        r == same_string_list(a@, b@),
{
    if a.len() != b.len() {
        return false;
    }
    let mut i: usize = 0;
    while i < a.len()
        invariant
            0 <= i <= a@.len(),
            a@.len() == b@.len(),
            forall|k: int| 0 <= k < i ==> (#[trigger] a@[k])@ == b@[k]@,
        decreases a@.len() - i,
    {
        if !str_eq(a[i].as_str(), b[i].as_str()) {
            return false;
        }
        i = i + 1;
    }
    true
}

/// Two enhancement attempts hold the same content.
pub open spec fn same_enhancement_attempt(a: DurableGearEnhancementAttempt, b: DurableGearEnhancementAttempt) -> bool {
    &&& a.attempt == b.attempt
    &&& a.starting_level == b.starting_level
    &&& a.resulting_level == b.resulting_level
    &&& a.succeeded == b.succeeded
    &&& a.gold_spent == b.gold_spent
    &&& same_hunter_loots(a.materials_spent@, b.materials_spent@)
}

/// Two sequences hold the same enhancement attempts, in order.
pub open spec fn same_enhancement_attempts(a: Seq<DurableGearEnhancementAttempt>, b: Seq<DurableGearEnhancementAttempt>) -> bool {
    a.len() == b.len() && forall|i: int| 0 <= i < a.len() ==> #[trigger] same_enhancement_attempt(a[i], b[i])
}

/// A copy of the enhancement attempts of a visit.
pub fn copy_enhancement_attempts(a: &Vec<DurableGearEnhancementAttempt>) -> (r: Vec<DurableGearEnhancementAttempt>)
    ensures
        same_enhancement_attempts(r@, a@),
{
    let mut r: Vec<DurableGearEnhancementAttempt> = Vec::new();
    let mut i: usize = 0;
    while i < a.len()
        invariant
            0 <= i <= a@.len(),
            r@.len() == i,
            forall|k: int| 0 <= k < i ==> #[trigger] same_enhancement_attempt(r@[k], a@[k]),
        decreases a@.len() - i,
    {
        let attempt = &a[i];
        let materials = copy_hunter_loots(&attempt.materials_spent);
        proof {
            assert forall|k: int| 0 <= k < materials@.len() implies #[trigger] same_hunter_loot(
                materials@[k],
                attempt.materials_spent@[k],
            ) by {}
        }
        r.push(
            DurableGearEnhancementAttempt {
                attempt: attempt.attempt,
                starting_level: attempt.starting_level,
                resulting_level: attempt.resulting_level,
                succeeded: attempt.succeeded,
                gold_spent: attempt.gold_spent,
                materials_spent: materials,
            },
        );
        i = i + 1;
    }
    r
}

/// Whether two lists of enhancement attempts hold the same content.
pub fn equal_enhancement_attempts(a: &Vec<DurableGearEnhancementAttempt>, b: &Vec<DurableGearEnhancementAttempt>) -> (r: bool)
    ensures
        r == same_enhancement_attempts(a@, b@),
{
    if a.len() != b.len() {
        return false;
    }
    let mut i: usize = 0;
    while i < a.len()
        invariant
            0 <= i <= a@.len(),
            a@.len() == b@.len(),
            forall|k: int| 0 <= k < i ==> #[trigger] same_enhancement_attempt(a@[k], b@[k]),
        decreases a@.len() - i,
    {
        let x = &a[i];
        let y = &b[i];
        let same = x.attempt == y.attempt && x.starting_level == y.starting_level && x.resulting_level
            == y.resulting_level && x.succeeded == y.succeeded && x.gold_spent == y.gold_spent && equal_hunter_loots(
            &x.materials_spent,
            &y.materials_spent,
        );
        assert(same == same_enhancement_attempt(a@[i as int], b@[i as int]));
        if !same {
            return false;
        }
        i = i + 1;
    }
    true
}

/// Two enhancement task values hold the same content.
pub open spec fn same_enhancement_task(a: DurableGearEnhancementTask, b: DurableGearEnhancementTask) -> bool {
    &&& a.workflow_version == b.workflow_version
    &&& a.building_instance_id@ == b.building_instance_id@
    &&& a.status == b.status
    &&& a.interaction_x == b.interaction_x
    &&& a.interaction_y == b.interaction_y
    &&& a.selected_gear_instance_id == b.selected_gear_instance_id
    &&& same_text(a.selected_product_id, b.selected_product_id)
    &&& same_text(a.mode, b.mode)
    &&& a.target_level == b.target_level
    &&& same_string_list(a.optional_material_ids@, b.optional_material_ids@)
    &&& same_enhancement_attempts(a.attempts@, b.attempts@)
    &&& a.spent_gold == b.spent_gold
    &&& same_hunter_loots(a.spent_materials@, b.spent_materials@)
    &&& a.final_level == b.final_level
    &&& same_text(a.stop_reason, b.stop_reason)
    &&& same_string_list(a.blockers@, b.blockers@)
}

/// A copy of a enhancement task value.
pub fn copy_enhancement_task(a: &DurableGearEnhancementTask) -> (r: DurableGearEnhancementTask)
    ensures
        same_enhancement_task(r, *a),
{
    let spent_materials = copy_hunter_loots(&a.spent_materials);
    proof {
        assert forall|k: int| 0 <= k < spent_materials@.len() implies #[trigger] same_hunter_loot(
            spent_materials@[k],
            a.spent_materials@[k],
        ) by {}
    }
    DurableGearEnhancementTask {
        workflow_version: a.workflow_version,
        building_instance_id: a.building_instance_id.clone(),
        status: a.status,
        interaction_x: a.interaction_x,
        interaction_y: a.interaction_y,
        selected_gear_instance_id: a.selected_gear_instance_id,
        selected_product_id: copy_text(&a.selected_product_id),
        mode: copy_text(&a.mode),
        target_level: a.target_level,
        optional_material_ids: copy_string_list(&a.optional_material_ids),
        attempts: copy_enhancement_attempts(&a.attempts),
        spent_gold: a.spent_gold,
        spent_materials,
        final_level: a.final_level,
        stop_reason: copy_text(&a.stop_reason),
        blockers: copy_string_list(&a.blockers),
    }
}

/// Whether two enhancement task values hold the same content.
pub fn equal_enhancement_task(a: &DurableGearEnhancementTask, b: &DurableGearEnhancementTask) -> (r: bool)
    ensures
        r == same_enhancement_task(*a, *b),
{
    a.workflow_version == b.workflow_version
        && str_eq(a.building_instance_id.as_str(), b.building_instance_id.as_str())
        && a.status == b.status
        && a.interaction_x == b.interaction_x
        && a.interaction_y == b.interaction_y
        && a.selected_gear_instance_id == b.selected_gear_instance_id
        && equal_text(&a.selected_product_id, &b.selected_product_id)
        && equal_text(&a.mode, &b.mode)
        && a.target_level == b.target_level
        && equal_string_list(&a.optional_material_ids, &b.optional_material_ids)
        && equal_enhancement_attempts(&a.attempts, &b.attempts)
        && a.spent_gold == b.spent_gold
        && equal_hunter_loots(&a.spent_materials, &b.spent_materials)
        && a.final_level == b.final_level
        && equal_text(&a.stop_reason, &b.stop_reason)
        && equal_string_list(&a.blockers, &b.blockers)
}

/// Two command record values hold the same content.
pub open spec fn same_command_record(a: HuntCommandRecord, b: HuntCommandRecord) -> bool {
    &&& a.command_id == b.command_id
    &&& a.key@ == b.key@
}

/// Two sequences hold the same command record values, in order.
pub open spec fn same_command_records(a: Seq<HuntCommandRecord>, b: Seq<HuntCommandRecord>) -> bool {
    a.len() == b.len() && forall|i: int| 0 <= i < a.len() ==> #[trigger] same_command_record(a[i], b[i])
}

/// A copy of a command record value.
pub fn copy_command_record(a: &HuntCommandRecord) -> (r: HuntCommandRecord)
    ensures
        r == *a,
{
    HuntCommandRecord {
        command_id: a.command_id,
        key: a.key.clone(),
    }
}

/// Whether two command record values hold the same content.
pub fn equal_command_record(a: &HuntCommandRecord, b: &HuntCommandRecord) -> (r: bool)
    ensures
        r == same_command_record(*a, *b),
{
    a.command_id == b.command_id
        && str_eq(a.key.as_str(), b.key.as_str())
}

/// A copy of a sequence of command record values.
pub fn copy_command_records(a: &Vec<HuntCommandRecord>) -> (r: Vec<HuntCommandRecord>)
    ensures
        r@ == a@,
{
    let mut r: Vec<HuntCommandRecord> = Vec::new();
    let mut i: usize = 0;
    while i < a.len()
        invariant
            0 <= i <= a@.len(),
            r@.len() == i,
            forall|k: int| 0 <= k < i ==> r@[k] == a@[k],
        decreases a@.len() - i,
    {
        r.push(copy_command_record(&a[i]));
        i = i + 1;
    }
    assert(r@ =~= a@);
    r
}

/// Whether two sequences hold the same command record values, in order.
pub fn equal_command_records(a: &Vec<HuntCommandRecord>, b: &Vec<HuntCommandRecord>) -> (r: bool)
    ensures
        r == same_command_records(a@, b@),
{
    if a.len() != b.len() {
        return false;
    }
    let mut i: usize = 0;
    while i < a.len()
        invariant
            0 <= i <= a@.len(),
            a@.len() == b@.len(),
            forall|k: int| 0 <= k < i ==> #[trigger] same_command_record(a@[k], b@[k]),
        decreases a@.len() - i,
    {
        if !equal_command_record(&a[i], &b[i]) {
            return false;
        }
        i = i + 1;
    }
    true
}

/// Two trait values hold the same content.
pub open spec fn same_hunter_trait(a: DurableHunterTrait, b: DurableHunterTrait) -> bool {
    &&& a.trait_id@ == b.trait_id@
    &&& a.display_name@ == b.display_name@
    &&& a.icon_path@ == b.icon_path@
    &&& a.unlocked_rank == b.unlocked_rank
    &&& a.equipped == b.equipped
}

/// Two sequences hold the same trait values, in order.
pub open spec fn same_hunter_traits(a: Seq<DurableHunterTrait>, b: Seq<DurableHunterTrait>) -> bool {
    a.len() == b.len() && forall|i: int| 0 <= i < a.len() ==> #[trigger] same_hunter_trait(a[i], b[i])
}

/// A copy of a sequence of traits.
pub fn copy_hunter_traits(a: &Vec<DurableHunterTrait>) -> (r: Vec<DurableHunterTrait>)
    ensures
        same_hunter_traits(r@, a@),
{
    let mut r: Vec<DurableHunterTrait> = Vec::new();
    let mut i: usize = 0;
    while i < a.len()
        invariant
            0 <= i <= a@.len(),
            r@.len() == i,
            forall|k: int| 0 <= k < i ==> #[trigger] same_hunter_trait(r@[k], a@[k]),
        decreases a@.len() - i,
    {
        let t = &a[i];
        r.push(
            DurableHunterTrait {
                trait_id: t.trait_id.clone(),
                display_name: t.display_name.clone(),
                icon_path: t.icon_path.clone(),
                unlocked_rank: t.unlocked_rank,
                equipped: t.equipped,
            },
        );
        i = i + 1;
    }
    r
}

/// Whether two sequences hold the same trait values, in order.
pub fn equal_hunter_traits(a: &Vec<DurableHunterTrait>, b: &Vec<DurableHunterTrait>) -> (r: bool)
    ensures
        r == same_hunter_traits(a@, b@),
{
    if a.len() != b.len() {
        return false;
    }
    let mut i: usize = 0;
    while i < a.len()
        invariant
            0 <= i <= a@.len(),
            a@.len() == b@.len(),
            forall|k: int| 0 <= k < i ==> #[trigger] same_hunter_trait(a@[k], b@[k]),
        decreases a@.len() - i,
    {
        let x = &a[i];
        let y = &b[i];
        let same = str_eq(x.trait_id.as_str(), y.trait_id.as_str()) && str_eq(
            x.display_name.as_str(),
            y.display_name.as_str(),
        ) && str_eq(x.icon_path.as_str(), y.icon_path.as_str()) && x.unlocked_rank == y.unlocked_rank
            && x.equipped == y.equipped;
        assert(same == same_hunter_trait(a@[i as int], b@[i as int]));
        if !same {
            return false;
        }
        i = i + 1;
    }
    true
}

/// Two hunter profile values hold the same content.
pub open spec fn same_hunter_profile(a: DurableHunterProfile, b: DurableHunterProfile) -> bool {
    &&& a.display_name@ == b.display_name@
    &&& same_text(a.portrait_asset_id, b.portrait_asset_id)
    &&& a.class_id@ == b.class_id@
    &&& a.class_name@ == b.class_name@
    &&& a.visual_family@ == b.visual_family@
    &&& a.rarity_id@ == b.rarity_id@
    &&& a.rarity_name@ == b.rarity_name@
    &&& a.level == b.level
    &&& a.xp == b.xp
    &&& a.xp_to_next_level == b.xp_to_next_level
    &&& a.attack == b.attack
    &&& a.defense == b.defense
    &&& a.action_state@ == b.action_state@
    &&& a.animation_name@ == b.animation_name@
    &&& same_hunter_traits(a.traits@, b.traits@)
    &&& same_hunter_skills(a.skills@, b.skills@)
    &&& same_equipment_slots(a.equipment_slots@, b.equipment_slots@)
    &&& same_text(a.characteristic_name, b.characteristic_name)
    &&& a.is_locked == b.is_locked
    &&& a.reincarnation == b.reincarnation
    &&& a.dps_milli == b.dps_milli
    &&& a.critical_rate_bps == b.critical_rate_bps
    &&& a.attack_speed_milli == b.attack_speed_milli
    &&& a.evasion_rate_bps == b.evasion_rate_bps
    &&& a.awakening == b.awakening
    &&& a.riding_pet_state_resolved == b.riding_pet_state_resolved
}

/// A copy of a hunter profile value.
pub fn copy_hunter_profile(a: &DurableHunterProfile) -> (r: DurableHunterProfile)
    ensures
        same_hunter_profile(r, *a),
{
    DurableHunterProfile {
        display_name: a.display_name.clone(),
        portrait_asset_id: copy_text(&a.portrait_asset_id),
        class_id: a.class_id.clone(),
        class_name: a.class_name.clone(),
        visual_family: a.visual_family.clone(),
        rarity_id: a.rarity_id.clone(),
        rarity_name: a.rarity_name.clone(),
        level: a.level,
        xp: a.xp,
        xp_to_next_level: a.xp_to_next_level,
        attack: a.attack,
        defense: a.defense,
        action_state: a.action_state.clone(),
        animation_name: a.animation_name.clone(),
        traits: copy_hunter_traits(&a.traits),
        skills: copy_hunter_skills(&a.skills),
        equipment_slots: copy_equipment_slots(&a.equipment_slots),
        characteristic_name: copy_text(&a.characteristic_name),
        is_locked: a.is_locked,
        reincarnation: a.reincarnation,
        dps_milli: a.dps_milli,
        critical_rate_bps: a.critical_rate_bps,
        attack_speed_milli: a.attack_speed_milli,
        evasion_rate_bps: a.evasion_rate_bps,
        awakening: a.awakening,
        riding_pet_state_resolved: a.riding_pet_state_resolved,
    }
}

/// Whether two hunter profile values hold the same content.
pub fn equal_hunter_profile(a: &DurableHunterProfile, b: &DurableHunterProfile) -> (r: bool)
    ensures
        r == same_hunter_profile(*a, *b),
{
    str_eq(a.display_name.as_str(), b.display_name.as_str())
        && equal_text(&a.portrait_asset_id, &b.portrait_asset_id)
        && str_eq(a.class_id.as_str(), b.class_id.as_str())
        && str_eq(a.class_name.as_str(), b.class_name.as_str())
        && str_eq(a.visual_family.as_str(), b.visual_family.as_str())
        && str_eq(a.rarity_id.as_str(), b.rarity_id.as_str())
        && str_eq(a.rarity_name.as_str(), b.rarity_name.as_str())
        && a.level == b.level
        && a.xp == b.xp
        && a.xp_to_next_level == b.xp_to_next_level
        && a.attack == b.attack
        && a.defense == b.defense
        && str_eq(a.action_state.as_str(), b.action_state.as_str())
        && str_eq(a.animation_name.as_str(), b.animation_name.as_str())
        && equal_hunter_traits(&a.traits, &b.traits)
        && equal_hunter_skills(&a.skills, &b.skills)
        && equal_equipment_slots(&a.equipment_slots, &b.equipment_slots)
        && equal_text(&a.characteristic_name, &b.characteristic_name)
        && a.is_locked == b.is_locked
        && a.reincarnation == b.reincarnation
        && a.dps_milli == b.dps_milli
        && a.critical_rate_bps == b.critical_rate_bps
        && a.attack_speed_milli == b.attack_speed_milli
        && a.evasion_rate_bps == b.evasion_rate_bps
        && a.awakening == b.awakening
        && a.riding_pet_state_resolved == b.riding_pet_state_resolved
}

/// Two hunter hunt values hold the same content.
pub open spec fn same_hunter_hunt(a: DurableHunterHunt, b: DurableHunterHunt) -> bool {
    &&& same_text(a.zone_id, b.zone_id)
    &&& a.status@ == b.status@
    &&& a.progress_ticks == b.progress_ticks
    &&& same_hunter_loots(a.loot@, b.loot@)
    &&& (match (a.pending_trade, b.pending_trade) { (Some(x), Some(y)) => same_trade_task(x, y), (None, None) => true, _ => false })
    &&& (match (a.gear_enhancement, b.gear_enhancement) { (Some(x), Some(y)) => same_enhancement_task(x, y), (None, None) => true, _ => false })
    &&& a.healing_potion_cooldown_ms == b.healing_potion_cooldown_ms
}

/// A copy of a hunter hunt value.
pub fn copy_hunter_hunt(a: &DurableHunterHunt) -> (r: DurableHunterHunt)
    ensures
        same_hunter_hunt(r, *a),
{
    DurableHunterHunt {
        zone_id: copy_text(&a.zone_id),
        status: a.status.clone(),
        progress_ticks: a.progress_ticks,
        loot: copy_hunter_loots(&a.loot),
        pending_trade: match &a.pending_trade { Some(x) => Some(copy_trade_task(x)), None => None },
        gear_enhancement: match &a.gear_enhancement { Some(x) => Some(copy_enhancement_task(x)), None => None },
        healing_potion_cooldown_ms: a.healing_potion_cooldown_ms,
    }
}

/// Whether two hunter hunt values hold the same content.
pub fn equal_hunter_hunt(a: &DurableHunterHunt, b: &DurableHunterHunt) -> (r: bool)
    ensures
        r == same_hunter_hunt(*a, *b),
{
    equal_text(&a.zone_id, &b.zone_id)
        && str_eq(a.status.as_str(), b.status.as_str())
        && a.progress_ticks == b.progress_ticks
        && equal_hunter_loots(&a.loot, &b.loot)
        && (match (&a.pending_trade, &b.pending_trade) { (Some(x), Some(y)) => equal_trade_task(x, y), (None, None) => true, _ => false })
        && (match (&a.gear_enhancement, &b.gear_enhancement) { (Some(x), Some(y)) => equal_enhancement_task(x, y), (None, None) => true, _ => false })
        && a.healing_potion_cooldown_ms == b.healing_potion_cooldown_ms
}

/// Two hunter values hold the same content.
pub open spec fn same_hunter(a: DurableHunterState, b: DurableHunterState) -> bool {
    &&& a.hunter_id == b.hunter_id
    &&& same_hunter_profile(a.profile, b.profile)
    &&& same_hunter_hunt(a.hunt, b.hunt)
    &&& a.gold == b.gold
    &&& a.current_hp == b.current_hp
    &&& a.max_hp == b.max_hp
    &&& a.stamina == b.stamina
    &&& a.satiety == b.satiety
    &&& a.mood == b.mood
    &&& same_owned_items(a.owned_items@, b.owned_items@)
}

/// Two sequences hold the same hunter values, in order.
pub open spec fn same_hunters(a: Seq<DurableHunterState>, b: Seq<DurableHunterState>) -> bool {
    a.len() == b.len() && forall|i: int| 0 <= i < a.len() ==> #[trigger] same_hunter(a[i], b[i])
}

/// A copy of a hunter value.
pub fn copy_hunter(a: &DurableHunterState) -> (r: DurableHunterState)
    ensures
        same_hunter(r, *a),
{
    DurableHunterState {
        hunter_id: a.hunter_id,
        profile: copy_hunter_profile(&a.profile),
        hunt: copy_hunter_hunt(&a.hunt),
        gold: a.gold,
        current_hp: a.current_hp,
        max_hp: a.max_hp,
        stamina: a.stamina,
        satiety: a.satiety,
        mood: a.mood,
        owned_items: copy_owned_items(&a.owned_items),
    }
}

/// Whether two hunter values hold the same content.
pub fn equal_hunter(a: &DurableHunterState, b: &DurableHunterState) -> (r: bool)
    ensures
        r == same_hunter(*a, *b),
{
    a.hunter_id == b.hunter_id
        && equal_hunter_profile(&a.profile, &b.profile)
        && equal_hunter_hunt(&a.hunt, &b.hunt)
        && a.gold == b.gold
        && a.current_hp == b.current_hp
        && a.max_hp == b.max_hp
        && a.stamina == b.stamina
        && a.satiety == b.satiety
        && a.mood == b.mood
        && equal_owned_items(&a.owned_items, &b.owned_items)
}

/// A copy of a sequence of hunter values.
pub fn copy_hunters(a: &Vec<DurableHunterState>) -> (r: Vec<DurableHunterState>)
    ensures
        same_hunters(r@, a@),
{
    let mut r: Vec<DurableHunterState> = Vec::new();
    let mut i: usize = 0;
    while i < a.len()
        invariant
            0 <= i <= a@.len(),
            r@.len() == i,
            forall|k: int| 0 <= k < i ==> #[trigger] same_hunter(r@[k], a@[k]),
        decreases a@.len() - i,
    {
        r.push(copy_hunter(&a[i]));
        i = i + 1;
    }
    r
}

/// Whether two sequences hold the same hunter values, in order.
pub fn equal_hunters(a: &Vec<DurableHunterState>, b: &Vec<DurableHunterState>) -> (r: bool)
    ensures
        r == same_hunters(a@, b@),
{
    if a.len() != b.len() {
        return false;
    }
    let mut i: usize = 0;
    while i < a.len()
        invariant
            0 <= i <= a@.len(),
            a@.len() == b@.len(),
            forall|k: int| 0 <= k < i ==> #[trigger] same_hunter(a@[k], b@[k]),
        decreases a@.len() - i,
    {
        if !equal_hunter(&a[i], &b[i]) {
            return false;
        }
        i = i + 1;
    }
    true
}

/// Two waiting hunter values hold the same content.
pub open spec fn same_waiting_hunter(a: DurableWaitingHunter, b: DurableWaitingHunter) -> bool {
    &&& same_hunter(a.hunter, b.hunter)
}

/// Two sequences hold the same waiting hunter values, in order.
pub open spec fn same_waiting_hunters(a: Seq<DurableWaitingHunter>, b: Seq<DurableWaitingHunter>) -> bool {
    a.len() == b.len() && forall|i: int| 0 <= i < a.len() ==> #[trigger] same_waiting_hunter(a[i], b[i])
}

/// A copy of a waiting hunter value.
pub fn copy_waiting_hunter(a: &DurableWaitingHunter) -> (r: DurableWaitingHunter)
    ensures
        same_waiting_hunter(r, *a),
{
    DurableWaitingHunter {
        hunter: copy_hunter(&a.hunter),
    }
}

/// Whether two waiting hunter values hold the same content.
pub fn equal_waiting_hunter(a: &DurableWaitingHunter, b: &DurableWaitingHunter) -> (r: bool)
    ensures
        r == same_waiting_hunter(*a, *b),
{
    equal_hunter(&a.hunter, &b.hunter)
}

/// A copy of a sequence of waiting hunter values.
pub fn copy_waiting_hunters(a: &Vec<DurableWaitingHunter>) -> (r: Vec<DurableWaitingHunter>)
    ensures
        same_waiting_hunters(r@, a@),
{
    let mut r: Vec<DurableWaitingHunter> = Vec::new();
    let mut i: usize = 0;
    while i < a.len()
        invariant
            0 <= i <= a@.len(),
            r@.len() == i,
            forall|k: int| 0 <= k < i ==> #[trigger] same_waiting_hunter(r@[k], a@[k]),
        decreases a@.len() - i,
    {
        r.push(copy_waiting_hunter(&a[i]));
        i = i + 1;
    }
    r
}

/// Whether two sequences hold the same waiting hunter values, in order.
pub fn equal_waiting_hunters(a: &Vec<DurableWaitingHunter>, b: &Vec<DurableWaitingHunter>) -> (r: bool)
    ensures
        r == same_waiting_hunters(a@, b@),
{
    if a.len() != b.len() {
        return false;
    }
    let mut i: usize = 0;
    while i < a.len()
        invariant
            0 <= i <= a@.len(),
            a@.len() == b@.len(),
            forall|k: int| 0 <= k < i ==> #[trigger] same_waiting_hunter(a@[k], b@[k]),
        decreases a@.len() - i,
    {
        if !equal_waiting_hunter(&a[i], &b[i]) {
            return false;
        }
        i = i + 1;
    }
    true
}

/// Two roster values hold the same content.
pub open spec fn same_roster(a: DurableHunterRosterState, b: DurableHunterRosterState) -> bool {
    &&& a.roster_resolved == b.roster_resolved
    &&& a.wallets_resolved == b.wallets_resolved
    &&& same_hunters(a.hunters@, b.hunters@)
    &&& same_waiting_hunters(a.waiting_queue@, b.waiting_queue@)
    &&& same_command_records(a.hunt_commands@, b.hunt_commands@)
}

/// A copy of a roster value.
pub fn copy_roster(a: &DurableHunterRosterState) -> (r: DurableHunterRosterState)
    ensures
        same_roster(r, *a),
{
    DurableHunterRosterState {
        roster_resolved: a.roster_resolved,
        wallets_resolved: a.wallets_resolved,
        hunters: copy_hunters(&a.hunters),
        waiting_queue: copy_waiting_hunters(&a.waiting_queue),
        hunt_commands: copy_command_records(&a.hunt_commands),
    }
}

/// Whether two roster values hold the same content.
pub fn equal_roster(a: &DurableHunterRosterState, b: &DurableHunterRosterState) -> (r: bool)
    ensures
        r == same_roster(*a, *b),
{
    a.roster_resolved == b.roster_resolved
        && a.wallets_resolved == b.wallets_resolved
        && equal_hunters(&a.hunters, &b.hunters)
        && equal_waiting_hunters(&a.waiting_queue, &b.waiting_queue)
        && equal_command_records(&a.hunt_commands, &b.hunt_commands)
}

/// Two building state values hold the same content.
pub open spec fn same_building_state(a: DurableBuildingState, b: DurableBuildingState) -> bool {
    &&& a.town_gold == b.town_gold
    &&& same_buildings(a.buildings@, b.buildings@)
    &&& a.hunter_materials == b.hunter_materials
    &&& a.materials == b.materials
    &&& a.runes == b.runes
    &&& a.weapons == b.weapons
    &&& a.armor == b.armor
    &&& same_material_stocks(a.material_stocks@, b.material_stocks@)
    &&& same_product_stocks(a.product_stocks@, b.product_stocks@)
    &&& same_crafted_gear_stocks(a.crafted_gear_stocks@, b.crafted_gear_stocks@)
    &&& a.hunter_equipment_purchases == b.hunter_equipment_purchases
    &&& a.town_seed_version == b.town_seed_version
    &&& a.next_building_instance_id == b.next_building_instance_id
    &&& a.field_trip_id == b.field_trip_id
    &&& a.settled_field_trip_id == b.settled_field_trip_id
    &&& same_trade_settlements(a.trade_settlements@, b.trade_settlements@)
}

/// A copy of a building state value.
pub fn copy_building_state(a: &DurableBuildingState) -> (r: DurableBuildingState)
    ensures
        same_building_state(r, *a),
{
    DurableBuildingState {
        town_gold: a.town_gold,
        buildings: copy_buildings(&a.buildings),
        hunter_materials: a.hunter_materials,
        materials: a.materials,
        runes: a.runes,
        weapons: a.weapons,
        armor: a.armor,
        material_stocks: copy_material_stocks(&a.material_stocks),
        product_stocks: copy_product_stocks(&a.product_stocks),
        crafted_gear_stocks: copy_crafted_gear_stocks(&a.crafted_gear_stocks),
        hunter_equipment_purchases: a.hunter_equipment_purchases,
        town_seed_version: a.town_seed_version,
        next_building_instance_id: a.next_building_instance_id,
        field_trip_id: a.field_trip_id,
        settled_field_trip_id: a.settled_field_trip_id,
        trade_settlements: copy_trade_settlements(&a.trade_settlements),
    }
}

/// Whether two building state values hold the same content.
pub fn equal_building_state(a: &DurableBuildingState, b: &DurableBuildingState) -> (r: bool)
    ensures
        r == same_building_state(*a, *b),
{
    a.town_gold == b.town_gold
        && equal_buildings(&a.buildings, &b.buildings)
        && a.hunter_materials == b.hunter_materials
        && a.materials == b.materials
        && a.runes == b.runes
        && a.weapons == b.weapons
        && a.armor == b.armor
        && equal_material_stocks(&a.material_stocks, &b.material_stocks)
        && equal_product_stocks(&a.product_stocks, &b.product_stocks)
        && equal_crafted_gear_stocks(&a.crafted_gear_stocks, &b.crafted_gear_stocks)
        && a.hunter_equipment_purchases == b.hunter_equipment_purchases
        && a.town_seed_version == b.town_seed_version
        && a.next_building_instance_id == b.next_building_instance_id
        && a.field_trip_id == b.field_trip_id
        && a.settled_field_trip_id == b.settled_field_trip_id
        && equal_trade_settlements(&a.trade_settlements, &b.trade_settlements)
}

/// Two service state values hold the same content.
pub open spec fn same_service_state(a: DurableProductServiceState, b: DurableProductServiceState) -> bool {
    &&& same_service_visits(a.visits@, b.visits@)
}

/// A copy of a service state value.
pub fn copy_service_state(a: &DurableProductServiceState) -> (r: DurableProductServiceState)
    ensures
        same_service_state(r, *a),
{
    DurableProductServiceState {
        visits: copy_service_visits(&a.visits),
    }
}

/// Whether two service state values hold the same content.
pub fn equal_service_state(a: &DurableProductServiceState, b: &DurableProductServiceState) -> (r: bool)
    ensures
        r == same_service_state(*a, *b),
{
    equal_service_visits(&a.visits, &b.visits)
}

/// Two field config values hold the same content.
pub open spec fn same_field_config(a: DurableMonsterFieldConfig, b: DurableMonsterFieldConfig) -> bool {
    &&& same_map_densities(a.densities@, b.densities@)
    &&& same_text(a.legacy_map_id, b.legacy_map_id)
    &&& a.legacy_density_level == b.legacy_density_level
}

/// A copy of a field config value.
pub fn copy_field_config(a: &DurableMonsterFieldConfig) -> (r: DurableMonsterFieldConfig)
    ensures
        same_field_config(r, *a),
{
    DurableMonsterFieldConfig {
        densities: copy_map_densities(&a.densities),
        legacy_map_id: copy_text(&a.legacy_map_id),
        legacy_density_level: a.legacy_density_level,
    }
}

/// Whether two field config values hold the same content.
pub fn equal_field_config(a: &DurableMonsterFieldConfig, b: &DurableMonsterFieldConfig) -> (r: bool)
    ensures
        r == same_field_config(*a, *b),
{
    equal_map_densities(&a.densities, &b.densities)
        && equal_text(&a.legacy_map_id, &b.legacy_map_id)
        && (match (a.legacy_density_level, b.legacy_density_level) { (Some(x), Some(y)) => x == y, (None, None) => true, _ => false })
}

/// Two legacy infirmary values hold the same content.
pub open spec fn same_legacy_infirmary(a: DurableLegacyInfirmaryState, b: DurableLegacyInfirmaryState) -> bool {
    &&& a.roster_resolved == b.roster_resolved
    &&& same_hunters(a.hunters@, b.hunters@)
    &&& same_infirmary_treatments(a.treatments@, b.treatments@)
}

/// A copy of a legacy infirmary value.
pub fn copy_legacy_infirmary(a: &DurableLegacyInfirmaryState) -> (r: DurableLegacyInfirmaryState)
    ensures
        same_legacy_infirmary(r, *a),
{
    DurableLegacyInfirmaryState {
        roster_resolved: a.roster_resolved,
        hunters: copy_hunters(&a.hunters),
        treatments: copy_infirmary_treatments(&a.treatments),
    }
}

/// Whether two legacy infirmary values hold the same content.
pub fn equal_legacy_infirmary(a: &DurableLegacyInfirmaryState, b: &DurableLegacyInfirmaryState) -> (r: bool)
    ensures
        r == same_legacy_infirmary(*a, *b),
{
    a.roster_resolved == b.roster_resolved
        && equal_hunters(&a.hunters, &b.hunters)
        && equal_infirmary_treatments(&a.treatments, &b.treatments)
}

/// Two aggregate values hold the same content.
pub open spec fn same_aggregate(a: DurablePlayerAggregate, b: DurablePlayerAggregate) -> bool {
    &&& a.schema_version == b.schema_version
    &&& a.navigation == b.navigation
    &&& same_building_state(a.buildings, b.buildings)
    &&& same_roster(a.hunter_roster, b.hunter_roster)
    &&& same_service_state(a.product_services, b.product_services)
    &&& same_field_config(a.monster_field_config, b.monster_field_config)
    &&& same_hunter_agents(a.hunter_world_runtime@, b.hunter_world_runtime@)
    &&& (match (a.legacy_infirmary, b.legacy_infirmary) { (Some(x), Some(y)) => same_legacy_infirmary(x, y), (None, None) => true, _ => false })
}

/// A copy of a aggregate value.
pub fn copy_aggregate(a: &DurablePlayerAggregate) -> (r: DurablePlayerAggregate)
    ensures
        same_aggregate(r, *a),
{
    DurablePlayerAggregate {
        schema_version: a.schema_version,
        navigation: a.navigation,
        buildings: copy_building_state(&a.buildings),
        hunter_roster: copy_roster(&a.hunter_roster),
        product_services: copy_service_state(&a.product_services),
        monster_field_config: copy_field_config(&a.monster_field_config),
        hunter_world_runtime: copy_hunter_agents(&a.hunter_world_runtime),
        legacy_infirmary: match &a.legacy_infirmary { Some(x) => Some(copy_legacy_infirmary(x)), None => None },
    }
}

/// Whether two aggregate values hold the same content.
pub fn equal_aggregate(a: &DurablePlayerAggregate, b: &DurablePlayerAggregate) -> (r: bool)
    ensures
        r == same_aggregate(*a, *b),
{
    a.schema_version == b.schema_version
        && a.navigation == b.navigation
        && equal_building_state(&a.buildings, &b.buildings)
        && equal_roster(&a.hunter_roster, &b.hunter_roster)
        && equal_service_state(&a.product_services, &b.product_services)
        && equal_field_config(&a.monster_field_config, &b.monster_field_config)
        && equal_hunter_agents(&a.hunter_world_runtime, &b.hunter_world_runtime)
        && (match (&a.legacy_infirmary, &b.legacy_infirmary) { (Some(x), Some(y)) => equal_legacy_infirmary(x, y), (None, None) => true, _ => false })
}

} // verus!

verus! {

/// Two values that each hold the content of a third hold the same content.
proof fn lemma_same_material_stock_shared(a: DurableMaterialStock, b: DurableMaterialStock, c: DurableMaterialStock)
    requires
        same_material_stock(a, c),
        same_material_stock(b, c),
    ensures
        same_material_stock(a, b),
{
}

/// Two values that each hold the content of a third hold the same content.
proof fn lemma_same_material_stocks_shared(a: Seq<DurableMaterialStock>, b: Seq<DurableMaterialStock>, c: Seq<DurableMaterialStock>)
    requires
        same_material_stocks(a, c),
        same_material_stocks(b, c),
    ensures
        same_material_stocks(a, b),
{
    assert forall|i: int| 0 <= i < a.len() implies #[trigger] same_material_stock(a[i], b[i]) by {
        lemma_same_material_stock_shared(a[i], b[i], c[i]);
    }
}

/// Two values that each hold the content of a third hold the same content.
proof fn lemma_same_product_stock_shared(a: DurableProductStock, b: DurableProductStock, c: DurableProductStock)
    requires
        same_product_stock(a, c),
        same_product_stock(b, c),
    ensures
        same_product_stock(a, b),
{
}

/// Two values that each hold the content of a third hold the same content.
proof fn lemma_same_product_stocks_shared(a: Seq<DurableProductStock>, b: Seq<DurableProductStock>, c: Seq<DurableProductStock>)
    requires
        same_product_stocks(a, c),
        same_product_stocks(b, c),
    ensures
        same_product_stocks(a, b),
{
    assert forall|i: int| 0 <= i < a.len() implies #[trigger] same_product_stock(a[i], b[i]) by {
        lemma_same_product_stock_shared(a[i], b[i], c[i]);
    }
}

/// Two values that each hold the content of a third hold the same content.
proof fn lemma_same_crafted_gear_stock_shared(a: DurableCraftedGearStock, b: DurableCraftedGearStock, c: DurableCraftedGearStock)
    requires
        same_crafted_gear_stock(a, c),
        same_crafted_gear_stock(b, c),
    ensures
        same_crafted_gear_stock(a, b),
{
}

/// Two values that each hold the content of a third hold the same content.
proof fn lemma_same_crafted_gear_stocks_shared(a: Seq<DurableCraftedGearStock>, b: Seq<DurableCraftedGearStock>, c: Seq<DurableCraftedGearStock>)
    requires
        same_crafted_gear_stocks(a, c),
        same_crafted_gear_stocks(b, c),
    ensures
        same_crafted_gear_stocks(a, b),
{
    assert forall|i: int| 0 <= i < a.len() implies #[trigger] same_crafted_gear_stock(a[i], b[i]) by {
        lemma_same_crafted_gear_stock_shared(a[i], b[i], c[i]);
    }
}

/// Two values that each hold the content of a third hold the same content.
proof fn lemma_same_building_shared(a: DurableBuilding, b: DurableBuilding, c: DurableBuilding)
    requires
        same_building(a, c),
        same_building(b, c),
    ensures
        same_building(a, b),
{
}

/// Two values that each hold the content of a third hold the same content.
proof fn lemma_same_buildings_shared(a: Seq<DurableBuilding>, b: Seq<DurableBuilding>, c: Seq<DurableBuilding>)
    requires
        same_buildings(a, c),
        same_buildings(b, c),
    ensures
        same_buildings(a, b),
{
    assert forall|i: int| 0 <= i < a.len() implies #[trigger] same_building(a[i], b[i]) by {
        lemma_same_building_shared(a[i], b[i], c[i]);
    }
}

/// Two values that each hold the content of a third hold the same content.
proof fn lemma_same_trade_settlement_shared(a: DurableTradeSettlement, b: DurableTradeSettlement, c: DurableTradeSettlement)
    requires
        same_trade_settlement(a, c),
        same_trade_settlement(b, c),
    ensures
        same_trade_settlement(a, b),
{
}

/// Two values that each hold the content of a third hold the same content.
proof fn lemma_same_trade_settlements_shared(a: Seq<DurableTradeSettlement>, b: Seq<DurableTradeSettlement>, c: Seq<DurableTradeSettlement>)
    requires
        same_trade_settlements(a, c),
        same_trade_settlements(b, c),
    ensures
        same_trade_settlements(a, b),
{
    assert forall|i: int| 0 <= i < a.len() implies #[trigger] same_trade_settlement(a[i], b[i]) by {
        lemma_same_trade_settlement_shared(a[i], b[i], c[i]);
    }
}

/// Two values that each hold the content of a third hold the same content.
proof fn lemma_same_map_density_shared(a: DurableMonsterMapDensity, b: DurableMonsterMapDensity, c: DurableMonsterMapDensity)
    requires
        same_map_density(a, c),
        same_map_density(b, c),
    ensures
        same_map_density(a, b),
{
}

/// Two values that each hold the content of a third hold the same content.
proof fn lemma_same_map_densities_shared(a: Seq<DurableMonsterMapDensity>, b: Seq<DurableMonsterMapDensity>, c: Seq<DurableMonsterMapDensity>)
    requires
        same_map_densities(a, c),
        same_map_densities(b, c),
    ensures
        same_map_densities(a, b),
{
    assert forall|i: int| 0 <= i < a.len() implies #[trigger] same_map_density(a[i], b[i]) by {
        lemma_same_map_density_shared(a[i], b[i], c[i]);
    }
}

/// Two values that each hold the content of a third hold the same content.
proof fn lemma_same_service_visit_shared(a: DurableProductServiceVisit, b: DurableProductServiceVisit, c: DurableProductServiceVisit)
    requires
        same_service_visit(a, c),
        same_service_visit(b, c),
    ensures
        same_service_visit(a, b),
{
}

/// Two values that each hold the content of a third hold the same content.
proof fn lemma_same_service_visits_shared(a: Seq<DurableProductServiceVisit>, b: Seq<DurableProductServiceVisit>, c: Seq<DurableProductServiceVisit>)
    requires
        same_service_visits(a, c),
        same_service_visits(b, c),
    ensures
        same_service_visits(a, b),
{
    assert forall|i: int| 0 <= i < a.len() implies #[trigger] same_service_visit(a[i], b[i]) by {
        lemma_same_service_visit_shared(a[i], b[i], c[i]);
    }
}

/// Two values that each hold the content of a third hold the same content.
proof fn lemma_same_infirmary_treatment_shared(a: DurableInfirmaryTreatment, b: DurableInfirmaryTreatment, c: DurableInfirmaryTreatment)
    requires
        same_infirmary_treatment(a, c),
        same_infirmary_treatment(b, c),
    ensures
        same_infirmary_treatment(a, b),
{
}

/// Two values that each hold the content of a third hold the same content.
proof fn lemma_same_infirmary_treatments_shared(a: Seq<DurableInfirmaryTreatment>, b: Seq<DurableInfirmaryTreatment>, c: Seq<DurableInfirmaryTreatment>)
    requires
        same_infirmary_treatments(a, c),
        same_infirmary_treatments(b, c),
    ensures
        same_infirmary_treatments(a, b),
{
    assert forall|i: int| 0 <= i < a.len() implies #[trigger] same_infirmary_treatment(a[i], b[i]) by {
        lemma_same_infirmary_treatment_shared(a[i], b[i], c[i]);
    }
}

/// Two values that each hold the content of a third hold the same content.
proof fn lemma_same_hunter_agent_shared(a: HunterAgentState, b: HunterAgentState, c: HunterAgentState)
    requires
        same_hunter_agent(a, c),
        same_hunter_agent(b, c),
    ensures
        same_hunter_agent(a, b),
{
}

/// Two values that each hold the content of a third hold the same content.
proof fn lemma_same_hunter_agents_shared(a: Seq<HunterAgentState>, b: Seq<HunterAgentState>, c: Seq<HunterAgentState>)
    requires
        same_hunter_agents(a, c),
        same_hunter_agents(b, c),
    ensures
        same_hunter_agents(a, b),
{
    assert forall|i: int| 0 <= i < a.len() implies #[trigger] same_hunter_agent(a[i], b[i]) by {
        lemma_same_hunter_agent_shared(a[i], b[i], c[i]);
    }
}

/// Two values that each hold the content of a third hold the same content.
proof fn lemma_same_hunter_loot_shared(a: DurableHunterLoot, b: DurableHunterLoot, c: DurableHunterLoot)
    requires
        same_hunter_loot(a, c),
        same_hunter_loot(b, c),
    ensures
        same_hunter_loot(a, b),
{
}

/// Two values that each hold the content of a third hold the same content.
proof fn lemma_same_hunter_loots_shared(a: Seq<DurableHunterLoot>, b: Seq<DurableHunterLoot>, c: Seq<DurableHunterLoot>)
    requires
        same_hunter_loots(a, c),
        same_hunter_loots(b, c),
    ensures
        same_hunter_loots(a, b),
{
    assert forall|i: int| 0 <= i < a.len() implies #[trigger] same_hunter_loot(a[i], b[i]) by {
        lemma_same_hunter_loot_shared(a[i], b[i], c[i]);
    }
}

/// Two values that each hold the content of a third hold the same content.
proof fn lemma_same_owned_item_shared(a: DurableHunterOwnedItem, b: DurableHunterOwnedItem, c: DurableHunterOwnedItem)
    requires
        same_owned_item(a, c),
        same_owned_item(b, c),
    ensures
        same_owned_item(a, b),
{
}

/// Two values that each hold the content of a third hold the same content.
proof fn lemma_same_owned_items_shared(a: Seq<DurableHunterOwnedItem>, b: Seq<DurableHunterOwnedItem>, c: Seq<DurableHunterOwnedItem>)
    requires
        same_owned_items(a, c),
        same_owned_items(b, c),
    ensures
        same_owned_items(a, b),
{
    assert forall|i: int| 0 <= i < a.len() implies #[trigger] same_owned_item(a[i], b[i]) by {
        lemma_same_owned_item_shared(a[i], b[i], c[i]);
    }
}

/// Two values that each hold the content of a third hold the same content.
proof fn lemma_same_hunter_skill_shared(a: DurableHunterSkill, b: DurableHunterSkill, c: DurableHunterSkill)
    requires
        same_hunter_skill(a, c),
        same_hunter_skill(b, c),
    ensures
        same_hunter_skill(a, b),
{
}

/// Two values that each hold the content of a third hold the same content.
proof fn lemma_same_hunter_skills_shared(a: Seq<DurableHunterSkill>, b: Seq<DurableHunterSkill>, c: Seq<DurableHunterSkill>)
    requires
        same_hunter_skills(a, c),
        same_hunter_skills(b, c),
    ensures
        same_hunter_skills(a, b),
{
    assert forall|i: int| 0 <= i < a.len() implies #[trigger] same_hunter_skill(a[i], b[i]) by {
        lemma_same_hunter_skill_shared(a[i], b[i], c[i]);
    }
}

/// Two values that each hold the content of a third hold the same content.
proof fn lemma_same_equipment_slot_shared(a: DurableEquipmentSlot, b: DurableEquipmentSlot, c: DurableEquipmentSlot)
    requires
        same_equipment_slot(a, c),
        same_equipment_slot(b, c),
    ensures
        same_equipment_slot(a, b),
{
}

/// Two values that each hold the content of a third hold the same content.
proof fn lemma_same_equipment_slots_shared(a: Seq<DurableEquipmentSlot>, b: Seq<DurableEquipmentSlot>, c: Seq<DurableEquipmentSlot>)
    requires
        same_equipment_slots(a, c),
        same_equipment_slots(b, c),
    ensures
        same_equipment_slots(a, b),
{
    assert forall|i: int| 0 <= i < a.len() implies #[trigger] same_equipment_slot(a[i], b[i]) by {
        lemma_same_equipment_slot_shared(a[i], b[i], c[i]);
    }
}

/// Two values that each hold the content of a third hold the same content.
proof fn lemma_same_trade_task_shared(a: DurableHunterTradeTask, b: DurableHunterTradeTask, c: DurableHunterTradeTask)
    requires
        same_trade_task(a, c),
        same_trade_task(b, c),
    ensures
        same_trade_task(a, b),
{
}

/// Two values that each hold the content of a third hold the same content.
proof fn lemma_same_string_list_shared(a: Seq<String>, b: Seq<String>, c: Seq<String>)
    requires
        same_string_list(a, c),
        same_string_list(b, c),
    ensures
        same_string_list(a, b),
{
    assert forall|i: int| 0 <= i < a.len() implies (#[trigger] a[i])@ == b[i]@ by {
        assert(a[i]@ == c[i]@ && b[i]@ == c[i]@);
    }
}

/// Two values that each hold the content of a third hold the same content.
proof fn lemma_same_enhancement_attempt_shared(a: DurableGearEnhancementAttempt, b: DurableGearEnhancementAttempt, c: DurableGearEnhancementAttempt)
    requires
        same_enhancement_attempt(a, c),
        same_enhancement_attempt(b, c),
    ensures
        same_enhancement_attempt(a, b),
{
    lemma_same_hunter_loots_shared(a.materials_spent@, b.materials_spent@, c.materials_spent@);
}

/// Two values that each hold the content of a third hold the same content.
proof fn lemma_same_enhancement_attempts_shared(a: Seq<DurableGearEnhancementAttempt>, b: Seq<DurableGearEnhancementAttempt>, c: Seq<DurableGearEnhancementAttempt>)
    requires
        same_enhancement_attempts(a, c),
        same_enhancement_attempts(b, c),
    ensures
        same_enhancement_attempts(a, b),
{
    assert forall|i: int| 0 <= i < a.len() implies #[trigger] same_enhancement_attempt(a[i], b[i]) by {
        lemma_same_enhancement_attempt_shared(a[i], b[i], c[i]);
    }
}

/// Two values that each hold the content of a third hold the same content.
proof fn lemma_same_enhancement_task_shared(a: DurableGearEnhancementTask, b: DurableGearEnhancementTask, c: DurableGearEnhancementTask)
    requires
        same_enhancement_task(a, c),
        same_enhancement_task(b, c),
    ensures
        same_enhancement_task(a, b),
{
    lemma_same_string_list_shared(a.optional_material_ids@, b.optional_material_ids@, c.optional_material_ids@);
    lemma_same_enhancement_attempts_shared(a.attempts@, b.attempts@, c.attempts@);
    lemma_same_hunter_loots_shared(a.spent_materials@, b.spent_materials@, c.spent_materials@);
    lemma_same_string_list_shared(a.blockers@, b.blockers@, c.blockers@);
}

/// Two values that each hold the content of a third hold the same content.
proof fn lemma_same_command_record_shared(a: HuntCommandRecord, b: HuntCommandRecord, c: HuntCommandRecord)
    requires
        same_command_record(a, c),
        same_command_record(b, c),
    ensures
        same_command_record(a, b),
{
}

/// Two values that each hold the content of a third hold the same content.
proof fn lemma_same_command_records_shared(a: Seq<HuntCommandRecord>, b: Seq<HuntCommandRecord>, c: Seq<HuntCommandRecord>)
    requires
        same_command_records(a, c),
        same_command_records(b, c),
    ensures
        same_command_records(a, b),
{
    assert forall|i: int| 0 <= i < a.len() implies #[trigger] same_command_record(a[i], b[i]) by {
        lemma_same_command_record_shared(a[i], b[i], c[i]);
    }
}

/// Two values that each hold the content of a third hold the same content.
proof fn lemma_same_hunter_trait_shared(a: DurableHunterTrait, b: DurableHunterTrait, c: DurableHunterTrait)
    requires
        same_hunter_trait(a, c),
        same_hunter_trait(b, c),
    ensures
        same_hunter_trait(a, b),
{
}

/// Two values that each hold the content of a third hold the same content.
proof fn lemma_same_hunter_traits_shared(a: Seq<DurableHunterTrait>, b: Seq<DurableHunterTrait>, c: Seq<DurableHunterTrait>)
    requires
        same_hunter_traits(a, c),
        same_hunter_traits(b, c),
    ensures
        same_hunter_traits(a, b),
{
    assert forall|i: int| 0 <= i < a.len() implies #[trigger] same_hunter_trait(a[i], b[i]) by {
        lemma_same_hunter_trait_shared(a[i], b[i], c[i]);
    }
}

/// Two values that each hold the content of a third hold the same content.
proof fn lemma_same_hunter_profile_shared(a: DurableHunterProfile, b: DurableHunterProfile, c: DurableHunterProfile)
    requires
        same_hunter_profile(a, c),
        same_hunter_profile(b, c),
    ensures
        same_hunter_profile(a, b),
{
    lemma_same_hunter_traits_shared(a.traits@, b.traits@, c.traits@);
    lemma_same_hunter_skills_shared(a.skills@, b.skills@, c.skills@);
    lemma_same_equipment_slots_shared(a.equipment_slots@, b.equipment_slots@, c.equipment_slots@);
}

/// Two values that each hold the content of a third hold the same content.
proof fn lemma_same_hunter_hunt_shared(a: DurableHunterHunt, b: DurableHunterHunt, c: DurableHunterHunt)
    requires
        same_hunter_hunt(a, c),
        same_hunter_hunt(b, c),
    ensures
        same_hunter_hunt(a, b),
{
    lemma_same_hunter_loots_shared(a.loot@, b.loot@, c.loot@);
    if let (Some(x), Some(y), Some(z)) = (a.pending_trade, b.pending_trade, c.pending_trade) {
        lemma_same_trade_task_shared(x, y, z);
    }
    if let (Some(x), Some(y), Some(z)) = (a.gear_enhancement, b.gear_enhancement, c.gear_enhancement) {
        lemma_same_enhancement_task_shared(x, y, z);
    }
}

/// Two values that each hold the content of a third hold the same content.
proof fn lemma_same_hunter_shared(a: DurableHunterState, b: DurableHunterState, c: DurableHunterState)
    requires
        same_hunter(a, c),
        same_hunter(b, c),
    ensures
        same_hunter(a, b),
{
    lemma_same_hunter_profile_shared(a.profile, b.profile, c.profile);
    lemma_same_hunter_hunt_shared(a.hunt, b.hunt, c.hunt);
    lemma_same_owned_items_shared(a.owned_items@, b.owned_items@, c.owned_items@);
}

/// Two values that each hold the content of a third hold the same content.
proof fn lemma_same_hunters_shared(a: Seq<DurableHunterState>, b: Seq<DurableHunterState>, c: Seq<DurableHunterState>)
    requires
        same_hunters(a, c),
        same_hunters(b, c),
    ensures
        same_hunters(a, b),
{
    assert forall|i: int| 0 <= i < a.len() implies #[trigger] same_hunter(a[i], b[i]) by {
        lemma_same_hunter_shared(a[i], b[i], c[i]);
    }
}

/// Two values that each hold the content of a third hold the same content.
proof fn lemma_same_waiting_hunter_shared(a: DurableWaitingHunter, b: DurableWaitingHunter, c: DurableWaitingHunter)
    requires
        same_waiting_hunter(a, c),
        same_waiting_hunter(b, c),
    ensures
        same_waiting_hunter(a, b),
{
    lemma_same_hunter_shared(a.hunter, b.hunter, c.hunter);
}

/// Two values that each hold the content of a third hold the same content.
proof fn lemma_same_waiting_hunters_shared(a: Seq<DurableWaitingHunter>, b: Seq<DurableWaitingHunter>, c: Seq<DurableWaitingHunter>)
    requires
        same_waiting_hunters(a, c),
        same_waiting_hunters(b, c),
    ensures
        same_waiting_hunters(a, b),
{
    assert forall|i: int| 0 <= i < a.len() implies #[trigger] same_waiting_hunter(a[i], b[i]) by {
        lemma_same_waiting_hunter_shared(a[i], b[i], c[i]);
    }
}

/// Two values that each hold the content of a third hold the same content.
proof fn lemma_same_roster_shared(a: DurableHunterRosterState, b: DurableHunterRosterState, c: DurableHunterRosterState)
    requires
        same_roster(a, c),
        same_roster(b, c),
    ensures
        same_roster(a, b),
{
    lemma_same_hunters_shared(a.hunters@, b.hunters@, c.hunters@);
    lemma_same_waiting_hunters_shared(a.waiting_queue@, b.waiting_queue@, c.waiting_queue@);
    lemma_same_command_records_shared(a.hunt_commands@, b.hunt_commands@, c.hunt_commands@);
}

/// Two values that each hold the content of a third hold the same content.
proof fn lemma_same_building_state_shared(a: DurableBuildingState, b: DurableBuildingState, c: DurableBuildingState)
    requires
        same_building_state(a, c),
        same_building_state(b, c),
    ensures
        same_building_state(a, b),
{
    lemma_same_buildings_shared(a.buildings@, b.buildings@, c.buildings@);
    lemma_same_material_stocks_shared(a.material_stocks@, b.material_stocks@, c.material_stocks@);
    lemma_same_product_stocks_shared(a.product_stocks@, b.product_stocks@, c.product_stocks@);
    lemma_same_crafted_gear_stocks_shared(a.crafted_gear_stocks@, b.crafted_gear_stocks@, c.crafted_gear_stocks@);
    lemma_same_trade_settlements_shared(a.trade_settlements@, b.trade_settlements@, c.trade_settlements@);
}

/// Two values that each hold the content of a third hold the same content.
proof fn lemma_same_service_state_shared(a: DurableProductServiceState, b: DurableProductServiceState, c: DurableProductServiceState)
    requires
        same_service_state(a, c),
        same_service_state(b, c),
    ensures
        same_service_state(a, b),
{
    lemma_same_service_visits_shared(a.visits@, b.visits@, c.visits@);
}

/// Two values that each hold the content of a third hold the same content.
proof fn lemma_same_field_config_shared(a: DurableMonsterFieldConfig, b: DurableMonsterFieldConfig, c: DurableMonsterFieldConfig)
    requires
        same_field_config(a, c),
        same_field_config(b, c),
    ensures
        same_field_config(a, b),
{
    lemma_same_map_densities_shared(a.densities@, b.densities@, c.densities@);
}

/// Two values that each hold the content of a third hold the same content.
proof fn lemma_same_legacy_infirmary_shared(a: DurableLegacyInfirmaryState, b: DurableLegacyInfirmaryState, c: DurableLegacyInfirmaryState)
    requires
        same_legacy_infirmary(a, c),
        same_legacy_infirmary(b, c),
    ensures
        same_legacy_infirmary(a, b),
{
    lemma_same_hunters_shared(a.hunters@, b.hunters@, c.hunters@);
    lemma_same_infirmary_treatments_shared(a.treatments@, b.treatments@, c.treatments@);
}

/// A session has one durable aggregate: any two durable forms of it hold
/// the same content.
pub proof fn lemma_durable_form_unique(
    session: crate::session::OriginalFlowSession,
    a: DurablePlayerAggregate,
    b: DurablePlayerAggregate,
)
    requires
        crate::session::durable_form(session, a),
        crate::session::durable_form(session, b),
    ensures
        same_aggregate(a, b),
{
    lemma_same_building_state_shared(a.buildings, b.buildings, session.buildings);
    lemma_same_roster_shared(a.hunter_roster, b.hunter_roster, session.hunter_roster);
    lemma_same_service_state_shared(a.product_services, b.product_services, session.product_services);
    lemma_same_map_densities_shared(a.monster_field_config.densities@, b.monster_field_config.densities@, session.monster_densities@);
    lemma_same_hunter_agents_shared(a.hunter_world_runtime@, b.hunter_world_runtime@, session.hunter_world_runtime@);
}

/// Two aggregates that each hold the content of a third hold the same
/// content.
proof fn lemma_same_aggregate_shared(a: DurablePlayerAggregate, b: DurablePlayerAggregate, c: DurablePlayerAggregate)
    requires
        same_aggregate(a, c),
        same_aggregate(b, c),
    ensures
        same_aggregate(a, b),
{
    lemma_same_building_state_shared(a.buildings, b.buildings, c.buildings);
    lemma_same_roster_shared(a.hunter_roster, b.hunter_roster, c.hunter_roster);
    lemma_same_service_state_shared(a.product_services, b.product_services, c.product_services);
    lemma_same_field_config_shared(a.monster_field_config, b.monster_field_config, c.monster_field_config);
    lemma_same_hunter_agents_shared(a.hunter_world_runtime@, b.hunter_world_runtime@, c.hunter_world_runtime@);
    if let (Some(x), Some(y), Some(z)) = (a.legacy_infirmary, b.legacy_infirmary, c.legacy_infirmary) {
        lemma_same_legacy_infirmary_shared(x, y, z);
    }
}

/// Whether a session's durable aggregate changed between two moments does
/// not depend on which durable forms of the two moments are compared.
pub proof fn lemma_change_is_form_independent(
    earlier: crate::session::OriginalFlowSession,
    later: crate::session::OriginalFlowSession,
    before: DurablePlayerAggregate,
    after: DurablePlayerAggregate,
    other_before: DurablePlayerAggregate,
    other_after: DurablePlayerAggregate,
)
    requires
        crate::session::durable_form(earlier, before),
        crate::session::durable_form(earlier, other_before),
        crate::session::durable_form(later, after),
        crate::session::durable_form(later, other_after),
    ensures
        same_aggregate(after, before) == same_aggregate(other_after, other_before),
{
    lemma_durable_form_unique(earlier, before, other_before);
    lemma_durable_form_unique(earlier, other_before, before);
    lemma_durable_form_unique(earlier, before, before);
    lemma_durable_form_unique(earlier, other_before, other_before);
    lemma_durable_form_unique(later, after, other_after);
    lemma_durable_form_unique(later, other_after, after);
    if same_aggregate(after, before) {
        lemma_same_aggregate_shared(before, after, before);
        lemma_same_aggregate_shared(other_after, before, after);
        lemma_same_aggregate_shared(other_after, other_before, before);
    }
    if same_aggregate(other_after, other_before) {
        lemma_same_aggregate_shared(other_before, other_after, other_before);
        lemma_same_aggregate_shared(after, other_before, other_after);
        lemma_same_aggregate_shared(after, before, other_before);
    }
}

} // verus!
