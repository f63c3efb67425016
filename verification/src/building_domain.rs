use vstd::prelude::*;

use crate::persistence::copy_material_stocks;
use crate::catalog::{
    find_base, find_item, BaseBuildingDefinition, BuildingCatalog, BuildingGameplayCatalog,
    BuildingLevelDefinition, EconomyAmount, EconomyProductDefinition,
};
use crate::contracts::{
    DurableBuilding, DurableBuildingState, DurableMaterialStock, TOWN_GRID_MAX, TOWN_GRID_MIN,
    TOWN_NAV_CELL_HEIGHT, TOWN_NAV_CELL_WIDTH, TOWN_NAV_ORIGIN_X, TOWN_NAV_ORIGIN_Y,
};
use crate::seqs::{
    first_index, lemma_first_index, lemma_first_index_is, lemma_first_index_none,
    lemma_first_index_update,
};
use crate::text::{
    all_digits, append_str, chars_of, decimal_value, find_substring, first_occurrence, has_prefix,
    parse_bounded, parse_decimal, starts_with, str_eq, string_from_chars,
};

verus! {

/// The town wallet's resource id.
pub open spec fn gold_resource() -> Seq<char> {
    "currency:gold"@
}

/// A material stock with `id`.
pub open spec fn stock_has_id(id: Seq<char>) -> spec_fn(DurableMaterialStock) -> bool {
    |stock: DurableMaterialStock| stock.id@ == id
}

/// Index of the first material stock with `id`.
pub open spec fn stock_index(state: DurableBuildingState, id: Seq<char>) -> Option<int> {
    first_index(state.material_stocks@, stock_has_id(id))
}

/// Finds the first material stock with `id`.
pub fn find_material_stock(stocks: &Vec<DurableMaterialStock>, id: &str) -> (index: Option<usize>)
    ensures
        index matches Some(i) ==> first_index(stocks@, stock_has_id(id@)) == Some(i as int) && i
            < stocks@.len() && stocks@[i as int].id@ == id@,
        index is None ==> first_index(stocks@, stock_has_id(id@)) is None,
{
    let mut i: usize = 0;
    while i < stocks.len()
        invariant
            0 <= i <= stocks@.len(),
            forall|j: int| 0 <= j < i ==> !stock_has_id(id@)(#[trigger] stocks@[j]),
        decreases stocks@.len() - i,
    {
        if str_eq(stocks[i].id.as_str(), id) {
            proof {
                lemma_first_index_is(stocks@, stock_has_id(id@), i as int);
            }
            return Some(i);
        }
        i = i + 1;
    }
    proof {
        lemma_first_index_none(stocks@, stock_has_id(id@));
    }
    None
}

/// The part of the town that costs are paid from: the wallet and the
/// material stocks.
pub open spec fn ledger(state: DurableBuildingState) -> (u64, Seq<DurableMaterialStock>) {
    (state.town_gold, state.material_stocks@)
}

/// Every field of the town but the wallet and the material stocks agrees.
pub open spec fn same_outside_ledger(a: DurableBuildingState, b: DurableBuildingState) -> bool {
    &&& a.buildings == b.buildings
    &&& a.hunter_materials == b.hunter_materials
    &&& a.materials == b.materials
    &&& a.runes == b.runes
    &&& a.weapons == b.weapons
    &&& a.armor == b.armor
    &&& a.product_stocks == b.product_stocks
    &&& a.crafted_gear_stocks == b.crafted_gear_stocks
    &&& a.hunter_equipment_purchases == b.hunter_equipment_purchases
    &&& a.town_seed_version == b.town_seed_version
    &&& a.next_building_instance_id == b.next_building_instance_id
    &&& a.field_trip_id == b.field_trip_id
    &&& a.settled_field_trip_id == b.settled_field_trip_id
    &&& a.trade_settlements == b.trade_settlements
}

/// The ledger can pay one cost: gold from the wallet, anything else from the
/// first stock of that material.
pub open spec fn cost_payable(l: (u64, Seq<DurableMaterialStock>), cost: EconomyAmount) -> bool {
    if cost.resource_id@ == gold_resource() {
        l.0 >= cost.quantity
    } else {
        match first_index(l.1, stock_has_id(cost.resource_id@)) {
            Some(i) => l.1[i].town_quantity >= cost.quantity,
            None => false,
        }
    }
}

/// The ledger can pay each cost of a list.
pub open spec fn costs_payable(l: (u64, Seq<DurableMaterialStock>), costs: Seq<EconomyAmount>) -> bool {
    forall|i: int| 0 <= i < costs.len() ==> cost_payable(l, #[trigger] costs[i])
}

/// The ledger after paying one cost (an unpayable material is left as is).
pub open spec fn pay_one(l: (u64, Seq<DurableMaterialStock>), cost: EconomyAmount) -> (u64, Seq<DurableMaterialStock>) {
    if cost.resource_id@ == gold_resource() {
        ((l.0 - cost.quantity) as u64, l.1)
    } else {
        match first_index(l.1, stock_has_id(cost.resource_id@)) {
            Some(i) => (
                l.0,
                l.1.update(
                    i,
                    DurableMaterialStock {
                        town_quantity: (l.1[i].town_quantity - cost.quantity) as u32,
                        ..l.1[i]
                    },
                ),
            ),
            None => l,
        }
    }
}

/// The ledger after paying every cost of a list, in order.
pub open spec fn pay_all(l: (u64, Seq<DurableMaterialStock>), costs: Seq<EconomyAmount>) -> (u64, Seq<DurableMaterialStock>)
    decreases costs.len(),
{
    if costs.len() == 0 {
        l
    } else {
        pay_one(pay_all(l, costs.drop_last()), costs.last())
    }
}

/// Each cost of a list can be paid from what the costs before it left, as
/// the town pays them in turn.
pub open spec fn payable_in_turn(l: (u64, Seq<DurableMaterialStock>), costs: Seq<EconomyAmount>) -> bool
    decreases costs.len(),
{
    if costs.len() == 0 {
        true
    } else {
        payable_in_turn(l, costs.drop_last()) && cost_payable(pay_all(l, costs.drop_last()), costs.last())
    }
}

/// A list payable in turn can pay its cost at place `i` from what the
/// earlier costs left, and so can each of its prefixes.
proof fn lemma_payable_at(l: (u64, Seq<DurableMaterialStock>), costs: Seq<EconomyAmount>, i: int)
    requires
        payable_in_turn(l, costs),
        0 <= i < costs.len(),
    ensures
        cost_payable(pay_all(l, costs.take(i)), costs[i]),
        payable_in_turn(l, costs.take(i + 1)),
    decreases costs.len(),
{
    if i == costs.len() - 1 {
        assert(costs.take(i) =~= costs.drop_last());
        assert(costs.take(i + 1) =~= costs);
    } else {
        lemma_payable_at(l, costs.drop_last(), i);
        assert(costs.drop_last().take(i) =~= costs.take(i));
        assert(costs.drop_last().take(i + 1) =~= costs.take(i + 1));
    }
}

/// Whether a ledger can pay one cost.
fn ledger_can_pay(gold: u64, stocks: &Vec<DurableMaterialStock>, cost: &EconomyAmount) -> (payable: bool)
    ensures
        payable == cost_payable((gold, stocks@), *cost),
{
    if str_eq(cost.resource_id.as_str(), "currency:gold") {
        gold >= cost.quantity
    } else {
        match find_material_stock(stocks, cost.resource_id.as_str()) {
            Some(index) => (stocks[index].town_quantity as u64) >= cost.quantity,
            None => false,
        }
    }
}

/// Pays one payable cost from a ledger.
fn ledger_pay(gold: &mut u64, stocks: &mut Vec<DurableMaterialStock>, cost: &EconomyAmount)
    requires
        cost_payable((*old(gold), old(stocks)@), *cost),
    ensures
        (*final(gold), final(stocks)@) == pay_one((*old(gold), old(stocks)@), *cost),
{
    if str_eq(cost.resource_id.as_str(), "currency:gold") {
        *gold = *gold - cost.quantity;
    } else {
        let found = find_material_stock(stocks, cost.resource_id.as_str());
        if let Some(index) = found {
            let ghost before = stocks@;
            let q = stocks[index].town_quantity - (cost.quantity as u32);
            stocks[index].town_quantity = q;
            assert(stocks@ =~= before.update(index as int, DurableMaterialStock { town_quantity: q, ..before[index as int] }));
        }
    }
}

/// Whether the town can pay a list of costs in turn (see [`payable_in_turn`]).
pub fn can_pay_in_turn(state: &DurableBuildingState, costs: &Vec<EconomyAmount>) -> (payable: bool)
    ensures
        payable == payable_in_turn(ledger(*state), costs@),
{
    let ghost start = ledger(*state);
    let mut gold = state.town_gold;
    let mut stocks = copy_material_stocks(&state.material_stocks);
    let mut i: usize = 0;
    while i < costs.len()
        invariant
            0 <= i <= costs@.len(),
            start == ledger(*state),
            (gold, stocks@) == pay_all(start, costs@.take(i as int)),
            payable_in_turn(start, costs@.take(i as int)),
        decreases costs@.len() - i,
    {
        let ghost upto = costs@.take(i + 1);
        assert(upto.drop_last() =~= costs@.take(i as int));
        assert(upto.last() == costs@[i as int]);
        if !ledger_can_pay(gold, &stocks, &costs[i]) {
            proof {
                if payable_in_turn(start, costs@) {
                    lemma_payable_at(start, costs@, i as int);
                }
            }
            return false;
        }
        ledger_pay(&mut gold, &mut stocks, &costs[i]);
        i = i + 1;
    }
    assert(costs@.take(costs@.len() as int) =~= costs@);
    true
}

/// Whether the town can pay every cost of a list.
pub fn can_pay_costs(state: &DurableBuildingState, costs: &Vec<EconomyAmount>) -> (payable: bool)
    ensures
        payable == costs_payable(ledger(*state), costs@),
{
    let mut i: usize = 0;
    while i < costs.len()
        invariant
            0 <= i <= costs@.len(),
            forall|k: int| 0 <= k < i ==> cost_payable(ledger(*state), #[trigger] costs@[k]),
        decreases costs@.len() - i,
    {
        let cost = &costs[i];
        let ok = if str_eq(cost.resource_id.as_str(), "currency:gold") {
            state.town_gold >= cost.quantity
        } else {
            match find_material_stock(&state.material_stocks, cost.resource_id.as_str()) {
                Some(index) => (state.material_stocks[index].town_quantity as u64) >= cost.quantity,
                None => false,
            }
        };
        if !ok {
            return false;
        }
        i = i + 1;
    }
    true
}

/// Pays every cost of a list in turn; each must be payable from what the
/// costs before it left.
pub fn pay_costs(state: &mut DurableBuildingState, costs: &Vec<EconomyAmount>)
    requires
        payable_in_turn(ledger(*old(state)), costs@),
    ensures
        ledger(*final(state)) == pay_all(ledger(*old(state)), costs@),
        same_outside_ledger(*old(state), *final(state)),
{
    let ghost start = ledger(*state);
    let mut i: usize = 0;
    while i < costs.len()
        invariant
            0 <= i <= costs@.len(),
            payable_in_turn(start, costs@),
            ledger(*state) == pay_all(start, costs@.take(i as int)),
            same_outside_ledger(*old(state), *state),
        decreases costs@.len() - i,
    {
        proof {
            lemma_payable_at(start, costs@, i as int);
        }
        ledger_pay(&mut state.town_gold, &mut state.material_stocks, &costs[i]);
        assert(costs@.take(i + 1).drop_last() =~= costs@.take(i as int));
        i = i + 1;
    }
    assert(costs@.take(costs@.len() as int) =~= costs@);
}


/// A building footprint in scene pixels (inclusive bounds).
#[derive(Clone, Copy, Debug, PartialEq, Eq, Structural)]
pub struct NavigationObstacle {
    pub min_x: i32,
    pub max_x: i32,
    pub min_y: i32,
    pub max_y: i32,
}

/// Grid size of a base building.
pub open spec fn grid_size_of(building: BaseBuildingDefinition) -> (u32, u32) {
    (building.grid_width as u32, building.grid_height as u32)
}

/// Grid size of a base building (always known).
pub fn building_grid_size(building: &BaseBuildingDefinition) -> (size: Option<(u32, u32)>)
    ensures
        size == Some(grid_size_of(*building)),
{
    Some((building.grid_width as u32, building.grid_height as u32))
}

/// The scene footprint of a placed building, from its grid cell and the
/// base building's size; `None` for an unknown base or a footprint that does
/// not fit the 32-bit scene coordinates.
pub open spec fn footprint_of(building: DurableBuilding, catalog: BuildingCatalog) -> Option<NavigationObstacle> {
    match find_base(catalog.bases@, building.id@) {
        None => None,
        Some(base) => {
            let min_x = TOWN_NAV_ORIGIN_X + building.grid_x * TOWN_NAV_CELL_WIDTH;
            let max_x = TOWN_NAV_ORIGIN_X + (building.grid_x + base.grid_width) * TOWN_NAV_CELL_WIDTH;
            let min_y = TOWN_NAV_ORIGIN_Y + building.grid_y * TOWN_NAV_CELL_HEIGHT;
            let max_y = TOWN_NAV_ORIGIN_Y + (building.grid_y + base.grid_height) * TOWN_NAV_CELL_HEIGHT;
            if i32::MIN <= min_x && max_x <= i32::MAX && i32::MIN <= min_y && max_y <= i32::MAX {
                Some(NavigationObstacle { min_x: min_x as i32, max_x: max_x as i32, min_y: min_y as i32, max_y: max_y as i32 })
            } else {
                None
            }
        },
    }
}

/// The scene footprint of a placed building.
pub fn building_navigation_obstacle(building: &DurableBuilding, catalog: &BuildingCatalog) -> (obstacle: Option<NavigationObstacle>)
    ensures
        obstacle == footprint_of(*building, *catalog),
{
    let base = match catalog.base(building.id.as_str()) {
        Some(base) => base,
        None => return None,
    };
    let gx = building.grid_x as i64;
    let gy = building.grid_y as i64;
    let min_x: i64 = 1627 + gx * 24;
    let max_x: i64 = 1627 + (gx + base.grid_width as i64) * 24;
    let min_y: i64 = 600 + gy * 18;
    let max_y: i64 = 600 + (gy + base.grid_height as i64) * 18;
    if -2147483648i64 <= min_x && max_x <= 2147483647i64 && -2147483648i64 <= min_y && max_y <= 2147483647i64 {
        Some(NavigationObstacle { min_x: min_x as i32, max_x: max_x as i32, min_y: min_y as i32, max_y: max_y as i32 })
    } else {
        None
    }
}

/// Footprints of the placed buildings whose footprint is known, in order.
pub open spec fn footprints_of(buildings: Seq<DurableBuilding>, catalog: BuildingCatalog) -> Seq<NavigationObstacle>
    decreases buildings.len(),
{
    if buildings.len() == 0 {
        Seq::empty()
    } else {
        let rest = footprints_of(buildings.drop_last(), catalog);
        match footprint_of(buildings.last(), catalog) {
            Some(o) => rest.push(o),
            None => rest,
        }
    }
}

/// The town's navigation obstacles: the footprints of its buildings.
pub fn town_navigation_obstacles(buildings: &Vec<DurableBuilding>, catalog: &BuildingCatalog) -> (obstacles: Vec<NavigationObstacle>)
    ensures
        obstacles@ == footprints_of(buildings@, *catalog),
{
    let mut obstacles: Vec<NavigationObstacle> = Vec::new();
    let mut i: usize = 0;
    while i < buildings.len()
        invariant
            0 <= i <= buildings@.len(),
            obstacles@ == footprints_of(buildings@.take(i as int), *catalog),
        decreases buildings@.len() - i,
    {
        assert(buildings@.take(i + 1).drop_last() =~= buildings@.take(i as int));
        if let Some(o) = building_navigation_obstacle(&buildings[i], catalog) {
            obstacles.push(o);
        }
        i = i + 1;
    }
    assert(buildings@.take(buildings@.len() as int) =~= buildings@);
    obstacles
}

/// A point keeps at least 15 pixels (more than 14) from every obstacle.
pub open spec fn point_is_clear(obstacles: Seq<NavigationObstacle>) -> spec_fn((int, int)) -> bool {
    |p: (int, int)|
        forall|k: int|
            0 <= k < obstacles.len() ==> p.0 < (#[trigger] obstacles[k]).min_x - 14 || p.0 > obstacles[k].max_x + 14
                || p.1 < obstacles[k].min_y - 14 || p.1 > obstacles[k].max_y + 14
}

/// The four approach points around a footprint, 15 pixels out: below,
/// right, left, above.
pub open spec fn approach_points(f: NavigationObstacle) -> Seq<(int, int)> {
    let cx = f.min_x + (f.max_x - f.min_x) / 2;
    let cy = f.min_y + (f.max_y - f.min_y) / 2;
    seq![(cx, f.max_y + 15), (f.max_x + 15, cy), (f.min_x - 15, cy), (cx, f.min_y - 15)]
}

/// The approach points lie within 32-bit scene coordinates.
pub open spec fn approach_in_range(f: NavigationObstacle) -> bool {
    f.min_x <= f.max_x && f.min_y <= f.max_y && f.max_y + 15 <= i32::MAX && f.max_x + 15 <= i32::MAX
        && f.min_x - 15 >= i32::MIN && f.min_y - 15 >= i32::MIN
}

/// The first candidate clear of every obstacle.
pub open spec fn first_clear(candidates: Seq<(int, int)>, obstacles: Seq<NavigationObstacle>) -> Option<(int, int)> {
    match first_index(candidates, point_is_clear(obstacles)) {
        Some(i) => Some(candidates[i]),
        None => None,
    }
}

/// Whether a point keeps clear of every obstacle.
pub fn is_clear(x: i64, y: i64, obstacles: &Vec<NavigationObstacle>) -> (clear: bool)
    ensures
        clear == point_is_clear(obstacles@)((x as int, y as int)),
{
    let mut k: usize = 0;
    while k < obstacles.len()
        invariant
            0 <= k <= obstacles@.len(),
            forall|j: int|
                0 <= j < k ==> x < (#[trigger] obstacles@[j]).min_x - 14 || x > obstacles@[j].max_x + 14 || y
                    < obstacles@[j].min_y - 14 || y > obstacles@[j].max_y + 14,
        decreases obstacles@.len() - k,
    {
        let o = obstacles[k];
        if !(x < o.min_x as i64 - 14 || x > o.max_x as i64 + 14 || y < o.min_y as i64 - 14 || y > o.max_y as i64 + 14) {
            return false;
        }
        k = k + 1;
    }
    true
}

/// The first clear candidate, searching in order.
pub fn find_first_clear(candidates: &Vec<(i64, i64)>, obstacles: &Vec<NavigationObstacle>) -> (point: Option<(i64, i64)>)
    ensures
        point matches Some(p) ==> first_clear(candidates@.map_values(|c: (i64, i64)| (c.0 as int, c.1 as int)), obstacles@)
            == Some((p.0 as int, p.1 as int)),
        point is None ==> first_clear(candidates@.map_values(|c: (i64, i64)| (c.0 as int, c.1 as int)), obstacles@) is None,
{
    let ghost cands = candidates@.map_values(|c: (i64, i64)| (c.0 as int, c.1 as int));
    let mut i: usize = 0;
    while i < candidates.len()
        invariant
            0 <= i <= candidates@.len(),
            cands == candidates@.map_values(|c: (i64, i64)| (c.0 as int, c.1 as int)),
            forall|j: int| 0 <= j < i ==> !point_is_clear(obstacles@)(#[trigger] cands[j]),
        decreases candidates@.len() - i,
    {
        let (x, y) = candidates[i];
        if is_clear(x, y, obstacles) {
            proof {
                lemma_first_index_is(cands, point_is_clear(obstacles@), i as int);
            }
            return Some((x, y));
        }
        i = i + 1;
    }
    proof {
        lemma_first_index_none(cands, point_is_clear(obstacles@));
    }
    None
}

/// The approach points of a footprint as machine integers.
fn approach_candidates(f: NavigationObstacle) -> (candidates: Vec<(i64, i64)>)
    requires
        f.min_x <= f.max_x,
        f.min_y <= f.max_y,
    ensures
        candidates@.map_values(|c: (i64, i64)| (c.0 as int, c.1 as int)) == approach_points(f),
{
    let min_x = f.min_x as i64;
    let max_x = f.max_x as i64;
    let min_y = f.min_y as i64;
    let max_y = f.max_y as i64;
    let cx = min_x + (max_x - min_x) / 2;
    let cy = min_y + (max_y - min_y) / 2;
    let mut v: Vec<(i64, i64)> = Vec::new();
    v.push((cx, max_y + 15));
    v.push((max_x + 15, cy));
    v.push((min_x - 15, cy));
    v.push((cx, min_y - 15));
    assert(v@.map_values(|c: (i64, i64)| (c.0 as int, c.1 as int)) =~= approach_points(f));
    v
}

/// Where a Hunter interacts with a building: the first approach point clear
/// of all obstacles.
pub open spec fn interaction_point_of(
    building: DurableBuilding,
    catalog: BuildingCatalog,
    obstacles: Seq<NavigationObstacle>,
) -> Option<(int, int)> {
    match footprint_of(building, catalog) {
        None => None,
        Some(f) => if approach_in_range(f) {
            first_clear(approach_points(f), obstacles)
        } else {
            None
        },
    }
}

/// Where a Hunter interacts with a building.
pub fn town_building_interaction_point(
    building: &DurableBuilding,
    catalog: &BuildingCatalog,
    obstacles: &Vec<NavigationObstacle>,
) -> (point: Option<(i32, i32)>)
    ensures
        point matches Some(p) ==> interaction_point_of(*building, *catalog, obstacles@) == Some((p.0 as int, p.1 as int)),
        point is None ==> interaction_point_of(*building, *catalog, obstacles@) is None,
{
    let f = match building_navigation_obstacle(building, catalog) {
        Some(f) => f,
        None => return None,
    };
    if !(f.min_x <= f.max_x && f.min_y <= f.max_y && (f.max_y as i64) + 15 <= 2147483647i64 && (f.max_x as i64) + 15
        <= 2147483647i64 && (f.min_x as i64) - 15 >= -2147483648i64 && (f.min_y as i64) - 15 >= -2147483648i64) {
        return None;
    }
    let candidates = approach_candidates(f);
    match find_first_clear(&candidates, obstacles) {
        Some((x, y)) => {
            proof {
                let cands = candidates@.map_values(|c: (i64, i64)| (c.0 as int, c.1 as int));
                lemma_first_index(cands, point_is_clear(obstacles@));
                let i = first_index(cands, point_is_clear(obstacles@))->0;
                assert(cands[i] == approach_points(f)[i]);
            }
            Some((x as i32, y as i32))
        },
        None => None,
    }
}

/// Where a defeated Hunter revives: beside the first Sanctuary (`build_2`),
/// else at the first clear town roaming anchor.
pub open spec fn revival_point_of(
    buildings: Seq<DurableBuilding>,
    catalog: BuildingCatalog,
    obstacles: Seq<NavigationObstacle>,
    anchors: Seq<(i32, i32)>,
) -> Option<(int, int)> {
    match first_index(buildings, building_has_base("build_2"@)) {
        None => None,
        Some(s) => match footprint_of(buildings[s], catalog) {
            None => None,
            Some(f) => if approach_in_range(f) {
                first_clear(
                    approach_points(f) + anchors.map_values(|a: (i32, i32)| (a.0 as int, a.1 as int)),
                    obstacles,
                )
            } else {
                None
            },
        },
    }
}

/// A placed building of base `id`.
pub open spec fn building_has_base(id: Seq<char>) -> spec_fn(DurableBuilding) -> bool {
    |b: DurableBuilding| b.id@ == id
}

/// A placed building with instance id `id`.
pub open spec fn building_has_instance(id: Seq<char>) -> spec_fn(DurableBuilding) -> bool {
    |b: DurableBuilding| b.instance_id@ == id
}

/// Finds the first placed building of base `id`.
pub fn find_building_by_base(buildings: &Vec<DurableBuilding>, id: &str) -> (index: Option<usize>)
    ensures
        index matches Some(i) ==> first_index(buildings@, building_has_base(id@)) == Some(i as int) && i
            < buildings@.len() && buildings@[i as int].id@ == id@,
        index is None ==> first_index(buildings@, building_has_base(id@)) is None,
{
    let mut i: usize = 0;
    while i < buildings.len()
        invariant
            0 <= i <= buildings@.len(),
            forall|j: int| 0 <= j < i ==> !building_has_base(id@)(#[trigger] buildings@[j]),
        decreases buildings@.len() - i,
    {
        if str_eq(buildings[i].id.as_str(), id) {
            proof {
                lemma_first_index_is(buildings@, building_has_base(id@), i as int);
            }
            return Some(i);
        }
        i = i + 1;
    }
    proof {
        lemma_first_index_none(buildings@, building_has_base(id@));
    }
    None
}

/// Finds the placed building with instance id `id`.
pub fn find_building_by_instance(buildings: &Vec<DurableBuilding>, id: &str) -> (index: Option<usize>)
    ensures
        index matches Some(i) ==> first_index(buildings@, building_has_instance(id@)) == Some(i as int) && i
            < buildings@.len() && buildings@[i as int].instance_id@ == id@,
        index is None ==> first_index(buildings@, building_has_instance(id@)) is None,
{
    let mut i: usize = 0;
    while i < buildings.len()
        invariant
            0 <= i <= buildings@.len(),
            forall|j: int| 0 <= j < i ==> !building_has_instance(id@)(#[trigger] buildings@[j]),
        decreases buildings@.len() - i,
    {
        if str_eq(buildings[i].instance_id.as_str(), id) {
            proof {
                lemma_first_index_is(buildings@, building_has_instance(id@), i as int);
            }
            return Some(i);
        }
        i = i + 1;
    }
    proof {
        lemma_first_index_none(buildings@, building_has_instance(id@));
    }
    None
}

/// Where a defeated Hunter revives.
pub fn town_revival_point(
    buildings: &Vec<DurableBuilding>,
    catalog: &BuildingCatalog,
    obstacles: &Vec<NavigationObstacle>,
    anchors: &Vec<(i32, i32)>,
) -> (point: Option<(i32, i32)>)
    ensures
        point matches Some(p) ==> revival_point_of(buildings@, *catalog, obstacles@, anchors@) == Some(
            (p.0 as int, p.1 as int),
        ),
        point is None ==> revival_point_of(buildings@, *catalog, obstacles@, anchors@) is None,
{
    let s = match find_building_by_base(buildings, "build_2") {
        Some(s) => s,
        None => return None,
    };
    let f = match building_navigation_obstacle(&buildings[s], catalog) {
        Some(f) => f,
        None => return None,
    };
    if !(f.min_x <= f.max_x && f.min_y <= f.max_y && (f.max_y as i64) + 15 <= 2147483647i64 && (f.max_x as i64) + 15
        <= 2147483647i64 && (f.min_x as i64) - 15 >= -2147483648i64 && (f.min_y as i64) - 15 >= -2147483648i64) {
        return None;
    }
    let mut candidates = approach_candidates(f);
    let ghost head = candidates@;
    let mut k: usize = 0;
    while k < anchors.len()
        invariant
            0 <= k <= anchors@.len(),
            candidates@ == head + anchors@.take(k as int).map_values(|a: (i32, i32)| (a.0 as i64, a.1 as i64)),
        decreases anchors@.len() - k,
    {
        let (ax, ay) = anchors[k];
        candidates.push((ax as i64, ay as i64));
        assert(anchors@.take(k + 1) =~= anchors@.take(k as int).push(anchors@[k as int]));
        assert(candidates@ =~= head + anchors@.take(k + 1).map_values(|a: (i32, i32)| (a.0 as i64, a.1 as i64)));
        k = k + 1;
    }
    assert(anchors@.take(anchors@.len() as int) =~= anchors@);
    let ghost cands = candidates@.map_values(|c: (i64, i64)| (c.0 as int, c.1 as int));
    assert(cands =~= approach_points(f) + anchors@.map_values(|a: (i32, i32)| (a.0 as int, a.1 as int)));
    match find_first_clear(&candidates, obstacles) {
        Some((x, y)) => {
            proof {
                lemma_first_index(cands, point_is_clear(obstacles@));
                let i = first_index(cands, point_is_clear(obstacles@))->0;
                assert(cands[i] == (x as int, y as int));
                if i >= 4 {
                    assert(cands[i] == (anchors@[i - 4].0 as int, anchors@[i - 4].1 as int));
                }
            }
            Some((x as i32, y as i32))
        },
        None => None,
    }
}


/// Two grid rectangles (left, top, width, height) do not overlap.
pub open spec fn rects_disjoint(ax: int, ay: int, aw: int, ah: int, bx: int, by: int, bw: int, bh: int) -> bool {
    ax + aw <= bx || ax >= bx + bw || ay + ah <= by || ay >= by + bh
}

/// A placed building's rectangle keeps clear of `(x, y, w, h)`; a building
/// whose base is unknown blocks every placement.
pub open spec fn clear_of_building(b: DurableBuilding, catalog: BuildingCatalog, x: int, y: int, w: int, h: int) -> bool {
    match find_base(catalog.bases@, b.id@) {
        None => false,
        Some(base) => rects_disjoint(x, y, w, h, b.grid_x as int, b.grid_y as int, base.grid_width as int, base.grid_height as int),
    }
}

/// A placement is valid when its size fits `i32`, it lies inside the town
/// grid, and it overlaps no placed building other than `ignored`.
pub open spec fn placement_valid(
    buildings: Seq<DurableBuilding>,
    catalog: BuildingCatalog,
    x: i32,
    y: i32,
    w: u32,
    h: u32,
    ignored: Option<usize>,
) -> bool {
    &&& w <= i32::MAX
    &&& h <= i32::MAX
    &&& x >= TOWN_GRID_MIN
    &&& y >= TOWN_GRID_MIN
    &&& x + w <= TOWN_GRID_MAX
    &&& y + h <= TOWN_GRID_MAX
    &&& forall|i: int|
        0 <= i < buildings.len() && ignored != Some(i as usize) ==> clear_of_building(
            #[trigger] buildings[i],
            catalog,
            x as int,
            y as int,
            w as int,
            h as int,
        )
}

/// Whether a building of size `(w, h)` may be placed at `(x, y)`.
pub fn placement_is_valid(
    buildings: &Vec<DurableBuilding>,
    catalog: &BuildingCatalog,
    grid_x: i32,
    grid_y: i32,
    grid_width: u32,
    grid_height: u32,
    ignored_index: Option<usize>,
) -> (valid: bool)
    ensures
        valid == placement_valid(buildings@, *catalog, grid_x, grid_y, grid_width, grid_height, ignored_index),
{
    if grid_width > 2147483647u32 || grid_height > 2147483647u32 {
        return false;
    }
    let x = grid_x as i64;
    let y = grid_y as i64;
    let right = x + grid_width as i64;
    let bottom = y + grid_height as i64;
    if x < -32 || y < -32 || right > 32 || bottom > 32 {
        return false;
    }
    let mut i: usize = 0;
    while i < buildings.len()
        invariant
            0 <= i <= buildings@.len(),
            right == x + grid_width,
            bottom == y + grid_height,
            x == grid_x,
            y == grid_y,
            forall|j: int|
                0 <= j < i && ignored_index != Some(j as usize) ==> clear_of_building(
                    #[trigger] buildings@[j],
                    *catalog,
                    x as int,
                    y as int,
                    grid_width as int,
                    grid_height as int,
                ),
        decreases buildings@.len() - i,
    {
        let skip = match ignored_index {
            Some(ignored) => ignored == i,
            None => false,
        };
        if !skip {
            let b = &buildings[i];
            let base = match catalog.base(b.id.as_str()) {
                Some(base) => base,
                None => return false,
            };
            let bx = b.grid_x as i64;
            let by = b.grid_y as i64;
            if !(right <= bx || x >= bx + base.grid_width as i64 || bottom <= by || y >= by + base.grid_height as i64) {
                return false;
            }
        }
        i = i + 1;
    }
    true
}

/// The gold cost of a level row: its first gold amount.
pub open spec fn gold_cost_of(row: BuildingLevelDefinition) -> Option<u64> {
    match first_index(row.costs@, cost_in(gold_resource())) {
        Some(i) => Some(row.costs@[i].quantity),
        None => None,
    }
}

/// A cost in resource `id`.
pub open spec fn cost_in(id: Seq<char>) -> spec_fn(EconomyAmount) -> bool {
    |c: EconomyAmount| c.resource_id@ == id
}

/// The gold cost of a level row.
pub fn gold_cost(row: &BuildingLevelDefinition) -> (cost: Option<u64>)
    ensures
        cost == gold_cost_of(*row),
{
    let mut i: usize = 0;
    while i < row.costs.len()
        invariant
            0 <= i <= row.costs@.len(),
            forall|j: int| 0 <= j < i ==> !cost_in(gold_resource())(#[trigger] row.costs@[j]),
        decreases row.costs@.len() - i,
    {
        if str_eq(row.costs[i].resource_id.as_str(), "currency:gold") {
            proof {
                lemma_first_index_is(row.costs@, cost_in(gold_resource()), i as int);
            }
            return Some(row.costs[i].quantity);
        }
        i = i + 1;
    }
    proof {
        lemma_first_index_none(row.costs@, cost_in(gold_resource()));
    }
    None
}

/// The highest level among placed buildings of base `id` (0 when none).
pub open spec fn highest_level(buildings: Seq<DurableBuilding>, id: Seq<char>) -> u16
    decreases buildings.len(),
{
    if buildings.len() == 0 {
        0
    } else {
        let rest = highest_level(buildings.drop_last(), id);
        if buildings.last().id@ == id && buildings.last().level as u16 > rest {
            buildings.last().level as u16
        } else {
            rest
        }
    }
}

/// The town's level of base `id` is the highest level of its placed
/// buildings of that base: no such building stands higher, and the level is
/// that of one of them (0 when none is placed).
pub proof fn lemma_highest_level_is_maximum(buildings: Seq<DurableBuilding>, id: Seq<char>)
    ensures
        forall|k: int|
            0 <= k < buildings.len() && (#[trigger] buildings[k]).id@ == id ==> buildings[k].level as u16
                <= highest_level(buildings, id),
        highest_level(buildings, id) == 0 || exists|k: int|
            0 <= k < buildings.len() && (#[trigger] buildings[k]).id@ == id && buildings[k].level as u16 == highest_level(
                buildings,
                id,
            ),
    decreases buildings.len(),
{
    if buildings.len() > 0 {
        let rest = buildings.drop_last();
        lemma_highest_level_is_maximum(rest, id);
        assert forall|k: int| 0 <= k < rest.len() implies #[trigger] buildings[k] == rest[k] by {}
        if highest_level(buildings, id) != 0 && highest_level(buildings, id) == highest_level(rest, id) {
            let k = choose|k: int|
                0 <= k < rest.len() && (#[trigger] rest[k]).id@ == id && rest[k].level as u16 == highest_level(rest, id);
            assert(buildings[k] == rest[k]);
        }
    }
}

/// The highest level among placed buildings of base `id`.
pub fn highest_building_level(buildings: &Vec<DurableBuilding>, id: &str) -> (level: u16)
    ensures
        level == highest_level(buildings@, id@),
{
    let mut best: u16 = 0;
    let mut i: usize = 0;
    while i < buildings.len()
        invariant
            0 <= i <= buildings@.len(),
            best == highest_level(buildings@.take(i as int), id@),
        decreases buildings@.len() - i,
    {
        assert(buildings@.take(i + 1).drop_last() =~= buildings@.take(i as int));
        if str_eq(buildings[i].id.as_str(), id) && buildings[i].level as u16 > best {
            best = buildings[i].level as u16;
        }
        i = i + 1;
    }
    assert(buildings@.take(buildings@.len() as int) =~= buildings@);
    best
}

/// A prerequisite the town has not reached yet.
pub open spec fn prerequisite_unmet(buildings: Seq<DurableBuilding>) -> spec_fn(crate::catalog::BuildingLevelPrerequisite) -> bool {
    |p: crate::catalog::BuildingLevelPrerequisite| highest_level(buildings, p.building_id@) < p.required_level
}

/// Why a construction or upgrade to `row` is blocked: the first unmet
/// prerequisite, as `building_prerequisite_required:<building id>`.
pub open spec fn mutation_condition_of(buildings: Seq<DurableBuilding>, row: Option<BuildingLevelDefinition>) -> Option<Seq<char>> {
    match row {
        None => None,
        Some(r) => match first_index(r.prerequisites@, prerequisite_unmet(buildings)) {
            Some(i) => Some("building_prerequisite_required:"@ + r.prerequisites@[i].building_id@),
            None => None,
        },
    }
}

/// A placed building of the prerequisite's base stands at or above its
/// required level (a required level of 0 is always met).
pub open spec fn prerequisite_met(buildings: Seq<DurableBuilding>, p: crate::catalog::BuildingLevelPrerequisite) -> bool {
    p.required_level == 0 || exists|k: int|
        0 <= k < buildings.len() && (#[trigger] buildings[k]).id@ == p.building_id@ && buildings[k].level as u16
            >= p.required_level
}

/// A prerequisite counts as unmet exactly when no placed building of its
/// base reaches the required level.
pub proof fn lemma_prerequisite_unmet_iff_unreached(
    buildings: Seq<DurableBuilding>,
    p: crate::catalog::BuildingLevelPrerequisite,
)
    ensures
        prerequisite_unmet(buildings)(p) <==> !prerequisite_met(buildings, p),
{
    lemma_highest_level_is_maximum(buildings, p.building_id@);
}

/// A construction or upgrade to a level row is blocked exactly when some
/// prerequisite of the row is not reached by any placed building, and the
/// reason names the first such prerequisite's base.
pub proof fn lemma_blocked_iff_prerequisite_unreached(buildings: Seq<DurableBuilding>, row: BuildingLevelDefinition)
    ensures
        mutation_condition_of(buildings, Some(row)) is None <==> forall|i: int|
            0 <= i < row.prerequisites@.len() ==> prerequisite_met(buildings, #[trigger] row.prerequisites@[i]),
        mutation_condition_of(buildings, Some(row)) matches Some(reason) ==> exists|i: int|
            0 <= i < row.prerequisites@.len() && !prerequisite_met(buildings, #[trigger] row.prerequisites@[i])
                && reason == "building_prerequisite_required:"@ + row.prerequisites@[i].building_id@ && forall|j: int|
                0 <= j < i ==> prerequisite_met(buildings, #[trigger] row.prerequisites@[j]),
{
    let pre = row.prerequisites@;
    let unmet = prerequisite_unmet(buildings);
    crate::seqs::lemma_first_index(pre, unmet);
    assert forall|i: int| 0 <= i < pre.len() implies (unmet(pre[i]) <==> !prerequisite_met(buildings, #[trigger] pre[i])) by {
        lemma_prerequisite_unmet_iff_unreached(buildings, pre[i]);
    }
}

/// The row behind an optional reference.
pub open spec fn deref_row(row: Option<&BuildingLevelDefinition>) -> Option<BuildingLevelDefinition> {
    match row {
        Some(r) => Some(*r),
        None => None,
    }
}

/// Why a construction or upgrade to `row` is blocked, if it is.
pub fn mutation_condition(buildings: &Vec<DurableBuilding>, row: Option<&BuildingLevelDefinition>) -> (condition: Option<String>)
    ensures
        condition matches Some(c) ==> mutation_condition_of(buildings@, deref_row(row)) == Some(c@),
        condition is None ==> mutation_condition_of(buildings@, deref_row(row)) is None,
{
    if row.is_none() {
        return None;
    }
    let r = row.unwrap();
    let mut i: usize = 0;
    while i < r.prerequisites.len()
        invariant
            row == Some(r),
            0 <= i <= r.prerequisites@.len(),
            forall|j: int| 0 <= j < i ==> !prerequisite_unmet(buildings@)(#[trigger] r.prerequisites@[j]),
        decreases r.prerequisites@.len() - i,
    {
        let p = &r.prerequisites[i];
        let current = highest_building_level(buildings, p.building_id.as_str());
        if current < p.required_level {
            proof {
                lemma_first_index_is(r.prerequisites@, prerequisite_unmet(buildings@), i as int);
            }
            let mut text = chars_of("building_prerequisite_required:");
            append_str(&mut text, p.building_id.as_str());
            let result = string_from_chars(&text);
            return Some(result);
        }
        i = i + 1;
    }
    proof {
        lemma_first_index_none(r.prerequisites@, prerequisite_unmet(buildings@));
    }
    None
}


/// The shop that sells a product: the gear route's shop, or the Potion Shop
/// (`build_11`) for a single-consumable product of the Alchemist (`build_14`).
pub open spec fn sale_building_of(product: EconomyProductDefinition) -> Option<Seq<char>> {
    match product.gear_route {
        Some(route) => Some(route.sale_building_id@),
        None => if product.building_id matches Some(b) && b@ == "build_14"@ && product.outputs@.len() == 1
            && has_prefix(product.outputs@[0].resource_id@, "consumable:"@) {
            Some("build_11"@)
        } else {
            None
        },
    }
}

/// The shop that sells a product.
pub fn product_sale_building_id(gameplay: &BuildingGameplayCatalog, product: &EconomyProductDefinition) -> (shop: Option<String>)
    ensures
        shop matches Some(s) ==> sale_building_of(*product) == Some(s@),
        shop is None ==> sale_building_of(*product) is None,
{
    if let Some(route) = &product.gear_route {
        return Some(route.sale_building_id.clone());
    }
    let is_potion = match &product.building_id {
        Some(b) => str_eq(b.as_str(), "build_14") && product.outputs.len() == 1 && starts_with(
            &chars_of(product.outputs[0].resource_id.as_str()),
            &chars_of("consumable:"),
        ),
        None => false,
    };
    if is_potion {
        Some(string_from_chars(&chars_of("build_11")))
    } else {
        None
    }
}

/// The purchase price of a consumable product: the output item's tier price
/// at the product's `:level:` index.
pub open spec fn consumable_price_of(gameplay: BuildingGameplayCatalog, product: EconomyProductDefinition) -> Option<u64> {
    if product.outputs@.len() == 0 {
        None
    } else {
        let output = product.outputs@[0];
        if !has_prefix(output.resource_id@, "consumable:"@) || output.quantity == 0 {
            None
        } else {
            match first_occurrence(product.product_id@, ":level:"@) {
                None => None,
                Some(k) => match decimal_value(product.product_id@.subrange(k + ":level:"@.len(), product.product_id@.len() as int)) {
                    None => None,
                    Some(level) => match find_item(gameplay.items@, output.resource_id@) {
                        None => None,
                        Some(item) => if level < item.hunter_pays_town_gold_by_tier@.len() {
                            Some(item.hunter_pays_town_gold_by_tier@[level as int])
                        } else {
                            None
                        },
                    },
                },
            }
        }
    }
}

/// The purchase price of a consumable product.
pub fn consumable_purchase_price(gameplay: &BuildingGameplayCatalog, product: &EconomyProductDefinition) -> (price: Option<u64>)
    ensures
        price == consumable_price_of(*gameplay, *product),
{
    if product.outputs.len() == 0 {
        return None;
    }
    let output = &product.outputs[0];
    if !starts_with(&chars_of(output.resource_id.as_str()), &chars_of("consumable:")) || output.quantity == 0 {
        return None;
    }
    let id = chars_of(product.product_id.as_str());
    let marker = chars_of(":level:");
    let k = match find_substring(&id, &marker) {
        Some(k) => k,
        None => return None,
    };
    let n = id.len();
    let item = match gameplay.item(output.resource_id.as_str()) {
        Some(item) => item,
        None => return None,
    };
    let tiers = item.hunter_pays_town_gold_by_tier.len();
    let level = match parse_decimal(&id, k + marker.len(), n, u64::MAX) {
        Some(level) => level,
        None => {
            assert(tiers as int <= u64::MAX);
            return None;
        },
    };
    if level < tiers as u64 {
        Some(item.hunter_pays_town_gold_by_tier[level as usize])
    } else {
        None
    }
}

/// The purchase price of a gear product: the output gear item's tier price
/// at the route's rating.
pub open spec fn gear_price_of(gameplay: BuildingGameplayCatalog, product: EconomyProductDefinition) -> Option<u64> {
    match product.gear_route {
        None => None,
        Some(route) => if product.outputs@.len() == 0 {
            None
        } else {
            let output = product.outputs@[0];
            if output.quantity != 1 || !has_prefix(output.resource_id@, "gear:"@) {
                None
            } else {
                match find_item(gameplay.items@, output.resource_id@) {
                    None => None,
                    Some(item) => if route.rating < item.hunter_pays_town_gold_by_tier@.len() {
                        Some(item.hunter_pays_town_gold_by_tier@[route.rating as int])
                    } else {
                        None
                    },
                }
            }
        },
    }
}

/// The purchase price of a gear product.
pub fn gear_purchase_price(gameplay: &BuildingGameplayCatalog, product: &EconomyProductDefinition) -> (price: Option<u64>)
    ensures
        price == gear_price_of(*gameplay, *product),
{
    let route = match &product.gear_route {
        Some(route) => route,
        None => return None,
    };
    if product.outputs.len() == 0 {
        return None;
    }
    let output = &product.outputs[0];
    if output.quantity != 1 || !starts_with(&chars_of(output.resource_id.as_str()), &chars_of("gear:")) {
        return None;
    }
    let item = match gameplay.item(output.resource_id.as_str()) {
        Some(item) => item,
        None => return None,
    };
    if (route.rating as usize) < item.hunter_pays_town_gold_by_tier.len() {
        Some(item.hunter_pays_town_gold_by_tier[route.rating as usize])
    } else {
        None
    }
}

/// A gear product costs the tier price its route's rating selects: when a
/// price is resolved, the product has a gear route and a single `gear:`
/// output, the catalog knows that output item, and the price is the item's
/// `hunter_pays_town_gold_by_tier` entry at the route's rating; and such a
/// product whose rating names a tier always has that price.
pub proof fn lemma_gear_price_is_rating_tier(gameplay: BuildingGameplayCatalog, product: EconomyProductDefinition)
    ensures
        gear_price_of(gameplay, product) matches Some(price) ==> {
            &&& product.gear_route matches Some(route)
            &&& product.outputs@.len() > 0
            &&& find_item(gameplay.items@, product.outputs@[0].resource_id@) matches Some(item)
            &&& route.rating < item.hunter_pays_town_gold_by_tier@.len()
            &&& price == item.hunter_pays_town_gold_by_tier@[route.rating as int]
        },
        ({
            &&& product.gear_route matches Some(route)
            &&& product.outputs@.len() > 0
            &&& product.outputs@[0].quantity == 1
            &&& has_prefix(product.outputs@[0].resource_id@, "gear:"@)
            &&& find_item(gameplay.items@, product.outputs@[0].resource_id@) matches Some(item)
            &&& route.rating < item.hunter_pays_town_gold_by_tier@.len()
        }) ==> gear_price_of(gameplay, product) == Some(
            find_item(gameplay.items@, product.outputs@[0].resource_id@).unwrap().hunter_pays_town_gold_by_tier@[
                product.gear_route.unwrap().rating as int],
        ),
{
}

/// A consumable product costs the tier price its level selects: when a
/// price is resolved, the product's first output is a `consumable:` item the
/// catalog knows, its id names a level after `:level:`, and the price is
/// the item's `hunter_pays_town_gold_by_tier` entry at that level.
pub proof fn lemma_consumable_price_is_level_tier(gameplay: BuildingGameplayCatalog, product: EconomyProductDefinition)
    ensures
        consumable_price_of(gameplay, product) matches Some(price) ==> {
            &&& product.outputs@.len() > 0
            &&& has_prefix(product.outputs@[0].resource_id@, "consumable:"@)
            &&& find_item(gameplay.items@, product.outputs@[0].resource_id@) matches Some(item)
            &&& first_occurrence(product.product_id@, ":level:"@) matches Some(k)
            &&& decimal_value(product.product_id@.subrange(k + 7, product.product_id@.len() as int)) matches Some(
                level,
            )
            &&& level < item.hunter_pays_town_gold_by_tier@.len()
            &&& price == item.hunter_pays_town_gold_by_tier@[level as int]
        },
{
    reveal_strlit(":level:");
}

/// A base building id: `build_` and a decimal number without leading zeros.
pub open spec fn is_base_building_id(id: Seq<char>) -> bool {
    &&& has_prefix(id, "build_"@)
    &&& id.len() > 6
    &&& id[6] != '0'
    &&& all_digits(id.subrange(6, id.len() as int))
}

/// Whether `id` names a base building (`build_` and a decimal number
/// without leading zeros).
pub fn base_building_id_valid(id: &str) -> (valid: bool)
    ensures
        valid == is_base_building_id(id@),
{
    proof {
        reveal_strlit("build_");
    }
    let chars = chars_of(id);
    let prefix = chars_of("build_");
    if !starts_with(&chars, &prefix) || chars.len() <= 6 || chars[6] == '0' {
        return false;
    }
    let mut i: usize = 6;
    while i < chars.len()
        invariant
            6 <= i <= chars@.len(),
            chars@ == id@,
            forall|k: int| 6 <= k < i ==> crate::text::is_digit(#[trigger] chars@[k]),
        decreases chars@.len() - i,
    {
        let c = chars[i];
        if !('0' <= c && c <= '9') {
            assert(id@.subrange(6, id@.len() as int)[i - 6] == c);
            return false;
        }
        i = i + 1;
    }
    assert forall|k: int| 0 <= k < id@.len() - 6 implies crate::text::is_digit(
        #[trigger] id@.subrange(6, id@.len() as int)[k],
    ) by {
        assert(id@.subrange(6, id@.len() as int)[k] == chars@[k + 6]);
    }
    true
}

} // verus!
