use vstd::prelude::*;

use crate::building_domain::{
    base_building_id_valid, building_has_instance, is_base_building_id, can_pay_costs, can_pay_in_turn, costs_payable, payable_in_turn, find_building_by_instance, grid_size_of,
    building_grid_size, ledger, mutation_condition, mutation_condition_of, pay_all, pay_costs, placement_is_valid,
    placement_valid,
};
use crate::catalog::{find_base, find_level, BuildingLevelDefinition};
use crate::contracts::{DurableBuilding, DurableBuildingState};
use crate::ids::{id_nibble, id_text, id_to_text, random_instance_id};
use crate::roster::DurableHunterState;
use crate::seqs::first_index;
use crate::session::{is_accepted, is_rejected, world_active, OriginalFlowSession, ServerMessage};
use crate::text::str_eq;

verus! {

/// The number of placed buildings of base `id`.
pub open spec fn count_of_base(buildings: Seq<DurableBuilding>, id: Seq<char>) -> nat
    decreases buildings.len(),
{
    if buildings.len() == 0 {
        0
    } else {
        count_of_base(buildings.drop_last(), id) + (if buildings.last().id@ == id { 1nat } else { 0nat })
    }
}

/// Counts the placed buildings of base `id`.
fn count_buildings_of_base(buildings: &Vec<DurableBuilding>, id: &str) -> (count: usize)
    ensures
        count == count_of_base(buildings@, id@),
{
    let mut count: usize = 0;
    let mut i: usize = 0;
    while i < buildings.len()
        invariant
            0 <= i <= buildings@.len(),
            count == count_of_base(buildings@.take(i as int), id@),
            count <= i,
        decreases buildings@.len() - i,
    {
        assert(buildings@.take(i + 1).drop_last() =~= buildings@.take(i as int));
        if str_eq(buildings[i].id.as_str(), id) {
            count = count + 1;
        }
        i = i + 1;
    }
    assert(buildings@.take(buildings@.len() as int) =~= buildings@);
    count
}

/// The town can pay a level row: each cost is payable from the ledger, and
/// from what the costs before it left (a resource named twice must cover
/// both).
pub open spec fn row_payable(town: DurableBuildingState, row: BuildingLevelDefinition) -> bool {
    costs_payable(ledger(town), row.costs@) && payable_in_turn(ledger(town), row.costs@)
}

/// Whether the town can pay a level row (see [`row_payable`]).
fn can_pay_row(town: &DurableBuildingState, row: &BuildingLevelDefinition) -> (payable: bool)
    ensures
        payable == row_payable(*town, *row),
{
    can_pay_costs(town, &row.costs) && can_pay_in_turn(town, &row.costs)
}

/// The town after paying a level row, with its buildings and id counter as
/// given.
pub open spec fn town_paid(before: DurableBuildingState, after: DurableBuildingState, row: BuildingLevelDefinition) -> bool {
    &&& ledger(after) == pay_all(ledger(before), row.costs@)
    &&& after == DurableBuildingState {
        town_gold: after.town_gold,
        material_stocks: after.material_stocks,
        buildings: after.buildings,
        next_building_instance_id: after.next_building_instance_id,
        ..before
    }
}

/// The answer to a construction request without a placement: refused
/// outside the shared world, for an unknown building, and otherwise because
/// a placement is required.
pub open spec fn construct_reason(session: OriginalFlowSession, building_id: Seq<char>) -> Seq<char> {
    if !world_active(session.state.screen) {
        "village_unavailable"@
    } else if !is_base_building_id(building_id) || find_base(session.building_content.catalog.bases@, building_id) is None {
        "building_unknown"@
    } else {
        "placement_required"@
    }
}

/// How a placed construction is answered.
pub enum ConstructDecision {
    Reject(Seq<char>),
    /// Accepted: the building is built under level row `row`.
    Build(BuildingLevelDefinition),
}

/// The decision on constructing building `building_id` at `(x, y)`, checks
/// in order: the shared world; the base building id's form and its base; its
/// instance limit; the placement; its first level row; the row's
/// prerequisites; its costs.
pub open spec fn construct_decision(session: OriginalFlowSession, building_id: Seq<char>, x: i32, y: i32) -> ConstructDecision {
    let town = session.buildings;
    let catalog = session.building_content.catalog;
    if !world_active(session.state.screen) {
        ConstructDecision::Reject("village_unavailable"@)
    } else if !is_base_building_id(building_id) {
        ConstructDecision::Reject("building_unknown"@)
    } else {
        match find_base(catalog.bases@, building_id) {
            None => ConstructDecision::Reject("building_unknown"@),
            Some(base) => if base.max_instances == 0 || count_of_base(town.buildings@, building_id) >= base.max_instances {
                ConstructDecision::Reject("max_build_reached"@)
            } else if !placement_valid(town.buildings@, catalog, x, y, grid_size_of(base).0, grid_size_of(base).1, None) {
                ConstructDecision::Reject("placement_blocked"@)
            } else {
                match find_level(catalog.levels@, building_id, 1) {
                    None => ConstructDecision::Reject("build_row_unresolved"@),
                    Some(row) => match mutation_condition_of(town.buildings@, Some(row)) {
                        Some(reason) => ConstructDecision::Reject(reason),
                        None => if !row_payable(town, row) {
                            ConstructDecision::Reject("insufficient_building_cost"@)
                        } else {
                            ConstructDecision::Build(row)
                        },
                    },
                }
            },
        }
    }
}

/// A fresh building instance id: the text of a random version-4 id.
pub open spec fn fresh_instance_id(text: Seq<char>) -> bool {
    exists|id: u128|
        id_nibble(id, 12) == 4 && (id as int / vstd::arithmetic::power::pow(2, 62)) % 4 == 2 && #[trigger] id_text(id)
            == text
}

/// The effect of a construction: the town pays the row, counts one more
/// instance id, and places a new level-1 building of `building_id` at
/// `(x, y)` under a fresh random instance id; nothing else changes.
pub open spec fn building_constructed(
    before: OriginalFlowSession,
    after: OriginalFlowSession,
    building_id: Seq<char>,
    x: i32,
    y: i32,
    row: BuildingLevelDefinition,
) -> bool {
    let placed = after.buildings.buildings@.last();
    &&& town_paid(before.buildings, after.buildings, row)
    &&& after.buildings.next_building_instance_id == before.buildings.next_building_instance_id + 1
    &&& after.buildings.buildings@.len() == before.buildings.buildings@.len() + 1
    &&& after.buildings.buildings@.drop_last() == before.buildings.buildings@
    &&& fresh_instance_id(placed.instance_id@)
    &&& placed.id@ == building_id
    &&& placed.equipped_skin_id is None
    &&& placed.level == 1
    &&& placed.uses == 0
    &&& placed.grid_x == x
    &&& placed.grid_y == y
    &&& placed.seeded_by is None
    &&& after == OriginalFlowSession { buildings: after.buildings, ..before }
}

/// The reply to and effect of a placed construction.
pub open spec fn construct_outcome(
    before: OriginalFlowSession,
    after: OriginalFlowSession,
    building_id: Seq<char>,
    x: i32,
    y: i32,
    message: ServerMessage,
) -> bool {
    match construct_decision(before, building_id, x, y) {
        ConstructDecision::Reject(reason) => is_rejected(message, "construct_building_at"@, reason) && after == before,
        ConstructDecision::Build(row) => is_accepted(message, "construct_building_at"@) && building_constructed(
            before,
            after,
            building_id,
            x,
            y,
            row,
        ),
    }
}

/// How an upgrade is answered.
pub enum UpgradeDecision {
    Reject(Seq<char>),
    /// The town pays `row`, but its level does not fit a building level: the
    /// upgrade is then refused with the costs paid.
    PaidOutOfRange(int, BuildingLevelDefinition),
    /// Accepted: building `index` rises to the level of `row`.
    Upgrade(int, BuildingLevelDefinition),
}

/// The decision on upgrading building instance `instance_id`, checks in
/// order: the shared world; the instance; its base building id's form; its
/// next level row; the row's prerequisites; its costs; that the new level
/// fits.
pub open spec fn upgrade_decision(session: OriginalFlowSession, instance_id: Seq<char>) -> UpgradeDecision {
    let town = session.buildings;
    if !world_active(session.state.screen) {
        UpgradeDecision::Reject("village_unavailable"@)
    } else {
        match first_index(town.buildings@, building_has_instance(instance_id)) {
            None => UpgradeDecision::Reject("building_instance_unknown"@),
            Some(b) => {
                let building = town.buildings@[b];
                if !is_base_building_id(building.id@) {
                    UpgradeDecision::Reject("building_unknown"@)
                } else {
                    match find_level(session.building_content.catalog.levels@, building.id@, (building.level + 1) as u16) {
                        None => UpgradeDecision::Reject("maximum_level"@),
                        Some(row) => match mutation_condition_of(town.buildings@, Some(row)) {
                            Some(reason) => UpgradeDecision::Reject(reason),
                            None => if !row_payable(town, row) {
                                UpgradeDecision::Reject("insufficient_building_cost"@)
                            } else if row.level > u8::MAX {
                                UpgradeDecision::PaidOutOfRange(b, row)
                            } else {
                                UpgradeDecision::Upgrade(b, row)
                            },
                        },
                    }
                }
            },
        }
    }
}

/// The reply to and effect of an upgrade: the town pays the row, and the
/// building takes the row's level when it fits.
pub open spec fn upgrade_outcome(
    before: OriginalFlowSession,
    after: OriginalFlowSession,
    instance_id: Seq<char>,
    message: ServerMessage,
) -> bool {
    match upgrade_decision(before, instance_id) {
        UpgradeDecision::Reject(reason) => is_rejected(message, "upgrade_building"@, reason) && after == before,
        UpgradeDecision::PaidOutOfRange(b, row) => {
            &&& is_rejected(message, "upgrade_building"@, "building_level_out_of_range"@)
            &&& town_paid(before.buildings, after.buildings, row)
            &&& after.buildings.buildings == before.buildings.buildings
            &&& after.buildings.next_building_instance_id == before.buildings.next_building_instance_id
            &&& after == OriginalFlowSession { buildings: after.buildings, ..before }
        },
        UpgradeDecision::Upgrade(b, row) => {
            let building = before.buildings.buildings@[b];
            &&& is_accepted(message, "upgrade_building"@)
            &&& town_paid(before.buildings, after.buildings, row)
            &&& after.buildings.buildings@ == before.buildings.buildings@.update(
                b,
                DurableBuilding { level: row.level as u8, ..building },
            )
            &&& after.buildings.next_building_instance_id == before.buildings.next_building_instance_id
            &&& after == OriginalFlowSession { buildings: after.buildings, ..before }
        },
    }
}

/// A Hunter walking to trade at building instance `instance_id`.
pub open spec fn trades_at(instance_id: Seq<char>) -> spec_fn(DurableHunterState) -> bool {
    |hunter: DurableHunterState| hunter.hunt.pending_trade matches Some(task) && task.building_instance_id@ == instance_id
}

/// How a move is answered.
pub enum MoveDecision {
    Reject(Seq<char>),
    /// Accepted: building `index` moves.
    Move(int),
}

/// The decision on moving building instance `instance_id` to `(x, y)`,
/// checks in order: the shared world; the instance; no Hunter walking to
/// trade there; its base building; the placement, ignoring the building
/// itself.
pub open spec fn move_decision(session: OriginalFlowSession, instance_id: Seq<char>, x: i32, y: i32) -> MoveDecision {
    let town = session.buildings;
    let catalog = session.building_content.catalog;
    if !world_active(session.state.screen) {
        MoveDecision::Reject("village_unavailable"@)
    } else {
        match first_index(town.buildings@, building_has_instance(instance_id)) {
            None => MoveDecision::Reject("building_instance_unknown"@),
            Some(b) => if first_index(session.hunter_roster.hunters@, trades_at(instance_id)) is Some {
                MoveDecision::Reject("building_has_incoming_hunter"@)
            } else {
                match (if is_base_building_id(town.buildings@[b].id@) {
                    find_base(catalog.bases@, town.buildings@[b].id@)
                } else {
                    None
                }) {
                    None => MoveDecision::Reject("building_unknown"@),
                    Some(base) => if !placement_valid(
                        town.buildings@,
                        catalog,
                        x,
                        y,
                        grid_size_of(base).0,
                        grid_size_of(base).1,
                        Some(b as usize),
                    ) {
                        MoveDecision::Reject("placement_blocked"@)
                    } else {
                        MoveDecision::Move(b)
                    },
                }
            },
        }
    }
}

/// The reply to and effect of a move: the building takes the new grid
/// position and nothing else changes.
pub open spec fn move_outcome(
    before: OriginalFlowSession,
    after: OriginalFlowSession,
    instance_id: Seq<char>,
    x: i32,
    y: i32,
    message: ServerMessage,
) -> bool {
    match move_decision(before, instance_id, x, y) {
        MoveDecision::Reject(reason) => is_rejected(message, "move_building"@, reason) && after == before,
        MoveDecision::Move(b) => {
            &&& is_accepted(message, "move_building"@)
            &&& after.buildings.buildings@ == before.buildings.buildings@.update(
                b,
                DurableBuilding { grid_x: x, grid_y: y, ..before.buildings.buildings@[b] },
            )
            &&& after == OriginalFlowSession {
                buildings: DurableBuildingState { buildings: after.buildings.buildings, ..before.buildings },
                ..before
            }
        },
    }
}

/// Finds the first Hunter walking to trade at `instance_id`.
fn find_trader_at(hunters: &Vec<DurableHunterState>, instance_id: &str) -> (index: Option<usize>)
    ensures
        index is Some <==> first_index(hunters@, trades_at(instance_id@)) is Some,
{
    let mut k: usize = 0;
    while k < hunters.len()
        invariant
            0 <= k <= hunters@.len(),
            forall|j: int| 0 <= j < k ==> !trades_at(instance_id@)(#[trigger] hunters@[j]),
        decreases hunters@.len() - k,
    {
        let trades = match &hunters[k].hunt.pending_trade {
            Some(task) => str_eq(task.building_instance_id.as_str(), instance_id),
            None => false,
        };
        if trades {
            proof {
                crate::seqs::lemma_first_index_is(hunters@, trades_at(instance_id@), k as int);
            }
            return Some(k);
        }
        k = k + 1;
    }
    proof {
        crate::seqs::lemma_first_index_none(hunters@, trades_at(instance_id@));
    }
    None
}

impl OriginalFlowSession {
    /// A construction request without a placement (see
    /// [`construct_reason`]); it is always refused and changes nothing.
    pub fn construct_building(&self, building_id: &str) -> (message: ServerMessage)
        ensures
            is_rejected(message, "construct_building"@, construct_reason(*self, building_id@)),
    {
        if !self.shared_world_active() {
            return self.rejected("construct_building", "village_unavailable");
        }
        if !base_building_id_valid(building_id) || self.building_content.catalog.base(building_id).is_none() {
            return self.rejected("construct_building", "building_unknown");
        }
        self.rejected("construct_building", "placement_required")
    }

    /// Constructs building `building_id` at `(grid_x, grid_y)` (see
    /// [`construct_decision`] and [`building_constructed`]).
    pub fn construct_building_at(&mut self, building_id: &str, grid_x: i32, grid_y: i32) -> (message: ServerMessage)
        requires
            old(self).buildings.next_building_instance_id < u64::MAX,
        ensures
            construct_outcome(*old(self), *final(self), building_id@, grid_x, grid_y, message),
    {
        let intent = "construct_building_at";
        if !self.shared_world_active() {
            return self.rejected(intent, "village_unavailable");
        }
        if !base_building_id_valid(building_id) {
            return self.rejected(intent, "building_unknown");
        }
        let base = match self.building_content.catalog.base(building_id) {
            Some(base) => base,
            None => {
                return self.rejected(intent, "building_unknown");
            },
        };
        let max_build = base.max_instances;
        if max_build == 0 || count_buildings_of_base(&self.buildings.buildings, building_id) >= max_build as usize {
            return self.rejected(intent, "max_build_reached");
        }
        let (grid_width, grid_height) = match building_grid_size(base) {
            Some(size) => size,
            None => {
                return self.rejected(intent, "grid_size_unresolved");
            },
        };
        if !placement_is_valid(
            &self.buildings.buildings,
            &self.building_content.catalog,
            grid_x,
            grid_y,
            grid_width,
            grid_height,
            None,
        ) {
            return self.rejected(intent, "placement_blocked");
        }
        let row = match self.building_content.catalog.level(building_id, 1) {
            Some(row) => row,
            None => {
                return self.rejected(intent, "build_row_unresolved");
            },
        };
        match mutation_condition(&self.buildings.buildings, Some(row)) {
            Some(reason) => {
                return self.rejected(intent, reason.as_str());
            },
            None => {},
        }
        if !can_pay_row(&self.buildings, row) {
            return self.rejected(intent, "insufficient_building_cost");
        }
        pay_costs(&mut self.buildings, &row.costs);
        let id = random_instance_id();
        let instance_id = id_to_text(id);
        assert(fresh_instance_id(instance_id@));
        self.buildings.next_building_instance_id = self.buildings.next_building_instance_id + 1;
        let ghost placed = self.buildings.buildings@;
        self.buildings.buildings.push(
            DurableBuilding {
                instance_id,
                id: building_id.to_owned(),
                equipped_skin_id: None,
                level: 1,
                uses: 0,
                grid_x,
                grid_y,
                seeded_by: None,
            },
        );
        assert(self.buildings.buildings@.drop_last() =~= placed);
        self.accepted(intent)
    }

    /// Upgrades building instance `instance_id` to its next level (see
    /// [`upgrade_decision`] and [`upgrade_outcome`]).
    pub fn upgrade_building(&mut self, instance_id: &str) -> (message: ServerMessage)
        ensures
            upgrade_outcome(*old(self), *final(self), instance_id@, message),
    {
        let intent = "upgrade_building";
        if !self.shared_world_active() {
            return self.rejected(intent, "village_unavailable");
        }
        let b = match find_building_by_instance(&self.buildings.buildings, instance_id) {
            Some(b) => b,
            None => {
                return self.rejected(intent, "building_instance_unknown");
            },
        };
        if !base_building_id_valid(self.buildings.buildings[b].id.as_str()) {
            return self.rejected(intent, "building_unknown");
        }
        let next_level: u16 = self.buildings.buildings[b].level as u16 + 1;
        let row = match self.building_content.catalog.level(self.buildings.buildings[b].id.as_str(), next_level) {
            Some(row) => row,
            None => {
                return self.rejected(intent, "maximum_level");
            },
        };
        match mutation_condition(&self.buildings.buildings, Some(row)) {
            Some(reason) => {
                return self.rejected(intent, reason.as_str());
            },
            None => {},
        }
        if !can_pay_row(&self.buildings, row) {
            return self.rejected(intent, "insufficient_building_cost");
        }
        pay_costs(&mut self.buildings, &row.costs);
        if row.level > 255 {
            return self.rejected(intent, "building_level_out_of_range");
        }
        let level = row.level as u8;
        self.buildings.buildings[b].level = level;
        self.accepted(intent)
    }

    /// Moves building instance `instance_id` to `(grid_x, grid_y)` (see
    /// [`move_decision`] and [`move_outcome`]).
    pub fn move_building(&mut self, instance_id: &str, grid_x: i32, grid_y: i32) -> (message: ServerMessage)
        ensures
            move_outcome(*old(self), *final(self), instance_id@, grid_x, grid_y, message),
    {
        let intent = "move_building";
        if !self.shared_world_active() {
            return self.rejected(intent, "village_unavailable");
        }
        let b = match find_building_by_instance(&self.buildings.buildings, instance_id) {
            Some(b) => b,
            None => {
                return self.rejected(intent, "building_instance_unknown");
            },
        };
        if find_trader_at(&self.hunter_roster.hunters, instance_id).is_some() {
            return self.rejected(intent, "building_has_incoming_hunter");
        }
        if !base_building_id_valid(self.buildings.buildings[b].id.as_str()) {
            return self.rejected(intent, "building_unknown");
        }
        let base = match self.building_content.catalog.base(self.buildings.buildings[b].id.as_str()) {
            Some(base) => base,
            None => {
                return self.rejected(intent, "building_unknown");
            },
        };
        let (grid_width, grid_height) = match building_grid_size(base) {
            Some(size) => size,
            None => {
                return self.rejected(intent, "grid_size_unresolved");
            },
        };
        if !placement_is_valid(
            &self.buildings.buildings,
            &self.building_content.catalog,
            grid_x,
            grid_y,
            grid_width,
            grid_height,
            Some(b),
        ) {
            return self.rejected(intent, "placement_blocked");
        }
        let ghost before = self.buildings.buildings@;
        self.buildings.buildings[b].grid_x = grid_x;
        self.buildings.buildings[b].grid_y = grid_y;
        assert(self.buildings.buildings@ =~= before.update(
            b as int,
            DurableBuilding { grid_x, grid_y, ..before[b as int] },
        ));
        self.accepted(intent)
    }
}

} // verus!
