use vstd::prelude::*;

use crate::building_domain::{
    building_has_base, find_building_by_base, find_material_stock, footprints_of, interaction_point_of,
    stock_has_id, town_building_interaction_point, town_navigation_obstacles,
};
use crate::catalog::{find_item, AuthoritativeBuildingContent, EconomyItemDefinition};
use crate::contracts::{DurableBuildingState, DurableMaterialStock};
use crate::roster::{
    command_key, hunt_is_idle, resumed, returning_to_trade, same_except_workflow, DurableHunterLoot,
    DurableHunterState, DurableHunterTradeTask, HunterTradeWorkflow, HUNTER_TRADE_WORKFLOW_VERSION,
};
use crate::seqs::first_index;
use crate::session::{is_accepted, is_rejected, world_active, OriginalFlowSession, ServerMessage};
use crate::session_services::{find_hunter_index, has_visit_for, hunter_has_id, hunter_has_visit};
use crate::text::{append_decimal, append_str, decimal_text, str_eq, string_from_chars};

verus! {

/// Whether `zone` is one of the content's ordinary hunting regions.
pub open spec fn ordinary_region(content: AuthoritativeBuildingContent, zone: Seq<char>) -> bool {
    exists|i: int| 0 <= i < content.ordinary_hunt_regions@.len() && #[trigger] content.ordinary_hunt_regions@[i]@ == zone
}

/// Whether `zone` is an ordinary hunting region of the content.
pub fn is_ordinary_region(content: &AuthoritativeBuildingContent, zone: &str) -> (ordinary: bool)
    ensures
        ordinary == ordinary_region(*content, zone@),
{
    let mut i: usize = 0;
    while i < content.ordinary_hunt_regions.len()
        invariant
            0 <= i <= content.ordinary_hunt_regions@.len(),
            forall|k: int| 0 <= k < i ==> #[trigger] content.ordinary_hunt_regions@[k]@ != zone@,
        decreases content.ordinary_hunt_regions@.len() - i,
    {
        if str_eq(content.ordinary_hunt_regions[i].as_str(), zone) {
            return true;
        }
        i = i + 1;
    }
    false
}

/// A Hunter hunting in an ordinary region may sell requested loot from the
/// field.
pub open spec fn hunting_ordinary(hunter: DurableHunterState, content: AuthoritativeBuildingContent) -> bool {
    &&& hunter.hunt.status@ == "hunting"@
    &&& hunter.hunt.zone_id matches Some(zone) && ordinary_region(content, zone@)
}

/// Whether a Hunter hunts in an ordinary region.
pub(crate) fn is_hunting_ordinary(hunter: &DurableHunterState, content: &AuthoritativeBuildingContent) -> (hunting: bool)
    ensures
        hunting == hunting_ordinary(*hunter, *content),
{
    if !str_eq(hunter.hunt.status.as_str(), "hunting") {
        return false;
    }
    match &hunter.hunt.zone_id {
        Some(zone) => is_ordinary_region(content, zone.as_str()),
        None => false,
    }
}

/// The command key of a loot sale by Hunter `hunter_id`.
pub open spec fn sale_key(hunter_id: u32) -> Seq<char> {
    "sell_hunter_loot:"@ + decimal_text(hunter_id as nat)
}

/// The command key of a loot sale by Hunter `hunter_id`.
pub(crate) fn sale_key_text(hunter_id: u32) -> (key: String)
    ensures
        key@ == sale_key(hunter_id),
{
    let mut chars: Vec<char> = Vec::new();
    append_str(&mut chars, "sell_hunter_loot:");
    append_decimal(&mut chars, hunter_id as u64);
    string_from_chars(&chars)
}

/// The gold the town pays per unit of an item, if priced.
pub open spec fn town_price(items: Seq<EconomyItemDefinition>, id: Seq<char>) -> Option<u64> {
    match find_item(items, id) {
        Some(item) => item.town_pays_hunter_gold_per_unit,
        None => None,
    }
}

/// Units of material `id` the town has requested.
pub open spec fn requested_units(stocks: Seq<DurableMaterialStock>, id: Seq<char>) -> u32 {
    match first_index(stocks, stock_has_id(id)) {
        Some(i) => stocks[i].requested,
        None => 0,
    }
}

/// Whether a Hunter's loot holds a sale the town can afford, reading the
/// rows in order: gold and empty rows are passed over; the first row of an
/// unknown or unpriced (or zero-priced) item answers no; the first row with
/// an eligible quantity (requested units only, when `requested_only`) and a
/// unit the wallet can pay for answers yes.
pub open spec fn affordable_sale(
    loot: Seq<DurableHunterLoot>,
    town: DurableBuildingState,
    items: Seq<EconomyItemDefinition>,
    requested_only: bool,
) -> bool
    decreases loot.len(),
{
    if loot.len() == 0 {
        false
    } else {
        let row = loot[0];
        let rest = loot.drop_first();
        if row.quantity == 0 || row.item_id@ == "gold"@ {
            affordable_sale(rest, town, items, requested_only)
        } else {
            match town_price(items, row.item_id@) {
                None => false,
                Some(price) => if price == 0 {
                    false
                } else {
                    let eligible: u32 = if requested_only {
                        let requested = requested_units(town.material_stocks@, row.item_id@);
                        match first_index(town.material_stocks@, stock_has_id(row.item_id@)) {
                            Some(_) => if row.quantity <= requested { row.quantity } else { requested },
                            None => 0,
                        }
                    } else {
                        row.quantity
                    };
                    if eligible > 0 && town.town_gold >= price {
                        true
                    } else {
                        affordable_sale(rest, town, items, requested_only)
                    }
                },
            }
        }
    }
}

/// The price the town pays for an item.
fn town_price_of(items: &Vec<EconomyItemDefinition>, id: &str) -> (price: Option<u64>)
    ensures
        price == town_price(items@, id@),
{
    let mut i: usize = 0;
    assert(items@.subrange(0, items@.len() as int) =~= items@);
    while i < items.len()
        invariant
            0 <= i <= items@.len(),
            find_item(items@, id@) == find_item(items@.subrange(i as int, items@.len() as int), id@),
        decreases items@.len() - i,
    {
        let ghost rest = items@.subrange(i as int, items@.len() as int);
        assert(rest.drop_first() =~= items@.subrange(i + 1, items@.len() as int));
        if str_eq(items[i].item_id.as_str(), id) {
            return items[i].town_pays_hunter_gold_per_unit;
        }
        i = i + 1;
    }
    None
}

impl OriginalFlowSession {
    /// Whether `hunter` carries a sale the town can afford (see
    /// [`affordable_sale`]).
    pub fn has_affordable_sale(&self, hunter: &DurableHunterState, requested_only: bool) -> (affordable: bool)
        ensures
            affordable == affordable_sale(
                hunter.hunt.loot@,
                self.buildings,
                self.building_content.gameplay.items@,
                requested_only,
            ),
    {
        let loot = &hunter.hunt.loot;
        let ghost items = self.building_content.gameplay.items@;
        let mut i: usize = 0;
        assert(loot@.subrange(0, loot@.len() as int) =~= loot@);
        while i < loot.len()
            invariant
                0 <= i <= loot@.len(),
                loot@ == hunter.hunt.loot@,
                items == self.building_content.gameplay.items@,
                affordable_sale(loot@, self.buildings, items, requested_only) == affordable_sale(
                    loot@.subrange(i as int, loot@.len() as int),
                    self.buildings,
                    items,
                    requested_only,
                ),
            decreases loot@.len() - i,
        {
            let ghost rest = loot@.subrange(i as int, loot@.len() as int);
            assert(rest.drop_first() =~= loot@.subrange(i + 1, loot@.len() as int));
            assert(rest[0] == loot@[i as int]);
            let row = &loot[i];
            if row.quantity == 0 || str_eq(row.item_id.as_str(), "gold") {
                i = i + 1;
                continue;
            }
            let price = match town_price_of(&self.building_content.gameplay.items, row.item_id.as_str()) {
                Some(price) => price,
                None => {
                    assert(!affordable_sale(rest, self.buildings, items, requested_only));
                    return false;
                },
            };
            if price == 0 {
                assert(!affordable_sale(rest, self.buildings, items, requested_only));
                return false;
            }
            let eligible: u32 = if requested_only {
                match find_material_stock(&self.buildings.material_stocks, row.item_id.as_str()) {
                    Some(s) => {
                        let requested = self.buildings.material_stocks[s].requested;
                        if row.quantity <= requested {
                            row.quantity
                        } else {
                            requested
                        }
                    },
                    None => 0,
                }
            } else {
                row.quantity
            };
            if eligible > 0 && self.buildings.town_gold >= price {
                return true;
            }
            i = i + 1;
        }
        false
    }

    /// Whether `hunter` carries requested loot the town can afford.
    pub fn has_affordable_auto_sale(&self, hunter: &DurableHunterState) -> (affordable: bool)
        ensures
            affordable == affordable_sale(hunter.hunt.loot@, self.buildings, self.building_content.gameplay.items@, true),
    {
        self.has_affordable_sale(hunter, true)
    }
}

/// How a request to walk a Hunter to the Trading Post is answered.
pub enum ScheduleDecision {
    /// Accepted again with no change: the command id was already used for
    /// this sale, or the Hunter already walks under it.
    Replay,
    /// Refused with a reason, with no change.
    Reject(Seq<char>),
    /// Accepted: the Hunter starts walking to the Trading Post.
    Begin,
}

/// The decision on a sale walk, checks in order.
pub open spec fn schedule_decision(
    session: OriginalFlowSession,
    command_id: u128,
    hunter_id: u32,
    requested_only: bool,
) -> ScheduleDecision {
    match command_key(session.hunter_roster.hunt_commands@, command_id) {
        Some(previous) => if previous == sale_key(hunter_id) {
            ScheduleDecision::Replay
        } else {
            ScheduleDecision::Reject("command id was already used for a different hunter action"@)
        },
        None => match first_index(session.hunter_roster.hunters@, hunter_has_id(hunter_id)) {
            None => ScheduleDecision::Reject("hunter is not in the active town roster"@),
            Some(h) => {
                let hunter = session.hunter_roster.hunters@[h];
                match hunter.hunt.pending_trade {
                    Some(task) => if task.command_id == command_id {
                        ScheduleDecision::Replay
                    } else {
                        ScheduleDecision::Reject("hunter is already traveling to trade"@)
                    },
                    None => {
                        let field_sale = requested_only && hunting_ordinary(hunter, session.building_content);
                        if hunter.current_hp == 0 || hunter.hunt.gear_enhancement is Some || hunter_has_visit(
                            session.product_services.visits@,
                            hunter_id,
                        ) || (!hunt_is_idle(hunter.hunt) && !field_sale) {
                            ScheduleDecision::Reject("hunter is unavailable for trade"@)
                        } else if !affordable_sale(
                            hunter.hunt.loot@,
                            session.buildings,
                            session.building_content.gameplay.items@,
                            requested_only,
                        ) {
                            ScheduleDecision::Reject("hunter has no affordable requested loot"@)
                        } else {
                            match first_index(session.buildings.buildings@, building_has_base("build_3"@)) {
                                None => ScheduleDecision::Reject("trading post is unavailable"@),
                                Some(b) => match interaction_point_of(
                                    session.buildings.buildings@[b],
                                    session.building_content.catalog,
                                    footprints_of(session.buildings.buildings@, session.building_content.catalog),
                                ) {
                                    None => ScheduleDecision::Reject("trading post path is unavailable"@),
                                    Some(_) => ScheduleDecision::Begin,
                                },
                            }
                        }
                    },
                }
            },
        },
    }
}

/// The walk started by an accepted sale: the first Hunter with the id
/// gives up its hunting zone and walks to the first Trading Post's
/// interaction point under the command id; nothing else changes.
pub open spec fn sale_walk_begun(
    before: OriginalFlowSession,
    after: OriginalFlowSession,
    command_id: u128,
    hunter_id: u32,
    requested_only: bool,
) -> bool {
    let h = first_index(before.hunter_roster.hunters@, hunter_has_id(hunter_id)).unwrap();
    let b = first_index(before.buildings.buildings@, building_has_base("build_3"@)).unwrap();
    let post = before.buildings.buildings@[b];
    let point = interaction_point_of(
        post,
        before.building_content.catalog,
        footprints_of(before.buildings.buildings@, before.building_content.catalog),
    ).unwrap();
    let old_hunter = before.hunter_roster.hunters@[h];
    let new_hunter = after.hunter_roster.hunters@[h];
    &&& after.hunter_roster.hunters@.len() == before.hunter_roster.hunters@.len()
    &&& forall|k: int| 0 <= k < before.hunter_roster.hunters@.len() && k != h ==> #[trigger] after.hunter_roster.hunters@[k]
        == before.hunter_roster.hunters@[k]
    &&& new_hunter.hunt.zone_id is None
    &&& new_hunter.hunt.pending_trade matches Some(task)
    &&& task.workflow_version == HUNTER_TRADE_WORKFLOW_VERSION
    &&& task.command_id == command_id
    &&& task.requested_only == requested_only
    &&& task.building_instance_id == post.instance_id
    &&& task.interaction_x == point.0
    &&& task.interaction_y == point.1
    &&& new_hunter.hunt.status@ == returning_to_trade()
    &&& new_hunter.profile.action_state@ == returning_to_trade()
    &&& new_hunter.profile.animation_name@ == "hunter_walk"@
    &&& new_hunter.hunt.gear_enhancement == old_hunter.hunt.gear_enhancement
    &&& same_except_workflow(old_hunter, new_hunter)
    &&& after == OriginalFlowSession {
        hunter_roster: crate::roster::DurableHunterRosterState { hunters: after.hunter_roster.hunters, ..before.hunter_roster },
        ..before
    }
}

/// The reply to and effect of a sale walk request.
pub open spec fn schedule_outcome(
    before: OriginalFlowSession,
    after: OriginalFlowSession,
    command_id: u128,
    hunter_id: u32,
    requested_only: bool,
    message: ServerMessage,
) -> bool {
    match schedule_decision(before, command_id, hunter_id, requested_only) {
        ScheduleDecision::Replay => is_accepted(message, "sell_hunter_loot"@) && after == before,
        ScheduleDecision::Reject(reason) => is_rejected(message, "sell_hunter_loot"@, reason) && after == before,
        ScheduleDecision::Begin => is_accepted(message, "sell_hunter_loot"@) && sale_walk_begun(
            before,
            after,
            command_id,
            hunter_id,
            requested_only,
        ),
    }
}

/// The reply to and effect of a player's sell command: refused outside the
/// shared world; otherwise a walk that sells requested loot only when the
/// Hunter hunts an ordinary region, and all its loot otherwise.
pub open spec fn sell_outcome(
    before: OriginalFlowSession,
    after: OriginalFlowSession,
    command_id: u128,
    hunter_id: u32,
    message: ServerMessage,
) -> bool {
    if !world_active(before.state.screen) {
        is_rejected(message, "sell_hunter_loot"@, "village_unavailable"@) && after == before
    } else {
        let requested_only = match first_index(before.hunter_roster.hunters@, hunter_has_id(hunter_id)) {
            Some(h) => hunting_ordinary(before.hunter_roster.hunters@[h], before.building_content),
            None => false,
        };
        schedule_outcome(before, after, command_id, hunter_id, requested_only, message)
    }
}

impl OriginalFlowSession {
    /// Sends a Hunter to the Trading Post to sell its loot under
    /// `command_id` (see [`schedule_decision`]).
    pub fn schedule_hunter_loot_sale(&mut self, command_id: u128, hunter_id: u32, requested_only: bool) -> (message: ServerMessage)
        ensures
            schedule_outcome(*old(self), *final(self), command_id, hunter_id, requested_only, message),
    {
        let intent = "sell_hunter_loot";
        let key = sale_key_text(hunter_id);
        match self.hunter_roster.command_key(command_id) {
            Some(previous) => {
                return if str_eq(previous.as_str(), key.as_str()) {
                    self.accepted(intent)
                } else {
                    self.rejected(intent, "command id was already used for a different hunter action")
                };
            },
            None => {},
        }
        let h = match find_hunter_index(&self.hunter_roster.hunters, hunter_id) {
            Some(h) => h,
            None => {
                return self.rejected(intent, "hunter is not in the active town roster");
            },
        };
        match &self.hunter_roster.hunters[h].hunt.pending_trade {
            Some(task) => {
                return if task.command_id == command_id {
                    self.accepted(intent)
                } else {
                    self.rejected(intent, "hunter is already traveling to trade")
                };
            },
            None => {},
        }
        let field_sale = requested_only && is_hunting_ordinary(&self.hunter_roster.hunters[h], &self.building_content);
        let hunter = &self.hunter_roster.hunters[h];
        if hunter.current_hp == 0 || hunter.hunt.gear_enhancement.is_some() || has_visit_for(
            &self.product_services.visits,
            hunter_id,
        ) || (!hunter.hunt.is_idle() && !field_sale) {
            return self.rejected(intent, "hunter is unavailable for trade");
        }
        if !self.has_affordable_sale(&self.hunter_roster.hunters[h], requested_only) {
            return self.rejected(intent, "hunter has no affordable requested loot");
        }
        let obstacles = town_navigation_obstacles(&self.buildings.buildings, &self.building_content.catalog);
        proof {
            reveal_strlit("build_3");
        }
        let b = match find_building_by_base(&self.buildings.buildings, "build_3") {
            Some(b) => b,
            None => {
                return self.rejected(intent, "trading post is unavailable");
            },
        };
        let (x, y) = match town_building_interaction_point(
            &self.buildings.buildings[b],
            &self.building_content.catalog,
            &obstacles,
        ) {
            Some(point) => point,
            None => {
                return self.rejected(intent, "trading post path is unavailable");
            },
        };
        let task = DurableHunterTradeTask {
            workflow_version: HUNTER_TRADE_WORKFLOW_VERSION,
            command_id,
            requested_only,
            building_instance_id: self.buildings.buildings[b].instance_id.clone(),
            interaction_x: x,
            interaction_y: y,
        };
        HunterTradeWorkflow::begin(&mut self.hunter_roster.hunters[h], task);
        self.accepted(intent)
    }

    /// A player's command to sell a Hunter's loot (see [`sell_outcome`]).
    pub fn sell_hunter_loot(&mut self, command_id: u128, hunter_id: u32) -> (message: ServerMessage)
        ensures
            sell_outcome(*old(self), *final(self), command_id, hunter_id, message),
    {
        if !self.shared_world_active() {
            return self.rejected("sell_hunter_loot", "village_unavailable");
        }
        let requested_only = match find_hunter_index(&self.hunter_roster.hunters, hunter_id) {
            Some(h) => is_hunting_ordinary(&self.hunter_roster.hunters[h], &self.building_content),
            None => false,
        };
        self.schedule_hunter_loot_sale(command_id, hunter_id, requested_only)
    }
}

} // verus!
