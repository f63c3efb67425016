use vstd::prelude::*;

use crate::contracts::{DurableTradeSettlement, HunterAgentState};
use crate::ids::{id_text, id_to_text};
use crate::roster::{command_key, hunt_is_idle, released, release_hunter_from_trade, DurableHunterState};
use crate::session_trade::{
    affordable_sale, hunting_ordinary, is_hunting_ordinary, sale_walk_begun, schedule_decision, ScheduleDecision,
};
use crate::seqs::first_index;
use crate::session::{OriginalFlowSession, ServerMessage};
use crate::session_services::{find_hunter_index, hunter_has_id};
use crate::session_settlement::{loot_settled, settle_decision, settle_outcome, SettleDecision};
use crate::text::{append_str, chars_of, has_prefix, starts_with, str_eq};

verus! {

/// Where a Hunter's walking agent stands in the town world.
pub struct HunterAgentPosition {
    pub hunter_id: u32,
    /// The hunting region the agent is in, if any.
    pub region_id: Option<String>,
    /// Progress of the agent's entry into a field; 0 in town.
    pub entry_stage: u8,
    pub x: i32,
    pub y: i32,
}

/// Whether an agent of Hunter `hunter_id` stands in town, fully out of any
/// field, on tile (`x`, `y`).
pub open spec fn agent_at(agents: Seq<HunterAgentPosition>, hunter_id: u32, x: i32, y: i32) -> bool {
    exists|k: int|
        0 <= k < agents.len() && #[trigger] agents[k].hunter_id == hunter_id && agents[k].region_id is None
            && agents[k].entry_stage == 0 && agents[k].x == x && agents[k].y == y
}

/// Where the session's world agents stand, as positions.
pub open spec fn agent_positions(agents: Seq<HunterAgentState>) -> Seq<HunterAgentPosition> {
    agents.map_values(
        |agent: HunterAgentState|
            HunterAgentPosition {
                hunter_id: agent.hunter_id,
                region_id: agent.region_id,
                entry_stage: agent.entry_stage,
                x: agent.x,
                y: agent.y,
            },
    )
}

/// The positions of the session's world agents (see [`agent_positions`]).
pub fn recorded_agent_positions(agents: &Vec<HunterAgentState>) -> (positions: Vec<HunterAgentPosition>)
    ensures
        positions@ == agent_positions(agents@),
{
    let mut positions: Vec<HunterAgentPosition> = Vec::new();
    let mut i: usize = 0;
    while i < agents.len()
        invariant
            0 <= i <= agents@.len(),
            positions@ == agent_positions(agents@.take(i as int)),
        decreases agents@.len() - i,
    {
        let agent = &agents[i];
        let region_id = match &agent.region_id {
            Some(region) => Some(region.clone()),
            None => None,
        };
        positions.push(
            HunterAgentPosition {
                hunter_id: agent.hunter_id,
                region_id,
                entry_stage: agent.entry_stage,
                x: agent.x,
                y: agent.y,
            },
        );
        assert(agents@.take(i + 1) =~= agents@.take(i as int).push(agents@[i as int]));
        i = i + 1;
    }
    assert(agents@.take(agents@.len() as int) =~= agents@);
    positions
}

/// The trades whose Hunter stands on its interaction point, in roster
/// order: Hunter id, command id and whether only requested loot is sold.
pub open spec fn arrivals(hunters: Seq<DurableHunterState>, agents: Seq<HunterAgentPosition>) -> Seq<(u32, u128, bool)>
    decreases hunters.len(),
{
    if hunters.len() == 0 {
        seq![]
    } else {
        let earlier = arrivals(hunters.drop_last(), agents);
        let hunter = hunters.last();
        match hunter.hunt.pending_trade {
            Some(task) => if agent_at(agents, hunter.hunter_id, task.interaction_x, task.interaction_y) {
                earlier.push((hunter.hunter_id, task.command_id, task.requested_only))
            } else {
                earlier
            },
            None => earlier,
        }
    }
}

/// The first Hunter with `hunter_id`, if any, is released from its trade;
/// nothing else changes.
pub open spec fn trade_released(before: OriginalFlowSession, after: OriginalFlowSession, hunter_id: u32) -> bool {
    match first_index(before.hunter_roster.hunters@, hunter_has_id(hunter_id)) {
        None => after == before,
        Some(h) => {
            &&& after.hunter_roster.hunters@.len() == before.hunter_roster.hunters@.len()
            &&& forall|k: int| 0 <= k < before.hunter_roster.hunters@.len() && k != h ==> #[trigger] after.hunter_roster.hunters@[k]
                == before.hunter_roster.hunters@[k]
            &&& released(before.hunter_roster.hunters@[h], after.hunter_roster.hunters@[h])
            &&& after == OriginalFlowSession {
                hunter_roster: crate::roster::DurableHunterRosterState {
                    hunters: after.hunter_roster.hunters,
                    ..before.hunter_roster
                },
                ..before
            }
        },
    }
}

/// One arrived trade is settled; a refused settlement releases the Hunter
/// from its trade instead.
pub open spec fn arrival_settled(before: OriginalFlowSession, after: OriginalFlowSession, arrival: (u32, u128, bool)) -> bool {
    match settle_decision(before, arrival.1, arrival.0, arrival.2) {
        SettleDecision::Replay => after == before,
        SettleDecision::Reject(_) => trade_released(before, after, arrival.0),
        SettleDecision::Settle(priced) => loot_settled(before, after, arrival.1, arrival.0, priced),
    }
}

/// The arrived trades are settled one after another, in order.
pub open spec fn arrivals_settled(
    before: OriginalFlowSession,
    after: OriginalFlowSession,
    arrived: Seq<(u32, u128, bool)>,
) -> bool
    decreases arrived.len(),
{
    if arrived.len() == 0 {
        after == before
    } else {
        exists|mid: OriginalFlowSession|
            arrivals_settled(before, mid, arrived.drop_last()) && #[trigger] arrival_settled(mid, after, arrived.last())
    }
}

/// Whether an agent of the Hunter stands on the given tile in town.
fn agent_stands_at(agents: &Vec<HunterAgentPosition>, hunter_id: u32, x: i32, y: i32) -> (at: bool)
    ensures
        at == agent_at(agents@, hunter_id, x, y),
{
    let mut k: usize = 0;
    while k < agents.len()
        invariant
            0 <= k <= agents@.len(),
            forall|j: int|
                0 <= j < k ==> !(#[trigger] agents@[j].hunter_id == hunter_id && agents@[j].region_id is None
                    && agents@[j].entry_stage == 0 && agents@[j].x == x && agents@[j].y == y),
        decreases agents@.len() - k,
    {
        let agent = &agents[k];
        if agent.hunter_id == hunter_id && agent.region_id.is_none() && agent.entry_stage == 0 && agent.x == x
            && agent.y == y {
            return true;
        }
        k = k + 1;
    }
    false
}

/// The trades whose Hunter has arrived (see [`arrivals`]).
fn arrived_trades(hunters: &Vec<DurableHunterState>, agents: &Vec<HunterAgentPosition>) -> (arrived: Vec<(u32, u128, bool)>)
    ensures
        arrived@ == arrivals(hunters@, agents@),
{
    let mut arrived: Vec<(u32, u128, bool)> = Vec::new();
    let mut i: usize = 0;
    while i < hunters.len()
        invariant
            0 <= i <= hunters@.len(),
            arrived@ == arrivals(hunters@.take(i as int), agents@),
        decreases hunters@.len() - i,
    {
        assert(hunters@.take(i + 1).drop_last() =~= hunters@.take(i as int));
        let hunter = &hunters[i];
        match &hunter.hunt.pending_trade {
            Some(task) => {
                if agent_stands_at(agents, hunter.hunter_id, task.interaction_x, task.interaction_y) {
                    arrived.push((hunter.hunter_id, task.command_id, task.requested_only));
                }
            },
            None => {},
        }
        i = i + 1;
    }
    assert(hunters@.take(hunters@.len() as int) =~= hunters@);
    arrived
}

impl OriginalFlowSession {
    /// Releases the first Hunter with `hunter_id` from its trade.
    fn release_trade_of(&mut self, hunter_id: u32)
        ensures
            trade_released(*old(self), *final(self), hunter_id),
    {
        match find_hunter_index(&self.hunter_roster.hunters, hunter_id) {
            Some(h) => {
                release_hunter_from_trade(&mut self.hunter_roster.hunters[h]);
            },
            None => {},
        }
    }

    /// Settles the trades of Hunters standing on their interaction points
    /// (see [`arrivals`] and [`arrival_settled`]).
    pub fn settle_arrived_hunter_trades(&mut self, agents: &Vec<HunterAgentPosition>)
        ensures
            arrivals_settled(*old(self), *final(self), arrivals(old(self).hunter_roster.hunters@, agents@)),
            final(self).state == old(self).state,
            final(self).visual_tick == old(self).visual_tick,
            final(self).hunter_world_runtime == old(self).hunter_world_runtime,
    {
        let arrived = arrived_trades(&self.hunter_roster.hunters, agents);
        let ghost all = arrived@;
        let mut i: usize = 0;
        assert(all.take(0) =~= Seq::<(u32, u128, bool)>::empty());
        while i < arrived.len()
            invariant
                0 <= i <= all.len(),
                arrived@ == all,
                arrivals_settled(*old(self), *self, all.take(i as int)),
                self.state == old(self).state,
                self.visual_tick == old(self).visual_tick,
                self.hunter_world_runtime == old(self).hunter_world_runtime,
            decreases all.len() - i,
        {
            let ghost mid = *self;
            let (hunter_id, command_id, requested_only) = arrived[i];
            let message = self.settle_hunter_loot_internal(command_id, hunter_id, requested_only);
            let refused = match &message {
                ServerMessage::IntentResult { accepted, .. } => !*accepted,
                _ => false,
            };
            if refused {
                self.release_trade_of(hunter_id);
            }
            proof {
                let next = all.take(i + 1);
                assert(next.drop_last() =~= all.take(i as int));
                assert(next.last() == all[i as int]);
                assert(arrival_settled(mid, *self, next.last()));
            }
            i = i + 1;
        }
        assert(all.take(all.len() as int) =~= all);
    }
}

/// The first sequence number tried for an automatic settlement id: one past
/// the number of settlements, held at `u32::MAX`.
pub open spec fn first_sequence(settlements: int) -> int {
    if settlements >= u32::MAX {
        u32::MAX as int
    } else {
        settlements + 1
    }
}

/// Candidate `j` for an automatic settlement id of Hunter `hunter_id`: the
/// field trip (at least the first) in the high 64 bits, the Hunter id in the
/// next 32, and the `j`-th sequence number after the first, wrapping, in the
/// low 32.
pub open spec fn settlement_candidate(session: OriginalFlowSession, hunter_id: u32, j: int) -> u128 {
    let trip: int = if session.buildings.field_trip_id >= 1 {
        session.buildings.field_trip_id as int
    } else {
        1
    };
    let sequence = (first_sequence(session.buildings.trade_settlements@.len() as int) + j) % 0x1_0000_0000;
    (trip * 0x1_0000_0000_0000_0000 + hunter_id * 0x1_0000_0000 + sequence) as u128
}

/// Whether a settlement row is booked under the id text `text`, alone or as
/// one of its numbered lines.
pub open spec fn settlement_booked(settlements: Seq<DurableTradeSettlement>, text: Seq<char>) -> bool {
    exists|k: int|
        0 <= k < settlements.len() && (#[trigger] settlements[k].settlement_id@ == text || has_prefix(
            settlements[k].settlement_id@,
            text + ":"@,
        ))
}

/// Whether an id is unused by settlements and recorded commands.
pub open spec fn settlement_id_free(session: OriginalFlowSession, id: u128) -> bool {
    !settlement_booked(session.buildings.trade_settlements@, id_text(id)) && command_key(
        session.hunter_roster.hunt_commands@,
        id,
    ) is None
}

/// The first free candidate from the `j`-th on, over one full turn of the
/// sequence numbers.
pub open spec fn first_free_candidate(session: OriginalFlowSession, hunter_id: u32, j: int) -> Option<u128>
    decreases 0x1_0000_0000 - j,
{
    if j < 0 || j >= 0x1_0000_0000 {
        None
    } else if settlement_id_free(session, settlement_candidate(session, hunter_id, j)) {
        Some(settlement_candidate(session, hunter_id, j))
    } else {
        first_free_candidate(session, hunter_id, j + 1)
    }
}

/// The id of the next automatic sale of a Hunter: the first free candidate,
/// if any of the whole turn of sequence numbers is free.
pub open spec fn next_settlement_id(session: OriginalFlowSession, hunter_id: u32) -> Option<u128> {
    first_free_candidate(session, hunter_id, 0)
}

/// Whether a settlement row is booked under `text` (see
/// [`settlement_booked`]).
fn settlement_is_booked(settlements: &Vec<DurableTradeSettlement>, text: &String) -> (booked: bool)
    ensures
        booked == settlement_booked(settlements@, text@),
{
    let mut lined = chars_of(text.as_str());
    append_str(&mut lined, ":");
    let mut k: usize = 0;
    while k < settlements.len()
        invariant
            0 <= k <= settlements@.len(),
            lined@ == text@ + ":"@,
            forall|j: int|
                0 <= j < k ==> !(#[trigger] settlements@[j].settlement_id@ == text@ || has_prefix(
                    settlements@[j].settlement_id@,
                    text@ + ":"@,
                )),
        decreases settlements@.len() - k,
    {
        let id = &settlements[k].settlement_id;
        if str_eq(id.as_str(), text.as_str()) || starts_with(&chars_of(id.as_str()), &lined) {
            return true;
        }
        k = k + 1;
    }
    false
}

impl OriginalFlowSession {
    /// The id of the next automatic sale of Hunter `hunter_id` (see
    /// [`next_settlement_id`]); `None` only when every candidate is taken.
    pub fn next_auto_trade_settlement_id(&self, hunter_id: u32) -> (id: Option<u128>)
        ensures
            id == next_settlement_id(*self, hunter_id),
    {
        let count = self.buildings.trade_settlements.len();
        let first: u64 = if count >= 0xffff_ffff {
            0xffff_ffff
        } else {
            count as u64 + 1
        };
        let trip: u64 = if self.buildings.field_trip_id >= 1 {
            self.buildings.field_trip_id
        } else {
            1
        };
        let mut j: u64 = 0;
        while j < 0x1_0000_0000
            invariant
                j <= 0x1_0000_0000,
                first == first_sequence(self.buildings.trade_settlements@.len() as int),
                trip == (if self.buildings.field_trip_id >= 1 { self.buildings.field_trip_id } else { 1 }),
                first_free_candidate(*self, hunter_id, 0) == first_free_candidate(*self, hunter_id, j as int),
            decreases 0x1_0000_0000 - j,
        {
            let sequence: u64 = (first + j) % 0x1_0000_0000;
            let candidate: u128 = (trip as u128) * 0x1_0000_0000_0000_0000 + (hunter_id as u128) * 0x1_0000_0000
                + (sequence as u128);
            assert(candidate == settlement_candidate(*self, hunter_id, j as int));
            let text = id_to_text(candidate);
            if !settlement_is_booked(&self.buildings.trade_settlements, &text) && self.hunter_roster.command_key(
                candidate,
            ).is_none() {
                return Some(candidate);
            }
            j = j + 1;
        }
        None
    }
}

/// A Hunter sells requested loot on its own when it has no trade under way,
/// is idle or hunts an ordinary region, and carries requested loot the town
/// can afford.
pub open spec fn auto_seller(session: OriginalFlowSession, hunter: DurableHunterState) -> bool {
    &&& hunter.hunt.pending_trade is None
    &&& hunt_is_idle(hunter.hunt) || hunting_ordinary(hunter, session.building_content)
    &&& affordable_sale(hunter.hunt.loot@, session.buildings, session.building_content.gameplay.items@, true)
}

/// The ids of the Hunters among `hunters` that sell on their own, in order.
pub open spec fn auto_sellers(session: OriginalFlowSession, hunters: Seq<DurableHunterState>) -> Seq<u32>
    decreases hunters.len(),
{
    if hunters.len() == 0 {
        seq![]
    } else {
        let earlier = auto_sellers(session, hunters.drop_last());
        if auto_seller(session, hunters.last()) {
            earlier.push(hunters.last().hunter_id)
        } else {
            earlier
        }
    }
}

/// One automatic sale: under the next free settlement id, the Hunter
/// starts walking to sell requested loot when the walk is accepted as new;
/// otherwise nothing changes.
pub open spec fn auto_sale_started(before: OriginalFlowSession, after: OriginalFlowSession, hunter_id: u32) -> bool {
    match next_settlement_id(before, hunter_id) {
        None => after == before,
        Some(id) => match schedule_decision(before, id, hunter_id, true) {
            ScheduleDecision::Begin => sale_walk_begun(before, after, id, hunter_id, true),
            _ => after == before,
        },
    }
}

/// The automatic sales of the listed Hunters, one after another.
pub open spec fn auto_sales_started(before: OriginalFlowSession, after: OriginalFlowSession, sellers: Seq<u32>) -> bool
    decreases sellers.len(),
{
    if sellers.len() == 0 {
        after == before
    } else {
        exists|mid: OriginalFlowSession|
            auto_sales_started(before, mid, sellers.drop_last()) && #[trigger] auto_sale_started(mid, after, sellers.last())
    }
}

impl OriginalFlowSession {
    /// The ids of the Hunters that sell on their own (see
    /// [`auto_sellers`]).
    fn auto_seller_ids(&self) -> (ids: Vec<u32>)
        ensures
            ids@ == auto_sellers(*self, self.hunter_roster.hunters@),
    {
        let hunters = &self.hunter_roster.hunters;
        let mut ids: Vec<u32> = Vec::new();
        let mut i: usize = 0;
        while i < hunters.len()
            invariant
                0 <= i <= hunters@.len(),
                hunters@ == self.hunter_roster.hunters@,
                ids@ == auto_sellers(*self, hunters@.take(i as int)),
            decreases hunters@.len() - i,
        {
            assert(hunters@.take(i + 1).drop_last() =~= hunters@.take(i as int));
            let hunter = &hunters[i];
            let eligible = hunter.hunt.pending_trade.is_none() && (hunter.hunt.is_idle() || is_hunting_ordinary(
                hunter,
                &self.building_content,
            )) && self.has_affordable_auto_sale(hunter);
            if eligible {
                ids.push(hunter.hunter_id);
            }
            i = i + 1;
        }
        assert(hunters@.take(hunters@.len() as int) =~= hunters@);
        ids
    }

    /// Starts the automatic sales of requested loot (see [`auto_sellers`]
    /// and [`auto_sale_started`]).
    pub fn auto_sell_requested_hunter_loot(&mut self)
        ensures
            auto_sales_started(*old(self), *final(self), auto_sellers(*old(self), old(self).hunter_roster.hunters@)),
            final(self).state == old(self).state,
            final(self).visual_tick == old(self).visual_tick,
            final(self).hunter_world_runtime == old(self).hunter_world_runtime,
    {
        let sellers = self.auto_seller_ids();
        let ghost all = sellers@;
        let mut i: usize = 0;
        assert(all.take(0) =~= Seq::<u32>::empty());
        while i < sellers.len()
            invariant
                0 <= i <= all.len(),
                sellers@ == all,
                auto_sales_started(*old(self), *self, all.take(i as int)),
                self.state == old(self).state,
                self.visual_tick == old(self).visual_tick,
                self.hunter_world_runtime == old(self).hunter_world_runtime,
            decreases all.len() - i,
        {
            let ghost mid = *self;
            let hunter_id = sellers[i];
            match self.next_auto_trade_settlement_id(hunter_id) {
                Some(id) => {
                    let _ = self.schedule_hunter_loot_sale(id, hunter_id, true);
                },
                None => {},
            }
            proof {
                let next = all.take(i + 1);
                assert(next.drop_last() =~= all.take(i as int));
                assert(next.last() == all[i as int]);
                assert(auto_sale_started(mid, *self, next.last()));
            }
            i = i + 1;
        }
        assert(all.take(all.len() as int) =~= all);
    }
}

/// One kind of material a Hunter carries to the Trading Post, as shown.
#[derive(Clone, Debug, PartialEq, Eq)]
pub struct TradeMaterialPresentationSnapshot {
    pub material_id: String,
    pub display_name: String,
    pub quantity: u32,
}

/// The name a carried material is shown under: its Vietnamese name, else
/// its English name, else its internal name, else its id.
pub open spec fn trade_display_name(items: Seq<crate::catalog::EconomyItemDefinition>, id: Seq<char>) -> Seq<char> {
    match crate::catalog::find_item(items, id) {
        None => id,
        Some(item) => match crate::material_catalog::localized_name(item, "vi"@) {
            Some(name) => name,
            None => match crate::material_catalog::localized_name(item, "en"@) {
                Some(name) => name,
                None => match item.internal_name {
                    Some(name) => name@,
                    None => id,
                },
            },
        },
    }
}

impl OriginalFlowSession {
    /// The carried materials of a trading Hunter (pairs of material id and
    /// quantity), in order, under their display names.
    pub fn trade_material_presentations(&self, materials: &Vec<(String, u32)>) -> (rows: Vec<
        TradeMaterialPresentationSnapshot,
    >)
        ensures
            rows@.len() == materials@.len(),
            forall|k: int|
                0 <= k < materials@.len() ==> {
                    let row = #[trigger] rows@[k];
                    &&& row.material_id@ == materials@[k].0@
                    &&& row.display_name@ == trade_display_name(self.building_content.gameplay.items@, materials@[k].0@)
                    &&& row.quantity == materials@[k].1
                },
    {
        let mut rows: Vec<TradeMaterialPresentationSnapshot> = Vec::new();
        let mut i: usize = 0;
        while i < materials.len()
            invariant
                0 <= i <= materials@.len(),
                rows@.len() == i,
                forall|k: int|
                    0 <= k < i ==> {
                        let row = #[trigger] rows@[k];
                        &&& row.material_id@ == materials@[k].0@
                        &&& row.display_name@ == trade_display_name(self.building_content.gameplay.items@, materials@[k].0@)
                        &&& row.quantity == materials@[k].1
                    },
            decreases materials@.len() - i,
        {
            let id = &materials[i].0;
            let display_name = match self.building_content.gameplay.item(id.as_str()) {
                None => id.clone(),
                Some(item) => match crate::material_catalog::localized_name_of(item, "vi") {
                    Some(name) => name.clone(),
                    None => match crate::material_catalog::localized_name_of(item, "en") {
                        Some(name) => name.clone(),
                        None => match &item.internal_name {
                            Some(name) => name.clone(),
                            None => id.clone(),
                        },
                    },
                },
            };
            rows.push(
                TradeMaterialPresentationSnapshot { material_id: id.clone(), display_name, quantity: materials[i].1 },
            );
            i = i + 1;
        }
        rows
    }
}

} // verus!
