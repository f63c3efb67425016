use vstd::prelude::*;

use crate::building_domain::{building_has_instance, find_building_by_instance};
use crate::catalog::{find_product, EconomyProductDefinition};
use crate::contracts::{
    DurableBuilding, DurableBuildingState, DurableProductServiceState, DurableProductServiceVisit, DurableProductStock,
};
use crate::persistence::copy_service_visit;
use crate::product_service::{
    capacity_for_level, capacity_spec, gauge_needs_service, gauge_resolved, service_kind_binding,
    service_kind_for, service_kind_name, ServiceEffectKind,
};
use crate::roster::{
    hunter_service_gauge, restore_hunter_service_gauge, restored_hunter, service_gauge_of, shows,
    DurableHunterRosterState, DurableHunterState,
};
use crate::seqs::{first_index, lemma_first_index, lemma_first_index_is, lemma_first_index_none, lemma_first_index_update};
use crate::session::{
    is_accepted, is_binding_blocked, is_rejected, world_active, OriginalFlowSession, ServerMessage,
};
use crate::text::str_eq;

verus! {

/// A Hunter with id `id`.
pub open spec fn hunter_has_id(id: u32) -> spec_fn(DurableHunterState) -> bool {
    |h: DurableHunterState| h.hunter_id == id
}

/// Finds the first Hunter with id `hunter_id`.
pub fn find_hunter_index(hunters: &Vec<DurableHunterState>, hunter_id: u32) -> (index: Option<usize>)
    ensures
        index matches Some(i) ==> first_index(hunters@, hunter_has_id(hunter_id)) == Some(i as int) && i
            < hunters@.len() && hunters@[i as int].hunter_id == hunter_id,
        index is None ==> first_index(hunters@, hunter_has_id(hunter_id)) is None,
{
    let mut i: usize = 0;
    while i < hunters.len()
        invariant
            0 <= i <= hunters@.len(),
            forall|j: int| 0 <= j < i ==> !hunter_has_id(hunter_id)(#[trigger] hunters@[j]),
        decreases hunters@.len() - i,
    {
        if hunters[i].hunter_id == hunter_id {
            proof {
                lemma_first_index_is(hunters@, hunter_has_id(hunter_id), i as int);
            }
            return Some(i);
        }
        i = i + 1;
    }
    proof {
        lemma_first_index_none(hunters@, hunter_has_id(hunter_id));
    }
    None
}

/// A visit held at building instance `instance_id`.
pub open spec fn visit_at(instance_id: Seq<char>) -> spec_fn(DurableProductServiceVisit) -> bool {
    |v: DurableProductServiceVisit| v.building_instance_id@ == instance_id
}

/// Visits in progress at building instance `instance_id`.
pub open spec fn occupied_slots(visits: Seq<DurableProductServiceVisit>, instance_id: Seq<char>) -> nat {
    visits.filter(visit_at(instance_id)).len()
}

/// Counts the visits in progress at a building instance.
pub fn count_visits_at(visits: &Vec<DurableProductServiceVisit>, instance_id: &str) -> (count: usize)
    ensures
        count == occupied_slots(visits@, instance_id@),
{
    let mut count: usize = 0;
    let mut i: usize = 0;
    while i < visits.len()
        invariant
            0 <= i <= visits@.len(),
            count == visits@.take(i as int).filter(visit_at(instance_id@)).len(),
            count <= i,
        decreases visits@.len() - i,
    {
        proof {
            reveal(Seq::filter);
            assert(visits@.take(i + 1).drop_last() =~= visits@.take(i as int));
        }
        if str_eq(visits[i].building_instance_id.as_str(), instance_id) {
            count = count + 1;
        }
        i = i + 1;
    }
    assert(visits@.take(visits@.len() as int) =~= visits@);
    count
}

/// Some visit in progress belongs to Hunter `hunter_id`.
pub open spec fn hunter_has_visit(visits: Seq<DurableProductServiceVisit>, hunter_id: u32) -> bool {
    exists|i: int| 0 <= i < visits.len() && #[trigger] visits[i].hunter_id == hunter_id
}

/// Whether some visit in progress belongs to Hunter `hunter_id`.
pub fn has_visit_for(visits: &Vec<DurableProductServiceVisit>, hunter_id: u32) -> (found: bool)
    ensures
        found == hunter_has_visit(visits@, hunter_id),
{
    let mut i: usize = 0;
    while i < visits.len()
        invariant
            0 <= i <= visits@.len(),
            forall|k: int| 0 <= k < i ==> #[trigger] visits@[k].hunter_id != hunter_id,
        decreases visits@.len() - i,
    {
        if visits[i].hunter_id == hunter_id {
            return true;
        }
        i = i + 1;
    }
    false
}

/// The stock of product `product_id` at building instance `instance_id`.
pub open spec fn stock_for(instance_id: Seq<char>, product_id: Seq<char>) -> spec_fn(DurableProductStock) -> bool {
    |s: DurableProductStock| s.building_instance_id@ == instance_id && s.product_id@ == product_id
}

/// Finds the stock of a product at a building instance.
pub fn find_product_stock(stocks: &Vec<DurableProductStock>, instance_id: &str, product_id: &str) -> (index: Option<usize>)
    ensures
        index matches Some(i) ==> first_index(stocks@, stock_for(instance_id@, product_id@)) == Some(i as int)
            && i < stocks@.len(),
        index is None ==> first_index(stocks@, stock_for(instance_id@, product_id@)) is None,
{
    let ghost p = stock_for(instance_id@, product_id@);
    let mut i: usize = 0;
    while i < stocks.len()
        invariant
            0 <= i <= stocks@.len(),
            p == stock_for(instance_id@, product_id@),
            forall|j: int| 0 <= j < i ==> !p(#[trigger] stocks@[j]),
        decreases stocks@.len() - i,
    {
        if str_eq(stocks[i].building_instance_id.as_str(), instance_id) && str_eq(
            stocks[i].product_id.as_str(),
            product_id,
        ) {
            proof {
                lemma_first_index_is(stocks@, p, i as int);
            }
            return Some(i);
        }
        i = i + 1;
    }
    proof {
        lemma_first_index_none(stocks@, p);
    }
    None
}

/// The roster is ready for services of `kind`: roster and wallets are
/// resolved, every Hunter's gauge of that kind is resolved, and no Hunter
/// id occurs twice.
pub open spec fn roster_ready(roster: DurableHunterRosterState, kind: ServiceEffectKind) -> bool {
    &&& roster.roster_resolved
    &&& roster.wallets_resolved
    &&& forall|i: int| 0 <= i < roster.hunters@.len() ==> gauge_resolved(#[trigger] service_gauge_of(roster.hunters@[i], kind))
    &&& forall|i: int, j: int| 0 <= i < j < roster.hunters@.len() ==> #[trigger] roster.hunters@[i].hunter_id
        != #[trigger] roster.hunters@[j].hunter_id
}

/// The Hunter is busy elsewhere: in a visit, or (the first Hunter with the
/// id) walking to trade or in an enhancement visit.
pub open spec fn hunter_in_service(session: OriginalFlowSession, hunter_id: u32) -> bool {
    ||| hunter_has_visit(session.product_services.visits@, hunter_id)
    ||| match first_index(session.hunter_roster.hunters@, hunter_has_id(hunter_id)) {
        Some(i) => session.hunter_roster.hunters@[i].hunt.pending_trade is Some
            || session.hunter_roster.hunters@[i].hunt.gear_enhancement is Some,
        None => false,
    }
}

/// The kind of service whose bindings block a start, if the start is
/// blocked.
pub open spec fn service_blocked(session: OriginalFlowSession, instance_id: Seq<char>) -> Option<ServiceEffectKind> {
    if !world_active(session.state.screen) {
        None
    } else {
        match first_index(session.buildings.buildings@, building_has_instance(instance_id)) {
            None => None,
            Some(b) => match service_kind_for(session.buildings.buildings@[b].id@) {
                None => None,
                Some(kind) => if roster_ready(session.hunter_roster, kind) {
                    None
                } else {
                    Some(kind)
                },
            },
        }
    }
}

/// The reason a service start is rejected, checked in order, if it is.
pub open spec fn service_rejection(
    session: OriginalFlowSession,
    instance_id: Seq<char>,
    hunter_id: u32,
    product_id: Seq<char>,
) -> Option<Seq<char>> {
    if !world_active(session.state.screen) {
        Some("village_unavailable"@)
    } else {
        match first_index(session.buildings.buildings@, building_has_instance(instance_id)) {
            None => Some("service_instance_unknown"@),
            Some(b) => {
                let building = session.buildings.buildings@[b];
                let level = building.level as u16;
                match service_kind_for(building.id@) {
                    None => Some("service_building_unsupported"@),
                    Some(kind) => if !roster_ready(session.hunter_roster, kind) {
                        None
                    } else {
                        let slots: u16 = match capacity_spec(building.id@, level) {
                            Some(c) => c,
                            None => 0,
                        };
                        if slots == 0 || occupied_slots(session.product_services.visits@, instance_id) >= slots {
                            Some("service_slots_full"@)
                        } else if hunter_in_service(session, hunter_id) {
                            Some("hunter_already_in_service"@)
                        } else {
                            match first_index(session.hunter_roster.hunters@, hunter_has_id(hunter_id)) {
                                None => Some("hunter_unknown"@),
                                Some(h) => {
                                    let hunter = session.hunter_roster.hunters@[h];
                                    if !gauge_needs_service(service_gauge_of(hunter, kind)) {
                                        Some("service_not_required"@)
                                    } else {
                                        match find_product(session.building_content.gameplay.products@, product_id) {
                                            None => Some("recipe_unknown"@),
                                            Some(product) => if !(product.building_id matches Some(owner) && owner@
                                                == building.id@) {
                                                Some("recipe_building_mismatch"@)
                                            } else {
                                                match product.service {
                                                    None => Some("service_recipe_required"@),
                                                    Some(service) => if service.required_level >= level {
                                                        Some("product_level_locked"@)
                                                    } else {
                                                        match first_index(
                                                            session.buildings.product_stocks@,
                                                            stock_for(instance_id, product_id),
                                                        ) {
                                                            None => Some("product_out_of_stock"@),
                                                            Some(s) => if session.buildings.product_stocks@[s].quantity
                                                                == 0 {
                                                                Some("product_out_of_stock"@)
                                                            } else if hunter.gold < service.use_money {
                                                                Some("insufficient_hunter_gold"@)
                                                            } else {
                                                                None
                                                            },
                                                        }
                                                    },
                                                }
                                            },
                                        }
                                    }
                                },
                            }
                        }
                    },
                }
            },
        }
    }
}

/// `after` is `before` with only its presentation strings changed.
pub open spec fn same_except_presentation(before: DurableHunterState, after: DurableHunterState) -> bool {
    &&& crate::roster::same_profile_record(after.profile, before.profile)
    &&& after.hunter_id == before.hunter_id
    &&& after.hunt == before.hunt
    &&& after.gold == before.gold
    &&& after.current_hp == before.current_hp
    &&& after.max_hp == before.max_hp
    &&& after.stamina == before.stamina
    &&& after.satiety == before.satiety
    &&& after.mood == before.mood
    &&& after.owned_items == before.owned_items
    &&& after.profile.display_name == before.profile.display_name
    &&& after.profile.class_id == before.profile.class_id
    &&& after.profile.visual_family == before.profile.visual_family
    &&& after.profile.skills == before.profile.skills
    &&& after.profile.equipment_slots == before.profile.equipment_slots
}

/// Everything of the town but its product stocks is unchanged.
pub open spec fn same_town_except_product_stocks(a: DurableBuildingState, b: DurableBuildingState) -> bool {
    a == DurableBuildingState { product_stocks: a.product_stocks, ..b }
}

/// The effect of an accepted service start: the Hunter pays and is served,
/// one unit of the product stock is used, and the visit is queued with the
/// service's duration, effect and payment.
pub open spec fn service_started(
    before: OriginalFlowSession,
    after: OriginalFlowSession,
    instance_id: Seq<char>,
    hunter_id: u32,
    product_id: Seq<char>,
) -> bool {
    let b = first_index(before.buildings.buildings@, building_has_instance(instance_id)).unwrap();
    let building = before.buildings.buildings@[b];
    let kind = service_kind_for(building.id@).unwrap();
    let h = first_index(before.hunter_roster.hunters@, hunter_has_id(hunter_id)).unwrap();
    let service = find_product(before.building_content.gameplay.products@, product_id).unwrap().service.unwrap();
    let s = first_index(before.buildings.product_stocks@, stock_for(instance_id, product_id)).unwrap();
    let old_hunter = before.hunter_roster.hunters@[h];
    let new_hunter = after.hunter_roster.hunters@[h];
    let visits = before.product_services.visits@;
    let visit = after.product_services.visits@.last();
    &&& after.hunter_roster.hunters@.len() == before.hunter_roster.hunters@.len()
    &&& forall|k: int| 0 <= k < before.hunter_roster.hunters@.len() && k != h ==> #[trigger] after.hunter_roster.hunters@[k]
        == before.hunter_roster.hunters@[k]
    &&& new_hunter == DurableHunterState { gold: (old_hunter.gold - service.use_money) as u64, profile: new_hunter.profile, ..old_hunter }
    &&& same_except_presentation(DurableHunterState { gold: old_hunter.gold, ..new_hunter }, old_hunter)
    &&& shows(new_hunter, "serving"@, "hunter_stay"@)
    &&& after.buildings.product_stocks@ == before.buildings.product_stocks@.update(
        s,
        DurableProductStock {
            quantity: (before.buildings.product_stocks@[s].quantity - 1) as u32,
            ..before.buildings.product_stocks@[s]
        },
    )
    &&& same_town_except_product_stocks(after.buildings, before.buildings)
    &&& after.product_services.visits@.len() == visits.len() + 1
    &&& after.product_services.visits@.drop_last() == visits
    &&& visit.hunter_id == hunter_id
    &&& visit.building_instance_id@ == instance_id
    &&& visit.building_id == building.id
    &&& visit.product_id@ == product_id
    &&& visit.effect_kind == kind
    &&& visit.remaining_ms == service.service_time_ms
    &&& visit.effect_value == service.effect_value
    &&& visit.payment_gold == service.use_money
    &&& after.state == before.state
    &&& after.hunter_roster.roster_resolved == before.hunter_roster.roster_resolved
    &&& after.hunter_roster.wallets_resolved == before.hunter_roster.wallets_resolved
    &&& after.hunter_roster.waiting_queue == before.hunter_roster.waiting_queue
    &&& after.hunter_roster.hunt_commands == before.hunter_roster.hunt_commands
    &&& after.hunter_world_runtime == before.hunter_world_runtime
    &&& after.monster_densities == before.monster_densities
    &&& after.building_content == before.building_content
    &&& after.selected_entity_id == before.selected_entity_id
    &&& after.visual_tick == before.visual_tick
    &&& after.simulation_remainder_ns == before.simulation_remainder_ns
}

/// The reply to and effect of a service start: blocked or refused with no
/// change, or accepted with the effect of [`service_started`].
pub open spec fn service_outcome(
    before: OriginalFlowSession,
    after: OriginalFlowSession,
    instance_id: Seq<char>,
    hunter_id: u32,
    product_id: Seq<char>,
    message: ServerMessage,
) -> bool {
    &&& service_blocked(before, instance_id) matches Some(kind) ==> is_binding_blocked(
        message,
        "start_building_service"@,
        seq!["hunter_roster_binding"@, service_kind_binding(kind), "hunter_wallet_state_binding"@],
    ) && after == before
    &&& service_rejection(before, instance_id, hunter_id, product_id) matches Some(reason) ==> is_rejected(
        message,
        "start_building_service"@,
        reason,
    ) && after == before
    &&& service_blocked(before, instance_id) is None && service_rejection(before, instance_id, hunter_id, product_id)
        is None ==> is_accepted(message, "start_building_service"@) && service_started(
        before,
        after,
        instance_id,
        hunter_id,
        product_id,
    )
}

impl OriginalFlowSession {
    /// Whether the roster is ready for services of `effect_kind` (see
    /// [`roster_ready`]).
    pub fn product_service_roster_resolved(&self, effect_kind: ServiceEffectKind) -> (ready: bool)
        ensures
            ready == roster_ready(self.hunter_roster, effect_kind),
    {
        if !self.hunter_roster.roster_resolved || !self.hunter_roster.wallets_resolved {
            return false;
        }
        let hunters = &self.hunter_roster.hunters;
        let mut i: usize = 0;
        while i < hunters.len()
            invariant
                0 <= i <= hunters@.len(),
                hunters@ == self.hunter_roster.hunters@,
                self.hunter_roster.roster_resolved && self.hunter_roster.wallets_resolved,
                forall|k: int| 0 <= k < i ==> gauge_resolved(#[trigger] service_gauge_of(hunters@[k], effect_kind)),
                forall|k: int, j: int| 0 <= k < j < i ==> #[trigger] hunters@[k].hunter_id != #[trigger] hunters@[j].hunter_id,
            decreases hunters@.len() - i,
        {
            if !hunter_service_gauge(&hunters[i], effect_kind).is_resolved() {
                assert(!gauge_resolved(service_gauge_of(hunters@[i as int], effect_kind)));
                return false;
            }
            let mut j: usize = 0;
            while j < i
                invariant
                    0 <= j <= i < hunters@.len(),
                    hunters@ == self.hunter_roster.hunters@,
                    forall|k: int| 0 <= k < j ==> #[trigger] hunters@[k].hunter_id != hunters@[i as int].hunter_id,
                decreases i - j,
            {
                if hunters[j].hunter_id == hunters[i].hunter_id {
                    assert(hunters@[j as int].hunter_id == hunters@[i as int].hunter_id);
                    return false;
                }
                j = j + 1;
            }
            i = i + 1;
        }
        true
    }

    /// Starts a paid service visit of `hunter_id` at building `instance_id`
    /// with product `product_id`; see [`service_rejection`] for the reasons a
    /// start is refused, checked in order, and [`service_started`] for its
    /// effect. A refused or blocked start changes nothing.
    pub fn start_product_service(&mut self, instance_id: &str, hunter_id: u32, product_id: &str) -> (message: ServerMessage)
        ensures
            service_outcome(*old(self), *final(self), instance_id@, hunter_id, product_id@, message),
    {
        let intent = "start_building_service";
        if !self.shared_world_active() {
            return self.rejected(intent, "village_unavailable");
        }
        let b = match find_building_by_instance(&self.buildings.buildings, instance_id) {
            Some(b) => b,
            None => {
                return self.rejected(intent, "service_instance_unknown");
            },
        };
        let level: u16 = self.buildings.buildings[b].level as u16;
        let kind = match ServiceEffectKind::for_building(self.buildings.buildings[b].id.as_str()) {
            Some(kind) => kind,
            None => {
                return self.rejected(intent, "service_building_unsupported");
            },
        };
        if !self.product_service_roster_resolved(kind) {
            let blockers = ["hunter_roster_binding", kind.state_binding(), "hunter_wallet_state_binding"];
            let message = self.binding_blocked(intent, &blockers);
            assert(Seq::new(3, |i: int| blockers@[i]@) =~= seq![
                "hunter_roster_binding"@,
                service_kind_binding(kind),
                "hunter_wallet_state_binding"@,
            ]);
            return message;
        }
        let slots: u16 = match capacity_for_level(self.buildings.buildings[b].id.as_str(), level) {
            Some(c) => c,
            None => 0,
        };
        let occupied = count_visits_at(&self.product_services.visits, instance_id);
        if slots == 0 || occupied >= slots as usize {
            return self.rejected(intent, "service_slots_full");
        }
        let busy_elsewhere = match find_hunter_index(&self.hunter_roster.hunters, hunter_id) {
            Some(h) => self.hunter_roster.hunters[h].hunt.pending_trade.is_some()
                || self.hunter_roster.hunters[h].hunt.gear_enhancement.is_some(),
            None => false,
        };
        if has_visit_for(&self.product_services.visits, hunter_id) || busy_elsewhere {
            return self.rejected(intent, "hunter_already_in_service");
        }
        let h = match find_hunter_index(&self.hunter_roster.hunters, hunter_id) {
            Some(h) => h,
            None => {
                return self.rejected(intent, "hunter_unknown");
            },
        };
        if !hunter_service_gauge(&self.hunter_roster.hunters[h], kind).needs_service() {
            return self.rejected(intent, "service_not_required");
        }
        let product = match self.building_content.gameplay.product(product_id) {
            Some(product) => product,
            None => {
                return self.rejected(intent, "recipe_unknown");
            },
        };
        let owner_matches = match &product.building_id {
            Some(owner) => str_eq(owner.as_str(), self.buildings.buildings[b].id.as_str()),
            None => false,
        };
        if !owner_matches {
            return self.rejected(intent, "recipe_building_mismatch");
        }
        let (required_level, use_money, effect_value, service_time_ms) = match &product.service {
            Some(service) => (service.required_level, service.use_money, service.effect_value, service.service_time_ms),
            None => {
                return self.rejected(intent, "service_recipe_required");
            },
        };
        if required_level >= level {
            return self.rejected(intent, "product_level_locked");
        }
        let s = match find_product_stock(&self.buildings.product_stocks, instance_id, product_id) {
            Some(s) => s,
            None => {
                return self.rejected(intent, "product_out_of_stock");
            },
        };
        if self.buildings.product_stocks[s].quantity == 0 {
            return self.rejected(intent, "product_out_of_stock");
        }
        if self.hunter_roster.hunters[h].gold < use_money {
            return self.rejected(intent, "insufficient_hunter_gold");
        }
        let building_id = self.buildings.buildings[b].id.clone();
        let ghost before = *self;
        let paid = self.hunter_roster.hunters[h].gold - use_money;
        self.hunter_roster.hunters[h].gold = paid;
        self.hunter_roster.hunters[h].profile.action_state = "serving".to_owned();
        self.hunter_roster.hunters[h].profile.animation_name = "hunter_stay".to_owned();
        let remaining = self.buildings.product_stocks[s].quantity - 1;
        self.buildings.product_stocks[s].quantity = remaining;
        self.product_services.visits.push(
            DurableProductServiceVisit {
                hunter_id,
                building_instance_id: instance_id.to_owned(),
                building_id,
                product_id: product_id.to_owned(),
                effect_kind: kind,
                remaining_ms: service_time_ms,
                effect_value,
                payment_gold: use_money,
            },
        );
        assert(self.product_services.visits@.drop_last() =~= before.product_services.visits@);
        assert(self.buildings.product_stocks@ =~= before.buildings.product_stocks@.update(
            s as int,
            DurableProductStock {
                quantity: (before.buildings.product_stocks@[s as int].quantity - 1) as u32,
                ..before.buildings.product_stocks@[s as int]
            },
        ));
        self.accepted(intent)
    }
}

/// A visit `elapsed` milliseconds later.
pub open spec fn aged_visit(visit: DurableProductServiceVisit, elapsed: u64) -> DurableProductServiceVisit {
    DurableProductServiceVisit { remaining_ms: visit.remaining_ms.saturating_sub(elapsed), ..visit }
}

/// Every visit `elapsed` milliseconds later.
pub open spec fn aged_visits(visits: Seq<DurableProductServiceVisit>, elapsed: u64) -> Seq<DurableProductServiceVisit> {
    visits.map_values(|v: DurableProductServiceVisit| aged_visit(v, elapsed))
}

/// A visit with no time left.
pub open spec fn visit_done(v: DurableProductServiceVisit) -> bool {
    v.remaining_ms == 0
}

/// A visit with time left.
pub open spec fn visit_running(v: DurableProductServiceVisit) -> bool {
    v.remaining_ms > 0
}

/// The visits that complete after `elapsed` milliseconds, in order.
pub open spec fn completed_visits(visits: Seq<DurableProductServiceVisit>, elapsed: u64) -> Seq<DurableProductServiceVisit> {
    aged_visits(visits, elapsed).filter(|v: DurableProductServiceVisit| visit_done(v))
}

/// The visits still running after `elapsed` milliseconds, in order.
pub open spec fn running_visits(visits: Seq<DurableProductServiceVisit>, elapsed: u64) -> Seq<DurableProductServiceVisit> {
    aged_visits(visits, elapsed).filter(|v: DurableProductServiceVisit| visit_running(v))
}

/// A completed visit applies to the Hunter at roster position `k` when `k`
/// is the first position holding the visit's Hunter id.
pub open spec fn applies_to(hunters: Seq<DurableHunterState>, k: int) -> spec_fn(DurableProductServiceVisit) -> bool {
    |v: DurableProductServiceVisit| first_index(hunters, hunter_has_id(v.hunter_id)) == Some(k)
}

/// The Hunter after the effects of `done`, in order.
pub open spec fn apply_effects(hunter: DurableHunterState, done: Seq<DurableProductServiceVisit>) -> DurableHunterState
    decreases done.len(),
{
    if done.len() == 0 {
        hunter
    } else {
        restored_hunter(apply_effects(hunter, done.drop_last()), done.last().effect_kind, done.last().effect_value)
    }
}

/// The town wallet after the payments of `done` whose Hunter is on the
/// roster, each added saturating.
pub open spec fn credited_town_gold(gold: u64, hunters: Seq<DurableHunterState>, done: Seq<DurableProductServiceVisit>) -> u64
    decreases done.len(),
{
    if done.len() == 0 {
        gold
    } else {
        let before = credited_town_gold(gold, hunters, done.drop_last());
        if first_index(hunters, hunter_has_id(done.last().hunter_id)) is Some {
            before.saturating_add(done.last().payment_gold)
        } else {
            before
        }
    }
}

/// The Hunter at position `k` after the completed visits `done`: unchanged
/// when none applies to it, otherwise its gauges restored by each and
/// shown idle.
pub open spec fn serviced_hunter(
    hunters: Seq<DurableHunterState>,
    k: int,
    done: Seq<DurableProductServiceVisit>,
    after: DurableHunterState,
) -> bool {
    let mine = done.filter(applies_to(hunters, k));
    if mine.len() == 0 {
        after == hunters[k]
    } else {
        &&& same_except_presentation(apply_effects(hunters[k], mine), after)
        &&& shows(after, "idle"@, "hunter_stay"@)
    }
}

/// Two sessions agree on everything but their service visits.
pub open spec fn same_except_visits(a: OriginalFlowSession, b: OriginalFlowSession) -> bool {
    &&& a.state == b.state
    &&& a.buildings == b.buildings
    &&& a.hunter_roster == b.hunter_roster
    &&& a.hunter_world_runtime == b.hunter_world_runtime
    &&& a.monster_densities == b.monster_densities
    &&& a.building_content == b.building_content
    &&& a.selected_entity_id == b.selected_entity_id
    &&& a.visual_tick == b.visual_tick
    &&& a.simulation_remainder_ns == b.simulation_remainder_ns
}

/// Restoring a gauge keeps everything but the gauges, so it commutes with
/// a change of presentation.
proof fn lemma_restore_keeps_presentation(a: DurableHunterState, b: DurableHunterState, kind: ServiceEffectKind, amount: u64)
    requires
        same_except_presentation(a, b),
    ensures
        same_except_presentation(restored_hunter(a, kind, amount), restored_hunter(b, kind, amount)),
        restored_hunter(b, kind, amount).profile == b.profile,
{
}

/// `first_index` by Hunter id only reads the ids.
proof fn lemma_first_hunter_same_ids(a: Seq<DurableHunterState>, b: Seq<DurableHunterState>, id: u32)
    requires
        a.len() == b.len(),
        forall|k: int| 0 <= k < a.len() ==> #[trigger] a[k].hunter_id == b[k].hunter_id,
    ensures
        first_index(a, hunter_has_id(id)) == first_index(b, hunter_has_id(id)),
    decreases a.len(),
{
    if a.len() > 0 {
        assert(a[0].hunter_id == b[0].hunter_id);
        assert forall|k: int| 0 <= k < a.drop_first().len() implies #[trigger] a.drop_first()[k].hunter_id
            == b.drop_first()[k].hunter_id by {
            assert(a.drop_first()[k] == a[k + 1]);
            assert(b.drop_first()[k] == b[k + 1]);
        }
        lemma_first_hunter_same_ids(a.drop_first(), b.drop_first(), id);
    }
}

/// `after` is `before` once every service visit ran `elapsed` more
/// milliseconds: each visit that ran out restored its Hunter's gauge,
/// showed the Hunter idle and paid the visit's price into the town wallet,
/// and finished visits are gone; nothing else changed.
pub open spec fn services_advanced(before: OriginalFlowSession, after: OriginalFlowSession, elapsed: u64) -> bool {
    &&& after.product_services.visits@ == running_visits(before.product_services.visits@, elapsed)
    &&& after.hunter_roster.hunters@.len() == before.hunter_roster.hunters@.len()
    &&& forall|k: int| 0 <= k < before.hunter_roster.hunters@.len() ==> serviced_hunter(
        before.hunter_roster.hunters@,
        k,
        completed_visits(before.product_services.visits@, elapsed),
        #[trigger] after.hunter_roster.hunters@[k],
    )
    &&& after.buildings == (DurableBuildingState {
        town_gold: credited_town_gold(
            before.buildings.town_gold,
            before.hunter_roster.hunters@,
            completed_visits(before.product_services.visits@, elapsed),
        ),
        ..before.buildings
    })
    &&& after.state == before.state
    &&& after.hunter_roster.roster_resolved == before.hunter_roster.roster_resolved
    &&& after.hunter_roster.wallets_resolved == before.hunter_roster.wallets_resolved
    &&& after.hunter_roster.waiting_queue == before.hunter_roster.waiting_queue
    &&& after.hunter_roster.hunt_commands == before.hunter_roster.hunt_commands
    &&& after.hunter_world_runtime == before.hunter_world_runtime
    &&& after.monster_densities == before.monster_densities
    &&& after.building_content == before.building_content
    &&& after.selected_entity_id == before.selected_entity_id
    &&& after.visual_tick == before.visual_tick
    &&& after.simulation_remainder_ns == before.simulation_remainder_ns
}

impl OriginalFlowSession {
    /// Advances every service visit by `elapsed_ms`. Each visit that runs
    /// out restores its Hunter's gauge, shows the Hunter idle and pays the
    /// visit's price into the town wallet; finished visits are removed.
    pub fn advance_product_services(&mut self, elapsed_ms: u64)
        ensures
            services_advanced(*old(self), *final(self), elapsed_ms),
    {
        let ghost start = self.product_services.visits@;
        let ghost aged = aged_visits(start, elapsed_ms);
        let mut i: usize = 0;
        while i < self.product_services.visits.len()
            invariant
                0 <= i <= self.product_services.visits@.len(),
                self.product_services.visits@.len() == start.len(),
                aged == aged_visits(start, elapsed_ms),
                same_except_visits(*self, *old(self)),
                forall|k: int| 0 <= k < i ==> #[trigger] self.product_services.visits@[k] == aged[k],
                forall|k: int| i <= k < start.len() ==> #[trigger] self.product_services.visits@[k] == start[k],
            decreases start.len() - i,
        {
            let left = self.product_services.visits[i].remaining_ms.saturating_sub(elapsed_ms);
            self.product_services.visits[i].remaining_ms = left;
            i = i + 1;
        }
        assert(self.product_services.visits@ =~= aged);
        let mut done: Vec<DurableProductServiceVisit> = Vec::new();
        let mut kept: Vec<DurableProductServiceVisit> = Vec::new();
        let mut i: usize = 0;
        while i < self.product_services.visits.len()
            invariant
                0 <= i <= aged.len(),
                self.product_services.visits@ == aged,
                same_except_visits(*self, *old(self)),
                done@ == aged.take(i as int).filter(|v: DurableProductServiceVisit| visit_done(v)),
                kept@ == aged.take(i as int).filter(|v: DurableProductServiceVisit| visit_running(v)),
            decreases aged.len() - i,
        {
            proof {
                reveal(Seq::filter);
                assert(aged.take(i + 1).drop_last() =~= aged.take(i as int));
            }
            if self.product_services.visits[i].remaining_ms == 0 {
                done.push(copy_service_visit(&self.product_services.visits[i]));
            } else {
                kept.push(copy_service_visit(&self.product_services.visits[i]));
            }
            i = i + 1;
        }
        assert(aged.take(aged.len() as int) =~= aged);
        let ghost hunters0 = self.hunter_roster.hunters@;
        let ghost gold0 = self.buildings.town_gold;
        let ghost finished = done@;
        let ghost buildings0 = self.buildings;
        let mut c: usize = 0;
        while c < done.len()
            invariant
                0 <= c <= finished.len(),
                done@ == finished,
                self.hunter_roster.hunters@.len() == hunters0.len(),
                forall|k: int| 0 <= k < hunters0.len() ==> #[trigger] self.hunter_roster.hunters@[k].hunter_id
                    == hunters0[k].hunter_id,
                forall|k: int| 0 <= k < hunters0.len() ==> serviced_hunter(
                    hunters0,
                    k,
                    finished.take(c as int),
                    #[trigger] self.hunter_roster.hunters@[k],
                ),
                self.buildings == (DurableBuildingState {
                    town_gold: credited_town_gold(gold0, hunters0, finished.take(c as int)),
                    ..buildings0
                }),
                self.hunter_roster.roster_resolved == old(self).hunter_roster.roster_resolved,
                self.hunter_roster.wallets_resolved == old(self).hunter_roster.wallets_resolved,
                self.hunter_roster.waiting_queue == old(self).hunter_roster.waiting_queue,
                self.hunter_roster.hunt_commands == old(self).hunter_roster.hunt_commands,
                hunters0 == old(self).hunter_roster.hunters@,
                gold0 == old(self).buildings.town_gold,
                buildings0 == old(self).buildings,
                self.state == old(self).state,
                self.hunter_world_runtime == old(self).hunter_world_runtime,
                self.monster_densities == old(self).monster_densities,
                self.building_content == old(self).building_content,
                self.selected_entity_id == old(self).selected_entity_id,
                self.visual_tick == old(self).visual_tick,
                self.simulation_remainder_ns == old(self).simulation_remainder_ns,
                self.product_services.visits@ == aged,
            decreases finished.len() - c,
        {
            let visit = &done[c];
            let ghost v = finished[c as int];
            let ghost hunters_before = self.hunter_roster.hunters@;
            proof {
                lemma_first_hunter_same_ids(hunters_before, hunters0, v.hunter_id);
                reveal(Seq::filter);
                assert(finished.take(c + 1).drop_last() =~= finished.take(c as int));
                assert(finished.take(c + 1).last() == v);
            }
            match find_hunter_index(&self.hunter_roster.hunters, visit.hunter_id) {
                Some(h) => {
                    let ghost prev = self.hunter_roster.hunters@[h as int];
                    restore_hunter_service_gauge(&mut self.hunter_roster.hunters[h], visit.effect_kind, visit.effect_value);
                    self.hunter_roster.hunters[h].profile.action_state = "idle".to_owned();
                    self.hunter_roster.hunters[h].profile.animation_name = "hunter_stay".to_owned();
                    self.buildings.town_gold = self.buildings.town_gold.saturating_add(visit.payment_gold);
                    proof {
                        assert forall|k: int| 0 <= k < hunters0.len() implies serviced_hunter(
                            hunters0,
                            k,
                            finished.take(c + 1),
                            #[trigger] self.hunter_roster.hunters@[k],
                        ) by {
                            let mine = finished.take(c as int).filter(applies_to(hunters0, k));
                            if k == h {
                                assert(finished.take(c + 1).filter(applies_to(hunters0, k)) == mine.push(v));
                                assert(mine.push(v).drop_last() =~= mine);
                                if mine.len() > 0 {
                                    lemma_restore_keeps_presentation(
                                        apply_effects(hunters0[k], mine),
                                        prev,
                                        v.effect_kind,
                                        v.effect_value,
                                    );
                                } else {
                                    assert(apply_effects(hunters0[k], mine) == hunters0[k]);
                                }
                            } else {
                                assert(finished.take(c + 1).filter(applies_to(hunters0, k)) == mine);
                            }
                        }
                    }
                },
                None => {
                    proof {
                        assert forall|k: int| 0 <= k < hunters0.len() implies serviced_hunter(
                            hunters0,
                            k,
                            finished.take(c + 1),
                            #[trigger] self.hunter_roster.hunters@[k],
                        ) by {
                            assert(finished.take(c + 1).filter(applies_to(hunters0, k)) == finished.take(
                                c as int,
                            ).filter(applies_to(hunters0, k)));
                        }
                    }
                },
            }
            c = c + 1;
        }
        assert(finished.take(finished.len() as int) =~= finished);
        self.product_services.visits = kept;
    }

    /// Advances the shared world's visual clock by `elapsed_ms`, which runs
    /// the service visits; outside the shared world nothing happens.
    pub fn advance_visual_clock_by(&mut self, elapsed_ms: u64) -> (advanced: bool)
        ensures
            advanced == world_active(old(self).state.screen),
            !advanced ==> *final(self) == *old(self),
            advanced ==> final(self).product_services.visits@ == running_visits(
                old(self).product_services.visits@,
                elapsed_ms,
            ) && final(self).buildings.town_gold == credited_town_gold(
                old(self).buildings.town_gold,
                old(self).hunter_roster.hunters@,
                completed_visits(old(self).product_services.visits@, elapsed_ms),
            ) && final(self).hunter_roster.hunters@.len() == old(self).hunter_roster.hunters@.len()
                && forall|k: int| 0 <= k < old(self).hunter_roster.hunters@.len() ==> serviced_hunter(
                old(self).hunter_roster.hunters@,
                k,
                completed_visits(old(self).product_services.visits@, elapsed_ms),
                #[trigger] final(self).hunter_roster.hunters@[k],
            ),
    {
        if !self.shared_world_active() {
            return false;
        }
        self.advance_product_services(elapsed_ms);
        true
    }
}

/// One Hunter as a service building shows it.
#[derive(Clone, Debug, PartialEq, Eq)]
pub struct ProductServiceHunterSnapshot {
    pub hunter_id: u32,
    pub gold: u64,
    pub current_value: u64,
    pub maximum_value: u64,
    pub service_state: &'static str,
}

/// One visit in progress as a service building shows it.
#[derive(Clone, Debug, PartialEq, Eq)]
pub struct ProductServiceVisitSnapshot {
    pub hunter_id: u32,
    pub building_instance_id: String,
    pub product_id: String,
    pub remaining_ms: u64,
    pub effect_value: u64,
    pub payment_gold: u64,
}

/// What a service building kind (Inn, Infirmary, Restaurant, Tavern) shows.
#[derive(Clone, Debug, PartialEq, Eq)]
pub struct ProductServiceSnapshot {
    pub building_id: &'static str,
    pub effect_kind: &'static str,
    pub roster_resolved: bool,
    pub slots: u16,
    pub available_slots: u16,
    pub hunters: Vec<ProductServiceHunterSnapshot>,
    pub active: Vec<ProductServiceVisitSnapshot>,
    pub blockers: Vec<&'static str>,
}

/// One Hunter as the Infirmary shows it.
#[derive(Clone, Debug, PartialEq, Eq)]
pub struct InfirmaryHunterSnapshot {
    pub hunter_id: u32,
    pub current_hp: u64,
    pub max_hp: u64,
    pub treatment_state: &'static str,
}

/// One treatment in progress as the Infirmary shows it.
#[derive(Clone, Debug, PartialEq, Eq)]
pub struct InfirmaryTreatmentSnapshot {
    pub hunter_id: u32,
    pub building_instance_id: String,
    pub product_id: String,
    pub remaining_ms: u64,
    pub effect_value: u64,
    pub payment_gold: u64,
}

/// What the Infirmary shows.
#[derive(Clone, Debug, PartialEq, Eq)]
pub struct InfirmaryServiceSnapshot {
    pub roster_resolved: bool,
    pub slots: u16,
    pub available_slots: u16,
    pub hunters: Vec<InfirmaryHunterSnapshot>,
    pub active: Vec<InfirmaryTreatmentSnapshot>,
    pub blockers: Vec<&'static str>,
}

/// Total service slots of the placed buildings of base `building_id`,
/// added saturating; a level past the slot table adds none.
pub open spec fn service_slots(buildings: Seq<DurableBuilding>, building_id: Seq<char>) -> u16
    decreases buildings.len(),
{
    if buildings.len() == 0 {
        0
    } else {
        let before = service_slots(buildings.drop_last(), building_id);
        let last = buildings.last();
        if last.id@ == building_id {
            match capacity_spec(building_id, last.level as u16) {
                Some(c) => before.saturating_add(c),
                None => before,
            }
        } else {
            before
        }
    }
}

/// A visit at a building of base `building_id`.
pub open spec fn visit_of_base(building_id: Seq<char>) -> spec_fn(DurableProductServiceVisit) -> bool {
    |v: DurableProductServiceVisit| v.building_id@ == building_id
}

/// `shown` presents `visit`.
pub open spec fn shows_visit(shown: ProductServiceVisitSnapshot, visit: DurableProductServiceVisit) -> bool {
    &&& shown.hunter_id == visit.hunter_id
    &&& shown.building_instance_id@ == visit.building_instance_id@
    &&& shown.product_id@ == visit.product_id@
    &&& shown.remaining_ms == visit.remaining_ms
    &&& shown.effect_value == visit.effect_value
    &&& shown.payment_gold == visit.payment_gold
}

/// `shown` presents `hunter`'s gauge of `kind` and whether it is served.
pub open spec fn shows_service_hunter(
    shown: ProductServiceHunterSnapshot,
    hunter: DurableHunterState,
    kind: ServiceEffectKind,
    visits: Seq<DurableProductServiceVisit>,
) -> bool {
    &&& shown.hunter_id == hunter.hunter_id
    &&& shown.gold == hunter.gold
    &&& shown.current_value == service_gauge_of(hunter, kind).current
    &&& shown.maximum_value == service_gauge_of(hunter, kind).maximum
    &&& shown.service_state@ == (if hunter_has_visit(visits, hunter.hunter_id) {
        "serving"@
    } else {
        "idle"@
    })
}

/// The blockers of an unresolved service roster.
pub open spec fn service_blockers(kind: ServiceEffectKind) -> Seq<Seq<char>> {
    seq!["hunter_roster_binding"@, service_kind_binding(kind), "hunter_wallet_state_binding"@]
}

/// `snapshot` is what the service buildings of base `building_id` show in
/// `session`.
pub open spec fn service_snapshot_of(
    session: OriginalFlowSession,
    building_id: Seq<char>,
    kind: ServiceEffectKind,
    snapshot: ProductServiceSnapshot,
) -> bool {
    let visits = session.product_services.visits@;
    let active = visits.filter(visit_of_base(building_id));
    let hunters = session.hunter_roster.hunters@;
    let ready = roster_ready(session.hunter_roster, kind);
    let occupied: u16 = if active.len() <= u16::MAX { active.len() as u16 } else { u16::MAX };
    &&& snapshot.building_id@ == building_id
    &&& snapshot.effect_kind@ == service_kind_name(kind)
    &&& snapshot.roster_resolved == ready
    &&& snapshot.slots == service_slots(session.buildings.buildings@, building_id)
    &&& snapshot.available_slots == snapshot.slots.saturating_sub(occupied)
    &&& snapshot.active@.len() == active.len()
    &&& forall|i: int| 0 <= i < active.len() ==> shows_visit(#[trigger] snapshot.active@[i], active[i])
    &&& snapshot.hunters@.len() == hunters.len()
    &&& forall|k: int| 0 <= k < hunters.len() ==> shows_service_hunter(#[trigger] snapshot.hunters@[k], hunters[k], kind, visits)
    &&& Seq::new(snapshot.blockers@.len(), |i: int| snapshot.blockers@[i]@) == (if ready {
        Seq::empty()
    } else {
        service_blockers(kind)
    })
}

/// `shown` presents the Infirmary view of `service` for a Hunter.
pub open spec fn shows_infirmary_hunter(shown: InfirmaryHunterSnapshot, service: ProductServiceHunterSnapshot) -> bool {
    &&& shown.hunter_id == service.hunter_id
    &&& shown.current_hp == service.current_value
    &&& shown.max_hp == service.maximum_value
    &&& shown.treatment_state@ == (if service.service_state@ == "serving"@ {
        "treating"@
    } else {
        "idle"@
    })
}

/// `shown` presents the Infirmary view of a visit.
pub open spec fn shows_treatment(shown: InfirmaryTreatmentSnapshot, visit: ProductServiceVisitSnapshot) -> bool {
    &&& shown.hunter_id == visit.hunter_id
    &&& shown.building_instance_id == visit.building_instance_id
    &&& shown.product_id == visit.product_id
    &&& shown.remaining_ms == visit.remaining_ms
    &&& shown.effect_value == visit.effect_value
    &&& shown.payment_gold == visit.payment_gold
}

/// `infirmary` is the Infirmary view of the service snapshot `service`.
pub open spec fn infirmary_view(service: ProductServiceSnapshot, infirmary: InfirmaryServiceSnapshot) -> bool {
    &&& infirmary.roster_resolved == service.roster_resolved
    &&& infirmary.slots == service.slots
    &&& infirmary.available_slots == service.available_slots
    &&& infirmary.hunters@.len() == service.hunters@.len()
    &&& forall|k: int| 0 <= k < service.hunters@.len() ==> shows_infirmary_hunter(#[trigger] infirmary.hunters@[k], service.hunters@[k])
    &&& infirmary.active@.len() == service.active@.len()
    &&& forall|k: int| 0 <= k < service.active@.len() ==> shows_treatment(#[trigger] infirmary.active@[k], service.active@[k])
    &&& infirmary.blockers == service.blockers
}

impl OriginalFlowSession {
    /// What the service buildings of base `building_id` show; `None` for a
    /// building that offers no service.
    pub fn product_service_snapshot(&self, building_id: &'static str) -> (snapshot: Option<ProductServiceSnapshot>)
        ensures
            snapshot is None <==> service_kind_for(building_id@) is None,
            snapshot matches Some(s) ==> service_snapshot_of(*self, building_id@, service_kind_for(building_id@).unwrap(), s),
    {
        let kind = match ServiceEffectKind::for_building(building_id) {
            Some(kind) => kind,
            None => {
                return None;
            },
        };
        let ready = self.product_service_roster_resolved(kind);
        let buildings = &self.buildings.buildings;
        let mut slots: u16 = 0;
        let mut i: usize = 0;
        while i < buildings.len()
            invariant
                0 <= i <= buildings@.len(),
                slots == service_slots(buildings@.take(i as int), building_id@),
            decreases buildings@.len() - i,
        {
            assert(buildings@.take(i + 1).drop_last() =~= buildings@.take(i as int));
            if str_eq(buildings[i].id.as_str(), building_id) {
                match capacity_for_level(building_id, buildings[i].level as u16) {
                    Some(c) => {
                        slots = slots.saturating_add(c);
                    },
                    None => {},
                }
            }
            i = i + 1;
        }
        assert(buildings@.take(buildings@.len() as int) =~= buildings@);
        let visits = &self.product_services.visits;
        let ghost active_spec = visits@.filter(visit_of_base(building_id@));
        let mut active: Vec<ProductServiceVisitSnapshot> = Vec::new();
        let mut i: usize = 0;
        while i < visits.len()
            invariant
                0 <= i <= visits@.len(),
                active@.len() == visits@.take(i as int).filter(visit_of_base(building_id@)).len(),
                forall|k: int| 0 <= k < active@.len() ==> shows_visit(
                    #[trigger] active@[k],
                    visits@.take(i as int).filter(visit_of_base(building_id@))[k],
                ),
            decreases visits@.len() - i,
        {
            proof {
                reveal(Seq::filter);
                assert(visits@.take(i + 1).drop_last() =~= visits@.take(i as int));
            }
            if str_eq(visits[i].building_id.as_str(), building_id) {
                let v = &visits[i];
                active.push(
                    ProductServiceVisitSnapshot {
                        hunter_id: v.hunter_id,
                        building_instance_id: v.building_instance_id.clone(),
                        product_id: v.product_id.clone(),
                        remaining_ms: v.remaining_ms,
                        effect_value: v.effect_value,
                        payment_gold: v.payment_gold,
                    },
                );
            }
            i = i + 1;
        }
        assert(visits@.take(visits@.len() as int) =~= visits@);
        let occupied: u16 = if active.len() <= 65535 { active.len() as u16 } else { 65535 };
        let hunters = &self.hunter_roster.hunters;
        let mut shown: Vec<ProductServiceHunterSnapshot> = Vec::new();
        let mut k: usize = 0;
        while k < hunters.len()
            invariant
                0 <= k <= hunters@.len(),
                shown@.len() == k,
                forall|j: int| 0 <= j < k ==> shows_service_hunter(#[trigger] shown@[j], hunters@[j], kind, visits@),
            decreases hunters@.len() - k,
        {
            let gauge = hunter_service_gauge(&hunters[k], kind);
            let serving = has_visit_for(visits, hunters[k].hunter_id);
            shown.push(
                ProductServiceHunterSnapshot {
                    hunter_id: hunters[k].hunter_id,
                    gold: hunters[k].gold,
                    current_value: gauge.current,
                    maximum_value: gauge.maximum,
                    service_state: if serving {
                        "serving"
                    } else {
                        "idle"
                    },
                },
            );
            k = k + 1;
        }
        let blockers: Vec<&'static str> = if ready {
            Vec::new()
        } else {
            let mut b: Vec<&'static str> = Vec::new();
            b.push("hunter_roster_binding");
            b.push(kind.state_binding());
            b.push("hunter_wallet_state_binding");
            b
        };
        assert(Seq::new(blockers@.len(), |i: int| blockers@[i]@) =~= (if ready {
            Seq::empty()
        } else {
            service_blockers(kind)
        }));
        Some(
            ProductServiceSnapshot {
                building_id,
                effect_kind: kind.as_str(),
                roster_resolved: ready,
                slots,
                available_slots: slots.saturating_sub(occupied),
                hunters: shown,
                active,
                blockers,
            },
        )
    }

    /// What the Infirmary (`build_12`) shows: its service snapshot with HP
    /// as the gauge and served Hunters shown as treated.
    pub fn infirmary_snapshot(&self) -> (snapshot: InfirmaryServiceSnapshot)
        ensures
            exists|service: ProductServiceSnapshot| service_snapshot_of(*self, "build_12"@, ServiceEffectKind::Hp, service)
                && infirmary_view(service, snapshot),
    {
        proof {
            reveal_strlit("build_12");
            reveal_strlit("build_9");
        }
        let service = match self.product_service_snapshot("build_12") {
            Some(service) => service,
            None => {
                assert(false);
                return InfirmaryServiceSnapshot {
                    roster_resolved: false,
                    slots: 0,
                    available_slots: 0,
                    hunters: Vec::new(),
                    active: Vec::new(),
                    blockers: Vec::new(),
                };
            },
        };
        let mut hunters: Vec<InfirmaryHunterSnapshot> = Vec::new();
        let mut k: usize = 0;
        while k < service.hunters.len()
            invariant
                0 <= k <= service.hunters@.len(),
                hunters@.len() == k,
                forall|j: int| 0 <= j < k ==> shows_infirmary_hunter(#[trigger] hunters@[j], service.hunters@[j]),
            decreases service.hunters@.len() - k,
        {
            let h = &service.hunters[k];
            hunters.push(
                InfirmaryHunterSnapshot {
                    hunter_id: h.hunter_id,
                    current_hp: h.current_value,
                    max_hp: h.maximum_value,
                    treatment_state: if str_eq(h.service_state, "serving") {
                        "treating"
                    } else {
                        "idle"
                    },
                },
            );
            k = k + 1;
        }
        let mut active: Vec<InfirmaryTreatmentSnapshot> = Vec::new();
        let mut k: usize = 0;
        while k < service.active.len()
            invariant
                0 <= k <= service.active@.len(),
                active@.len() == k,
                forall|j: int| 0 <= j < k ==> shows_treatment(#[trigger] active@[j], service.active@[j]),
            decreases service.active@.len() - k,
        {
            let v = &service.active[k];
            active.push(
                InfirmaryTreatmentSnapshot {
                    hunter_id: v.hunter_id,
                    building_instance_id: v.building_instance_id.clone(),
                    product_id: v.product_id.clone(),
                    remaining_ms: v.remaining_ms,
                    effect_value: v.effect_value,
                    payment_gold: v.payment_gold,
                },
            );
            k = k + 1;
        }
        let ghost snapshot_service = service;
        let infirmary = InfirmaryServiceSnapshot {
            roster_resolved: service.roster_resolved,
            slots: service.slots,
            available_slots: service.available_slots,
            hunters,
            active,
            blockers: service.blockers,
        };
        proof {
            reveal_strlit("build_12");
            reveal_strlit("build_9");
            assert("build_12"@.len() == 8 && "build_9"@.len() == 7);
            assert("build_12"@ != "build_9"@);
        }
        assert(service_kind_for("build_12"@) == Some(ServiceEffectKind::Hp));
        assert(service_snapshot_of(*self, "build_12"@, ServiceEffectKind::Hp, snapshot_service));
        assert(infirmary_view(snapshot_service, infirmary));
        infirmary
    }
}

/// A service moves gold from the Hunter to the town: what the Hunter pays
/// when its visit starts reaches the town wallet when the visit runs out,
/// so the Hunter's and the town's gold together stay the same (while the
/// wallet stays below its limit).
pub proof fn lemma_service_payment_reaches_town(
    before: OriginalFlowSession,
    started: OriginalFlowSession,
    done: OriginalFlowSession,
    instance_id: Seq<char>,
    hunter_id: u32,
    product_id: Seq<char>,
    message: ServerMessage,
    elapsed: u64,
)
    requires
        before.product_services.visits@.len() == 0,
        service_outcome(before, started, instance_id, hunter_id, product_id, message),
        is_accepted(message, "start_building_service"@),
        services_advanced(started, done, elapsed),
        started.product_services.visits@.last().remaining_ms <= elapsed,
        before.buildings.town_gold + started.product_services.visits@.last().payment_gold <= u64::MAX,
    ensures
        ({
            let h = first_index(before.hunter_roster.hunters@, hunter_has_id(hunter_id)).unwrap();
            let price = started.product_services.visits@.last().payment_gold;
            &&& done.product_services.visits@.len() == 0
            &&& started.hunter_roster.hunters@[h].gold + price == before.hunter_roster.hunters@[h].gold
            &&& done.hunter_roster.hunters@[h].gold == started.hunter_roster.hunters@[h].gold
            &&& done.buildings.town_gold == before.buildings.town_gold + price
            &&& done.hunter_roster.hunters@[h].gold + done.buildings.town_gold == before.hunter_roster.hunters@[h].gold
                + before.buildings.town_gold
        }),
{
    reveal_with_fuel(Seq::filter, 2);
    assert(service_blocked(before, instance_id) is None);
    assert(service_rejection(before, instance_id, hunter_id, product_id) is None);
    let h = first_index(before.hunter_roster.hunters@, hunter_has_id(hunter_id)).unwrap();
    lemma_first_index(before.hunter_roster.hunters@, hunter_has_id(hunter_id));
    let visits = started.product_services.visits@;
    let visit = visits.last();
    assert(visits.len() == 1);
    assert(visits =~= seq![visit]);
    let aged = aged_visits(visits, elapsed);
    assert(aged =~= seq![aged_visit(visit, elapsed)]);
    assert(aged_visit(visit, elapsed).remaining_ms == 0);
    assert(aged.last() == aged_visit(visit, elapsed));
    assert(aged.drop_last() =~= Seq::<DurableProductServiceVisit>::empty());
    let finished = completed_visits(visits, elapsed);
    assert(finished =~= seq![aged_visit(visit, elapsed)]);
    assert(!visit_running(aged.last()));
    assert(running_visits(visits, elapsed) =~= Seq::<DurableProductServiceVisit>::empty());
    let hunters = started.hunter_roster.hunters@;
    assert(hunters[h].hunter_id == hunter_id);
    lemma_first_index(hunters, hunter_has_id(hunter_id));
    assert(first_index(hunters, hunter_has_id(hunter_id)) == Some(h));
    assert(finished.drop_last() =~= Seq::<DurableProductServiceVisit>::empty());
    assert(finished.last().hunter_id == hunter_id);
    assert(credited_town_gold(started.buildings.town_gold, hunters, finished.drop_last()) == started.buildings.town_gold);
    assert(credited_town_gold(started.buildings.town_gold, hunters, finished) == started.buildings.town_gold.saturating_add(
        visit.payment_gold,
    ));
    let mine = finished.filter(applies_to(hunters, h));
    assert(mine =~= finished);
    assert(serviced_hunter(hunters, h, finished, done.hunter_roster.hunters@[h]));
    assert(mine.drop_last() =~= Seq::<DurableProductServiceVisit>::empty());
    assert(apply_effects(hunters[h], mine.drop_last()) == hunters[h]);
    assert(apply_effects(hunters[h], mine) == crate::roster::restored_hunter(
        hunters[h],
        mine.last().effect_kind,
        mine.last().effect_value,
    ));
}

/// The visits of Hunter `hunter_id`, in order.
pub open spec fn visits_of(visits: Seq<DurableProductServiceVisit>, hunter_id: u32) -> Seq<DurableProductServiceVisit> {
    visits.filter(|v: DurableProductServiceVisit| v.hunter_id == hunter_id)
}

/// The visits of every other Hunter, in order.
pub open spec fn visits_not_of(visits: Seq<DurableProductServiceVisit>, hunter_id: u32) -> Seq<
    DurableProductServiceVisit,
> {
    visits.filter(|v: DurableProductServiceVisit| v.hunter_id != hunter_id)
}

/// The product stocks after one unit of each cancelled visit's product goes
/// back to its building, in order: onto the first stock of that building
/// and product (saturating), else as a new stock of one.
pub open spec fn restocked(stocks: Seq<DurableProductStock>, cancelled: Seq<DurableProductServiceVisit>) -> Seq<
    DurableProductStock,
>
    decreases cancelled.len(),
{
    if cancelled.len() == 0 {
        stocks
    } else {
        let prior = restocked(stocks, cancelled.drop_last());
        let v = cancelled.last();
        match first_index(prior, stock_for(v.building_instance_id@, v.product_id@)) {
            Some(k) => prior.update(k, DurableProductStock { quantity: prior[k].quantity.saturating_add(1), ..prior[k] }),
            None => prior.push(
                DurableProductStock {
                    building_instance_id: v.building_instance_id,
                    product_id: v.product_id,
                    quantity: 1,
                },
            ),
        }
    }
}

/// A wallet after the payments of the cancelled visits are returned, each
/// added saturating.
pub open spec fn refunded(gold: u64, cancelled: Seq<DurableProductServiceVisit>) -> u64
    decreases cancelled.len(),
{
    if cancelled.len() == 0 {
        gold
    } else {
        refunded(gold, cancelled.drop_last()).saturating_add(cancelled.last().payment_gold)
    }
}

/// A Hunter's service visits are cancelled: they are gone, the Hunter gets
/// their payments back and their products go back into stock; nothing else
/// changes. A Hunter with no visit is left alone.
pub open spec fn visits_cancelled(before: OriginalFlowSession, after: OriginalFlowSession, hunter_id: u32) -> bool {
    let visits = before.product_services.visits@;
    let cancelled = visits_of(visits, hunter_id);
    if !hunter_has_visit(visits, hunter_id) {
        after == before
    } else {
        let h = first_index(before.hunter_roster.hunters@, hunter_has_id(hunter_id)).unwrap();
        let hunter = before.hunter_roster.hunters@[h];
        &&& after.product_services.visits@ == visits_not_of(visits, hunter_id)
        &&& after.hunter_roster.hunters@ == before.hunter_roster.hunters@.update(
            h,
            DurableHunterState { gold: refunded(hunter.gold, cancelled), ..hunter },
        )
        &&& after.buildings.product_stocks@ == restocked(before.buildings.product_stocks@, cancelled)
        &&& after == (OriginalFlowSession {
            buildings: DurableBuildingState { product_stocks: after.buildings.product_stocks, ..before.buildings },
            hunter_roster: DurableHunterRosterState { hunters: after.hunter_roster.hunters, ..before.hunter_roster },
            product_services: DurableProductServiceState { visits: after.product_services.visits },
            ..before
        })
    }
}

impl OriginalFlowSession {
    /// Cancels the service visits of Hunter `hunter_id`, which a new hunting
    /// assignment takes priority over (see [`visits_cancelled`]): a paid
    /// service has not reached the town yet, so the Hunter's payment and the
    /// consumed stock both come back. A Hunter with visits must be on the
    /// roster.
    pub fn cancel_hunter_service_visits(&mut self, hunter_id: u32)
        requires
            hunter_has_visit(old(self).product_services.visits@, hunter_id) ==> first_index(
                old(self).hunter_roster.hunters@,
                hunter_has_id(hunter_id),
            ) is Some,
        ensures
            visits_cancelled(*old(self), *final(self), hunter_id),
    {
        if !has_visit_for(&self.product_services.visits, hunter_id) {
            return;
        }
        let ghost visits = self.product_services.visits@;
        let mut kept: Vec<DurableProductServiceVisit> = Vec::new();
        let mut cancelled: Vec<DurableProductServiceVisit> = Vec::new();
        let mut i: usize = 0;
        while i < self.product_services.visits.len()
            invariant
                0 <= i <= visits.len(),
                self.product_services.visits@ == visits,
                kept@ == visits_not_of(visits.take(i as int), hunter_id),
                cancelled@ == visits_of(visits.take(i as int), hunter_id),
            decreases visits.len() - i,
        {
            proof {
                reveal(Seq::filter);
                assert(visits.take(i + 1).drop_last() =~= visits.take(i as int));
            }
            let visit = copy_service_visit(&self.product_services.visits[i]);
            if visit.hunter_id == hunter_id {
                cancelled.push(visit);
            } else {
                kept.push(visit);
            }
            i = i + 1;
        }
        assert(visits.take(visits.len() as int) =~= visits);
        self.product_services.visits = kept;
        let h = find_hunter_index(&self.hunter_roster.hunters, hunter_id).unwrap();
        let ghost start = *self;
        let mut j: usize = 0;
        while j < cancelled.len()
            invariant
                0 <= j <= cancelled@.len(),
                h < start.hunter_roster.hunters@.len(),
                self.hunter_roster.hunters@ == start.hunter_roster.hunters@.update(
                    h as int,
                    DurableHunterState {
                        gold: refunded(start.hunter_roster.hunters@[h as int].gold, cancelled@.take(j as int)),
                        ..start.hunter_roster.hunters@[h as int]
                    },
                ),
                self.buildings.product_stocks@ == restocked(start.buildings.product_stocks@, cancelled@.take(j as int)),
                *self == (OriginalFlowSession {
                    buildings: DurableBuildingState { product_stocks: self.buildings.product_stocks, ..start.buildings },
                    hunter_roster: DurableHunterRosterState { hunters: self.hunter_roster.hunters, ..start.hunter_roster },
                    ..start
                }),
            decreases cancelled@.len() - j,
        {
            let ghost upto = cancelled@.take(j + 1);
            assert(upto.drop_last() =~= cancelled@.take(j as int));
            assert(upto.last() == cancelled@[j as int]);
            let visit = &cancelled[j];
            assert(self.hunter_roster.hunters@[h as int].gold == refunded(
                start.hunter_roster.hunters@[h as int].gold,
                cancelled@.take(j as int),
            ));
            let gold = self.hunter_roster.hunters[h].gold.saturating_add(visit.payment_gold);
            self.hunter_roster.hunters[h].gold = gold;
            match find_product_stock(
                &self.buildings.product_stocks,
                visit.building_instance_id.as_str(),
                visit.product_id.as_str(),
            ) {
                Some(k) => {
                    let quantity = self.buildings.product_stocks[k].quantity.saturating_add(1);
                    self.buildings.product_stocks[k].quantity = quantity;
                },
                None => {
                    self.buildings.product_stocks.push(
                        DurableProductStock {
                            building_instance_id: visit.building_instance_id.clone(),
                            product_id: visit.product_id.clone(),
                            quantity: 1,
                        },
                    );
                },
            }
            assert(self.hunter_roster.hunters@ =~= start.hunter_roster.hunters@.update(
                h as int,
                DurableHunterState { gold: refunded(start.hunter_roster.hunters@[h as int].gold, upto), ..start.hunter_roster.hunters@[h as int] },
            ));
            assert(self.buildings.product_stocks@ =~= restocked(start.buildings.product_stocks@, upto));
            j = j + 1;
        }
        assert(cancelled@.take(cancelled@.len() as int) =~= cancelled@);
    }
}

/// Without a visit of the Hunter, none is taken and all are kept.
proof fn lemma_split_without_hunter(visits: Seq<DurableProductServiceVisit>, hunter_id: u32)
    requires
        !hunter_has_visit(visits, hunter_id),
    ensures
        visits_of(visits, hunter_id) == Seq::<DurableProductServiceVisit>::empty(),
        visits_not_of(visits, hunter_id) == visits,
    decreases visits.len(),
{
    reveal(Seq::filter);
    if visits.len() > 0 {
        let rest = visits.drop_last();
        assert(!hunter_has_visit(rest, hunter_id)) by {
            if hunter_has_visit(rest, hunter_id) {
                let i = choose|i: int| 0 <= i < rest.len() && #[trigger] rest[i].hunter_id == hunter_id;
                assert(visits[i].hunter_id == hunter_id);
            }
        }
        lemma_split_without_hunter(rest, hunter_id);
        assert(visits.last().hunter_id != hunter_id) by {
            if visits.last().hunter_id == hunter_id {
                assert(visits[visits.len() - 1].hunter_id == hunter_id);
            }
        }
        assert(rest.push(visits.last()) =~= visits);
    }
}

/// Cancelling a service visit right after it started undoes the start: the
/// visit is gone, the Hunter has its payment back, the product is back in
/// stock, and the town wallet never moved.
pub proof fn lemma_cancel_undoes_service_start(
    before: OriginalFlowSession,
    started: OriginalFlowSession,
    cancelled: OriginalFlowSession,
    instance_id: Seq<char>,
    hunter_id: u32,
    product_id: Seq<char>,
    message: ServerMessage,
)
    requires
        service_outcome(before, started, instance_id, hunter_id, product_id, message),
        is_accepted(message, "start_building_service"@),
        visits_cancelled(started, cancelled, hunter_id),
    ensures
        ({
            let h = first_index(before.hunter_roster.hunters@, hunter_has_id(hunter_id)).unwrap();
            &&& cancelled.product_services.visits@ == before.product_services.visits@
            &&& cancelled.hunter_roster.hunters@[h].gold == before.hunter_roster.hunters@[h].gold
            &&& cancelled.buildings.product_stocks@ == before.buildings.product_stocks@
            &&& cancelled.buildings.town_gold == before.buildings.town_gold
        }),
{
    reveal(Seq::filter);
    assert(service_blocked(before, instance_id) is None);
    assert(service_rejection(before, instance_id, hunter_id, product_id) is None);
    assert(!hunter_in_service(before, hunter_id));
    let visits = before.product_services.visits@;
    let grown = started.product_services.visits@;
    let visit = grown.last();
    assert(grown =~= visits.push(visit));
    assert(grown[grown.len() - 1].hunter_id == hunter_id);
    assert(hunter_has_visit(grown, hunter_id));
    lemma_split_without_hunter(visits, hunter_id);
    assert(grown.drop_last() =~= visits);
    assert(visits_of(grown, hunter_id) =~= seq![visit]);
    assert(visits_not_of(grown, hunter_id) =~= visits);
    let h = first_index(before.hunter_roster.hunters@, hunter_has_id(hunter_id)).unwrap();
    lemma_first_index(before.hunter_roster.hunters@, hunter_has_id(hunter_id));
    lemma_first_index(started.hunter_roster.hunters@, hunter_has_id(hunter_id));
    assert(first_index(started.hunter_roster.hunters@, hunter_has_id(hunter_id)) == Some(h)) by {
        lemma_first_index_is(started.hunter_roster.hunters@, hunter_has_id(hunter_id), h);
    }
    let once = seq![visit];
    assert(once.drop_last() =~= Seq::<DurableProductServiceVisit>::empty());
    let service = find_product(before.building_content.gameplay.products@, product_id).unwrap().service.unwrap();
    assert(visit.payment_gold == service.use_money);
    assert(started.hunter_roster.hunters@[h].gold == before.hunter_roster.hunters@[h].gold - service.use_money);
    assert(once.last() == visit);
    assert(refunded(started.hunter_roster.hunters@[h].gold, once.drop_last()) == started.hunter_roster.hunters@[h].gold);
    assert(refunded(started.hunter_roster.hunters@[h].gold, once) == before.hunter_roster.hunters@[h].gold);
    let stocks = before.buildings.product_stocks@;
    let p = stock_for(instance_id, product_id);
    let s = first_index(stocks, p).unwrap();
    lemma_first_index(stocks, p);
    let prior = started.buildings.product_stocks@;
    assert(prior == stocks.update(s, DurableProductStock { quantity: (stocks[s].quantity - 1) as u32, ..stocks[s] }));
    lemma_first_index_update(stocks, p, s, DurableProductStock { quantity: (stocks[s].quantity - 1) as u32, ..stocks[s] });
    assert(restocked(prior, once.drop_last()) == prior);
    assert(restocked(prior, once) =~= stocks);
}

} // verus!
