use vstd::prelude::*;

use crate::building_domain::{base_building_id_valid, building_has_instance, is_base_building_id, find_building_by_instance, find_material_stock, stock_has_id};
use crate::catalog::offers_capability;
use crate::contracts::{DurableBuildingState, DurableMaterialStock};
use crate::seqs::first_index;
use crate::session::{is_accepted, is_rejected, world_active, OriginalFlowSession, ServerMessage};
use crate::session_trade::town_price;
use crate::text::{lemma_lex_asymmetric, lemma_lex_total, lemma_lex_transitive, lex_lt, str_lt};
use crate::trading_post::{difficulty_rating_of, material_difficulty_rating};

verus! {

/// The capability a building needs to take material requests.
pub open spec fn reservation_capability() -> Seq<char> {
    "loot-purchase-reservations"@
}

/// A stock of material `id`.
pub open spec fn id_is(id: Seq<char>) -> spec_fn(DurableMaterialStock) -> bool {
    |stock: DurableMaterialStock| stock.id@ == id
}

/// Stocks in string order of their ids (equal ids in any order).
pub open spec fn sorted_by_id(stocks: Seq<DurableMaterialStock>) -> bool {
    forall|i: int, j: int| 0 <= i < j < stocks.len() ==> !lex_lt(#[trigger] stocks[j].id@, #[trigger] stocks[i].id@)
}

/// `after` is `before` sorted stably by id: in id order, and the stocks of
/// each id are those of `before` in their order there.
pub open spec fn stably_sorted(before: Seq<DurableMaterialStock>, after: Seq<DurableMaterialStock>) -> bool {
    &&& sorted_by_id(after)
    &&& forall|id: Seq<char>| #[trigger] after.filter(id_is(id)) == before.filter(id_is(id))
}

/// No stock passes a filter that none satisfies.
proof fn lemma_filter_none(s: Seq<DurableMaterialStock>, p: spec_fn(DurableMaterialStock) -> bool)
    requires
        forall|i: int| 0 <= i < s.len() ==> !p(#[trigger] s[i]),
    ensures
        s.filter(p) == Seq::<DurableMaterialStock>::empty(),
    decreases s.len(),
{
    reveal(Seq::filter);
    if s.len() > 0 {
        lemma_filter_none(s.drop_last(), p);
    }
}

/// Sorts stocks stably by id (std's stable `sort_by` on the id).
fn sort_stocks_by_id(stocks: &mut Vec<DurableMaterialStock>)
    ensures
        stably_sorted(old(stocks)@, final(stocks)@),
{
    let ghost input = stocks@;
    let rows = stocks.split_off(0);
    assert(rows@ =~= input);
    assert(input.take(0) =~= Seq::<DurableMaterialStock>::empty());
    assert forall|id: Seq<char>| #[trigger] stocks@.filter(id_is(id)) == input.take(0).filter(id_is(id)) by {
        reveal(Seq::filter);
    }
    for row in it: rows
        invariant
            it.seq() == input,
            sorted_by_id(stocks@),
            forall|id: Seq<char>| #[trigger] stocks@.filter(id_is(id)) == input.take(it.index() as int).filter(id_is(id)),
    {
        let ghost k = it.index() as int;
        let mut p: usize = 0;
        while p < stocks.len()
            invariant
                0 <= p <= stocks@.len(),
                forall|j: int| 0 <= j < p ==> !lex_lt(row.id@, #[trigger] stocks@[j].id@),
            ensures
                0 <= p <= stocks@.len(),
                forall|j: int| 0 <= j < p ==> !lex_lt(row.id@, #[trigger] stocks@[j].id@),
                p < stocks@.len() ==> lex_lt(row.id@, stocks@[p as int].id@),
            decreases stocks@.len() - p,
        {
            if str_lt(row.id.as_str(), stocks[p].id.as_str()) {
                break;
            }
            p = p + 1;
        }
        let ghost out = stocks@;
        proof {
            assert forall|j: int| p <= j < out.len() implies lex_lt(row.id@, #[trigger] out[j].id@) by {
                if j > p {
                    lemma_lex_total(out[j].id@, out[p as int].id@);
                    if lex_lt(out[p as int].id@, out[j].id@) {
                        lemma_lex_transitive(row.id@, out[p as int].id@, out[j].id@);
                    }
                }
            }
        }
        let ghost e = row;
        stocks.insert(p, row);
        let ghost next = stocks@;
        assert(next =~= out.take(p as int) + seq![e] + out.skip(p as int));
        assert(out =~= out.take(p as int) + out.skip(p as int));
        assert forall|a: int, b: int| 0 <= a < b < next.len() implies !lex_lt(#[trigger] next[b].id@, #[trigger] next[a].id@) by {
            if b < p {
                assert(next[a] == out[a] && next[b] == out[b]);
            } else if b == p {
                assert(next[a] == out[a]);
            } else if a < p {
                assert(next[a] == out[a] && next[b] == out[b - 1]);
                lemma_lex_asymmetric(e.id@, out[b - 1].id@);
                lemma_lex_total(out[a].id@, e.id@);
                if lex_lt(out[b - 1].id@, out[a].id@) {
                    lemma_lex_transitive(e.id@, out[b - 1].id@, out[a].id@);
                }
            } else if a == p {
                assert(next[b] == out[b - 1]);
                lemma_lex_asymmetric(e.id@, out[b - 1].id@);
            } else {
                assert(next[a] == out[a - 1] && next[b] == out[b - 1]);
            }
        }
        assert forall|id: Seq<char>| #[trigger] next.filter(id_is(id)) == input.take(k + 1).filter(id_is(id)) by {
            assert(input.take(k + 1) =~= input.take(k).push(e));
            input.take(k).lemma_filter_push(e, id_is(id));
            Seq::filter_distributes_over_add(out.take(p as int) + seq![e], out.skip(p as int), id_is(id));
            Seq::filter_distributes_over_add(out.take(p as int), seq![e], id_is(id));
            Seq::filter_distributes_over_add(out.take(p as int), out.skip(p as int), id_is(id));
            assert(seq![e] =~= Seq::<DurableMaterialStock>::empty().push(e));
            Seq::<DurableMaterialStock>::empty().lemma_filter_push(e, id_is(id));
            reveal(Seq::filter);
            if e.id@ == id {
                let rest = out.skip(p as int);
                assert forall|j: int| 0 <= j < rest.len() implies !id_is(id)(#[trigger] rest[j]) by {
                    assert(rest[j] == out[p + j]);
                    lemma_lex_asymmetric(e.id@, out[p + j].id@);
                }
                lemma_filter_none(rest, id_is(id));
            }
        }
    }
    assert(input.take(input.len() as int) =~= input);
}

/// How a material request is answered.
pub enum RequestDecision {
    Reject(Seq<char>),
    /// Accepted: the town requests the units at the catalog price.
    Request(u64),
}

/// The decision on requesting `quantity` units of `material_id` at building
/// instance `instance_id`, checks in order: the shared world; the instance;
/// its reservation capability; the material's difficulty rating, which must
/// be below the building's level; a non-zero quantity; the catalog price.
pub open spec fn request_decision(
    session: OriginalFlowSession,
    instance_id: Seq<char>,
    material_id: Seq<char>,
    quantity: u32,
) -> RequestDecision {
    let gameplay = session.building_content.gameplay;
    if !world_active(session.state.screen) {
        RequestDecision::Reject("village_unavailable"@)
    } else {
        match first_index(session.buildings.buildings@, building_has_instance(instance_id)) {
            None => RequestDecision::Reject("building_instance_unknown"@),
            Some(b) => {
                let building = session.buildings.buildings@[b];
                if !is_base_building_id(building.id@) {
                    RequestDecision::Reject("building_unknown"@)
                } else if !offers_capability(gameplay.capabilities@, building.id@, reservation_capability()) {
                    RequestDecision::Reject("building_capability_mismatch"@)
                } else {
                    match difficulty_rating_of(material_id) {
                        None => RequestDecision::Reject("material_difficulty_unresolved"@),
                        Some(rating) => if rating >= building.level {
                            RequestDecision::Reject("material_difficulty_locked"@)
                        } else if quantity == 0 {
                            RequestDecision::Reject("material_quantity_invalid"@)
                        } else {
                            match town_price(gameplay.items@, material_id) {
                                None => RequestDecision::Reject("material_price_unresolved"@),
                                Some(price) => RequestDecision::Request(price),
                            }
                        },
                    }
                }
            },
        }
    }
}

/// The stocks after a request: the first stock of the material requests
/// `quantity` at `price`; without one, a stock of just the request is added
/// and the stocks are sorted stably by id.
pub open spec fn request_recorded(
    before: Seq<DurableMaterialStock>,
    after: Seq<DurableMaterialStock>,
    material_id: Seq<char>,
    quantity: u32,
    price: u64,
) -> bool {
    match first_index(before, stock_has_id(material_id)) {
        Some(k) => after == before.update(k, DurableMaterialStock { requested: quantity, unit_price: price, ..before[k] }),
        None => exists|added: DurableMaterialStock|
            {
                &&& added.id@ == material_id
                &&& added.town_quantity == 0
                &&& added.hunter_quantity == 0
                &&& added.requested == quantity
                &&& added.unit_price == price
                &&& #[trigger] stably_sorted(before.push(added), after)
            },
    }
}

/// The reply to and effect of a material request.
pub open spec fn request_outcome(
    before: OriginalFlowSession,
    after: OriginalFlowSession,
    instance_id: Seq<char>,
    material_id: Seq<char>,
    quantity: u32,
    message: ServerMessage,
) -> bool {
    match request_decision(before, instance_id, material_id, quantity) {
        RequestDecision::Reject(reason) => is_rejected(message, "set_material_request"@, reason) && after == before,
        RequestDecision::Request(price) => {
            &&& is_accepted(message, "set_material_request"@)
            &&& request_recorded(before.buildings.material_stocks@, after.buildings.material_stocks@, material_id, quantity, price)
            &&& after == OriginalFlowSession {
                buildings: DurableBuildingState { material_stocks: after.buildings.material_stocks, ..before.buildings },
                ..before
            }
        },
    }
}

/// The reason a request cancellation is refused, checks in order: the
/// shared world; the instance; its reservation capability; a stock of the
/// material.
pub open spec fn cancel_refusal(session: OriginalFlowSession, instance_id: Seq<char>, material_id: Seq<char>) -> Option<
    Seq<char>,
> {
    if !world_active(session.state.screen) {
        Some("village_unavailable"@)
    } else {
        match first_index(session.buildings.buildings@, building_has_instance(instance_id)) {
            None => Some("building_instance_unknown"@),
            Some(b) => if !(is_base_building_id(session.buildings.buildings@[b].id@) && offers_capability(
                session.building_content.gameplay.capabilities@,
                session.buildings.buildings@[b].id@,
                reservation_capability(),
            )) {
                Some("building_capability_mismatch"@)
            } else if first_index(session.buildings.material_stocks@, stock_has_id(material_id)) is None {
                Some("material_request_unknown"@)
            } else {
                None
            },
        }
    }
}

/// The reply to and effect of a cancellation: the first stock of the
/// material requests nothing more.
pub open spec fn cancel_outcome(
    before: OriginalFlowSession,
    after: OriginalFlowSession,
    instance_id: Seq<char>,
    material_id: Seq<char>,
    message: ServerMessage,
) -> bool {
    match cancel_refusal(before, instance_id, material_id) {
        Some(reason) => is_rejected(message, "cancel_material_request"@, reason) && after == before,
        None => {
            let stocks = before.buildings.material_stocks@;
            let k = first_index(stocks, stock_has_id(material_id)).unwrap();
            &&& is_accepted(message, "cancel_material_request"@)
            &&& after.buildings.material_stocks@ == stocks.update(k, DurableMaterialStock { requested: 0, ..stocks[k] })
            &&& after == OriginalFlowSession {
                buildings: DurableBuildingState { material_stocks: after.buildings.material_stocks, ..before.buildings },
                ..before
            }
        },
    }
}

impl OriginalFlowSession {
    /// Requests `quantity` units of `material_id` at a Trading Post (see
    /// [`request_decision`] and [`request_recorded`]).
    pub fn set_material_request(&mut self, instance_id: &str, material_id: &str, quantity: u32) -> (message: ServerMessage)
        ensures
            request_outcome(*old(self), *final(self), instance_id@, material_id@, quantity, message),
    {
        let intent = "set_material_request";
        if !self.shared_world_active() {
            return self.rejected(intent, "village_unavailable");
        }
        let b = match find_building_by_instance(&self.buildings.buildings, instance_id) {
            Some(b) => b,
            None => {
                return self.rejected(intent, "building_instance_unknown");
            },
        };
        if !base_building_id_valid(self.buildings.buildings[b].id.as_str()) {
            return self.rejected(intent, "building_unknown");
        }
        if !self.building_content.gameplay.has_capability(
            self.buildings.buildings[b].id.as_str(),
            "loot-purchase-reservations",
        ) {
            return self.rejected(intent, "building_capability_mismatch");
        }
        let rating = match material_difficulty_rating(material_id) {
            Some(rating) => rating,
            None => {
                return self.rejected(intent, "material_difficulty_unresolved");
            },
        };
        if rating >= self.buildings.buildings[b].level {
            return self.rejected(intent, "material_difficulty_locked");
        }
        if quantity == 0 {
            return self.rejected(intent, "material_quantity_invalid");
        }
        let price = match self.building_content.gameplay.item(material_id) {
            Some(item) => match item.town_pays_hunter_gold_per_unit {
                Some(price) => price,
                None => {
                    return self.rejected(intent, "material_price_unresolved");
                },
            },
            None => {
                return self.rejected(intent, "material_price_unresolved");
            },
        };
        match find_material_stock(&self.buildings.material_stocks, material_id) {
            Some(k) => {
                let ghost stocks = self.buildings.material_stocks@;
                self.buildings.material_stocks[k].requested = quantity;
                self.buildings.material_stocks[k].unit_price = price;
                assert(self.buildings.material_stocks@ =~= stocks.update(
                    k as int,
                    DurableMaterialStock { requested: quantity, unit_price: price, ..stocks[k as int] },
                ));
            },
            None => {
                let added = DurableMaterialStock {
                    id: material_id.to_owned(),
                    town_quantity: 0,
                    hunter_quantity: 0,
                    requested: quantity,
                    unit_price: price,
                };
                let ghost pushed = self.buildings.material_stocks@.push(added);
                self.buildings.material_stocks.push(added);
                sort_stocks_by_id(&mut self.buildings.material_stocks);
                assert(stably_sorted(pushed, self.buildings.material_stocks@));
            },
        }
        self.accepted(intent)
    }

    /// Cancels the request of `material_id` at a Trading Post (see
    /// [`cancel_refusal`] and [`cancel_outcome`]).
    pub fn cancel_material_request(&mut self, instance_id: &str, material_id: &str) -> (message: ServerMessage)
        ensures
            cancel_outcome(*old(self), *final(self), instance_id@, material_id@, message),
    {
        let intent = "cancel_material_request";
        if !self.shared_world_active() {
            return self.rejected(intent, "village_unavailable");
        }
        let b = match find_building_by_instance(&self.buildings.buildings, instance_id) {
            Some(b) => b,
            None => {
                return self.rejected(intent, "building_instance_unknown");
            },
        };
        if !(base_building_id_valid(self.buildings.buildings[b].id.as_str())
            && self.building_content.gameplay.has_capability(
            self.buildings.buildings[b].id.as_str(),
            "loot-purchase-reservations",
        )) {
            return self.rejected(intent, "building_capability_mismatch");
        }
        let k = match find_material_stock(&self.buildings.material_stocks, material_id) {
            Some(k) => k,
            None => {
                return self.rejected(intent, "material_request_unknown");
            },
        };
        let ghost stocks = self.buildings.material_stocks@;
        self.buildings.material_stocks[k].requested = 0;
        assert(self.buildings.material_stocks@ =~= stocks.update(
            k as int,
            DurableMaterialStock { requested: 0, ..stocks[k as int] },
        ));
        self.accepted(intent)
    }
}

} // verus!
