use vstd::prelude::*;

use crate::building_domain::{footprints_of, interaction_point_of, town_building_interaction_point, town_navigation_obstacles};
use crate::building_projection::{stored_units, stored_units_of};
use crate::catalog::find_product;
use crate::contracts::{DurableBuilding, DurableProductStock};
use crate::product_service::{capacity_for_level, capacity_spec};
use crate::roster::DurableHunterState;
use crate::session::{OriginalFlowSession, ServerMessage};
use crate::session_services::{count_visits_at, has_visit_for, hunter_has_visit, occupied_slots};
use crate::text::{lex_lt, str_eq, str_lt};
use crate::session_auto_trade::{agent_at, HunterAgentPosition};
use crate::session_services::service_outcome;

verus! {

/// A Hunter's planned walk to an Infirmary for a treatment.
#[derive(Clone, Debug, PartialEq, Eq)]
pub struct AutonomousInfirmaryPlan {
    pub hunter_id: u32,
    pub building_instance_id: String,
    pub product_id: String,
    /// The Infirmary's interaction point.
    pub destination_x: i32,
    pub destination_y: i32,
    pub effect_value: u64,
    pub use_money: u64,
}

/// Plans already made at Infirmary instance `instance_id`.
pub open spec fn plans_at(plans: Seq<AutonomousInfirmaryPlan>, instance_id: Seq<char>) -> nat
    decreases plans.len(),
{
    if plans.len() == 0 {
        0
    } else {
        plans_at(plans.drop_last(), instance_id) + (if plans.last().building_instance_id@ == instance_id { 1nat } else { 0nat })
    }
}

/// Plans already made for treatment `product_id` at `instance_id`.
pub open spec fn plans_for_stock(plans: Seq<AutonomousInfirmaryPlan>, instance_id: Seq<char>, product_id: Seq<char>) -> nat
    decreases plans.len(),
{
    if plans.len() == 0 {
        0
    } else {
        plans_for_stock(plans.drop_last(), instance_id, product_id) + (if plans.last().building_instance_id@
            == instance_id && plans.last().product_id@ == product_id {
            1nat
        } else {
            0nat
        })
    }
}

/// Treatment slots of Infirmary instance `instance_id`: those of the level of
/// its last Infirmary building with that id (none past the table).
pub open spec fn infirmary_capacity(buildings: Seq<DurableBuilding>, instance_id: Seq<char>) -> int
    decreases buildings.len(),
{
    if buildings.len() == 0 {
        0
    } else if buildings.last().id@ == "build_12"@ && buildings.last().instance_id@ == instance_id {
        match capacity_spec("build_12"@, buildings.last().level as u16) {
            Some(c) => c as int,
            None => 0,
        }
    } else {
        infirmary_capacity(buildings.drop_last(), instance_id)
    }
}

/// `a - b`, held at zero.
pub open spec fn left_over(a: int, b: int) -> int {
    if a >= b {
        a - b
    } else {
        0
    }
}

/// Treatment slots still free at an Infirmary once the visits in progress
/// and the plans made so far are counted.
pub open spec fn slots_left(session: OriginalFlowSession, instance_id: Seq<char>, plans: Seq<AutonomousInfirmaryPlan>) -> int {
    left_over(
        left_over(
            infirmary_capacity(session.buildings.buildings@, instance_id),
            occupied_slots(session.product_services.visits@, instance_id) as int,
        ),
        plans_at(plans, instance_id) as int,
    )
}

/// Treatment stock still unplanned at an Infirmary.
pub open spec fn stock_left(
    session: OriginalFlowSession,
    instance_id: Seq<char>,
    product_id: Seq<char>,
    plans: Seq<AutonomousInfirmaryPlan>,
) -> int {
    left_over(
        stored_units(session.buildings.product_stocks@, instance_id, product_id) as int,
        plans_for_stock(plans, instance_id, product_id) as int,
    )
}

/// Stock row `r` is the last row of its building instance and product.
pub open spec fn last_row_of_key(stocks: Seq<DurableProductStock>, r: int) -> bool {
    forall|j: int|
        r < j < stocks.len() ==> !(#[trigger] stocks[j].building_instance_id@ == stocks[r].building_instance_id@
            && stocks[j].product_id@ == stocks[r].product_id@)
}

/// The plan Infirmary `b` and stock row `r` offer a Hunter: the row is the
/// Infirmary's (the last row of its product), the Infirmary has a free slot,
/// an interaction point and unplanned stock, and the product is an
/// Infirmary treatment the Infirmary's level admits and the Hunter can pay.
pub open spec fn candidate(
    session: OriginalFlowSession,
    hunter: DurableHunterState,
    b: int,
    r: int,
    plans: Seq<AutonomousInfirmaryPlan>,
) -> Option<AutonomousInfirmaryPlan> {
    let buildings = session.buildings.buildings@;
    let stocks = session.buildings.product_stocks@;
    let catalog = session.building_content.catalog;
    let building = buildings[b];
    let row = stocks[r];
    let point = interaction_point_of(building, catalog, footprints_of(buildings, catalog));
    if building.id@ != "build_12"@ || slots_left(session, building.instance_id@, plans) == 0 || point is None
        || row.building_instance_id@ != building.instance_id@ || !last_row_of_key(stocks, r) || stock_left(
        session,
        row.building_instance_id@,
        row.product_id@,
        plans,
    ) == 0 {
        None
    } else {
        match find_product(session.building_content.gameplay.products@, row.product_id@) {
            None => None,
            Some(product) => if !(product.building_id matches Some(id) && id@ == "build_12"@) {
                None
            } else {
                match product.service {
                    None => None,
                    Some(service) => if service.required_level >= building.level as u16 || service.use_money
                        > hunter.gold {
                        None
                    } else {
                        Some(
                            AutonomousInfirmaryPlan {
                                hunter_id: hunter.hunter_id,
                                building_instance_id: building.instance_id,
                                product_id: row.product_id,
                                destination_x: point.unwrap().0 as i32,
                                destination_y: point.unwrap().1 as i32,
                                effect_value: service.effect_value,
                                use_money: service.use_money,
                            },
                        )
                    },
                }
            },
        }
    }
}

/// Plan `a` is preferred to plan `b`: stronger healing, then a lower fee,
/// then the product id, then the Infirmary instance id in string order.
pub open spec fn preferred(a: AutonomousInfirmaryPlan, b: AutonomousInfirmaryPlan) -> bool {
    ||| a.effect_value > b.effect_value
    ||| a.effect_value == b.effect_value && a.use_money < b.use_money
    ||| a.effect_value == b.effect_value && a.use_money == b.use_money && lex_lt(a.product_id@, b.product_id@)
    ||| a.effect_value == b.effect_value && a.use_money == b.use_money && a.product_id@ == b.product_id@ && lex_lt(
        a.building_instance_id@,
        b.building_instance_id@,
    )
}

/// Keeps the current best plan unless the candidate is preferred to it.
pub open spec fn pick(best: Option<AutonomousInfirmaryPlan>, offer: Option<AutonomousInfirmaryPlan>) -> Option<
    AutonomousInfirmaryPlan,
> {
    match offer {
        None => best,
        Some(c) => match best {
            None => Some(c),
            Some(p) => if preferred(c, p) {
                Some(c)
            } else {
                best
            },
        },
    }
}

/// The best plan from `start` on over the first `n` stock rows at
/// Infirmary `b`.
pub open spec fn best_over_rows(
    start: Option<AutonomousInfirmaryPlan>,
    session: OriginalFlowSession,
    hunter: DurableHunterState,
    b: int,
    plans: Seq<AutonomousInfirmaryPlan>,
    n: int,
) -> Option<AutonomousInfirmaryPlan>
    decreases n,
{
    if n <= 0 {
        start
    } else {
        pick(best_over_rows(start, session, hunter, b, plans, n - 1), candidate(session, hunter, b, n - 1, plans))
    }
}

/// The best plan over the first `m` buildings (the earliest of equally
/// preferred plans).
pub open spec fn best_plan(
    session: OriginalFlowSession,
    hunter: DurableHunterState,
    plans: Seq<AutonomousInfirmaryPlan>,
    m: int,
) -> Option<AutonomousInfirmaryPlan>
    decreases m,
{
    if m <= 0 {
        None
    } else {
        best_over_rows(
            best_plan(session, hunter, plans, m - 1),
            session,
            hunter,
            m - 1,
            plans,
            session.buildings.product_stocks@.len() as int,
        )
    }
}

/// A Hunter that walks to an Infirmary on its own and has no visit yet.
pub open spec fn seeks_treatment(session: OriginalFlowSession, hunter: DurableHunterState) -> bool {
    hunter.profile.action_state@ == "returning_for_infirmary"@ && !hunter_has_visit(
        session.product_services.visits@,
        hunter.hunter_id,
    )
}

/// The plans for the Hunters among `hunters`, in roster order: each Hunter
/// seeking treatment gets the best plan left once earlier plans took their
/// slot and unit of stock.
pub open spec fn infirmary_plans(session: OriginalFlowSession, hunters: Seq<DurableHunterState>) -> Seq<
    AutonomousInfirmaryPlan,
>
    decreases hunters.len(),
{
    if hunters.len() == 0 {
        seq![]
    } else {
        let earlier = infirmary_plans(session, hunters.drop_last());
        let hunter = hunters.last();
        if seeks_treatment(session, hunter) {
            match best_plan(session, hunter, earlier, session.buildings.buildings@.len() as int) {
                Some(plan) => earlier.push(plan),
                None => earlier,
            }
        } else {
            earlier
        }
    }
}

/// A plan is made for `hunter` and is one it can pay for.
pub open spec fn affordable_for(plan: AutonomousInfirmaryPlan, hunter: DurableHunterState) -> bool {
    plan.hunter_id == hunter.hunter_id && plan.use_money <= hunter.gold
}

/// The best plan over stock rows is the start or a plan the Hunter can pay.
proof fn lemma_best_over_rows_affordable(
    start: Option<AutonomousInfirmaryPlan>,
    session: OriginalFlowSession,
    hunter: DurableHunterState,
    b: int,
    plans: Seq<AutonomousInfirmaryPlan>,
    n: int,
)
    requires
        start matches Some(p) ==> affordable_for(p, hunter),
    ensures
        best_over_rows(start, session, hunter, b, plans, n) matches Some(p) ==> affordable_for(p, hunter),
    decreases n,
{
    if n > 0 {
        lemma_best_over_rows_affordable(start, session, hunter, b, plans, n - 1);
    }
}

/// The best plan for a Hunter is one it can pay.
proof fn lemma_best_plan_affordable(
    session: OriginalFlowSession,
    hunter: DurableHunterState,
    plans: Seq<AutonomousInfirmaryPlan>,
    m: int,
)
    ensures
        best_plan(session, hunter, plans, m) matches Some(p) ==> affordable_for(p, hunter),
    decreases m,
{
    if m > 0 {
        lemma_best_plan_affordable(session, hunter, plans, m - 1);
        lemma_best_over_rows_affordable(
            best_plan(session, hunter, plans, m - 1),
            session,
            hunter,
            m - 1,
            plans,
            session.buildings.product_stocks@.len() as int,
        );
    }
}

/// Every Infirmary walk the town plans is made for one of the Hunters
/// considered, and that Hunter holds at least the treatment's fee.
pub proof fn lemma_infirmary_plans_affordable(session: OriginalFlowSession, hunters: Seq<DurableHunterState>)
    ensures
        forall|k: int|
            0 <= k < infirmary_plans(session, hunters).len() ==> exists|j: int|
                0 <= j < hunters.len() && (#[trigger] hunters[j]).hunter_id == (#[trigger] infirmary_plans(
                    session,
                    hunters,
                )[k]).hunter_id && infirmary_plans(session, hunters)[k].use_money <= hunters[j].gold,
    decreases hunters.len(),
{
    if hunters.len() > 0 {
        let rest = hunters.drop_last();
        let earlier = infirmary_plans(session, rest);
        lemma_infirmary_plans_affordable(session, rest);
        let hunter = hunters.last();
        lemma_best_plan_affordable(session, hunter, earlier, session.buildings.buildings@.len() as int);
        let all = infirmary_plans(session, hunters);
        assert forall|k: int| 0 <= k < all.len() implies exists|j: int|
            0 <= j < hunters.len() && (#[trigger] hunters[j]).hunter_id == (#[trigger] all[k]).hunter_id
                && all[k].use_money <= hunters[j].gold by {
            if k < earlier.len() {
                assert(all[k] == earlier[k]);
                let j = choose|j: int|
                    0 <= j < rest.len() && (#[trigger] rest[j]).hunter_id == (#[trigger] earlier[k]).hunter_id
                        && earlier[k].use_money <= rest[j].gold;
                assert(hunters[j] == rest[j]);
            } else {
                assert(hunters[hunters.len() - 1] == hunter);
            }
        }
    }
}

/// Plan `p` heals at least as much as plan `c`, and for no higher fee when
/// they heal the same.
pub open spec fn at_least_as_good(p: AutonomousInfirmaryPlan, c: AutonomousInfirmaryPlan) -> bool {
    c.effect_value < p.effect_value || (c.effect_value == p.effect_value && p.use_money <= c.use_money)
}

/// The best plan over stock rows is at least as good as the start and as
/// every row's candidate.
proof fn lemma_best_over_rows_strongest(
    start: Option<AutonomousInfirmaryPlan>,
    session: OriginalFlowSession,
    hunter: DurableHunterState,
    b: int,
    plans: Seq<AutonomousInfirmaryPlan>,
    n: int,
)
    ensures
        start matches Some(s) ==> best_over_rows(start, session, hunter, b, plans, n) matches Some(p) && at_least_as_good(
            p,
            s,
        ),
        forall|r: int|
            0 <= r < n ==> (#[trigger] candidate(session, hunter, b, r, plans) matches Some(c) ==> best_over_rows(
                start,
                session,
                hunter,
                b,
                plans,
                n,
            ) matches Some(p) && at_least_as_good(p, c)),
    decreases n,
{
    if n > 0 {
        lemma_best_over_rows_strongest(start, session, hunter, b, plans, n - 1);
    }
}

/// The best plan over the first `m` buildings is at least as good as every
/// candidate they offer.
proof fn lemma_best_plan_strongest_upto(
    session: OriginalFlowSession,
    hunter: DurableHunterState,
    plans: Seq<AutonomousInfirmaryPlan>,
    m: int,
)
    ensures
        forall|b: int, r: int|
            0 <= b < m && 0 <= r < session.buildings.product_stocks@.len() ==> (#[trigger] candidate(
                session,
                hunter,
                b,
                r,
                plans,
            ) matches Some(c) ==> best_plan(session, hunter, plans, m) matches Some(p) && at_least_as_good(p, c)),
    decreases m,
{
    if m > 0 {
        lemma_best_plan_strongest_upto(session, hunter, plans, m - 1);
        let n = session.buildings.product_stocks@.len() as int;
        lemma_best_over_rows_strongest(best_plan(session, hunter, plans, m - 1), session, hunter, m - 1, plans, n);
    }
}

/// A Hunter walking to an Infirmary on its own is planned the strongest
/// treatment on offer to it: every treatment it could be planned heals no
/// more, and one that heals as much costs no less.
pub proof fn lemma_best_plan_strongest(
    session: OriginalFlowSession,
    hunter: DurableHunterState,
    plans: Seq<AutonomousInfirmaryPlan>,
)
    ensures
        forall|b: int, r: int|
            0 <= b < session.buildings.buildings@.len() && 0 <= r < session.buildings.product_stocks@.len() ==> (
            #[trigger] candidate(session, hunter, b, r, plans) matches Some(c) ==> best_plan(
                session,
                hunter,
                plans,
                session.buildings.buildings@.len() as int,
            ) matches Some(p) && p.effect_value >= c.effect_value && (p.effect_value == c.effect_value
                ==> p.use_money <= c.use_money)),
{
    lemma_best_plan_strongest_upto(session, hunter, plans, session.buildings.buildings@.len() as int);
}

/// Counts the plans made at an Infirmary instance.
fn count_plans_at(plans: &Vec<AutonomousInfirmaryPlan>, instance_id: &str) -> (count: usize)
    ensures
        count == plans_at(plans@, instance_id@),
{
    let mut count: usize = 0;
    let mut i: usize = 0;
    while i < plans.len()
        invariant
            0 <= i <= plans@.len(),
            count <= i,
            count == plans_at(plans@.take(i as int), instance_id@),
        decreases plans@.len() - i,
    {
        assert(plans@.take(i + 1).drop_last() =~= plans@.take(i as int));
        if str_eq(plans[i].building_instance_id.as_str(), instance_id) {
            count = count + 1;
        }
        i = i + 1;
    }
    assert(plans@.take(plans@.len() as int) =~= plans@);
    count
}

/// Counts the plans made for a treatment at an Infirmary instance.
fn count_plans_for_stock(plans: &Vec<AutonomousInfirmaryPlan>, instance_id: &str, product_id: &str) -> (count: usize)
    ensures
        count == plans_for_stock(plans@, instance_id@, product_id@),
{
    let mut count: usize = 0;
    let mut i: usize = 0;
    while i < plans.len()
        invariant
            0 <= i <= plans@.len(),
            count <= i,
            count == plans_for_stock(plans@.take(i as int), instance_id@, product_id@),
        decreases plans@.len() - i,
    {
        assert(plans@.take(i + 1).drop_last() =~= plans@.take(i as int));
        if str_eq(plans[i].building_instance_id.as_str(), instance_id) && str_eq(plans[i].product_id.as_str(), product_id) {
            count = count + 1;
        }
        i = i + 1;
    }
    assert(plans@.take(plans@.len() as int) =~= plans@);
    count
}

/// Treatment slots of an Infirmary instance (see [`infirmary_capacity`]).
fn infirmary_capacity_of(buildings: &Vec<DurableBuilding>, instance_id: &str) -> (capacity: u16)
    ensures
        capacity as int == infirmary_capacity(buildings@, instance_id@),
{
    let mut i = buildings.len();
    assert(buildings@.take(i as int) =~= buildings@);
    while i > 0
        invariant
            0 <= i <= buildings@.len(),
            infirmary_capacity(buildings@, instance_id@) == infirmary_capacity(buildings@.take(i as int), instance_id@),
        decreases i,
    {
        let ghost prefix = buildings@.take(i as int);
        assert(prefix.drop_last() =~= buildings@.take(i - 1));
        assert(prefix.last() == buildings@[i - 1]);
        let building = &buildings[i - 1];
        if str_eq(building.id.as_str(), "build_12") && str_eq(building.instance_id.as_str(), instance_id) {
            return match capacity_for_level("build_12", building.level as u16) {
                Some(c) => c,
                None => 0,
            };
        }
        i = i - 1;
    }
    0
}

/// Whether stock row `r` is the last row of its key.
fn is_last_row_of_key(stocks: &Vec<DurableProductStock>, r: usize) -> (last: bool)
    requires
        r < stocks@.len(),
    ensures
        last == last_row_of_key(stocks@, r as int),
{
    let n = stocks.len();
    let mut j = r + 1;
    while j < n
        invariant
            r < j <= stocks@.len(),
            n == stocks@.len(),
            forall|k: int|
                r < k < j ==> !(#[trigger] stocks@[k].building_instance_id@ == stocks@[r as int].building_instance_id@
                    && stocks@[k].product_id@ == stocks@[r as int].product_id@),
        decreases n - j,
    {
        if str_eq(stocks[j].building_instance_id.as_str(), stocks[r].building_instance_id.as_str()) && str_eq(
            stocks[j].product_id.as_str(),
            stocks[r].product_id.as_str(),
        ) {
            return false;
        }
        j = j + 1;
    }
    true
}

/// Whether plan `a` is preferred to plan `b`.
fn is_preferred(a: &AutonomousInfirmaryPlan, b: &AutonomousInfirmaryPlan) -> (better: bool)
    ensures
        better == preferred(*a, *b),
{
    if a.effect_value != b.effect_value {
        return a.effect_value > b.effect_value;
    }
    if a.use_money != b.use_money {
        return a.use_money < b.use_money;
    }
    if !str_eq(a.product_id.as_str(), b.product_id.as_str()) {
        proof {
            crate::text::lemma_lex_total(a.product_id@, b.product_id@);
        }
        return str_lt(a.product_id.as_str(), b.product_id.as_str());
    }
    proof {
        crate::text::lemma_lex_asymmetric(a.product_id@, b.product_id@);
        if lex_lt(a.product_id@, b.product_id@) {
            crate::text::lemma_lex_total(a.product_id@, a.product_id@);
        }
    }
    str_lt(a.building_instance_id.as_str(), b.building_instance_id.as_str())
}

impl OriginalFlowSession {
    /// The plan Infirmary `b` and stock row `r` offer (see [`candidate`]).
    fn infirmary_candidate(
        &self,
        obstacles: &Vec<crate::building_domain::NavigationObstacle>,
        hunter: &DurableHunterState,
        b: usize,
        r: usize,
        plans: &Vec<AutonomousInfirmaryPlan>,
    ) -> (plan: Option<AutonomousInfirmaryPlan>)
        requires
            b < self.buildings.buildings@.len(),
            r < self.buildings.product_stocks@.len(),
            obstacles@ == footprints_of(self.buildings.buildings@, self.building_content.catalog),
        ensures
            plan == candidate(*self, *hunter, b as int, r as int, plans@),
    {
        let building = &self.buildings.buildings[b];
        let row = &self.buildings.product_stocks[r];
        if !str_eq(building.id.as_str(), "build_12") {
            return None;
        }
        let capacity = infirmary_capacity_of(&self.buildings.buildings, building.instance_id.as_str()) as usize;
        let occupied = count_visits_at(&self.product_services.visits, building.instance_id.as_str());
        let free: usize = if capacity >= occupied {
            capacity - occupied
        } else {
            0
        };
        let planned = count_plans_at(plans, building.instance_id.as_str());
        if free <= planned {
            return None;
        }
        let point = match town_building_interaction_point(building, &self.building_content.catalog, obstacles) {
            Some(point) => point,
            None => {
                return None;
            },
        };
        if !str_eq(row.building_instance_id.as_str(), building.instance_id.as_str()) || !is_last_row_of_key(
            &self.buildings.product_stocks,
            r,
        ) {
            return None;
        }
        let stored = stored_units_of(
            &self.buildings.product_stocks,
            row.building_instance_id.as_str(),
            row.product_id.as_str(),
        ) as usize;
        let taken = count_plans_for_stock(plans, row.building_instance_id.as_str(), row.product_id.as_str());
        if stored <= taken {
            return None;
        }
        let product = match self.building_content.gameplay.product(row.product_id.as_str()) {
            Some(product) => product,
            None => {
                return None;
            },
        };
        let treats = match &product.building_id {
            Some(id) => str_eq(id.as_str(), "build_12"),
            None => false,
        };
        if !treats {
            return None;
        }
        let service = match &product.service {
            Some(service) => service,
            None => {
                return None;
            },
        };
        if service.required_level >= building.level as u16 || service.use_money > hunter.gold {
            return None;
        }
        Some(
            AutonomousInfirmaryPlan {
                hunter_id: hunter.hunter_id,
                building_instance_id: building.instance_id.clone(),
                product_id: row.product_id.clone(),
                destination_x: point.0,
                destination_y: point.1,
                effect_value: service.effect_value,
                use_money: service.use_money,
            },
        )
    }

    /// The best plan left for a Hunter (see [`best_plan`]).
    fn best_infirmary_plan(
        &self,
        obstacles: &Vec<crate::building_domain::NavigationObstacle>,
        hunter: &DurableHunterState,
        plans: &Vec<AutonomousInfirmaryPlan>,
    ) -> (plan: Option<AutonomousInfirmaryPlan>)
        requires
            obstacles@ == footprints_of(self.buildings.buildings@, self.building_content.catalog),
        ensures
            plan == best_plan(*self, *hunter, plans@, self.buildings.buildings@.len() as int),
    {
        let mut best: Option<AutonomousInfirmaryPlan> = None;
        let mut b: usize = 0;
        while b < self.buildings.buildings.len()
            invariant
                0 <= b <= self.buildings.buildings@.len(),
                obstacles@ == footprints_of(self.buildings.buildings@, self.building_content.catalog),
                best == best_plan(*self, *hunter, plans@, b as int),
            decreases self.buildings.buildings@.len() - b,
        {
            let ghost start = best;
            let mut r: usize = 0;
            while r < self.buildings.product_stocks.len()
                invariant
                    0 <= r <= self.buildings.product_stocks@.len(),
                    b < self.buildings.buildings@.len(),
                    obstacles@ == footprints_of(self.buildings.buildings@, self.building_content.catalog),
                    best == best_over_rows(start, *self, *hunter, b as int, plans@, r as int),
                decreases self.buildings.product_stocks@.len() - r,
            {
                let offer = self.infirmary_candidate(obstacles, hunter, b, r, plans);
                best = match offer {
                    None => best,
                    Some(c) => match best {
                        None => Some(c),
                        Some(p) => if is_preferred(&c, &p) {
                            Some(c)
                        } else {
                            Some(p)
                        },
                    },
                };
                r = r + 1;
            }
            b = b + 1;
        }
        best
    }

    /// The plans of the Hunters walking to an Infirmary on their own (see
    /// [`infirmary_plans`]).
    pub fn autonomous_infirmary_plans(&self) -> (plans: Vec<AutonomousInfirmaryPlan>)
        ensures
            plans@ == infirmary_plans(*self, self.hunter_roster.hunters@),
    {
        let obstacles = town_navigation_obstacles(&self.buildings.buildings, &self.building_content.catalog);
        let hunters = &self.hunter_roster.hunters;
        let mut plans: Vec<AutonomousInfirmaryPlan> = Vec::new();
        let mut i: usize = 0;
        while i < hunters.len()
            invariant
                0 <= i <= hunters@.len(),
                hunters@ == self.hunter_roster.hunters@,
                obstacles@ == footprints_of(self.buildings.buildings@, self.building_content.catalog),
                plans@ == infirmary_plans(*self, hunters@.take(i as int)),
            decreases hunters@.len() - i,
        {
            assert(hunters@.take(i + 1).drop_last() =~= hunters@.take(i as int));
            assert(hunters@.take(i + 1).last() == hunters@[i as int]);
            let hunter = &hunters[i];
            if str_eq(hunter.profile.action_state.as_str(), "returning_for_infirmary") && !has_visit_for(
                &self.product_services.visits,
                hunter.hunter_id,
            ) {
                match self.best_infirmary_plan(&obstacles, hunter, &plans) {
                    Some(plan) => {
                        plans.push(plan);
                    },
                    None => {},
                }
            }
            i = i + 1;
        }
        assert(hunters@.take(hunters@.len() as int) =~= hunters@);
        plans
    }
}

/// The treatment of a plan whose Hunter stands at the Infirmary starts as a
/// product service would; other plans change nothing.
pub open spec fn plan_served(
    before: OriginalFlowSession,
    after: OriginalFlowSession,
    plan: AutonomousInfirmaryPlan,
    agents: Seq<HunterAgentPosition>,
) -> bool {
    if agent_at(agents, plan.hunter_id, plan.destination_x, plan.destination_y) {
        exists|message: ServerMessage|
            #[trigger] service_outcome(
                before,
                after,
                plan.building_instance_id@,
                plan.hunter_id,
                plan.product_id@,
                message,
            )
    } else {
        after == before
    }
}

/// The plans are served one after another, in order.
pub open spec fn plans_served(
    before: OriginalFlowSession,
    after: OriginalFlowSession,
    plans: Seq<AutonomousInfirmaryPlan>,
    agents: Seq<HunterAgentPosition>,
) -> bool
    decreases plans.len(),
{
    if plans.len() == 0 {
        after == before
    } else {
        exists|mid: OriginalFlowSession|
            plans_served(before, mid, plans.drop_last(), agents) && #[trigger] plan_served(mid, after, plans.last(), agents)
    }
}

/// Whether an agent of the Hunter stands on the given tile in town.
fn stands_at(agents: &Vec<HunterAgentPosition>, hunter_id: u32, x: i32, y: i32) -> (at: bool)
    ensures
        at == agent_at(agents@, hunter_id, x, y),
{
    let mut k: usize = 0;
    while k < agents.len()
        invariant
            0 <= k <= agents@.len(),
            forall|j: int|
                0 <= j < k ==> !(#[trigger] agents@[j].hunter_id == hunter_id && agents@[j].region_id is None
                    && agents@[j].entry_stage == 0 && agents@[j].x == x && agents@[j].y == y),
        decreases agents@.len() - k,
    {
        let agent = &agents[k];
        if agent.hunter_id == hunter_id && agent.region_id.is_none() && agent.entry_stage == 0 && agent.x == x
            && agent.y == y {
            return true;
        }
        k = k + 1;
    }
    false
}

impl OriginalFlowSession {
    /// Starts the treatments of the plans whose Hunter has reached its
    /// Infirmary (see [`plans_served`]).
    pub fn start_arrived_autonomous_infirmary_services(
        &mut self,
        plans: &Vec<AutonomousInfirmaryPlan>,
        agents: &Vec<HunterAgentPosition>,
    )
        ensures
            plans_served(*old(self), *final(self), plans@, agents@),
            final(self).state == old(self).state,
            final(self).visual_tick == old(self).visual_tick,
            final(self).hunter_world_runtime == old(self).hunter_world_runtime,
    {
        let mut i: usize = 0;
        assert(plans@.take(0) =~= Seq::<AutonomousInfirmaryPlan>::empty());
        while i < plans.len()
            invariant
                0 <= i <= plans@.len(),
                plans_served(*old(self), *self, plans@.take(i as int), agents@),
                self.state == old(self).state,
                self.visual_tick == old(self).visual_tick,
                self.hunter_world_runtime == old(self).hunter_world_runtime,
            decreases plans@.len() - i,
        {
            let ghost mid = *self;
            let plan = &plans[i];
            if stands_at(agents, plan.hunter_id, plan.destination_x, plan.destination_y) {
                let message = self.start_product_service(
                    plan.building_instance_id.as_str(),
                    plan.hunter_id,
                    plan.product_id.as_str(),
                );
                assert(service_outcome(
                    mid,
                    *self,
                    plan.building_instance_id@,
                    plan.hunter_id,
                    plan.product_id@,
                    message,
                ));
            }
            proof {
                let next = plans@.take(i + 1);
                assert(next.drop_last() =~= plans@.take(i as int));
                assert(next.last() == plans@[i as int]);
                assert(plan_served(mid, *self, next.last(), agents@));
            }
            i = i + 1;
        }
        assert(plans@.take(plans@.len() as int) =~= plans@);
    }
}

} // verus!
