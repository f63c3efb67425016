use vstd::prelude::*;

use crate::catalog::AuthoritativeBuildingContent;
use crate::contracts::{
    default_material_stocks, DurableBuilding, DurableBuildingState, DurableInfirmaryTreatment,
    DurableMonsterFieldConfig, DurableMonsterMapDensity, DurablePlayerAggregate,
    DurableProductServiceVisit, OriginalFlowPlayerState, OriginalScreen,
};
use crate::persistence::copy_hunter_loot;
use crate::product_service::ServiceEffectKind;
use crate::roster::{
    enhancement_action, enhancement_task_terminal, enhancement_terminal, is_enhancement_action_state,
    release_hunter_from_enhancement, released, resumed, returning_to_trade, same_except_workflow,
    same_except_workflow_and_loot, shows, DurableGearEnhancementTask, DurableHunterLoot,
    DurableHunterState, DurableHunterTradeTask, DurableWaitingHunter, HunterTradeWorkflow,
    waiting_entry, GEAR_ENHANCEMENT_WORKFLOW_VERSION, HUNTER_TRADE_WORKFLOW_VERSION,
    MAX_ACTIVE_TOWN_HUNTERS,
};
use crate::session::OriginalFlowSession;
use crate::seqs::{first_index, lemma_first_index_is, lemma_first_index_none};
use crate::ids::{id_text, id_to_text};
use crate::text::{append_decimal, append_str, decimal_text, str_eq, string_from_chars};

verus! {

/// Whether a loot row is the legacy copy of collected gold.
pub open spec fn is_gold_loot(loot: DurableHunterLoot) -> bool {
    loot.item_id@ == "gold"@
}

/// The loot rows that are not collected gold, in order.
pub open spec fn without_gold(loot: Seq<DurableHunterLoot>) -> Seq<DurableHunterLoot> {
    loot.filter(|l: DurableHunterLoot| !is_gold_loot(l))
}

/// Drops the gold rows that older builds copied into the loot after
/// crediting the Hunter's wallet.
pub fn strip_gold_loot(loot: &mut Vec<DurableHunterLoot>)
    ensures
        final(loot)@ == without_gold(old(loot)@),
{
    let mut kept: Vec<DurableHunterLoot> = Vec::new();
    let mut i: usize = 0;
    while i < loot.len()
        invariant
            0 <= i <= loot@.len(),
            loot@ == old(loot)@,
            kept@ == without_gold(loot@.take(i as int)),
        decreases loot@.len() - i,
    {
        proof {
            reveal(Seq::filter);
            assert(loot@.take(i + 1).drop_last() =~= loot@.take(i as int));
        }
        if !str_eq(loot[i].item_id.as_str(), "gold") {
            kept.push(copy_hunter_loot(&loot[i]));
        }
        i = i + 1;
    }
    assert(loot@.take(loot@.len() as int) =~= loot@);
    *loot = kept;
}

/// Whether building `instance_id` is a placed Trading Post.
pub open spec fn is_trading_post(buildings: Seq<DurableBuilding>, instance_id: Seq<char>) -> bool {
    exists|i: int| 0 <= i < buildings.len() && buildings[i].id@ == "build_3"@ && #[trigger] buildings[i].instance_id@ == instance_id
}

/// A restored walk-to-trade task stays valid when it has the current
/// workflow version, a command id, and heads to a placed Trading Post.
pub open spec fn trade_task_valid(task: DurableHunterTradeTask, buildings: Seq<DurableBuilding>) -> bool {
    &&& task.workflow_version == HUNTER_TRADE_WORKFLOW_VERSION
    &&& task.command_id != 0
    &&& task.building_instance_id@.len() > 0
    &&& is_trading_post(buildings, task.building_instance_id@)
}

/// Whether a restored walk-to-trade task is still valid.
pub fn trade_task_is_valid(task: &DurableHunterTradeTask, buildings: &Vec<DurableBuilding>) -> (valid: bool)
    ensures
        valid == trade_task_valid(*task, buildings@),
{
    if task.workflow_version != HUNTER_TRADE_WORKFLOW_VERSION || task.command_id == 0
        || task.building_instance_id.as_str().is_empty() {
        return false;
    }
    let mut i: usize = 0;
    while i < buildings.len()
        invariant
            0 <= i <= buildings@.len(),
            task.workflow_version == HUNTER_TRADE_WORKFLOW_VERSION,
            task.command_id != 0,
            task.building_instance_id@.len() > 0,
            forall|k: int| 0 <= k < i ==> !(buildings@[k].id@ == "build_3"@ && #[trigger] buildings@[k].instance_id@
                == task.building_instance_id@),
        decreases buildings@.len() - i,
    {
        if str_eq(buildings[i].id.as_str(), "build_3") && str_eq(
            buildings[i].instance_id.as_str(),
            task.building_instance_id.as_str(),
        ) {
            assert(buildings@[i as int].instance_id@ == task.building_instance_id@);
            return true;
        }
        i = i + 1;
    }
    false
}

/// A Hunter saved on its way back for treatment but with no hunting zone
/// left is idle.
pub open spec fn infirmary_return_dropped(hunter: DurableHunterState) -> bool {
    hunter.hunt.status@ == "returning_for_infirmary"@ && hunter.hunt.zone_id is None
}

/// Status, action and animation after the treatment-return repair.
pub open spec fn after_infirmary_repair(hunter: DurableHunterState) -> (Seq<char>, Seq<char>, Seq<char>) {
    if infirmary_return_dropped(hunter) {
        ("idle"@, "idle"@, "hunter_stay"@)
    } else {
        (hunter.hunt.status@, hunter.profile.action_state@, hunter.profile.animation_name@)
    }
}

/// An enhancement visit is released on restore when it is of another
/// workflow version or already over, or when the Hunter shows an
/// enhancement action without any visit.
pub open spec fn enhancement_released_on_restore(hunter: DurableHunterState) -> bool {
    match hunter.hunt.gear_enhancement {
        Some(task) => task.workflow_version != GEAR_ENHANCEMENT_WORKFLOW_VERSION || enhancement_terminal(task),
        None => enhancement_action(after_infirmary_repair(hunter).1),
    }
}

/// The enhancement visit kept by restore.
pub open spec fn restored_enhancement(hunter: DurableHunterState) -> Option<DurableGearEnhancementTask> {
    if enhancement_released_on_restore(hunter) {
        None
    } else {
        hunter.hunt.gear_enhancement
    }
}

/// Status, action and animation after the enhancement repair.
pub open spec fn after_enhancement_repair(hunter: DurableHunterState) -> (Seq<char>, Seq<char>, Seq<char>) {
    let (status, action, animation) = after_infirmary_repair(hunter);
    if enhancement_released_on_restore(hunter) {
        (status, "idle"@, "hunter_stay"@)
    } else {
        (status, action, animation)
    }
}

/// Whether restore releases the Hunter's trade state: an invalid task, or a
/// trade status or action without any task.
pub open spec fn trade_released_on_restore(hunter: DurableHunterState, buildings: Seq<DurableBuilding>) -> bool {
    match hunter.hunt.pending_trade {
        Some(task) => !trade_task_valid(task, buildings),
        None => after_enhancement_repair(hunter).0 == returning_to_trade() || after_enhancement_repair(hunter).1
            == returning_to_trade(),
    }
}

/// The walk-to-trade task kept by restore.
pub open spec fn restored_trade(hunter: DurableHunterState, buildings: Seq<DurableBuilding>) -> Option<DurableHunterTradeTask> {
    if trade_released_on_restore(hunter, buildings) {
        None
    } else {
        hunter.hunt.pending_trade
    }
}

/// Status, action and animation of a restored Hunter.
pub open spec fn restored_presentation(hunter: DurableHunterState, buildings: Seq<DurableBuilding>) -> (Seq<char>, Seq<char>, Seq<char>) {
    if trade_released_on_restore(hunter, buildings) {
        ("idle"@, "idle"@, "hunter_stay"@)
    } else if hunter.hunt.pending_trade is Some {
        (returning_to_trade(), returning_to_trade(), "hunter_walk"@)
    } else {
        after_enhancement_repair(hunter)
    }
}

/// `after` is `before` as restore normalizes it: gold rows dropped from the
/// loot, a stale treatment return made idle, a stale or orphaned
/// enhancement visit released, and the walk-to-trade task resumed when valid
/// and released otherwise. Nothing else changes.
pub open spec fn restored_hunter(before: DurableHunterState, after: DurableHunterState, buildings: Seq<DurableBuilding>) -> bool {
    &&& after.hunt.loot@ == without_gold(before.hunt.loot@)
    &&& (after.hunt.status@, after.profile.action_state@, after.profile.animation_name@) == restored_presentation(
        before,
        buildings,
    )
    &&& after.hunt.gear_enhancement == restored_enhancement(before)
    &&& after.hunt.pending_trade == restored_trade(before, buildings)
    &&& after.hunt.zone_id == before.hunt.zone_id
    &&& same_except_workflow_and_loot(before, after)
}

/// Dropping gold rows twice drops nothing more.
proof fn lemma_without_gold_idempotent(loot: Seq<DurableHunterLoot>)
    ensures
        without_gold(without_gold(loot)) == without_gold(loot),
    decreases loot.len(),
{
    reveal(Seq::filter);
    if loot.len() > 0 {
        lemma_without_gold_idempotent(loot.drop_last());
        let kept = without_gold(loot.drop_last());
        if !is_gold_loot(loot.last()) {
            assert(kept.push(loot.last()).drop_last() =~= kept);
            assert(without_gold(loot) == kept.push(loot.last()));
        }
    }
}

/// Restore's normalization of a Hunter is idempotent: a Hunter that restore
/// already normalized comes out of a second restore against the same
/// buildings with the same loot, status and presentation, the same
/// enhancement visit and walk-to-trade task, and nothing else changed.
pub proof fn lemma_restore_hunter_idempotent(
    saved: DurableHunterState,
    once: DurableHunterState,
    twice: DurableHunterState,
    buildings: Seq<DurableBuilding>,
)
    requires
        restored_hunter(saved, once, buildings),
        restored_hunter(once, twice, buildings),
    ensures
        twice.hunt.loot@ == once.hunt.loot@,
        twice.hunt.status@ == once.hunt.status@,
        twice.profile.action_state@ == once.profile.action_state@,
        twice.profile.animation_name@ == once.profile.animation_name@,
        twice.hunt.gear_enhancement == once.hunt.gear_enhancement,
        twice.hunt.pending_trade == once.hunt.pending_trade,
        twice.hunt.zone_id == once.hunt.zone_id,
        same_except_workflow_and_loot(once, twice),
{
    reveal_strlit("idle");
    reveal_strlit("returning_for_infirmary");
    reveal_strlit("returning_to_trade");
    reveal_strlit("traveling_to_enhancement_forge");
    reveal_strlit("waiting_for_enhancement_interaction");
    reveal_strlit("configuring_enhancement");
    lemma_without_gold_idempotent(saved.hunt.loot@);
    let shown = restored_presentation(saved, buildings);
    assert(once.hunt.status@ == shown.0 && once.profile.action_state@ == shown.1);
    if trade_released_on_restore(saved, buildings) {
        assert(shown.0 == "idle"@ && shown.1 == "idle"@);
    } else if saved.hunt.pending_trade is Some {
        assert(shown.0 == returning_to_trade() && shown.1 == returning_to_trade());
    } else {
        let repaired = after_enhancement_repair(saved);
        let first = after_infirmary_repair(saved);
        assert(shown == repaired);
        assert(repaired.0 == first.0);
        if infirmary_return_dropped(saved) {
            assert(first.0 == "idle"@);
        } else {
            assert(first.0 == saved.hunt.status@);
        }
        if enhancement_released_on_restore(saved) {
            assert(repaired.1 == "idle"@);
        } else {
            assert(repaired.1 == first.1);
        }
    }
    assert(!infirmary_return_dropped(once));
    assert(!enhancement_released_on_restore(once));
    assert(!trade_released_on_restore(once, buildings));
}

/// Normalizes one restored Hunter against the placed buildings.
pub fn normalize_restored_hunter(hunter: &mut DurableHunterState, buildings: &Vec<DurableBuilding>)
    ensures
        restored_hunter(*old(hunter), *final(hunter), buildings@),
{
    let ghost start = *hunter;
    strip_gold_loot(&mut hunter.hunt.loot);
    let ghost stripped = *hunter;
    if str_eq(hunter.hunt.status.as_str(), "returning_for_infirmary") && hunter.hunt.zone_id.is_none() {
        hunter.hunt.status = "idle".to_owned();
        hunter.profile.action_state = "idle".to_owned();
        hunter.profile.animation_name = "hunter_stay".to_owned();
    }
    assert((hunter.hunt.status@, hunter.profile.action_state@, hunter.profile.animation_name@)
        == after_infirmary_repair(start));
    assert(same_except_workflow(stripped, *hunter));
    let incompatible_or_terminal = match &hunter.hunt.gear_enhancement {
        Some(task) => task.workflow_version != GEAR_ENHANCEMENT_WORKFLOW_VERSION || enhancement_task_terminal(task),
        None => false,
    };
    let orphaned_action = hunter.hunt.gear_enhancement.is_none() && is_enhancement_action_state(
        hunter.profile.action_state.as_str(),
    );
    if incompatible_or_terminal || orphaned_action {
        release_hunter_from_enhancement(hunter);
    }
    assert(hunter.hunt.gear_enhancement == restored_enhancement(start));
    assert((hunter.hunt.status@, hunter.profile.action_state@, hunter.profile.animation_name@)
        == after_enhancement_repair(start));
    assert(same_except_workflow(stripped, *hunter));
    let ghost repaired = *hunter;
    let valid = |task: &DurableHunterTradeTask| -> (v: bool)
        ensures
            v == trade_task_valid(*task, buildings@),
        { trade_task_is_valid(task, buildings) };
    HunterTradeWorkflow::normalize_restored(hunter, valid);
    assert(hunter.hunt.pending_trade == restored_trade(start, buildings@));
    assert((hunter.hunt.status@, hunter.profile.action_state@, hunter.profile.animation_name@)
        == restored_presentation(start, buildings@));
}

/// The map `map_id`'s restored density level: the older single-map field
/// wins for its map when it holds a level, else the first saved density of
/// the map; a level outside 1..=3, or none, gives 1.
pub open spec fn configured_density(config: DurableMonsterFieldConfig, map_id: Seq<char>) -> u8 {
    let legacy = if config.legacy_map_id matches Some(m) && m@ == map_id {
        config.legacy_density_level
    } else {
        None
    };
    let saved = match legacy {
        Some(level) => Some(level),
        None => match first_index(config.densities@, |d: DurableMonsterMapDensity| d.map_id@ == map_id) {
            Some(i) => Some(config.densities@[i].density_level),
            None => None,
        },
    };
    match saved {
        Some(level) => if 1 <= level <= 3 {
            level
        } else {
            1
        },
        None => 1,
    }
}

/// The saved density of `map_id`, if any.
fn saved_density(config: &DurableMonsterFieldConfig, map_id: &str) -> (level: Option<u8>)
    ensures
        level == (match first_index(config.densities@, |d: DurableMonsterMapDensity| d.map_id@ == map_id@) {
            Some(i) => Some(config.densities@[i].density_level),
            None => None,
        }),
{
    let ghost p = |d: DurableMonsterMapDensity| d.map_id@ == map_id@;
    let mut i: usize = 0;
    while i < config.densities.len()
        invariant
            0 <= i <= config.densities@.len(),
            p == (|d: DurableMonsterMapDensity| d.map_id@ == map_id@),
            forall|k: int| 0 <= k < i ==> !p(#[trigger] config.densities@[k]),
        decreases config.densities@.len() - i,
    {
        if str_eq(config.densities[i].map_id.as_str(), map_id) {
            proof {
                lemma_first_index_is(config.densities@, p, i as int);
            }
            return Some(config.densities[i].density_level);
        }
        i = i + 1;
    }
    proof {
        lemma_first_index_none(config.densities@, p);
    }
    None
}

impl DurableMonsterFieldConfig {
    /// One density per map of `map_ids`, in that order, as restore reads
    /// them from this configuration.
    pub fn normalized_densities(&self, map_ids: &Vec<String>) -> (densities: Vec<DurableMonsterMapDensity>)
        ensures
            densities@.len() == map_ids@.len(),
            forall|j: int| 0 <= j < map_ids@.len() ==> (#[trigger] densities@[j]).map_id@ == map_ids@[j]@
                && densities@[j].density_level == configured_density(*self, map_ids@[j]@),
    {
        let mut densities: Vec<DurableMonsterMapDensity> = Vec::new();
        let mut j: usize = 0;
        while j < map_ids.len()
            invariant
                0 <= j <= map_ids@.len(),
                densities@.len() == j,
                forall|k: int| 0 <= k < j ==> (#[trigger] densities@[k]).map_id@ == map_ids@[k]@
                    && densities@[k].density_level == configured_density(*self, map_ids@[k]@),
            decreases map_ids@.len() - j,
        {
            let map_id = map_ids[j].as_str();
            let legacy: Option<u8> = match &self.legacy_map_id {
                Some(m) => if str_eq(m.as_str(), map_id) {
                    self.legacy_density_level
                } else {
                    None
                },
                None => None,
            };
            let saved = match legacy {
                Some(level) => Some(level),
                None => saved_density(self, map_id),
            };
            let level: u8 = match saved {
                Some(level) => if 1 <= level && level <= 3 {
                    level
                } else {
                    1
                },
                None => 1,
            };
            densities.push(DurableMonsterMapDensity { map_id: map_ids[j].clone(), density_level: level });
            j = j + 1;
        }
        densities
    }
}

/// A service visit migrated from an older Infirmary treatment.
pub open spec fn migrated_treatment(visit: DurableProductServiceVisit, treatment: DurableInfirmaryTreatment) -> bool {
    &&& visit.hunter_id == treatment.hunter_id
    &&& visit.building_instance_id == treatment.building_instance_id
    &&& visit.building_id@ == "build_12"@
    &&& visit.product_id == treatment.product_id
    &&& visit.effect_kind == ServiceEffectKind::Hp
    &&& visit.remaining_ms == treatment.remaining_ms
    &&& visit.effect_value == treatment.effect_value
    &&& visit.payment_gold == treatment.payment_gold
}

/// Appends the visits migrated from older Infirmary treatments.
pub fn migrate_treatments(visits: &mut Vec<DurableProductServiceVisit>, treatments: Vec<DurableInfirmaryTreatment>)
    ensures
        final(visits)@.len() == old(visits)@.len() + treatments@.len(),
        final(visits)@.take(old(visits)@.len() as int) == old(visits)@,
        forall|k: int| 0 <= k < treatments@.len() ==> migrated_treatment(
            #[trigger] final(visits)@[old(visits)@.len() + k],
            treatments@[k],
        ),
{
    let ghost start = visits@;
    let ghost all = treatments@;
    for treatment in it: treatments
        invariant
            it.seq() == all,
            visits@.len() == start.len() + it.index(),
            visits@.take(start.len() as int) == start,
            forall|k: int| 0 <= k < it.index() ==> migrated_treatment(#[trigger] visits@[start.len() + k], all[k]),
    {
        let ghost before = visits@;
        visits.push(DurableProductServiceVisit {
            hunter_id: treatment.hunter_id,
            building_instance_id: treatment.building_instance_id,
            building_id: "build_12".to_owned(),
            product_id: treatment.product_id,
            effect_kind: ServiceEffectKind::Hp,
            remaining_ms: treatment.remaining_ms,
            effect_value: treatment.effect_value,
            payment_gold: treatment.payment_gold,
        });
        assert(visits@.take(start.len() as int) =~= before.take(start.len() as int));
    }
}

/// Each Hunter of `after` is the Hunter at the same place of `before`,
/// normalized by restore.
pub open spec fn restored_hunters(
    before: Seq<DurableHunterState>,
    after: Seq<DurableHunterState>,
    buildings: Seq<DurableBuilding>,
) -> bool {
    &&& after.len() == before.len()
    &&& forall|k: int| 0 <= k < before.len() ==> restored_hunter(before[k], #[trigger] after[k], buildings)
}

/// Each waiting Hunter of `after` is the one at the same place of `before`,
/// normalized by restore.
pub open spec fn restored_waiting(
    before: Seq<DurableWaitingHunter>,
    after: Seq<DurableWaitingHunter>,
    buildings: Seq<DurableBuilding>,
) -> bool {
    &&& after.len() == before.len()
    &&& forall|k: int| 0 <= k < before.len() ==> restored_hunter(before[k].hunter, #[trigger] after[k].hunter, buildings)
}

/// Normalizes every restored active Hunter.
pub fn normalize_restored_hunters(hunters: &mut Vec<DurableHunterState>, buildings: &Vec<DurableBuilding>)
    ensures
        restored_hunters(old(hunters)@, final(hunters)@, buildings@),
{
    let mut i: usize = 0;
    while i < hunters.len()
        invariant
            0 <= i <= hunters@.len(),
            hunters@.len() == old(hunters)@.len(),
            forall|k: int| 0 <= k < i ==> restored_hunter(old(hunters)@[k], #[trigger] hunters@[k], buildings@),
            forall|k: int| i <= k < hunters@.len() ==> #[trigger] hunters@[k] == old(hunters)@[k],
        decreases hunters@.len() - i,
    {
        normalize_restored_hunter(&mut hunters[i], buildings);
        i = i + 1;
    }
}

/// Normalizes every restored waiting Hunter.
pub fn normalize_restored_waiting(queue: &mut Vec<DurableWaitingHunter>, buildings: &Vec<DurableBuilding>)
    ensures
        restored_waiting(old(queue)@, final(queue)@, buildings@),
{
    let mut i: usize = 0;
    while i < queue.len()
        invariant
            0 <= i <= queue@.len(),
            queue@.len() == old(queue)@.len(),
            forall|k: int| 0 <= k < i ==> restored_hunter(old(queue)@[k].hunter, #[trigger] queue@[k].hunter, buildings@),
            forall|k: int| i <= k < queue@.len() ==> #[trigger] queue@[k] == old(queue)@[k],
        decreases queue@.len() - i,
    {
        normalize_restored_hunter(&mut queue[i].hunter, buildings);
        i = i + 1;
    }
}

/// The screen a session resumes on: the removed Hunter roster screen
/// resumes in the village.
pub open spec fn restored_screen(screen: OriginalScreen) -> OriginalScreen {
    if screen == OriginalScreen::HunterRoster {
        OriginalScreen::Village
    } else {
        screen
    }
}

/// Schema 2 towns lacked Hunter materials and receive the starting 20.
pub open spec fn restored_hunter_materials(saved: DurablePlayerAggregate) -> u32 {
    if saved.schema_version < 3 && saved.buildings.hunter_materials == 0 {
        20
    } else {
        saved.buildings.hunter_materials
    }
}

/// Material stocks written before schema 4, or none at all, are reset.
pub open spec fn material_stocks_reset(saved: DurablePlayerAggregate) -> bool {
    saved.schema_version < 4 || saved.buildings.material_stocks@.len() == 0
}

/// The active Hunters after the capacity upgrade of pre-11 schemas.
pub open spec fn capacity_hunters(saved: DurablePlayerAggregate) -> Seq<DurableHunterState> {
    if saved.schema_version < 11 && saved.hunter_roster.hunters@.len() > MAX_ACTIVE_TOWN_HUNTERS {
        saved.hunter_roster.hunters@.take(MAX_ACTIVE_TOWN_HUNTERS as int)
    } else {
        saved.hunter_roster.hunters@
    }
}

/// The waiting line after the capacity upgrade of pre-11 schemas.
pub open spec fn capacity_waiting(saved: DurablePlayerAggregate) -> Seq<DurableWaitingHunter> {
    if saved.schema_version < 11 && saved.hunter_roster.hunters@.len() > MAX_ACTIVE_TOWN_HUNTERS {
        saved.hunter_roster.waiting_queue@ + saved.hunter_roster.hunters@.skip(MAX_ACTIVE_TOWN_HUNTERS as int).map_values(
            |h: DurableHunterState| waiting_entry(h),
        )
    } else {
        saved.hunter_roster.waiting_queue@
    }
}

/// The older Infirmary section supplies the roster when the saved roster has
/// no active Hunter.
pub open spec fn legacy_roster_adopted(saved: DurablePlayerAggregate) -> bool {
    saved.legacy_infirmary is Some && capacity_hunters(saved).len() == 0
}

/// Two towns agree on everything but Hunter materials and material stocks.
pub open spec fn same_town_except_materials(a: DurableBuildingState, b: DurableBuildingState) -> bool {
    &&& a.town_gold == b.town_gold
    &&& a.buildings == b.buildings
    &&& a.materials == b.materials
    &&& a.runes == b.runes
    &&& a.weapons == b.weapons
    &&& a.armor == b.armor
    &&& a.product_stocks == b.product_stocks
    &&& a.crafted_gear_stocks == b.crafted_gear_stocks
    &&& a.hunter_equipment_purchases == b.hunter_equipment_purchases
    &&& a.town_seed_version == b.town_seed_version
    &&& a.next_building_instance_id == b.next_building_instance_id
    &&& a.field_trip_id == b.field_trip_id
    &&& a.settled_field_trip_id == b.settled_field_trip_id
    &&& a.trade_settlements == b.trade_settlements
}

/// `session` is `saved` restored with `content`: the migrations of older
/// schemas applied, every Hunter normalized, and a fresh runtime (no
/// selection, tick 0, no pending simulation time). Buildings are neither
/// repaired nor seeded.
pub open spec fn restored_session(
    saved: DurablePlayerAggregate,
    content: AuthoritativeBuildingContent,
    session: OriginalFlowSession,
) -> bool {
    let buildings = saved.buildings.buildings@;
    &&& session.state == (OriginalFlowPlayerState {
        screen: restored_screen(saved.navigation.screen),
        boot_completed: saved.navigation.boot_completed,
    })
    &&& session.buildings.hunter_materials == restored_hunter_materials(saved)
    &&& session.buildings.material_stocks@ == (if material_stocks_reset(saved) {
        Seq::empty()
    } else {
        saved.buildings.material_stocks@
    })
    &&& same_town_except_materials(session.buildings, saved.buildings)
    &&& if legacy_roster_adopted(saved) {
        &&& session.hunter_roster.roster_resolved == saved.legacy_infirmary.unwrap().roster_resolved
        &&& session.hunter_roster.hunters == saved.legacy_infirmary.unwrap().hunters
    } else {
        &&& session.hunter_roster.roster_resolved == saved.hunter_roster.roster_resolved
        &&& restored_hunters(capacity_hunters(saved), session.hunter_roster.hunters@, buildings)
    }
    &&& restored_waiting(capacity_waiting(saved), session.hunter_roster.waiting_queue@, buildings)
    &&& session.hunter_roster.wallets_resolved == saved.hunter_roster.wallets_resolved
    &&& session.hunter_roster.hunt_commands == saved.hunter_roster.hunt_commands
    &&& match saved.legacy_infirmary {
        Some(legacy) => {
            let n = saved.product_services.visits@.len();
            &&& session.product_services.visits@.len() == n + legacy.treatments@.len()
            &&& session.product_services.visits@.take(n as int) == saved.product_services.visits@
            &&& forall|k: int| 0 <= k < legacy.treatments@.len() ==> migrated_treatment(
                #[trigger] session.product_services.visits@[n + k],
                legacy.treatments@[k],
            )
        },
        None => session.product_services.visits@ == saved.product_services.visits@,
    }
    &&& session.monster_densities@.len() == content.monster_map_ids@.len()
    &&& forall|j: int| 0 <= j < content.monster_map_ids@.len() ==> (#[trigger] session.monster_densities@[j]).map_id@
        == content.monster_map_ids@[j]@ && session.monster_densities@[j].density_level == configured_density(
        saved.monster_field_config,
        content.monster_map_ids@[j]@,
    )
    &&& session.hunter_world_runtime == saved.hunter_world_runtime
    &&& session.building_content == content
    &&& session.selected_entity_id is None
    &&& session.visual_tick == 0
    &&& session.simulation_remainder_ns == crate::session::banked_time(0)
}

impl OriginalFlowSession {
    /// Restores a session from its durable aggregate and the content it runs
    /// on. `seed` seeds the migration fixture combat, which is not part of
    /// this library, so it leaves the restored session unchanged.
    pub fn from_aggregate_with_content(
        saved: DurablePlayerAggregate,
        seed: u64,
        building_content: AuthoritativeBuildingContent,
    ) -> (session: Self)
        ensures
            restored_session(saved, building_content, session),
    {
        let ghost original = saved;
        let DurablePlayerAggregate {
            schema_version,
            mut navigation,
            mut buildings,
            mut hunter_roster,
            mut product_services,
            monster_field_config,
            hunter_world_runtime,
            legacy_infirmary,
        } = saved;
        if navigation.screen == OriginalScreen::HunterRoster {
            navigation.screen = OriginalScreen::Village;
        }
        if schema_version < 3 && buildings.hunter_materials == 0 {
            buildings.hunter_materials = 20;
        }
        if schema_version < 4 || buildings.material_stocks.len() == 0 {
            buildings.material_stocks = default_material_stocks();
            assert(buildings.material_stocks@ =~= Seq::empty());
        }
        if schema_version < 11 {
            hunter_roster.upgrade_legacy_capacity();
        }
        assert(hunter_roster.hunters@ == capacity_hunters(original));
        assert(hunter_roster.waiting_queue@ == capacity_waiting(original));
        normalize_restored_hunters(&mut hunter_roster.hunters, &buildings.buildings);
        normalize_restored_waiting(&mut hunter_roster.waiting_queue, &buildings.buildings);
        match legacy_infirmary {
            Some(legacy) => {
                if hunter_roster.hunters.len() == 0 {
                    hunter_roster.roster_resolved = legacy.roster_resolved;
                    hunter_roster.hunters = legacy.hunters;
                }
                migrate_treatments(&mut product_services.visits, legacy.treatments);
            },
            None => {},
        }
        let monster_densities = monster_field_config.normalized_densities(&building_content.monster_map_ids);
        OriginalFlowSession {
            state: navigation,
            buildings,
            hunter_roster,
            product_services,
            hunter_world_runtime,
            monster_densities,
            building_content,
            selected_entity_id: None,
            visual_tick: 0,
            simulation_remainder_ns: crate::session::BankedTime::nothing(),
        }
    }
}

/// The town template's building at `slot` (0-based) of the 28: base
/// `build_{slot + 1}` at level 1, laid out seven to a row four cells apart.
pub open spec fn template_building(building: DurableBuilding, slot: int) -> bool {
    &&& building.instance_id@ == id_text((slot + 1) as u128)
    &&& building.id@ == "build_"@ + decimal_text((slot + 1) as nat)
    &&& building.equipped_skin_id is None
    &&& building.level == 1
    &&& building.uses == 0
    &&& building.grid_x == ((slot % 7) - 3) * 4
    &&& building.grid_y == ((slot / 7) * 4) - 6
    &&& building.seeded_by matches Some(seed) && seed@ == "town-template:default-town-v2"@
}

/// The default town of the version-2 template: a fresh town holding the 28
/// core buildings.
pub fn default_town_building_state() -> (state: DurableBuildingState)
    ensures
        state.buildings@.len() == 28,
        forall|k: int| 0 <= k < 28 ==> template_building(#[trigger] state.buildings@[k], k),
        state == (DurableBuildingState { buildings: state.buildings, town_seed_version: 2, ..state }),
        state.town_gold == 1_500,
        state.hunter_materials == 20,
        state.town_seed_version == 2,
        state.next_building_instance_id == 1,
        state.material_stocks@.len() == 0,
        state.product_stocks@.len() == 0,
        state.trade_settlements@.len() == 0,
        state.field_trip_id == 0,
{
    let mut state = DurableBuildingState::default();
    state.town_seed_version = 2;
    let mut slot: u32 = 0;
    while slot < 28
        invariant
            0 <= slot <= 28,
            state.buildings@.len() == slot,
            forall|k: int| 0 <= k < slot ==> template_building(#[trigger] state.buildings@[k], k),
            state.town_gold == 1_500,
            state.hunter_materials == 20,
            state.town_seed_version == 2,
            state.next_building_instance_id == 1,
            state.material_stocks@.len() == 0,
            state.product_stocks@.len() == 0,
            state.trade_settlements@.len() == 0,
            state.field_trip_id == 0,
        decreases 28 - slot,
    {
        let mut id: Vec<char> = Vec::new();
        append_str(&mut id, "build_");
        append_decimal(&mut id, (slot + 1) as u64);
        let column: i32 = (slot % 7) as i32;
        let row: i32 = (slot / 7) as i32;
        state.buildings.push(
            DurableBuilding {
                instance_id: id_to_text((slot + 1) as u128),
                id: string_from_chars(&id),
                equipped_skin_id: None,
                level: 1,
                uses: 0,
                grid_x: (column - 3) * 4,
                grid_y: row * 4 - 6,
                seeded_by: Some("town-template:default-town-v2".to_owned()),
            },
        );
        slot = slot + 1;
    }
    state
}

/// The map ids of saved densities, in order.
pub open spec fn saved_map_ids(densities: Seq<DurableMonsterMapDensity>) -> Seq<String>
    decreases densities.len(),
{
    if densities.len() == 0 {
        seq![]
    } else {
        saved_map_ids(densities.drop_last()).push(densities.last().map_id)
    }
}

impl OriginalFlowSession {
    /// Restores a session from its durable aggregate against building
    /// content that holds no building, product or item definition and knows
    /// exactly the maps the aggregate saved densities for, for tools and
    /// tests that have no content registry.
    pub fn from_aggregate(saved: DurablePlayerAggregate, seed: u64) -> (session: Self)
        ensures
            exists|content: AuthoritativeBuildingContent|
                {
                    &&& restored_session(saved, content, session)
                    &&& content.catalog.bases@.len() == 0
                    &&& content.gameplay.products@.len() == 0
                    &&& content.gameplay.items@.len() == 0
                    &&& content.monster_map_ids@ == saved_map_ids(saved.monster_field_config.densities@)
                },
    {
        let mut content = AuthoritativeBuildingContent::empty();
        let densities = &saved.monster_field_config.densities;
        let mut i: usize = 0;
        while i < densities.len()
            invariant
                0 <= i <= densities@.len(),
                densities@ == saved.monster_field_config.densities@,
                content.catalog.bases@.len() == 0,
                content.gameplay.products@.len() == 0,
                content.gameplay.items@.len() == 0,
                content.monster_map_ids@ == saved_map_ids(densities@.take(i as int)),
            decreases densities@.len() - i,
        {
            content.monster_map_ids.push(densities[i].map_id.clone());
            assert(densities@.take(i + 1).drop_last() =~= densities@.take(i as int));
            i = i + 1;
        }
        assert(densities@.take(densities@.len() as int) =~= densities@);
        let ghost c = content;
        let session = Self::from_aggregate_with_content(saved, seed, content);
        assert(restored_session(saved, c, session));
        session
    }

    /// A session at navigation `state` in the default template town,
    /// restored as [`Self::from_aggregate`] restores.
    pub fn from_state(state: OriginalFlowPlayerState) -> (session: Self)
        ensures
            session.state == (OriginalFlowPlayerState {
                screen: restored_screen(state.screen),
                boot_completed: state.boot_completed,
            }),
            session.buildings.buildings@.len() == 28,
            forall|k: int| 0 <= k < 28 ==> template_building(#[trigger] session.buildings.buildings@[k], k),
            session.buildings.town_gold == 1_500,
            session.hunter_roster.hunters@.len() == 0,
            session.product_services.visits@.len() == 0,
    {
        let mut aggregate = DurablePlayerAggregate::default();
        aggregate.navigation = state;
        aggregate.buildings = default_town_building_state();
        Self::from_aggregate(aggregate, 7)
    }
}

/// A restored Hunter is consistent with the town it was restored into: it
/// carries no gold rows; a kept enhancement visit is current and not over,
/// and without one the Hunter shows no enhancement action; it has a
/// walk-to-trade task exactly when it shows the `returning_to_trade`
/// action; and that task heads to a placed Trading Post.
pub open spec fn restore_consistent(hunter: DurableHunterState, buildings: Seq<DurableBuilding>) -> bool {
    &&& forall|i: int| 0 <= i < hunter.hunt.loot@.len() ==> !is_gold_loot(#[trigger] hunter.hunt.loot@[i])
    &&& match hunter.hunt.gear_enhancement {
        Some(task) => task.workflow_version == GEAR_ENHANCEMENT_WORKFLOW_VERSION && !enhancement_terminal(task),
        None => !enhancement_action(hunter.profile.action_state@),
    }
    &&& (hunter.hunt.pending_trade is Some <==> hunter.profile.action_state@ == returning_to_trade())
    &&& hunter.hunt.pending_trade matches Some(task) ==> is_trading_post(buildings, task.building_instance_id@)
}

/// Restore's normalization of one Hunter makes it consistent with the town.
proof fn lemma_restored_hunter_consistent(
    before: DurableHunterState,
    after: DurableHunterState,
    buildings: Seq<DurableBuilding>,
)
    requires
        restored_hunter(before, after, buildings),
    ensures
        restore_consistent(after, buildings),
{
    let keep = |l: DurableHunterLoot| !is_gold_loot(l);
    assert forall|i: int| 0 <= i < after.hunt.loot@.len() implies !is_gold_loot(#[trigger] after.hunt.loot@[i]) by {
        before.hunt.loot@.lemma_filter_pred(keep, i);
    }
    reveal_strlit("idle");
    reveal_strlit("returning_to_trade");
    reveal_strlit("traveling_to_enhancement_forge");
    reveal_strlit("waiting_for_enhancement_interaction");
    reveal_strlit("configuring_enhancement");
    assert("idle"@.len() == 4 && returning_to_trade().len() == 18);
    assert("traveling_to_enhancement_forge"@.len() == 30);
    assert("waiting_for_enhancement_interaction"@.len() == 35);
    assert("configuring_enhancement"@.len() == 23);
    assert(!enhancement_action("idle"@));
    assert(!enhancement_action(returning_to_trade()));
    assert("idle"@ != returning_to_trade());
}

/// Every Hunter a session restores, active or waiting, is consistent with
/// the restored town (see [`restore_consistent`]). Active Hunters adopted
/// unchanged from a legacy Infirmary roster are the exception.
pub proof fn lemma_restore_normalizes_roster(
    saved: DurablePlayerAggregate,
    content: AuthoritativeBuildingContent,
    session: OriginalFlowSession,
)
    requires
        restored_session(saved, content, session),
    ensures
        forall|k: int| 0 <= k < session.hunter_roster.waiting_queue@.len() ==> restore_consistent(
            #[trigger] session.hunter_roster.waiting_queue@[k].hunter,
            session.buildings.buildings@,
        ),
        !legacy_roster_adopted(saved) ==> forall|k: int| 0 <= k < session.hunter_roster.hunters@.len() ==> restore_consistent(
            #[trigger] session.hunter_roster.hunters@[k],
            session.buildings.buildings@,
        ),
{
    let buildings = saved.buildings.buildings@;
    assert(session.buildings.buildings@ == buildings);
    assert forall|k: int| 0 <= k < session.hunter_roster.waiting_queue@.len() implies restore_consistent(
        #[trigger] session.hunter_roster.waiting_queue@[k].hunter,
        session.buildings.buildings@,
    ) by {
        lemma_restored_hunter_consistent(capacity_waiting(saved)[k].hunter, session.hunter_roster.waiting_queue@[k].hunter, buildings);
    }
    if !legacy_roster_adopted(saved) {
        assert forall|k: int| 0 <= k < session.hunter_roster.hunters@.len() implies restore_consistent(
            #[trigger] session.hunter_roster.hunters@[k],
            session.buildings.buildings@,
        ) by {
            lemma_restored_hunter_consistent(capacity_hunters(saved)[k], session.hunter_roster.hunters@[k], buildings);
        }
    }
}

} // verus!
