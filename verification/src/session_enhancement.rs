use vstd::prelude::*;

use crate::catalog::{find_item, find_product};
use crate::contracts::MAX_GEAR_ENHANCEMENT_LEVEL;
use crate::ids::{id_text, id_to_text};
use crate::building_domain::{
    building_has_base, find_building_by_base, footprints_of, interaction_point_of, town_building_interaction_point,
    town_navigation_obstacles,
};
use crate::roster::{
    command_key, hunt_is_idle, release_hunter_from_enhancement, same_except_workflow, shows,
    DurableHunterOwnedItem, DurableGearEnhancementTask, DurableHunterHunt, DurableHunterProfile,
    DurableHunterRosterState, DurableHunterState, GearEnhancementTaskStatus, GEAR_ENHANCEMENT_WORKFLOW_VERSION,
};
use crate::seqs::{first_index, lemma_first_index_is, lemma_first_index_none};
use crate::session::{is_accepted, is_binding_blocked, is_rejected, string_views, world_active, OriginalFlowSession, ServerMessage};
use crate::session_services::{find_hunter_index, hunter_has_id};
use crate::text::{append_decimal, append_str, decimal_text, str_eq, string_from_chars};

verus! {

/// The command key of an enhancement visit.
pub open spec fn enhancement_key(hunter_id: u32) -> Seq<char> {
    "start_hunter_enhancement:"@ + decimal_text(hunter_id as nat)
}

/// The command key of an enhancement visit.
fn enhancement_key_text(hunter_id: u32) -> (key: String)
    ensures
        key@ == enhancement_key(hunter_id),
{
    let mut chars: Vec<char> = Vec::new();
    append_str(&mut chars, "start_hunter_enhancement:");
    append_decimal(&mut chars, hunter_id as u64);
    string_from_chars(&chars)
}

/// How an enhancement visit request is answered.
pub enum VisitDecision {
    Replay,
    Reject(Seq<char>),
    /// Accepted: the Hunter at index `hunter` walks to Forge `forge`, whose
    /// interaction point is `(x, y)`.
    Start { hunter: int, forge: int, x: int, y: int },
}

/// The decision on sending a Hunter to the Enhancement Forge (`build_15`),
/// checks in order: the shared world; a used (non-nil) command id; the
/// first Forge; its interaction point; the Hunter; that it is idle in town,
/// alive and without a visit under way.
pub open spec fn visit_decision(session: OriginalFlowSession, command_id: u128, hunter_id: u32) -> VisitDecision {
    let buildings = session.buildings.buildings@;
    let catalog = session.building_content.catalog;
    let previous = command_key(session.hunter_roster.hunt_commands@, command_id);
    if !world_active(session.state.screen) {
        VisitDecision::Reject("village_unavailable"@)
    } else if command_id != 0 && previous is Some {
        if previous == Some(enhancement_key(hunter_id)) {
            VisitDecision::Replay
        } else {
            VisitDecision::Reject("command_id_conflict"@)
        }
    } else {
        match first_index(buildings, building_has_base("build_15"@)) {
            None => VisitDecision::Reject("enhancement_forge_unavailable"@),
            Some(b) => match interaction_point_of(buildings[b], catalog, footprints_of(buildings, catalog)) {
                None => VisitDecision::Reject("enhancement_forge_geometry_unavailable"@),
                Some(point) => match first_index(session.hunter_roster.hunters@, hunter_has_id(hunter_id)) {
                    None => VisitDecision::Reject("hunter_unknown"@),
                    Some(h) => {
                        let hunter = session.hunter_roster.hunters@[h];
                        if !hunt_is_idle(hunter.hunt) {
                            VisitDecision::Reject("hunter_not_in_town"@)
                        } else if hunter.current_hp == 0 {
                            VisitDecision::Reject("hunter_unavailable"@)
                        } else if hunter.hunt.gear_enhancement is Some {
                            VisitDecision::Reject("enhancement_task_already_active"@)
                        } else {
                            VisitDecision::Start { hunter: h, forge: b, x: point.0, y: point.1 }
                        }
                    },
                },
            },
        }
    }
}

/// A visit just begun: of the current workflow version, traveling to the
/// Forge instance's interaction point `(x, y)`, with nothing chosen, tried
/// or spent yet, and waiting for the enhancement bindings.
pub open spec fn visit_task_started(task: DurableGearEnhancementTask, forge_instance: String, x: int, y: int) -> bool {
    &&& task.workflow_version == GEAR_ENHANCEMENT_WORKFLOW_VERSION
    &&& task.building_instance_id == forge_instance
    &&& task.status == GearEnhancementTaskStatus::Traveling
    &&& task.interaction_x == x as i32
    &&& task.interaction_y == y as i32
    &&& task.selected_gear_instance_id is None
    &&& task.selected_product_id is None
    &&& task.mode is None
    &&& task.target_level is None
    &&& task.optional_material_ids@.len() == 0
    &&& task.attempts@.len() == 0
    &&& task.spent_gold == 0
    &&& task.spent_materials@.len() == 0
    &&& task.final_level is None
    &&& task.stop_reason is None
    &&& string_views(task.blockers@) == gear_enhancement_blockers()
}

/// The Hunter walks to the Forge on a newly begun visit, with the walking
/// action; nothing else about it changes.
pub open spec fn visit_started(before: DurableHunterState, after: DurableHunterState, forge_instance: String, x: int, y: int) -> bool {
    &&& after.hunt.gear_enhancement matches Some(task) && visit_task_started(task, forge_instance, x, y)
    &&& shows(after, "traveling_to_enhancement_forge"@, "hunter_walk"@)
    &&& after == DurableHunterState {
        hunt: DurableHunterHunt { gear_enhancement: after.hunt.gear_enhancement, ..before.hunt },
        profile: DurableHunterProfile {
            action_state: after.profile.action_state,
            animation_name: after.profile.animation_name,
            ..before.profile
        },
        ..before
    }
}

/// The reply to and effect of an enhancement visit request; a non-nil
/// command id is recorded for a new visit.
pub open spec fn visit_outcome(
    before: OriginalFlowSession,
    after: OriginalFlowSession,
    command_id: u128,
    hunter_id: u32,
    message: ServerMessage,
) -> bool {
    match visit_decision(before, command_id, hunter_id) {
        VisitDecision::Replay => is_accepted(message, "start_hunter_enhancement"@) && after == before,
        VisitDecision::Reject(reason) => is_rejected(message, "start_hunter_enhancement"@, reason) && after == before,
        VisitDecision::Start { hunter, forge, x, y } => {
            let commands = before.hunter_roster.hunt_commands@;
            let new_commands = after.hunter_roster.hunt_commands@;
            &&& is_accepted(message, "start_hunter_enhancement"@)
            &&& after.hunter_roster.hunters@.len() == before.hunter_roster.hunters@.len()
            &&& forall|k: int| 0 <= k < before.hunter_roster.hunters@.len() && k != hunter ==> #[trigger] after.hunter_roster.hunters@[k]
                == before.hunter_roster.hunters@[k]
            &&& visit_started(
                before.hunter_roster.hunters@[hunter],
                after.hunter_roster.hunters@[hunter],
                before.buildings.buildings@[forge].instance_id,
                x,
                y,
            )
            &&& if command_id != 0 {
                &&& new_commands.len() == commands.len() + 1
                &&& new_commands.drop_last() == commands
                &&& new_commands.last().command_id == command_id
                &&& new_commands.last().key@ == enhancement_key(hunter_id)
            } else {
                new_commands == commands
            }
            &&& after == OriginalFlowSession {
                hunter_roster: DurableHunterRosterState {
                    hunters: after.hunter_roster.hunters,
                    hunt_commands: after.hunter_roster.hunt_commands,
                    ..before.hunter_roster
                },
                ..before
            }
        },
    }
}

/// Sends the Hunter walking to the Forge.
fn begin_visit(hunter: &mut DurableHunterState, forge_instance: String, x: i32, y: i32)
    ensures
        visit_started(*old(hunter), *final(hunter), forge_instance, x as int, y as int),
{
    let mut blockers: Vec<String> = Vec::new();
    blockers.push("gear_enhancement_cost_binding".to_owned());
    blockers.push("gear_enhancement_rng_binding".to_owned());
    assert(string_views(blockers@) =~= gear_enhancement_blockers());
    hunter.hunt.gear_enhancement = Some(
        DurableGearEnhancementTask {
            workflow_version: GEAR_ENHANCEMENT_WORKFLOW_VERSION,
            building_instance_id: forge_instance,
            status: GearEnhancementTaskStatus::Traveling,
            interaction_x: x,
            interaction_y: y,
            selected_gear_instance_id: None,
            selected_product_id: None,
            mode: None,
            target_level: None,
            optional_material_ids: Vec::new(),
            attempts: Vec::new(),
            spent_gold: 0,
            spent_materials: Vec::new(),
            final_level: None,
            stop_reason: None,
            blockers,
        },
    );
    hunter.profile.action_state = "traveling_to_enhancement_forge".to_owned();
    hunter.profile.animation_name = "hunter_walk".to_owned();
}

impl OriginalFlowSession {
    /// Sends a Hunter to the Enhancement Forge under `command_id` (see
    /// [`visit_decision`] and [`visit_outcome`]).
    pub fn start_hunter_enhancement(&mut self, command_id: u128, hunter_id: u32) -> (message: ServerMessage)
        ensures
            visit_outcome(*old(self), *final(self), command_id, hunter_id, message),
    {
        let intent = "start_hunter_enhancement";
        if !self.shared_world_active() {
            return self.rejected(intent, "village_unavailable");
        }
        if command_id != 0 {
            match self.hunter_roster.command_key(command_id) {
                Some(previous) => {
                    let key = enhancement_key_text(hunter_id);
                    return if str_eq(previous.as_str(), key.as_str()) {
                        self.accepted(intent)
                    } else {
                        self.rejected(intent, "command_id_conflict")
                    };
                },
                None => {},
            }
        }
        proof {
            reveal_strlit("build_15");
        }
        let b = match find_building_by_base(&self.buildings.buildings, "build_15") {
            Some(b) => b,
            None => {
                return self.rejected(intent, "enhancement_forge_unavailable");
            },
        };
        let obstacles = town_navigation_obstacles(&self.buildings.buildings, &self.building_content.catalog);
        let (x, y) = match town_building_interaction_point(
            &self.buildings.buildings[b],
            &self.building_content.catalog,
            &obstacles,
        ) {
            Some(point) => point,
            None => {
                return self.rejected(intent, "enhancement_forge_geometry_unavailable");
            },
        };
        let h = match find_hunter_index(&self.hunter_roster.hunters, hunter_id) {
            Some(h) => h,
            None => {
                return self.rejected(intent, "hunter_unknown");
            },
        };
        let hunter = &self.hunter_roster.hunters[h];
        if !hunter.hunt.is_idle() {
            return self.rejected(intent, "hunter_not_in_town");
        }
        if hunter.current_hp == 0 {
            return self.rejected(intent, "hunter_unavailable");
        }
        if hunter.hunt.gear_enhancement.is_some() {
            return self.rejected(intent, "enhancement_task_already_active");
        }
        let forge_instance = self.buildings.buildings[b].instance_id.clone();
        begin_visit(&mut self.hunter_roster.hunters[h], forge_instance, x, y);
        if command_id != 0 {
            let key = enhancement_key_text(hunter_id);
            let ghost commands = self.hunter_roster.hunt_commands@;
            self.hunter_roster.record_command(command_id, key);
            assert(self.hunter_roster.hunt_commands@.drop_last() =~= commands);
        }
        self.accepted(intent)
    }
}

/// The evidence that gear enhancement still waits for: its costs and its
/// success rolls are not bound, so no enhancement is ever applied.
pub open spec fn gear_enhancement_blockers() -> Seq<Seq<char>> {
    seq!["gear_enhancement_cost_binding"@, "gear_enhancement_rng_binding"@]
}

/// The enhancement modes: one step, or up to level 10, 15 or the cap.
pub open spec fn enhancement_mode_valid(mode: Seq<char>) -> bool {
    mode == "single"@ || mode == "to_10"@ || mode == "to_15"@ || mode == "to_20"@
}

/// Whether the material at `i` repeats one listed before it.
pub open spec fn repeats_earlier(ids: Seq<String>, i: int) -> bool {
    exists|j: int| 0 <= j < i && ids[j]@ == ids[i]@
}

/// The first problem with the optional materials, in list order: a
/// material named twice, or one the gameplay catalog does not know.
pub open spec fn material_refusal(ids: Seq<String>, items: Seq<crate::catalog::EconomyItemDefinition>) -> Option<Seq<char>>
    decreases ids.len(),
{
    if ids.len() == 0 {
        None
    } else {
        match material_refusal(ids.drop_last(), items) {
            Some(reason) => Some(reason),
            None => if repeats_earlier(ids, ids.len() - 1) {
                Some("enhancement_optional_material_duplicated"@)
            } else if find_item(items, ids.last()@) is None {
                Some("enhancement_optional_material_unknown"@)
            } else {
                None
            },
        }
    }
}

/// The material ids joined by commas.
pub open spec fn joined_ids(ids: Seq<String>) -> Seq<char>
    decreases ids.len(),
{
    if ids.len() == 0 {
        seq![]
    } else if ids.len() == 1 {
        ids[0]@
    } else {
        joined_ids(ids.drop_last()) + ","@ + ids.last()@
    }
}

/// The command key of an enhancement request.
pub open spec fn enhance_key(hunter_id: u32, gear_id: u128, mode: Seq<char>, ids: Seq<String>) -> Seq<char> {
    "enhance_hunter_gear:"@ + decimal_text(hunter_id as nat) + ":"@ + id_text(gear_id) + ":"@ + mode + ":"@
        + joined_ids(ids)
}

/// An owned stack of the gear instance `gear_id` that is not used up.
pub open spec fn holds_gear(gear_id: u128) -> spec_fn(DurableHunterOwnedItem) -> bool {
    |item: DurableHunterOwnedItem| item.gear_instance_id == Some(gear_id) && item.quantity > 0
}

/// How an enhancement request is answered.
pub enum EnhanceDecision {
    /// A repeated command: the blockers again, nothing changes.
    Replay,
    Reject(Seq<char>),
    /// A valid request at the Forge: the visit ends and the blockers are
    /// reported; the Hunter at index `hunter` is released.
    Release { hunter: int },
}

/// The decision on an enhancement request, checks in order: the shared
/// world; the mode; the optional materials; a used (non-nil) command id;
/// the Hunter; that it is idle in town; that its visit has started and
/// reached the Forge; that it owns the gear; that the gear's product is
/// known and is gear; that the gear is below the enhancement cap.
pub open spec fn enhance_decision(
    session: OriginalFlowSession,
    command_id: u128,
    hunter_id: u32,
    gear_id: u128,
    mode: Seq<char>,
    ids: Seq<String>,
) -> EnhanceDecision {
    let previous = command_key(session.hunter_roster.hunt_commands@, command_id);
    let gameplay = session.building_content.gameplay;
    if !world_active(session.state.screen) {
        EnhanceDecision::Reject("village_unavailable"@)
    } else if !enhancement_mode_valid(mode) {
        EnhanceDecision::Reject("enhancement_mode_invalid"@)
    } else if material_refusal(ids, gameplay.items@) is Some {
        EnhanceDecision::Reject(material_refusal(ids, gameplay.items@)->0)
    } else if command_id != 0 && previous is Some {
        if previous == Some(enhance_key(hunter_id, gear_id, mode, ids)) {
            EnhanceDecision::Replay
        } else {
            EnhanceDecision::Reject("command_id_conflict"@)
        }
    } else {
        match first_index(session.hunter_roster.hunters@, hunter_has_id(hunter_id)) {
            None => EnhanceDecision::Reject("hunter_unknown"@),
            Some(h) => {
                let hunter = session.hunter_roster.hunters@[h];
                if !hunt_is_idle(hunter.hunt) {
                    EnhanceDecision::Reject("hunter_not_in_town"@)
                } else {
                    match hunter.hunt.gear_enhancement {
                        None => EnhanceDecision::Reject("enhancement_visit_not_started"@),
                        Some(task) => if task.status != GearEnhancementTaskStatus::WaitingForInteraction && task.status
                            != GearEnhancementTaskStatus::Configuring {
                            EnhanceDecision::Reject("hunter_not_ready_at_enhancement_forge"@)
                        } else {
                            match first_index(hunter.owned_items@, holds_gear(gear_id)) {
                                None => EnhanceDecision::Reject("gear_instance_not_owned"@),
                                Some(o) => {
                                    let owned = hunter.owned_items@[o];
                                    match find_product(gameplay.products@, owned.product_id@) {
                                        None => EnhanceDecision::Reject("gear_definition_unavailable"@),
                                        Some(product) => if product.gear_route is None {
                                            EnhanceDecision::Reject("product_is_not_gear"@)
                                        } else if owned.enhancement_level matches Some(level) && level
                                            >= MAX_GEAR_ENHANCEMENT_LEVEL {
                                            EnhanceDecision::Reject("gear_enhancement_cap_reached"@)
                                        } else {
                                            EnhanceDecision::Release { hunter: h }
                                        },
                                    }
                                },
                            }
                        },
                    }
                }
            },
        }
    }
}

/// The reply to and effect of an enhancement request. No enhancement is
/// applied: a valid request ends the Hunter's visit (it is idle again,
/// with its gold and gear untouched) and reports the blockers; a non-nil
/// command id is recorded for it.
pub open spec fn enhance_outcome(
    before: OriginalFlowSession,
    after: OriginalFlowSession,
    command_id: u128,
    hunter_id: u32,
    gear_id: u128,
    mode: Seq<char>,
    ids: Seq<String>,
    message: ServerMessage,
) -> bool {
    match enhance_decision(before, command_id, hunter_id, gear_id, mode, ids) {
        EnhanceDecision::Replay => is_binding_blocked(message, "enhance_hunter_gear"@, gear_enhancement_blockers())
            && after == before,
        EnhanceDecision::Reject(reason) => is_rejected(message, "enhance_hunter_gear"@, reason) && after == before,
        EnhanceDecision::Release { hunter } => {
            let commands = before.hunter_roster.hunt_commands@;
            let new_commands = after.hunter_roster.hunt_commands@;
            let b = before.hunter_roster.hunters@[hunter];
            let a = after.hunter_roster.hunters@[hunter];
            &&& is_binding_blocked(message, "enhance_hunter_gear"@, gear_enhancement_blockers())
            &&& after.hunter_roster.hunters@.len() == before.hunter_roster.hunters@.len()
            &&& forall|k: int| 0 <= k < before.hunter_roster.hunters@.len() && k != hunter ==> #[trigger] after.hunter_roster.hunters@[k]
                == before.hunter_roster.hunters@[k]
            &&& a.hunt.gear_enhancement is None
            &&& shows(a, "idle"@, "hunter_stay"@)
            &&& a.hunt.zone_id == b.hunt.zone_id
            &&& a.hunt.status == b.hunt.status
            &&& a.hunt.pending_trade == b.hunt.pending_trade
            &&& same_except_workflow(b, a)
            &&& if command_id != 0 {
                &&& new_commands.len() == commands.len() + 1
                &&& new_commands.drop_last() == commands
                &&& new_commands.last().command_id == command_id
                &&& new_commands.last().key@ == enhance_key(hunter_id, gear_id, mode, ids)
            } else {
                new_commands == commands
            }
            &&& after == OriginalFlowSession {
                hunter_roster: DurableHunterRosterState {
                    hunters: after.hunter_roster.hunters,
                    hunt_commands: after.hunter_roster.hunt_commands,
                    ..before.hunter_roster
                },
                ..before
            }
        },
    }
}

/// Whether `mode` is an enhancement mode.
fn mode_is_valid(mode: &str) -> (valid: bool)
    ensures
        valid == enhancement_mode_valid(mode@),
{
    str_eq(mode, "single") || str_eq(mode, "to_10") || str_eq(mode, "to_15") || str_eq(mode, "to_20")
}

/// Whether the material at `i` repeats one listed before it.
fn repeats_earlier_at(ids: &[String], i: usize) -> (repeats: bool)
    requires
        i < ids@.len(),
    ensures
        repeats == repeats_earlier(ids@, i as int),
{
    let mut j: usize = 0;
    while j < i
        invariant
            0 <= j <= i < ids@.len(),
            forall|k: int| 0 <= k < j ==> (#[trigger] ids@[k])@ != ids@[i as int]@,
        decreases i - j,
    {
        if str_eq(ids[j].as_str(), ids[i].as_str()) {
            return true;
        }
        j = j + 1;
    }
    false
}

/// The first problem with the optional materials, if any.
fn check_materials(ids: &[String], gameplay: &crate::catalog::BuildingGameplayCatalog) -> (refusal: Option<&'static str>)
    ensures
        refusal matches Some(r) ==> material_refusal(ids@, gameplay.items@) == Some(r@),
        refusal is None ==> material_refusal(ids@, gameplay.items@) is None,
{
    let mut i: usize = 0;
    while i < ids.len()
        invariant
            0 <= i <= ids@.len(),
            material_refusal(ids@.take(i as int), gameplay.items@) is None,
        decreases ids@.len() - i,
    {
        let ghost upto = ids@.take(i as int + 1);
        assert(upto.drop_last() =~= ids@.take(i as int));
        assert(upto.last() == ids@[i as int]);
        assert(repeats_earlier(upto, i as int) == repeats_earlier(ids@, i as int)) by {
            if repeats_earlier(ids@, i as int) {
                let j = choose|j: int| 0 <= j < i && ids@[j]@ == ids@[i as int]@;
                assert(upto[j] == ids@[j]);
            }
        }
        if repeats_earlier_at(ids, i) {
            proof {
                lemma_refusal_prefix(ids@, gameplay.items@, i as int + 1);
            }
            return Some("enhancement_optional_material_duplicated");
        }
        if gameplay.item(ids[i].as_str()).is_none() {
            proof {
                lemma_refusal_prefix(ids@, gameplay.items@, i as int + 1);
            }
            return Some("enhancement_optional_material_unknown");
        }
        i = i + 1;
    }
    assert(ids@.take(ids@.len() as int) =~= ids@);
    None
}

/// A refusal found in a prefix is the refusal of the whole list.
proof fn lemma_refusal_prefix(ids: Seq<String>, items: Seq<crate::catalog::EconomyItemDefinition>, n: int)
    requires
        0 <= n <= ids.len(),
        material_refusal(ids.take(n), items) is Some,
    ensures
        material_refusal(ids, items) == material_refusal(ids.take(n), items),
    decreases ids.len() - n,
{
    if n < ids.len() {
        let longer = ids.take(n + 1);
        assert(longer.drop_last() =~= ids.take(n));
        lemma_refusal_prefix(ids, items, n + 1);
    } else {
        assert(ids.take(n) =~= ids);
    }
}

/// The command key of an enhancement request.
fn enhance_key_text(hunter_id: u32, gear_id: u128, mode: &str, ids: &[String]) -> (key: String)
    ensures
        key@ == enhance_key(hunter_id, gear_id, mode@, ids@),
{
    let mut chars: Vec<char> = Vec::new();
    append_str(&mut chars, "enhance_hunter_gear:");
    append_decimal(&mut chars, hunter_id as u64);
    append_str(&mut chars, ":");
    let text = id_to_text(gear_id);
    append_str(&mut chars, text.as_str());
    append_str(&mut chars, ":");
    append_str(&mut chars, mode);
    append_str(&mut chars, ":");
    let ghost head = chars@;
    let mut i: usize = 0;
    while i < ids.len()
        invariant
            0 <= i <= ids@.len(),
            chars@ == head + joined_ids(ids@.take(i as int)),
        decreases ids@.len() - i,
    {
        let ghost upto = ids@.take(i as int + 1);
        assert(upto.drop_last() =~= ids@.take(i as int));
        if i > 0 {
            append_str(&mut chars, ",");
        }
        append_str(&mut chars, ids[i].as_str());
        proof {
            if i == 0 {
                assert(upto.len() == 1);
                assert(joined_ids(ids@.take(0)) == Seq::<char>::empty());
            }
            assert(upto.last() == ids@[i as int]);
        }
        assert(chars@ =~= head + joined_ids(upto));
        i = i + 1;
    }
    assert(ids@.take(ids@.len() as int) =~= ids@);
    string_from_chars(&chars)
}

/// The first owned, unused stack of gear instance `gear_id`.
fn find_owned_gear(items: &Vec<DurableHunterOwnedItem>, gear_id: u128) -> (index: Option<usize>)
    ensures
        index matches Some(i) ==> first_index(items@, holds_gear(gear_id)) == Some(i as int) && i < items@.len(),
        index is None ==> first_index(items@, holds_gear(gear_id)) is None,
{
    let mut i: usize = 0;
    while i < items.len()
        invariant
            0 <= i <= items@.len(),
            forall|j: int| 0 <= j < i ==> !holds_gear(gear_id)(#[trigger] items@[j]),
        decreases items@.len() - i,
    {
        if items[i].gear_instance_id == Some(gear_id) && items[i].quantity > 0 {
            proof {
                lemma_first_index_is(items@, holds_gear(gear_id), i as int);
            }
            return Some(i);
        }
        i = i + 1;
    }
    proof {
        lemma_first_index_none(items@, holds_gear(gear_id));
    }
    None
}

impl OriginalFlowSession {
    /// The blockers of a gear enhancement, as a reply.
    fn enhancement_blocked(&self) -> (message: ServerMessage)
        ensures
            is_binding_blocked(message, "enhance_hunter_gear"@, gear_enhancement_blockers()),
    {
        let message = self.binding_blocked(
            "enhance_hunter_gear",
            &["gear_enhancement_cost_binding", "gear_enhancement_rng_binding"],
        );
        assert(Seq::new(2, |i: int| ["gear_enhancement_cost_binding", "gear_enhancement_rng_binding"]@[i]@)
            =~= gear_enhancement_blockers());
        message
    }

    /// Asks the Hunter at the Forge to enhance gear `gear_instance_id` in
    /// `mode` with the optional materials (see [`enhance_decision`] and
    /// [`enhance_outcome`]). Enhancement is not bound yet: the request is
    /// validated, the visit ends and the blockers are reported.
    pub fn enhance_hunter_gear(
        &mut self,
        command_id: u128,
        hunter_id: u32,
        gear_instance_id: u128,
        mode: &str,
        optional_material_ids: &[String],
    ) -> (message: ServerMessage)
        ensures
            enhance_outcome(
                *old(self),
                *final(self),
                command_id,
                hunter_id,
                gear_instance_id,
                mode@,
                optional_material_ids@,
                message,
            ),
    {
        let intent = "enhance_hunter_gear";
        if !self.shared_world_active() {
            return self.rejected(intent, "village_unavailable");
        }
        if !mode_is_valid(mode) {
            return self.rejected(intent, "enhancement_mode_invalid");
        }
        if let Some(reason) = check_materials(optional_material_ids, &self.building_content.gameplay) {
            return self.rejected(intent, reason);
        }
        if command_id != 0 {
            match self.hunter_roster.command_key(command_id) {
                Some(previous) => {
                    let key = enhance_key_text(hunter_id, gear_instance_id, mode, optional_material_ids);
                    return if str_eq(previous.as_str(), key.as_str()) {
                        self.enhancement_blocked()
                    } else {
                        self.rejected(intent, "command_id_conflict")
                    };
                },
                None => {},
            }
        }
        let h = match find_hunter_index(&self.hunter_roster.hunters, hunter_id) {
            Some(h) => h,
            None => {
                return self.rejected(intent, "hunter_unknown");
            },
        };
        let hunter = &self.hunter_roster.hunters[h];
        if !hunter.hunt.is_idle() {
            return self.rejected(intent, "hunter_not_in_town");
        }
        match &hunter.hunt.gear_enhancement {
            None => {
                return self.rejected(intent, "enhancement_visit_not_started");
            },
            Some(task) => {
                if task.status != GearEnhancementTaskStatus::WaitingForInteraction && task.status
                    != GearEnhancementTaskStatus::Configuring {
                    return self.rejected(intent, "hunter_not_ready_at_enhancement_forge");
                }
            },
        }
        let o = match find_owned_gear(&hunter.owned_items, gear_instance_id) {
            Some(o) => o,
            None => {
                return self.rejected(intent, "gear_instance_not_owned");
            },
        };
        let owned = &hunter.owned_items[o];
        match self.building_content.gameplay.product(owned.product_id.as_str()) {
            None => {
                return self.rejected(intent, "gear_definition_unavailable");
            },
            Some(product) => {
                if product.gear_route.is_none() {
                    return self.rejected(intent, "product_is_not_gear");
                }
            },
        }
        match owned.enhancement_level {
            Some(level) => {
                if level >= MAX_GEAR_ENHANCEMENT_LEVEL {
                    return self.rejected(intent, "gear_enhancement_cap_reached");
                }
            },
            None => {},
        }
        release_hunter_from_enhancement(&mut self.hunter_roster.hunters[h]);
        if command_id != 0 {
            let key = enhance_key_text(hunter_id, gear_instance_id, mode, optional_material_ids);
            let ghost commands = self.hunter_roster.hunt_commands@;
            self.hunter_roster.record_command(command_id, key);
            assert(self.hunter_roster.hunt_commands@.drop_last() =~= commands);
        }
        self.enhancement_blocked()
    }
}

} // verus!
