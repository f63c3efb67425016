//! What the Hunter roster view shows of a Hunter's skills, equipment,
//! carried loot, enhanceable gear and enhancement visit, and the whole
//! roster member view built from them.
use vstd::prelude::*;

use crate::contracts::MAX_GEAR_ENHANCEMENT_LEVEL;
use crate::presentation::{drop_icon_of, drop_icon_path};
use crate::persistence::same_string_list;
use crate::roster::{
    DurableEquipmentSlot, DurableGearEnhancementAttempt, DurableGearEnhancementTask, DurableHunterLoot,
    DurableHunterOwnedItem, DurableHunterSkill, GearEnhancementTaskStatus,
};
use crate::ids::{id_text, id_to_text};
use crate::roster::{hunt_is_idle, DurableHunterProfile, DurableHunterProgress, DurableHunterState, DurableHunterTrait};
use crate::seqs::{first_index, lemma_first_index_is, lemma_first_index_none};
use crate::text::{append_str, chars_of, has_prefix, starts_with, str_eq, string_from_chars};
use crate::web_rebuild_gear::{rebuild_weapon_definition, weapon_definition_of, WeaponCatalog};

verus! {

/// The enhancement state of one owned gear instance.
#[derive(Clone, Debug, PartialEq, Eq)]
pub struct GearEnhancementSnapshot {
    pub product_id: String,
    pub level: Option<u8>,
    pub max_level: u8,
    pub instance_id: Option<u128>,
    pub evidence_state: &'static str,
}

/// A learned skill as the roster shows it.
#[derive(Clone, Debug, PartialEq, Eq)]
pub struct HunterSkillSnapshot {
    pub skill_id: String,
    pub display_name: String,
    pub icon_path: Option<String>,
    pub animation_name: Option<String>,
    pub level: u8,
    pub equipped_slot: Option<u8>,
    pub ready: bool,
    pub cooldown_remaining_ms: u64,
}

/// An equipment slot as the Hunter info panel shows it.
#[derive(Clone, Debug, PartialEq, Eq)]
pub struct HunterEquipmentSlotSnapshot {
    pub slot_id: String,
    pub catalog_kind: String,
    pub catalog_index: u32,
    pub display_name: String,
    pub icon_path: Option<String>,
    pub placeholder_icon_path: Option<String>,
    pub presentation_gender: String,
    pub required_class_id: Option<String>,
    pub locked: Option<bool>,
    pub evidence_state: String,
}

/// A carried loot stack.
#[derive(Clone, Debug, PartialEq, Eq)]
pub struct HunterLootSnapshot {
    pub item_id: String,
    pub quantity: u32,
}

/// A carried material as the Hunter info panel lists it; `order` is the
/// stack's place among all carried loot.
#[derive(Clone, Debug, PartialEq, Eq)]
pub struct HunterMaterialSnapshot {
    pub material_id: String,
    pub display_name: Option<String>,
    pub icon_path: String,
    pub quantity: u64,
    pub order: u32,
}

/// An owned stack that is an individual, not used-up gear instance.
pub open spec fn is_owned_gear(item: DurableHunterOwnedItem) -> bool {
    item.quantity > 0 && item.gear_instance_id is Some
}

/// The enhancement row of an owned gear instance: its product, level and
/// instance, the enhancement cap, and evidence still unresolved.
pub open spec fn gear_row_shown(row: GearEnhancementSnapshot, item: DurableHunterOwnedItem) -> bool {
    &&& row.product_id@ == item.product_id@
    &&& row.level == item.enhancement_level
    &&& row.max_level == MAX_GEAR_ENHANCEMENT_LEVEL
    &&& row.instance_id == item.gear_instance_id
    &&& row.evidence_state@ == "unresolved"@
}

/// One enhancement row per owned gear instance, in ownership order.
pub open spec fn gear_rows_shown(rows: Seq<GearEnhancementSnapshot>, items: Seq<DurableHunterOwnedItem>) -> bool
    decreases items.len(),
{
    if items.len() == 0 {
        rows.len() == 0
    } else if !is_owned_gear(items.last()) {
        gear_rows_shown(rows, items.drop_last())
    } else {
        rows.len() > 0 && gear_row_shown(rows.last(), items.last()) && gear_rows_shown(
            rows.drop_last(),
            items.drop_last(),
        )
    }
}

/// The enhancement rows of a Hunter's owned gear (see [`gear_rows_shown`]).
pub fn gear_enhancement_snapshots(items: &Vec<DurableHunterOwnedItem>) -> (rows: Vec<GearEnhancementSnapshot>)
    ensures
        gear_rows_shown(rows@, items@),
{
    let mut rows: Vec<GearEnhancementSnapshot> = Vec::new();
    let mut i: usize = 0;
    while i < items.len()
        invariant
            0 <= i <= items@.len(),
            gear_rows_shown(rows@, items@.take(i as int)),
        decreases items@.len() - i,
    {
        let ghost before = rows@;
        assert(items@.take(i + 1).drop_last() =~= items@.take(i as int));
        assert(items@.take(i + 1).last() == items@[i as int]);
        let item = &items[i];
        if item.quantity > 0 && item.gear_instance_id.is_some() {
            rows.push(
                GearEnhancementSnapshot {
                    product_id: item.product_id.clone(),
                    level: item.enhancement_level,
                    max_level: MAX_GEAR_ENHANCEMENT_LEVEL,
                    instance_id: item.gear_instance_id,
                    evidence_state: "unresolved",
                },
            );
            assert(rows@.drop_last() =~= before);
        }
        i = i + 1;
    }
    assert(items@.take(items@.len() as int) =~= items@);
    rows
}

/// A skill row: the skill's identity, presentation, level, slot, readiness
/// and cooldown.
pub open spec fn skill_row_shown(row: HunterSkillSnapshot, skill: DurableHunterSkill) -> bool {
    &&& row.skill_id@ == skill.skill_id@
    &&& row.display_name@ == skill.display_name@
    &&& row.icon_path == skill.icon_path
    &&& row.animation_name == skill.animation_name
    &&& row.level == skill.skill_level
    &&& row.equipped_slot == skill.equipped_slot
    &&& row.ready == skill.ready
    &&& row.cooldown_remaining_ms == skill.cooldown_remaining_ms
}

/// The skill rows of a Hunter, one per learned skill, in order.
pub fn skill_snapshots(skills: &Vec<DurableHunterSkill>) -> (rows: Vec<HunterSkillSnapshot>)
    ensures
        rows@.len() == skills@.len(),
        forall|k: int| 0 <= k < skills@.len() ==> #[trigger] skill_row_shown(rows@[k], skills@[k]),
{
    let mut rows: Vec<HunterSkillSnapshot> = Vec::new();
    let mut i: usize = 0;
    while i < skills.len()
        invariant
            0 <= i <= skills@.len(),
            rows@.len() == i,
            forall|k: int| 0 <= k < i ==> #[trigger] skill_row_shown(rows@[k], skills@[k]),
        decreases skills@.len() - i,
    {
        let skill = &skills[i];
        rows.push(
            HunterSkillSnapshot {
                skill_id: skill.skill_id.clone(),
                display_name: skill.display_name.clone(),
                icon_path: skill.icon_path.clone(),
                animation_name: skill.animation_name.clone(),
                level: skill.skill_level,
                equipped_slot: skill.equipped_slot,
                ready: skill.ready,
                cooldown_remaining_ms: skill.cooldown_remaining_ms,
            },
        );
        i = i + 1;
    }
    rows
}

/// An equipment slot row: the slot as held, its icon always present, no
/// placeholder icon, and its lock always stated.
pub open spec fn slot_row_shown(row: HunterEquipmentSlotSnapshot, slot: DurableEquipmentSlot) -> bool {
    &&& row.slot_id@ == slot.slot_id@
    &&& row.catalog_kind@ == slot.catalog_kind@
    &&& row.catalog_index == slot.catalog_index
    &&& row.display_name@ == slot.display_name@
    &&& row.icon_path matches Some(icon) && icon@ == slot.icon_path@
    &&& row.placeholder_icon_path is None
    &&& row.presentation_gender@ == slot.presentation_gender@
    &&& row.required_class_id == slot.required_class_id
    &&& row.locked == Some(slot.locked)
    &&& row.evidence_state@ == slot.evidence_state@
}

/// The equipment rows of a Hunter, one per slot, in order.
pub fn equipment_slot_snapshots(slots: &Vec<DurableEquipmentSlot>) -> (rows: Vec<HunterEquipmentSlotSnapshot>)
    ensures
        rows@.len() == slots@.len(),
        forall|k: int| 0 <= k < slots@.len() ==> #[trigger] slot_row_shown(rows@[k], slots@[k]),
{
    let mut rows: Vec<HunterEquipmentSlotSnapshot> = Vec::new();
    let mut i: usize = 0;
    while i < slots.len()
        invariant
            0 <= i <= slots@.len(),
            rows@.len() == i,
            forall|k: int| 0 <= k < i ==> #[trigger] slot_row_shown(rows@[k], slots@[k]),
        decreases slots@.len() - i,
    {
        let slot = &slots[i];
        rows.push(
            HunterEquipmentSlotSnapshot {
                slot_id: slot.slot_id.clone(),
                catalog_kind: slot.catalog_kind.clone(),
                catalog_index: slot.catalog_index,
                display_name: slot.display_name.clone(),
                icon_path: Some(slot.icon_path.clone()),
                placeholder_icon_path: None,
                presentation_gender: slot.presentation_gender.clone(),
                required_class_id: slot.required_class_id.clone(),
                locked: Some(slot.locked),
                evidence_state: slot.evidence_state.clone(),
            },
        );
        i = i + 1;
    }
    rows
}

/// The loot rows of a Hunter's carried stacks, in order.
pub fn loot_snapshots(loot: &Vec<DurableHunterLoot>) -> (rows: Vec<HunterLootSnapshot>)
    ensures
        rows@.len() == loot@.len(),
        forall|k: int|
            0 <= k < loot@.len() ==> (#[trigger] rows@[k]).item_id@ == loot@[k].item_id@ && rows@[k].quantity
                == loot@[k].quantity,
{
    let mut rows: Vec<HunterLootSnapshot> = Vec::new();
    let mut i: usize = 0;
    while i < loot.len()
        invariant
            0 <= i <= loot@.len(),
            rows@.len() == i,
            forall|k: int|
                0 <= k < i ==> (#[trigger] rows@[k]).item_id@ == loot@[k].item_id@ && rows@[k].quantity
                    == loot@[k].quantity,
        decreases loot@.len() - i,
    {
        rows.push(HunterLootSnapshot { item_id: loot[i].item_id.clone(), quantity: loot[i].quantity });
        i = i + 1;
    }
    rows
}

/// A carried stack the info panel lists as a material: not empty, and a
/// `material:` item.
pub open spec fn is_listed_material(stack: DurableHunterLoot) -> bool {
    stack.quantity > 0 && has_prefix(stack.item_id@, "material:"@)
}

/// A material row for the stack at place `order` of the carried loot: its
/// id, no display name, its drop icon and its quantity.
pub open spec fn material_row_shown(row: HunterMaterialSnapshot, stack: DurableHunterLoot, order: int) -> bool {
    &&& row.material_id@ == stack.item_id@
    &&& row.display_name is None
    &&& row.icon_path@ == drop_icon_of(stack.item_id@)
    &&& row.quantity == stack.quantity as u64
    &&& row.order == (if order <= u32::MAX { order as u32 } else { u32::MAX })
}

/// One material row per listed stack of `loot`, in carried order.
pub open spec fn material_rows_shown(rows: Seq<HunterMaterialSnapshot>, loot: Seq<DurableHunterLoot>) -> bool
    decreases loot.len(),
{
    if loot.len() == 0 {
        rows.len() == 0
    } else if !is_listed_material(loot.last()) {
        material_rows_shown(rows, loot.drop_last())
    } else {
        rows.len() > 0 && material_row_shown(rows.last(), loot.last(), loot.len() - 1) && material_rows_shown(
            rows.drop_last(),
            loot.drop_last(),
        )
    }
}

/// The materials a Hunter carries, as the info panel lists them (see
/// [`material_rows_shown`]).
pub fn material_snapshots(loot: &Vec<DurableHunterLoot>) -> (rows: Vec<HunterMaterialSnapshot>)
    ensures
        material_rows_shown(rows@, loot@),
{
    proof {
        reveal_strlit("material:");
    }
    let prefix = chars_of("material:");
    let mut rows: Vec<HunterMaterialSnapshot> = Vec::new();
    let mut i: usize = 0;
    while i < loot.len()
        invariant
            0 <= i <= loot@.len(),
            prefix@ == "material:"@,
            material_rows_shown(rows@, loot@.take(i as int)),
        decreases loot@.len() - i,
    {
        let ghost before = rows@;
        assert(loot@.take(i + 1).drop_last() =~= loot@.take(i as int));
        assert(loot@.take(i + 1).last() == loot@[i as int]);
        let stack = &loot[i];
        let chars = chars_of(stack.item_id.as_str());
        if stack.quantity > 0 && starts_with(&chars, &prefix) {
            let order: u32 = if i <= 0xffff_ffffusize {
                i as u32
            } else {
                0xffff_ffffu32
            };
            rows.push(
                HunterMaterialSnapshot {
                    material_id: stack.item_id.clone(),
                    display_name: None,
                    icon_path: drop_icon_path(stack.item_id.as_str()),
                    quantity: stack.quantity as u64,
                    order,
                },
            );
            assert(rows@.drop_last() =~= before);
        }
        i = i + 1;
    }
    assert(loot@.take(loot@.len() as int) =~= loot@);
    rows
}

/// A material and a quantity spent on or needed for enhancement.
#[derive(Clone, Debug, PartialEq, Eq)]
pub struct GearEnhancementResourceSnapshot {
    pub material_id: String,
    pub quantity: u32,
}

/// One enhancement attempt as shown.
#[derive(Clone, Debug, PartialEq, Eq)]
pub struct GearEnhancementAttemptSnapshot {
    pub attempt: u32,
    pub starting_level: u8,
    pub resulting_level: u8,
    pub succeeded: bool,
    pub gold_spent: u64,
    pub materials_spent: Vec<GearEnhancementResourceSnapshot>,
}

/// A Hunter's enhancement visit as shown.
#[derive(Clone, Debug, PartialEq, Eq)]
pub struct GearEnhancementTaskSnapshot {
    pub building_instance_id: String,
    pub status: &'static str,
    pub interaction_ready: bool,
    pub selected_gear_instance_id: Option<u128>,
    pub selected_product_id: Option<String>,
    pub mode: Option<String>,
    pub target_level: Option<u8>,
    pub optional_material_ids: Vec<String>,
    pub next_attempt_gold_cost: Option<u64>,
    pub next_attempt_success_bps: Option<u32>,
    pub required_materials: Vec<GearEnhancementResourceSnapshot>,
    pub attempts: Vec<GearEnhancementAttemptSnapshot>,
    pub spent_gold: u64,
    pub spent_materials: Vec<GearEnhancementResourceSnapshot>,
    pub final_level: Option<u8>,
    pub stop_reason: Option<String>,
    pub blockers: Vec<String>,
}

/// The wire name of a visit's phase.
pub open spec fn task_status_name(status: GearEnhancementTaskStatus) -> Seq<char> {
    match status {
        GearEnhancementTaskStatus::Traveling => "traveling"@,
        GearEnhancementTaskStatus::WaitingForInteraction => "waiting_for_interaction"@,
        GearEnhancementTaskStatus::Configuring => "configuring"@,
        GearEnhancementTaskStatus::Processing => "processing"@,
        GearEnhancementTaskStatus::Result => "result"@,
    }
}

/// The Hunter stands at the Forge: waiting, configuring or showing a result.
pub open spec fn at_forge(status: GearEnhancementTaskStatus) -> bool {
    status == GearEnhancementTaskStatus::WaitingForInteraction || status == GearEnhancementTaskStatus::Configuring
        || status == GearEnhancementTaskStatus::Result
}

/// Resource rows for loot stacks, one per stack, in order.
pub open spec fn resources_shown(rows: Seq<GearEnhancementResourceSnapshot>, loot: Seq<DurableHunterLoot>) -> bool {
    &&& rows.len() == loot.len()
    &&& forall|k: int|
        0 <= k < loot.len() ==> (#[trigger] rows[k]).material_id@ == loot[k].item_id@ && rows[k].quantity
            == loot[k].quantity
}

/// An attempt row for an attempt.
pub open spec fn attempt_shown(row: GearEnhancementAttemptSnapshot, attempt: DurableGearEnhancementAttempt) -> bool {
    &&& row.attempt == attempt.attempt
    &&& row.starting_level == attempt.starting_level
    &&& row.resulting_level == attempt.resulting_level
    &&& row.succeeded == attempt.succeeded
    &&& row.gold_spent == attempt.gold_spent
    &&& resources_shown(row.materials_spent@, attempt.materials_spent@)
}

/// The view of a visit: where it goes, its phase and whether the Hunter is
/// at the Forge, what was chosen, every attempt and what was spent, the
/// outcome and the bindings it waits for. No next-attempt cost, chance or
/// material need is shown while those bindings are open.
pub open spec fn task_shown(snapshot: GearEnhancementTaskSnapshot, task: DurableGearEnhancementTask) -> bool {
    &&& snapshot.building_instance_id@ == task.building_instance_id@
    &&& snapshot.status@ == task_status_name(task.status)
    &&& snapshot.interaction_ready == at_forge(task.status)
    &&& snapshot.selected_gear_instance_id == task.selected_gear_instance_id
    &&& crate::persistence::same_text(snapshot.selected_product_id, task.selected_product_id)
    &&& crate::persistence::same_text(snapshot.mode, task.mode)
    &&& snapshot.target_level == task.target_level
    &&& same_string_list(snapshot.optional_material_ids@, task.optional_material_ids@)
    &&& snapshot.next_attempt_gold_cost is None
    &&& snapshot.next_attempt_success_bps is None
    &&& snapshot.required_materials@.len() == 0
    &&& snapshot.attempts@.len() == task.attempts@.len()
    &&& forall|k: int| 0 <= k < task.attempts@.len() ==> #[trigger] attempt_shown(snapshot.attempts@[k], task.attempts@[k])
    &&& snapshot.spent_gold == task.spent_gold
    &&& resources_shown(snapshot.spent_materials@, task.spent_materials@)
    &&& snapshot.final_level == task.final_level
    &&& crate::persistence::same_text(snapshot.stop_reason, task.stop_reason)
    &&& same_string_list(snapshot.blockers@, task.blockers@)
}

/// Resource rows for loot stacks.
fn resource_rows(loot: &Vec<DurableHunterLoot>) -> (rows: Vec<GearEnhancementResourceSnapshot>)
    ensures
        resources_shown(rows@, loot@),
{
    let mut rows: Vec<GearEnhancementResourceSnapshot> = Vec::new();
    let mut i: usize = 0;
    while i < loot.len()
        invariant
            0 <= i <= loot@.len(),
            rows@.len() == i,
            forall|k: int|
                0 <= k < i ==> (#[trigger] rows@[k]).material_id@ == loot@[k].item_id@ && rows@[k].quantity
                    == loot@[k].quantity,
        decreases loot@.len() - i,
    {
        rows.push(GearEnhancementResourceSnapshot { material_id: loot[i].item_id.clone(), quantity: loot[i].quantity });
        i = i + 1;
    }
    rows
}

/// The view of a Hunter's enhancement visit (see [`task_shown`]).
pub fn gear_enhancement_task_snapshot(task: &DurableGearEnhancementTask) -> (snapshot: GearEnhancementTaskSnapshot)
    ensures
        task_shown(snapshot, *task),
{
    let status = match task.status {
        GearEnhancementTaskStatus::Traveling => "traveling",
        GearEnhancementTaskStatus::WaitingForInteraction => "waiting_for_interaction",
        GearEnhancementTaskStatus::Configuring => "configuring",
        GearEnhancementTaskStatus::Processing => "processing",
        GearEnhancementTaskStatus::Result => "result",
    };
    let interaction_ready = match task.status {
        GearEnhancementTaskStatus::WaitingForInteraction | GearEnhancementTaskStatus::Configuring
        | GearEnhancementTaskStatus::Result => true,
        _ => false,
    };
    let mut attempts: Vec<GearEnhancementAttemptSnapshot> = Vec::new();
    let mut i: usize = 0;
    while i < task.attempts.len()
        invariant
            0 <= i <= task.attempts@.len(),
            attempts@.len() == i,
            forall|k: int| 0 <= k < i ==> #[trigger] attempt_shown(attempts@[k], task.attempts@[k]),
        decreases task.attempts@.len() - i,
    {
        let attempt = &task.attempts[i];
        attempts.push(
            GearEnhancementAttemptSnapshot {
                attempt: attempt.attempt,
                starting_level: attempt.starting_level,
                resulting_level: attempt.resulting_level,
                succeeded: attempt.succeeded,
                gold_spent: attempt.gold_spent,
                materials_spent: resource_rows(&attempt.materials_spent),
            },
        );
        i = i + 1;
    }
    GearEnhancementTaskSnapshot {
        building_instance_id: task.building_instance_id.clone(),
        status,
        interaction_ready,
        selected_gear_instance_id: task.selected_gear_instance_id,
        selected_product_id: crate::persistence::copy_text(&task.selected_product_id),
        mode: crate::persistence::copy_text(&task.mode),
        target_level: task.target_level,
        optional_material_ids: crate::persistence::copy_string_list(&task.optional_material_ids),
        next_attempt_gold_cost: None,
        next_attempt_success_bps: None,
        required_materials: Vec::new(),
        attempts,
        spent_gold: task.spent_gold,
        spent_materials: resource_rows(&task.spent_materials),
        final_level: task.final_level,
        stop_reason: crate::persistence::copy_text(&task.stop_reason),
        blockers: crate::persistence::copy_string_list(&task.blockers),
    }
}

/// A trait as the roster shows it.
#[derive(Clone, Debug, PartialEq, Eq)]
pub struct HunterTraitSnapshot {
    pub trait_id: String,
    pub display_name: String,
    pub icon_path: String,
    pub unlocked_rank: u8,
    pub equipped: bool,
}

/// Progress toward a maximum, as shown.
#[derive(Clone, Copy, Debug, PartialEq, Eq, Structural)]
pub struct HunterProgressSnapshot {
    pub current: u64,
    pub maximum: u64,
}

/// The recorded combat stats of a Hunter, as the info panel shows them.
#[derive(Clone, Copy, Debug, PartialEq, Eq, Structural)]
pub struct HunterStatusSnapshot {
    pub dps_milli: Option<u64>,
    pub critical_rate_bps: Option<u32>,
    pub attack_speed_milli: Option<u32>,
    pub evasion_rate_bps: Option<u32>,
    pub awakening: Option<HunterProgressSnapshot>,
}

/// The hunt panel: status, zone, progress toward the return and the loot.
#[derive(Clone, Debug, PartialEq, Eq)]
pub struct HunterHuntSnapshot {
    pub status: String,
    pub zone_id: Option<String>,
    pub progress_ticks: u32,
    pub required_ticks: u32,
    pub loot: Vec<HunterLootSnapshot>,
    pub ruleset: &'static str,
}

/// A basic skill of the Hunter's class as the info panel previews it.
#[derive(Clone, Debug, PartialEq, Eq)]
pub struct HunterInfoSkillSnapshot {
    pub skill_id: String,
    pub display_name: String,
    pub icon_path: Option<String>,
    pub level: Option<u8>,
    pub description: Option<String>,
    pub group: Option<String>,
    pub unlocked: Option<bool>,
    pub unlock_requirement: Option<String>,
    pub ready: Option<bool>,
    pub cooldown_remaining_ms: Option<u64>,
}

/// A growth tree node.
#[derive(Clone, Debug, PartialEq, Eq)]
pub struct HunterGrowthNodeSnapshot {
    pub node_id: String,
    pub icon_path: Option<String>,
    pub points: u32,
    pub max_points: Option<u32>,
    pub order: u8,
}

/// The growth tree (not yet bound: never shown).
#[derive(Clone, Debug, PartialEq, Eq)]
pub struct HunterGrowthSnapshot {
    pub secret_points: u32,
    pub nodes: Vec<HunterGrowthNodeSnapshot>,
}

/// The riding pet panel.
#[derive(Clone, Debug, PartialEq, Eq)]
pub enum HunterRidingPetSnapshot {
    Empty { mounted: bool, can_move_to_ranch: bool },
    Mounted { mounted: bool, display_name: Option<String>, icon_path: Option<String> },
}

/// An owned rebuild weapon as the weapons panel shows it.
#[derive(Clone, Debug, PartialEq, Eq)]
pub struct HunterWeaponSnapshot {
    pub gear_instance_id: u128,
    pub product_id: String,
    pub weapon_id: String,
    pub display_name_en: String,
    pub display_name_vi: String,
    pub icon_path: String,
    pub quality: u8,
    pub attack_damage: u32,
    pub attack_damage_min: u32,
    pub attack_damage_max: u32,
    pub enhancement_level: u8,
    pub compatible: bool,
    pub equipped: bool,
    pub ruleset: String,
}

/// The Hunter info panel.
#[derive(Clone, Debug, PartialEq, Eq)]
pub struct HunterInfoSnapshot {
    pub characteristic_name: Option<String>,
    pub locked: Option<bool>,
    pub reincarnation: Option<HunterProgressSnapshot>,
    pub experience: Option<HunterProgressSnapshot>,
    pub status: HunterStatusSnapshot,
    pub equipment_slots: Option<Vec<HunterEquipmentSlotSnapshot>>,
    pub skills: Option<Vec<HunterInfoSkillSnapshot>>,
    pub growth: Option<HunterGrowthSnapshot>,
    pub riding_pet: Option<HunterRidingPetSnapshot>,
    pub materials: Option<Vec<HunterMaterialSnapshot>>,
    pub weapons: Vec<HunterWeaponSnapshot>,
}

/// One Hunter of the roster view, active or waiting, at `position` in its
/// line. The runtime-evidence section of the view carries floating-point
/// stats and is not part of this snapshot.
#[derive(Clone, Debug, PartialEq, Eq)]
pub struct HunterRosterMemberSnapshot {
    pub hunter_id: u32,
    pub display_name: String,
    pub portrait_asset_id: Option<String>,
    pub class_id: String,
    pub class_name: String,
    pub class_family: String,
    pub rarity_id: String,
    pub rarity_name: String,
    pub level: u32,
    pub xp: u64,
    pub gold: u64,
    pub current_hp: u64,
    pub max_hp: u64,
    pub stamina: u64,
    pub max_stamina: u64,
    pub satiety: u64,
    pub max_satiety: u64,
    pub mood: u64,
    pub max_mood: u64,
    pub attack: u64,
    pub defense: u64,
    pub action_state: String,
    pub animation: String,
    pub trait_name: Option<String>,
    pub traits: Vec<HunterTraitSnapshot>,
    pub skills: Vec<HunterSkillSnapshot>,
    pub hunt: HunterHuntSnapshot,
    pub hunter_info: HunterInfoSnapshot,
    pub gear_enhancements: Vec<GearEnhancementSnapshot>,
    pub gear_enhancement_task: Option<GearEnhancementTaskSnapshot>,
    pub roster_state: String,
    pub position: usize,
}

/// Progress shown from recorded progress.
pub open spec fn progress_of(p: DurableHunterProgress) -> HunterProgressSnapshot {
    HunterProgressSnapshot { current: p.current as u64, maximum: p.maximum as u64 }
}

/// Optional progress shown from optional recorded progress.
pub open spec fn progress_opt(p: Option<DurableHunterProgress>) -> Option<HunterProgressSnapshot> {
    match p {
        Some(v) => Some(progress_of(v)),
        None => None,
    }
}

fn show_progress(p: Option<DurableHunterProgress>) -> (shown: Option<HunterProgressSnapshot>)
    ensures
        shown == progress_opt(p),
{
    match p {
        Some(v) => Some(HunterProgressSnapshot { current: v.current as u64, maximum: v.maximum as u64 }),
        None => None,
    }
}

/// The catalog kind a weapon slot shows when it holds gear instance `id`.
pub open spec fn weapon_instance_kind(id: u128) -> Seq<char> {
    "rebuild_weapon_instance:"@ + id_text(id)
}

/// Whether a "weapon" slot holds gear instance `id`.
pub open spec fn weapon_slot_holds(slots: Seq<crate::roster::DurableEquipmentSlot>, id: u128) -> bool {
    exists|k: int| 0 <= k < slots.len() && (#[trigger] slots[k]).slot_id@ == "weapon"@ && slots[k].catalog_kind@
        == weapon_instance_kind(id)
}

/// An owned stack whose weapon is equipped and has a rolled damage.
pub open spec fn equipped_with_damage(profile: DurableHunterProfile) -> spec_fn(DurableHunterOwnedItem) -> bool {
    |item: DurableHunterOwnedItem|
        item.gear_instance_id matches Some(id) && weapon_slot_holds(profile.equipment_slots@, id) && item.primary_stat is Some
}

/// The damage of the Hunter's equipped rebuild weapon: the rolled damage of
/// the first owned gear whose instance a weapon slot holds, else 0.
pub open spec fn equipped_weapon_damage(hunter: DurableHunterState) -> u32 {
    match first_index(hunter.owned_items@, equipped_with_damage(hunter.profile)) {
        Some(k) => hunter.owned_items@[k].primary_stat.unwrap(),
        None => 0,
    }
}

/// The weapons-panel row of an owned stack, if it is a rolled rebuild
/// weapon the catalog knows: compatible when the weapon's visual family is
/// the Hunter's, equipped when a weapon slot holds the instance.
pub open spec fn weapon_row(item: DurableHunterOwnedItem, profile: DurableHunterProfile, catalog: WeaponCatalog) -> Option<
    HunterWeaponSnapshot,
> {
    match (item.gear_instance_id, weapon_definition_of(item.product_id@, catalog), item.quality, item.primary_stat, item.ruleset) {
        (Some(id), Some(d), Some(quality), Some(damage), Some(ruleset)) => Some(
            HunterWeaponSnapshot {
                gear_instance_id: id,
                product_id: item.product_id,
                weapon_id: d.weapon_id,
                display_name_en: d.display_name_en,
                display_name_vi: d.display_name_vi,
                icon_path: d.icon_path,
                quality,
                attack_damage: damage,
                attack_damage_min: d.attack_damage_min,
                attack_damage_max: d.attack_damage_max,
                enhancement_level: match item.enhancement_level {
                    Some(l) => l,
                    None => 0,
                },
                compatible: d.visual_family@ == profile.visual_family@,
                equipped: weapon_slot_holds(profile.equipment_slots@, id),
                ruleset,
            },
        ),
        _ => None,
    }
}

/// Two weapon rows agree, their strings compared by text.
pub open spec fn same_weapon_row(a: HunterWeaponSnapshot, b: HunterWeaponSnapshot) -> bool {
    &&& a.gear_instance_id == b.gear_instance_id
    &&& a.product_id@ == b.product_id@
    &&& a.weapon_id@ == b.weapon_id@
    &&& a.display_name_en@ == b.display_name_en@
    &&& a.display_name_vi@ == b.display_name_vi@
    &&& a.icon_path@ == b.icon_path@
    &&& a.quality == b.quality
    &&& a.attack_damage == b.attack_damage
    &&& a.attack_damage_min == b.attack_damage_min
    &&& a.attack_damage_max == b.attack_damage_max
    &&& a.enhancement_level == b.enhancement_level
    &&& a.compatible == b.compatible
    &&& a.equipped == b.equipped
    &&& a.ruleset@ == b.ruleset@
}

/// One weapons-panel row per owned rolled rebuild weapon, in ownership
/// order.
pub open spec fn weapon_rows_shown(
    rows: Seq<HunterWeaponSnapshot>,
    items: Seq<DurableHunterOwnedItem>,
    profile: DurableHunterProfile,
    catalog: WeaponCatalog,
) -> bool
    decreases items.len(),
{
    if items.len() == 0 {
        rows.len() == 0
    } else {
        match weapon_row(items.last(), profile, catalog) {
            None => weapon_rows_shown(rows, items.drop_last(), profile, catalog),
            Some(row) => rows.len() > 0 && same_weapon_row(rows.last(), row) && weapon_rows_shown(
                rows.drop_last(),
                items.drop_last(),
                profile,
                catalog,
            ),
        }
    }
}

/// The four basic-skill rows of a class: id, name, icon file and
/// description; any class but h1 to h4 previews the h5 skills.
pub open spec fn preview_catalog(class_id: Seq<char>) -> Seq<(Seq<char>, Seq<char>, Option<Seq<char>>, Seq<char>)> {
    if class_id == "h1"@ {
        seq![
            ("skill_h1_01"@, "Fury"@, Some("skills/skill_h1_01__1395.png"@), "Attacks quickly for a certain time and increases Attack Speed."@),
            ("skill_h1_02"@, "War Cry"@, Some("skills/skill_h1_02__5620.png"@), "Charge to enemy and Stun it."@),
        ]
    } else if class_id == "h2"@ {
        seq![
            ("skill_h2_01"@, "Holy Light"@, None, "Hits and provokes nearby enemies with holy power."@),
            ("skill_h2_02"@, "Barrier"@, None, "Defends against enemy attacks by summoning a barrier."@),
        ]
    } else if class_id == "h3"@ {
        seq![
            ("skill_h3_01"@, "Multishot"@, None, "Rapidly shoots multiple arrows."@),
            ("skill_h3_02"@, "Dodge"@, None, "Increases Evasion for a certain time."@),
        ]
    } else if class_id == "h4"@ {
        seq![
            ("skill_h4_01"@, "Thunderbolt"@, None, "Lightning inflicts damage to nearby enemies."@),
            ("skill_h4_02"@, "Ice Armor"@, None, "Enemy who attacked hunter will lose ATK SPD."@),
        ]
    } else {
        seq![
            ("skill_h5_01"@, "Round Slash"@, None, "Swing the spear horizontally to release energy, dealing damage to enemies nearby."@),
            ("skill_h5_02"@, "Concentrate"@, None, "Concentrate to increase the chance of dealing a critical strike."@),
        ]
    }
}

/// A learned skill with id `id`.
pub open spec fn skill_has_id(id: Seq<char>) -> spec_fn(DurableHunterSkill) -> bool {
    |skill: DurableHunterSkill| skill.skill_id@ == id
}

/// The folder the preview's skill icons live in.
pub open spec fn skill_icon_folder() -> Seq<char> {
    "/content/releases/evil-hunter-1.411/hunter-assets/ui/"@
}

/// The note added to every previewed skill's description.
pub open spec fn preview_note() -> Seq<char> {
    " Catalog definition; learned state remains server-owned."@
}

/// A preview row for a catalog entry: the entry's id, name, icon (in the
/// skill icon folder) and noted description in the "Basic Skills" group;
/// for a learned skill (the first with that id) its level, readiness and
/// cooldown, unlocked; otherwise an unresolved unlock requirement.
pub open spec fn preview_row_shown(
    row: HunterInfoSkillSnapshot,
    entry: (Seq<char>, Seq<char>, Option<Seq<char>>, Seq<char>),
    skills: Seq<DurableHunterSkill>,
) -> bool {
    &&& row.skill_id@ == entry.0
    &&& row.display_name@ == entry.1
    &&& match entry.2 {
        Some(icon) => row.icon_path matches Some(p) && p@ == skill_icon_folder() + icon,
        None => row.icon_path is None,
    }
    &&& row.description matches Some(d) && d@ == entry.3 + preview_note()
    &&& row.group matches Some(g) && g@ == "Basic Skills"@
    &&& match first_index(skills, skill_has_id(entry.0)) {
        Some(k) => {
            &&& row.level == Some(skills[k].skill_level)
            &&& row.unlocked == Some(true)
            &&& row.unlock_requirement is None
            &&& row.ready == Some(skills[k].ready)
            &&& row.cooldown_remaining_ms == Some(skills[k].cooldown_remaining_ms)
        },
        None => {
            &&& row.level is None
            &&& row.unlocked is None
            &&& row.unlock_requirement matches Some(u) && u@ == "Learned-state fixture unresolved"@
            &&& row.ready is None
            &&& row.cooldown_remaining_ms is None
        },
    }
}

/// The basic-skill preview of a Hunter: one row per catalog entry of its
/// class, in catalog order.
pub open spec fn preview_shown(rows: Seq<HunterInfoSkillSnapshot>, profile: DurableHunterProfile) -> bool {
    let catalog = preview_catalog(profile.class_id@);
    &&& rows.len() == catalog.len()
    &&& forall|k: int| 0 <= k < catalog.len() ==> #[trigger] preview_row_shown(rows[k], catalog[k], profile.skills@)
}

/// A trait row for a trait.
pub open spec fn trait_row_shown(row: HunterTraitSnapshot, t: DurableHunterTrait) -> bool {
    &&& row.trait_id@ == t.trait_id@
    &&& row.display_name@ == t.display_name@
    &&& row.icon_path@ == t.icon_path@
    &&& row.unlocked_rank == t.unlocked_rank
    &&& row.equipped == t.equipped
}

/// The equipped trait.
pub open spec fn trait_equipped() -> spec_fn(DurableHunterTrait) -> bool {
    |t: DurableHunterTrait| t.equipped
}

/// The whole roster member view of `hunter` at `position` of the line
/// `roster_state`: identity and gauges as held; attack the profile attack
/// plus the equipped weapon's damage (saturating); the equipped trait's
/// name; traits, skills, gear enhancements and the visit as their own
/// views; a hunt panel whose status reads "idle" when the hunt is idle;
/// the info panel with recorded stats, experience toward the next level,
/// reincarnation and awakening progress, slots, the class skill preview, no
/// growth tree, an empty riding pet once its state is resolved, the carried
/// materials and the owned rebuild weapons.
pub open spec fn member_shown(
    member: HunterRosterMemberSnapshot,
    hunter: DurableHunterState,
    roster_state: Seq<char>,
    position: usize,
    required_ticks: u32,
    weapons: WeaponCatalog,
) -> bool {
    let profile = hunter.profile;
    let info = member.hunter_info;
    &&& member.hunter_id == hunter.hunter_id
    &&& member.display_name@ == profile.display_name@
    &&& crate::persistence::same_text(member.portrait_asset_id, profile.portrait_asset_id)
    &&& member.class_id@ == profile.class_id@
    &&& member.class_name@ == profile.class_name@
    &&& member.class_family@ == profile.visual_family@
    &&& member.rarity_id@ == profile.rarity_id@
    &&& member.rarity_name@ == profile.rarity_name@
    &&& member.level == profile.level
    &&& member.xp == profile.xp
    &&& member.gold == hunter.gold
    &&& member.current_hp == hunter.current_hp
    &&& member.max_hp == hunter.max_hp
    &&& member.stamina == hunter.stamina.current
    &&& member.max_stamina == hunter.stamina.maximum
    &&& member.satiety == hunter.satiety.current
    &&& member.max_satiety == hunter.satiety.maximum
    &&& member.mood == hunter.mood.current
    &&& member.max_mood == hunter.mood.maximum
    &&& member.attack == profile.attack.saturating_add(equipped_weapon_damage(hunter) as u64)
    &&& member.defense == profile.defense
    &&& member.action_state@ == profile.action_state@
    &&& member.animation@ == profile.animation_name@
    &&& match first_index(profile.traits@, trait_equipped()) {
        Some(k) => member.trait_name matches Some(n) && n@ == profile.traits@[k].display_name@,
        None => member.trait_name is None,
    }
    &&& member.traits@.len() == profile.traits@.len()
    &&& forall|k: int| 0 <= k < profile.traits@.len() ==> #[trigger] trait_row_shown(member.traits@[k], profile.traits@[k])
    &&& member.skills@.len() == profile.skills@.len()
    &&& forall|k: int| 0 <= k < profile.skills@.len() ==> #[trigger] skill_row_shown(member.skills@[k], profile.skills@[k])
    &&& member.hunt.status@ == (if hunt_is_idle(hunter.hunt) { "idle"@ } else { hunter.hunt.status@ })
    &&& crate::persistence::same_text(member.hunt.zone_id, hunter.hunt.zone_id)
    &&& member.hunt.progress_ticks == hunter.hunt.progress_ticks
    &&& member.hunt.required_ticks == required_ticks
    &&& member.hunt.loot@.len() == hunter.hunt.loot@.len()
    &&& forall|k: int|
        0 <= k < hunter.hunt.loot@.len() ==> (#[trigger] member.hunt.loot@[k]).item_id@ == hunter.hunt.loot@[k].item_id@
            && member.hunt.loot@[k].quantity == hunter.hunt.loot@[k].quantity
    &&& member.hunt.ruleset@ == "web-rebuild-v1-fixture"@
    &&& crate::persistence::same_text(info.characteristic_name, profile.characteristic_name)
    &&& info.locked == profile.is_locked
    &&& info.reincarnation == progress_opt(profile.reincarnation)
    &&& info.experience == (match profile.xp_to_next_level {
        Some(maximum) => Some(HunterProgressSnapshot { current: profile.xp, maximum }),
        None => None,
    })
    &&& info.status == (HunterStatusSnapshot {
        dps_milli: profile.dps_milli,
        critical_rate_bps: profile.critical_rate_bps,
        attack_speed_milli: profile.attack_speed_milli,
        evasion_rate_bps: profile.evasion_rate_bps,
        awakening: progress_opt(profile.awakening),
    })
    &&& info.equipment_slots matches Some(slots) && slots@.len() == profile.equipment_slots@.len() && (forall|k: int|
        0 <= k < profile.equipment_slots@.len() ==> #[trigger] slot_row_shown(slots@[k], profile.equipment_slots@[k]))
    &&& info.skills matches Some(preview) && preview_shown(preview@, profile)
    &&& info.growth is None
    &&& info.riding_pet == (if profile.riding_pet_state_resolved {
        Some(HunterRidingPetSnapshot::Empty { mounted: false, can_move_to_ranch: false })
    } else {
        None
    })
    &&& info.materials matches Some(materials) && material_rows_shown(materials@, hunter.hunt.loot@)
    &&& weapon_rows_shown(info.weapons@, hunter.owned_items@, profile, weapons)
    &&& gear_rows_shown(member.gear_enhancements@, hunter.owned_items@)
    &&& match hunter.hunt.gear_enhancement {
        Some(task) => member.gear_enhancement_task matches Some(t) && task_shown(t, task),
        None => member.gear_enhancement_task is None,
    }
    &&& member.roster_state@ == roster_state
    &&& member.position == position
}

/// The catalog kind of a weapon slot that holds gear instance `id`.
fn weapon_instance_kind_text(id: u128) -> (kind: String)
    ensures
        kind@ == weapon_instance_kind(id),
{
    let mut chars: Vec<char> = Vec::new();
    append_str(&mut chars, "rebuild_weapon_instance:");
    let text = id_to_text(id);
    append_str(&mut chars, text.as_str());
    string_from_chars(&chars)
}

/// Whether a "weapon" slot holds gear instance `id`.
fn slot_holds_weapon(slots: &Vec<crate::roster::DurableEquipmentSlot>, id: u128) -> (holds: bool)
    ensures
        holds == weapon_slot_holds(slots@, id),
{
    let kind = weapon_instance_kind_text(id);
    let mut k: usize = 0;
    while k < slots.len()
        invariant
            0 <= k <= slots@.len(),
            kind@ == weapon_instance_kind(id),
            forall|j: int|
                0 <= j < k ==> !((#[trigger] slots@[j]).slot_id@ == "weapon"@ && slots@[j].catalog_kind@
                    == weapon_instance_kind(id)),
        decreases slots@.len() - k,
    {
        if str_eq(slots[k].slot_id.as_str(), "weapon") && str_eq(slots[k].catalog_kind.as_str(), kind.as_str()) {
            return true;
        }
        k = k + 1;
    }
    false
}

/// The damage of the Hunter's equipped rebuild weapon (see
/// [`equipped_weapon_damage`]).
pub fn equipped_weapon_attack_damage(hunter: &DurableHunterState) -> (damage: u32)
    ensures
        damage == equipped_weapon_damage(*hunter),
{
    let items = &hunter.owned_items;
    let ghost p = equipped_with_damage(hunter.profile);
    let mut k: usize = 0;
    while k < items.len()
        invariant
            0 <= k <= items@.len(),
            items@ == hunter.owned_items@,
            p == equipped_with_damage(hunter.profile),
            forall|j: int| 0 <= j < k ==> !p(#[trigger] items@[j]),
        decreases items@.len() - k,
    {
        let item = &items[k];
        if let Some(id) = item.gear_instance_id {
            if let Some(damage) = item.primary_stat {
                if slot_holds_weapon(&hunter.profile.equipment_slots, id) {
                    proof {
                        lemma_first_index_is(items@, p, k as int);
                    }
                    return damage;
                }
            }
        }
        k = k + 1;
    }
    proof {
        lemma_first_index_none(items@, p);
    }
    0
}

/// The weapons-panel row of an owned stack (see [`weapon_row`]).
fn weapon_snapshot(item: &DurableHunterOwnedItem, profile: &DurableHunterProfile, catalog: &WeaponCatalog) -> (row: Option<
    HunterWeaponSnapshot,
>)
    ensures
        match weapon_row(*item, *profile, *catalog) {
            Some(expected) => row matches Some(r) && same_weapon_row(r, expected),
            None => row is None,
        },
{
    let id = match item.gear_instance_id {
        Some(id) => id,
        None => {
            return None;
        },
    };
    let definition = match rebuild_weapon_definition(item.product_id.as_str(), catalog) {
        Some(d) => d,
        None => {
            return None;
        },
    };
    let quality = match item.quality {
        Some(q) => q,
        None => {
            return None;
        },
    };
    let damage = match item.primary_stat {
        Some(d) => d,
        None => {
            return None;
        },
    };
    let ruleset = match &item.ruleset {
        Some(r) => r.clone(),
        None => {
            return None;
        },
    };
    let compatible = str_eq(definition.visual_family.as_str(), profile.visual_family.as_str());
    let equipped = slot_holds_weapon(&profile.equipment_slots, id);
    Some(
        HunterWeaponSnapshot {
            gear_instance_id: id,
            product_id: item.product_id.clone(),
            weapon_id: definition.weapon_id,
            display_name_en: definition.display_name_en,
            display_name_vi: definition.display_name_vi,
            icon_path: definition.icon_path,
            quality,
            attack_damage: damage,
            attack_damage_min: definition.attack_damage_min,
            attack_damage_max: definition.attack_damage_max,
            enhancement_level: match item.enhancement_level {
                Some(l) => l,
                None => 0,
            },
            compatible,
            equipped,
            ruleset,
        },
    )
}

/// The weapons panel of a Hunter (see [`weapon_rows_shown`]).
pub fn weapon_snapshots(hunter: &DurableHunterState, catalog: &WeaponCatalog) -> (rows: Vec<HunterWeaponSnapshot>)
    ensures
        weapon_rows_shown(rows@, hunter.owned_items@, hunter.profile, *catalog),
{
    let items = &hunter.owned_items;
    let mut rows: Vec<HunterWeaponSnapshot> = Vec::new();
    let mut i: usize = 0;
    while i < items.len()
        invariant
            0 <= i <= items@.len(),
            items@ == hunter.owned_items@,
            weapon_rows_shown(rows@, items@.take(i as int), hunter.profile, *catalog),
        decreases items@.len() - i,
    {
        let ghost before = rows@;
        assert(items@.take(i + 1).drop_last() =~= items@.take(i as int));
        assert(items@.take(i + 1).last() == items@[i as int]);
        match weapon_snapshot(&items[i], &hunter.profile, catalog) {
            Some(row) => {
                rows.push(row);
                assert(rows@.drop_last() =~= before);
            },
            None => {},
        }
        i = i + 1;
    }
    assert(items@.take(items@.len() as int) =~= items@);
    rows
}

/// The index of the first learned skill with id `skill_id`, if any.
fn find_learned_skill(skills: &Vec<DurableHunterSkill>, skill_id: &str) -> (found: Option<usize>)
    ensures
        match found {
            Some(k) => k < skills@.len() && first_index(skills@, skill_has_id(skill_id@)) == Some(k as int),
            None => first_index(skills@, skill_has_id(skill_id@)) is None,
        },
{
    let ghost p = skill_has_id(skill_id@);
    let mut k: usize = 0;
    while k < skills.len()
        invariant
            0 <= k <= skills@.len(),
            p == skill_has_id(skill_id@),
            forall|j: int| 0 <= j < k ==> !p(#[trigger] skills@[j]),
        decreases skills@.len() - k,
    {
        if str_eq(skills[k].skill_id.as_str(), skill_id) {
            proof {
                lemma_first_index_is(skills@, p, k as int);
            }
            return Some(k);
        }
        k = k + 1;
    }
    proof {
        lemma_first_index_none(skills@, p);
    }
    None
}

/// A preview row for one catalog entry (see [`preview_row_shown`]).
fn preview_row(
    skills: &Vec<DurableHunterSkill>,
    skill_id: &str,
    display_name: &str,
    icon: Option<&str>,
    description: &str,
) -> (row: HunterInfoSkillSnapshot)
    ensures
        preview_row_shown(
            row,
            (
                skill_id@,
                display_name@,
                match icon {
                    Some(i) => Some(i@),
                    None => None,
                },
                description@,
            ),
            skills@,
        ),
{
    let learned = find_learned_skill(skills, skill_id);
    let icon_path = match icon {
        Some(i) => {
            let mut chars: Vec<char> = Vec::new();
            append_str(&mut chars, "/content/releases/evil-hunter-1.411/hunter-assets/ui/");
            append_str(&mut chars, i);
            Some(string_from_chars(&chars))
        },
        None => None,
    };
    let mut text: Vec<char> = Vec::new();
    append_str(&mut text, description);
    append_str(&mut text, " Catalog definition; learned state remains server-owned.");
    let description = Some(string_from_chars(&text));
    match learned {
        Some(k) => HunterInfoSkillSnapshot {
            skill_id: skill_id.to_owned(),
            display_name: display_name.to_owned(),
            icon_path,
            level: Some(skills[k].skill_level),
            description,
            group: Some("Basic Skills".to_owned()),
            unlocked: Some(true),
            unlock_requirement: None,
            ready: Some(skills[k].ready),
            cooldown_remaining_ms: Some(skills[k].cooldown_remaining_ms),
        },
        None => HunterInfoSkillSnapshot {
            skill_id: skill_id.to_owned(),
            display_name: display_name.to_owned(),
            icon_path,
            level: None,
            description,
            group: Some("Basic Skills".to_owned()),
            unlocked: None,
            unlock_requirement: Some("Learned-state fixture unresolved".to_owned()),
            ready: None,
            cooldown_remaining_ms: None,
        },
    }
}

/// The basic-skill preview of a Hunter's class (see [`preview_shown`]).
pub fn hunter_skill_catalog_preview(hunter: &DurableHunterState) -> (rows: Vec<HunterInfoSkillSnapshot>)
    ensures
        preview_shown(rows@, hunter.profile),
{
    let skills = &hunter.profile.skills;
    let class_id = hunter.profile.class_id.as_str();
    let (first, second) = if str_eq(class_id, "h1") {
        (
            preview_row(skills, "skill_h1_01", "Fury", Some("skills/skill_h1_01__1395.png"), "Attacks quickly for a certain time and increases Attack Speed."),
            preview_row(skills, "skill_h1_02", "War Cry", Some("skills/skill_h1_02__5620.png"), "Charge to enemy and Stun it."),
        )
    } else if str_eq(class_id, "h2") {
        (
            preview_row(skills, "skill_h2_01", "Holy Light", None, "Hits and provokes nearby enemies with holy power."),
            preview_row(skills, "skill_h2_02", "Barrier", None, "Defends against enemy attacks by summoning a barrier."),
        )
    } else if str_eq(class_id, "h3") {
        (
            preview_row(skills, "skill_h3_01", "Multishot", None, "Rapidly shoots multiple arrows."),
            preview_row(skills, "skill_h3_02", "Dodge", None, "Increases Evasion for a certain time."),
        )
    } else if str_eq(class_id, "h4") {
        (
            preview_row(skills, "skill_h4_01", "Thunderbolt", None, "Lightning inflicts damage to nearby enemies."),
            preview_row(skills, "skill_h4_02", "Ice Armor", None, "Enemy who attacked hunter will lose ATK SPD."),
        )
    } else {
        (
            preview_row(skills, "skill_h5_01", "Round Slash", None, "Swing the spear horizontally to release energy, dealing damage to enemies nearby."),
            preview_row(skills, "skill_h5_02", "Concentrate", None, "Concentrate to increase the chance of dealing a critical strike."),
        )
    };
    let mut rows: Vec<HunterInfoSkillSnapshot> = Vec::new();
    rows.push(first);
    rows.push(second);
    rows
}

/// The trait rows of a Hunter, in order.
fn trait_snapshots(traits: &Vec<DurableHunterTrait>) -> (rows: Vec<HunterTraitSnapshot>)
    ensures
        rows@.len() == traits@.len(),
        forall|k: int| 0 <= k < traits@.len() ==> #[trigger] trait_row_shown(rows@[k], traits@[k]),
{
    let mut rows: Vec<HunterTraitSnapshot> = Vec::new();
    let mut i: usize = 0;
    while i < traits.len()
        invariant
            0 <= i <= traits@.len(),
            rows@.len() == i,
            forall|k: int| 0 <= k < i ==> #[trigger] trait_row_shown(rows@[k], traits@[k]),
        decreases traits@.len() - i,
    {
        let t = &traits[i];
        rows.push(
            HunterTraitSnapshot {
                trait_id: t.trait_id.clone(),
                display_name: t.display_name.clone(),
                icon_path: t.icon_path.clone(),
                unlocked_rank: t.unlocked_rank,
                equipped: t.equipped,
            },
        );
        i = i + 1;
    }
    rows
}

/// The name of the Hunter's equipped trait, if any.
fn equipped_trait_name(traits: &Vec<DurableHunterTrait>) -> (name: Option<String>)
    ensures
        match first_index(traits@, trait_equipped()) {
            Some(k) => name matches Some(n) && n@ == traits@[k].display_name@,
            None => name is None,
        },
{
    let mut k: usize = 0;
    while k < traits.len()
        invariant
            0 <= k <= traits@.len(),
            forall|j: int| 0 <= j < k ==> !trait_equipped()(#[trigger] traits@[j]),
        decreases traits@.len() - k,
    {
        if traits[k].equipped {
            proof {
                lemma_first_index_is(traits@, trait_equipped(), k as int);
            }
            return Some(traits[k].display_name.clone());
        }
        k = k + 1;
    }
    proof {
        lemma_first_index_none(traits@, trait_equipped());
    }
    None
}

/// The roster member view of `hunter` at `position` of the line
/// `roster_state` (see [`member_shown`]); `required_ticks` is the length of
/// a hunt that the hunt panel counts toward.
pub fn hunter_roster_member(
    hunter: &DurableHunterState,
    roster_state: &str,
    position: usize,
    required_ticks: u32,
    weapons: &WeaponCatalog,
) -> (member: HunterRosterMemberSnapshot)
    ensures
        member_shown(member, *hunter, roster_state@, position, required_ticks, *weapons),
{
    let profile = &hunter.profile;
    let hunt_status = if hunter.hunt.is_idle() {
        "idle".to_owned()
    } else {
        hunter.hunt.status.clone()
    };
    let experience = match profile.xp_to_next_level {
        Some(maximum) => Some(HunterProgressSnapshot { current: profile.xp, maximum }),
        None => None,
    };
    let riding_pet = if profile.riding_pet_state_resolved {
        Some(HunterRidingPetSnapshot::Empty { mounted: false, can_move_to_ranch: false })
    } else {
        None
    };
    let gear_enhancement_task = match &hunter.hunt.gear_enhancement {
        Some(task) => Some(gear_enhancement_task_snapshot(task)),
        None => None,
    };
    HunterRosterMemberSnapshot {
        hunter_id: hunter.hunter_id,
        display_name: profile.display_name.clone(),
        portrait_asset_id: crate::persistence::copy_text(&profile.portrait_asset_id),
        class_id: profile.class_id.clone(),
        class_name: profile.class_name.clone(),
        class_family: profile.visual_family.clone(),
        rarity_id: profile.rarity_id.clone(),
        rarity_name: profile.rarity_name.clone(),
        level: profile.level,
        xp: profile.xp,
        gold: hunter.gold,
        current_hp: hunter.current_hp,
        max_hp: hunter.max_hp,
        stamina: hunter.stamina.current,
        max_stamina: hunter.stamina.maximum,
        satiety: hunter.satiety.current,
        max_satiety: hunter.satiety.maximum,
        mood: hunter.mood.current,
        max_mood: hunter.mood.maximum,
        attack: profile.attack.saturating_add(equipped_weapon_attack_damage(hunter) as u64),
        defense: profile.defense,
        action_state: profile.action_state.clone(),
        animation: profile.animation_name.clone(),
        trait_name: equipped_trait_name(&profile.traits),
        traits: trait_snapshots(&profile.traits),
        skills: skill_snapshots(&profile.skills),
        hunt: HunterHuntSnapshot {
            status: hunt_status,
            zone_id: crate::persistence::copy_text(&hunter.hunt.zone_id),
            progress_ticks: hunter.hunt.progress_ticks,
            required_ticks,
            loot: loot_snapshots(&hunter.hunt.loot),
            ruleset: "web-rebuild-v1-fixture",
        },
        hunter_info: HunterInfoSnapshot {
            characteristic_name: crate::persistence::copy_text(&profile.characteristic_name),
            locked: profile.is_locked,
            reincarnation: show_progress(profile.reincarnation),
            experience,
            status: HunterStatusSnapshot {
                dps_milli: profile.dps_milli,
                critical_rate_bps: profile.critical_rate_bps,
                attack_speed_milli: profile.attack_speed_milli,
                evasion_rate_bps: profile.evasion_rate_bps,
                awakening: show_progress(profile.awakening),
            },
            equipment_slots: Some(equipment_slot_snapshots(&profile.equipment_slots)),
            skills: Some(hunter_skill_catalog_preview(hunter)),
            growth: None,
            riding_pet,
            materials: Some(material_snapshots(&hunter.hunt.loot)),
            weapons: weapon_snapshots(hunter, weapons),
        },
        gear_enhancements: gear_enhancement_snapshots(&hunter.owned_items),
        gear_enhancement_task,
        roster_state: roster_state.to_owned(),
        position,
    }
}

} // verus!
