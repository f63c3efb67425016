use vstd::prelude::*;

use crate::product_service::{restored_value, HunterServiceGauge, ServiceEffectKind};
use crate::text::str_eq;

verus! {

/// One stack of hunt loot carried by a Hunter.
#[derive(Clone, Debug, PartialEq, Eq)]
pub struct DurableHunterLoot {
    pub item_id: String,
    pub quantity: u32,
}

/// An item a Hunter owns: a consumable stack or one individually rolled gear.
#[derive(Clone, Debug, PartialEq, Eq)]
pub struct DurableHunterOwnedItem {
    pub product_id: String,
    pub quantity: u32,
    pub enhancement_level: Option<u8>,
    pub gear_instance_id: Option<u128>,
    pub quality: Option<u8>,
    pub primary_stat: Option<u32>,
    pub option_type: Option<u8>,
    pub option_value: Option<u16>,
    pub ruleset: Option<String>,
}

/// A learned Hunter skill and its cooldown.
#[derive(Clone, Debug, PartialEq, Eq)]
pub struct DurableHunterSkill {
    pub skill_id: String,
    pub display_name: String,
    pub icon_path: Option<String>,
    pub animation_name: Option<String>,
    pub skill_level: u8,
    pub equipped_slot: Option<u8>,
    pub ready: bool,
    pub cooldown_remaining_ms: u64,
}

/// One equipment slot of a Hunter.
#[derive(Clone, Debug, PartialEq, Eq)]
pub struct DurableEquipmentSlot {
    pub slot_id: String,
    pub catalog_kind: String,
    pub catalog_index: u32,
    pub display_name: String,
    pub icon_path: String,
    pub presentation_gender: String,
    pub required_class_id: Option<String>,
    pub locked: bool,
    pub evidence_state: String,
}

/// A trait a Hunter has unlocked, and whether it is the equipped one.
#[derive(Clone, Debug, PartialEq, Eq)]
pub struct DurableHunterTrait {
    pub trait_id: String,
    pub display_name: String,
    pub icon_path: String,
    pub unlocked_rank: u8,
    pub equipped: bool,
}

/// Progress toward a maximum (reincarnation, awakening).
#[derive(Clone, Copy, Debug, PartialEq, Eq, Structural)]
pub struct DurableHunterProgress {
    pub current: u32,
    pub maximum: u32,
}

/// Identity, progression, stats and presentation state of a Hunter.
#[derive(Clone, Debug, PartialEq, Eq)]
pub struct DurableHunterProfile {
    pub display_name: String,
    pub portrait_asset_id: Option<String>,
    pub class_id: String,
    pub class_name: String,
    pub visual_family: String,
    pub rarity_id: String,
    pub rarity_name: String,
    pub level: u32,
    pub xp: u64,
    pub xp_to_next_level: Option<u64>,
    pub attack: u64,
    pub defense: u64,
    pub action_state: String,
    pub animation_name: String,
    pub traits: Vec<DurableHunterTrait>,
    pub skills: Vec<DurableHunterSkill>,
    pub equipment_slots: Vec<DurableEquipmentSlot>,
    pub characteristic_name: Option<String>,
    pub is_locked: Option<bool>,
    pub reincarnation: Option<DurableHunterProgress>,
    pub dps_milli: Option<u64>,
    pub critical_rate_bps: Option<u32>,
    pub attack_speed_milli: Option<u32>,
    pub evasion_rate_bps: Option<u32>,
    pub awakening: Option<DurableHunterProgress>,
    pub riding_pet_state_resolved: bool,
}

/// Two profiles agree on everything but the presentation strings, the
/// skills and the equipment slots: identity, class, progression, traits
/// and stats.
pub open spec fn same_profile_record(a: DurableHunterProfile, b: DurableHunterProfile) -> bool {
    &&& a.display_name == b.display_name
    &&& a.portrait_asset_id == b.portrait_asset_id
    &&& a.class_id == b.class_id
    &&& a.class_name == b.class_name
    &&& a.visual_family == b.visual_family
    &&& a.rarity_id == b.rarity_id
    &&& a.rarity_name == b.rarity_name
    &&& a.level == b.level
    &&& a.xp == b.xp
    &&& a.xp_to_next_level == b.xp_to_next_level
    &&& a.attack == b.attack
    &&& a.defense == b.defense
    &&& a.traits == b.traits
    &&& a.characteristic_name == b.characteristic_name
    &&& a.is_locked == b.is_locked
    &&& a.reincarnation == b.reincarnation
    &&& a.dps_milli == b.dps_milli
    &&& a.critical_rate_bps == b.critical_rate_bps
    &&& a.attack_speed_milli == b.attack_speed_milli
    &&& a.evasion_rate_bps == b.evasion_rate_bps
    &&& a.awakening == b.awakening
    &&& a.riding_pet_state_resolved == b.riding_pet_state_resolved
}

/// A Hunter's pending walk to the Trading Post to sell loot.
#[derive(Clone, Debug, PartialEq, Eq)]
pub struct DurableHunterTradeTask {
    pub workflow_version: u32,
    pub command_id: u128,
    pub requested_only: bool,
    pub building_instance_id: String,
    pub interaction_x: i32,
    pub interaction_y: i32,
}

/// Phase of a gear enhancement visit.
#[derive(Clone, Copy, Debug, PartialEq, Eq, Structural)]
pub enum GearEnhancementTaskStatus {
    Traveling,
    WaitingForInteraction,
    Configuring,
    Processing,
    Result,
}

/// One enhancement attempt of a visit: the level before and after, whether
/// it succeeded, and what it cost.
#[derive(Clone, Debug, PartialEq, Eq)]
pub struct DurableGearEnhancementAttempt {
    pub attempt: u32,
    pub starting_level: u8,
    pub resulting_level: u8,
    pub succeeded: bool,
    pub gold_spent: u64,
    pub materials_spent: Vec<DurableHunterLoot>,
}

/// A Hunter's gear enhancement visit: where and how far it is, what was
/// chosen at the Forge, the attempts made and what they cost, and the
/// bindings the visit waits for.
#[derive(Clone, Debug, PartialEq, Eq)]
pub struct DurableGearEnhancementTask {
    pub workflow_version: u32,
    pub building_instance_id: String,
    pub status: GearEnhancementTaskStatus,
    pub interaction_x: i32,
    pub interaction_y: i32,
    pub selected_gear_instance_id: Option<u128>,
    pub selected_product_id: Option<String>,
    pub mode: Option<String>,
    pub target_level: Option<u8>,
    pub optional_material_ids: Vec<String>,
    pub attempts: Vec<DurableGearEnhancementAttempt>,
    pub spent_gold: u64,
    pub spent_materials: Vec<DurableHunterLoot>,
    pub final_level: Option<u8>,
    pub stop_reason: Option<String>,
    pub blockers: Vec<String>,
}

/// A Hunter's hunting assignment and what it carries.
#[derive(Clone, Debug, PartialEq, Eq)]
pub struct DurableHunterHunt {
    pub zone_id: Option<String>,
    pub status: String,
    pub progress_ticks: u32,
    pub loot: Vec<DurableHunterLoot>,
    pub pending_trade: Option<DurableHunterTradeTask>,
    pub gear_enhancement: Option<DurableGearEnhancementTask>,
    pub healing_potion_cooldown_ms: u64,
}

/// The durable state of one Hunter.
#[derive(Clone, Debug, PartialEq, Eq)]
pub struct DurableHunterState {
    pub hunter_id: u32,
    pub profile: DurableHunterProfile,
    pub hunt: DurableHunterHunt,
    pub gold: u64,
    pub current_hp: u64,
    pub max_hp: u64,
    pub stamina: HunterServiceGauge,
    pub satiety: HunterServiceGauge,
    pub mood: HunterServiceGauge,
    pub owned_items: Vec<DurableHunterOwnedItem>,
}

/// A Hunter waiting for an active roster slot.
#[derive(Clone, Debug, PartialEq, Eq)]
pub struct DurableWaitingHunter {
    pub hunter: DurableHunterState,
}

/// A processed command id and the action it carried, for idempotent replay.
#[derive(Clone, Debug, PartialEq, Eq)]
pub struct HuntCommandRecord {
    pub command_id: u128,
    pub key: String,
}

/// The town's Hunters.
#[derive(Clone, Debug, PartialEq, Eq)]
pub struct DurableHunterRosterState {
    pub roster_resolved: bool,
    pub wallets_resolved: bool,
    pub hunters: Vec<DurableHunterState>,
    pub waiting_queue: Vec<DurableWaitingHunter>,
    pub hunt_commands: Vec<HuntCommandRecord>,
}

impl Default for DurableHunterProfile {
    /// A nameless level-0 profile of no class, idle, with no traits, skills,
    /// slots or recorded stats.
    fn default() -> (profile: Self)
        ensures
            profile.display_name@.len() == 0,
            profile.portrait_asset_id is None,
            profile.class_id@.len() == 0,
            profile.class_name@.len() == 0,
            profile.visual_family@.len() == 0,
            profile.rarity_id@.len() == 0,
            profile.rarity_name@.len() == 0,
            profile.level == 0,
            profile.xp == 0,
            profile.xp_to_next_level is None,
            profile.attack == 0,
            profile.defense == 0,
            profile.action_state@ == "idle"@,
            profile.animation_name@ == "hunter_stay"@,
            profile.traits@.len() == 0,
            profile.skills@.len() == 0,
            profile.equipment_slots@.len() == 0,
            profile.characteristic_name is None,
            profile.is_locked is None,
            profile.reincarnation is None,
            profile.dps_milli is None,
            profile.critical_rate_bps is None,
            profile.attack_speed_milli is None,
            profile.evasion_rate_bps is None,
            profile.awakening is None,
            !profile.riding_pet_state_resolved,
    {
        DurableHunterProfile {
            display_name: String::new(),
            portrait_asset_id: None,
            class_id: String::new(),
            class_name: String::new(),
            visual_family: String::new(),
            rarity_id: String::new(),
            rarity_name: String::new(),
            level: 0,
            xp: 0,
            xp_to_next_level: None,
            attack: 0,
            defense: 0,
            action_state: "idle".to_owned(),
            animation_name: "hunter_stay".to_owned(),
            traits: Vec::new(),
            skills: Vec::new(),
            equipment_slots: Vec::new(),
            characteristic_name: None,
            is_locked: None,
            reincarnation: None,
            dps_milli: None,
            critical_rate_bps: None,
            attack_speed_milli: None,
            evasion_rate_bps: None,
            awakening: None,
            riding_pet_state_resolved: false,
        }
    }
}

impl Default for DurableHunterHunt {
    /// An idle hunt: no zone, nothing carried, no task, no cooldown.
    fn default() -> (hunt: Self)
        ensures
            hunt.zone_id is None,
            hunt.status@ == "idle"@,
            hunt.progress_ticks == 0,
            hunt.loot@.len() == 0,
            hunt.pending_trade is None,
            hunt.gear_enhancement is None,
            hunt.healing_potion_cooldown_ms == 0,
    {
        DurableHunterHunt {
            zone_id: None,
            status: "idle".to_owned(),
            progress_ticks: 0,
            loot: Vec::new(),
            pending_trade: None,
            gear_enhancement: None,
            healing_potion_cooldown_ms: 0,
        }
    }
}

impl Default for DurableGearEnhancementTask {
    /// A task of no workflow version, traveling to no building.
    fn default() -> (task: Self)
        ensures
            task.workflow_version == 0,
            task.building_instance_id@.len() == 0,
            task.status == GearEnhancementTaskStatus::Traveling,
            task.interaction_x == 0 && task.interaction_y == 0,
            task.selected_gear_instance_id is None,
            task.selected_product_id is None,
            task.mode is None,
            task.target_level is None,
            task.optional_material_ids@.len() == 0,
            task.attempts@.len() == 0,
            task.spent_gold == 0,
            task.spent_materials@.len() == 0,
            task.final_level is None,
            task.stop_reason is None,
            task.blockers@.len() == 0,
    {
        DurableGearEnhancementTask {
            workflow_version: 0,
            building_instance_id: String::new(),
            status: GearEnhancementTaskStatus::Traveling,
            interaction_x: 0,
            interaction_y: 0,
            selected_gear_instance_id: None,
            selected_product_id: None,
            mode: None,
            target_level: None,
            optional_material_ids: Vec::new(),
            attempts: Vec::new(),
            spent_gold: 0,
            spent_materials: Vec::new(),
            final_level: None,
            stop_reason: None,
            blockers: Vec::new(),
        }
    }
}

impl Default for DurableHunterOwnedItem {
    /// An empty stack of no product, with no rolled gear fields.
    fn default() -> (item: Self)
        ensures
            item.product_id@.len() == 0,
            item.quantity == 0,
            item.enhancement_level is None && item.gear_instance_id is None,
            item.quality is None && item.primary_stat is None,
            item.option_type is None && item.option_value is None,
            item.ruleset is None,
    {
        DurableHunterOwnedItem {
            product_id: String::new(),
            quantity: 0,
            enhancement_level: None,
            gear_instance_id: None,
            quality: None,
            primary_stat: None,
            option_type: None,
            option_value: None,
            ruleset: None,
        }
    }
}

impl Default for DurableHunterTradeTask {
    /// A task of no workflow version, no command and no building.
    fn default() -> (task: Self)
        ensures
            task.workflow_version == 0,
            task.command_id == 0,
            !task.requested_only,
            task.building_instance_id@.len() == 0,
            task.interaction_x == 0 && task.interaction_y == 0,
    {
        DurableHunterTradeTask {
            workflow_version: 0,
            command_id: 0,
            requested_only: false,
            building_instance_id: String::new(),
            interaction_x: 0,
            interaction_y: 0,
        }
    }
}

impl Default for DurableHunterRosterState {
    /// An unresolved, empty roster.
    fn default() -> (roster: Self)
        ensures
            !roster.roster_resolved && !roster.wallets_resolved,
            roster.hunters@.len() == 0,
            roster.waiting_queue@.len() == 0,
            roster.hunt_commands@.len() == 0,
    {
        DurableHunterRosterState {
            roster_resolved: false,
            wallets_resolved: false,
            hunters: Vec::new(),
            waiting_queue: Vec::new(),
            hunt_commands: Vec::new(),
        }
    }
}

/// Active roster slots of a town; further Hunters wait in line.
pub const MAX_ACTIVE_TOWN_HUNTERS: usize = 8;

/// Version of the walk-to-trade task this library writes.
pub const HUNTER_TRADE_WORKFLOW_VERSION: u32 = 1;

/// Version of the gear enhancement task this library writes.
pub const GEAR_ENHANCEMENT_WORKFLOW_VERSION: u32 = 1;

/// A Hunter is idle in town when it has no hunting zone and its hunt status
/// reads `idle`.
pub open spec fn hunt_is_idle(hunt: DurableHunterHunt) -> bool {
    hunt.zone_id is None && hunt.status@ == "idle"@
}

impl DurableHunterHunt {
    /// Whether the Hunter is idle in town.
    pub fn is_idle(&self) -> (idle: bool)
        ensures
            idle == hunt_is_idle(*self),
    {
        self.zone_id.is_none() && str_eq(self.status.as_str(), "idle")
    }
}

/// The key recorded for a command id, if any.
pub open spec fn command_key(commands: Seq<HuntCommandRecord>, command_id: u128) -> Option<Seq<char>>
    decreases commands.len(),
{
    if commands.len() == 0 {
        None
    } else if commands.last().command_id == command_id {
        Some(commands.last().key@)
    } else {
        command_key(commands.drop_last(), command_id)
    }
}

impl DurableHunterRosterState {
    /// The key recorded for `command_id` (the most recent record wins).
    pub fn command_key(&self, command_id: u128) -> (key: Option<&String>)
        ensures
            key matches Some(k) ==> command_key(self.hunt_commands@, command_id) == Some(k@),
            key is None ==> command_key(self.hunt_commands@, command_id) is None,
    {
        let mut i = self.hunt_commands.len();
        assert(self.hunt_commands@.subrange(0, i as int) =~= self.hunt_commands@);
        while i > 0
            invariant
                0 <= i <= self.hunt_commands@.len(),
                command_key(self.hunt_commands@, command_id) == command_key(
                    self.hunt_commands@.subrange(0, i as int),
                    command_id,
                ),
            decreases i,
        {
            let ghost prefix = self.hunt_commands@.subrange(0, i as int);
            assert(prefix.drop_last() =~= self.hunt_commands@.subrange(0, i - 1));
            if self.hunt_commands[i - 1].command_id == command_id {
                return Some(&self.hunt_commands[i - 1].key);
            }
            i = i - 1;
        }
        None
    }

    /// Records `key` for `command_id`.
    pub fn record_command(&mut self, command_id: u128, key: String)
        ensures
            final(self).hunt_commands@ == old(self).hunt_commands@.push(HuntCommandRecord { command_id, key }),
            final(self).hunters == old(self).hunters,
            final(self).waiting_queue == old(self).waiting_queue,
            final(self).roster_resolved == old(self).roster_resolved,
            final(self).wallets_resolved == old(self).wallets_resolved,
            command_key(final(self).hunt_commands@, command_id) == Some(key@),
    {
        self.hunt_commands.push(HuntCommandRecord { command_id, key });
        assert(final(self).hunt_commands@.drop_last() =~= old(self).hunt_commands@);
    }
}

/// The waiting-line entry of a Hunter.
pub open spec fn waiting_entry(hunter: DurableHunterState) -> DurableWaitingHunter {
    DurableWaitingHunter { hunter }
}

impl DurableHunterRosterState {
    /// Brings a roster written before the active capacity existed under it:
    /// the Hunters beyond `MAX_ACTIVE_TOWN_HUNTERS` leave the active roster
    /// and join the end of the waiting line in their roster order.
    pub fn upgrade_legacy_capacity(&mut self)
        ensures
            old(self).hunters@.len() <= MAX_ACTIVE_TOWN_HUNTERS ==> final(self).hunters@ == old(self).hunters@
                && final(self).waiting_queue@ == old(self).waiting_queue@,
            old(self).hunters@.len() > MAX_ACTIVE_TOWN_HUNTERS ==> final(self).hunters@ == old(self).hunters@.take(
                MAX_ACTIVE_TOWN_HUNTERS as int,
            ) && final(self).waiting_queue@ == old(self).waiting_queue@ + old(self).hunters@.skip(
                MAX_ACTIVE_TOWN_HUNTERS as int,
            ).map_values(|h: DurableHunterState| waiting_entry(h)),
            final(self).roster_resolved == old(self).roster_resolved,
            final(self).wallets_resolved == old(self).wallets_resolved,
            final(self).hunt_commands == old(self).hunt_commands,
    {
        if self.hunters.len() > MAX_ACTIVE_TOWN_HUNTERS {
            let ghost start_waiting = self.waiting_queue@;
            let overflow = self.hunters.split_off(MAX_ACTIVE_TOWN_HUNTERS);
            let ghost moved = overflow@;
            assert(moved =~= old(self).hunters@.skip(MAX_ACTIVE_TOWN_HUNTERS as int));
            assert(self.hunters@ =~= old(self).hunters@.take(MAX_ACTIVE_TOWN_HUNTERS as int));
            for hunter in it: overflow
                invariant
                    it.seq() == moved,
                    self.waiting_queue@ == start_waiting + moved.take(it.index() as int).map_values(
                        |h: DurableHunterState| waiting_entry(h),
                    ),
                    self.hunters@ == old(self).hunters@.take(MAX_ACTIVE_TOWN_HUNTERS as int),
                    self.roster_resolved == old(self).roster_resolved,
                    self.wallets_resolved == old(self).wallets_resolved,
                    self.hunt_commands == old(self).hunt_commands,
            {
                let ghost before = self.waiting_queue@;
                self.waiting_queue.push(DurableWaitingHunter { hunter });
                assert(moved.take(it.index() + 1) =~= moved.take(it.index() as int).push(hunter));
                assert(self.waiting_queue@ =~= start_waiting + moved.take(it.index() + 1).map_values(
                    |h: DurableHunterState| waiting_entry(h),
                ));
            }
            assert(moved.take(moved.len() as int) =~= moved);
        }
    }
}

/// Index of the first Hunter with `hunter_id`, if any.
pub open spec fn hunter_index(hunters: Seq<DurableHunterState>, hunter_id: u32) -> Option<int> {
    if exists|i: int| 0 <= i < hunters.len() && hunters[i].hunter_id == hunter_id {
        Some(
            choose|i: int|
                0 <= i < hunters.len() && hunters[i].hunter_id == hunter_id && forall|j: int|
                    0 <= j < i ==> hunters[j].hunter_id != hunter_id,
        )
    } else {
        None
    }
}

/// Finds the first Hunter with `hunter_id`.
pub fn find_hunter(hunters: &Vec<DurableHunterState>, hunter_id: u32) -> (index: Option<usize>)
    ensures
        index matches Some(i) ==> i < hunters@.len() && hunters@[i as int].hunter_id == hunter_id
            && forall|j: int| 0 <= j < i ==> hunters@[j].hunter_id != hunter_id,
        index is None ==> forall|j: int| 0 <= j < hunters@.len() ==> hunters@[j].hunter_id != hunter_id,
{
    let mut i: usize = 0;
    while i < hunters.len()
        invariant
            0 <= i <= hunters@.len(),
            forall|j: int| 0 <= j < i ==> hunters@[j].hunter_id != hunter_id,
        decreases hunters@.len() - i,
    {
        if hunters[i].hunter_id == hunter_id {
            return Some(i);
        }
        i = i + 1;
    }
    None
}

/// The gauge a service kind acts on: HP comes from the HP pair, the others
/// from their own gauges.
pub open spec fn service_gauge_of(hunter: DurableHunterState, kind: ServiceEffectKind) -> HunterServiceGauge {
    match kind {
        ServiceEffectKind::Hp => HunterServiceGauge { current: hunter.current_hp, maximum: hunter.max_hp },
        ServiceEffectKind::Stamina => hunter.stamina,
        ServiceEffectKind::Satiety => hunter.satiety,
        ServiceEffectKind::Mood => hunter.mood,
    }
}

/// The gauge a service kind acts on.
pub fn hunter_service_gauge(hunter: &DurableHunterState, effect_kind: ServiceEffectKind) -> (gauge: HunterServiceGauge)
    ensures
        gauge == service_gauge_of(*hunter, effect_kind),
{
    match effect_kind {
        ServiceEffectKind::Hp => HunterServiceGauge { current: hunter.current_hp, maximum: hunter.max_hp },
        ServiceEffectKind::Stamina => hunter.stamina,
        ServiceEffectKind::Satiety => hunter.satiety,
        ServiceEffectKind::Mood => hunter.mood,
    }
}

/// `hunter` with the gauge of `kind` restored by `amount` (capped at its
/// maximum) and nothing else changed.
pub open spec fn restored_hunter(hunter: DurableHunterState, kind: ServiceEffectKind, amount: u64) -> DurableHunterState {
    match kind {
        ServiceEffectKind::Hp => DurableHunterState {
            current_hp: restored_value(hunter.current_hp, hunter.max_hp, amount),
            ..hunter
        },
        ServiceEffectKind::Stamina => DurableHunterState {
            stamina: HunterServiceGauge {
                current: restored_value(hunter.stamina.current, hunter.stamina.maximum, amount),
                ..hunter.stamina
            },
            ..hunter
        },
        ServiceEffectKind::Satiety => DurableHunterState {
            satiety: HunterServiceGauge {
                current: restored_value(hunter.satiety.current, hunter.satiety.maximum, amount),
                ..hunter.satiety
            },
            ..hunter
        },
        ServiceEffectKind::Mood => DurableHunterState {
            mood: HunterServiceGauge {
                current: restored_value(hunter.mood.current, hunter.mood.maximum, amount),
                ..hunter.mood
            },
            ..hunter
        },
    }
}

/// Restores the gauge of `effect_kind` by `amount`, capped at its maximum.
pub fn restore_hunter_service_gauge(hunter: &mut DurableHunterState, effect_kind: ServiceEffectKind, amount: u64)
    ensures
        *final(hunter) == restored_hunter(*old(hunter), effect_kind, amount),
{
    match effect_kind {
        ServiceEffectKind::Hp => {
            let raised = hunter.current_hp.saturating_add(amount);
            hunter.current_hp = if raised <= hunter.max_hp { raised } else { hunter.max_hp };
        },
        ServiceEffectKind::Stamina => hunter.stamina.restore(amount),
        ServiceEffectKind::Satiety => hunter.satiety.restore(amount),
        ServiceEffectKind::Mood => hunter.mood.restore(amount),
    }
}

/// A Hunter shows `action` with `animation`.
pub open spec fn shows(hunter: DurableHunterState, action: Seq<char>, animation: Seq<char>) -> bool {
    hunter.profile.action_state@ == action && hunter.profile.animation_name@ == animation
}

/// Everything but the presentation strings, the hunt status, the pending
/// trade and the enhancement task is unchanged.
pub open spec fn same_except_workflow(a: DurableHunterState, b: DurableHunterState) -> bool {
    &&& a.hunt.loot == b.hunt.loot
    &&& same_except_workflow_and_loot(a, b)
}

/// Everything but the presentation strings, the hunt status, the pending
/// trade, the enhancement task and the carried loot is unchanged.
pub open spec fn same_except_workflow_and_loot(a: DurableHunterState, b: DurableHunterState) -> bool {
    &&& same_profile_record(a.profile, b.profile)
    &&& a.hunter_id == b.hunter_id
    &&& a.gold == b.gold
    &&& a.current_hp == b.current_hp
    &&& a.max_hp == b.max_hp
    &&& a.stamina == b.stamina
    &&& a.satiety == b.satiety
    &&& a.mood == b.mood
    &&& a.owned_items == b.owned_items
    &&& a.hunt.progress_ticks == b.hunt.progress_ticks
    &&& a.hunt.healing_potion_cooldown_ms == b.hunt.healing_potion_cooldown_ms
    &&& a.profile.display_name == b.profile.display_name
    &&& a.profile.class_id == b.profile.class_id
    &&& a.profile.visual_family == b.profile.visual_family
    &&& a.profile.skills == b.profile.skills
    &&& a.profile.equipment_slots == b.profile.equipment_slots
}

/// Clears the enhancement visit and returns the Hunter to idle.
pub fn release_hunter_from_enhancement(hunter: &mut DurableHunterState)
    ensures
        final(hunter).hunt.gear_enhancement is None,
        shows(*final(hunter), "idle"@, "hunter_stay"@),
        final(hunter).hunt.zone_id == old(hunter).hunt.zone_id,
        final(hunter).hunt.status == old(hunter).hunt.status,
        final(hunter).hunt.pending_trade == old(hunter).hunt.pending_trade,
        same_except_workflow(*old(hunter), *final(hunter)),
{
    hunter.hunt.gear_enhancement = None;
    hunter.profile.action_state = "idle".to_owned();
    hunter.profile.animation_name = "hunter_stay".to_owned();
}

/// A visit is over once it shows a result, or stopped while configuring.
pub open spec fn enhancement_terminal(task: DurableGearEnhancementTask) -> bool {
    task.status == GearEnhancementTaskStatus::Result || (task.status
        == GearEnhancementTaskStatus::Configuring && task.stop_reason is Some)
}

/// Whether an enhancement visit is over.
pub fn enhancement_task_terminal(task: &DurableGearEnhancementTask) -> (terminal: bool)
    ensures
        terminal == enhancement_terminal(*task),
{
    task.status == GearEnhancementTaskStatus::Result || (task.status
        == GearEnhancementTaskStatus::Configuring && task.stop_reason.is_some())
}

/// The action states that belong to an enhancement visit.
pub open spec fn enhancement_action(action_state: Seq<char>) -> bool {
    action_state == "traveling_to_enhancement_forge"@ || action_state
        == "waiting_for_enhancement_interaction"@ || action_state == "configuring_enhancement"@
}

/// Whether an action state belongs to an enhancement visit.
pub fn is_enhancement_action_state(action_state: &str) -> (is_enhancement: bool)
    ensures
        is_enhancement == enhancement_action(action_state@),
{
    str_eq(action_state, "traveling_to_enhancement_forge") || str_eq(
        action_state,
        "waiting_for_enhancement_interaction",
    ) || str_eq(action_state, "configuring_enhancement")
}

/// The action and hunt status of a Hunter walking to trade.
pub open spec fn returning_to_trade() -> Seq<char> {
    "returning_to_trade"@
}

/// The Hunter walks to trade: status and action `returning_to_trade`,
/// walking animation.
pub open spec fn resumed(before: DurableHunterState, after: DurableHunterState) -> bool {
    &&& after.hunt.status@ == returning_to_trade()
    &&& shows(after, returning_to_trade(), "hunter_walk"@)
    &&& after.hunt.zone_id == before.hunt.zone_id
    &&& after.hunt.pending_trade == before.hunt.pending_trade
    &&& after.hunt.gear_enhancement == before.hunt.gear_enhancement
    &&& same_except_workflow(before, after)
}

/// The trade is dropped and the Hunter is idle in place.
pub open spec fn released(before: DurableHunterState, after: DurableHunterState) -> bool {
    &&& after.hunt.pending_trade is None
    &&& after.hunt.status@ == "idle"@
    &&& shows(after, "idle"@, "hunter_stay"@)
    &&& after.hunt.zone_id == before.hunt.zone_id
    &&& after.hunt.gear_enhancement == before.hunt.gear_enhancement
    &&& same_except_workflow(before, after)
}

/// The walk-to-trade workflow of a Hunter.
pub struct HunterTradeWorkflow;

impl HunterTradeWorkflow {
    /// Starts a trade walk: the hunting zone is given up and the task stored.
    pub fn begin(hunter: &mut DurableHunterState, task: DurableHunterTradeTask)
        ensures
            final(hunter).hunt.zone_id is None,
            final(hunter).hunt.pending_trade == Some(task),
            final(hunter).hunt.status@ == returning_to_trade(),
            shows(*final(hunter), returning_to_trade(), "hunter_walk"@),
            final(hunter).hunt.gear_enhancement == old(hunter).hunt.gear_enhancement,
            same_except_workflow(*old(hunter), *final(hunter)),
    {
        hunter.hunt.zone_id = None;
        hunter.hunt.pending_trade = Some(task);
        Self::resume(hunter);
    }

    /// Re-validates a restored Hunter: a valid pending trade resumes, an
    /// invalid one is released, and a trade action without a task (an
    /// orphan) is released too; otherwise nothing changes.
    pub fn normalize_restored<F: FnOnce(&DurableHunterTradeTask) -> bool>(
        hunter: &mut DurableHunterState,
        task_is_valid: F,
    )
        requires
            old(hunter).hunt.pending_trade matches Some(task) ==> call_requires(task_is_valid, (&task,)),
        ensures
            old(hunter).hunt.pending_trade matches Some(task) ==> (call_ensures(
                task_is_valid,
                (&task,),
                true,
            ) && resumed(*old(hunter), *final(hunter))) || (call_ensures(task_is_valid, (&task,), false)
                && released(*old(hunter), *final(hunter))),
            old(hunter).hunt.pending_trade is None && (old(hunter).hunt.status@ == returning_to_trade()
                || old(hunter).profile.action_state@ == returning_to_trade()) ==> released(
                *old(hunter),
                *final(hunter),
            ),
            old(hunter).hunt.pending_trade is None && !(old(hunter).hunt.status@ == returning_to_trade()
                || old(hunter).profile.action_state@ == returning_to_trade()) ==> *final(hunter)
                == *old(hunter),
    {
        let verdict: Option<bool> = match &hunter.hunt.pending_trade {
            Some(task) => Some(task_is_valid(task)),
            None => None,
        };
        match verdict {
            Some(valid) => {
                if valid {
                    Self::resume(hunter);
                } else {
                    Self::release(hunter);
                }
            },
            None => {
                if str_eq(hunter.hunt.status.as_str(), "returning_to_trade") || str_eq(
                    hunter.profile.action_state.as_str(),
                    "returning_to_trade",
                ) {
                    Self::release(hunter);
                }
            },
        }
    }

    /// Drops the trade and returns the Hunter to idle.
    pub fn release(hunter: &mut DurableHunterState)
        ensures
            released(*old(hunter), *final(hunter)),
    {
        hunter.hunt.pending_trade = None;
        hunter.hunt.status = "idle".to_owned();
        hunter.profile.action_state = "idle".to_owned();
        hunter.profile.animation_name = "hunter_stay".to_owned();
    }

    /// Sets the Hunter walking to trade.
    pub fn resume(hunter: &mut DurableHunterState)
        ensures
            resumed(*old(hunter), *final(hunter)),
    {
        hunter.hunt.status = "returning_to_trade".to_owned();
        hunter.profile.action_state = "returning_to_trade".to_owned();
        hunter.profile.animation_name = "hunter_walk".to_owned();
    }
}

/// Drops a Hunter's trade and returns it to idle.
pub fn release_hunter_from_trade(hunter: &mut DurableHunterState)
    ensures
        released(*old(hunter), *final(hunter)),
{
    HunterTradeWorkflow::release(hunter);
}

/// Releasing a trade undoes beginning it, up to the hunting zone that the
/// walk gave up: the Hunter ends idle with no task.
pub proof fn lemma_release_after_begin(
    start: DurableHunterState,
    walking: DurableHunterState,
    idle: DurableHunterState,
    task: DurableHunterTradeTask,
)
    requires
        walking.hunt.zone_id is None,
        walking.hunt.pending_trade == Some(task),
        same_except_workflow(start, walking),
        walking.hunt.gear_enhancement == start.hunt.gear_enhancement,
        released(walking, idle),
    ensures
        idle.hunt.pending_trade is None,
        idle.hunt.zone_id is None,
        idle.hunt.status@ == "idle"@,
        same_except_workflow(start, idle),
        idle.hunt.gear_enhancement == start.hunt.gear_enhancement,
{
}

} // verus!
