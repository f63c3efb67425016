use vstd::prelude::*;

use crate::contracts::DurableProductServiceVisit;
use crate::roster::{shows, DurableHunterHunt, DurableHunterOwnedItem, DurableHunterProfile, DurableHunterState};
use crate::session::OriginalFlowSession;
use crate::session_services::{has_visit_for, hunter_has_visit};
use crate::text::{chars_of, has_prefix, parse_bounded, parse_decimal, starts_with, str_eq};

verus! {

/// Product id prefix of the Healing Potion line; the level follows it.
pub open spec fn potion_prefix() -> Seq<char> {
    "recipe:consumable:0:level:"@
}

/// HP restored by a Healing Potion of each level.
pub open spec fn potion_values() -> Seq<u64> {
    seq![4_000u64, 12_000, 32_400, 77_800, 163_300, 294_000, 1_562_500, 9_375_000]
}

/// Cooldown after drinking a Healing Potion, in milliseconds.
pub const HEALING_POTION_COOLDOWN_MS: u64 = 20_000;

/// The Healing Potion level of an owned item, if it is one.
pub open spec fn potion_level(item: DurableHunterOwnedItem) -> Option<nat> {
    if has_prefix(item.product_id@, potion_prefix()) {
        parse_bounded(item.product_id@.skip(potion_prefix().len() as int), usize::MAX as nat)
    } else {
        None
    }
}

/// A Healing Potion of a known level that the Hunter still holds.
pub open spec fn usable_potion(item: DurableHunterOwnedItem) -> bool {
    potion_level(item) matches Some(level) && level < 8 && item.quantity > 0
}

/// The potion a Hunter drinks: of the usable potions, the one of highest
/// level, the last of them on a tie.
pub open spec fn chosen_potion(items: Seq<DurableHunterOwnedItem>) -> Option<int>
    decreases items.len(),
{
    if items.len() == 0 {
        None
    } else {
        let earlier = chosen_potion(items.drop_last());
        let last = items.len() - 1;
        if usable_potion(items[last]) && (match earlier {
            Some(e) => potion_level(items[e]).unwrap() <= potion_level(items[last]).unwrap(),
            None => true,
        }) {
            Some(last)
        } else {
            earlier
        }
    }
}

/// A chosen potion is in range and usable.
proof fn lemma_chosen_potion(items: Seq<DurableHunterOwnedItem>)
    ensures
        chosen_potion(items) matches Some(p) ==> 0 <= p < items.len() && usable_potion(items[p]),
    decreases items.len(),
{
    if items.len() > 0 {
        lemma_chosen_potion(items.drop_last());
    }
}

/// The Healing Potion level of an owned item.
fn potion_level_of(item: &DurableHunterOwnedItem) -> (level: Option<u64>)
    ensures
        level matches Some(l) ==> potion_level(*item) == Some(l as nat),
        level is None ==> potion_level(*item) is None,
{
    let chars = chars_of(item.product_id.as_str());
    let prefix = chars_of("recipe:consumable:0:level:");
    if !starts_with(&chars, &prefix) {
        return None;
    }
    let parsed = parse_decimal(&chars, prefix.len(), chars.len(), usize::MAX as u64);
    assert(chars@.subrange(prefix@.len() as int, chars@.len() as int) =~= item.product_id@.skip(
        potion_prefix().len() as int,
    ));
    parsed
}

/// Finds the potion a Hunter drinks (see [`chosen_potion`]).
fn choose_potion(items: &Vec<DurableHunterOwnedItem>) -> (index: Option<usize>)
    ensures
        index matches Some(p) ==> chosen_potion(items@) == Some(p as int),
        index is None ==> chosen_potion(items@) is None,
{
    let mut best: Option<usize> = None;
    let mut best_level: u64 = 0;
    let mut i: usize = 0;
    while i < items.len()
        invariant
            0 <= i <= items@.len(),
            chosen_potion(items@.take(i as int)) == (match best {
                Some(b) => Some(b as int),
                None => None,
            }),
            best matches Some(b) ==> b < i && potion_level(items@[b as int]) == Some(best_level as nat),
        decreases items@.len() - i,
    {
        let ghost prefix = items@.take(i + 1);
        assert(prefix.drop_last() =~= items@.take(i as int));
        assert(prefix[i as int] == items@[i as int]);
        proof {
            lemma_chosen_potion(items@.take(i as int));
            if let Some(b) = best {
                assert(prefix[b as int] == items@[b as int]);
            }
        }
        let level = potion_level_of(&items[i]);
        match level {
            Some(l) => {
                if l < 8 && items[i].quantity > 0 && (best.is_none() || best_level <= l) {
                    best = Some(i);
                    best_level = l;
                }
            },
            None => {},
        }
        i = i + 1;
    }
    assert(items@.take(items@.len() as int) =~= items@);
    best
}

/// Whether the healing policy leaves a Hunter alone: down, of unknown HP,
/// entering a region, at 10% HP or more, busy with an enhancement, a trade
/// or a service visit, or still on potion cooldown.
pub open spec fn healing_skipped(hunter: DurableHunterState, visits: Seq<DurableProductServiceVisit>) -> bool {
    ||| hunter.current_hp == 0
    ||| hunter.max_hp == 0
    ||| hunter.profile.action_state@ == "entering_region"@
    ||| hunter.current_hp * 100 >= hunter.max_hp * 10
    ||| hunter.hunt.gear_enhancement is Some
    ||| hunter.hunt.pending_trade is Some
    ||| hunter.hunt.healing_potion_cooldown_ms > 0
    ||| hunter_has_visit(visits, hunter.hunter_id)
}

/// `after` is `before` with its presentation strings changed and nothing
/// else.
pub open spec fn profile_strings_only(before: DurableHunterProfile, after: DurableHunterProfile) -> bool {
    after == DurableHunterProfile { action_state: after.action_state, animation_name: after.animation_name, ..before }
}

/// The Hunter drinks potion `p`: one fewer held, HP raised by the potion's
/// value up to the maximum, the potion cooldown started.
pub open spec fn drank_potion(before: DurableHunterState, after: DurableHunterState, p: int) -> bool {
    let item = before.owned_items@[p];
    let level = potion_level(item).unwrap();
    let raised = before.current_hp.saturating_add(potion_values()[level as int]);
    &&& after.owned_items@ == before.owned_items@.update(
        p,
        DurableHunterOwnedItem { quantity: (item.quantity - 1) as u32, ..item },
    )
    &&& after.current_hp == (if raised <= before.max_hp { raised } else { before.max_hp })
    &&& after.hunt == DurableHunterHunt { healing_potion_cooldown_ms: HEALING_POTION_COOLDOWN_MS, ..before.hunt }
    &&& shows(after, "using_healing_potion"@, "hunter_stay"@)
    &&& profile_strings_only(before.profile, after.profile)
    &&& after == DurableHunterState {
        owned_items: after.owned_items,
        current_hp: after.current_hp,
        hunt: after.hunt,
        profile: after.profile,
        ..before
    }
}

/// With no potion the Hunter leaves its hunting region and walks back to
/// town for the Infirmary.
pub open spec fn routed_to_infirmary(before: DurableHunterState, after: DurableHunterState) -> bool {
    &&& after.hunt.zone_id is None
    &&& after.hunt.status@ == "idle"@
    &&& after.hunt == DurableHunterHunt { zone_id: None, status: after.hunt.status, ..before.hunt }
    &&& shows(after, "returning_for_infirmary"@, "hunter_walk"@)
    &&& profile_strings_only(before.profile, after.profile)
    &&& after == DurableHunterState { hunt: after.hunt, profile: after.profile, ..before }
}

/// The healing policy's effect on one Hunter.
pub open spec fn healed(before: DurableHunterState, after: DurableHunterState, visits: Seq<DurableProductServiceVisit>) -> bool {
    if healing_skipped(before, visits) {
        after == before
    } else {
        match chosen_potion(before.owned_items@) {
            Some(p) => drank_potion(before, after, p),
            None => routed_to_infirmary(before, after),
        }
    }
}

/// Applies the healing policy to one Hunter.
pub fn heal_hunter(hunter: &mut DurableHunterState, visits: &Vec<DurableProductServiceVisit>)
    ensures
        healed(*old(hunter), *final(hunter), visits@),
{
    if hunter.current_hp == 0 || hunter.max_hp == 0 || str_eq(hunter.profile.action_state.as_str(), "entering_region")
        || (hunter.current_hp as u128) * 100 >= (hunter.max_hp as u128) * 10
        || hunter.hunt.gear_enhancement.is_some() || hunter.hunt.pending_trade.is_some()
        || hunter.hunt.healing_potion_cooldown_ms > 0 || has_visit_for(visits, hunter.hunter_id) {
        return;
    }
    let values: [u64; 8] = [4_000, 12_000, 32_400, 77_800, 163_300, 294_000, 1_562_500, 9_375_000];
    assert(values@ == potion_values());
    match choose_potion(&hunter.owned_items) {
        Some(p) => {
            proof {
                lemma_chosen_potion(hunter.owned_items@);
            }
            let level = match potion_level_of(&hunter.owned_items[p]) {
                Some(l) => l,
                None => {
                    return;
                },
            };
            let left = hunter.owned_items[p].quantity - 1;
            hunter.owned_items[p].quantity = left;
            let raised = hunter.current_hp.saturating_add(values[level as usize]);
            hunter.current_hp = if raised <= hunter.max_hp {
                raised
            } else {
                hunter.max_hp
            };
            hunter.profile.action_state = "using_healing_potion".to_owned();
            hunter.profile.animation_name = "hunter_stay".to_owned();
            hunter.hunt.healing_potion_cooldown_ms = HEALING_POTION_COOLDOWN_MS;
        },
        None => {
            hunter.hunt.zone_id = None;
            hunter.hunt.status = "idle".to_owned();
            hunter.profile.action_state = "returning_for_infirmary".to_owned();
            hunter.profile.animation_name = "hunter_walk".to_owned();
        },
    }
}

/// The healing policy applied to every active Hunter; nothing else changes.
pub open spec fn healing_applied(before: OriginalFlowSession, after: OriginalFlowSession) -> bool {
    &&& after.hunter_roster.hunters@.len() == before.hunter_roster.hunters@.len()
    &&& forall|k: int| 0 <= k < before.hunter_roster.hunters@.len() ==> healed(
        before.hunter_roster.hunters@[k],
        #[trigger] after.hunter_roster.hunters@[k],
        before.product_services.visits@,
    )
    &&& after.hunter_roster.roster_resolved == before.hunter_roster.roster_resolved
    &&& after.hunter_roster.wallets_resolved == before.hunter_roster.wallets_resolved
    &&& after.hunter_roster.waiting_queue == before.hunter_roster.waiting_queue
    &&& after.hunter_roster.hunt_commands == before.hunter_roster.hunt_commands
    &&& after.state == before.state
    &&& after.buildings == before.buildings
    &&& after.product_services == before.product_services
    &&& after.hunter_world_runtime == before.hunter_world_runtime
    &&& after.monster_densities == before.monster_densities
    &&& after.building_content == before.building_content
    &&& after.selected_entity_id == before.selected_entity_id
    &&& after.visual_tick == before.visual_tick
    &&& after.simulation_remainder_ns == before.simulation_remainder_ns
}

impl OriginalFlowSession {
    /// Applies the autonomous healing policy to every active Hunter. Below
    /// 10% HP a Hunter drinks its best Healing Potion; holding none, it
    /// leaves its hunting region and walks back to town for the Infirmary.
    /// Hunters that are down, busy, entering a region, on potion cooldown or
    /// at 10% HP or more are left alone.
    pub fn apply_autonomous_hunter_healing_policy(&mut self)
        ensures
            healing_applied(*old(self), *final(self)),
    {
        let mut i: usize = 0;
        while i < self.hunter_roster.hunters.len()
            invariant
                0 <= i <= self.hunter_roster.hunters@.len(),
                self.hunter_roster.hunters@.len() == old(self).hunter_roster.hunters@.len(),
                forall|k: int| 0 <= k < i ==> healed(
                    old(self).hunter_roster.hunters@[k],
                    #[trigger] self.hunter_roster.hunters@[k],
                    old(self).product_services.visits@,
                ),
                forall|k: int| i <= k < self.hunter_roster.hunters@.len() ==> #[trigger] self.hunter_roster.hunters@[k]
                    == old(self).hunter_roster.hunters@[k],
                self.hunter_roster.roster_resolved == old(self).hunter_roster.roster_resolved,
                self.hunter_roster.wallets_resolved == old(self).hunter_roster.wallets_resolved,
                self.hunter_roster.waiting_queue == old(self).hunter_roster.waiting_queue,
                self.hunter_roster.hunt_commands == old(self).hunter_roster.hunt_commands,
                self.state == old(self).state,
                self.buildings == old(self).buildings,
                self.product_services == old(self).product_services,
                self.hunter_world_runtime == old(self).hunter_world_runtime,
                self.monster_densities == old(self).monster_densities,
                self.building_content == old(self).building_content,
                self.selected_entity_id == old(self).selected_entity_id,
                self.visual_tick == old(self).visual_tick,
                self.simulation_remainder_ns == old(self).simulation_remainder_ns,
            decreases self.hunter_roster.hunters@.len() - i,
        {
            heal_hunter(&mut self.hunter_roster.hunters[i], &self.product_services.visits);
            i = i + 1;
        }
    }
}

} // verus!
