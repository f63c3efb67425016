//! Commands whose rules are not bound yet: they change nothing and answer
//! with the bindings they wait for.
use vstd::prelude::*;

use crate::building_domain::{base_building_id_valid, building_has_instance, find_building_by_instance, is_base_building_id};
use crate::catalog::BuildingCapabilityDefinition;
use crate::seqs::first_index;
use crate::session::{is_binding_blocked, is_rejected, world_active, OriginalFlowSession, ServerMessage};
use crate::text::str_eq;

verus! {

/// What a building capability waits for once it is known but cannot run.
pub open spec fn building_capability_blockers() -> Seq<Seq<char>> {
    seq!["building_capability_rules_binding"@]
}

/// A capability of building `id` of one of `kinds` (of any kind when
/// `kinds` is empty).
pub open spec fn capability_matches(capability: BuildingCapabilityDefinition, id: Seq<char>, kinds: Seq<Seq<char>>) -> bool {
    capability.building_id@ == id && (kinds.len() == 0 || kinds.contains(capability.kind@))
}

/// The bindings a building action waits for: a well-formed base id, a
/// matching capability, an executor for a runnable one, and otherwise the
/// capability rules.
pub open spec fn capability_blockers(
    capabilities: Seq<BuildingCapabilityDefinition>,
    id: Seq<char>,
    kinds: Seq<Seq<char>>,
) -> Seq<Seq<char>> {
    if !is_base_building_id(id) {
        seq!["building_base_id_parse"@]
    } else if !(exists|i: int| 0 <= i < capabilities.len() && capability_matches(#[trigger] capabilities[i], id, kinds)) {
        seq!["building_capability_identity_binding"@]
    } else if exists|i: int|
        0 <= i < capabilities.len() && capability_matches(#[trigger] capabilities[i], id, kinds)
            && capabilities[i].runnable {
        seq!["building_capability_executor_binding"@]
    } else {
        building_capability_blockers()
    }
}

/// The text views of string slices.
pub open spec fn str_views(items: Seq<&str>) -> Seq<Seq<char>> {
    Seq::new(items.len(), |i: int| items[i]@)
}

/// Whether `kind` is one of `kinds`.
fn kind_listed(kinds: &[&str], kind: &str) -> (listed: bool)
    ensures
        listed == str_views(kinds@).contains(kind@),
{
    let mut i: usize = 0;
    while i < kinds.len()
        invariant
            0 <= i <= kinds@.len(),
            forall|j: int| 0 <= j < i ==> (#[trigger] kinds@[j])@ != kind@,
        decreases kinds@.len() - i,
    {
        if str_eq(kinds[i], kind) {
            assert(str_views(kinds@)[i as int] == kind@);
            return true;
        }
        i = i + 1;
    }
    assert forall|j: int| 0 <= j < str_views(kinds@).len() implies str_views(kinds@)[j] != kind@ by {
        assert(str_views(kinds@)[j] == kinds@[j]@);
    }
    false
}

/// The capability kinds a shop sale looks for.
pub open spec fn sale_kinds() -> Seq<Seq<char>> {
    seq![
        "weapon-display-and-sale"@,
        "armor-display-and-sale"@,
        "potion-display-and-sale"@,
        "accessory-display-and-sale"@,
    ]
}

/// The bindings that claiming a quest reward waits for.
pub open spec fn quest_blockers() -> Seq<Seq<char>> {
    seq!["quest_rules_binding"@]
}

/// The bindings that opening the shop waits for.
pub open spec fn shop_blockers() -> Seq<Seq<char>> {
    seq!["shop_catalog_binding"@]
}

/// The bindings that claiming mail waits for.
pub open spec fn mail_blockers() -> Seq<Seq<char>> {
    seq!["mail_rules_binding"@]
}

/// The bindings that claiming a rewarded ad waits for.
pub open spec fn rewarded_ad_blockers() -> Seq<Seq<char>> {
    seq!["rewarded_ad_rules_binding"@]
}

/// The bindings that a top-up purchase waits for.
pub open spec fn topup_blockers() -> Seq<Seq<char>> {
    seq!["topup_catalog_binding"@]
}

impl OriginalFlowSession {
    /// The bindings an action of building `building_id` waits for (see
    /// [`capability_blockers`]), as a reply to `intent`.
    pub fn capability_blocked(&self, intent: &str, building_id: &str, expected_kinds: &[&str]) -> (message: ServerMessage)
        ensures
            is_binding_blocked(
                message,
                intent@,
                capability_blockers(
                    self.building_content.gameplay.capabilities@,
                    building_id@,
                    str_views(expected_kinds@),
                ),
            ),
    {
        let ghost kinds = str_views(expected_kinds@);
        if !base_building_id_valid(building_id) {
            let message = self.binding_blocked(intent, &["building_base_id_parse"]);
            assert(Seq::new(1, |i: int| ["building_base_id_parse"]@[i]@) =~= seq!["building_base_id_parse"@]);
            return message;
        }
        let capabilities = &self.building_content.gameplay.capabilities;
        let mut matched = false;
        let mut runnable = false;
        let mut i: usize = 0;
        while i < capabilities.len()
            invariant
                0 <= i <= capabilities@.len(),
                capabilities@ == self.building_content.gameplay.capabilities@,
                kinds == str_views(expected_kinds@),
                matched == exists|j: int| 0 <= j < i && capability_matches(#[trigger] capabilities@[j], building_id@, kinds),
                runnable == exists|j: int|
                    0 <= j < i && capability_matches(#[trigger] capabilities@[j], building_id@, kinds)
                        && capabilities@[j].runnable,
            decreases capabilities@.len() - i,
        {
            let capability = &capabilities[i];
            let matches = str_eq(capability.building_id.as_str(), building_id) && (expected_kinds.len() == 0
                || kind_listed(expected_kinds, capability.kind.as_str()));
            assert(matches == capability_matches(capabilities@[i as int], building_id@, kinds));
            if matches {
                matched = true;
                if capability.runnable {
                    runnable = true;
                }
            }
            i = i + 1;
        }
        if !matched {
            let message = self.binding_blocked(intent, &["building_capability_identity_binding"]);
            assert(Seq::new(1, |i: int| ["building_capability_identity_binding"]@[i]@) =~= seq![
                "building_capability_identity_binding"@,
            ]);
            return message;
        }
        if runnable {
            let message = self.binding_blocked(intent, &["building_capability_executor_binding"]);
            assert(Seq::new(1, |i: int| ["building_capability_executor_binding"]@[i]@) =~= seq![
                "building_capability_executor_binding"@,
            ]);
            return message;
        }
        let message = self.binding_blocked(intent, &["building_capability_rules_binding"]);
        assert(Seq::new(1, |i: int| ["building_capability_rules_binding"]@[i]@) =~= building_capability_blockers());
        message
    }

    /// Uses a placed building: in the shared world, a known instance answers
    /// with what its capabilities wait for; nothing changes.
    pub fn use_building(&self, instance_id: &str) -> (message: ServerMessage)
        ensures
            !world_active(self.state.screen) ==> is_rejected(message, "use_building"@, "village_unavailable"@),
            world_active(self.state.screen) ==> match first_index(
                self.buildings.buildings@,
                building_has_instance(instance_id@),
            ) {
                None => is_rejected(message, "use_building"@, "building_instance_unknown"@),
                Some(b) => is_binding_blocked(
                    message,
                    "use_building"@,
                    capability_blockers(
                        self.building_content.gameplay.capabilities@,
                        self.buildings.buildings@[b].id@,
                        seq![],
                    ),
                ),
            },
    {
        if !self.shared_world_active() {
            return self.rejected("use_building", "village_unavailable");
        }
        let b = match find_building_by_instance(&self.buildings.buildings, instance_id) {
            Some(b) => b,
            None => {
                return self.rejected("use_building", "building_instance_unknown");
            },
        };
        let none: [&str; 0] = [];
        let message = self.capability_blocked("use_building", self.buildings.buildings[b].id.as_str(), &none);
        assert(str_views(none@) =~= Seq::<Seq<char>>::empty());
        message
    }

    /// Sells an item to a shop: in the shared world, answers with what the
    /// shop's display-and-sale capabilities wait for; nothing changes.
    pub fn sell_shop_item(&self, shop_id: &str, product_id: &str) -> (message: ServerMessage)
        ensures
            !world_active(self.state.screen) ==> is_rejected(message, "sell_shop_item"@, "village_unavailable"@),
            world_active(self.state.screen) ==> is_binding_blocked(
                message,
                "sell_shop_item"@,
                capability_blockers(self.building_content.gameplay.capabilities@, shop_id@, sale_kinds()),
            ),
    {
        if !self.shared_world_active() {
            return self.rejected("sell_shop_item", "village_unavailable");
        }
        let kinds = [
            "weapon-display-and-sale",
            "armor-display-and-sale",
            "potion-display-and-sale",
            "accessory-display-and-sale",
        ];
        let message = self.capability_blocked("sell_shop_item", shop_id, &kinds);
        assert(str_views(kinds@) =~= sale_kinds());
        message
    }
}

} // verus!
