use vstd::prelude::*;

use crate::catalog::AuthoritativeBuildingContent;
use crate::contracts::{
    BottomMenuIntent, DurableBuildingState, DurableMonsterFieldConfig, DurableMonsterMapDensity,
    DurablePlayerAggregate, DurableProductServiceState, HunterAgentState, OriginalFlowPlayerState,
    OriginalScreen, DURABLE_PLAYER_SCHEMA_VERSION,
};
use crate::persistence::{
    copy_building_state, copy_hunter_agents, copy_map_densities, copy_roster, copy_service_state,
    same_building_state, same_hunter_agents, same_map_densities, same_roster, same_service_state,
};
use crate::roster::DurableHunterRosterState;
use crate::trading_post::{return_settles, settle_returning_hunters};

verus! {

/// The reply to a player command.
#[derive(Clone, Debug, PartialEq, Eq)]
pub enum ServerMessage {
    /// The command was accepted, or rejected with a reason.
    IntentResult { intent: String, accepted: bool, reason: Option<String> },
    /// The command needs evidence bindings that are not resolved yet.
    BindingBlocked { intent: String, blockers: Vec<String> },
}

/// The characters of each string, in order.
pub open spec fn string_views(strings: Seq<String>) -> Seq<Seq<char>> {
    Seq::new(strings.len(), |i: int| strings[i]@)
}

/// `message` accepts `intent`.
pub open spec fn is_accepted(message: ServerMessage, intent: Seq<char>) -> bool {
    &&& message matches ServerMessage::IntentResult { intent: i, accepted, reason }
    &&& i@ == intent
    &&& accepted
    &&& reason is None
}

/// `message` rejects `intent` for `reason`.
pub open spec fn is_rejected(message: ServerMessage, intent: Seq<char>, reason: Seq<char>) -> bool {
    &&& message matches ServerMessage::IntentResult { intent: i, accepted, reason: r }
    &&& i@ == intent
    &&& !accepted
    &&& r matches Some(text) && text@ == reason
}

/// `message` blocks `intent` on exactly `blockers`.
pub open spec fn is_binding_blocked(message: ServerMessage, intent: Seq<char>, blockers: Seq<Seq<char>>) -> bool {
    &&& message matches ServerMessage::BindingBlocked { intent: i, blockers: b }
    &&& i@ == intent
    &&& string_views(b@) == blockers
}

/// A player's live session: navigation, the town, its Hunters, their
/// service visits and world actors, and the content it runs on.
pub struct OriginalFlowSession {
    pub state: OriginalFlowPlayerState,
    pub buildings: DurableBuildingState,
    pub hunter_roster: DurableHunterRosterState,
    pub product_services: DurableProductServiceState,
    pub hunter_world_runtime: Vec<HunterAgentState>,
    pub monster_densities: Vec<DurableMonsterMapDensity>,
    pub building_content: AuthoritativeBuildingContent,
    pub selected_entity_id: Option<String>,
    pub visual_tick: u64,
    pub simulation_remainder_ns: BankedTime,
}

/// Simulation time banked toward the next domain tick: always less than one
/// 100 ms tick.
pub struct BankedTime {
    ns: u64,
}

impl BankedTime {
    #[verifier::type_invariant]
    spec fn below_one_tick(self) -> bool {
        self.ns < 100_000_000
    }

    /// The banked nanoseconds.
    pub closed spec fn nanos(self) -> u64 {
        self.ns
    }

    /// No time banked.
    pub fn nothing() -> (banked: Self)
        ensures
            banked == banked_time(0),
    {
        BankedTime { ns: 0 }
    }

    /// `ns` nanoseconds banked, less than one tick.
    pub fn from_nanos(ns: u64) -> (banked: Self)
        requires
            ns < 100_000_000,
        ensures
            banked == banked_time(ns),
    {
        BankedTime { ns }
    }

    /// The banked nanoseconds, which are less than one tick.
    pub fn get(&self) -> (ns: u64)
        ensures
            ns == self.nanos(),
            ns < 100_000_000,
    {
        proof {
            use_type_invariant(self);
        }
        self.ns
    }
}

/// `ns` nanoseconds of banked time.
pub closed spec fn banked_time(ns: u64) -> BankedTime {
    BankedTime { ns }
}

/// Banked time holds the nanoseconds it was made from.
pub broadcast proof fn lemma_banked_time_nanos(ns: u64)
    ensures
        #[trigger] banked_time(ns).nanos() == ns,
{
}

/// Banked time is determined by its nanoseconds.
pub broadcast proof fn lemma_banked_time_of_nanos(banked: BankedTime)
    ensures
        #[trigger] banked_time(banked.nanos()) == banked,
{
}

pub broadcast group group_banked_time {
    lemma_banked_time_nanos,
    lemma_banked_time_of_nanos,
}

/// The shared world (village and field) is on screen.
pub open spec fn world_active(screen: OriginalScreen) -> bool {
    screen == OriginalScreen::Village || screen == OriginalScreen::Field
}

/// `after` differs from `before` at most in its navigation state and its
/// selected entity.
pub open spec fn same_except_navigation(before: OriginalFlowSession, after: OriginalFlowSession) -> bool {
    &&& after.buildings == before.buildings
    &&& after.hunter_roster == before.hunter_roster
    &&& after.product_services == before.product_services
    &&& after.hunter_world_runtime == before.hunter_world_runtime
    &&& after.monster_densities == before.monster_densities
    &&& after.building_content == before.building_content
    &&& after.visual_tick == before.visual_tick
    &&& after.simulation_remainder_ns == before.simulation_remainder_ns
}

/// Finishing the boot screen: refused once booted; otherwise the village
/// opens and boot is recorded.
pub open spec fn boot_outcome(before: OriginalFlowSession, after: OriginalFlowSession, message: ServerMessage) -> bool {
    &&& before.state.screen != OriginalScreen::Boot ==> is_rejected(message, "complete_boot"@, "boot_already_completed"@)
        && after.state == before.state
    &&& before.state.screen == OriginalScreen::Boot ==> is_accepted(message, "complete_boot"@) && after.state
        == (OriginalFlowPlayerState { screen: OriginalScreen::Village, boot_completed: true })
    &&& after.selected_entity_id == before.selected_entity_id
    &&& same_except_navigation(before, after)
}

/// The reply to a bottom-menu entry: refused outside the shared world; the
/// Hunter list and build menu are accepted; archive, store and raid are
/// blocked on their rules bindings.
pub open spec fn bottom_menu_outcome(session: OriginalFlowSession, menu: BottomMenuIntent, message: ServerMessage) -> bool {
    &&& !world_active(session.state.screen) ==> is_rejected(message, "select_bottom_menu"@, "bottom_menu_unavailable"@)
    &&& world_active(session.state.screen) ==> match menu {
        BottomMenuIntent::Character => is_accepted(message, "select_bottom_menu.character"@),
        BottomMenuIntent::Build => is_accepted(message, "select_bottom_menu.build"@),
        BottomMenuIntent::Archive => is_binding_blocked(message, "select_bottom_menu.archive"@, seq!["archive_rules_binding"@]),
        BottomMenuIntent::Store => is_binding_blocked(message, "select_bottom_menu.store"@, seq!["store_catalog_binding"@]),
        BottomMenuIntent::Raid => is_binding_blocked(message, "select_bottom_menu.raid"@, seq!["raid_rules_binding"@]),
    }
}

/// Everything but navigation, selection and the town is unchanged.
pub open spec fn same_except_navigation_and_town(before: OriginalFlowSession, after: OriginalFlowSession) -> bool {
    &&& after.hunter_roster == before.hunter_roster
    &&& after.product_services == before.product_services
    &&& after.hunter_world_runtime == before.hunter_world_runtime
    &&& after.monster_densities == before.monster_densities
    &&& after.building_content == before.building_content
    &&& after.visual_tick == before.visual_tick
    &&& after.simulation_remainder_ns == before.simulation_remainder_ns
}

/// Going back: from the field (settling an empty return trip, see
/// `return_settles`) or the roster screen to the village with no
/// selection; refused elsewhere.
pub open spec fn back_outcome(before: OriginalFlowSession, after: OriginalFlowSession, message: ServerMessage) -> bool {
    let screen = before.state.screen;
    &&& (screen == OriginalScreen::HunterRoster || screen == OriginalScreen::Field) ==> is_accepted(message, "navigate_back"@)
        && after.state.screen == OriginalScreen::Village && after.state.boot_completed == before.state.boot_completed
        && after.selected_entity_id is None
    &&& screen == OriginalScreen::Field ==> (if return_settles(before.buildings) {
        after.buildings == (DurableBuildingState { settled_field_trip_id: before.buildings.field_trip_id, ..before.buildings })
    } else {
        after.buildings == before.buildings
    })
    &&& screen != OriginalScreen::Field ==> after.buildings == before.buildings
    &&& !(screen == OriginalScreen::HunterRoster || screen == OriginalScreen::Field) ==> is_rejected(
        message,
        "navigate_back"@,
        "navigation_unavailable"@,
    ) && after.state == before.state && after.selected_entity_id == before.selected_entity_id
    &&& same_except_navigation_and_town(before, after)
}

/// Entering the field: only from the village; a new field trip starts and
/// the selection clears.
pub open spec fn field_outcome(before: OriginalFlowSession, after: OriginalFlowSession, message: ServerMessage) -> bool {
    &&& before.state.screen != OriginalScreen::Village ==> is_rejected(message, "enter_field"@, "field_entry_unavailable"@)
        && after.state == before.state && after.buildings == before.buildings && after.selected_entity_id
        == before.selected_entity_id
    &&& before.state.screen == OriginalScreen::Village ==> is_accepted(message, "enter_field"@) && after.state.screen
        == OriginalScreen::Field && after.state.boot_completed == before.state.boot_completed && after.buildings
        == (DurableBuildingState { field_trip_id: before.buildings.field_trip_id.saturating_add(1), ..before.buildings })
        && after.selected_entity_id is None
    &&& same_except_navigation_and_town(before, after)
}

/// The strings of `items`, owned.
fn owned_strings(items: &[&str]) -> (strings: Vec<String>)
    ensures
        string_views(strings@) == Seq::new(items@.len(), |i: int| items@[i]@),
{
    let mut strings: Vec<String> = Vec::new();
    let mut i: usize = 0;
    while i < items.len()
        invariant
            0 <= i <= items@.len(),
            strings@.len() == i,
            forall|k: int| 0 <= k < i ==> #[trigger] strings@[k]@ == items@[k]@,
        decreases items@.len() - i,
    {
        strings.push(items[i].to_owned());
        i = i + 1;
    }
    assert(string_views(strings@) =~= Seq::new(items@.len(), |i: int| items@[i]@));
    strings
}

impl OriginalFlowSession {
    /// Accepts `intent`.
    pub fn accepted(&self, intent: &str) -> (message: ServerMessage)
        ensures
            is_accepted(message, intent@),
    {
        ServerMessage::IntentResult { intent: intent.to_owned(), accepted: true, reason: None }
    }

    /// Rejects `intent` for `reason`.
    pub fn rejected(&self, intent: &str, reason: &str) -> (message: ServerMessage)
        ensures
            is_rejected(message, intent@, reason@),
    {
        ServerMessage::IntentResult {
            intent: intent.to_owned(),
            accepted: false,
            reason: Some(reason.to_owned()),
        }
    }

    /// Blocks `intent` on the evidence bindings `blockers`.
    pub fn binding_blocked(&self, intent: &str, blockers: &[&str]) -> (message: ServerMessage)
        ensures
            is_binding_blocked(message, intent@, Seq::new(blockers@.len(), |i: int| blockers@[i]@)),
    {
        ServerMessage::BindingBlocked { intent: intent.to_owned(), blockers: owned_strings(blockers) }
    }

    /// The navigation state.
    pub fn state(&self) -> (state: &OriginalFlowPlayerState)
        ensures
            *state == self.state,
    {
        &self.state
    }

    /// Whether the shared world (village or field) is on screen.
    pub fn shared_world_active(&self) -> (active: bool)
        ensures
            active == world_active(self.state.screen),
    {
        match self.state.screen {
            OriginalScreen::Village | OriginalScreen::Field => true,
            _ => false,
        }
    }

    /// Finishes the boot screen: the village opens.
    pub fn complete_boot(&mut self) -> (message: ServerMessage)
        ensures
            boot_outcome(*old(self), *final(self), message),
    {
        if self.state.screen != OriginalScreen::Boot {
            self.rejected("complete_boot", "boot_already_completed")
        } else {
            self.state.boot_completed = true;
            self.state.screen = OriginalScreen::Village;
            self.accepted("complete_boot")
        }
    }

    /// Handles the village bottom menu. The Hunter list is an overlay of the
    /// shared world, so no entry changes the navigation focus.
    pub fn select_bottom_menu(&self, menu: BottomMenuIntent) -> (message: ServerMessage)
        ensures
            bottom_menu_outcome(*self, menu, message),
    {
        if !self.shared_world_active() {
            return self.rejected("select_bottom_menu", "bottom_menu_unavailable");
        }
        match menu {
            BottomMenuIntent::Character => self.accepted("select_bottom_menu.character"),
            BottomMenuIntent::Build => self.accepted("select_bottom_menu.build"),
            BottomMenuIntent::Archive => {
                let m = self.binding_blocked("select_bottom_menu.archive", &["archive_rules_binding"]);
                assert(Seq::new(1, |i: int| ["archive_rules_binding"]@[i]@) =~= seq!["archive_rules_binding"@]);
                m
            },
            BottomMenuIntent::Store => {
                let m = self.binding_blocked("select_bottom_menu.store", &["store_catalog_binding"]);
                assert(Seq::new(1, |i: int| ["store_catalog_binding"]@[i]@) =~= seq!["store_catalog_binding"@]);
                m
            },
            BottomMenuIntent::Raid => {
                let m = self.binding_blocked("select_bottom_menu.raid", &["raid_rules_binding"]);
                assert(Seq::new(1, |i: int| ["raid_rules_binding"]@[i]@) =~= seq!["raid_rules_binding"@]);
                m
            },
        }
    }

    /// Returns from the field (settling an empty return trip) or from the
    /// roster screen to the village, clearing the selection.
    pub fn navigate_back(&mut self) -> (message: ServerMessage)
        ensures
            back_outcome(*old(self), *final(self), message),
    {
        match self.state.screen {
            OriginalScreen::HunterRoster | OriginalScreen::Field => {
                if self.state.screen == OriginalScreen::Field {
                    let _ = settle_returning_hunters(&mut self.buildings);
                }
                self.state.screen = OriginalScreen::Village;
                self.selected_entity_id = None;
                self.accepted("navigate_back")
            },
            _ => self.rejected("navigate_back", "navigation_unavailable"),
        }
    }

    /// Leaves the village for the field: a new field trip starts.
    pub fn enter_field(&mut self) -> (message: ServerMessage)
        ensures
            field_outcome(*old(self), *final(self), message),
    {
        if self.state.screen != OriginalScreen::Village {
            return self.rejected("enter_field", "field_entry_unavailable");
        }
        self.state.screen = OriginalScreen::Field;
        self.buildings.field_trip_id = self.buildings.field_trip_id.saturating_add(1);
        self.selected_entity_id = None;
        self.accepted("enter_field")
    }
}

/// `durable` is what `session` persists: every durable section at the
/// current schema, densities in the current per-map format, and nothing of
/// the older sections.
pub open spec fn durable_form(session: OriginalFlowSession, durable: DurablePlayerAggregate) -> bool {
    &&& durable.schema_version == DURABLE_PLAYER_SCHEMA_VERSION
    &&& durable.navigation == session.state
    &&& same_building_state(durable.buildings, session.buildings)
    &&& same_roster(durable.hunter_roster, session.hunter_roster)
    &&& same_service_state(durable.product_services, session.product_services)
    &&& same_map_densities(durable.monster_field_config.densities@, session.monster_densities@)
    &&& durable.monster_field_config.legacy_map_id is None
    &&& durable.monster_field_config.legacy_density_level is None
    &&& same_hunter_agents(durable.hunter_world_runtime@, session.hunter_world_runtime@)
    &&& durable.legacy_infirmary is None
}

impl OriginalFlowSession {
    /// The durable aggregate of this session.
    pub fn durable_state(&self) -> (durable: DurablePlayerAggregate)
        ensures
            durable_form(*self, durable),
    {
        DurablePlayerAggregate {
            schema_version: DURABLE_PLAYER_SCHEMA_VERSION,
            navigation: self.state,
            buildings: copy_building_state(&self.buildings),
            hunter_roster: copy_roster(&self.hunter_roster),
            product_services: copy_service_state(&self.product_services),
            monster_field_config: DurableMonsterFieldConfig {
                densities: copy_map_densities(&self.monster_densities),
                legacy_map_id: None,
                legacy_density_level: None,
            },
            hunter_world_runtime: copy_hunter_agents(&self.hunter_world_runtime),
            legacy_infirmary: None,
        }
    }
}

} // verus!
