//! The fixed parts of the village and field views and their evidence
//! bindings, around the building snapshot.
use vstd::prelude::*;

use crate::building_projection::{building_system_shown, BuildingSystemSnapshot};
use crate::contracts::{BottomMenuIntent, OriginalScreen, WorldMode};
use crate::session::OriginalFlowSession;

verus! {

/// How firmly a presentation binding is established.
#[derive(Clone, Copy, Debug, PartialEq, Eq, Structural)]
pub enum BindingConfidence {
    Confirmed,
    StronglyInferred,
    Tentative,
    Unknown,
}

/// A presentation binding, how firmly it is established and whether it is
/// resolved.
#[derive(Clone, Debug, PartialEq, Eq)]
pub struct EvidenceBinding {
    pub id: &'static str,
    pub confidence: BindingConfidence,
    pub resolved: bool,
}

/// A binding with its confidence and resolution.
pub fn binding(id: &'static str, confidence: BindingConfidence, resolved: bool) -> (b: EvidenceBinding)
    ensures
        b.id@ == id@,
        b.confidence == confidence,
        b.resolved == resolved,
{
    EvidenceBinding { id, confidence, resolved }
}

/// What the client shows of the village: its scene, node groups, bottom
/// menu, presentation bindings and buildings.
#[derive(Clone, Debug, PartialEq, Eq)]
pub struct VillageSnapshot {
    pub source_scene: &'static str,
    pub canvas_nodes: Vec<&'static str>,
    pub world_nodes: Vec<&'static str>,
    pub bottom_menu: Vec<BottomMenuIntent>,
    pub bindings: Vec<EvidenceBinding>,
    pub building_system: BuildingSystemSnapshot,
}

/// What the client shows of the field scene.
#[derive(Clone, Debug, PartialEq, Eq)]
pub struct FieldSnapshot {
    pub scene_nodes: Vec<&'static str>,
    pub visual_projection_runnable: bool,
    pub gameplay_runnable: bool,
    pub blockers: Vec<&'static str>,
}

/// The text views of string slices.
pub open spec fn texts(items: Seq<&'static str>) -> Seq<Seq<char>> {
    items.map_values(|s: &'static str| s@)
}

/// A binding's id, confidence and resolution.
pub open spec fn binding_is(b: EvidenceBinding, id: Seq<char>, confidence: BindingConfidence, resolved: bool) -> bool {
    b.id@ == id && b.confidence == confidence && b.resolved == resolved
}

/// The village view: scene `level1`; its three canvases and three world
/// groups; the bottom menu Build, Character, Archive, Store, Raid; the
/// scene binding confirmed and the background, camera bounds and building
/// anchors unresolved; and the session's buildings.
pub open spec fn village_shown(snapshot: VillageSnapshot, session: OriginalFlowSession) -> bool {
    let bindings = snapshot.bindings@;
    &&& snapshot.source_scene@ == "level1"@
    &&& texts(snapshot.canvas_nodes@) == seq!["UICanvas"@, "MainCanvas"@, "WorldCanvas"@]
    &&& texts(snapshot.world_nodes@) == seq!["MapManager"@, "BuildGroup"@, "BottomView"@]
    &&& snapshot.bottom_menu@ == seq![
        BottomMenuIntent::Build,
        BottomMenuIntent::Character,
        BottomMenuIntent::Archive,
        BottomMenuIntent::Store,
        BottomMenuIntent::Raid,
    ]
    &&& bindings.len() == 4
    &&& binding_is(bindings[0], "scene.level1"@, BindingConfidence::Confirmed, true)
    &&& binding_is(bindings[1], "village.background"@, BindingConfidence::Tentative, false)
    &&& binding_is(bindings[2], "village.camera_bounds"@, BindingConfidence::Unknown, false)
    &&& binding_is(bindings[3], "village.building_anchors"@, BindingConfidence::Unknown, false)
    &&& building_system_shown(snapshot.building_system, session)
}

/// The field view: its five scene nodes, runnable for both presentation and
/// gameplay, with no blockers.
pub open spec fn field_shown(snapshot: FieldSnapshot) -> bool {
    &&& texts(snapshot.scene_nodes@) == seq!["World"@, "Hunter"@, "Evil"@, "HpBar"@, "StatusGroup"@]
    &&& snapshot.visual_projection_runnable
    &&& snapshot.gameplay_runnable
    &&& snapshot.blockers@.len() == 0
}

/// The world the client renders on a screen: the village and the field
/// have their own, boot and the roster screen none.
pub open spec fn world_mode_of(screen: OriginalScreen) -> WorldMode {
    match screen {
        OriginalScreen::Village => WorldMode::Village,
        OriginalScreen::Field => WorldMode::Field,
        OriginalScreen::Boot | OriginalScreen::HunterRoster => WorldMode::Inactive,
    }
}

impl OriginalFlowSession {
    /// The world the client renders now (see [`world_mode_of`]).
    pub fn world_mode(&self) -> (mode: WorldMode)
        ensures
            mode == world_mode_of(self.state.screen),
    {
        match self.state.screen {
            OriginalScreen::Village => WorldMode::Village,
            OriginalScreen::Field => WorldMode::Field,
            OriginalScreen::Boot | OriginalScreen::HunterRoster => WorldMode::Inactive,
        }
    }

    /// The village view of the session (see [`village_shown`]).
    pub fn village_snapshot(&self) -> (snapshot: VillageSnapshot)
        ensures
            village_shown(snapshot, *self),
    {
        let snapshot = VillageSnapshot {
            source_scene: "level1",
            canvas_nodes: vec!["UICanvas", "MainCanvas", "WorldCanvas"],
            world_nodes: vec!["MapManager", "BuildGroup", "BottomView"],
            bottom_menu: vec![
                BottomMenuIntent::Build,
                BottomMenuIntent::Character,
                BottomMenuIntent::Archive,
                BottomMenuIntent::Store,
                BottomMenuIntent::Raid,
            ],
            bindings: vec![
                binding("scene.level1", BindingConfidence::Confirmed, true),
                binding("village.background", BindingConfidence::Tentative, false),
                binding("village.camera_bounds", BindingConfidence::Unknown, false),
                binding("village.building_anchors", BindingConfidence::Unknown, false),
            ],
            building_system: self.building_snapshot(),
        };
        assert(texts(snapshot.canvas_nodes@) =~= seq!["UICanvas"@, "MainCanvas"@, "WorldCanvas"@]);
        assert(texts(snapshot.world_nodes@) =~= seq!["MapManager"@, "BuildGroup"@, "BottomView"@]);
        snapshot
    }
}

/// The field view.
pub fn field_snapshot() -> (snapshot: FieldSnapshot)
    ensures
        field_shown(snapshot),
{
    let snapshot = FieldSnapshot {
        scene_nodes: vec!["World", "Hunter", "Evil", "HpBar", "StatusGroup"],
        visual_projection_runnable: true,
        gameplay_runnable: true,
        blockers: Vec::new(),
    };
    assert(texts(snapshot.scene_nodes@) =~= seq!["World"@, "Hunter"@, "Evil"@, "HpBar"@, "StatusGroup"@]);
    snapshot
}

} // verus!
