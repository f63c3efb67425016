use vstd::prelude::*;

use crate::text::{chars_of, has_prefix, starts_with, str_eq};
use crate::web_rebuild_gear::WeaponCatalog;

verus! {

/// An amount of one resource (gold, a material, an item).
#[derive(Clone, Debug, PartialEq, Eq)]
pub struct EconomyAmount {
    pub resource_id: String,
    pub quantity: u64,
}

/// A building level that must be reached before a construction or upgrade.
#[derive(Clone, Debug, PartialEq, Eq)]
pub struct BuildingLevelPrerequisite {
    pub building_id: String,
    pub required_level: u16,
}

/// A base building of the catalog.
#[derive(Clone, Debug, PartialEq, Eq)]
pub struct BaseBuildingDefinition {
    pub id: String,
    pub display_name: String,
    pub category: Option<String>,
    pub max_instances: u32,
    pub grid_width: u16,
    pub grid_height: u16,
    pub movable: Option<bool>,
    pub base_sprite_asset_id: Option<String>,
}

/// One level row of a base building.
#[derive(Clone, Debug, PartialEq, Eq)]
pub struct BuildingLevelDefinition {
    pub building_id: String,
    pub level: u16,
    pub production_slots: Option<u16>,
    pub costs: Vec<EconomyAmount>,
    pub prerequisites: Vec<BuildingLevelPrerequisite>,
}

/// Base buildings and their level rows.
#[derive(Clone, Debug, PartialEq, Eq)]
pub struct BuildingCatalog {
    pub bases: Vec<BaseBuildingDefinition>,
    pub levels: Vec<BuildingLevelDefinition>,
}

/// A capability a base building offers.
#[derive(Clone, Debug, PartialEq, Eq)]
pub struct BuildingCapabilityDefinition {
    pub building_id: String,
    pub kind: String,
    pub static_data_ready: bool,
    pub runnable: bool,
}

/// A display name in one locale.
#[derive(Clone, Debug, PartialEq, Eq)]
pub struct LocalizedName {
    pub locale: String,
    pub name: String,
}

/// An economy item (material, consumable, gear).
#[derive(Clone, Debug, PartialEq, Eq)]
pub struct EconomyItemDefinition {
    pub item_id: String,
    pub internal_name: Option<String>,
    pub item_type: Option<String>,
    pub town_pays_hunter_gold_per_unit: Option<u64>,
    pub localized_names: Vec<LocalizedName>,
    pub hunter_pays_town_gold_by_tier: Vec<u64>,
}

/// The paid service a product provides.
#[derive(Clone, Debug, PartialEq, Eq)]
pub struct ServiceDefinition {
    pub required_level: u16,
    pub use_money: u64,
    pub effect_value: u64,
    pub service_time_ms: u64,
}

/// A material a service product may be produced from.
#[derive(Clone, Debug, PartialEq, Eq)]
pub struct ConversionOption {
    pub input_resource_id: String,
    pub input_quantity: u64,
    pub output_stock_quantity: u64,
}

/// How a gear product is sold: the shop building, its difficulty group and
/// its rating, and the kind of gear it makes.
#[derive(Clone, Debug, PartialEq, Eq)]
pub struct GearProductRoute {
    pub kind: String,
    pub sale_building_id: String,
    pub difficulty_group: u16,
    pub rating: u16,
}

/// A product a building produces.
#[derive(Clone, Debug, PartialEq, Eq)]
pub struct EconomyProductDefinition {
    pub product_id: String,
    pub building_id: Option<String>,
    pub duration_ms: Option<u64>,
    pub inputs: Vec<EconomyAmount>,
    pub outputs: Vec<EconomyAmount>,
    pub sale_price: Vec<EconomyAmount>,
    pub service: Option<ServiceDefinition>,
    pub conversion_options: Vec<ConversionOption>,
    pub gear_route: Option<GearProductRoute>,
}

/// Capabilities, items and products of the building economy.
#[derive(Clone, Debug, PartialEq, Eq)]
pub struct BuildingGameplayCatalog {
    pub capabilities: Vec<BuildingCapabilityDefinition>,
    pub items: Vec<EconomyItemDefinition>,
    pub products: Vec<EconomyProductDefinition>,
}

/// All authoritative content a session runs on.
#[derive(Clone, Debug, PartialEq, Eq)]
pub struct AuthoritativeBuildingContent {
    pub catalog: BuildingCatalog,
    pub gameplay: BuildingGameplayCatalog,
    pub roam_anchors: Vec<(i32, i32)>,
    pub ordinary_hunt_regions: Vec<String>,
    pub monster_map_ids: Vec<String>,
    /// The rebuild weapons that weapon recipes stand for.
    pub weapons: WeaponCatalog,
}

/// First base building with `id`.
pub open spec fn find_base(bases: Seq<BaseBuildingDefinition>, id: Seq<char>) -> Option<BaseBuildingDefinition>
    decreases bases.len(),
{
    if bases.len() == 0 {
        None
    } else if bases[0].id@ == id {
        Some(bases[0])
    } else {
        find_base(bases.drop_first(), id)
    }
}

/// First level row of building `id` at `level`.
pub open spec fn find_level(levels: Seq<BuildingLevelDefinition>, id: Seq<char>, level: u16) -> Option<BuildingLevelDefinition>
    decreases levels.len(),
{
    if levels.len() == 0 {
        None
    } else if levels[0].building_id@ == id && levels[0].level == level {
        Some(levels[0])
    } else {
        find_level(levels.drop_first(), id, level)
    }
}

/// First item with `id`.
pub open spec fn find_item(items: Seq<EconomyItemDefinition>, id: Seq<char>) -> Option<EconomyItemDefinition>
    decreases items.len(),
{
    if items.len() == 0 {
        None
    } else if items[0].item_id@ == id {
        Some(items[0])
    } else {
        find_item(items.drop_first(), id)
    }
}

/// First product with `id`.
pub open spec fn find_product(products: Seq<EconomyProductDefinition>, id: Seq<char>) -> Option<EconomyProductDefinition>
    decreases products.len(),
{
    if products.len() == 0 {
        None
    } else if products[0].product_id@ == id {
        Some(products[0])
    } else {
        find_product(products.drop_first(), id)
    }
}

/// Whether building `id` offers a capability of `kind`.
pub open spec fn offers_capability(capabilities: Seq<BuildingCapabilityDefinition>, id: Seq<char>, kind: Seq<char>) -> bool {
    exists|i: int| 0 <= i < capabilities.len() && capabilities[i].building_id@ == id && capabilities[i].kind@ == kind
}

impl BuildingCatalog {
    /// The base building with `id`.
    pub fn base(&self, id: &str) -> (base: Option<&BaseBuildingDefinition>)
        ensures
            base matches Some(b) ==> find_base(self.bases@, id@) == Some(*b),
            base is None ==> find_base(self.bases@, id@) is None,
    {
        let mut i: usize = 0;
        assert(self.bases@.subrange(0, self.bases@.len() as int) =~= self.bases@);
        while i < self.bases.len()
            invariant
                0 <= i <= self.bases@.len(),
                find_base(self.bases@, id@) == find_base(self.bases@.subrange(i as int, self.bases@.len() as int), id@),
            decreases self.bases@.len() - i,
        {
            let ghost rest = self.bases@.subrange(i as int, self.bases@.len() as int);
            assert(rest.drop_first() =~= self.bases@.subrange(i + 1, self.bases@.len() as int));
            if str_eq(self.bases[i].id.as_str(), id) {
                return Some(&self.bases[i]);
            }
            i = i + 1;
        }
        None
    }

    /// The level row of building `id` at `level`.
    pub fn level(&self, id: &str, level: u16) -> (row: Option<&BuildingLevelDefinition>)
        ensures
            row matches Some(r) ==> find_level(self.levels@, id@, level) == Some(*r),
            row is None ==> find_level(self.levels@, id@, level) is None,
    {
        let mut i: usize = 0;
        assert(self.levels@.subrange(0, self.levels@.len() as int) =~= self.levels@);
        while i < self.levels.len()
            invariant
                0 <= i <= self.levels@.len(),
                find_level(self.levels@, id@, level) == find_level(self.levels@.subrange(i as int, self.levels@.len() as int), id@, level),
            decreases self.levels@.len() - i,
        {
            let ghost rest = self.levels@.subrange(i as int, self.levels@.len() as int);
            assert(rest.drop_first() =~= self.levels@.subrange(i + 1, self.levels@.len() as int));
            if self.levels[i].level == level && str_eq(self.levels[i].building_id.as_str(), id) {
                return Some(&self.levels[i]);
            }
            i = i + 1;
        }
        None
    }
}

impl BuildingGameplayCatalog {
    /// The item with `id`.
    pub fn item(&self, id: &str) -> (item: Option<&EconomyItemDefinition>)
        ensures
            item matches Some(it) ==> find_item(self.items@, id@) == Some(*it),
            item is None ==> find_item(self.items@, id@) is None,
    {
        let mut i: usize = 0;
        assert(self.items@.subrange(0, self.items@.len() as int) =~= self.items@);
        while i < self.items.len()
            invariant
                0 <= i <= self.items@.len(),
                find_item(self.items@, id@) == find_item(self.items@.subrange(i as int, self.items@.len() as int), id@),
            decreases self.items@.len() - i,
        {
            let ghost rest = self.items@.subrange(i as int, self.items@.len() as int);
            assert(rest.drop_first() =~= self.items@.subrange(i + 1, self.items@.len() as int));
            if str_eq(self.items[i].item_id.as_str(), id) {
                return Some(&self.items[i]);
            }
            i = i + 1;
        }
        None
    }

    /// The product with `id`.
    pub fn product(&self, id: &str) -> (product: Option<&EconomyProductDefinition>)
        ensures
            product matches Some(p) ==> find_product(self.products@, id@) == Some(*p),
            product is None ==> find_product(self.products@, id@) is None,
    {
        let mut i: usize = 0;
        assert(self.products@.subrange(0, self.products@.len() as int) =~= self.products@);
        while i < self.products.len()
            invariant
                0 <= i <= self.products@.len(),
                find_product(self.products@, id@) == find_product(self.products@.subrange(i as int, self.products@.len() as int), id@),
            decreases self.products@.len() - i,
        {
            let ghost rest = self.products@.subrange(i as int, self.products@.len() as int);
            assert(rest.drop_first() =~= self.products@.subrange(i + 1, self.products@.len() as int));
            if str_eq(self.products[i].product_id.as_str(), id) {
                return Some(&self.products[i]);
            }
            i = i + 1;
        }
        None
    }

    /// Whether building `id` offers a capability of `kind`.
    pub fn has_capability(&self, id: &str, kind: &str) -> (offers: bool)
        ensures
            offers == offers_capability(self.capabilities@, id@, kind@),
    {
        let mut i: usize = 0;
        while i < self.capabilities.len()
            invariant
                0 <= i <= self.capabilities@.len(),
                forall|j: int| 0 <= j < i ==> !(self.capabilities@[j].building_id@ == id@ && self.capabilities@[j].kind@ == kind@),
            decreases self.capabilities@.len() - i,
        {
            if str_eq(self.capabilities[i].building_id.as_str(), id) && str_eq(self.capabilities[i].kind.as_str(), kind) {
                return true;
            }
            i = i + 1;
        }
        false
    }
}

impl AuthoritativeBuildingContent {
    /// Content with no buildings, capabilities, items, products, anchors,
    /// hunting regions or monster maps.
    pub fn empty() -> (content: Self)
        ensures
            content.catalog.bases@.len() == 0,
            content.catalog.levels@.len() == 0,
            content.gameplay.capabilities@.len() == 0,
            content.gameplay.items@.len() == 0,
            content.gameplay.products@.len() == 0,
            content.roam_anchors@.len() == 0,
            content.ordinary_hunt_regions@.len() == 0,
            content.monster_map_ids@.len() == 0,
            content.weapons.weapons@.len() == 0,
    {
        AuthoritativeBuildingContent {
            catalog: BuildingCatalog { bases: Vec::new(), levels: Vec::new() },
            gameplay: BuildingGameplayCatalog { capabilities: Vec::new(), items: Vec::new(), products: Vec::new() },
            roam_anchors: Vec::new(),
            ordinary_hunt_regions: Vec::new(),
            monster_map_ids: Vec::new(),
            weapons: WeaponCatalog { weapons: Vec::new() },
        }
    }
}

} // verus!
