use vstd::prelude::*;

use crate::rng::{range_value, DeterministicRng};
use crate::seqs::{first_index, lemma_first_index_is, lemma_first_index_none};
use crate::text::{
    append_decimal, append_str, chars_of, decimal_text, ends_with, has_prefix, has_suffix, parse_bounded,
    parse_decimal, starts_with,
};

verus! {

/// Ruleset recorded on weapons rolled by this library.
pub const WEAPON_ROLL_RULESET: &'static str = "evil-hunter-rebuild-v1.weapon-core-v1";

/// A base weapon of the rebuild weapon catalog.
#[derive(Clone, Debug, PartialEq, Eq)]
pub struct WeaponBase {
    pub id: String,
    pub class_id: String,
    pub attack_damage_min: u32,
    pub attack_damage_max: u32,
    pub display_name_en: String,
    pub display_name_vi: String,
    pub visual_family: String,
    pub expected_inventory_icon: String,
}

/// The rebuild weapon catalog.
#[derive(Clone, Debug, PartialEq, Eq)]
pub struct WeaponCatalog {
    pub weapons: Vec<WeaponBase>,
}

/// A crafted weapon rolled from its base.
#[derive(Clone, Debug, PartialEq, Eq)]
pub struct RolledCraftedWeapon {
    pub gear_instance_id: u128,
    pub weapon_id: String,
    pub quality: u8,
    pub attack_damage: u32,
    pub icon_path: String,
}

/// The weapon a purchased recipe stands for.
#[derive(Clone, Debug, PartialEq, Eq)]
pub struct RebuildWeaponDefinition {
    pub gear_index: u32,
    pub weapon_id: String,
    pub class_id: String,
    pub visual_family: String,
    pub display_name_en: String,
    pub display_name_vi: String,
    pub attack_damage_min: u32,
    pub attack_damage_max: u32,
    pub icon_path: String,
}

/// A colon.
pub open spec fn is_colon(c: char) -> bool {
    c == ':'
}

/// No character of `s` is a colon.
pub open spec fn colon_free(s: Seq<char>) -> bool {
    forall|i: int| 0 <= i < s.len() ==> !is_colon(#[trigger] s[i])
}

/// The gear index of a weapon recipe id `recipe:weapon:{index}:rating:{rating}`
/// read field by field as a split on `:`: exactly five fields, the index a
/// `u32` and the rating a `u8` as std's `FromStr` reads them.
pub open spec fn weapon_recipe_index(id: Seq<char>) -> Option<nat> {
    let prefix = "recipe:weapon:"@;
    if !has_prefix(id, prefix) {
        None
    } else {
        let rest = id.skip(prefix.len() as int);
        match first_index(rest, |c: char| is_colon(c)) {
            None => None,
            Some(k) => {
                let tail = rest.skip(k);
                let rating = tail.skip(":rating:"@.len() as int);
                if has_prefix(tail, ":rating:"@) && colon_free(rating) && parse_bounded(rating, 255) is Some {
                    parse_bounded(rest.take(k), u32::MAX as nat)
                } else {
                    None
                }
            },
        }
    }
}

/// Finds the first colon of `chars` at or after `start`.
fn find_colon(chars: &Vec<char>, start: usize) -> (at: Option<usize>)
    requires
        start <= chars@.len(),
    ensures
        at matches Some(k) ==> start <= k < chars@.len() && first_index(chars@.skip(start as int), |c: char| is_colon(c))
            == Some(k - start),
        at is None ==> first_index(chars@.skip(start as int), |c: char| is_colon(c)) is None,
{
    let ghost rest = chars@.skip(start as int);
    let ghost p = |c: char| is_colon(c);
    let mut k = start;
    while k < chars.len()
        invariant
            start <= k <= chars@.len(),
            rest == chars@.skip(start as int),
            p == (|c: char| is_colon(c)),
            forall|j: int| 0 <= j < k - start ==> !p(#[trigger] rest[j]),
        decreases chars@.len() - k,
    {
        if chars[k] == ':' {
            proof {
                assert(rest[k - start] == chars@[k as int]);
                lemma_first_index_is(rest, p, k - start);
            }
            return Some(k);
        }
        assert(rest[k - start] == chars@[k as int]);
        k = k + 1;
    }
    proof {
        lemma_first_index_none(rest, p);
    }
    None
}

/// Reads the gear index of a weapon recipe id (see
/// [`weapon_recipe_index`]).
pub fn parse_weapon_product_id(product_id: &str) -> (index: Option<u32>)
    ensures
        index matches Some(i) ==> weapon_recipe_index(product_id@) == Some(i as nat),
        index is None ==> weapon_recipe_index(product_id@) is None,
{
    let chars = chars_of(product_id);
    let prefix = chars_of("recipe:weapon:");
    if !starts_with(&chars, &prefix) {
        return None;
    }
    let start = prefix.len();
    let ghost rest = chars@.skip(start as int);
    let k = match find_colon(&chars, start) {
        Some(k) => k,
        None => {
            return None;
        },
    };
    let ghost tail = rest.skip(k - start);
    assert(tail =~= chars@.skip(k as int));
    let marker = chars_of(":rating:");
    let marked = if marker.len() <= chars.len() - k {
        let m = crate::text::matches_at(&chars, k, &marker);
        assert(m == has_prefix(tail, marker@)) by {
            if k + marker@.len() <= chars@.len() {
                assert(tail.subrange(0, marker@.len() as int) =~= chars@.subrange(k as int, k + marker@.len()));
            }
        }
        m
    } else {
        assert(!has_prefix(tail, marker@));
        false
    };
    if !marked {
        return None;
    }
    let rating_start = k + marker.len();
    let ghost rating = tail.skip(marker@.len() as int);
    assert(rating =~= chars@.skip(rating_start as int));
    match find_colon(&chars, rating_start) {
        Some(_) => {
            proof {
                crate::seqs::lemma_first_index(rating, |c: char| is_colon(c));
            }
            return None;
        },
        None => {
            proof {
                crate::seqs::lemma_first_index(rating, |c: char| is_colon(c));
            }
        },
    }
    let parsed_rating = parse_decimal(&chars, rating_start, chars.len(), 255);
    assert(chars@.subrange(rating_start as int, chars@.len() as int) =~= rating);
    if parsed_rating.is_none() {
        return None;
    }
    let parsed = parse_decimal(&chars, start, k, 0xffff_ffff);
    assert(chars@.subrange(start as int, k as int) =~= rest.take(k - start));
    match parsed {
        Some(v) => Some(v as u32),
        None => None,
    }
}

/// The file name of weapon `gear_index`'s inventory icon.
pub open spec fn weapon_icon_name(gear_index: u32) -> Seq<char> {
    "weapon-"@ + decimal_text(gear_index as nat) + ".png"@
}

/// A weapon whose inventory icon is weapon `gear_index`'s.
pub open spec fn weapon_with_icon(gear_index: u32) -> spec_fn(WeaponBase) -> bool {
    |w: WeaponBase| has_suffix(w.expected_inventory_icon@, weapon_icon_name(gear_index))
}

/// Finds the base weapon of `gear_index`: the first whose inventory icon is
/// that weapon's.
pub fn catalog_weapon(catalog: &WeaponCatalog, gear_index: u32) -> (index: Option<usize>)
    ensures
        index matches Some(i) ==> first_index(catalog.weapons@, weapon_with_icon(gear_index)) == Some(i as int)
            && i < catalog.weapons@.len(),
        index is None ==> first_index(catalog.weapons@, weapon_with_icon(gear_index)) is None,
{
    let mut name: Vec<char> = Vec::new();
    append_str(&mut name, "weapon-");
    append_decimal(&mut name, gear_index as u64);
    append_str(&mut name, ".png");
    let ghost p = weapon_with_icon(gear_index);
    let mut i: usize = 0;
    while i < catalog.weapons.len()
        invariant
            0 <= i <= catalog.weapons@.len(),
            name@ == weapon_icon_name(gear_index),
            p == weapon_with_icon(gear_index),
            forall|j: int| 0 <= j < i ==> !p(#[trigger] catalog.weapons@[j]),
        decreases catalog.weapons@.len() - i,
    {
        let icon = chars_of(catalog.weapons[i].expected_inventory_icon.as_str());
        if ends_with(&icon, &name) {
            proof {
                lemma_first_index_is(catalog.weapons@, p, i as int);
            }
            return Some(i);
        }
        i = i + 1;
    }
    proof {
        lemma_first_index_none(catalog.weapons@, p);
    }
    None
}

/// `definition` presents base weapon `base` as gear `gear_index`.
pub open spec fn defines_weapon(definition: RebuildWeaponDefinition, base: WeaponBase, gear_index: u32) -> bool {
    &&& definition.gear_index == gear_index
    &&& definition.weapon_id@ == base.id@
    &&& definition.class_id@ == base.class_id@
    &&& definition.visual_family@ == base.visual_family@
    &&& definition.display_name_en@ == base.display_name_en@
    &&& definition.display_name_vi@ == base.display_name_vi@
    &&& definition.attack_damage_min == base.attack_damage_min
    &&& definition.attack_damage_max == base.attack_damage_max
    &&& definition.icon_path@ == base.expected_inventory_icon@
}

/// The definition of the weapon a recipe id stands for: the catalog's base
/// weapon of the recipe's gear index, if the id is a weapon recipe and the
/// catalog holds that weapon.
pub open spec fn weapon_definition_of(product_id: Seq<char>, catalog: WeaponCatalog) -> Option<RebuildWeaponDefinition> {
    match weapon_recipe_index(product_id) {
        None => None,
        Some(index) => match first_index(catalog.weapons@, weapon_with_icon(index as u32)) {
            None => None,
            Some(w) => {
                let base = catalog.weapons@[w];
                Some(
                    RebuildWeaponDefinition {
                        gear_index: index as u32,
                        weapon_id: base.id,
                        class_id: base.class_id,
                        visual_family: base.visual_family,
                        display_name_en: base.display_name_en,
                        display_name_vi: base.display_name_vi,
                        attack_damage_min: base.attack_damage_min,
                        attack_damage_max: base.attack_damage_max,
                        icon_path: base.expected_inventory_icon,
                    },
                )
            },
        },
    }
}

/// The weapon a purchased recipe stands for: the catalog's base weapon of
/// the recipe's gear index; `None` for a recipe that is not a weapon recipe
/// or names a weapon the catalog lacks.
pub fn rebuild_weapon_definition(product_id: &str, catalog: &WeaponCatalog) -> (definition: Option<RebuildWeaponDefinition>)
    ensures
        definition == weapon_definition_of(product_id@, *catalog),
        definition is None <==> (weapon_recipe_index(product_id@) is None || first_index(
            catalog.weapons@,
            weapon_with_icon(weapon_recipe_index(product_id@).unwrap() as u32),
        ) is None),
        definition matches Some(d) ==> weapon_recipe_index(product_id@) == Some(d.gear_index as nat) && defines_weapon(
            d,
            catalog.weapons@[first_index(catalog.weapons@, weapon_with_icon(d.gear_index)).unwrap()],
            d.gear_index,
        ),
{
    let gear_index = match parse_weapon_product_id(product_id) {
        Some(i) => i,
        None => {
            return None;
        },
    };
    let w = match catalog_weapon(catalog, gear_index) {
        Some(w) => w,
        None => {
            return None;
        },
    };
    let base = &catalog.weapons[w];
    Some(
        RebuildWeaponDefinition {
            gear_index,
            weapon_id: base.id.clone(),
            class_id: base.class_id.clone(),
            visual_family: base.visual_family.clone(),
            display_name_en: base.display_name_en.clone(),
            display_name_vi: base.display_name_vi.clone(),
            attack_damage_min: base.attack_damage_min,
            attack_damage_max: base.attack_damage_max,
            icon_path: base.expected_inventory_icon.clone(),
        },
    )
}

/// The seed of a weapon roll: the two halves of the roll id, the gear index
/// and the rating (shifted into the top bits) combined by exclusive or.
pub open spec fn roll_seed(roll_id: u128, gear_index: u32, rating: u16) -> u64 {
    (roll_id as u64) ^ ((roll_id >> 64u128) as u64) ^ (gear_index as u64) ^ ((rating as u64) << 48u64)
}

/// A base weapon whose damage bounds both fit in an `i32`, as the weapon
/// generator takes them.
pub open spec fn damage_fits_i32(base: WeaponBase) -> bool {
    base.attack_damage_min <= i32::MAX && base.attack_damage_max <= i32::MAX
}

/// A damage range the generator can draw from: ordered, and no wider than
/// an `i32` can count.
pub open spec fn rollable(base: WeaponBase) -> bool {
    base.attack_damage_min <= base.attack_damage_max && base.attack_damage_max - base.attack_damage_min + 1 <= i32::MAX
}

/// Rolls a crafted weapon of gear `gear_index` and `rating` from `roll_id`:
/// the damage is the first draw of a generator seeded by [`roll_seed`] in
/// the base weapon's range, and the quality is the rating capped at 4.
/// `None` when the catalog lacks the weapon or a damage bound does not fit
/// in an `i32`.
pub fn roll_crafted_weapon(catalog: &WeaponCatalog, roll_id: u128, gear_index: u32, rating: u16) -> (rolled: Option<RolledCraftedWeapon>)
    requires
        first_index(catalog.weapons@, weapon_with_icon(gear_index)) matches Some(i) ==> (damage_fits_i32(
            catalog.weapons@[i],
        ) ==> rollable(catalog.weapons@[i])),
    ensures
        rolled is None <==> (first_index(catalog.weapons@, weapon_with_icon(gear_index)) matches Some(i) ==> !damage_fits_i32(
            catalog.weapons@[i],
        )),
        rolled matches Some(r) ==> {
            let base = catalog.weapons@[first_index(catalog.weapons@, weapon_with_icon(gear_index)).unwrap()];
            let seed = roll_seed(roll_id, gear_index, rating);
            let state: u64 = if seed == 0 { 1 } else { seed };
            &&& r.gear_instance_id == roll_id
            &&& r.weapon_id@ == base.id@
            &&& r.quality == (if rating <= 4 { rating } else { 4 })
            &&& r.attack_damage == range_value(
                crate::rng::lcg_step(state),
                base.attack_damage_min as i32,
                base.attack_damage_max as i32,
            )
            &&& base.attack_damage_min <= r.attack_damage <= base.attack_damage_max
            &&& r.icon_path@ == base.expected_inventory_icon@
        },
{
    let w = match catalog_weapon(catalog, gear_index) {
        Some(w) => w,
        None => {
            return None;
        },
    };
    let base = &catalog.weapons[w];
    if base.attack_damage_min > 2147483647u32 || base.attack_damage_max > 2147483647u32 {
        return None;
    }
    let seed: u64 = (roll_id as u64) ^ ((roll_id >> 64u128) as u64) ^ (gear_index as u64) ^ ((rating as u64) << 48u64);
    let mut rng = DeterministicRng::new(seed);
    let damage = rng.range_inclusive(base.attack_damage_min as i32, base.attack_damage_max as i32);
    let quality: u8 = if rating <= 4 {
        rating as u8
    } else {
        4
    };
    Some(
        RolledCraftedWeapon {
            gear_instance_id: roll_id,
            weapon_id: base.id.clone(),
            quality,
            attack_damage: damage as u32,
            icon_path: base.expected_inventory_icon.clone(),
        },
    )
}

} // verus!
