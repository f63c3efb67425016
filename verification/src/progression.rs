use vstd::prelude::*;

use crate::text::str_eq;

verus! {

/// Identity of the experience table this library accepts.
pub const EXPERIENCE_PROGRESSION_ID: &'static str = "evil-hunter-1.411.experience-runtime-v1";

/// The experience table as delivered by the content store: one row per
/// level, six columns selected by the revive count.
pub struct HunterProgressionDefinition {
    pub progression_id: String,
    pub display_level_offset: i64,
    pub max_stored_level: u32,
    pub experience_by_level: Vec<[u64; 6]>,
}

/// The installed experience table.
pub struct ExperienceCatalog {
    pub max_stored_level: u32,
    pub display_level_offset: u32,
    pub rows: Vec<[u64; 6]>,
}

/// Why a progression definition was refused.
pub enum ProgressionInstallError {
    UnexpectedIdentity,
    InvalidDisplayOffset,
    ConflictingInstallation,
}

/// The rows of a catalog as a sequence of six-column sequences.
pub open spec fn catalog_rows(catalog: &ExperienceCatalog) -> Seq<Seq<u64>> {
    catalog.rows@.map_values(|row: [u64; 6]| row@)
}

/// `GetNeedExp(revive, level)`: row `level + 1`, column `revive` (selectors
/// above 4 take the last column); `None` where the row does not exist.
pub open spec fn need_experience_spec(rows: Seq<Seq<u64>>, revive: u32, level: u32) -> Option<u64> {
    let index = level + 1;
    if index > u32::MAX || index >= rows.len() {
        None
    } else {
        let column: int = if revive <= 4 { revive as int } else { 5 };
        Some(rows[index][column])
    }
}

/// The `PlusExp` carry rule: EXP strictly above the missing amount levels up
/// and carries the rest; reaching `max_level` discards the remaining grant.
pub open spec fn apply_experience_spec(
    rows: Seq<Seq<u64>>,
    max_level: u32,
    level: u32,
    current: u64,
    incoming: u64,
    revive: u32,
) -> Option<(u32, u64)>
    decreases max_level - level,
{
    if level >= max_level {
        Some((level, current))
    } else {
        match need_experience_spec(rows, revive, level) {
            None => None,
            Some(required) => {
                let missing: u64 = if required >= current { (required - current) as u64 } else { 0 };
                if incoming > missing {
                    let next_level = (level + 1) as u32;
                    if next_level >= max_level {
                        Some((next_level, 0u64))
                    } else {
                        apply_experience_spec(
                            rows,
                            max_level,
                            next_level,
                            0,
                            (incoming - missing) as u64,
                            revive,
                        )
                    }
                } else {
                    Some((level, current.saturating_add(incoming)))
                }
            }
        }
    }
}

/// The base of the secondary progression branch of `PlusExp`.
pub open spec fn secondary_base_spec(max_level: u32, revive: u32, level: u32, stage: u32) -> u32 {
    if revive == 5 && level == max_level && stage >= 6 {
        if stage == 6 { 100 } else { 125 }
    } else {
        75
    }
}

impl ExperienceCatalog {
    /// Accepts a definition with the expected identity and a display offset
    /// that fits `u32`.
    pub fn from_definition(definition: HunterProgressionDefinition) -> (result: Result<
        ExperienceCatalog,
        ProgressionInstallError,
    >)
        ensures
            definition.progression_id@ != EXPERIENCE_PROGRESSION_ID@ ==> result
                is Err && result->Err_0 is UnexpectedIdentity,
            definition.progression_id@ == EXPERIENCE_PROGRESSION_ID@ && (
            definition.display_level_offset < 0 || definition.display_level_offset > u32::MAX)
                ==> result is Err && result->Err_0 is InvalidDisplayOffset,
            definition.progression_id@ == EXPERIENCE_PROGRESSION_ID@ && 0
                <= definition.display_level_offset <= u32::MAX ==> (result matches Ok(catalog) && catalog.max_stored_level
                == definition.max_stored_level && catalog.display_level_offset
                == definition.display_level_offset && catalog.rows@ == definition.experience_by_level@),
    {
        if !str_eq(definition.progression_id.as_str(), EXPERIENCE_PROGRESSION_ID) {
            return Err(ProgressionInstallError::UnexpectedIdentity);
        }
        if definition.display_level_offset < 0 || definition.display_level_offset > 0xffff_ffffi64 {
            return Err(ProgressionInstallError::InvalidDisplayOffset);
        }
        Ok(ExperienceCatalog {
            max_stored_level: definition.max_stored_level,
            display_level_offset: definition.display_level_offset as u32,
            rows: definition.experience_by_level,
        })
    }

    /// A second installation is accepted only when it carries the same data.
    pub fn same_data(&self, other: &ExperienceCatalog) -> (same: bool)
        ensures
            same == (self.max_stored_level == other.max_stored_level
                && self.display_level_offset == other.display_level_offset
                && catalog_rows(self) == catalog_rows(other)),
    {
        if self.max_stored_level != other.max_stored_level
            || self.display_level_offset != other.display_level_offset
            || self.rows.len() != other.rows.len() {
            proof {
                if self.rows.len() != other.rows.len() {
                    assert(catalog_rows(self).len() != catalog_rows(other).len());
                }
            }
            return false;
        }
        let mut i: usize = 0;
        while i < self.rows.len()
            invariant
                self.rows.len() == other.rows.len(),
                0 <= i <= self.rows.len(),
                forall|k: int| 0 <= k < i ==> #[trigger] self.rows@[k]@ == other.rows@[k]@,
            decreases self.rows.len() - i,
        {
            let mut c: usize = 0;
            while c < 6
                invariant
                    i < self.rows.len() == other.rows.len(),
                    0 <= c <= 6,
                    forall|j: int| 0 <= j < c ==> self.rows@[i as int]@[j] == other.rows@[i as int]@[j],
                decreases 6 - c,
            {
                if self.rows[i][c] != other.rows[i][c] {
                    assert(catalog_rows(self)[i as int][c as int] != catalog_rows(other)[i as int][c as int]);
                    return false;
                }
                c = c + 1;
            }
            assert(self.rows@[i as int]@ =~= other.rows@[i as int]@);
            i = i + 1;
        }
        assert(catalog_rows(self) =~= catalog_rows(other));
        true
    }
}

/// The highest stored Hunter level.
pub fn original_hunter_max_stored_level(catalog: &ExperienceCatalog) -> (level: u32)
    ensures
        level == catalog.max_stored_level,
{
    catalog.max_stored_level
}

/// The highest displayed level: the stored maximum plus the display offset,
/// wrapping modulo 2^32.
pub fn original_hunter_max_display_level(catalog: &ExperienceCatalog) -> (level: u32)
    ensures
        level == vstd::wrapping::u32_specs::wrapping_add(
            catalog.max_stored_level,
            catalog.display_level_offset,
        ),
{
    original_hunter_max_stored_level(catalog).wrapping_add(catalog.display_level_offset)
}

/// The displayed level of a stored level (offset added, wrapping).
pub fn original_hunter_display_level(catalog: &ExperienceCatalog, stored_level: u32) -> (level: u32)
    ensures
        level == vstd::wrapping::u32_specs::wrapping_add(stored_level, catalog.display_level_offset),
{
    stored_level.wrapping_add(catalog.display_level_offset)
}

/// `GetNeedExp(revive, current_level)`.
pub fn original_need_experience(catalog: &ExperienceCatalog, revive: u32, current_level: u32) -> (need: Option<u64>)
    ensures
        need == need_experience_spec(catalog_rows(catalog), revive, current_level),
{
    if current_level == u32::MAX {
        return None;
    }
    let row_index: usize = (current_level + 1) as usize;
    if row_index >= catalog.rows.len() {
        return None;
    }
    let column: usize = if revive <= 4 { revive as usize } else { 5 };
    Some(catalog.rows[row_index][column])
}

/// Applies an experience grant with the `PlusExp` carry rule.
pub fn original_apply_experience(
    catalog: &ExperienceCatalog,
    level: u32,
    current_experience: u64,
    incoming_experience: u64,
    revive: u32,
) -> (result: Option<(u32, u64)>)
    ensures
        result == apply_experience_spec(
            catalog_rows(catalog),
            catalog.max_stored_level,
            level,
            current_experience,
            incoming_experience,
            revive,
        ),
{
    let maximum_level = original_hunter_max_stored_level(catalog);
    if level >= maximum_level {
        return Some((level, current_experience));
    }
    let ghost rows = catalog_rows(catalog);
    let mut lvl = level;
    let mut cur = current_experience;
    let mut inc = incoming_experience;
    loop
        invariant
            rows == catalog_rows(catalog),
            maximum_level == catalog.max_stored_level,
            lvl < maximum_level,
            apply_experience_spec(rows, maximum_level, lvl, cur, inc, revive) == apply_experience_spec(
                rows,
                maximum_level,
                level,
                current_experience,
                incoming_experience,
                revive,
            ),
        decreases maximum_level - lvl,
    {
        let required = match original_need_experience(catalog, revive, lvl) {
            Some(required) => required,
            None => return None,
        };
        let missing = required.saturating_sub(cur);
        if inc > missing {
            inc = inc - missing;
            lvl = lvl + 1;
            cur = 0;
            if lvl >= maximum_level {
                return Some((lvl, cur));
            }
        } else {
            cur = cur.saturating_add(inc);
            return Some((lvl, cur));
        }
    }
}

/// Base of the secondary progression branch: 100 or 125 at the level cap
/// on the fifth revive from stage 6, else 75.
pub fn original_secondary_progression_base(
    catalog: &ExperienceCatalog,
    revive: u32,
    hunter_level: u32,
    stage_level: u32,
) -> (base: u32)
    ensures
        base == secondary_base_spec(catalog.max_stored_level, revive, hunter_level, stage_level),
{
    if revive == 5 && hunter_level == original_hunter_max_stored_level(catalog) && stage_level >= 6 {
        if stage_level == 6 {
            100
        } else {
            125
        }
    } else {
        75
    }
}

/// A grant never moves a Hunter below its level, and from below the cap it
/// never moves it past the cap.
pub proof fn lemma_experience_level_bounds(
    rows: Seq<Seq<u64>>,
    max_level: u32,
    level: u32,
    current: u64,
    incoming: u64,
    revive: u32,
)
    ensures
        apply_experience_spec(rows, max_level, level, current, incoming, revive) matches Some(
            r,
        ) ==> level <= r.0 && (level < max_level ==> r.0 <= max_level),
    decreases max_level - level,
{
    if level < max_level {
        match need_experience_spec(rows, revive, level) {
            None => {},
            Some(required) => {
                let missing: u64 = if required >= current { (required - current) as u64 } else { 0 };
                if incoming > missing && level + 1 < max_level {
                    lemma_experience_level_bounds(rows, max_level, (level + 1) as u32, 0, (incoming - missing) as u64, revive);
                }
            },
        }
    }
}

/// EXP that exactly reaches the threshold never levels up: the Hunter keeps
/// its level and holds the full threshold.
pub proof fn lemma_exact_threshold_does_not_level(
    rows: Seq<Seq<u64>>,
    max_level: u32,
    level: u32,
    current: u64,
    incoming: u64,
    revive: u32,
)
    requires
        level < max_level,
        need_experience_spec(rows, revive, level) matches Some(required) && current <= required
            && current + incoming == required,
    ensures
        apply_experience_spec(rows, max_level, level, current, incoming, revive) == Some(
            (level, (current + incoming) as u64),
        ),
{
}

/// A grant below the cap measures the EXP missing for the next level as the
/// requirement less the EXP already held. A grant that keeps the total at
/// or under the requirement keeps the level and adds up; a grant that
/// passes it levels up and carries exactly the excess over the requirement
/// into the next level (the remaining grant is discarded at the cap), so the
/// result's level is above the starting one.
pub proof fn lemma_experience_grant_carries_excess(
    rows: Seq<Seq<u64>>,
    max_level: u32,
    level: u32,
    current: u64,
    incoming: u64,
    revive: u32,
)
    requires
        level < max_level,
        need_experience_spec(rows, revive, level) is Some,
        current <= need_experience_spec(rows, revive, level).unwrap(),
    ensures
        ({
            let required = need_experience_spec(rows, revive, level).unwrap();
            let result = apply_experience_spec(rows, max_level, level, current, incoming, revive);
            &&& current + incoming <= required ==> result == Some((level, (current + incoming) as u64))
            &&& current + incoming > required && level + 1 >= max_level ==> result == Some(((level + 1) as u32, 0u64))
            &&& current + incoming > required && level + 1 < max_level ==> result == apply_experience_spec(
                rows,
                max_level,
                (level + 1) as u32,
                0,
                (current + incoming - required) as u64,
                revive,
            )
            &&& current + incoming > required ==> (result matches Some(r) ==> r.0 > level)
        }),
{
    let required = need_experience_spec(rows, revive, level).unwrap();
    if current + incoming > required && level + 1 < max_level {
        lemma_experience_level_bounds(
            rows,
            max_level,
            (level + 1) as u32,
            0,
            (current + incoming - required) as u64,
            revive,
        );
    }
}

/// At or above the level cap a grant changes nothing: the Hunter keeps its
/// level and its EXP.
pub proof fn lemma_experience_capped(
    rows: Seq<Seq<u64>>,
    max_level: u32,
    level: u32,
    current: u64,
    incoming: u64,
    revive: u32,
)
    requires
        level >= max_level,
    ensures
        apply_experience_spec(rows, max_level, level, current, incoming, revive) == Some((level, current)),
{
}

} // verus!
