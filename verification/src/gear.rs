use vstd::prelude::*;

verus! {

/// The catalog slot a level step reads: steps 1 to 20 share a slot per five
/// steps (slots 0 to 3), steps 21 to 25 read slots 4 to 8, others none.
pub open spec fn first_percent_slot(step: int) -> Option<int> {
    if 1 <= step <= 20 {
        Some((step - 1) / 5)
    } else if 21 <= step <= 25 {
        Some(step - 17)
    } else {
        None
    }
}

/// The number of catalog entries the schedule reads up to `limit`.
pub open spec fn first_percent_required_len(limit: int) -> int {
    if limit >= 21 {
        (if limit >= 25 { 25 } else { limit }) - 16
    } else if limit >= 1 {
        (limit - 1) / 5 + 1
    } else {
        0
    }
}

/// The wrapping sum of the scheduled entries for steps `0..=limit`.
pub open spec fn first_percent_sum(values: Seq<i32>, limit: int) -> i32
    decreases limit + 1,
{
    if limit < 0 {
        0
    } else {
        let previous = first_percent_sum(values, limit - 1);
        match first_percent_slot(limit) {
            Some(slot) => vstd::wrapping::i32_specs::wrapping_add(previous, values[slot]),
            None => previous,
        }
    }
}

/// `GetFirstPercent`: the sum of the scheduled catalog entries for steps
/// `0..=limit` (0 for a negative limit). The catalog must hold every entry
/// the schedule reads.
pub fn original_get_first_percent(first_percent_values: &[i32], limit: i32) -> (total: i32)
    requires
        first_percent_required_len(limit as int) <= first_percent_values@.len(),
    ensures
        total == first_percent_sum(first_percent_values@, limit as int),
{
    if limit < 0 {
        return 0;
    }
    let mut total: i32 = 0;
    let mut step: i64 = 0;
    while step <= limit as i64
        invariant
            0 <= step <= limit + 1,
            first_percent_required_len(limit as int) <= first_percent_values@.len(),
            total == first_percent_sum(first_percent_values@, step - 1),
        decreases limit + 1 - step,
    {
        let index: Option<usize> = if 1 <= step && step <= 20 {
            Some(((step - 1) / 5) as usize)
        } else if 21 <= step && step <= 25 {
            Some((step - 17) as usize)
        } else {
            None
        };
        if let Some(index) = index {
            assert(index < first_percent_values@.len());
            total = total.wrapping_add(first_percent_values[index]);
        }
        step = step + 1;
    }
    total
}

/// Steps past 25 read no catalog entry, so every limit from 25 up yields the
/// same total.
pub proof fn lemma_first_percent_saturates(values: Seq<i32>, limit: int)
    requires
        limit >= 25,
    ensures
        first_percent_sum(values, limit) == first_percent_sum(values, 25),
    decreases limit,
{
    if limit > 25 {
        lemma_first_percent_saturates(values, limit - 1);
    }
}

/// How many catalog entries `original_get_first_percent` reads for `limit`;
/// a shorter catalog is not a valid input.
pub fn first_percent_entries_needed(limit: i32) -> (needed: usize)
    ensures
        needed == first_percent_required_len(limit as int),
{
    if limit >= 21 {
        let capped: i32 = if limit >= 25 { 25 } else { limit };
        (capped - 16) as usize
    } else if limit >= 1 {
        ((limit - 1) / 5 + 1) as usize
    } else {
        0
    }
}

/// The seal ids whose selected row feeds `GetSealAttackUp`.
pub open spec fn is_seal_attack_id_spec(seal_id: i32) -> bool {
    seal_id == 157 || seal_id == 158 || seal_id == 159 || seal_id == 160 || seal_id == 161
        || seal_id == 202 || seal_id == 255 || seal_id == 320 || seal_id == 359 || seal_id == 476
        || seal_id == 489 || seal_id == 531 || seal_id == 706 || seal_id == 758 || seal_id == 822
}

/// Whether `GetSealAttackUp` reads an attack bonus for this seal; any other
/// seal contributes nothing.
pub fn is_seal_attack_id(seal_id: i32) -> (selected: bool)
    ensures
        selected == is_seal_attack_id_spec(seal_id),
{
    match seal_id {
        157 | 158 | 159 | 160 | 161 | 202 | 255 | 320 | 359 | 476 | 489 | 531 | 706 | 758 | 822 => true,
        _ => false,
    }
}

} // verus!
