use vstd::prelude::*;

use crate::contracts::{DurableBuildingState, DurableMaterialStock};
use crate::text::{chars_of, decimal_value, has_prefix, parse_decimal, starts_with};

verus! {

/// Difficulty rating of each catalog material, by index: ratings 0 to 5 map
/// to the Trading Post levels Easy through Torment.
pub const MATERIAL_DIFFICULTY_RATINGS: [u8; 369] = [
    0, 0, 1, 2, 3, 4, 0, 1, 2, 3, 4, 0, 1, 2, 3, 4, 0, 1, 2, 3, 4, 0, 1, 2, 3, 4, 0, 1, 2, 3, 4, 0,
    0, 0, 1, 1, 2, 2, 3, 3, 4, 4, 0, 0, 1, 1, 2, 2, 3, 3, 4, 4, 0, 0, 1, 1, 2, 2, 3, 3, 4, 4, 0, 0,
    1, 1, 2, 2, 3, 3, 4, 4, 0, 0, 1, 1, 2, 2, 3, 3, 4, 4, 0, 0, 1, 1, 2, 2, 3, 3, 4, 4, 0, 0, 1, 1,
    2, 2, 3, 3, 4, 4, 0, 0, 1, 1, 2, 2, 3, 3, 4, 4, 0, 0, 1, 1, 2, 2, 3, 3, 4, 4, 0, 0, 1, 1, 2, 2,
    3, 3, 4, 4, 0, 0, 0, 0, 0, 0, 0, 0, 1, 2, 3, 4, 0, 1, 2, 3, 4, 0, 1, 2, 3, 4, 0, 0, 0, 1, 2, 3,
    4, 0, 1, 2, 3, 4, 4, 4, 4, 4, 4, 5, 5, 5, 5, 5, 0, 5, 5, 5, 5, 5, 5, 5, 5, 5, 5, 5, 5, 0, 0, 5,
    5, 5, 5, 5, 5, 5, 5, 5, 5, 5, 5, 5, 5, 5, 5, 5, 5, 5, 5, 5, 5, 5, 5, 5, 5, 5, 5, 5, 4, 5, 5, 5,
    4, 5, 5, 5, 4, 5, 5, 5, 4, 5, 5, 5, 4, 5, 5, 5, 4, 5, 5, 5, 4, 5, 5, 5, 4, 5, 5, 5, 4, 5, 5, 5,
    4, 5, 5, 5, 5, 5, 5, 5, 5, 4, 4, 4, 4, 4, 4, 4, 4, 4, 4, 4, 4, 4, 5, 5, 5, 5, 5, 5, 0, 0, 1, 2,
    3, 4, 5, 5, 5, 5, 5, 5, 0, 5, 5, 5, 5, 5, 5, 5, 5, 5, 5, 4, 4, 4, 5, 5, 5, 5, 5, 5, 5, 5, 5, 5,
    5, 5, 5, 5, 5, 4, 4, 4, 5, 5, 5, 5, 5, 5, 5, 5, 5, 5, 5, 5, 5, 5, 5, 5, 5, 5, 5, 5, 5, 5, 5, 5,
    5, 5, 5, 5, 4, 5, 5, 5, 5, 5, 5, 4, 5, 5, 5, 5, 5,
];

/// The difficulty rating of `material:<n>` for a catalog index `n`.
pub open spec fn difficulty_rating_of(material_id: Seq<char>) -> Option<u8> {
    let prefix = "material:"@;
    let index = decimal_value(material_id.subrange(prefix.len() as int, material_id.len() as int));
    if has_prefix(material_id, prefix) && index is Some && index->0 < 369 {
        Some(MATERIAL_DIFFICULTY_RATINGS@[index->0 as int])
    } else {
        None
    }
}

/// The difficulty rating of a catalog material.
pub fn material_difficulty_rating(material_id: &str) -> (rating: Option<u8>)
    ensures
        rating == difficulty_rating_of(material_id@),
{
    let chars = chars_of(material_id);
    let prefix = chars_of("material:");
    if !starts_with(&chars, &prefix) {
        return None;
    }
    match parse_decimal(&chars, prefix.len(), chars.len(), u64::MAX) {
        Some(index) => {
            if index < 369 {
                let table = MATERIAL_DIFFICULTY_RATINGS;
                Some(table[index as usize])
            } else {
                None
            }
        },
        None => None,
    }
}

/// A requested material that Hunters hold and the town would pay for.
pub open spec fn sale_awaits_settlement(stock: DurableMaterialStock) -> bool {
    stock.requested > 0 && stock.hunter_quantity > 0 && stock.unit_price > 0
}

/// Whether a return from the field can be marked settled: there is an
/// unsettled trip and no pooled sale needs a seller's wallet.
pub open spec fn return_settles(state: DurableBuildingState) -> bool {
    state.field_trip_id != 0 && state.settled_field_trip_id < state.field_trip_id && forall|i: int|
        0 <= i < state.material_stocks@.len() ==> !sale_awaits_settlement(#[trigger] state.material_stocks@[i])
}

/// Marks an empty return from the field as settled. It fails closed, and
/// changes nothing, when a sale would need settlement: pooled Hunter stock
/// cannot name the seller whose wallet to credit, and paying out of the town
/// wallet alone would break conservation of gold.
pub fn settle_returning_hunters(state: &mut DurableBuildingState) -> (settled: bool)
    ensures
        settled == return_settles(*old(state)),
        settled ==> *final(state) == (DurableBuildingState { settled_field_trip_id: old(state).field_trip_id, ..*old(state) }),
        !settled ==> *final(state) == *old(state),
{
    let trip_id = state.field_trip_id;
    if trip_id == 0 || state.settled_field_trip_id >= trip_id {
        return false;
    }
    let mut i: usize = 0;
    while i < state.material_stocks.len()
        invariant
            0 <= i <= state.material_stocks@.len(),
            forall|j: int| 0 <= j < i ==> !sale_awaits_settlement(#[trigger] state.material_stocks@[j]),
        decreases state.material_stocks@.len() - i,
    {
        let stock = &state.material_stocks[i];
        if stock.requested > 0 && stock.hunter_quantity > 0 && stock.unit_price > 0 {
            return false;
        }
        i = i + 1;
    }
    state.settled_field_trip_id = trip_id;
    true
}

} // verus!
