//! The integer side of the `PlusGold` reward sink: which branch scales a
//! grant, and how a granted amount reaches the hunter's purse.
use vstd::prelude::*;

verus! {

/// What `PlusGold` granted and the hunter's money afterwards.
#[derive(Clone, Copy, Debug, PartialEq, Eq, Structural)]
pub struct OriginalPlusGoldResult {
    pub granted_gold: i64,
    pub hunter_money: i64,
}

/// The grant is cut to three tenths when the hunter was revived more often
/// than the stage level and the stage is at most level three.
pub open spec fn plus_gold_scaled_spec(revive: i32, stage_level: i32) -> bool {
    revive > stage_level && stage_level <= 3
}

/// Whether `PlusGold` scales the post-tax grant down.
pub fn plus_gold_is_scaled(revive: i32, stage_level: i32) -> (scaled: bool)
    ensures
        scaled == plus_gold_scaled_spec(revive, stage_level),
{
    revive > stage_level && stage_level <= 3
}

/// The hunter's money after a grant: a grant of at least one gold is added
/// with two's-complement wrap-around, a smaller one leaves the purse alone.
pub open spec fn purse_after_grant(granted_gold: i64, current_money: i64) -> i64 {
    if granted_gold >= 1 {
        vstd::wrapping::i64_specs::wrapping_add(current_money, granted_gold)
    } else {
        current_money
    }
}

/// Pays a grant that the reward branch already settled into the purse.
pub fn plus_gold_settle(granted_gold: i64, current_money: i64) -> (result: OriginalPlusGoldResult)
    ensures
        result.granted_gold == granted_gold,
        result.hunter_money == purse_after_grant(granted_gold, current_money),
{
    let hunter_money = if granted_gold >= 1 {
        current_money.wrapping_add(granted_gold)
    } else {
        current_money
    };
    OriginalPlusGoldResult { granted_gold, hunter_money }
}

} // verus!
