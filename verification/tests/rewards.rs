use hunter_town::rewards::{plus_gold_is_scaled, plus_gold_settle, OriginalPlusGoldResult};

#[test]
fn plus_gold_branch_scales_only_revived_hunters_on_low_stages() {
    assert!(!plus_gold_is_scaled(2, 3));
    assert!(!plus_gold_is_scaled(3, 3));
    assert!(plus_gold_is_scaled(4, 3));
    assert!(!plus_gold_is_scaled(5, 4));
}

#[test]
fn plus_gold_settle_adds_positive_grants_only() {
    assert_eq!(
        plus_gold_settle(10, 5),
        OriginalPlusGoldResult {
            granted_gold: 10,
            hunter_money: 15,
        }
    );
    assert_eq!(
        plus_gold_settle(3, 5),
        OriginalPlusGoldResult {
            granted_gold: 3,
            hunter_money: 8,
        }
    );
    assert_eq!(
        plus_gold_settle(0, 5),
        OriginalPlusGoldResult {
            granted_gold: 0,
            hunter_money: 5,
        }
    );
    assert_eq!(
        plus_gold_settle(-4, 5),
        OriginalPlusGoldResult {
            granted_gold: -4,
            hunter_money: 5,
        }
    );
}

#[test]
fn plus_gold_settle_wraps_like_the_original_purse() {
    assert_eq!(plus_gold_settle(1, i64::MAX).hunter_money, i64::MIN);
}
