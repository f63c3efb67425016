use hunter_town::gear::{first_percent_entries_needed, is_seal_attack_id, original_get_first_percent};

#[test]
fn first_percent_replays_the_original_step_schedule() {
    let values = [2, 3, 4, 5, 6, 7, 8, 9, 10];
    assert_eq!(original_get_first_percent(&values, -1), 0);
    assert_eq!(original_get_first_percent(&values, 0), 0);
    assert_eq!(original_get_first_percent(&values, 5), 10);
    assert_eq!(original_get_first_percent(&values, 12), 33);
    assert_eq!(original_get_first_percent(&values, 25), 110);
    assert_eq!(original_get_first_percent(&values, 30), 110);
}

#[test]
fn first_percent_reads_nothing_up_to_step_zero() {
    assert_eq!(original_get_first_percent(&[], 0), 0);
    assert_eq!(original_get_first_percent(&[], -5), 0);
    assert_eq!(original_get_first_percent(&[7], 5), 35);
}

#[test]
fn first_percent_entries_needed_follows_the_step_schedule() {
    assert_eq!(first_percent_entries_needed(-1), 0);
    assert_eq!(first_percent_entries_needed(0), 0);
    assert_eq!(first_percent_entries_needed(1), 1);
    assert_eq!(first_percent_entries_needed(5), 1);
    assert_eq!(first_percent_entries_needed(6), 2);
    assert_eq!(first_percent_entries_needed(20), 4);
    assert_eq!(first_percent_entries_needed(21), 5);
    assert_eq!(first_percent_entries_needed(25), 9);
    assert_eq!(first_percent_entries_needed(1000), 9);
}

#[test]
fn seal_attack_selector_knows_exactly_the_attack_seals() {
    assert!(is_seal_attack_id(157));
    assert!(is_seal_attack_id(161));
    assert!(is_seal_attack_id(822));
    assert!(!is_seal_attack_id(156));
    assert!(!is_seal_attack_id(162));
    assert!(!is_seal_attack_id(0));
}
