use hunter_town::progression::{
    original_apply_experience, original_hunter_display_level, original_hunter_max_display_level,
    original_hunter_max_stored_level, original_need_experience, original_secondary_progression_base,
    ExperienceCatalog, HunterProgressionDefinition, ProgressionInstallError, EXPERIENCE_PROGRESSION_ID,
};

/// An experience table shaped like the runtime catalog: 100 rows, the first
/// rows carrying the recovered thresholds.
fn catalog() -> ExperienceCatalog {
    let mut rows = vec![[0_u64; 6]; 100];
    rows[1] = [240, 960, 1_200, 1_800, 2_400, 5_529_600];
    rows[2] = [243, 970, 1_210, 1_810, 2_410, 5_529_700];
    for (index, row) in rows.iter_mut().enumerate().skip(3) {
        *row = [1_000 * index as u64; 6];
    }
    let definition = HunterProgressionDefinition {
        progression_id: EXPERIENCE_PROGRESSION_ID.to_owned(),
        display_level_offset: 1,
        max_stored_level: 99,
        experience_by_level: rows,
    };
    match ExperienceCatalog::from_definition(definition) {
        Ok(catalog) => catalog,
        Err(_) => panic!("test catalog installs"),
    }
}

#[test]
fn get_need_exp_uses_level_plus_one_and_revive_column() {
    let catalog = catalog();
    assert_eq!(original_need_experience(&catalog, 0, 0), Some(240));
    assert_eq!(original_need_experience(&catalog, 0, 1), Some(243));
    assert_eq!(original_need_experience(&catalog, 1, 0), Some(960));
    assert_eq!(original_need_experience(&catalog, 5, 0), Some(5_529_600));
    assert_eq!(original_need_experience(&catalog, 99, 0), Some(5_529_600));
}

#[test]
fn exact_threshold_does_not_level_until_experience_exceeds_it() {
    let catalog = catalog();
    assert_eq!(original_apply_experience(&catalog, 0, 0, 240, 0), Some((0, 240)));
    assert_eq!(original_apply_experience(&catalog, 0, 0, 241, 0), Some((1, 1)));
}

#[test]
fn carry_can_cross_multiple_catalog_levels() {
    let catalog = catalog();
    // 241 crosses level 0, then 243 crosses level 1, leaving one EXP.
    assert_eq!(original_apply_experience(&catalog, 0, 0, 484, 0), Some((2, 1)));
}

#[test]
fn maximum_level_discards_the_incoming_grant() {
    let catalog = catalog();
    assert_eq!(original_hunter_max_stored_level(&catalog), 99);
    assert_eq!(original_hunter_max_display_level(&catalog), 100);
    assert_eq!(original_hunter_display_level(&catalog, 99), 100);
    assert_eq!(original_apply_experience(&catalog, 99, 77, 999, 0), Some((99, 77)));
    assert_eq!(original_apply_experience(&catalog, 98, 0, u64::MAX, 0), Some((99, 0)));
}

#[test]
fn secondary_progression_selector_is_not_an_alternate_level_cap() {
    let catalog = catalog();
    assert_eq!(original_secondary_progression_base(&catalog, 4, 99, 6), 75);
    assert_eq!(original_secondary_progression_base(&catalog, 5, 98, 6), 75);
    assert_eq!(original_secondary_progression_base(&catalog, 5, 99, 5), 75);
    assert_eq!(original_secondary_progression_base(&catalog, 5, 99, 6), 100);
    assert_eq!(original_secondary_progression_base(&catalog, 5, 99, 7), 125);
}

#[test]
fn need_experience_is_none_past_the_last_row() {
    let catalog = catalog();
    assert_eq!(original_need_experience(&catalog, 0, 99), None);
    assert_eq!(original_need_experience(&catalog, 0, u32::MAX), None);
}

#[test]
fn progression_installation_checks_identity_and_offset() {
    let wrong_identity = HunterProgressionDefinition {
        progression_id: "another".to_owned(),
        display_level_offset: 1,
        max_stored_level: 99,
        experience_by_level: Vec::new(),
    };
    assert!(matches!(
        ExperienceCatalog::from_definition(wrong_identity),
        Err(ProgressionInstallError::UnexpectedIdentity)
    ));
    let negative_offset = HunterProgressionDefinition {
        progression_id: EXPERIENCE_PROGRESSION_ID.to_owned(),
        display_level_offset: -1,
        max_stored_level: 99,
        experience_by_level: Vec::new(),
    };
    assert!(matches!(
        ExperienceCatalog::from_definition(negative_offset),
        Err(ProgressionInstallError::InvalidDisplayOffset)
    ));
    assert!(catalog().same_data(&catalog()));
}
