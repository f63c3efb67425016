use hunter_town::web_rebuild_gear::{
    parse_weapon_product_id, rebuild_weapon_definition, roll_crafted_weapon, WeaponBase,
    WeaponCatalog,
};

/// The first entry of the rebuild weapon catalog.
fn catalog() -> WeaponCatalog {
    WeaponCatalog {
        weapons: vec![WeaponBase {
            id: "wp_berserker_000".to_owned(),
            class_id: "berserker".to_owned(),
            attack_damage_min: 60,
            attack_damage_max: 96,
            display_name_en: "Chipped Iron Greatsword".to_owned(),
            display_name_vi: "Đại Kiếm Sắt Mẻ".to_owned(),
            visual_family: "H1".to_owned(),
            expected_inventory_icon: "/content/evil-hunter-rebuild-v1/icons/weapon-0.png".to_owned(),
        }],
    }
}

#[test]
fn purchased_weapon_definition_is_resolved_from_the_recipe_identity() {
    let catalog = catalog();
    let weapon = rebuild_weapon_definition("recipe:weapon:0:rating:0", &catalog).unwrap();
    assert_eq!(weapon.weapon_id, "wp_berserker_000");
    assert_eq!(weapon.visual_family, "H1");
    assert_eq!(weapon.display_name_vi, "Đại Kiếm Sắt Mẻ");
    assert!(weapon.icon_path.starts_with("/content/"));
    assert!(rebuild_weapon_definition("recipe:helmet:0:rating:0", &catalog).is_none());
}

#[test]
fn weapon_roll_is_deterministic_and_stays_inside_the_base_range() {
    let catalog = catalog();
    let first = roll_crafted_weapon(&catalog, 42, 0, 1).unwrap();
    let replay = roll_crafted_weapon(&catalog, 42, 0, 1).unwrap();
    assert_eq!(first, replay);
    assert_eq!(first.gear_instance_id, 42);
    assert_eq!(first.weapon_id, "wp_berserker_000");
    assert!((60..=96).contains(&first.attack_damage));
    assert!(first.icon_path.ends_with("weapon-0.png"));
}

#[test]
fn unknown_package_weapon_index_fails_closed() {
    assert!(roll_crafted_weapon(&catalog(), 42, 999, 1).is_none());
}

#[test]
fn weapon_recipe_ids_are_read_field_by_field() {
    assert_eq!(parse_weapon_product_id("recipe:weapon:12:rating:3"), Some(12));
    assert_eq!(parse_weapon_product_id("recipe:weapon:+7:rating:0"), Some(7));
    assert_eq!(parse_weapon_product_id("recipe:weapon:12:rating:256"), None);
    assert_eq!(parse_weapon_product_id("recipe:weapon:12:rating:3:extra"), None);
    assert_eq!(parse_weapon_product_id("recipe:weapon:12:level:3"), None);
    assert_eq!(parse_weapon_product_id("recipe:weapon:x:rating:3"), None);
    assert_eq!(parse_weapon_product_id("recipe:weapon:4294967296:rating:3"), None);
    assert_eq!(parse_weapon_product_id("recipe:weapon"), None);
}

#[test]
fn weapon_with_a_damage_bound_past_i32_is_not_rolled() {
    let mut catalog = catalog();
    catalog.weapons[0].attack_damage_max = 2_147_483_648;
    assert!(roll_crafted_weapon(&catalog, 42, 0, 1).is_none());
    catalog.weapons[0].attack_damage_min = 3_000_000_000;
    catalog.weapons[0].attack_damage_max = 3_000_000_001;
    assert!(roll_crafted_weapon(&catalog, 42, 0, 1).is_none());
}

#[test]
fn malformed_weapon_recipes_define_no_weapon() {
    let catalog = catalog();
    assert!(rebuild_weapon_definition("recipe:weapon:0:rating:256", &catalog).is_none());
    assert!(rebuild_weapon_definition("recipe:weapon:0:rating:0:x", &catalog).is_none());
    assert!(rebuild_weapon_definition("recipe:weapon:0", &catalog).is_none());
    let weapon = rebuild_weapon_definition("recipe:weapon:0:rating:4", &catalog).unwrap();
    assert_eq!(weapon.gear_index, 0);
    assert!(weapon.icon_path.ends_with("weapon-0.png"));
}
