use hunter_town::hunter_projection::{
    equipped_weapon_attack_damage, hunter_roster_member, hunter_skill_catalog_preview,
    weapon_snapshots, HunterProgressSnapshot, HunterRidingPetSnapshot,
};
use hunter_town::product_service::HunterServiceGauge;
use hunter_town::roster::{
    DurableEquipmentSlot, DurableHunterHunt, DurableHunterLoot, DurableHunterOwnedItem,
    DurableHunterProfile, DurableHunterProgress, DurableHunterSkill, DurableHunterState,
    DurableHunterTrait,
};
use hunter_town::web_rebuild_gear::{WeaponBase, WeaponCatalog};
use uuid::Uuid;

const WEAPON_INSTANCE: u128 = 0x0123_4567_89ab_4cde_8f01_2345_6789_abcd;

fn weapons() -> WeaponCatalog {
    WeaponCatalog {
        weapons: vec![WeaponBase {
            id: "wp_berserker_000".to_owned(),
            class_id: "berserker".to_owned(),
            attack_damage_min: 60,
            attack_damage_max: 96,
            display_name_en: "Chipped Iron Greatsword".to_owned(),
            display_name_vi: "Đại Kiếm Sắt Mẻ".to_owned(),
            visual_family: "H1".to_owned(),
            expected_inventory_icon: "/content/evil-hunter-rebuild-v1/icons/weapon-0.png"
                .to_owned(),
        }],
    }
}

fn rolled_weapon(instance: u128, damage: u32) -> DurableHunterOwnedItem {
    DurableHunterOwnedItem {
        product_id: "recipe:weapon:0:rating:2".to_owned(),
        quantity: 1,
        enhancement_level: Some(3),
        gear_instance_id: Some(instance),
        quality: Some(2),
        primary_stat: Some(damage),
        option_type: None,
        option_value: None,
        ruleset: Some("web-rebuild-v1".to_owned()),
    }
}

fn weapon_slot(instance: u128) -> DurableEquipmentSlot {
    DurableEquipmentSlot {
        slot_id: "weapon".to_owned(),
        catalog_kind: format!("rebuild_weapon_instance:{}", Uuid::from_u128(instance)),
        catalog_index: 0,
        display_name: "Chipped Iron Greatsword".to_owned(),
        icon_path: "/content/evil-hunter-rebuild-v1/icons/weapon-0.png".to_owned(),
        presentation_gender: "neutral".to_owned(),
        required_class_id: None,
        locked: false,
        evidence_state: "resolved".to_owned(),
    }
}

fn hunter() -> DurableHunterState {
    DurableHunterState {
        hunter_id: 7,
        profile: DurableHunterProfile {
            display_name: "Hunter 7".to_owned(),
            class_id: "h1".to_owned(),
            class_name: "Berserker".to_owned(),
            visual_family: "H1".to_owned(),
            rarity_id: "rare".to_owned(),
            rarity_name: "Rare".to_owned(),
            level: 12,
            xp: 340,
            xp_to_next_level: Some(500),
            attack: 40,
            defense: 9,
            action_state: "idle".to_owned(),
            animation_name: "hunter_stay".to_owned(),
            traits: vec![
                DurableHunterTrait {
                    trait_id: "trait_brave".to_owned(),
                    display_name: "Brave".to_owned(),
                    icon_path: "traits/brave.png".to_owned(),
                    unlocked_rank: 1,
                    equipped: false,
                },
                DurableHunterTrait {
                    trait_id: "trait_greedy".to_owned(),
                    display_name: "Greedy".to_owned(),
                    icon_path: "traits/greedy.png".to_owned(),
                    unlocked_rank: 2,
                    equipped: true,
                },
            ],
            skills: vec![DurableHunterSkill {
                skill_id: "skill_h1_02".to_owned(),
                display_name: "War Cry".to_owned(),
                icon_path: None,
                animation_name: None,
                skill_level: 4,
                equipped_slot: Some(1),
                ready: false,
                cooldown_remaining_ms: 2_500,
            }],
            equipment_slots: vec![weapon_slot(WEAPON_INSTANCE)],
            reincarnation: Some(DurableHunterProgress { current: 1, maximum: 5 }),
            awakening: Some(DurableHunterProgress { current: 2, maximum: 3 }),
            dps_milli: Some(12_500),
            riding_pet_state_resolved: true,
            ..DurableHunterProfile::default()
        },
        hunt: DurableHunterHunt {
            loot: vec![
                DurableHunterLoot { item_id: "material:ore".to_owned(), quantity: 4 },
                DurableHunterLoot { item_id: "gold".to_owned(), quantity: 9 },
            ],
            ..DurableHunterHunt::default()
        },
        gold: 250,
        current_hp: 80,
        max_hp: 100,
        stamina: HunterServiceGauge { current: 50, maximum: 100 },
        satiety: HunterServiceGauge { current: 60, maximum: 100 },
        mood: HunterServiceGauge { current: 70, maximum: 100 },
        owned_items: vec![
            DurableHunterOwnedItem {
                product_id: "potion:small".to_owned(),
                quantity: 2,
                enhancement_level: None,
                gear_instance_id: None,
                quality: None,
                primary_stat: None,
                option_type: None,
                option_value: None,
                ruleset: None,
            },
            rolled_weapon(WEAPON_INSTANCE, 77),
            rolled_weapon(5, 61),
        ],
    }
}

#[test]
fn roster_member_adds_the_equipped_weapon_to_attack() {
    let member = hunter_roster_member(&hunter(), "active", 2, 30, &weapons());
    assert_eq!(equipped_weapon_attack_damage(&hunter()), 77);
    assert_eq!(member.attack, 117);
    assert_eq!(member.defense, 9);
    assert_eq!(member.hunter_id, 7);
    assert_eq!(member.class_family, "H1");
    assert_eq!(member.gold, 250);
    assert_eq!((member.stamina, member.max_satiety, member.mood), (50, 100, 70));
    assert_eq!(member.roster_state, "active");
    assert_eq!(member.position, 2);
}

#[test]
fn roster_member_attack_saturates() {
    let mut hunter = hunter();
    hunter.profile.attack = u64::MAX - 10;
    let member = hunter_roster_member(&hunter, "active", 0, 30, &weapons());
    assert_eq!(member.attack, u64::MAX);
}

#[test]
fn unequipped_hunter_attacks_with_profile_attack_only() {
    let mut hunter = hunter();
    hunter.profile.equipment_slots[0].slot_id = "helmet".to_owned();
    assert_eq!(equipped_weapon_attack_damage(&hunter), 0);
    let member = hunter_roster_member(&hunter, "waiting", 0, 30, &weapons());
    assert_eq!(member.attack, 40);
    assert!(member.hunter_info.weapons.iter().all(|weapon| !weapon.equipped));
}

#[test]
fn roster_member_names_the_equipped_trait() {
    let member = hunter_roster_member(&hunter(), "active", 0, 30, &weapons());
    assert_eq!(member.trait_name.as_deref(), Some("Greedy"));
    assert_eq!(member.traits.len(), 2);
    assert_eq!(member.traits[1].unlocked_rank, 2);
    let mut plain = hunter();
    plain.profile.traits[1].equipped = false;
    assert_eq!(hunter_roster_member(&plain, "active", 0, 30, &weapons()).trait_name, None);
}

#[test]
fn hunt_panel_status_reads_idle_only_for_an_idle_hunt() {
    let member = hunter_roster_member(&hunter(), "active", 0, 30, &weapons());
    assert_eq!(member.hunt.status, "idle");
    assert_eq!(member.hunt.required_ticks, 30);
    assert_eq!(member.hunt.ruleset, "web-rebuild-v1-fixture");
    assert_eq!(member.hunt.loot.len(), 2);
    let mut hunting = hunter();
    hunting.hunt.zone_id = Some("zone_forest".to_owned());
    hunting.hunt.status = "hunting".to_owned();
    hunting.hunt.progress_ticks = 12;
    let member = hunter_roster_member(&hunting, "active", 0, 30, &weapons());
    assert_eq!(member.hunt.status, "hunting");
    assert_eq!(member.hunt.zone_id.as_deref(), Some("zone_forest"));
    assert_eq!(member.hunt.progress_ticks, 12);
}

#[test]
fn info_panel_shows_experience_and_reincarnation_progress() {
    let member = hunter_roster_member(&hunter(), "active", 0, 30, &weapons());
    let info = &member.hunter_info;
    assert_eq!(info.experience, Some(HunterProgressSnapshot { current: 340, maximum: 500 }));
    assert_eq!(info.reincarnation, Some(HunterProgressSnapshot { current: 1, maximum: 5 }));
    assert_eq!(info.status.awakening, Some(HunterProgressSnapshot { current: 2, maximum: 3 }));
    assert_eq!(info.status.dps_milli, Some(12_500));
    assert_eq!(info.growth, None);
    assert_eq!(
        info.riding_pet,
        Some(HunterRidingPetSnapshot::Empty { mounted: false, can_move_to_ranch: false })
    );
    let materials = info.materials.as_ref().unwrap();
    assert_eq!(materials.len(), 1);
    assert_eq!(materials[0].material_id, "material:ore");
    let mut capped = hunter();
    capped.profile.xp_to_next_level = None;
    capped.profile.riding_pet_state_resolved = false;
    let member = hunter_roster_member(&capped, "active", 0, 30, &weapons());
    assert_eq!(member.hunter_info.experience, None);
    assert_eq!(member.hunter_info.riding_pet, None);
}

#[test]
fn weapons_panel_marks_compatible_and_equipped_weapons() {
    let rows = weapon_snapshots(&hunter(), &weapons());
    assert_eq!(rows.len(), 2);
    assert_eq!(rows[0].gear_instance_id, WEAPON_INSTANCE);
    assert_eq!(rows[0].weapon_id, "wp_berserker_000");
    assert_eq!(rows[0].attack_damage, 77);
    assert_eq!((rows[0].attack_damage_min, rows[0].attack_damage_max), (60, 96));
    assert_eq!(rows[0].enhancement_level, 3);
    assert!(rows[0].compatible);
    assert!(rows[0].equipped);
    assert_eq!(rows[1].gear_instance_id, 5);
    assert!(!rows[1].equipped);
    let mut other_family = hunter();
    other_family.profile.visual_family = "H2".to_owned();
    let rows = weapon_snapshots(&other_family, &weapons());
    assert!(rows.iter().all(|row| !row.compatible));
}

#[test]
fn skill_preview_shows_learned_state_of_the_class_skills() {
    let rows = hunter_skill_catalog_preview(&hunter());
    assert_eq!(rows.len(), 2);
    assert_eq!(rows[0].skill_id, "skill_h1_01");
    assert_eq!(
        rows[0].icon_path.as_deref(),
        Some("/content/releases/evil-hunter-1.411/hunter-assets/ui/skills/skill_h1_01__1395.png")
    );
    assert_eq!(rows[0].level, None);
    assert_eq!(rows[0].unlock_requirement.as_deref(), Some("Learned-state fixture unresolved"));
    assert_eq!(rows[1].skill_id, "skill_h1_02");
    assert_eq!(rows[1].level, Some(4));
    assert_eq!(rows[1].unlocked, Some(true));
    assert_eq!(rows[1].ready, Some(false));
    assert_eq!(rows[1].cooldown_remaining_ms, Some(2_500));
    assert_eq!(
        rows[1].description.as_deref(),
        Some("Charge to enemy and Stun it. Catalog definition; learned state remains server-owned.")
    );
    let mut other = hunter();
    other.profile.class_id = "h9".to_owned();
    let rows = hunter_skill_catalog_preview(&other);
    assert_eq!(rows[0].skill_id, "skill_h5_01");
    assert_eq!(rows[0].icon_path, None);
    assert_eq!(rows[1].group.as_deref(), Some("Basic Skills"));
}
