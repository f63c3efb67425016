use hunter_town::product_service::HunterServiceGauge;
use hunter_town::roster::{
    DurableHunterHunt, DurableHunterProfile, DurableHunterState, DurableHunterTradeTask,
    HunterTradeWorkflow,
};

fn migration_hunter(hunter_id: u32) -> DurableHunterState {
    DurableHunterState {
        hunter_id,
        profile: DurableHunterProfile {
            display_name: format!("Hunter {hunter_id}"),
            class_id: "berserker".to_owned(),
            visual_family: "H1".to_owned(),
            action_state: "idle".to_owned(),
            animation_name: "hunter_stay".to_owned(),
            skills: Vec::new(),
            equipment_slots: Vec::new(),
            ..DurableHunterProfile::default()
        },
        hunt: DurableHunterHunt::default(),
        gold: 1_000,
        current_hp: 100,
        max_hp: 100,
        stamina: HunterServiceGauge { current: 100, maximum: 100 },
        satiety: HunterServiceGauge { current: 100, maximum: 100 },
        mood: HunterServiceGauge { current: 100, maximum: 100 },
        owned_items: Vec::new(),
    }
}

#[test]
fn invalid_or_orphaned_trade_state_fails_closed() {
    let mut hunter = migration_hunter(1);
    hunter.profile.action_state = "returning_to_trade".to_owned();
    HunterTradeWorkflow::normalize_restored(&mut hunter, |_| true);
    assert_eq!(hunter.profile.action_state, "idle");

    hunter.hunt.pending_trade = Some(DurableHunterTradeTask::default());
    HunterTradeWorkflow::normalize_restored(&mut hunter, |_| false);
    assert!(hunter.hunt.pending_trade.is_none());
    assert_eq!(hunter.hunt.status, "idle");
}

#[test]
fn valid_restored_trade_resumes_walking() {
    let mut hunter = migration_hunter(2);
    hunter.hunt.pending_trade = Some(DurableHunterTradeTask::default());
    HunterTradeWorkflow::normalize_restored(&mut hunter, |_| true);
    assert!(hunter.hunt.pending_trade.is_some());
    assert_eq!(hunter.hunt.status, "returning_to_trade");
    assert_eq!(hunter.profile.action_state, "returning_to_trade");
    assert_eq!(hunter.profile.animation_name, "hunter_walk");
}

#[test]
fn release_after_begin_leaves_the_hunter_idle_without_its_zone() {
    let mut hunter = migration_hunter(3);
    hunter.hunt.zone_id = Some("region-1".to_owned());
    hunter.hunt.status = "hunting".to_owned();
    HunterTradeWorkflow::begin(&mut hunter, DurableHunterTradeTask::default());
    assert!(hunter.hunt.zone_id.is_none());
    assert_eq!(hunter.profile.action_state, "returning_to_trade");
    HunterTradeWorkflow::release(&mut hunter);
    assert!(hunter.hunt.pending_trade.is_none());
    assert!(hunter.hunt.zone_id.is_none());
    assert_eq!(hunter.hunt.status, "idle");
    assert_eq!(hunter.profile.animation_name, "hunter_stay");
    assert_eq!(hunter.gold, 1_000);
}
