use hunter_town::presentation::service_speech;
use hunter_town::product_service::{capacity_for_level, HunterServiceGauge, ServiceEffectKind};

#[test]
fn recovered_service_capacity_is_shared_by_the_four_service_buildings() {
    for building_id in ["build_9", "build_12", "build_13", "build_19"] {
        assert_eq!(capacity_for_level(building_id, 1), Some(3));
        assert_eq!(capacity_for_level(building_id, 7), Some(6));
        assert_eq!(capacity_for_level(building_id, 8), None);
    }
}

#[test]
fn restore_caps_at_the_authoritative_maximum() {
    let mut gauge = HunterServiceGauge {
        current: 80,
        maximum: 100,
    };
    gauge.restore(50);
    assert_eq!(gauge.current, 100);
}

#[test]
fn service_kinds_follow_their_buildings() {
    assert_eq!(ServiceEffectKind::for_building("build_9"), Some(ServiceEffectKind::Stamina));
    assert_eq!(ServiceEffectKind::for_building("build_12"), Some(ServiceEffectKind::Hp));
    assert_eq!(ServiceEffectKind::for_building("build_13"), Some(ServiceEffectKind::Satiety));
    assert_eq!(ServiceEffectKind::for_building("build_19"), Some(ServiceEffectKind::Mood));
    assert_eq!(ServiceEffectKind::for_building("build_3"), None);
    assert_eq!(ServiceEffectKind::Hp.as_str(), "hp");
    assert_eq!(ServiceEffectKind::Hp.state_binding(), "hunter_health_state_binding");
    assert_eq!(capacity_for_level("build_12", 0), Some(3));
    assert_eq!(capacity_for_level("build_12", 4), Some(5));
    assert_eq!(capacity_for_level("build_3", 1), None);
}

#[test]
fn gauges_need_service_only_when_resolved_and_not_full() {
    let low = HunterServiceGauge { current: 9, maximum: 100 };
    assert!(low.is_resolved());
    assert!(low.needs_service());
    assert!(low.needs_autonomous_service());
    let ten_percent = HunterServiceGauge { current: 10, maximum: 100 };
    assert!(ten_percent.needs_service());
    assert!(!ten_percent.needs_autonomous_service());
    let full = HunterServiceGauge { current: 100, maximum: 100 };
    assert!(!full.needs_service());
    let unresolved = HunterServiceGauge::default();
    assert!(!unresolved.is_resolved());
    assert!(!unresolved.needs_service());
    let mut saturating = HunterServiceGauge { current: u64::MAX - 1, maximum: u64::MAX };
    saturating.restore(10);
    assert_eq!(saturating.current, u64::MAX);
}

#[test]
fn waiting_hunters_voice_their_most_urgent_critical_need() {
    let speech = |action: &str, hp: u64, stamina: u64, satiety: u64, mood: u64| {
        service_speech(action, hp, 100, stamina, 100, satiety, 100, mood, 100)
    };
    assert_eq!(speech("idle", 1, 1, 1, 1), None);
    assert_eq!(
        speech("waiting_for_service", 9, 1, 1, 1).as_deref(),
        Some("Bệnh xá hết thuốc rồi… mình chịu thêm được bao lâu đây?")
    );
    assert_eq!(speech("waiting_for_service", 10, 9, 1, 1).as_deref(), Some("Chỉ cần một chiếc giường thôi mà…"));
    assert_eq!(
        speech("waiting_for_service", 10, 10, 9, 1).as_deref(),
        Some("Bụng đói thế này thì săn kiểu gì đây?")
    );
    assert_eq!(speech("waiting_for_service", 10, 10, 10, 9).as_deref(), Some("Quán rượu còn gì uống không vậy?"));
    assert_eq!(speech("waiting_for_service", 10, 10, 10, 10).as_deref(), Some("Mình cần ghé dịch vụ một lát…"));
    assert_eq!(
        service_speech("waiting_for_service", 0, 0, 0, 0, 0, 0, 0, 0).as_deref(),
        Some("Mình cần ghé dịch vụ một lát…")
    );
}
