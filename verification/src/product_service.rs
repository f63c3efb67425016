use vstd::prelude::*;

use crate::text::str_eq;

verus! {

/// The Hunter gauge that a service building restores.
#[derive(Clone, Copy, Debug, PartialEq, Eq, Structural)]
pub enum ServiceEffectKind {
    Stamina,
    Hp,
    Satiety,
    Mood,
}

/// The service kind of a base building id: Inn (`build_9`) restores
/// stamina, Infirmary (`build_12`) HP, Restaurant (`build_13`) satiety and
/// Tavern (`build_19`) mood.
pub open spec fn service_kind_for(building_id: Seq<char>) -> Option<ServiceEffectKind> {
    if building_id == "build_9"@ {
        Some(ServiceEffectKind::Stamina)
    } else if building_id == "build_12"@ {
        Some(ServiceEffectKind::Hp)
    } else if building_id == "build_13"@ {
        Some(ServiceEffectKind::Satiety)
    } else if building_id == "build_19"@ {
        Some(ServiceEffectKind::Mood)
    } else {
        None
    }
}

/// Whether `building_id` names one of the four service buildings.
pub open spec fn is_service_building(building_id: Seq<char>) -> bool {
    service_kind_for(building_id) is Some
}

/// The wire name of a service kind.
pub open spec fn service_kind_name(kind: ServiceEffectKind) -> Seq<char> {
    match kind {
        ServiceEffectKind::Stamina => "stamina"@,
        ServiceEffectKind::Hp => "hp"@,
        ServiceEffectKind::Satiety => "satiety"@,
        ServiceEffectKind::Mood => "mood"@,
    }
}

/// The evidence binding a service kind depends on.
pub open spec fn service_kind_binding(kind: ServiceEffectKind) -> Seq<char> {
    match kind {
        ServiceEffectKind::Stamina => "hunter_stamina_state_binding"@,
        ServiceEffectKind::Hp => "hunter_health_state_binding"@,
        ServiceEffectKind::Satiety => "hunter_satiety_state_binding"@,
        ServiceEffectKind::Mood => "hunter_mood_state_binding"@,
    }
}

impl ServiceEffectKind {
    /// The service kind of a base building id, if it is a service building.
    pub fn for_building(building_id: &str) -> (kind: Option<Self>)
        ensures
            kind == service_kind_for(building_id@),
    {
        if str_eq(building_id, "build_9") {
            Some(ServiceEffectKind::Stamina)
        } else if str_eq(building_id, "build_12") {
            Some(ServiceEffectKind::Hp)
        } else if str_eq(building_id, "build_13") {
            Some(ServiceEffectKind::Satiety)
        } else if str_eq(building_id, "build_19") {
            Some(ServiceEffectKind::Mood)
        } else {
            None
        }
    }

    /// The wire name of the kind.
    pub fn as_str(self) -> (name: &'static str)
        ensures
            name@ == service_kind_name(self),
    {
        match self {
            ServiceEffectKind::Stamina => "stamina",
            ServiceEffectKind::Hp => "hp",
            ServiceEffectKind::Satiety => "satiety",
            ServiceEffectKind::Mood => "mood",
        }
    }

    /// The evidence binding the kind depends on.
    pub fn state_binding(self) -> (binding: &'static str)
        ensures
            binding@ == service_kind_binding(self),
    {
        match self {
            ServiceEffectKind::Stamina => "hunter_stamina_state_binding",
            ServiceEffectKind::Hp => "hunter_health_state_binding",
            ServiceEffectKind::Satiety => "hunter_satiety_state_binding",
            ServiceEffectKind::Mood => "hunter_mood_state_binding",
        }
    }
}

/// A bounded Hunter gauge (stamina, satiety, mood or HP).
#[derive(Clone, Copy, Debug, PartialEq, Eq, Structural)]
pub struct HunterServiceGauge {
    pub current: u64,
    pub maximum: u64,
}

/// A gauge is resolved when it has a positive maximum it does not exceed.
pub open spec fn gauge_resolved(gauge: HunterServiceGauge) -> bool {
    gauge.maximum > 0 && gauge.current <= gauge.maximum
}

/// A resolved gauge that is not full.
pub open spec fn gauge_needs_service(gauge: HunterServiceGauge) -> bool {
    gauge_resolved(gauge) && gauge.current < gauge.maximum
}

/// A resolved gauge below ten percent of its maximum.
pub open spec fn gauge_critical(gauge: HunterServiceGauge) -> bool {
    gauge_resolved(gauge) && gauge.current * 100 < gauge.maximum * 10
}

/// `current + amount`, saturating at `u64::MAX`, then capped at `maximum`.
pub open spec fn restored_value(current: u64, maximum: u64, amount: u64) -> u64 {
    let raised = current.saturating_add(amount);
    if raised <= maximum { raised } else { maximum }
}

impl Default for HunterServiceGauge {
    fn default() -> (gauge: Self)
        ensures
            gauge.current == 0 && gauge.maximum == 0,
    {
        HunterServiceGauge { current: 0, maximum: 0 }
    }
}

impl HunterServiceGauge {
    /// Whether the gauge has a positive maximum that it does not exceed.
    pub fn is_resolved(self) -> (resolved: bool)
        ensures
            resolved == gauge_resolved(self),
    {
        self.maximum > 0 && self.current <= self.maximum
    }

    /// Whether a manual service may restore this gauge.
    pub fn needs_service(self) -> (needs: bool)
        ensures
            needs == gauge_needs_service(self),
    {
        self.is_resolved() && self.current < self.maximum
    }

    /// Autonomous service is reserved for a critically depleted gauge
    /// (below ten percent); manual service may restore any non-full gauge.
    pub fn needs_autonomous_service(self) -> (needs: bool)
        ensures
            needs == gauge_critical(self),
    {
        self.is_resolved() && self.maximum > 0 && (self.current as u128) * 100 < (self.maximum as u128)
            * 10
    }

    /// Raises the gauge by `amount`, never above its maximum.
    pub fn restore(&mut self, amount: u64)
        ensures
            final(self).maximum == old(self).maximum,
            final(self).current == restored_value(old(self).current, old(self).maximum, amount),
    {
        let raised = self.current.saturating_add(amount);
        self.current = if raised <= self.maximum { raised } else { self.maximum };
    }
}

/// Slot counts of the service buildings for levels 1 to 7.
pub open spec fn service_capacity_table() -> Seq<u16> {
    seq![3u16, 4, 4, 5, 5, 6, 6]
}

/// The service slots of a building at a level: the recovered table for the
/// four service buildings (level 0 reads as level 1), `None` otherwise or
/// past level 7.
pub open spec fn capacity_spec(building_id: Seq<char>, level: u16) -> Option<u16> {
    let index: int = if level == 0 { 0 } else { level - 1 };
    if is_service_building(building_id) && index < 7 {
        Some(service_capacity_table()[index])
    } else {
        None
    }
}

/// Service slots of a building at a level (see [`capacity_spec`]).
pub fn capacity_for_level(building_id: &str, level: u16) -> (capacity: Option<u16>)
    ensures
        capacity == capacity_spec(building_id@, level),
{
    if ServiceEffectKind::for_building(building_id).is_none() {
        return None;
    }
    let index: u16 = level.saturating_sub(1);
    let values: [u16; 7] = [3, 4, 4, 5, 5, 6, 6];
    if index < 7 {
        assert(values@ == service_capacity_table());
        Some(values[index as usize])
    } else {
        None
    }
}

/// Restoring never leaves a gauge above its maximum, never lowers it from
/// a value within range, and a full restore reaches the maximum.
pub proof fn lemma_restore_is_capped(gauge: HunterServiceGauge, amount: u64)
    ensures
        restored_value(gauge.current, gauge.maximum, amount) <= gauge.maximum,
        gauge.current <= gauge.maximum ==> gauge.current <= restored_value(gauge.current, gauge.maximum, amount),
        gauge.current + amount >= gauge.maximum ==> restored_value(gauge.current, gauge.maximum, amount) == gauge.maximum,
{
}

/// A critically depleted gauge also needs ordinary service.
pub proof fn lemma_critical_needs_service(gauge: HunterServiceGauge)
    ensures
        gauge_critical(gauge) ==> gauge_needs_service(gauge),
{
    if gauge_critical(gauge) {
        assert(gauge.current * 100 < gauge.maximum * 10);
        assert(gauge.current * 10 < gauge.maximum) by (nonlinear_arith)
            requires gauge.current * 100 < gauge.maximum * 10;
    }
}

/// Service capacity never shrinks as a building levels up.
pub proof fn lemma_capacity_monotone(building_id: Seq<char>, low: u16, high: u16)
    requires
        1 <= low <= high,
        capacity_spec(building_id, high) is Some,
    ensures
        capacity_spec(building_id, low) matches Some(l) && l <= capacity_spec(building_id, high)->0,
{
}

} // verus!
