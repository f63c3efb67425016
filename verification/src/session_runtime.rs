use vstd::prelude::*;

use crate::contracts::OriginalScreen;
use crate::healing::healing_applied;
use crate::roster::{
    enhancement_task_terminal, enhancement_terminal, release_hunter_from_enhancement, same_except_workflow,
    shows, DurableHunterHunt, DurableHunterProfile, DurableHunterSkill, DurableHunterState,
};
use crate::session::{banked_time, BankedTime, OriginalFlowSession};
use crate::session_auto_trade::{agent_positions, arrivals, arrivals_settled, auto_sales_started, auto_sellers, recorded_agent_positions};
use crate::infirmary_plans::{infirmary_plans, plans_served};

verus! {

broadcast use crate::session::group_banked_time;

/// Length of one gameplay domain tick, in nanoseconds (10 Hz).
pub const DOMAIN_STEP_NS: u64 = 100_000_000;

/// Length of one gameplay domain tick, in milliseconds.
pub const DOMAIN_STEP_MS: u64 = 100;

/// A skill `elapsed` milliseconds later: a skill off cooldown is ready; a
/// cooling skill counts down and is ready once it reaches zero.
pub open spec fn refreshed_skill(before: DurableHunterSkill, after: DurableHunterSkill, elapsed: u64) -> bool {
    if before.cooldown_remaining_ms == 0 {
        after == DurableHunterSkill { ready: true, ..before }
    } else {
        let left = before.cooldown_remaining_ms.saturating_sub(elapsed);
        after == DurableHunterSkill { cooldown_remaining_ms: left, ready: left == 0, ..before }
    }
}

/// Every skill of `before` refreshed by `elapsed`, nothing else changed.
pub open spec fn refreshed_hunter(before: DurableHunterState, after: DurableHunterState, elapsed: u64) -> bool {
    &&& after.profile.skills@.len() == before.profile.skills@.len()
    &&& forall|j: int| 0 <= j < before.profile.skills@.len() ==> refreshed_skill(
        before.profile.skills@[j],
        #[trigger] after.profile.skills@[j],
        elapsed,
    )
    &&& after == DurableHunterState {
        profile: DurableHunterProfile { skills: after.profile.skills, ..before.profile },
        ..before
    }
}

/// A Hunter's cooldowns `elapsed` milliseconds later: its skills refreshed
/// and its potion cooldown counted down.
pub open spec fn cooled_hunter(before: DurableHunterState, after: DurableHunterState, elapsed: u64) -> bool {
    exists|mid: DurableHunterState| refreshed_hunter(before, mid, elapsed) && after == DurableHunterState {
        hunt: DurableHunterHunt {
            healing_potion_cooldown_ms: before.hunt.healing_potion_cooldown_ms.saturating_sub(elapsed),
            ..mid.hunt
        },
        ..mid
    }
}

/// Each active Hunter's cooldowns `elapsed` milliseconds later.
pub open spec fn cooldowns_ticked(before: OriginalFlowSession, after: OriginalFlowSession, elapsed: u64) -> bool {
    &&& after.hunter_roster.hunters@.len() == before.hunter_roster.hunters@.len()
    &&& forall|k: int| 0 <= k < before.hunter_roster.hunters@.len() ==> cooled_hunter(
        before.hunter_roster.hunters@[k],
        #[trigger] after.hunter_roster.hunters@[k],
        elapsed,
    )
    &&& after == OriginalFlowSession {
        hunter_roster: crate::roster::DurableHunterRosterState { hunters: after.hunter_roster.hunters, ..before.hunter_roster },
        ..before
    }
}

/// Active Hunters whose enhancement visit is over are released from it.
pub open spec fn terminal_enhancements_released(before: OriginalFlowSession, after: OriginalFlowSession) -> bool {
    &&& after.hunter_roster.hunters@.len() == before.hunter_roster.hunters@.len()
    &&& forall|k: int| 0 <= k < before.hunter_roster.hunters@.len() ==> {
        let b = before.hunter_roster.hunters@[k];
        let a = #[trigger] after.hunter_roster.hunters@[k];
        if b.hunt.gear_enhancement matches Some(task) && enhancement_terminal(task) {
            &&& a.hunt.gear_enhancement is None
            &&& shows(a, "idle"@, "hunter_stay"@)
            &&& a.hunt.zone_id == b.hunt.zone_id
            &&& a.hunt.status == b.hunt.status
            &&& a.hunt.pending_trade == b.hunt.pending_trade
            &&& same_except_workflow(b, a)
        } else {
            a == b
        }
    }
    &&& after == OriginalFlowSession {
        hunter_roster: crate::roster::DurableHunterRosterState { hunters: after.hunter_roster.hunters, ..before.hunter_roster },
        ..before
    }
}

/// The town work of one domain tick, run on a session: cooldowns count down
/// by a tick, the visual clock advances, the healing policy runs, the
/// Hunters walking to an Infirmary on their own are planned, finished
/// enhancement visits are released, the planned treatments of Hunters that
/// reached their Infirmary start, the trades of Hunters that reached their
/// Trading Post are settled, and the automatic sales of requested loot
/// start. Agents stand where the session's world agents are recorded.
pub open spec fn town_ticked(before: OriginalFlowSession, after: OriginalFlowSession) -> bool {
    let agents = agent_positions(before.hunter_world_runtime@);
    exists|
        cooled: OriginalFlowSession,
        healed: OriginalFlowSession,
        freed: OriginalFlowSession,
        served: OriginalFlowSession,
        settled: OriginalFlowSession,
    |
        {
            &&& cooldowns_ticked(before, cooled, DOMAIN_STEP_MS)
            &&& healing_applied(OriginalFlowSession { visual_tick: cooled.visual_tick.wrapping_add(1), ..cooled }, healed)
            &&& terminal_enhancements_released(healed, freed)
            &&& plans_served(freed, served, infirmary_plans(healed, healed.hunter_roster.hunters@), agents)
            &&& arrivals_settled(served, settled, arrivals(served.hunter_roster.hunters@, agents))
            &&& auto_sales_started(settled, after, auto_sellers(settled, settled.hunter_roster.hunters@))
        }
}

/// A session with no simulation time banked.
pub open spec fn unbanked(session: OriginalFlowSession) -> OriginalFlowSession {
    OriginalFlowSession { simulation_remainder_ns: banked_time(0), ..session }
}

/// One gameplay domain tick (see [`town_ticked`]): the town work does not
/// read the banked time and keeps it, keeps the screen, and advances the
/// visual clock by one.
pub open spec fn domain_ticked(before: OriginalFlowSession, after: OriginalFlowSession) -> bool {
    exists|core: OriginalFlowSession|
        {
            &&& town_ticked(unbanked(before), core)
            &&& core.state == before.state
            &&& core.visual_tick == before.visual_tick.wrapping_add(1)
            &&& after == OriginalFlowSession { simulation_remainder_ns: before.simulation_remainder_ns, ..core }
        }
}

/// `after` is `before` after `n` domain ticks.
pub open spec fn domain_ticks(before: OriginalFlowSession, after: OriginalFlowSession, n: nat) -> bool
    decreases n,
{
    if n == 0 {
        after == before
    } else {
        exists|mid: OriginalFlowSession| domain_ticks(before, mid, (n - 1) as nat) && domain_ticked(mid, after)
    }
}

/// Simulation time a session has banked after `elapsed` more nanoseconds.
pub open spec fn banked_ns(remainder: u64, elapsed: u64) -> u64 {
    remainder.saturating_add(elapsed)
}

/// The gameplay domain does not run on the boot and roster screens.
pub open spec fn domain_runs(screen: OriginalScreen) -> bool {
    !(screen == OriginalScreen::Boot || screen == OriginalScreen::HunterRoster)
}

/// `after` is `before` after a simulation step of `elapsed_ns`: on a screen
/// where the domain runs, the banked time is spent in whole domain ticks
/// and the rest stays banked; elsewhere nothing changes.
pub open spec fn simulation_stepped(before: OriginalFlowSession, after: OriginalFlowSession, elapsed_ns: u64) -> bool {
    if domain_runs(before.state.screen) {
        let banked = banked_ns(before.simulation_remainder_ns.nanos(), elapsed_ns);
        domain_ticks(
            OriginalFlowSession { simulation_remainder_ns: banked_time(banked % DOMAIN_STEP_NS), ..before },
            after,
            (banked / DOMAIN_STEP_NS) as nat,
        )
    } else {
        after == before
    }
}

/// The domain frame produced by a simulation step.
#[derive(Clone, Debug, PartialEq, Eq)]
pub struct OriginalFlowTickResult {
    /// The domain tick counter after the step.
    pub simulation_tick: u64,
    /// How many domain ticks the step ran.
    pub domain_ticks: u64,
}

impl OriginalFlowSession {
    /// Counts every skill cooldown down by `elapsed_ms` (see
    /// [`refreshed_skill`]).
    pub fn refresh_skill_cooldowns(&mut self, elapsed_ms: u64)
        ensures
            final(self).hunter_roster.hunters@.len() == old(self).hunter_roster.hunters@.len(),
            forall|k: int| 0 <= k < old(self).hunter_roster.hunters@.len() ==> refreshed_hunter(
                old(self).hunter_roster.hunters@[k],
                #[trigger] final(self).hunter_roster.hunters@[k],
                elapsed_ms,
            ),
            *final(self) == (OriginalFlowSession {
                hunter_roster: crate::roster::DurableHunterRosterState {
                    hunters: final(self).hunter_roster.hunters,
                    ..old(self).hunter_roster
                },
                ..*old(self)
            }),
    {
        let mut i: usize = 0;
        while i < self.hunter_roster.hunters.len()
            invariant
                0 <= i <= self.hunter_roster.hunters@.len(),
                self.hunter_roster.hunters@.len() == old(self).hunter_roster.hunters@.len(),
                forall|k: int| 0 <= k < i ==> refreshed_hunter(
                    old(self).hunter_roster.hunters@[k],
                    #[trigger] self.hunter_roster.hunters@[k],
                    elapsed_ms,
                ),
                forall|k: int| i <= k < self.hunter_roster.hunters@.len() ==> #[trigger] self.hunter_roster.hunters@[k]
                    == old(self).hunter_roster.hunters@[k],
                *self == (OriginalFlowSession {
                    hunter_roster: crate::roster::DurableHunterRosterState {
                        hunters: self.hunter_roster.hunters,
                        ..old(self).hunter_roster
                    },
                    ..*old(self)
                }),
            decreases self.hunter_roster.hunters@.len() - i,
        {
            let ghost hunter0 = self.hunter_roster.hunters@[i as int];
            let mut j: usize = 0;
            while j < self.hunter_roster.hunters[i].profile.skills.len()
                invariant
                    0 <= i < self.hunter_roster.hunters@.len(),
                    self.hunter_roster.hunters@.len() == old(self).hunter_roster.hunters@.len(),
                    0 <= j <= hunter0.profile.skills@.len(),
                    self.hunter_roster.hunters@[i as int].profile.skills@.len() == hunter0.profile.skills@.len(),
                    forall|m: int| 0 <= m < j ==> refreshed_skill(
                        hunter0.profile.skills@[m],
                        #[trigger] self.hunter_roster.hunters@[i as int].profile.skills@[m],
                        elapsed_ms,
                    ),
                    forall|m: int| j <= m < hunter0.profile.skills@.len() ==> #[trigger] self.hunter_roster.hunters@[i as int].profile.skills@[m]
                        == hunter0.profile.skills@[m],
                    self.hunter_roster.hunters@[i as int] == (DurableHunterState {
                        profile: DurableHunterProfile {
                            skills: self.hunter_roster.hunters@[i as int].profile.skills,
                            ..hunter0.profile
                        },
                        ..hunter0
                    }),
                    forall|k: int| 0 <= k < self.hunter_roster.hunters@.len() && k != i ==> #[trigger] self.hunter_roster.hunters@[k]
                        == old(self).hunter_roster.hunters@[k] || (k < i && refreshed_hunter(
                        old(self).hunter_roster.hunters@[k],
                        self.hunter_roster.hunters@[k],
                        elapsed_ms,
                    )),
                    forall|k: int| 0 <= k < i ==> refreshed_hunter(
                        old(self).hunter_roster.hunters@[k],
                        #[trigger] self.hunter_roster.hunters@[k],
                        elapsed_ms,
                    ),
                    forall|k: int| i < k < self.hunter_roster.hunters@.len() ==> #[trigger] self.hunter_roster.hunters@[k]
                        == old(self).hunter_roster.hunters@[k],
                    hunter0 == old(self).hunter_roster.hunters@[i as int],
                    *self == (OriginalFlowSession {
                        hunter_roster: crate::roster::DurableHunterRosterState {
                            hunters: self.hunter_roster.hunters,
                            ..old(self).hunter_roster
                        },
                        ..*old(self)
                    }),
                decreases hunter0.profile.skills@.len() - j,
            {
                let cooldown = self.hunter_roster.hunters[i].profile.skills[j].cooldown_remaining_ms;
                if cooldown == 0 {
                    self.hunter_roster.hunters[i].profile.skills[j].ready = true;
                } else {
                    let left = cooldown.saturating_sub(elapsed_ms);
                    self.hunter_roster.hunters[i].profile.skills[j].cooldown_remaining_ms = left;
                    self.hunter_roster.hunters[i].profile.skills[j].ready = left == 0;
                }
                j = j + 1;
            }
            i = i + 1;
        }
    }

    /// Counts every active Hunter's potion cooldown down by `elapsed_ms`.
    fn tick_potion_cooldowns(&mut self, elapsed_ms: u64)
        ensures
            final(self).hunter_roster.hunters@.len() == old(self).hunter_roster.hunters@.len(),
            forall|k: int| 0 <= k < old(self).hunter_roster.hunters@.len() ==> #[trigger] final(self).hunter_roster.hunters@[k]
                == (DurableHunterState {
                hunt: DurableHunterHunt {
                    healing_potion_cooldown_ms: old(self).hunter_roster.hunters@[k].hunt.healing_potion_cooldown_ms.saturating_sub(
                        elapsed_ms,
                    ),
                    ..old(self).hunter_roster.hunters@[k].hunt
                },
                ..old(self).hunter_roster.hunters@[k]
            }),
            *final(self) == (OriginalFlowSession {
                hunter_roster: crate::roster::DurableHunterRosterState {
                    hunters: final(self).hunter_roster.hunters,
                    ..old(self).hunter_roster
                },
                ..*old(self)
            }),
    {
        let mut i: usize = 0;
        while i < self.hunter_roster.hunters.len()
            invariant
                0 <= i <= self.hunter_roster.hunters@.len(),
                self.hunter_roster.hunters@.len() == old(self).hunter_roster.hunters@.len(),
                forall|k: int| 0 <= k < i ==> #[trigger] self.hunter_roster.hunters@[k] == (DurableHunterState {
                    hunt: DurableHunterHunt {
                        healing_potion_cooldown_ms: old(self).hunter_roster.hunters@[k].hunt.healing_potion_cooldown_ms.saturating_sub(
                            elapsed_ms,
                        ),
                        ..old(self).hunter_roster.hunters@[k].hunt
                    },
                    ..old(self).hunter_roster.hunters@[k]
                }),
                forall|k: int| i <= k < self.hunter_roster.hunters@.len() ==> #[trigger] self.hunter_roster.hunters@[k]
                    == old(self).hunter_roster.hunters@[k],
                *self == (OriginalFlowSession {
                    hunter_roster: crate::roster::DurableHunterRosterState {
                        hunters: self.hunter_roster.hunters,
                        ..old(self).hunter_roster
                    },
                    ..*old(self)
                }),
            decreases self.hunter_roster.hunters@.len() - i,
        {
            let left = self.hunter_roster.hunters[i].hunt.healing_potion_cooldown_ms.saturating_sub(elapsed_ms);
            self.hunter_roster.hunters[i].hunt.healing_potion_cooldown_ms = left;
            i = i + 1;
        }
    }

    /// Releases every active Hunter whose enhancement visit is over.
    fn release_terminal_enhancements(&mut self)
        ensures
            terminal_enhancements_released(*old(self), *final(self)),
    {
        let mut i: usize = 0;
        while i < self.hunter_roster.hunters.len()
            invariant
                0 <= i <= self.hunter_roster.hunters@.len(),
                self.hunter_roster.hunters@.len() == old(self).hunter_roster.hunters@.len(),
                forall|k: int| 0 <= k < i ==> {
                    let b = old(self).hunter_roster.hunters@[k];
                    let a = #[trigger] self.hunter_roster.hunters@[k];
                    if b.hunt.gear_enhancement matches Some(task) && enhancement_terminal(task) {
                        &&& a.hunt.gear_enhancement is None
                        &&& shows(a, "idle"@, "hunter_stay"@)
                        &&& a.hunt.zone_id == b.hunt.zone_id
                        &&& a.hunt.status == b.hunt.status
                        &&& a.hunt.pending_trade == b.hunt.pending_trade
                        &&& same_except_workflow(b, a)
                    } else {
                        a == b
                    }
                },
                forall|k: int| i <= k < self.hunter_roster.hunters@.len() ==> #[trigger] self.hunter_roster.hunters@[k]
                    == old(self).hunter_roster.hunters@[k],
                *self == (OriginalFlowSession {
                    hunter_roster: crate::roster::DurableHunterRosterState {
                        hunters: self.hunter_roster.hunters,
                        ..old(self).hunter_roster
                    },
                    ..*old(self)
                }),
            decreases self.hunter_roster.hunters@.len() - i,
        {
            let terminal = match &self.hunter_roster.hunters[i].hunt.gear_enhancement {
                Some(task) => enhancement_task_terminal(task),
                None => false,
            };
            if terminal {
                release_hunter_from_enhancement(&mut self.hunter_roster.hunters[i]);
            }
            i = i + 1;
        }
    }

    /// Runs one gameplay domain tick (see [`domain_ticked`]).
    fn advance_domain_tick(&mut self)
        ensures
            domain_ticked(*old(self), *final(self)),
    {
        let bank = self.simulation_remainder_ns.get();
        self.simulation_remainder_ns = BankedTime::nothing();
        let ghost start = *self;
        assert(start == unbanked(*old(self)));
        let agents = recorded_agent_positions(&self.hunter_world_runtime);
        self.refresh_skill_cooldowns(DOMAIN_STEP_MS);
        let ghost refreshed = *self;
        self.tick_potion_cooldowns(DOMAIN_STEP_MS);
        let ghost cooled = *self;
        proof {
            assert forall|k: int| 0 <= k < start.hunter_roster.hunters@.len() implies cooled_hunter(
                start.hunter_roster.hunters@[k],
                #[trigger] cooled.hunter_roster.hunters@[k],
                DOMAIN_STEP_MS,
            ) by {
                let mid = refreshed.hunter_roster.hunters@[k];
                assert(refreshed_hunter(start.hunter_roster.hunters@[k], mid, DOMAIN_STEP_MS));
            }
            assert(cooldowns_ticked(start, cooled, DOMAIN_STEP_MS));
        }
        self.visual_tick = self.visual_tick.wrapping_add(1);
        let ghost bumped = *self;
        assert(bumped == OriginalFlowSession { visual_tick: cooled.visual_tick.wrapping_add(1), ..cooled });
        self.apply_autonomous_hunter_healing_policy();
        let ghost healed = *self;
        assert(healing_applied(bumped, healed));
        let plans = self.autonomous_infirmary_plans();
        self.release_terminal_enhancements();
        let ghost freed = *self;
        assert(terminal_enhancements_released(healed, freed));
        self.start_arrived_autonomous_infirmary_services(&plans, &agents);
        let ghost served = *self;
        self.settle_arrived_hunter_trades(&agents);
        let ghost settled = *self;
        self.auto_sell_requested_hunter_loot();
        proof {
            assert(town_ticked(start, *self));
            assert(self.state == old(self).state);
            assert(self.visual_tick == old(self).visual_tick.wrapping_add(1));
        }
        let ghost core = *self;
        self.simulation_remainder_ns = BankedTime::from_nanos(bank);
        assert(*self == OriginalFlowSession { simulation_remainder_ns: old(self).simulation_remainder_ns, ..core });
    }

    /// Advances the gameplay domain by scheduler time `elapsed_ns`. Time is
    /// banked and spent in whole 100 ms ticks (see [`domain_ticked`]), so a
    /// different network cadence runs the same ticks. Arrivals are read
    /// from the positions recorded in `hunter_world_runtime`, which the
    /// world that moves the agents keeps up to date. Nothing runs on the
    /// boot and roster screens; no frame is produced when no whole tick is
    /// due.
    pub fn advance_simulation_step(&mut self, elapsed_ns: u64) -> (result: Option<OriginalFlowTickResult>)
        ensures
            simulation_stepped(*old(self), *final(self), elapsed_ns),
            !domain_runs(old(self).state.screen) ==> result is None && *final(self) == *old(self),
            domain_runs(old(self).state.screen) ==> {
                let banked = banked_ns(old(self).simulation_remainder_ns.nanos(), elapsed_ns);
                let steps = banked / DOMAIN_STEP_NS;
                &&& domain_ticks(
                    OriginalFlowSession { simulation_remainder_ns: banked_time(banked % DOMAIN_STEP_NS), ..*old(self) },
                    *final(self),
                    steps as nat,
                )
                &&& (steps == 0 <==> result is None)
                &&& result matches Some(r) ==> r.domain_ticks == steps && r.simulation_tick == final(self).visual_tick
            },
    {
        if !(self.state.screen != OriginalScreen::Boot && self.state.screen != OriginalScreen::HunterRoster) {
            return None;
        }
        let banked = self.simulation_remainder_ns.get().saturating_add(elapsed_ns);
        let steps = banked / DOMAIN_STEP_NS;
        self.simulation_remainder_ns = BankedTime::from_nanos(banked % DOMAIN_STEP_NS);
        if steps == 0 {
            return None;
        }
        let ghost start = *self;
        let mut done: u64 = 0;
        while done < steps
            invariant
                0 <= done <= steps,
                domain_ticks(start, *self, done as nat),
            decreases steps - done,
        {
            let ghost mid = *self;
            self.advance_domain_tick();
            assert(domain_ticks(start, mid, done as nat) && domain_ticked(mid, *self));
            assert(domain_ticks(start, *self, (done + 1) as nat));
            done = done + 1;
        }
        Some(OriginalFlowTickResult { simulation_tick: self.visual_tick, domain_ticks: steps })
    }

    /// Advances the gameplay domain by one 100 ms tick of scheduler time.
    pub fn advance_simulation_tick(&mut self) -> (result: Option<OriginalFlowTickResult>)
        ensures
            domain_runs(old(self).state.screen) ==> {
                &&& result matches Some(r) && r.domain_ticks == 1 && r.simulation_tick == old(self).visual_tick.wrapping_add(1)
                &&& final(self).state == old(self).state
                &&& final(self).simulation_remainder_ns == old(self).simulation_remainder_ns
            },
            !domain_runs(old(self).state.screen) ==> result is None && *final(self) == *old(self),
            domain_runs(old(self).state.screen) ==> {
                let banked = banked_ns(old(self).simulation_remainder_ns.nanos(), DOMAIN_STEP_NS);
                let steps = banked / DOMAIN_STEP_NS;
                &&& domain_ticks(
                    OriginalFlowSession { simulation_remainder_ns: banked_time(banked % DOMAIN_STEP_NS), ..*old(self) },
                    *final(self),
                    steps as nat,
                )
                &&& (steps == 0 <==> result is None)
                &&& result matches Some(r) ==> r.domain_ticks == steps && r.simulation_tick == final(self).visual_tick
            },
    {
        let ghost start = *self;
        let bank = self.simulation_remainder_ns.get();
        let result = self.advance_simulation_step(DOMAIN_STEP_NS);
        proof {
            if domain_runs(start.state.screen) {
                let banked = banked_ns(start.simulation_remainder_ns.nanos(), DOMAIN_STEP_NS);
                let rebanked = OriginalFlowSession { simulation_remainder_ns: banked_time(banked % DOMAIN_STEP_NS), ..start };
                assert(banked == bank + DOMAIN_STEP_NS);
                assert(banked / DOMAIN_STEP_NS == 1 && banked % DOMAIN_STEP_NS == bank);
                assert(rebanked == start);
                let mid = choose|mid: OriginalFlowSession| domain_ticks(rebanked, mid, 0) && domain_ticked(mid, *self);
                lemma_ticked_advances_clock(mid, *self);
                lemma_ticked_keeps_bank(mid, *self);
            }
        }
        result
    }
}

/// Scheduler cadence does not change the simulation: banking `a` then `b`
/// nanoseconds runs as many domain ticks, and leaves the same remainder, as
/// banking `a + b` at once (when no saturation occurs).
pub proof fn lemma_step_split(remainder: u64, a: u64, b: u64)
    requires
        remainder < DOMAIN_STEP_NS,
        remainder + a + b <= u64::MAX,
    ensures
        ({
            let first = banked_ns(remainder, a);
            let second = banked_ns(first % DOMAIN_STEP_NS, b);
            let whole = banked_ns(remainder, (a + b) as u64);
            &&& first / DOMAIN_STEP_NS + second / DOMAIN_STEP_NS == whole / DOMAIN_STEP_NS
            &&& second % DOMAIN_STEP_NS == whole % DOMAIN_STEP_NS
        }),
{
    let first = remainder + a;
    let d = DOMAIN_STEP_NS as int;
    let q1 = first as int / d;
    let r1 = first as int % d;
    vstd::arithmetic::div_mod::lemma_fundamental_div_mod(first as int, d);
    let second = r1 + b;
    let q2 = second / d;
    let r2 = second % d;
    vstd::arithmetic::div_mod::lemma_fundamental_div_mod(second, d);
    let whole = first as int + b;
    assert(whole == (q1 + q2) * d + r2) by (nonlinear_arith)
        requires
            first as int == d * q1 + r1,
            second == d * q2 + r2,
            second == r1 + b,
            whole == first as int + b,
    ;
    vstd::arithmetic::div_mod::lemma_fundamental_div_mod_converse(whole, d, q1 + q2, r2);
}

/// A domain tick leaves the screen and the banked time alone.
proof fn lemma_ticked_keeps_bank(before: OriginalFlowSession, after: OriginalFlowSession)
    requires
        domain_ticked(before, after),
    ensures
        after.state == before.state,
        after.simulation_remainder_ns == before.simulation_remainder_ns,
{
    let core = choose|core: OriginalFlowSession|
        {
            &&& town_ticked(unbanked(before), core)
            &&& core.state == before.state
            &&& core.visual_tick == before.visual_tick.wrapping_add(1)
            &&& after == OriginalFlowSession { simulation_remainder_ns: before.simulation_remainder_ns, ..core }
        };
}

/// Domain ticks leave the screen and the banked time alone.
proof fn lemma_ticks_keep_bank(before: OriginalFlowSession, after: OriginalFlowSession, n: nat)
    requires
        domain_ticks(before, after, n),
    ensures
        after.state == before.state,
        after.simulation_remainder_ns == before.simulation_remainder_ns,
    decreases n,
{
    if n > 0 {
        let mid = choose|mid: OriginalFlowSession| domain_ticks(before, mid, (n - 1) as nat) && domain_ticked(mid, after);
        lemma_ticks_keep_bank(before, mid, (n - 1) as nat);
        lemma_ticked_keeps_bank(mid, after);
    }
}

/// A domain tick advances the visual clock by one.
proof fn lemma_ticked_advances_clock(before: OriginalFlowSession, after: OriginalFlowSession)
    requires
        domain_ticked(before, after),
    ensures
        after.visual_tick == before.visual_tick.wrapping_add(1),
{
    let core = choose|core: OriginalFlowSession|
        {
            &&& town_ticked(unbanked(before), core)
            &&& core.state == before.state
            &&& core.visual_tick == before.visual_tick.wrapping_add(1)
            &&& after == OriginalFlowSession { simulation_remainder_ns: before.simulation_remainder_ns, ..core }
        };
}

/// A domain tick does not depend on the banked time.
proof fn lemma_ticked_rebanked(before: OriginalFlowSession, after: OriginalFlowSession, bank: BankedTime)
    requires
        domain_ticked(before, after),
    ensures
        domain_ticked(
            OriginalFlowSession { simulation_remainder_ns: bank, ..before },
            OriginalFlowSession { simulation_remainder_ns: bank, ..after },
        ),
{
    let core = choose|core: OriginalFlowSession|
        {
            &&& town_ticked(unbanked(before), core)
            &&& core.state == before.state
            &&& core.visual_tick == before.visual_tick.wrapping_add(1)
            &&& after == OriginalFlowSession { simulation_remainder_ns: before.simulation_remainder_ns, ..core }
        };
    let b2 = OriginalFlowSession { simulation_remainder_ns: bank, ..before };
    let a2 = OriginalFlowSession { simulation_remainder_ns: bank, ..after };
    assert(unbanked(b2) == unbanked(before));
    assert(a2 == OriginalFlowSession { simulation_remainder_ns: b2.simulation_remainder_ns, ..core });
}

/// Domain ticks do not depend on the banked time.
proof fn lemma_ticks_rebanked(before: OriginalFlowSession, after: OriginalFlowSession, n: nat, bank: BankedTime)
    requires
        domain_ticks(before, after, n),
    ensures
        domain_ticks(
            OriginalFlowSession { simulation_remainder_ns: bank, ..before },
            OriginalFlowSession { simulation_remainder_ns: bank, ..after },
            n,
        ),
    decreases n,
{
    if n > 0 {
        let mid = choose|mid: OriginalFlowSession| domain_ticks(before, mid, (n - 1) as nat) && domain_ticked(mid, after);
        lemma_ticks_rebanked(before, mid, (n - 1) as nat, bank);
        lemma_ticked_rebanked(mid, after, bank);
        let mid2 = OriginalFlowSession { simulation_remainder_ns: bank, ..mid };
        assert(domain_ticks(OriginalFlowSession { simulation_remainder_ns: bank, ..before }, mid2, (n - 1) as nat));
    }
}

/// `n` domain ticks followed by `m` more are `n + m` domain ticks.
proof fn lemma_ticks_compose(
    first: OriginalFlowSession,
    middle: OriginalFlowSession,
    last: OriginalFlowSession,
    n: nat,
    m: nat,
)
    requires
        domain_ticks(first, middle, n),
        domain_ticks(middle, last, m),
    ensures
        domain_ticks(first, last, n + m),
    decreases m,
{
    if m > 0 {
        let mid = choose|mid: OriginalFlowSession| domain_ticks(middle, mid, (m - 1) as nat) && domain_ticked(mid, last);
        lemma_ticks_compose(first, middle, mid, n, (m - 1) as nat);
        assert(domain_ticks(first, mid, (n + m - 1) as nat) && domain_ticked(mid, last));
    }
}

/// Network cadence does not change the simulation: a step of `a`
/// nanoseconds followed by one of `b` ends in a state that one step of
/// `a + b` reaches, having run the same domain ticks and banked the same
/// remainder (when the banked time does not saturate).
pub proof fn lemma_cadence_invariant(
    start: OriginalFlowSession,
    middle: OriginalFlowSession,
    end: OriginalFlowSession,
    a: u64,
    b: u64,
)
    requires
        start.simulation_remainder_ns.nanos() < DOMAIN_STEP_NS,
        start.simulation_remainder_ns.nanos() + a + b <= u64::MAX,
        simulation_stepped(start, middle, a),
        simulation_stepped(middle, end, b),
    ensures
        simulation_stepped(start, end, (a + b) as u64),
{
    if domain_runs(start.state.screen) {
        let first = banked_ns(start.simulation_remainder_ns.nanos(), a);
        let first_start = OriginalFlowSession { simulation_remainder_ns: banked_time(first % DOMAIN_STEP_NS), ..start };
        let n = (first / DOMAIN_STEP_NS) as nat;
        lemma_ticks_keep_bank(first_start, middle, n);
        let second = banked_ns(middle.simulation_remainder_ns.nanos(), b);
        let m = (second / DOMAIN_STEP_NS) as nat;
        let bank = banked_time(second % DOMAIN_STEP_NS);
        lemma_step_split(start.simulation_remainder_ns.nanos(), a, b);
        lemma_ticks_rebanked(first_start, middle, n, bank);
        let rebanked_start = OriginalFlowSession { simulation_remainder_ns: bank, ..first_start };
        let rebanked_middle = OriginalFlowSession { simulation_remainder_ns: bank, ..middle };
        assert(rebanked_start == OriginalFlowSession { simulation_remainder_ns: bank, ..start });
        lemma_ticks_compose(rebanked_start, rebanked_middle, end, n, m);
    }
}

/// The visual clock after `n` domain ticks from `tick`.
pub open spec fn clock_after(tick: u64, n: nat) -> u64
    decreases n,
{
    if n == 0 {
        tick
    } else {
        clock_after(tick, (n - 1) as nat).wrapping_add(1)
    }
}

/// `n` domain ticks advance the visual clock `n` times.
proof fn lemma_ticks_clock(before: OriginalFlowSession, after: OriginalFlowSession, n: nat)
    requires
        domain_ticks(before, after, n),
    ensures
        after.visual_tick == clock_after(before.visual_tick, n),
    decreases n,
{
    if n > 0 {
        let mid = choose|mid: OriginalFlowSession| domain_ticks(before, mid, (n - 1) as nat) && domain_ticked(mid, after);
        lemma_ticks_clock(before, mid, (n - 1) as nat);
        lemma_ticked_advances_clock(mid, after);
    }
}

/// Two runs of the same session over the same scheduler time, one split in
/// two steps and one in a single step, end on the same screen with the same
/// visual clock (the tick a domain frame reports) and the same banked time
/// (when the banked time does not saturate).
pub proof fn lemma_cadence_same_clock(
    start: OriginalFlowSession,
    middle: OriginalFlowSession,
    end: OriginalFlowSession,
    single: OriginalFlowSession,
    a: u64,
    b: u64,
)
    requires
        start.simulation_remainder_ns.nanos() < DOMAIN_STEP_NS,
        start.simulation_remainder_ns.nanos() + a + b <= u64::MAX,
        simulation_stepped(start, middle, a),
        simulation_stepped(middle, end, b),
        simulation_stepped(start, single, (a + b) as u64),
    ensures
        end.visual_tick == single.visual_tick,
        end.state == single.state,
        end.simulation_remainder_ns == single.simulation_remainder_ns,
{
    lemma_cadence_invariant(start, middle, end, a, b);
    if domain_runs(start.state.screen) {
        let banked = banked_ns(start.simulation_remainder_ns.nanos(), (a + b) as u64);
        let rebanked = OriginalFlowSession { simulation_remainder_ns: banked_time(banked % DOMAIN_STEP_NS), ..start };
        let n = (banked / DOMAIN_STEP_NS) as nat;
        lemma_ticks_clock(rebanked, end, n);
        lemma_ticks_clock(rebanked, single, n);
        lemma_ticks_keep_bank(rebanked, end, n);
        lemma_ticks_keep_bank(rebanked, single, n);
    }
}

} // verus!
