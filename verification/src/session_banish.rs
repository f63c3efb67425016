use vstd::prelude::*;

use crate::contracts::OriginalScreen;
use crate::roster::{command_key, DurableHunterRosterState, DurableHunterState, DurableWaitingHunter};
use crate::seqs::first_index;
use crate::session::{is_accepted, is_rejected, OriginalFlowSession, ServerMessage};
use crate::session_services::{find_hunter_index, has_visit_for, hunter_has_id, hunter_has_visit};
use crate::text::{append_decimal, append_str, decimal_text, str_eq, string_from_chars};

verus! {

/// The command key of banishing Hunter `hunter_id`.
pub open spec fn banish_key(hunter_id: u32) -> Seq<char> {
    "banish_hunter:"@ + decimal_text(hunter_id as nat)
}

/// The command key of banishing Hunter `hunter_id`.
fn banish_key_text(hunter_id: u32) -> (key: String)
    ensures
        key@ == banish_key(hunter_id),
{
    let mut chars: Vec<char> = Vec::new();
    append_str(&mut chars, "banish_hunter:");
    append_decimal(&mut chars, hunter_id as u64);
    string_from_chars(&chars)
}

/// The world entity id of Hunter `hunter_id` in the village.
pub open spec fn village_hunter_entity(hunter_id: u32) -> Seq<char> {
    "village-hunter-"@ + decimal_text(hunter_id as nat)
}

/// The world entity id of Hunter `hunter_id` in the village.
fn village_hunter_entity_text(hunter_id: u32) -> (id: String)
    ensures
        id@ == village_hunter_entity(hunter_id),
{
    let mut chars: Vec<char> = Vec::new();
    append_str(&mut chars, "village-hunter-");
    append_decimal(&mut chars, hunter_id as u64);
    string_from_chars(&chars)
}

/// How a banish request is answered.
pub enum BanishDecision {
    Replay,
    Reject(Seq<char>),
    /// Accepted: the active Hunter at index `hunter` leaves the town.
    Banish { hunter: int },
}

/// Whether the first active Hunter with `hunter_id` is walking to trade or
/// on an enhancement visit.
pub open spec fn active_hunter_busy(hunters: Seq<DurableHunterState>, hunter_id: u32) -> bool {
    match first_index(hunters, hunter_has_id(hunter_id)) {
        Some(h) => hunters[h].hunt.pending_trade is Some || hunters[h].hunt.gear_enhancement is Some,
        None => false,
    }
}

/// The decision on banishing an active Hunter, checks in order: the village
/// or roster screen; a resolved roster; that the Hunter is not in a service
/// visit, walking to trade or on an enhancement visit; a used (non-nil)
/// command id, answered as a replay for the same Hunter and refused
/// otherwise; and that the Hunter is active.
pub open spec fn banish_decision(session: OriginalFlowSession, command_id: u128, hunter_id: u32) -> BanishDecision {
    let roster = session.hunter_roster;
    let previous = command_key(roster.hunt_commands@, command_id);
    if !(session.state.screen == OriginalScreen::Village || session.state.screen == OriginalScreen::HunterRoster) {
        BanishDecision::Reject("hunter_roster_unavailable"@)
    } else if !roster.roster_resolved {
        BanishDecision::Reject("hunter_roster_unresolved"@)
    } else if hunter_has_visit(session.product_services.visits@, hunter_id) || active_hunter_busy(
        roster.hunters@,
        hunter_id,
    ) {
        BanishDecision::Reject("hunter_busy"@)
    } else if command_id != 0 && previous is Some {
        if previous == Some(banish_key(hunter_id)) {
            BanishDecision::Replay
        } else {
            BanishDecision::Reject("banish_command_conflict"@)
        }
    } else {
        match first_index(roster.hunters@, hunter_has_id(hunter_id)) {
            None => BanishDecision::Reject("active_hunter_unknown"@),
            Some(h) => BanishDecision::Banish { hunter: h },
        }
    }
}

/// The selection after Hunter `hunter_id` is banished: cleared when it was
/// that Hunter's village entity.
pub open spec fn selection_after_banish(selected: Option<String>, hunter_id: u32) -> Option<String> {
    match selected {
        Some(id) => if id@ == village_hunter_entity(hunter_id) {
            None
        } else {
            selected
        },
        None => None,
    }
}

/// The roster after the active Hunter at index `h` is banished: it leaves
/// the active roster, the first waiting Hunter (if any) joins the end of
/// the active roster, and a non-nil command id is recorded.
pub open spec fn roster_banished(
    before: DurableHunterRosterState,
    after: DurableHunterRosterState,
    h: int,
    command_id: u128,
    hunter_id: u32,
) -> bool {
    let waiting = before.waiting_queue@;
    let commands = before.hunt_commands@;
    let new_commands = after.hunt_commands@;
    &&& if waiting.len() > 0 {
        &&& after.hunters@ == before.hunters@.remove(h).push(waiting[0].hunter)
        &&& after.waiting_queue@ == waiting.drop_first()
    } else {
        &&& after.hunters@ == before.hunters@.remove(h)
        &&& after.waiting_queue@ == waiting
    }
    &&& if command_id != 0 {
        &&& new_commands.len() == commands.len() + 1
        &&& new_commands.drop_last() == commands
        &&& new_commands.last().command_id == command_id
        &&& new_commands.last().key@ == banish_key(hunter_id)
    } else {
        new_commands == commands
    }
    &&& after.roster_resolved == before.roster_resolved
    &&& after.wallets_resolved == before.wallets_resolved
}

/// The reply to and effect of banishing Hunter `hunter_id`. An accepted
/// request (a replay too) clears a selection of the Hunter's village
/// entity; a banishment changes the roster as [`roster_banished`] says and
/// nothing else.
pub open spec fn banish_outcome(
    before: OriginalFlowSession,
    after: OriginalFlowSession,
    command_id: u128,
    hunter_id: u32,
    message: ServerMessage,
) -> bool {
    match banish_decision(before, command_id, hunter_id) {
        BanishDecision::Reject(reason) => is_rejected(message, "banish_hunter"@, reason) && after == before,
        BanishDecision::Replay => is_accepted(message, "banish_hunter"@) && after == OriginalFlowSession {
            selected_entity_id: selection_after_banish(before.selected_entity_id, hunter_id),
            ..before
        },
        BanishDecision::Banish { hunter } => {
            &&& is_accepted(message, "banish_hunter"@)
            &&& roster_banished(before.hunter_roster, after.hunter_roster, hunter, command_id, hunter_id)
            &&& after == OriginalFlowSession {
                hunter_roster: after.hunter_roster,
                selected_entity_id: selection_after_banish(before.selected_entity_id, hunter_id),
                ..before
            }
        },
    }
}

impl OriginalFlowSession {
    /// Clears the selection when it is Hunter `hunter_id`'s village entity.
    fn clear_banished_selection(&mut self, hunter_id: u32)
        ensures
            *final(self) == (OriginalFlowSession {
                selected_entity_id: selection_after_banish(old(self).selected_entity_id, hunter_id),
                ..*old(self)
            }),
    {
        let entity = village_hunter_entity_text(hunter_id);
        let clear = match &self.selected_entity_id {
            Some(id) => str_eq(id.as_str(), entity.as_str()),
            None => false,
        };
        if clear {
            self.selected_entity_id = None;
        }
    }

    /// Banishes an active Hunter (see [`banish_decision`] and
    /// [`banish_outcome`]).
    pub fn banish_hunter(&mut self, command_id: u128, hunter_id: u32) -> (message: ServerMessage)
        ensures
            banish_outcome(*old(self), *final(self), command_id, hunter_id, message),
    {
        let intent = "banish_hunter";
        if !(self.state.screen == OriginalScreen::Village || self.state.screen == OriginalScreen::HunterRoster) {
            return self.rejected(intent, "hunter_roster_unavailable");
        }
        if !self.hunter_roster.roster_resolved {
            return self.rejected(intent, "hunter_roster_unresolved");
        }
        let found = find_hunter_index(&self.hunter_roster.hunters, hunter_id);
        let busy = match found {
            Some(h) => {
                let hunter = &self.hunter_roster.hunters[h];
                hunter.hunt.pending_trade.is_some() || hunter.hunt.gear_enhancement.is_some()
            },
            None => false,
        };
        if has_visit_for(&self.product_services.visits, hunter_id) || busy {
            return self.rejected(intent, "hunter_busy");
        }
        if command_id != 0 {
            match self.hunter_roster.command_key(command_id) {
                Some(previous) => {
                    let key = banish_key_text(hunter_id);
                    if str_eq(previous.as_str(), key.as_str()) {
                        self.clear_banished_selection(hunter_id);
                        return self.accepted(intent);
                    }
                    return self.rejected(intent, "banish_command_conflict");
                },
                None => {},
            }
        }
        let h = match found {
            Some(h) => h,
            None => {
                return self.rejected(intent, "active_hunter_unknown");
            },
        };
        let ghost before = *self;
        let _banished = self.hunter_roster.hunters.remove(h);
        if self.hunter_roster.waiting_queue.len() > 0 {
            let promoted: DurableWaitingHunter = self.hunter_roster.waiting_queue.remove(0);
            self.hunter_roster.hunters.push(promoted.hunter);
            assert(self.hunter_roster.waiting_queue@ =~= before.hunter_roster.waiting_queue@.drop_first());
        }
        if command_id != 0 {
            let key = banish_key_text(hunter_id);
            let ghost commands = self.hunter_roster.hunt_commands@;
            self.hunter_roster.record_command(command_id, key);
            assert(self.hunter_roster.hunt_commands@.drop_last() =~= commands);
        }
        self.clear_banished_selection(hunter_id);
        self.accepted(intent)
    }
}

/// Once a command id has banished a Hunter, sending it again for that
/// Hunter is answered as a replay, which changes no roster, town or
/// service state (when no other active Hunter, and not the Hunter promoted
/// from the waiting queue, carries the same id).
pub proof fn lemma_banish_replays(
    before: OriginalFlowSession,
    after: OriginalFlowSession,
    command_id: u128,
    hunter_id: u32,
    message: ServerMessage,
)
    requires
        command_id != 0,
        banish_outcome(before, after, command_id, hunter_id, message),
        banish_decision(before, command_id, hunter_id) matches BanishDecision::Banish { hunter } && (forall|k: int|
            0 <= k < before.hunter_roster.hunters@.len() && k != hunter ==> #[trigger] before.hunter_roster.hunters@[k].hunter_id
                != hunter_id),
        before.hunter_roster.waiting_queue@.len() > 0 ==> before.hunter_roster.waiting_queue@[0].hunter.hunter_id
            != hunter_id,
    ensures
        banish_decision(after, command_id, hunter_id) == BanishDecision::Replay,
{
    let h = first_index(before.hunter_roster.hunters@, hunter_has_id(hunter_id)).unwrap();
    crate::seqs::lemma_first_index(before.hunter_roster.hunters@, hunter_has_id(hunter_id));
    let hunters = after.hunter_roster.hunters@;
    assert forall|k: int| 0 <= k < hunters.len() implies !hunter_has_id(hunter_id)(#[trigger] hunters[k]) by {
        if k < h {
            assert(hunters[k] == before.hunter_roster.hunters@[k]);
        } else if k < before.hunter_roster.hunters@.len() - 1 {
            assert(hunters[k] == before.hunter_roster.hunters@[k + 1]);
        }
    }
    crate::seqs::lemma_first_index_none(hunters, hunter_has_id(hunter_id));
    let commands = after.hunter_roster.hunt_commands@;
    assert(commands.last().command_id == command_id);
    assert(command_key(commands, command_id) == Some(commands.last().key@));
}

} // verus!
