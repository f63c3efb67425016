use vstd::prelude::*;

use crate::catalog::AuthoritativeBuildingContent;
use crate::contracts::{
    BottomMenuIntent, DurablePlayerAggregate, OriginalFlowPlayerState, OriginalScreen,
};
use crate::persistence::{equal_aggregate, lemma_change_is_form_independent, same_aggregate};
use crate::session::{
    back_outcome, boot_outcome, bottom_menu_outcome, durable_form, field_outcome, is_accepted, is_binding_blocked,
    is_rejected, world_active,
    OriginalFlowSession, ServerMessage,
};
use crate::session_restore::restored_session;
use crate::session_services::service_outcome;
use crate::session_trade::sell_outcome;
use crate::session_crafting::craft_outcome;
use crate::session_buildings::{
    construct_outcome, construct_reason, move_outcome, upgrade_decision, upgrade_outcome,
};
use crate::session_shop::{equip_outcome, purchase_outcome};
use crate::material_requests::{cancel_outcome, request_outcome};
use crate::session_enhancement::{enhance_outcome, visit_outcome};
use crate::session_banish::banish_outcome;
use crate::session_unbound::{
    capability_blockers, mail_blockers, quest_blockers, rewarded_ad_blockers, sale_kinds, shop_blockers,
    topup_blockers,
};
use crate::building_domain::building_has_instance;
use crate::seqs::first_index;

verus! {

/// A command a player sends to their session.
#[derive(Clone, Debug, PartialEq, Eq)]
pub enum ClientCommand {
    /// Asks for a fresh view; it changes nothing and gets no reply.
    RequestResync,
    CompleteBoot,
    SelectBottomMenu { menu: BottomMenuIntent },
    NavigateBack,
    EnterField,
    StartBuildingService { instance_id: String, hunter_id: u32, product_id: String },
    StartInfirmaryTreatment { instance_id: String, hunter_id: u32, product_id: String },
    OpenHunterProgression { hunter_id: u32 },
    SellHunterLoot { hunter_id: u32 },
    CraftShopItem { instance_id: String, recipe_id: String, material_id: Option<String>, quantity: u32 },
    ConstructBuilding { building_id: String },
    ConstructBuildingAt { building_id: String, grid_x: i32, grid_y: i32 },
    UpgradeBuilding { instance_id: String },
    MoveBuilding { instance_id: String, grid_x: i32, grid_y: i32 },
    PurchaseShopItem { hunter_id: u32, shop_id: String, product_id: String },
    SetMaterialRequest { instance_id: String, material_id: String, quantity: u32 },
    CancelMaterialRequest { instance_id: String, material_id: String },
    StartHunterEnhancement { hunter_id: u32 },
    EquipHunterWeapon { hunter_id: u32, gear_instance_id: u128 },
    EnhanceHunterGear { hunter_id: u32, gear_instance_id: u128, mode: String, optional_material_ids: Vec<String> },
    UseBuilding { instance_id: String },
    SellShopItem { shop_id: String, product_id: String },
    ClaimQuestReward { quest_id: String },
    OpenShop { shop_id: String },
    ClaimMail { mail_id: String },
    ClaimRewardedAd { placement: String },
    StartTopupPurchase { product_id: String },
    /// A farm report; reports are taken in by the queue ingress, not by a
    /// session, so its content is not read.
    SubmitFarmReport,
    BanishHunter { hunter_id: u32 },
}

/// A command the session can run on its current state: a placed
/// construction needs room for one more building instance id.
pub open spec fn command_runs(session: OriginalFlowSession, command: ClientCommand) -> bool {
    command is ConstructBuildingAt ==> session.buildings.next_building_instance_id < u64::MAX
}

/// The reply to a command and whether it changed what the session persists.
#[derive(Clone, Debug, PartialEq, Eq)]
pub struct OriginalFlowCommandResult {
    pub message: ServerMessage,
    pub durable_state_changed: bool,
}

/// What a command does to a session and how it is answered.
pub open spec fn command_outcome(
    before: OriginalFlowSession,
    after: OriginalFlowSession,
    command: ClientCommand,
    command_id: u128,
    message: ServerMessage,
) -> bool {
    match command {
        ClientCommand::RequestResync => after == before,
        ClientCommand::CompleteBoot => boot_outcome(before, after, message),
        ClientCommand::SelectBottomMenu { menu } => bottom_menu_outcome(before, menu, message) && after == before,
        ClientCommand::NavigateBack => back_outcome(before, after, message),
        ClientCommand::EnterField => field_outcome(before, after, message),
        ClientCommand::StartBuildingService { instance_id, hunter_id, product_id } => service_outcome(
            before,
            after,
            instance_id@,
            hunter_id,
            product_id@,
            message,
        ),
        ClientCommand::StartInfirmaryTreatment { instance_id, hunter_id, product_id } => service_outcome(
            before,
            after,
            instance_id@,
            hunter_id,
            product_id@,
            message,
        ),
        ClientCommand::OpenHunterProgression { .. } => is_accepted(message, "open_hunter_progression"@) && after
            == before,
        ClientCommand::SellHunterLoot { hunter_id } => sell_outcome(before, after, command_id, hunter_id, message),
        ClientCommand::CraftShopItem { instance_id, recipe_id, material_id, quantity } => craft_outcome(
            before,
            after,
            command_id,
            instance_id@,
            recipe_id@,
            match material_id {
                Some(m) => Some(m@),
                None => None,
            },
            quantity,
            message,
        ),
        ClientCommand::ConstructBuilding { building_id } => is_rejected(
            message,
            "construct_building"@,
            construct_reason(before, building_id@),
        ) && after == before,
        ClientCommand::ConstructBuildingAt { building_id, grid_x, grid_y } => construct_outcome(
            before,
            after,
            building_id@,
            grid_x,
            grid_y,
            message,
        ),
        ClientCommand::UpgradeBuilding { instance_id } => upgrade_outcome(before, after, instance_id@, message),
        ClientCommand::MoveBuilding { instance_id, grid_x, grid_y } => move_outcome(
            before,
            after,
            instance_id@,
            grid_x,
            grid_y,
            message,
        ),
        ClientCommand::PurchaseShopItem { hunter_id, shop_id, product_id } => purchase_outcome(
            before,
            after,
            command_id,
            hunter_id,
            shop_id@,
            product_id@,
            message,
        ),
        ClientCommand::SetMaterialRequest { instance_id, material_id, quantity } => request_outcome(
            before,
            after,
            instance_id@,
            material_id@,
            quantity,
            message,
        ),
        ClientCommand::CancelMaterialRequest { instance_id, material_id } => cancel_outcome(
            before,
            after,
            instance_id@,
            material_id@,
            message,
        ),
        ClientCommand::StartHunterEnhancement { hunter_id } => visit_outcome(before, after, command_id, hunter_id, message),
        ClientCommand::EquipHunterWeapon { hunter_id, gear_instance_id } => equip_outcome(
            before,
            after,
            command_id,
            hunter_id,
            gear_instance_id,
            message,
        ),
        ClientCommand::EnhanceHunterGear { hunter_id, gear_instance_id, mode, optional_material_ids } => enhance_outcome(
            before,
            after,
            command_id,
            hunter_id,
            gear_instance_id,
            mode@,
            optional_material_ids@,
            message,
        ),
        ClientCommand::UseBuilding { instance_id } => after == before && if !world_active(before.state.screen) {
            is_rejected(message, "use_building"@, "village_unavailable"@)
        } else {
            match first_index(before.buildings.buildings@, building_has_instance(instance_id@)) {
                None => is_rejected(message, "use_building"@, "building_instance_unknown"@),
                Some(b) => is_binding_blocked(
                    message,
                    "use_building"@,
                    capability_blockers(
                        before.building_content.gameplay.capabilities@,
                        before.buildings.buildings@[b].id@,
                        seq![],
                    ),
                ),
            }
        },
        ClientCommand::SellShopItem { shop_id, .. } => after == before && if !world_active(before.state.screen) {
            is_rejected(message, "sell_shop_item"@, "village_unavailable"@)
        } else {
            is_binding_blocked(
                message,
                "sell_shop_item"@,
                capability_blockers(before.building_content.gameplay.capabilities@, shop_id@, sale_kinds()),
            )
        },
        ClientCommand::ClaimQuestReward { .. } => after == before && is_binding_blocked(
            message,
            "claim_quest_reward"@,
            quest_blockers(),
        ),
        ClientCommand::OpenShop { .. } => after == before && is_binding_blocked(message, "open_shop"@, shop_blockers()),
        ClientCommand::ClaimMail { .. } => after == before && is_binding_blocked(message, "claim_mail"@, mail_blockers()),
        ClientCommand::ClaimRewardedAd { .. } => after == before && is_binding_blocked(
            message,
            "claim_rewarded_ad"@,
            rewarded_ad_blockers(),
        ),
        ClientCommand::StartTopupPurchase { .. } => after == before && is_binding_blocked(
            message,
            "start_topup_purchase"@,
            topup_blockers(),
        ),
        ClientCommand::SubmitFarmReport => after == before && is_rejected(
            message,
            "submit_farm_report"@,
            "farm reports are handled by the queue ingress"@,
        ),
        ClientCommand::BanishHunter { hunter_id } => banish_outcome(before, after, command_id, hunter_id, message),
    }
}

impl OriginalFlowSession {
    /// Runs one command. A resync request gets no reply.
    pub fn dispatch(&mut self, command: ClientCommand, command_id: u128) -> (message: Option<ServerMessage>)
        requires
            command_runs(*old(self), command),
        ensures
            command is RequestResync <==> message is None,
            message matches Some(m) ==> command_outcome(*old(self), *final(self), command, command_id, m),
            message is None ==> *final(self) == *old(self),
    {
        match command {
            ClientCommand::RequestResync => None,
            ClientCommand::CompleteBoot => Some(self.complete_boot()),
            ClientCommand::SelectBottomMenu { menu } => Some(self.select_bottom_menu(menu)),
            ClientCommand::NavigateBack => Some(self.navigate_back()),
            ClientCommand::EnterField => Some(self.enter_field()),
            ClientCommand::StartBuildingService { instance_id, hunter_id, product_id } => Some(
                self.start_product_service(instance_id.as_str(), hunter_id, product_id.as_str()),
            ),
            ClientCommand::StartInfirmaryTreatment { instance_id, hunter_id, product_id } => Some(
                self.start_product_service(instance_id.as_str(), hunter_id, product_id.as_str()),
            ),
            ClientCommand::OpenHunterProgression { .. } => Some(self.accepted("open_hunter_progression")),
            ClientCommand::SellHunterLoot { hunter_id } => Some(self.sell_hunter_loot(command_id, hunter_id)),
            ClientCommand::CraftShopItem { instance_id, recipe_id, material_id, quantity } => {
                let material = match &material_id {
                    Some(m) => Some(m.as_str()),
                    None => None,
                };
                Some(self.craft_shop_item(command_id, instance_id.as_str(), recipe_id.as_str(), material, quantity))
            },
            ClientCommand::ConstructBuilding { building_id } => Some(self.construct_building(building_id.as_str())),
            ClientCommand::ConstructBuildingAt { building_id, grid_x, grid_y } => Some(
                self.construct_building_at(building_id.as_str(), grid_x, grid_y),
            ),
            ClientCommand::UpgradeBuilding { instance_id } => Some(self.upgrade_building(instance_id.as_str())),
            ClientCommand::MoveBuilding { instance_id, grid_x, grid_y } => Some(
                self.move_building(instance_id.as_str(), grid_x, grid_y),
            ),
            ClientCommand::PurchaseShopItem { hunter_id, shop_id, product_id } => Some(
                self.purchase_shop_item(command_id, hunter_id, shop_id.as_str(), product_id.as_str()),
            ),
            ClientCommand::SetMaterialRequest { instance_id, material_id, quantity } => Some(
                self.set_material_request(instance_id.as_str(), material_id.as_str(), quantity),
            ),
            ClientCommand::CancelMaterialRequest { instance_id, material_id } => Some(
                self.cancel_material_request(instance_id.as_str(), material_id.as_str()),
            ),
            ClientCommand::StartHunterEnhancement { hunter_id } => Some(
                self.start_hunter_enhancement(command_id, hunter_id),
            ),
            ClientCommand::EquipHunterWeapon { hunter_id, gear_instance_id } => Some(
                self.equip_rebuild_weapon(command_id, hunter_id, gear_instance_id),
            ),
            ClientCommand::EnhanceHunterGear { hunter_id, gear_instance_id, mode, optional_material_ids } => Some(
                self.enhance_hunter_gear(
                    command_id,
                    hunter_id,
                    gear_instance_id,
                    mode.as_str(),
                    optional_material_ids.as_slice(),
                ),
            ),
            ClientCommand::UseBuilding { instance_id } => Some(self.use_building(instance_id.as_str())),
            ClientCommand::SellShopItem { shop_id, product_id } => Some(
                self.sell_shop_item(shop_id.as_str(), product_id.as_str()),
            ),
            ClientCommand::ClaimQuestReward { .. } => {
                let message = self.binding_blocked("claim_quest_reward", &["quest_rules_binding"]);
                assert(Seq::new(1, |i: int| ["quest_rules_binding"]@[i]@) =~= quest_blockers());
                Some(message)
            },
            ClientCommand::OpenShop { .. } => {
                let message = self.binding_blocked("open_shop", &["shop_catalog_binding"]);
                assert(Seq::new(1, |i: int| ["shop_catalog_binding"]@[i]@) =~= shop_blockers());
                Some(message)
            },
            ClientCommand::ClaimMail { .. } => {
                let message = self.binding_blocked("claim_mail", &["mail_rules_binding"]);
                assert(Seq::new(1, |i: int| ["mail_rules_binding"]@[i]@) =~= mail_blockers());
                Some(message)
            },
            ClientCommand::ClaimRewardedAd { .. } => {
                let message = self.binding_blocked("claim_rewarded_ad", &["rewarded_ad_rules_binding"]);
                assert(Seq::new(1, |i: int| ["rewarded_ad_rules_binding"]@[i]@) =~= rewarded_ad_blockers());
                Some(message)
            },
            ClientCommand::StartTopupPurchase { .. } => {
                let message = self.binding_blocked("start_topup_purchase", &["topup_catalog_binding"]);
                assert(Seq::new(1, |i: int| ["topup_catalog_binding"]@[i]@) =~= topup_blockers());
                Some(message)
            },
            ClientCommand::SubmitFarmReport => Some(
                self.rejected("submit_farm_report", "farm reports are handled by the queue ingress"),
            ),
            ClientCommand::BanishHunter { hunter_id } => Some(self.banish_hunter(command_id, hunter_id)),
        }
    }

    /// Runs one command under `command_id` (0 is the nil id) and reports
    /// whether the durable aggregate changed. A resync request gets no reply
    /// and changes nothing.
    pub fn handle_command_with_id(&mut self, command: ClientCommand, command_id: u128) -> (result: Option<
        OriginalFlowCommandResult,
    >)
        requires
            command_runs(*old(self), command),
        ensures
            command is RequestResync <==> result is None,
            result is None ==> *final(self) == *old(self),
            result matches Some(r) ==> command_outcome(*old(self), *final(self), command, command_id, r.message) && exists|
                before: DurablePlayerAggregate,
                after: DurablePlayerAggregate,
            |
                durable_form(*old(self), before) && durable_form(*final(self), after) && r.durable_state_changed
                    == !same_aggregate(after, before),
            result matches Some(r) ==> forall|before: DurablePlayerAggregate, after: DurablePlayerAggregate|
                durable_form(*old(self), before) && durable_form(*final(self), after) ==> r.durable_state_changed
                    == !same_aggregate(after, before),
    {
        let ghost start = *self;
        let previous = self.durable_state();
        let message = match self.dispatch(command, command_id) {
            Some(message) => message,
            None => {
                return None;
            },
        };
        let current = self.durable_state();
        let changed = !equal_aggregate(&current, &previous);
        proof {
            assert forall|before: DurablePlayerAggregate, after: DurablePlayerAggregate|
                durable_form(start, before) && durable_form(*self, after) implies changed == !same_aggregate(
                after,
                before,
            ) by {
                lemma_change_is_form_independent(start, *self, previous, current, before, after);
            }
        }
        Some(OriginalFlowCommandResult { message, durable_state_changed: changed })
    }

    /// Runs one command under the nil command id.
    pub fn handle_command(&mut self, command: ClientCommand) -> (result: Option<OriginalFlowCommandResult>)
        requires
            command_runs(*old(self), command),
        ensures
            command is RequestResync <==> result is None,
            result is None ==> *final(self) == *old(self),
            result matches Some(r) ==> command_outcome(*old(self), *final(self), command, 0, r.message) && exists|
                before: DurablePlayerAggregate,
                after: DurablePlayerAggregate,
            |
                durable_form(*old(self), before) && durable_form(*final(self), after) && r.durable_state_changed
                    == !same_aggregate(after, before),
            result matches Some(r) ==> forall|before: DurablePlayerAggregate, after: DurablePlayerAggregate|
                durable_form(*old(self), before) && durable_form(*final(self), after) ==> r.durable_state_changed
                    == !same_aggregate(after, before),
    {
        self.handle_command_with_id(command, 0)
    }
}

/// Whether a reply refuses its command.
pub open spec fn is_refusal(message: ServerMessage) -> bool {
    message matches ServerMessage::IntentResult { accepted, .. } && !accepted
}

/// A refused command leaves the session exactly as it was: no refusal
/// grants, spends or moves anything. The one exception is an upgrade whose
/// next level row is paid but names a level no building can hold; that
/// refusal keeps the payment.
#[verifier::rlimit(50)]
pub proof fn lemma_refusal_changes_nothing(
    before: OriginalFlowSession,
    after: OriginalFlowSession,
    command: ClientCommand,
    command_id: u128,
    message: ServerMessage,
)
    requires
        command_outcome(before, after, command, command_id, message),
        is_refusal(message),
        command matches ClientCommand::UpgradeBuilding { instance_id } ==> !(upgrade_decision(
            before,
            instance_id@,
        ) is PaidOutOfRange),
    ensures
        after == before,
{
    match command {
        ClientCommand::RequestResync => {},
        ClientCommand::CompleteBoot => {},
        ClientCommand::SelectBottomMenu { .. } => {},
        ClientCommand::NavigateBack => {},
        ClientCommand::EnterField => {},
        ClientCommand::StartBuildingService { .. } => {},
        ClientCommand::StartInfirmaryTreatment { .. } => {},
        ClientCommand::OpenHunterProgression { .. } => {},
        ClientCommand::SellHunterLoot { .. } => {},
        ClientCommand::CraftShopItem { .. } => {},
        ClientCommand::ConstructBuilding { .. } => {},
        ClientCommand::ConstructBuildingAt { .. } => {},
        ClientCommand::UpgradeBuilding { .. } => {},
        ClientCommand::MoveBuilding { .. } => {},
        ClientCommand::PurchaseShopItem { .. } => {},
        ClientCommand::SetMaterialRequest { .. } => {},
        ClientCommand::CancelMaterialRequest { .. } => {},
        ClientCommand::StartHunterEnhancement { .. } => {},
        ClientCommand::EquipHunterWeapon { .. } => {},
        ClientCommand::EnhanceHunterGear { .. } => {},
        ClientCommand::UseBuilding { .. } => {},
        ClientCommand::SellShopItem { .. } => {},
        ClientCommand::ClaimQuestReward { .. } => {},
        ClientCommand::OpenShop { .. } => {},
        ClientCommand::ClaimMail { .. } => {},
        ClientCommand::ClaimRewardedAd { .. } => {},
        ClientCommand::StartTopupPurchase { .. } => {},
        ClientCommand::SubmitFarmReport => {},
        ClientCommand::BanishHunter { .. } => {},
    }
}

} // verus!
