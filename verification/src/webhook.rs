//! Notifications from the payment gateway, and the landing page a payer
//! returns to after paying.

use vstd::prelude::*;
use crate::machine::{run, GatewayScript, Machine};
use crate::protocol::{CheckDigest, Command, Outcome, Owner, Reply, Settlement};
use crate::settle::{Settle, SettleKind};
use crate::status::GatewayStatus;
use crate::world::World;

verus! {

/// Where the handling of a notification stands.
#[derive(Clone, Copy, Debug, PartialEq, Eq, Structural)]
pub enum WebhookStage {
    AwaitOwner,
    AwaitCheck(Owner),
    AwaitConfirm(Owner),
    Settling(Settle),
    Finished(Outcome),
}

/// A notification about a payment being handled.
#[derive(Clone, Copy, Debug, PartialEq, Eq, Structural)]
pub struct Webhook {
    pub stage: WebhookStage,
    pub status: GatewayStatus,
}

/// Wraps a step of a settlement into the stage of the machine that runs it.
pub open spec fn settling_stage(step: (Settle, Command)) -> WebhookStage {
    match step.1 {
        Command::Finish(outcome) => WebhookStage::Finished(outcome),
        _ => WebhookStage::Settling(step.0),
    }
}

impl Webhook {
    /// The machine at another stage.
    pub open spec fn at(self, stage: WebhookStage) -> Webhook {
        Webhook { stage, ..self }
    }

    /// The step that ends the operation with an outcome.
    pub open spec fn finished(self, settlement: Settlement) -> (Webhook, Command) {
        (
            self.at(WebhookStage::Finished(Outcome::Settled(settlement))),
            Command::Finish(Outcome::Settled(settlement)),
        )
    }

    /// The step of a settlement, as a step of the machine that runs it.
    pub open spec fn settling(self, step: (Settle, Command)) -> (Webhook, Command) {
        (self.at(settling_stage(step)), step.1)
    }

    /// Handling begins by looking up the booking of the payment.
    pub open spec fn spec_start(status: GatewayStatus) -> (Webhook, Command) {
        (Webhook { stage: WebhookStage::AwaitOwner, status }, Command::FindPaymentBooking)
    }

    /// What a notification leads to once the booking is known.
    pub open spec fn dispatched(self, owner: Owner) -> (Webhook, Command) {
        match self.status {
            GatewayStatus::Confirmed => self.settling(
                Settle::spec_start(SettleKind::Completed, owner.booking_id, owner.event_id),
            ),
            GatewayStatus::Authorized => (
                self.at(WebhookStage::AwaitCheck(owner)),
                Command::GatewayCheck,
            ),
            GatewayStatus::Cancelled | GatewayStatus::Failed | GatewayStatus::Expired
            | GatewayStatus::Refunded => self.settling(
                Settle::spec_start(SettleKind::Failed, owner.booking_id, owner.event_id),
            ),
            GatewayStatus::New => self.finished(Settlement::NoAction),
            GatewayStatus::Unknown => self.finished(Settlement::UnknownStatus),
        }
    }

    /// Begins the handling of a notification with a status of the gateway.
    pub fn start(status: GatewayStatus) -> (step: (Webhook, Command))
        ensures
            step == Self::spec_start(status),
    {
        (Webhook { stage: WebhookStage::AwaitOwner, status }, Command::FindPaymentBooking)
    }

    fn go(self, stage: WebhookStage, command: Command) -> (step: (Webhook, Command))
        ensures
            step == (self.at(stage), command),
    {
        (Webhook { stage, status: self.status }, command)
    }

    fn finish(self, settlement: Settlement) -> (step: (Webhook, Command))
        ensures
            step == self.finished(settlement),
    {
        let outcome = Outcome::Settled(settlement);
        self.go(WebhookStage::Finished(outcome), Command::Finish(outcome))
    }

    fn settle(self, step: (Settle, Command)) -> (next: (Webhook, Command))
        ensures
            next == self.settling(step),
    {
        match step.1 {
            Command::Finish(outcome) => self.go(WebhookStage::Finished(outcome), step.1),
            _ => self.go(WebhookStage::Settling(step.0), step.1),
        }
    }

    fn dispatch(self, owner: Owner) -> (step: (Webhook, Command))
        ensures
            step == self.dispatched(owner),
    {
        match self.status {
            GatewayStatus::Confirmed => self.settle(
                Settle::start(SettleKind::Completed, owner.booking_id, owner.event_id),
            ),
            GatewayStatus::Authorized => self.go(
                WebhookStage::AwaitCheck(owner),
                Command::GatewayCheck,
            ),
            GatewayStatus::Cancelled | GatewayStatus::Failed | GatewayStatus::Expired
            | GatewayStatus::Refunded => self.settle(
                Settle::start(SettleKind::Failed, owner.booking_id, owner.event_id),
            ),
            GatewayStatus::New => self.finish(Settlement::NoAction),
            GatewayStatus::Unknown => self.finish(Settlement::UnknownStatus),
        }
    }
}

impl Machine for Webhook {
    /// A payment without a booking is acknowledged and left alone. A
    /// confirmed payment is settled as completed; a cancelled, failed,
    /// expired or refunded one as failed. An authorized payment is checked
    /// at the gateway and captured with what the check reports; only when
    /// the capture succeeds is it settled as completed, otherwise it stays
    /// pending.
    open spec fn spec_next(self, reply: Reply) -> (Webhook, Command) {
        match self.stage {
            WebhookStage::AwaitOwner => match reply {
                Reply::Owner(Some(owner)) => self.dispatched(owner),
                _ => self.finished(Settlement::UnknownPayment),
            },
            WebhookStage::AwaitCheck(owner) => match reply {
                Reply::Check(CheckDigest { confirmable: true, .. }) => (
                    self.at(WebhookStage::AwaitConfirm(owner)),
                    Command::GatewayConfirm,
                ),
                _ => self.finished(Settlement::LeftPending),
            },
            WebhookStage::AwaitConfirm(owner) => if reply == Reply::Confirm(true) {
                self.settling(
                    Settle::spec_start(SettleKind::Completed, owner.booking_id, owner.event_id),
                )
            } else {
                self.finished(Settlement::LeftPending)
            },
            WebhookStage::Settling(settle) => self.settling(settle.spec_next(reply)),
            WebhookStage::Finished(outcome) => (self, Command::Finish(outcome)),
        }
    }

    open spec fn spec_remaining(self) -> nat {
        match self.stage {
            WebhookStage::AwaitOwner => 11,
            WebhookStage::AwaitCheck(_) => 10,
            WebhookStage::AwaitConfirm(_) => 9,
            WebhookStage::Settling(settle) => settle.spec_remaining(),
            WebhookStage::Finished(_) => 0,
        }
    }

    proof fn lemma_progress(self, reply: Reply)
    {
        if let WebhookStage::Settling(settle) = self.stage {
            settle.lemma_progress(reply);
        }
    }

    fn next(self, reply: Reply) -> (step: (Webhook, Command)) {
        match self.stage {
            WebhookStage::AwaitOwner => match reply {
                Reply::Owner(Some(owner)) => self.dispatch(owner),
                _ => self.finish(Settlement::UnknownPayment),
            },
            WebhookStage::AwaitCheck(owner) => match reply {
                Reply::Check(CheckDigest { confirmable: true, .. }) => self.go(
                    WebhookStage::AwaitConfirm(owner),
                    Command::GatewayConfirm,
                ),
                _ => self.finish(Settlement::LeftPending),
            },
            WebhookStage::AwaitConfirm(owner) => match reply {
                Reply::Confirm(true) => self.settle(
                    Settle::start(SettleKind::Completed, owner.booking_id, owner.event_id),
                ),
                _ => self.finish(Settlement::LeftPending),
            },
            WebhookStage::Settling(settle) => self.settle(settle.next(reply)),
            WebhookStage::Finished(outcome) => (self, Command::Finish(outcome)),
        }
    }
}

/// Where a landing stands.
#[derive(Clone, Copy, Debug, PartialEq, Eq, Structural)]
pub enum LandingStage {
    AwaitCheck,
    Handling(Webhook),
    Finished(Outcome),
}

/// The page a payer arrives at after leaving the gateway.
#[derive(Clone, Copy, Debug, PartialEq, Eq, Structural)]
pub enum LandingPage {
    /// The page for payments that went through.
    Success,
    /// The page for payments that failed or were called off.
    Failure,
}

/// A payer arriving at one of the landing pages. The pages do not trust
/// their caller: they ask the gateway, and settle through the same steps as
/// a notification, so that whichever of the two comes second finds nothing
/// left to do.
#[derive(Clone, Copy, Debug, PartialEq, Eq, Structural)]
pub struct Landing {
    pub stage: LandingStage,
    pub page: LandingPage,
}

/// The status that a landing handles like a notification: on the success
/// page one that says the payment went through, on the failure page one
/// that says it is gone for good, and in both cases only from an answer of
/// the gateway that reports success. Any other answer leads to nothing.
pub open spec fn landed(page: LandingPage, reply: Reply) -> Option<GatewayStatus> {
    match reply {
        Reply::Check(CheckDigest { success: true, status: Some(status), .. }) => if (page
            == LandingPage::Success && status.spec_is_settled()) || (page == LandingPage::Failure
            && status.spec_is_dead()) {
            Some(status)
        } else {
            None
        },
        _ => None,
    }
}

fn land(page: LandingPage, reply: Reply) -> (status: Option<GatewayStatus>)
    ensures
        status == landed(page, reply),
{
    match reply {
        Reply::Check(CheckDigest { success: true, status: Some(status), .. }) => {
            let fits = match page {
                LandingPage::Success => status.is_settled(),
                LandingPage::Failure => status.is_dead(),
            };
            if fits {
                Some(status)
            } else {
                None
            }
        },
        _ => None,
    }
}

/// Wraps a step of a notification into the stage of a landing.
pub open spec fn handling_stage(step: (Webhook, Command)) -> LandingStage {
    match step.1 {
        Command::Finish(outcome) => LandingStage::Finished(outcome),
        _ => LandingStage::Handling(step.0),
    }
}

impl Landing {
    /// The step that ends a landing without anything done.
    pub open spec fn idle(self) -> (Landing, Command) {
        (
            Landing {
                stage: LandingStage::Finished(Outcome::Settled(Settlement::NoAction)),
                page: self.page,
            },
            Command::Finish(Outcome::Settled(Settlement::NoAction)),
        )
    }

    /// Without a payment id there is nothing to ask; with one, the gateway
    /// is asked for the state of the payment.
    pub open spec fn spec_start(page: LandingPage, has_payment_id: bool) -> (Landing, Command) {
        let fresh = Landing { stage: LandingStage::AwaitCheck, page };
        if has_payment_id {
            (fresh, Command::GatewayCheck)
        } else {
            fresh.idle()
        }
    }

    /// Begins a landing.
    pub fn start(page: LandingPage, has_payment_id: bool) -> (step: (Landing, Command))
        ensures
            step == Self::spec_start(page, has_payment_id),
    {
        let fresh = Landing { stage: LandingStage::AwaitCheck, page };
        if has_payment_id {
            (fresh, Command::GatewayCheck)
        } else {
            fresh.rest()
        }
    }

    fn rest(self) -> (step: (Landing, Command))
        ensures
            step == self.idle(),
    {
        (
            Landing {
                stage: LandingStage::Finished(Outcome::Settled(Settlement::NoAction)),
                page: self.page,
            },
            Command::Finish(Outcome::Settled(Settlement::NoAction)),
        )
    }

    /// The step of a notification, as a step of the landing that runs it.
    pub open spec fn handling(self, step: (Webhook, Command)) -> (Landing, Command) {
        (Landing { stage: handling_stage(step), page: self.page }, step.1)
    }

    fn handle(self, step: (Webhook, Command)) -> (next: (Landing, Command))
        ensures
            next == self.handling(step),
    {
        match step.1 {
            Command::Finish(outcome) => (
                Landing { stage: LandingStage::Finished(outcome), page: self.page },
                step.1,
            ),
            _ => (Landing { stage: LandingStage::Handling(step.0), page: self.page }, step.1),
        }
    }
}

impl Machine for Landing {
    /// What the gateway says of the payment is handled like a notification
    /// with that status, where it fits the page; any other answer leads to
    /// nothing.
    open spec fn spec_next(self, reply: Reply) -> (Landing, Command) {
        match self.stage {
            LandingStage::AwaitCheck => match landed(self.page, reply) {
                Some(status) => self.handling(Webhook::spec_start(status)),
                None => self.idle(),
            },
            LandingStage::Handling(webhook) => self.handling(webhook.spec_next(reply)),
            LandingStage::Finished(outcome) => (self, Command::Finish(outcome)),
        }
    }

    open spec fn spec_remaining(self) -> nat {
        match self.stage {
            LandingStage::AwaitCheck => 12,
            LandingStage::Handling(webhook) => webhook.spec_remaining(),
            LandingStage::Finished(_) => 0,
        }
    }

    proof fn lemma_progress(self, reply: Reply)
    {
        if let LandingStage::Handling(webhook) = self.stage {
            webhook.lemma_progress(reply);
        }
    }

    fn next(self, reply: Reply) -> (step: (Landing, Command)) {
        match self.stage {
            LandingStage::AwaitCheck => match land(self.page, reply) {
                Some(status) => self.handle(Webhook::start(status)),
                None => self.rest(),
            },
            LandingStage::Handling(webhook) => self.handle(webhook.next(reply)),
            LandingStage::Finished(outcome) => (self, Command::Finish(outcome)),
        }
    }
}

/// A notification that has come to settling runs as the settlement runs.
pub proof fn lemma_webhook_settling(
    webhook: Webhook,
    step: (Settle, Command),
    world: World,
    payment: Seq<char>,
    gateway: GatewayScript,
    fuel: nat,
)
    ensures
        ({
            let wrapped = webhook.settling(step);
            run(wrapped.0, wrapped.1, world, payment, gateway, fuel) == run(
                step.0,
                step.1,
                world,
                payment,
                gateway,
                fuel,
            )
        }),
    decreases fuel,
{
    let wrapped = webhook.settling(step);
    if !(step.1 is Finish) && fuel > 0 {
        let (after, reply) = crate::machine::answer(world, payment, gateway, step.1);
        lemma_webhook_settling(
            wrapped.0,
            step.0.spec_next(reply),
            after,
            payment,
            gateway,
            (fuel - 1) as nat,
        );
    }
}

} // verus!
