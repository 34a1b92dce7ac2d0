//! Opening a payment for a booking, and asking how a payment stands.

use vstd::prelude::*;
use vstd::string::*;
use crate::gateway::{spec_gateway_error_status, gateway_error_status, UNKNOWN_GATEWAY_CODE};
use crate::machine::Machine;
use crate::protocol::{
    CheckDigest, Command, InitDigest, Message, Outcome, Reply, Summary, HTTP_BAD_GATEWAY,
    HTTP_BAD_REQUEST, HTTP_CONFLICT, HTTP_INTERNAL, HTTP_NOT_FOUND, HTTP_UNAVAILABLE,
};
use crate::status::{BookingStatus, GatewayStatus, PaymentStatus};
use crate::text::{decimal, push_decimal};

verus! {

/// `chrono::Utc::now` and `DateTime::timestamp`: the seconds since the Unix
/// epoch on the system clock. Nothing is claimed of the value. chrono stops
/// the program if the system clock is set before 1970.
#[verifier::external_body]
fn unix_timestamp() -> i64 {
    chrono::Utc::now().timestamp()
}

/// The order id under which the gateway knows a payment attempt for a
/// booking begun at a Unix time.
pub open spec fn spec_order_id(booking_id: i64, timestamp: i64) -> Seq<char> {
    "booking-"@ + decimal(booking_id as int) + "-"@ + decimal(timestamp as int)
}

/// What the payer is shown as the purpose of the payment.
pub open spec fn spec_description(event_title: Seq<char>, seat_count: i32) -> Seq<char> {
    event_title + " - "@ + decimal(seat_count as int) + " билет(ов)"@
}

/// The order id of a payment attempt for a booking begun at a Unix time.
pub fn order_id_at(booking_id: i64, timestamp: i64) -> (order_id: String)
    ensures
        order_id@ == spec_order_id(booking_id, timestamp),
{
    let mut order_id = String::from_str("booking-");
    push_decimal(&mut order_id, booking_id);
    order_id.append("-");
    push_decimal(&mut order_id, timestamp);
    order_id
}

/// An order id for a payment attempt begun now. The system clock is read;
/// what follows holds for whatever it said.
pub fn new_order_id(booking_id: i64) -> (order_id: String)
    ensures
        exists|timestamp: i64| order_id@ == spec_order_id(booking_id, timestamp),
{
    let timestamp = unix_timestamp();
    order_id_at(booking_id, timestamp)
}

/// What the payer is shown as the purpose of the payment.
pub fn payment_description(event_title: &str, seat_count: i32) -> (description: String)
    ensures
        description@ == spec_description(event_title@, seat_count),
{
    let mut description = String::from_str(event_title);
    description.append(" - ");
    push_decimal(&mut description, seat_count as i64);
    description.append(" билет(ов)");
    description
}

/// The body of an answer that refuses a request about payments.
#[derive(Debug, Clone)]
pub struct ApiError {
    pub success: bool,
    pub message: String,
    pub code: Option<i32>,
}

/// The text of a refusal for which the gateway gave none.
pub open spec fn spec_unknown_error() -> Seq<char> {
    "Unknown error"@
}

impl ApiError {
    /// The body for a refusal by the engine: its text, and no code.
    pub fn refused(message: Message) -> (body: ApiError)
        ensures
            !body.success,
            body.message@ == message.spec_text(),
            body.code is None,
    {
        ApiError { success: false, message: String::from_str(message.text()), code: None }
    }

    /// The body for a refusal by the gateway: the gateway's text, or a
    /// stand-in where it gave none, and the gateway's code.
    pub fn gateway_refused(message: Option<String>, code: i32) -> (body: ApiError)
        ensures
            !body.success,
            body.message@ == match message {
                Some(text) => text@,
                None => spec_unknown_error(),
            },
            body.code == Some(code),
    {
        let message = match message {
            Some(text) => text,
            None => String::from_str("Unknown error"),
        };
        ApiError { success: false, message, code: Some(code) }
    }
}

/// A request to begin paying for a booking.
#[derive(Debug, Clone, Copy)]
pub struct InitiatePaymentRequest {
    pub booking_id: i64,
}

/// Where the opening of a payment stands.
#[derive(Clone, Copy, Debug, PartialEq, Eq, Structural)]
pub enum InitiateStage {
    AwaitSummary,
    AwaitGateway,
    AwaitBegin,
    AwaitRecord,
    AwaitBookingUpdate,
    AwaitCommit,
    AwaitRollback(Message),
    Finished(Outcome),
}

/// A user beginning to pay for the seats reserved on a booking.
#[derive(Clone, Copy, Debug, PartialEq, Eq, Structural)]
pub struct InitiatePayment {
    pub stage: InitiateStage,
    pub booking_id: i64,
    pub summary: Summary,
}

impl InitiatePayment {
    /// The machine at another stage.
    pub open spec fn at(self, stage: InitiateStage) -> InitiatePayment {
        InitiatePayment { stage, ..self }
    }

    /// The step that ends the operation with an outcome.
    pub open spec fn finished(self, outcome: Outcome) -> (InitiatePayment, Command) {
        (self.at(InitiateStage::Finished(outcome)), Command::Finish(outcome))
    }

    /// The step that ends the operation with a refusal.
    pub open spec fn refused(self, status: u16, message: Message) -> (InitiatePayment, Command) {
        self.finished(Outcome::Rejected { status, message })
    }

    /// The step that abandons the open transaction; the refusal follows.
    pub open spec fn undone(self, message: Message) -> (InitiatePayment, Command) {
        (self.at(InitiateStage::AwaitRollback(message)), Command::Rollback)
    }

    /// A booking id that is not positive is refused at once; otherwise the
    /// reserved seats of the booking are summed up.
    pub open spec fn spec_start(user_id: i32, booking_id: i64) -> (InitiatePayment, Command) {
        let fresh = InitiatePayment {
            stage: InitiateStage::AwaitSummary,
            booking_id,
            summary: Summary { total_minor: 0, seat_count: 0 },
        };
        if booking_id <= 0 {
            fresh.refused(HTTP_BAD_REQUEST, Message::PaymentBookingIdNotPositive)
        } else {
            (fresh, Command::BookingSummary { booking_id, user_id: user_id as i64 })
        }
    }

    /// What the gateway's answer to the request to open a payment leads to.
    pub open spec fn after_init(self, answer: InitDigest) -> (InitiatePayment, Command) {
        if !answer.success {
            let code = match answer.code {
                Some(code) => code,
                None => UNKNOWN_GATEWAY_CODE,
            };
            self.finished(Outcome::GatewayRejected { status: spec_gateway_error_status(code), code })
        } else if !answer.has_payment_id {
            self.refused(HTTP_INTERNAL, Message::NoPaymentId)
        } else {
            (self.at(InitiateStage::AwaitBegin), Command::Begin)
        }
    }

    /// Begins the opening of a payment for a booking.
    pub fn start(user_id: i32, booking_id: i64) -> (step: (InitiatePayment, Command))
        ensures
            step == Self::spec_start(user_id, booking_id),
    {
        let fresh = InitiatePayment {
            stage: InitiateStage::AwaitSummary,
            booking_id,
            summary: Summary { total_minor: 0, seat_count: 0 },
        };
        if booking_id <= 0 {
            fresh.refuse(HTTP_BAD_REQUEST, Message::PaymentBookingIdNotPositive)
        } else {
            (fresh, Command::BookingSummary { booking_id, user_id: user_id as i64 })
        }
    }

    fn go(self, stage: InitiateStage, command: Command) -> (step: (InitiatePayment, Command))
        ensures
            step == (self.at(stage), command),
    {
        (InitiatePayment { stage, booking_id: self.booking_id, summary: self.summary }, command)
    }

    fn finish(self, outcome: Outcome) -> (step: (InitiatePayment, Command))
        ensures
            step == self.finished(outcome),
    {
        self.go(InitiateStage::Finished(outcome), Command::Finish(outcome))
    }

    fn refuse(self, status: u16, message: Message) -> (step: (InitiatePayment, Command))
        ensures
            step == self.refused(status, message),
    {
        self.finish(Outcome::Rejected { status, message })
    }

    fn undo(self, message: Message) -> (step: (InitiatePayment, Command))
        ensures
            step == self.undone(message),
    {
        self.go(InitiateStage::AwaitRollback(message), Command::Rollback)
    }

    fn on_init(self, answer: InitDigest) -> (step: (InitiatePayment, Command))
        ensures
            step == self.after_init(answer),
    {
        if !answer.success {
            let code = match answer.code {
                Some(code) => code,
                None => UNKNOWN_GATEWAY_CODE,
            };
            self.finish(Outcome::GatewayRejected { status: gateway_error_status(code), code })
        } else if !answer.has_payment_id {
            self.refuse(HTTP_INTERNAL, Message::NoPaymentId)
        } else {
            self.go(InitiateStage::AwaitBegin, Command::Begin)
        }
    }
}

impl Machine for InitiatePayment {
    /// A booking that is not the user's or holds no reserved seat is a
    /// conflict; a sum that is not positive is a bad request. The gateway is
    /// asked to open a payment over the sum: an open breaker makes the
    /// service unavailable, a transport error is a bad gateway, a refusal by
    /// the gateway is passed on under the status that goes with its code.
    /// Once the gateway has opened the payment, one transaction records it
    /// as pending and marks the booking as awaiting payment; the seats stay
    /// reserved. A statement that fails, or a commit that fails, ends with
    /// the transaction rolled back.
    open spec fn spec_next(self, reply: Reply) -> (InitiatePayment, Command) {
        match self.stage {
            InitiateStage::AwaitSummary => match reply {
                Reply::Summary(Some(summary)) => if summary.total_minor <= 0 {
                    self.refused(HTTP_BAD_REQUEST, Message::InvalidPrice)
                } else {
                    (
                        InitiatePayment { stage: InitiateStage::AwaitGateway, summary, ..self },
                        Command::GatewayInit {
                            amount_minor: summary.total_minor,
                            seat_count: summary.seat_count,
                        },
                    )
                },
                Reply::Summary(None) => self.refused(HTTP_CONFLICT, Message::BookingEmpty),
                _ => self.refused(HTTP_INTERNAL, Message::DatabaseError),
            },
            InitiateStage::AwaitGateway => match reply {
                Reply::Init(answer) => self.after_init(answer),
                Reply::BreakerOpen => self.refused(HTTP_UNAVAILABLE, Message::GatewayUnavailable),
                _ => self.refused(HTTP_BAD_GATEWAY, Message::GatewayUnreachable),
            },
            InitiateStage::AwaitBegin => if reply == Reply::Done {
                (
                    self.at(InitiateStage::AwaitRecord),
                    Command::RecordPayment {
                        booking_id: self.booking_id,
                        amount_minor: self.summary.total_minor,
                    },
                )
            } else {
                self.refused(HTTP_INTERNAL, Message::DatabaseError)
            },
            InitiateStage::AwaitRecord => match reply {
                Reply::Rows(_) => (
                    self.at(InitiateStage::AwaitBookingUpdate),
                    Command::SetBookingStatus {
                        booking_id: self.booking_id,
                        status: BookingStatus::PendingPayment,
                    },
                ),
                _ => self.undone(Message::TransactionNotSaved),
            },
            InitiateStage::AwaitBookingUpdate => match reply {
                Reply::Rows(_) => (self.at(InitiateStage::AwaitCommit), Command::Commit),
                _ => self.undone(Message::BookingNotUpdated),
            },
            InitiateStage::AwaitCommit => if reply == Reply::Done {
                self.finished(
                    Outcome::PaymentStarted {
                        amount_minor: self.summary.total_minor,
                        seat_count: self.summary.seat_count,
                    },
                )
            } else {
                self.undone(Message::DatabaseError)
            },
            InitiateStage::AwaitRollback(message) => self.refused(HTTP_INTERNAL, message),
            InitiateStage::Finished(outcome) => (self, Command::Finish(outcome)),
        }
    }

    open spec fn spec_remaining(self) -> nat {
        match self.stage {
            InitiateStage::AwaitSummary => 7,
            InitiateStage::AwaitGateway => 6,
            InitiateStage::AwaitBegin => 5,
            InitiateStage::AwaitRecord => 4,
            InitiateStage::AwaitBookingUpdate => 3,
            InitiateStage::AwaitCommit => 2,
            InitiateStage::AwaitRollback(_) => 1,
            InitiateStage::Finished(_) => 0,
        }
    }

    proof fn lemma_progress(self, reply: Reply)
    {
    }

    fn next(self, reply: Reply) -> (step: (InitiatePayment, Command)) {
        match self.stage {
            InitiateStage::AwaitSummary => match reply {
                Reply::Summary(Some(summary)) => if summary.total_minor <= 0 {
                    self.refuse(HTTP_BAD_REQUEST, Message::InvalidPrice)
                } else {
                    (
                        InitiatePayment {
                            stage: InitiateStage::AwaitGateway,
                            booking_id: self.booking_id,
                            summary,
                        },
                        Command::GatewayInit {
                            amount_minor: summary.total_minor,
                            seat_count: summary.seat_count,
                        },
                    )
                },
                Reply::Summary(None) => self.refuse(HTTP_CONFLICT, Message::BookingEmpty),
                _ => self.refuse(HTTP_INTERNAL, Message::DatabaseError),
            },
            InitiateStage::AwaitGateway => match reply {
                Reply::Init(answer) => self.on_init(answer),
                Reply::BreakerOpen => self.refuse(HTTP_UNAVAILABLE, Message::GatewayUnavailable),
                _ => self.refuse(HTTP_BAD_GATEWAY, Message::GatewayUnreachable),
            },
            InitiateStage::AwaitBegin => match reply {
                Reply::Done => self.go(
                    InitiateStage::AwaitRecord,
                    Command::RecordPayment {
                        booking_id: self.booking_id,
                        amount_minor: self.summary.total_minor,
                    },
                ),
                _ => self.refuse(HTTP_INTERNAL, Message::DatabaseError),
            },
            InitiateStage::AwaitRecord => match reply {
                Reply::Rows(_) => self.go(
                    InitiateStage::AwaitBookingUpdate,
                    Command::SetBookingStatus {
                        booking_id: self.booking_id,
                        status: BookingStatus::PendingPayment,
                    },
                ),
                _ => self.undo(Message::TransactionNotSaved),
            },
            InitiateStage::AwaitBookingUpdate => match reply {
                Reply::Rows(_) => self.go(InitiateStage::AwaitCommit, Command::Commit),
                _ => self.undo(Message::BookingNotUpdated),
            },
            InitiateStage::AwaitCommit => match reply {
                Reply::Done => self.finish(
                    Outcome::PaymentStarted {
                        amount_minor: self.summary.total_minor,
                        seat_count: self.summary.seat_count,
                    },
                ),
                _ => self.undo(Message::DatabaseError),
            },
            InitiateStage::AwaitRollback(message) => self.refuse(HTTP_INTERNAL, message),
            InitiateStage::Finished(outcome) => (self, Command::Finish(outcome)),
        }
    }
}

/// Where a query for the state of a payment stands.
#[derive(Clone, Copy, Debug, PartialEq, Eq, Structural)]
pub enum StatusStage {
    AwaitLatest,
    AwaitCheck,
    AwaitConfirm,
    Finished(Outcome),
}

/// A user asking how the latest payment of a booking stands. Nothing in the
/// durable store changes; a pending payment is looked up at the gateway,
/// and an authorized one is captured on the way.
#[derive(Clone, Copy, Debug, PartialEq, Eq, Structural)]
pub struct PaymentStatusQuery {
    pub stage: StatusStage,
}

/// What a pending payment is reported as after the gateway was asked; none
/// where the gateway holds the payment authorized and it can be captured.
pub open spec fn reported_status(check: CheckDigest) -> Option<PaymentStatus> {
    if !check.success {
        Some(PaymentStatus::Pending)
    } else {
        match check.status {
            Some(GatewayStatus::Confirmed) => Some(PaymentStatus::Completed),
            Some(GatewayStatus::Failed) | Some(GatewayStatus::Cancelled) | Some(
                GatewayStatus::Expired,
            ) => Some(PaymentStatus::Failed),
            Some(GatewayStatus::Authorized) => if check.confirmable {
                None
            } else {
                Some(PaymentStatus::Pending)
            },
            _ => Some(PaymentStatus::Pending),
        }
    }
}

fn report_status(check: CheckDigest) -> (status: Option<PaymentStatus>)
    ensures
        status == reported_status(check),
{
    if !check.success {
        Some(PaymentStatus::Pending)
    } else {
        match check.status {
            Some(GatewayStatus::Confirmed) => Some(PaymentStatus::Completed),
            Some(GatewayStatus::Failed) | Some(GatewayStatus::Cancelled) | Some(
                GatewayStatus::Expired,
            ) => Some(PaymentStatus::Failed),
            Some(GatewayStatus::Authorized) => if check.confirmable {
                None
            } else {
                Some(PaymentStatus::Pending)
            },
            _ => Some(PaymentStatus::Pending),
        }
    }
}

impl PaymentStatusQuery {
    /// The step that ends the operation with an outcome.
    pub open spec fn finished(outcome: Outcome) -> (PaymentStatusQuery, Command) {
        (PaymentStatusQuery { stage: StatusStage::Finished(outcome) }, Command::Finish(outcome))
    }

    /// The step that ends the query with the state of the payment.
    pub open spec fn reported(status: PaymentStatus) -> (PaymentStatusQuery, Command) {
        Self::finished(Outcome::PaymentState { status })
    }

    /// The query begins with the latest payment attempt of the booking.
    pub open spec fn spec_start(user_id: i32, booking_id: i64) -> (PaymentStatusQuery, Command) {
        (
            PaymentStatusQuery { stage: StatusStage::AwaitLatest },
            Command::LatestPayment { booking_id, user_id: user_id as i64 },
        )
    }

    /// Begins a query for the state of the latest payment of a booking.
    pub fn start(user_id: i32, booking_id: i64) -> (step: (PaymentStatusQuery, Command))
        ensures
            step == Self::spec_start(user_id, booking_id),
    {
        (
            PaymentStatusQuery { stage: StatusStage::AwaitLatest },
            Command::LatestPayment { booking_id, user_id: user_id as i64 },
        )
    }

    fn finish(outcome: Outcome) -> (step: (PaymentStatusQuery, Command))
        ensures
            step == Self::finished(outcome),
    {
        (PaymentStatusQuery { stage: StatusStage::Finished(outcome) }, Command::Finish(outcome))
    }

    fn report(status: PaymentStatus) -> (step: (PaymentStatusQuery, Command))
        ensures
            step == Self::reported(status),
    {
        Self::finish(Outcome::PaymentState { status })
    }
}

impl Machine for PaymentStatusQuery {
    /// A booking without a payment attempt is not found. A payment that is
    /// not pending is reported as it is. A pending one is reported as the
    /// gateway sees it: completed when confirmed, failed when failed,
    /// cancelled or expired, completed when authorized and captured now, and
    /// pending in every other case, an unreachable gateway included.
    open spec fn spec_next(self, reply: Reply) -> (PaymentStatusQuery, Command) {
        match self.stage {
            StatusStage::AwaitLatest => match reply {
                Reply::Payment(Some(PaymentStatus::Pending)) => (
                    PaymentStatusQuery { stage: StatusStage::AwaitCheck },
                    Command::GatewayCheck,
                ),
                Reply::Payment(Some(status)) => Self::reported(status),
                Reply::Payment(None) => Self::finished(
                    Outcome::Rejected { status: HTTP_NOT_FOUND, message: Message::PaymentNotFound },
                ),
                _ => Self::finished(
                    Outcome::Rejected { status: HTTP_INTERNAL, message: Message::DatabaseError },
                ),
            },
            StatusStage::AwaitCheck => match reply {
                Reply::Check(check) => match reported_status(check) {
                    Some(status) => Self::reported(status),
                    None => (PaymentStatusQuery { stage: StatusStage::AwaitConfirm }, Command::GatewayConfirm),
                },
                _ => Self::reported(PaymentStatus::Pending),
            },
            StatusStage::AwaitConfirm => if reply == Reply::Confirm(true) {
                Self::reported(PaymentStatus::Completed)
            } else {
                Self::reported(PaymentStatus::Pending)
            },
            StatusStage::Finished(outcome) => (self, Command::Finish(outcome)),
        }
    }

    open spec fn spec_remaining(self) -> nat {
        match self.stage {
            StatusStage::AwaitLatest => 3,
            StatusStage::AwaitCheck => 2,
            StatusStage::AwaitConfirm => 1,
            StatusStage::Finished(_) => 0,
        }
    }

    proof fn lemma_progress(self, reply: Reply)
    {
    }

    fn next(self, reply: Reply) -> (step: (PaymentStatusQuery, Command)) {
        match self.stage {
            StatusStage::AwaitLatest => match reply {
                Reply::Payment(Some(PaymentStatus::Pending)) => (
                    PaymentStatusQuery { stage: StatusStage::AwaitCheck },
                    Command::GatewayCheck,
                ),
                Reply::Payment(Some(status)) => Self::report(status),
                Reply::Payment(None) => Self::finish(
                    Outcome::Rejected { status: HTTP_NOT_FOUND, message: Message::PaymentNotFound },
                ),
                _ => Self::finish(
                    Outcome::Rejected { status: HTTP_INTERNAL, message: Message::DatabaseError },
                ),
            },
            StatusStage::AwaitCheck => match reply {
                Reply::Check(check) => match report_status(check) {
                    Some(status) => Self::report(status),
                    None => (PaymentStatusQuery { stage: StatusStage::AwaitConfirm }, Command::GatewayConfirm),
                },
                _ => Self::report(PaymentStatus::Pending),
            },
            StatusStage::AwaitConfirm => match reply {
                Reply::Confirm(true) => Self::report(PaymentStatus::Completed),
                _ => Self::report(PaymentStatus::Pending),
            },
            StatusStage::Finished(outcome) => (self, Command::Finish(outcome)),
        }
    }
}

} // verus!
