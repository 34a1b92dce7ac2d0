//! The vocabulary between the engine and the shell that performs its I/O.
//!
//! Every operation of the engine is a small state machine. It hands the shell
//! one [`Command`] at a time; the shell performs it against the durable
//! store, the key store or the payment gateway and hands back a [`Reply`];
//! the machine then decides what comes next, until it hands out
//! [`Command::Finish`] with the [`Outcome`] for the caller. The machines never
//! wait and never fail: whatever reply arrives, they name the next command.
//!
//! Commands carry numbers only. The payment a session is about is known to
//! the shell from the request it serves, and the seat ids that a statement
//! returned stay with the shell until the machine asks to unlock them.

use vstd::prelude::*;
use crate::status::{BookingStatus, GatewayStatus, PaymentStatus};

verus! {

/// One request to the outside world.
#[derive(Clone, Copy, Debug, PartialEq, Eq, Structural)]
#[allow(inconsistent_fields)]
pub enum Command {
    /// Insert a booking in status `created`; replies `Id`.
    InsertBooking { event_id: i64, user_id: i64 },
    /// Does the booking exist and belong to the user? Replies `Flag`.
    BookingOwned { booking_id: i64, user_id: i64 },
    /// The event of a booking; replies `MaybeId`.
    BookingEvent { booking_id: i64 },
    /// The event of a seat; replies `MaybeId`.
    SeatEvent { seat_id: i64 },
    /// Is the seat reserved on a booking of the user? Replies `Flag`.
    SeatHeldBy { seat_id: i64, user_id: i64 },
    /// Is the seat reserved or sold? Replies `Flag`.
    SeatActive { seat_id: i64 },
    /// Reserve the seat for the booking if it is free; replies `Rows`.
    ReserveSeat { seat_id: i64, booking_id: i64 },
    /// Free the seat if it is reserved; replies `Rows`.
    FreeSeat { seat_id: i64 },
    /// Price and number of the seats reserved on a booking of the user, with
    /// the price in minor units; replies `Summary`.
    BookingSummary { booking_id: i64, user_id: i64 },
    /// The latest payment attempt of a booking of the user; replies `Payment`.
    LatestPayment { booking_id: i64, user_id: i64 },
    /// The booking and event of the session's payment; replies `Owner`.
    FindPaymentBooking,
    /// Open a transaction on the durable store.
    Begin,
    /// Commit the open transaction.
    Commit,
    /// Abandon the open transaction.
    Rollback,
    /// Free every seat reserved on the booking; the shell keeps the ids that
    /// were freed; replies `Rows`.
    FreeBookingSeats { booking_id: i64 },
    /// Mark every seat reserved on the booking as sold; the shell keeps the
    /// ids; replies `Rows`.
    SellBookingSeats { booking_id: i64 },
    /// Set the status of a booking; replies `Rows`.
    SetBookingStatus { booking_id: i64, status: BookingStatus },
    /// Mark the booking cancelled unless it is paid; replies `Rows`.
    CancelBooking { booking_id: i64 },
    /// Delete the booking; replies `Rows`.
    DeleteBooking { booking_id: i64 },
    /// Delete the booking if it is still in status `created`; replies `Rows`.
    DeleteCreatedBooking { booking_id: i64 },
    /// Set the status of the session's payment; replies `Rows`.
    MarkPayment { status: PaymentStatus },
    /// Insert the session's payment as pending; replies `Rows`.
    RecordPayment { booking_id: i64, amount_minor: i64 },
    /// The distinct events that bookings refer to; the shell keeps the list;
    /// replies `Count`.
    ListBookingEvents,
    /// Free every seat that is not free or names a booking, sold seats
    /// included; replies `Rows`.
    ResetSeats,
    /// Delete every payment attempt; replies `Rows`.
    DeleteAllPayments,
    /// Delete every booking; replies `Rows`.
    DeleteAllBookings,
    /// Let booking ids start from 1 again.
    RestartBookingIds,
    /// Set the lock of the seat to the user if no lock is there, for
    /// `LOCK_TTL_SECONDS`; replies `Flag`.
    LockSeat { seat_id: i64, user_id: i64 },
    /// Delete the lock of the seat.
    UnlockSeat { seat_id: i64 },
    /// Delete the locks of the seats that the last `FreeBookingSeats` or
    /// `SellBookingSeats` returned.
    UnlockReturnedSeats,
    /// Delete the cached seat list of the event.
    InvalidateSeats { event_id: i64 },
    /// Delete the cached seat lists of the events that `ListBookingEvents`
    /// returned.
    InvalidateListedEvents,
    /// Delete every seat lock; replies `Count`.
    PurgeLocks,
    /// Delete every cached seat list; replies `Count`.
    PurgeSeatCaches,
    /// Ask the gateway to open a payment; replies `Init`, `BreakerOpen` or
    /// `Failed`.
    GatewayInit { amount_minor: i64, seat_count: i32 },
    /// Ask the gateway for the state of the session's payment; replies
    /// `Check`, `BreakerOpen` or `Failed`.
    GatewayCheck,
    /// Ask the gateway to capture the session's payment with the amount,
    /// currency and order that its last check reported; replies `Confirm`,
    /// `BreakerOpen` or `Failed`.
    GatewayConfirm,
    /// The operation is over; nothing more is to be done.
    Finish(Outcome),
}

/// What a gateway check reported, as far as decisions depend on it.
#[derive(Clone, Copy, Debug, PartialEq, Eq, Structural)]
pub struct CheckDigest {
    pub success: bool,
    pub status: Option<GatewayStatus>,
    /// Amount, currency and order id are all present, so that the payment
    /// can be captured.
    pub confirmable: bool,
}

/// What the gateway answered to a request to open a payment.
#[derive(Clone, Copy, Debug, PartialEq, Eq, Structural)]
pub struct InitDigest {
    pub success: bool,
    pub code: Option<i32>,
    pub has_payment_id: bool,
}

/// Sum and number of the reserved seats of a booking.
#[derive(Clone, Copy, Debug, PartialEq, Eq, Structural)]
pub struct Summary {
    pub total_minor: i64,
    pub seat_count: i32,
}

/// The booking a payment belongs to.
#[derive(Clone, Copy, Debug, PartialEq, Eq, Structural)]
pub struct Owner {
    pub booking_id: i64,
    pub event_id: i64,
}

/// What came back from the outside world.
#[derive(Clone, Copy, Debug, PartialEq, Eq, Structural)]
pub enum Reply {
    /// The call failed: a store error, a key store error, or a transport
    /// error towards the gateway.
    Failed,
    /// The call went through and has nothing to report.
    Done,
    Flag(bool),
    Rows(u64),
    Count(u64),
    Id(i64),
    MaybeId(Option<i64>),
    Summary(Option<Summary>),
    Payment(Option<PaymentStatus>),
    Owner(Option<Owner>),
    /// The circuit breaker rejected the call; the gateway was not reached.
    BreakerOpen,
    Init(InitDigest),
    Check(CheckDigest),
    /// The gateway answered a capture request, with its success flag.
    Confirm(bool),
}

/// The texts the engine answers with.
#[derive(Clone, Copy, Debug, PartialEq, Eq, Structural)]
pub enum Message {
    EventIdNotPositive,
    BookingNotCreated,
    IdsNotPositive,
    BookingNotFound,
    SeatAlreadyReserved,
    SeatAdded,
    SeatNotAdded,
    SeatIdNotPositive,
    SeatNotYours,
    SeatReleased,
    SeatNotReleased,
    BookingIdNotPositive,
    BookingNotYours,
    StoreError,
    TransactionError,
    SeatsNotFreed,
    BookingNotCancelled,
    BookingAlreadyPaid,
    CommitError,
    BookingCancelled,
    PaymentBookingIdNotPositive,
    DatabaseError,
    BookingEmpty,
    InvalidPrice,
    GatewayUnavailable,
    GatewayUnreachable,
    NoPaymentId,
    TransactionNotSaved,
    BookingNotUpdated,
    PaymentNotFound,
    ResetBeginError,
    ResetEventsError,
    ResetSeatsError,
    ResetPaymentsError,
    ResetBookingsError,
    ResetSequenceError,
    ResetCommitError,
    RowNotPositive,
    StatusNotKnown,
    EventNotFound,
    AnalyticsIdNotPositive,
}

/// Why a notification or a sweep ended the way it did.
#[derive(Clone, Copy, Debug, PartialEq, Eq, Structural)]
pub enum Settlement {
    /// The payment went through: payment completed, booking paid, seats sold.
    Completed,
    /// The payment failed: payment failed, seats freed, booking deleted.
    Failed,
    /// The payment ran out of time: payment expired, seats freed, booking
    /// deleted.
    Expired,
    /// The booking led nowhere: a stale one has its seats freed and is
    /// cancelled, an empty one is deleted.
    Dropped,
    /// No booking is known for the payment.
    UnknownPayment,
    /// The status asks for nothing to be done.
    NoAction,
    /// The status is none the gateway defines.
    UnknownStatus,
    /// The payment could not be captured now and stays pending.
    LeftPending,
    /// The durable store refused the transaction: nothing has changed.
    NotCommitted,
}

/// The counts an admin reset reports.
#[derive(Clone, Copy, Debug, PartialEq, Eq, Structural)]
pub struct ResetReport {
    pub seats_reset: u64,
    pub bookings_deleted: u64,
    pub payments_deleted: u64,
    pub locks_cleared: u64,
    pub caches_cleared: u64,
    pub events_invalidated: u64,
}

/// How an operation ended.
#[derive(Clone, Copy, Debug, PartialEq, Eq, Structural)]
#[allow(inconsistent_fields)]
pub enum Outcome {
    /// Success with a text.
    Done(Message),
    /// A booking was created.
    Created { id: i64 },
    /// The request was refused with an HTTP status and a text.
    Rejected { status: u16, message: Message },
    /// The gateway refused to open a payment; the text is the gateway's.
    GatewayRejected { status: u16, code: i32 },
    /// A payment was opened at the gateway and recorded as pending.
    PaymentStarted { amount_minor: i64, seat_count: i32 },
    /// The state of the latest payment of a booking.
    PaymentState { status: PaymentStatus },
    /// A notification or a sweep item was handled.
    Settled(Settlement),
    /// An admin reset went through.
    Reset(ResetReport),
}

/// Done.
pub const HTTP_OK: u16 = 200;

/// Created.
pub const HTTP_CREATED: u16 = 201;

/// The request is malformed.
pub const HTTP_BAD_REQUEST: u16 = 400;

/// Credentials are missing or wrong.
pub const HTTP_UNAUTHORIZED: u16 = 401;

/// The payer lacks the funds.
pub const HTTP_PAYMENT_REQUIRED: u16 = 402;

/// The resource is another user's.
pub const HTTP_FORBIDDEN: u16 = 403;

/// There is no such thing.
pub const HTTP_NOT_FOUND: u16 = 404;

/// The state of things forbids what was asked.
pub const HTTP_CONFLICT: u16 = 409;

/// The status that tells a seat conflict apart from other conflicts.
pub const HTTP_SEAT_CONFLICT: u16 = 419;

/// The gateway is asked too often.
pub const HTTP_TOO_MANY_REQUESTS: u16 = 429;

/// The durable store failed.
pub const HTTP_INTERNAL: u16 = 500;

/// The gateway could not be reached or answered what nobody understands.
pub const HTTP_BAD_GATEWAY: u16 = 502;

/// The circuit breaker is open.
pub const HTTP_UNAVAILABLE: u16 = 503;

impl Outcome {
    /// The HTTP status that goes with an outcome.
    pub open spec fn spec_http_status(self) -> u16 {
        match self {
            Outcome::Done(_) => HTTP_OK,
            Outcome::Created { .. } => HTTP_CREATED,
            Outcome::Rejected { status, .. } => status,
            Outcome::GatewayRejected { status, .. } => status,
            Outcome::PaymentStarted { .. } => HTTP_OK,
            Outcome::PaymentState { .. } => HTTP_OK,
            Outcome::Settled(_) => HTTP_OK,
            Outcome::Reset(_) => HTTP_OK,
        }
    }

    /// Whether the operation did what was asked.
    pub open spec fn spec_is_success(self) -> bool {
        !(self is Rejected) && !(self is GatewayRejected)
    }

    /// The HTTP status that goes with an outcome.
    pub fn http_status(&self) -> (status: u16)
        ensures
            status == self.spec_http_status(),
    {
        match self {
            Outcome::Done(_) => HTTP_OK,
            Outcome::Created { .. } => HTTP_CREATED,
            Outcome::Rejected { status, .. } => *status,
            Outcome::GatewayRejected { status, .. } => *status,
            Outcome::PaymentStarted { .. } => HTTP_OK,
            Outcome::PaymentState { .. } => HTTP_OK,
            Outcome::Settled(_) => HTTP_OK,
            Outcome::Reset(_) => HTTP_OK,
        }
    }

    /// Whether the operation did what was asked.
    pub fn is_success(&self) -> (r: bool)
        ensures
            r == self.spec_is_success(),
    {
        match self {
            Outcome::Rejected { .. } => false,
            Outcome::GatewayRejected { .. } => false,
            _ => true,
        }
    }
}

impl Message {
    /// The text of a message, as it is sent to the caller.
    pub open spec fn spec_text(self) -> Seq<char> {
        match self {
            Message::EventIdNotPositive => "event_id должен быть > 0"@,
            Message::BookingNotCreated => "Не удалось создать бронирование"@,
            Message::IdsNotPositive => "booking_id и seat_id должны быть > 0"@,
            Message::BookingNotFound => "Бронирование не найдено"@,
            Message::SeatAlreadyReserved => "Место уже зарезервировано"@,
            Message::SeatAdded => "Место успешно добавлено в бронь"@,
            Message::SeatNotAdded => "Не удалось добавить место в бронь"@,
            Message::SeatIdNotPositive => "seat_id должен быть > 0"@,
            Message::SeatNotYours => "Место не найдено или не принадлежит вам"@,
            Message::SeatReleased => "Место успешно освобождено"@,
            Message::SeatNotReleased => "Не удалось освободить место"@,
            Message::BookingIdNotPositive => "booking_id должен быть > 0"@,
            Message::BookingNotYours => "Бронирование не найдено или не принадлежит вам"@,
            Message::StoreError => "Ошибка БД"@,
            Message::TransactionError => "Ошибка транзакции"@,
            Message::SeatsNotFreed => "Не удалось освободить места"@,
            Message::BookingNotCancelled => "Не удалось отменить бронирование"@,
            Message::BookingAlreadyPaid => "Бронирование уже оплачено"@,
            Message::CommitError => "Ошибка фиксации транзакции"@,
            Message::BookingCancelled => "Бронь успешно отменена"@,
            Message::PaymentBookingIdNotPositive => "Booking ID must be > 0"@,
            Message::DatabaseError => "Database error"@,
            Message::BookingEmpty => "Booking not found or empty"@,
            Message::InvalidPrice => "Invalid booking price"@,
            Message::GatewayUnavailable =>
                "Payment service temporarily unavailable. Please try again later."@,
            Message::GatewayUnreachable => "Payment gateway connection error"@,
            Message::NoPaymentId => "No payment ID from gateway"@,
            Message::TransactionNotSaved => "Failed to save transaction"@,
            Message::BookingNotUpdated => "Failed to update booking"@,
            Message::PaymentNotFound => "Payment for this booking not found"@,
            Message::ResetBeginError => "Ошибка начала транзакции"@,
            Message::ResetEventsError => "Ошибка чтения событий"@,
            Message::ResetSequenceError => "Ошибка сброса счетчика бронирований"@,
            Message::ResetSeatsError => "Ошибка сброса мест"@,
            Message::ResetPaymentsError => "Ошибка удаления платежей"@,
            Message::ResetBookingsError => "Ошибка удаления бронирований"@,
            Message::ResetCommitError => "Ошибка фиксации изменений"@,
            Message::RowNotPositive => "row должен быть > 0"@,
            Message::StatusNotKnown => "status должен быть FREE | RESERVED | SOLD"@,
            Message::EventNotFound => "Событие не найдено"@,
            Message::AnalyticsIdNotPositive => "ID события должен быть > 0"@,
        }
    }

    /// The text of a message, as it is sent to the caller.
    pub fn text(self) -> (text: &'static str)
        ensures
            text@ == self.spec_text(),
    {
        match self {
            Message::EventIdNotPositive => "event_id должен быть > 0",
            Message::BookingNotCreated => "Не удалось создать бронирование",
            Message::IdsNotPositive => "booking_id и seat_id должны быть > 0",
            Message::BookingNotFound => "Бронирование не найдено",
            Message::SeatAlreadyReserved => "Место уже зарезервировано",
            Message::SeatAdded => "Место успешно добавлено в бронь",
            Message::SeatNotAdded => "Не удалось добавить место в бронь",
            Message::SeatIdNotPositive => "seat_id должен быть > 0",
            Message::SeatNotYours => "Место не найдено или не принадлежит вам",
            Message::SeatReleased => "Место успешно освобождено",
            Message::SeatNotReleased => "Не удалось освободить место",
            Message::BookingIdNotPositive => "booking_id должен быть > 0",
            Message::BookingNotYours => "Бронирование не найдено или не принадлежит вам",
            Message::StoreError => "Ошибка БД",
            Message::TransactionError => "Ошибка транзакции",
            Message::SeatsNotFreed => "Не удалось освободить места",
            Message::BookingNotCancelled => "Не удалось отменить бронирование",
            Message::BookingAlreadyPaid => "Бронирование уже оплачено",
            Message::CommitError => "Ошибка фиксации транзакции",
            Message::BookingCancelled => "Бронь успешно отменена",
            Message::PaymentBookingIdNotPositive => "Booking ID must be > 0",
            Message::DatabaseError => "Database error",
            Message::BookingEmpty => "Booking not found or empty",
            Message::InvalidPrice => "Invalid booking price",
            Message::GatewayUnavailable =>
                "Payment service temporarily unavailable. Please try again later.",
            Message::GatewayUnreachable => "Payment gateway connection error",
            Message::NoPaymentId => "No payment ID from gateway",
            Message::TransactionNotSaved => "Failed to save transaction",
            Message::BookingNotUpdated => "Failed to update booking",
            Message::PaymentNotFound => "Payment for this booking not found",
            Message::ResetBeginError => "Ошибка начала транзакции",
            Message::ResetEventsError => "Ошибка чтения событий",
            Message::ResetSequenceError => "Ошибка сброса счетчика бронирований",
            Message::ResetSeatsError => "Ошибка сброса мест",
            Message::ResetPaymentsError => "Ошибка удаления платежей",
            Message::ResetBookingsError => "Ошибка удаления бронирований",
            Message::ResetCommitError => "Ошибка фиксации изменений",
            Message::RowNotPositive => "row должен быть > 0",
            Message::StatusNotKnown => "status должен быть FREE | RESERVED | SOLD",
            Message::EventNotFound => "Событие не найдено",
            Message::AnalyticsIdNotPositive => "ID события должен быть > 0",
        }
    }
}

impl Reply {
    /// The number of rows a statement touched; a failed statement touched none.
    pub open spec fn spec_rows(self) -> u64 {
        match self {
            Reply::Rows(n) => n,
            _ => 0,
        }
    }

    /// The number a count reported; a failed count reports none.
    pub open spec fn spec_count(self) -> u64 {
        match self {
            Reply::Count(n) => n,
            _ => 0,
        }
    }

    /// Whether a question was answered with yes; a failed question was not.
    pub open spec fn spec_yes(self) -> bool {
        self == Reply::Flag(true)
    }

    /// The number of rows a statement touched; a failed statement touched none.
    pub fn rows(&self) -> (n: u64)
        ensures
            n == self.spec_rows(),
    {
        match self {
            Reply::Rows(n) => *n,
            _ => 0,
        }
    }

    /// The number a count reported; a failed count reports none.
    pub fn count(&self) -> (n: u64)
        ensures
            n == self.spec_count(),
    {
        match self {
            Reply::Count(n) => *n,
            _ => 0,
        }
    }

    /// Whether a question was answered with yes; a failed question was not.
    pub fn yes(&self) -> (r: bool)
        ensures
            r == self.spec_yes(),
    {
        match self {
            Reply::Flag(b) => *b,
            _ => false,
        }
    }
}

} // verus!
