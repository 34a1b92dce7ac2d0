//! The status vocabularies of seats, bookings, payments and the payment
//! gateway, with the texts under which the durable store and the gateway know
//! them.

use vstd::prelude::*;
use vstd::string::*;

verus! {

/// Durable status of a seat.
#[derive(Clone, Copy, Debug, PartialEq, Eq, Structural)]
pub enum SeatStatus {
    Free,
    Reserved,
    Sold,
}

/// What a viewer is shown for a seat: a durable status, or `Selected` for a
/// free seat on which somebody currently holds a short-lived lock.
#[derive(Clone, Copy, Debug, PartialEq, Eq, Structural)]
pub enum DisplayStatus {
    Free,
    Reserved,
    Sold,
    Selected,
}

/// Status of a booking.
#[derive(Clone, Copy, Debug, PartialEq, Eq, Structural)]
pub enum BookingStatus {
    Created,
    PendingPayment,
    Paid,
    Cancelled,
}

/// Status of one payment attempt.
#[derive(Clone, Copy, Debug, PartialEq, Eq, Structural)]
pub enum PaymentStatus {
    Pending,
    Completed,
    Failed,
    Expired,
}

/// Status of a payment as the gateway reports it.
#[derive(Clone, Copy, Debug, PartialEq, Eq, Structural)]
pub enum GatewayStatus {
    New,
    Authorized,
    Confirmed,
    Cancelled,
    Failed,
    Expired,
    Refunded,
    /// Any text the gateway sends that is none of the above.
    Unknown,
}

/// The edges of the seat life cycle: a seat is reserved from free, released
/// from reserved, or sold from reserved. Nothing leaves `Sold`.
pub open spec fn seat_step_allowed(from: SeatStatus, to: SeatStatus) -> bool {
    ||| (from == SeatStatus::Free && to == SeatStatus::Reserved)
    ||| (from == SeatStatus::Reserved && to == SeatStatus::Free)
    ||| (from == SeatStatus::Reserved && to == SeatStatus::Sold)
}

impl SeatStatus {
    /// The text under which the durable store holds the status.
    pub open spec fn spec_name(self) -> Seq<char> {
        match self {
            SeatStatus::Free => "FREE"@,
            SeatStatus::Reserved => "RESERVED"@,
            SeatStatus::Sold => "SOLD"@,
        }
    }

    /// What a stored text means: the three names, and `AVAILABLE` as an
    /// older spelling of `FREE`.
    pub open spec fn spec_parse(text: Seq<char>) -> Option<SeatStatus> {
        if text == "FREE"@ || text == "AVAILABLE"@ {
            Some(SeatStatus::Free)
        } else if text == "RESERVED"@ {
            Some(SeatStatus::Reserved)
        } else if text == "SOLD"@ {
            Some(SeatStatus::Sold)
        } else {
            None
        }
    }

    /// The text to write to the durable store.
    pub fn name(self) -> (text: &'static str)
        ensures
            text@ == self.spec_name(),
    {
        match self {
            SeatStatus::Free => "FREE",
            SeatStatus::Reserved => "RESERVED",
            SeatStatus::Sold => "SOLD",
        }
    }

    /// Reads a stored status; `AVAILABLE` is taken as `Free`, so that what is
    /// written back is always `FREE`.
    pub fn parse(text: &str) -> (status: Option<SeatStatus>)
        ensures
            status == Self::spec_parse(text@),
    {
        if *text == *"FREE" || *text == *"AVAILABLE" {
            Some(SeatStatus::Free)
        } else if *text == *"RESERVED" {
            Some(SeatStatus::Reserved)
        } else if *text == *"SOLD" {
            Some(SeatStatus::Sold)
        } else {
            None
        }
    }

    /// The status shown for a seat nobody holds a lock on.
    pub fn display(self) -> (shown: DisplayStatus)
        ensures
            shown == self.spec_display(),
    {
        match self {
            SeatStatus::Free => DisplayStatus::Free,
            SeatStatus::Reserved => DisplayStatus::Reserved,
            SeatStatus::Sold => DisplayStatus::Sold,
        }
    }

    /// The status shown for a seat nobody holds a lock on.
    pub open spec fn spec_display(self) -> DisplayStatus {
        match self {
            SeatStatus::Free => DisplayStatus::Free,
            SeatStatus::Reserved => DisplayStatus::Reserved,
            SeatStatus::Sold => DisplayStatus::Sold,
        }
    }
}

impl DisplayStatus {
    /// The text that stands for the status.
    pub open spec fn spec_name(self) -> Seq<char> {
        match self {
            DisplayStatus::Free => "FREE"@,
            DisplayStatus::Reserved => "RESERVED"@,
            DisplayStatus::Sold => "SOLD"@,
            DisplayStatus::Selected => "SELECTED"@,
        }
    }

    /// The text shown to viewers.
    pub fn name(self) -> (text: &'static str)
        ensures
            text@ == self.spec_name(),
    {
        match self {
            DisplayStatus::Free => "FREE",
            DisplayStatus::Reserved => "RESERVED",
            DisplayStatus::Sold => "SOLD",
            DisplayStatus::Selected => "SELECTED",
        }
    }

    /// The durable status behind a shown one; `Selected` is a free seat.
    pub open spec fn spec_durable(self) -> SeatStatus {
        match self {
            DisplayStatus::Free => SeatStatus::Free,
            DisplayStatus::Reserved => SeatStatus::Reserved,
            DisplayStatus::Sold => SeatStatus::Sold,
            DisplayStatus::Selected => SeatStatus::Free,
        }
    }

    /// The status that may be written to the durable store for a shown one:
    /// `Selected` never reaches the store.
    pub fn durable(self) -> (status: SeatStatus)
        ensures
            status == self.spec_durable(),
    {
        match self {
            DisplayStatus::Free => SeatStatus::Free,
            DisplayStatus::Reserved => SeatStatus::Reserved,
            DisplayStatus::Sold => SeatStatus::Sold,
            DisplayStatus::Selected => SeatStatus::Free,
        }
    }
}

impl BookingStatus {
    /// The text that stands for the status.
    pub open spec fn spec_name(self) -> Seq<char> {
        match self {
            BookingStatus::Created => "created"@,
            BookingStatus::PendingPayment => "pending_payment"@,
            BookingStatus::Paid => "paid"@,
            BookingStatus::Cancelled => "cancelled"@,
        }
    }

    /// The status a text stands for, if it stands for one.
    pub open spec fn spec_parse(text: Seq<char>) -> Option<BookingStatus> {
        if text == "created"@ {
            Some(BookingStatus::Created)
        } else if text == "pending_payment"@ {
            Some(BookingStatus::PendingPayment)
        } else if text == "paid"@ {
            Some(BookingStatus::Paid)
        } else if text == "cancelled"@ {
            Some(BookingStatus::Cancelled)
        } else {
            None
        }
    }

    /// The text under which the durable store holds the status.
    pub fn name(self) -> (text: &'static str)
        ensures
            text@ == self.spec_name(),
    {
        match self {
            BookingStatus::Created => "created",
            BookingStatus::PendingPayment => "pending_payment",
            BookingStatus::Paid => "paid",
            BookingStatus::Cancelled => "cancelled",
        }
    }

    /// Reads a stored status.
    pub fn parse(text: &str) -> (status: Option<BookingStatus>)
        ensures
            status == Self::spec_parse(text@),
    {
        if *text == *"created" {
            Some(BookingStatus::Created)
        } else if *text == *"pending_payment" {
            Some(BookingStatus::PendingPayment)
        } else if *text == *"paid" {
            Some(BookingStatus::Paid)
        } else if *text == *"cancelled" {
            Some(BookingStatus::Cancelled)
        } else {
            None
        }
    }
}

impl PaymentStatus {
    /// The text that stands for the status.
    pub open spec fn spec_name(self) -> Seq<char> {
        match self {
            PaymentStatus::Pending => "pending"@,
            PaymentStatus::Completed => "completed"@,
            PaymentStatus::Failed => "failed"@,
            PaymentStatus::Expired => "expired"@,
        }
    }

    /// The status a text stands for, if it stands for one.
    pub open spec fn spec_parse(text: Seq<char>) -> Option<PaymentStatus> {
        if text == "pending"@ {
            Some(PaymentStatus::Pending)
        } else if text == "completed"@ {
            Some(PaymentStatus::Completed)
        } else if text == "failed"@ {
            Some(PaymentStatus::Failed)
        } else if text == "expired"@ {
            Some(PaymentStatus::Expired)
        } else {
            None
        }
    }

    /// The text under which the durable store holds the status.
    pub fn name(self) -> (text: &'static str)
        ensures
            text@ == self.spec_name(),
    {
        match self {
            PaymentStatus::Pending => "pending",
            PaymentStatus::Completed => "completed",
            PaymentStatus::Failed => "failed",
            PaymentStatus::Expired => "expired",
        }
    }

    /// Reads a stored status.
    pub fn parse(text: &str) -> (status: Option<PaymentStatus>)
        ensures
            status == Self::spec_parse(text@),
    {
        if *text == *"pending" {
            Some(PaymentStatus::Pending)
        } else if *text == *"completed" {
            Some(PaymentStatus::Completed)
        } else if *text == *"failed" {
            Some(PaymentStatus::Failed)
        } else if *text == *"expired" {
            Some(PaymentStatus::Expired)
        } else {
            None
        }
    }
}

impl GatewayStatus {
    /// What a status text of the gateway means; texts it does not define are
    /// `Unknown`.
    pub open spec fn spec_parse(text: Seq<char>) -> GatewayStatus {
        if text == "NEW"@ {
            GatewayStatus::New
        } else if text == "AUTHORIZED"@ {
            GatewayStatus::Authorized
        } else if text == "CONFIRMED"@ {
            GatewayStatus::Confirmed
        } else if text == "CANCELLED"@ {
            GatewayStatus::Cancelled
        } else if text == "FAILED"@ {
            GatewayStatus::Failed
        } else if text == "EXPIRED"@ {
            GatewayStatus::Expired
        } else if text == "REFUNDED"@ {
            GatewayStatus::Refunded
        } else {
            GatewayStatus::Unknown
        }
    }

    /// Reads a status text of the gateway. The comparison is exact: case and
    /// surrounding blanks matter.
    pub fn parse(text: &str) -> (status: GatewayStatus)
        ensures
            status == Self::spec_parse(text@),
    {
        if *text == *"NEW" {
            GatewayStatus::New
        } else if *text == *"AUTHORIZED" {
            GatewayStatus::Authorized
        } else if *text == *"CONFIRMED" {
            GatewayStatus::Confirmed
        } else if *text == *"CANCELLED" {
            GatewayStatus::Cancelled
        } else if *text == *"FAILED" {
            GatewayStatus::Failed
        } else if *text == *"EXPIRED" {
            GatewayStatus::Expired
        } else if *text == *"REFUNDED" {
            GatewayStatus::Refunded
        } else {
            GatewayStatus::Unknown
        }
    }

    /// Whether the gateway holds the money or has reserved it: the payment
    /// went through.
    pub open spec fn spec_is_settled(self) -> bool {
        self == GatewayStatus::Confirmed || self == GatewayStatus::Authorized
    }

    /// Whether the gateway reports the payment as gone for good: cancelled,
    /// failed, expired or refunded.
    pub open spec fn spec_is_dead(self) -> bool {
        self == GatewayStatus::Cancelled || self == GatewayStatus::Failed || self
            == GatewayStatus::Expired || self == GatewayStatus::Refunded
    }

    /// Whether the gateway reports the payment as gone for good.
    pub fn is_dead(self) -> (r: bool)
        ensures
            r == self.spec_is_dead(),
    {
        match self {
            GatewayStatus::Cancelled => true,
            GatewayStatus::Failed => true,
            GatewayStatus::Expired => true,
            GatewayStatus::Refunded => true,
            _ => false,
        }
    }

    /// Whether the gateway holds the money or has reserved it.
    pub fn is_settled(self) -> (r: bool)
        ensures
            r == self.spec_is_settled(),
    {
        match self {
            GatewayStatus::Confirmed => true,
            GatewayStatus::Authorized => true,
            _ => false,
        }
    }
}

/// Every seat status is read back from its own name.
pub proof fn lemma_seat_status_round_trip(status: SeatStatus)
    ensures
        SeatStatus::spec_parse(status.spec_name()) == Some(status),
{
    reveal_strlit("FREE");
    reveal_strlit("AVAILABLE");
    reveal_strlit("RESERVED");
    reveal_strlit("SOLD");
    assert("FREE"@.len() == 4 && "FREE"@[0] == 'F');
    assert("AVAILABLE"@.len() == 9);
    assert("RESERVED"@.len() == 8);
    assert("SOLD"@.len() == 4 && "SOLD"@[0] == 'S');
}

/// Every booking status is read back from its own name.
pub proof fn lemma_booking_status_round_trip(status: BookingStatus)
    ensures
        BookingStatus::spec_parse(status.spec_name()) == Some(status),
{
    reveal_strlit("created");
    reveal_strlit("pending_payment");
    reveal_strlit("paid");
    reveal_strlit("cancelled");
    assert("created"@.len() == 7);
    assert("pending_payment"@.len() == 15);
    assert("paid"@.len() == 4);
    assert("cancelled"@.len() == 9);
}

/// Every payment status is read back from its own name.
pub proof fn lemma_payment_status_round_trip(status: PaymentStatus)
    ensures
        PaymentStatus::spec_parse(status.spec_name()) == Some(status),
{
    reveal_strlit("pending");
    reveal_strlit("completed");
    reveal_strlit("failed");
    reveal_strlit("expired");
    assert("pending"@.len() == 7 && "pending"@[0] == 'p');
    assert("completed"@.len() == 9);
    assert("failed"@.len() == 6);
    assert("expired"@.len() == 7 && "expired"@[0] == 'e');
}

} // verus!
