//! The reaper: the periodic sweep that drives payments that were pending
//! for too long, bookings that lead nowhere and seat locks without a seat
//! to a quiet end.

use std::sync::Arc;
use vstd::prelude::*;
use vstd::string::*;
use crate::keys::{seat_lock_keys, spec_seat_lock_key, spec_seat_lock_keys};
use crate::machine::{run, GatewayScript, Machine};
use crate::protocol::{CheckDigest, Command, Outcome, Reply, Settlement};
use crate::settle::{Settle, SettleKind};
use crate::text::{
    before_char, decimal, decimal_digits, find_char, has_prefix, is_digit, lemma_before_char,
    lemma_decimal_digits_are_digits, lemma_decimal_round_trip, parse_i64, parsed_i64,
    strip_prefix,
};
use crate::world::World;
use crate::AppState;

verus! {

/// Seconds between two sweeps.
pub const SWEEP_INTERVAL_SECONDS: u64 = 300;

/// Minutes after which a pending payment counts as expired.
pub const PAYMENT_EXPIRY_MINUTES: u64 = 15;

/// Minutes after which a booking that holds seats without a payment attempt
/// counts as stale.
pub const STALE_BOOKING_MINUTES: u64 = 30;

/// Hours after which a booking without seats is deleted.
pub const EMPTY_BOOKING_HOURS: u64 = 2;

/// The text between `seat:` and the next colon of a key, for keys that
/// begin with `seat:`.
pub open spec fn spec_seat_id_text(key: Seq<char>) -> Option<Seq<char>> {
    if has_prefix(key, "seat:"@) {
        Some(before_char(key.subrange("seat:"@.len() as int, key.len() as int), ':'))
    } else {
        None
    }
}

/// The seat a key of the key store names, if it names one.
pub open spec fn spec_lock_key_seat(key: Seq<char>) -> Option<i64> {
    match spec_seat_id_text(key) {
        Some(text) => parsed_i64(text),
        None => None,
    }
}

/// The keys among `keys` that name a seat which is not active in the
/// durable store, in their order. `active` answers, position by position,
/// whether the seat a key names is reserved or sold; an answer that is
/// missing is a seat that is not.
pub open spec fn spec_orphans(keys: Seq<Seq<char>>, active: Seq<bool>) -> Seq<Seq<char>>
    decreases keys.len(),
{
    if keys.len() == 0 {
        Seq::empty()
    } else {
        let last = keys.len() - 1;
        let before = spec_orphans(keys.drop_last(), active);
        if spec_lock_key_seat(keys[last]) is Some && !(last < active.len() && active[last]) {
            before.push(keys[last])
        } else {
            before
        }
    }
}

/// The key of a seat's lock names the seat: what the reaper reads out of
/// the key that selecting a seat wrote is that seat.
pub proof fn lemma_lock_key_names_its_seat(seat_id: i64)
    ensures
        spec_lock_key_seat(spec_seat_lock_key(seat_id)) == Some(seat_id),
{
    reveal_strlit("seat:");
    reveal_strlit(":reserved");
    let number = decimal(seat_id as int);
    let key = spec_seat_lock_key(seat_id);
    let rest = key.subrange("seat:"@.len() as int, key.len() as int);
    assert(key.subrange(0, "seat:"@.len() as int) =~= "seat:"@);
    assert(rest =~= number + ":reserved"@);
    let size: nat = if seat_id < 0 {
        (-seat_id) as nat
    } else {
        seat_id as nat
    };
    lemma_decimal_digits_are_digits(size);
    assert forall|j: int| 0 <= j < number.len() implies rest[j] != ':' by {
        if seat_id < 0 && j > 0 {
            assert(is_digit(decimal_digits(size)[j - 1]));
        } else if seat_id >= 0 {
            assert(is_digit(decimal_digits(size)[j]));
        }
    }
    lemma_before_char(rest, ':', number.len() as int);
    assert(rest.subrange(0, number.len() as int) =~= number);
    lemma_decimal_round_trip(seat_id);
}

/// What a sweep would find to do.
#[derive(Debug, Clone, Copy)]
pub struct CleanupStats {
    pub expired_payments: i64,
    pub empty_bookings: i64,
    pub stale_bookings: i64,
    pub redis_reserves: i64,
}

impl CleanupStats {
    /// The sum of the three counts of rows.
    pub open spec fn spec_total(&self) -> int {
        self.expired_payments + self.empty_bookings + self.stale_bookings
    }

    /// The rows of the durable store a sweep would touch: expired payments,
    /// empty bookings and stale bookings. Seat locks are not rows.
    pub fn total_items_to_cleanup(&self) -> (total: i64)
        requires
            i64::MIN <= self.expired_payments + self.empty_bookings <= i64::MAX,
            i64::MIN <= self.spec_total() <= i64::MAX,
        ensures
            total == self.spec_total(),
    {
        self.expired_payments + self.empty_bookings + self.stale_bookings
    }
}

/// The reaper.
pub struct CleanupService {
    state: Arc<AppState>,
}

impl CleanupService {
    /// The application state the service was made with.
    pub closed spec fn state(&self) -> Arc<AppState> {
        self.state
    }

    /// The reaper for an application.
    pub fn new(state: Arc<AppState>) -> (service: CleanupService)
        ensures
            service.state() == state,
    {
        CleanupService { state }
    }

    /// Settles a payment that was pending for too long without asking the
    /// gateway first: payment expired, seats freed, booking deleted.
    pub fn cleanup_expired_payment(&self, booking_id: i64, event_id: i64) -> (step: (Settle, Command))
        ensures
            step == Settle::spec_start(SettleKind::Expired, booking_id, event_id),
    {
        Settle::start(SettleKind::Expired, booking_id, event_id)
    }

    /// Drops a booking that held seats for too long without a payment
    /// attempt: seats freed, booking cancelled.
    pub fn cleanup_stale_booking(&self, booking_id: i64, event_id: i64) -> (step: (Settle, Command))
        ensures
            step == Settle::spec_start(SettleKind::Dropped, booking_id, event_id),
    {
        Settle::start(SettleKind::Dropped, booking_id, event_id)
    }

    /// The part of a key that names the seat: what stands between `seat:`
    /// and the next colon, or the end of the key.
    pub fn extract_seat_id_from_key(&self, key: &str) -> (text: Option<String>)
        ensures
            match text {
                Some(t) => spec_seat_id_text(key@) == Some(t@),
                None => spec_seat_id_text(key@) is None,
            },
    {
        match strip_prefix(key, "seat:") {
            Some(rest) => {
                let end = match find_char(rest, ':') {
                    Some(colon) => colon,
                    None => rest.unicode_len(),
                };
                proof {
                    lemma_before_char(rest@, ':', end as int);
                }
                Some(String::from_str(rest.substring_char(0, end)))
            },
            None => None,
        }
    }

    /// The seat a key names, if its seat part is a number.
    pub fn lock_key_seat(&self, key: &str) -> (seat_id: Option<i64>)
        ensures
            seat_id == spec_lock_key_seat(key@),
    {
        match self.extract_seat_id_from_key(key) {
            Some(text) => parse_i64(text.as_str()),
            None => None,
        }
    }

    /// The seats to look up for a scan of the key store, position by
    /// position: the seat a key names, or nothing for a key that names none.
    pub fn seats_to_probe(&self, keys: &Vec<String>) -> (seats: Vec<Option<i64>>)
        ensures
            seats@.len() == keys@.len(),
            forall|i: int| 0 <= i < keys@.len() ==> seats@[i] == spec_lock_key_seat(#[trigger] keys@[i]@),
    {
        let mut seats: Vec<Option<i64>> = Vec::new();
        let mut i: usize = 0;
        while i < keys.len()
            invariant
                i <= keys.len(),
                seats@.len() == i,
                forall|j: int| 0 <= j < i ==> seats@[j] == spec_lock_key_seat(#[trigger] keys@[j]@),
            decreases keys.len() - i,
        {
            seats.push(self.lock_key_seat(keys[i].as_str()));
            i = i + 1;
        }
        seats
    }

    /// The keys to delete after a scan of the key store: those that name a
    /// seat which the durable store does not hold as reserved or sold. A key
    /// that names no seat is left alone.
    pub fn orphaned_keys(&self, keys: &Vec<String>, active: &Vec<bool>) -> (orphans: Vec<String>)
        ensures
            orphans.deep_view() == spec_orphans(keys.deep_view(), active@),
    {
        let mut orphans: Vec<String> = Vec::new();
        let mut i: usize = 0;
        while i < keys.len()
            invariant
                i <= keys.len(),
                orphans.deep_view() == spec_orphans(keys.deep_view().take(i as int), active@),
            decreases keys.len() - i,
        {
            let ghost before = orphans.deep_view();
            proof {
                assert(keys.deep_view().take(i + 1).drop_last() =~= keys.deep_view().take(i as int));
                assert(keys.deep_view().take(i + 1)[i as int] == keys@[i as int]@);
            }
            let is_active = i < active.len() && active[i];
            if self.lock_key_seat(keys[i].as_str()).is_some() && !is_active {
                let key = keys[i].clone();
                orphans.push(key);
                proof {
                    assert(orphans.deep_view() =~= before.push(keys@[i as int]@));
                }
            }
            i = i + 1;
        }
        proof {
            assert(keys.deep_view().take(i as int) =~= keys.deep_view());
        }
        orphans
    }

    /// The lock keys to delete for seats that were freed or sold.
    pub fn clear_redis_reservations(&self, seat_ids: &Vec<i64>) -> (keys: Vec<String>)
        ensures
            keys.deep_view() == spec_seat_lock_keys(seat_ids@),
    {
        seat_lock_keys(seat_ids)
    }
}

/// Where the sweep of an expired payment stands.
#[derive(Clone, Copy, Debug, PartialEq, Eq, Structural)]
pub enum ExpiredStage {
    AwaitCheck,
    Settling(Settle),
    Finished(Outcome),
}

/// One payment that was pending for too long, being swept.
#[derive(Clone, Copy, Debug, PartialEq, Eq, Structural)]
pub struct ExpiredPayment {
    pub stage: ExpiredStage,
    pub booking_id: i64,
    pub event_id: i64,
}

/// Whether a check at the gateway shows that the payment went through
/// after all.
pub open spec fn went_through(reply: Reply) -> bool {
    match reply {
        Reply::Check(CheckDigest { success: true, status: Some(status), .. }) => status.spec_is_settled(),
        _ => false,
    }
}

impl ExpiredPayment {
    /// The step of a settlement, as a step of the machine that runs it.
    pub open spec fn settling(self, step: (Settle, Command)) -> (ExpiredPayment, Command) {
        (
            ExpiredPayment {
                stage: match step.1 {
                    Command::Finish(outcome) => ExpiredStage::Finished(outcome),
                    _ => ExpiredStage::Settling(step.0),
                },
                ..self
            },
            step.1,
        )
    }

    /// Before a payment is given up, the gateway is asked one last time.
    pub open spec fn spec_start(booking_id: i64, event_id: i64) -> (ExpiredPayment, Command) {
        (ExpiredPayment { stage: ExpiredStage::AwaitCheck, booking_id, event_id }, Command::GatewayCheck)
    }

    /// Begins the sweep of a payment that was pending for too long.
    pub fn start(booking_id: i64, event_id: i64) -> (step: (ExpiredPayment, Command))
        ensures
            step == Self::spec_start(booking_id, event_id),
    {
        (ExpiredPayment { stage: ExpiredStage::AwaitCheck, booking_id, event_id }, Command::GatewayCheck)
    }

    fn settle(self, step: (Settle, Command)) -> (next: (ExpiredPayment, Command))
        ensures
            next == self.settling(step),
    {
        let stage = match step.1 {
            Command::Finish(outcome) => ExpiredStage::Finished(outcome),
            _ => ExpiredStage::Settling(step.0),
        };
        (ExpiredPayment { stage, booking_id: self.booking_id, event_id: self.event_id }, step.1)
    }
}

impl Machine for ExpiredPayment {
    /// A payment that the gateway reports as confirmed or authorized is
    /// settled as completed. In every other case, an open breaker and an
    /// unreachable gateway included, it is settled as expired.
    open spec fn spec_next(self, reply: Reply) -> (ExpiredPayment, Command) {
        match self.stage {
            ExpiredStage::AwaitCheck => self.settling(
                Settle::spec_start(
                    if went_through(reply) {
                        SettleKind::Completed
                    } else {
                        SettleKind::Expired
                    },
                    self.booking_id,
                    self.event_id,
                ),
            ),
            ExpiredStage::Settling(settle) => self.settling(settle.spec_next(reply)),
            ExpiredStage::Finished(outcome) => (self, Command::Finish(outcome)),
        }
    }

    open spec fn spec_remaining(self) -> nat {
        match self.stage {
            ExpiredStage::AwaitCheck => 9,
            ExpiredStage::Settling(settle) => settle.spec_remaining(),
            ExpiredStage::Finished(_) => 0,
        }
    }

    proof fn lemma_progress(self, reply: Reply)
    {
        if let ExpiredStage::Settling(settle) = self.stage {
            settle.lemma_progress(reply);
        }
    }

    fn next(self, reply: Reply) -> (step: (ExpiredPayment, Command)) {
        match self.stage {
            ExpiredStage::AwaitCheck => {
                let paid = match reply {
                    Reply::Check(CheckDigest { success: true, status: Some(status), .. }) => status.is_settled(),
                    _ => false,
                };
                let kind = if paid {
                    SettleKind::Completed
                } else {
                    SettleKind::Expired
                };
                self.settle(Settle::start(kind, self.booking_id, self.event_id))
            },
            ExpiredStage::Settling(settle) => self.settle(settle.next(reply)),
            ExpiredStage::Finished(outcome) => (self, Command::Finish(outcome)),
        }
    }
}

/// Where the sweep of an empty booking stands.
#[derive(Clone, Copy, Debug, PartialEq, Eq, Structural)]
pub enum EmptyStage {
    AwaitDelete,
    Finished(Outcome),
}

/// One old booking without seats, being swept.
#[derive(Clone, Copy, Debug, PartialEq, Eq, Structural)]
pub struct EmptyBooking {
    pub stage: EmptyStage,
}

impl EmptyBooking {
    /// The booking is deleted if it is still in status `created`.
    pub open spec fn spec_start(booking_id: i64) -> (EmptyBooking, Command) {
        (EmptyBooking { stage: EmptyStage::AwaitDelete }, Command::DeleteCreatedBooking { booking_id })
    }

    /// Begins the sweep of an old booking without seats.
    pub fn start(booking_id: i64) -> (step: (EmptyBooking, Command))
        ensures
            step == Self::spec_start(booking_id),
    {
        (EmptyBooking { stage: EmptyStage::AwaitDelete }, Command::DeleteCreatedBooking { booking_id })
    }
}

impl Machine for EmptyBooking {
    /// A booking that was deleted is reported as dropped; one that was not,
    /// because its status changed or the store failed, as left alone.
    open spec fn spec_next(self, reply: Reply) -> (EmptyBooking, Command) {
        match self.stage {
            EmptyStage::AwaitDelete => {
                let outcome = Outcome::Settled(
                    if reply.spec_rows() > 0 {
                        Settlement::Dropped
                    } else {
                        Settlement::NoAction
                    },
                );
                (EmptyBooking { stage: EmptyStage::Finished(outcome) }, Command::Finish(outcome))
            },
            EmptyStage::Finished(outcome) => (self, Command::Finish(outcome)),
        }
    }

    open spec fn spec_remaining(self) -> nat {
        match self.stage {
            EmptyStage::AwaitDelete => 1,
            EmptyStage::Finished(_) => 0,
        }
    }

    proof fn lemma_progress(self, reply: Reply)
    {
    }

    fn next(self, reply: Reply) -> (step: (EmptyBooking, Command)) {
        match self.stage {
            EmptyStage::AwaitDelete => {
                let outcome = Outcome::Settled(
                    if reply.rows() > 0 {
                        Settlement::Dropped
                    } else {
                        Settlement::NoAction
                    },
                );
                (EmptyBooking { stage: EmptyStage::Finished(outcome) }, Command::Finish(outcome))
            },
            EmptyStage::Finished(outcome) => (self, Command::Finish(outcome)),
        }
    }
}

/// A sweep of an expired payment that has come to settling runs as the
/// settlement runs.
pub proof fn lemma_expired_settling(
    item: ExpiredPayment,
    step: (Settle, Command),
    world: World,
    payment: Seq<char>,
    gateway: GatewayScript,
    fuel: nat,
)
    ensures
        ({
            let wrapped = item.settling(step);
            run(wrapped.0, wrapped.1, world, payment, gateway, fuel) == run(
                step.0,
                step.1,
                world,
                payment,
                gateway,
                fuel,
            )
        }),
    decreases fuel,
{
    let wrapped = item.settling(step);
    if !(step.1 is Finish) && fuel > 0 {
        let (after, reply) = crate::machine::answer(world, payment, gateway, step.1);
        lemma_expired_settling(
            wrapped.0,
            step.0.spec_next(reply),
            after,
            payment,
            gateway,
            (fuel - 1) as nat,
        );
    }
}

} // verus!
