//! The machines of the engine, driven against a small in-memory stand-in for
//! the durable store, the key store and the payment gateway.

use std::collections::{BTreeMap, BTreeSet};

use ticket_system::bookings::{CancelBooking, CreateBooking};
use ticket_system::cleanup::{EmptyBooking, ExpiredPayment};
use ticket_system::machine::Machine;
use ticket_system::payments::{InitiatePayment, PaymentStatusQuery};
use ticket_system::protocol::{
    CheckDigest, Command, InitDigest, Message, Outcome, Owner, Reply, ResetReport, Settlement,
    Summary,
};
use ticket_system::reset::Reset;
use ticket_system::seats::{ReleaseSeat, SelectSeat};
use ticket_system::settle::{Settle, SettleKind};
use ticket_system::status::{BookingStatus, GatewayStatus, PaymentStatus, SeatStatus};
use ticket_system::webhook::{Landing, LandingPage, Webhook};

#[derive(Clone, Debug, PartialEq)]
struct SeatRow {
    event_id: i64,
    status: SeatStatus,
    booking_id: Option<i64>,
    price_minor: i64,
}

#[derive(Clone, Debug, PartialEq)]
struct BookingRow {
    event_id: i64,
    user_id: i64,
    status: BookingStatus,
}

#[derive(Clone, Debug, PartialEq)]
struct PaymentRow {
    booking_id: i64,
    status: PaymentStatus,
    amount_minor: i64,
    created: u64,
}

#[derive(Clone, Debug, PartialEq)]
struct Db {
    seats: BTreeMap<i64, SeatRow>,
    bookings: BTreeMap<i64, BookingRow>,
    payments: BTreeMap<String, PaymentRow>,
    next_booking_id: i64,
    next_payment: u64,
}

#[derive(Clone, Debug, PartialEq)]
struct World {
    db: Db,
    saved: Option<Db>,
    locks: BTreeMap<i64, i64>,
    caches: BTreeSet<i64>,
    returned: Vec<i64>,
    listed: Vec<i64>,
    init: Reply,
    check: Reply,
    confirm: Reply,
    /// Commands whose reply is `Failed` instead of what the world would say.
    failing: Vec<Command>,
    log: Vec<Command>,
}

fn free_seat(event_id: i64, price_minor: i64) -> SeatRow {
    SeatRow { event_id, status: SeatStatus::Free, booking_id: None, price_minor }
}

fn world_with_seats(seats: &[(i64, i64, i64)]) -> World {
    let mut map = BTreeMap::new();
    for (id, event_id, price) in seats {
        map.insert(*id, free_seat(*event_id, *price));
    }
    World {
        db: Db {
            seats: map,
            bookings: BTreeMap::new(),
            payments: BTreeMap::new(),
            next_booking_id: 1,
            next_payment: 0,
        },
        saved: None,
        locks: BTreeMap::new(),
        caches: BTreeSet::new(),
        returned: Vec::new(),
        listed: Vec::new(),
        init: Reply::Failed,
        check: Reply::Failed,
        confirm: Reply::Failed,
        failing: Vec::new(),
        log: Vec::new(),
    }
}

impl World {
    fn reserved_on(&self, booking_id: i64) -> Vec<i64> {
        self.db
            .seats
            .iter()
            .filter(|(_, s)| s.status == SeatStatus::Reserved && s.booking_id == Some(booking_id))
            .map(|(id, _)| *id)
            .collect()
    }

    fn owns(&self, user_id: i64, booking_id: i64) -> bool {
        self.db.bookings.get(&booking_id).map(|b| b.user_id == user_id).unwrap_or(false)
    }

    fn apply(&mut self, payment: &str, command: Command) -> Reply {
        self.log.push(command);
        if self.failing.contains(&command) {
            return Reply::Failed;
        }
        match command {
            Command::InsertBooking { event_id, user_id } => {
                let id = self.db.next_booking_id;
                self.db.next_booking_id += 1;
                self.db
                    .bookings
                    .insert(id, BookingRow { event_id, user_id, status: BookingStatus::Created });
                Reply::Id(id)
            }
            Command::BookingOwned { booking_id, user_id } => Reply::Flag(self.owns(user_id, booking_id)),
            Command::BookingEvent { booking_id } => match self.db.bookings.get(&booking_id) {
                Some(b) => Reply::MaybeId(Some(b.event_id)),
                None => Reply::Failed,
            },
            Command::SeatEvent { seat_id } => match self.db.seats.get(&seat_id) {
                Some(s) => Reply::MaybeId(Some(s.event_id)),
                None => Reply::Failed,
            },
            Command::SeatHeldBy { seat_id, user_id } => {
                let held = match self.db.seats.get(&seat_id) {
                    Some(s) => {
                        s.status == SeatStatus::Reserved
                            && s.booking_id.map(|b| self.owns(user_id, b)).unwrap_or(false)
                    }
                    None => false,
                };
                Reply::Flag(held)
            }
            Command::SeatActive { seat_id } => Reply::Flag(
                self.db.seats.get(&seat_id).map(|s| s.status != SeatStatus::Free).unwrap_or(false),
            ),
            Command::ReserveSeat { seat_id, booking_id } => match self.db.seats.get_mut(&seat_id) {
                Some(s) if s.status == SeatStatus::Free => {
                    s.status = SeatStatus::Reserved;
                    s.booking_id = Some(booking_id);
                    Reply::Rows(1)
                }
                _ => Reply::Rows(0),
            },
            Command::FreeSeat { seat_id } => match self.db.seats.get_mut(&seat_id) {
                Some(s) if s.status == SeatStatus::Reserved => {
                    s.status = SeatStatus::Free;
                    s.booking_id = None;
                    Reply::Rows(1)
                }
                _ => Reply::Rows(0),
            },
            Command::BookingSummary { booking_id, user_id } => {
                let seats = self.reserved_on(booking_id);
                if self.owns(user_id, booking_id) && !seats.is_empty() {
                    let total: i64 = seats.iter().map(|s| self.db.seats[s].price_minor).sum();
                    Reply::Summary(Some(Summary { total_minor: total, seat_count: seats.len() as i32 }))
                } else {
                    Reply::Summary(None)
                }
            }
            Command::LatestPayment { booking_id, user_id } => {
                if !self.owns(user_id, booking_id) {
                    return Reply::Payment(None);
                }
                let latest = self
                    .db
                    .payments
                    .values()
                    .filter(|p| p.booking_id == booking_id)
                    .max_by_key(|p| p.created)
                    .map(|p| p.status);
                Reply::Payment(latest)
            }
            Command::FindPaymentBooking => {
                let owner = self.db.payments.get(payment).and_then(|p| {
                    self.db
                        .bookings
                        .get(&p.booking_id)
                        .map(|b| Owner { booking_id: p.booking_id, event_id: b.event_id })
                });
                Reply::Owner(owner)
            }
            Command::Begin => {
                self.saved = Some(self.db.clone());
                Reply::Done
            }
            Command::Commit => {
                self.saved = None;
                Reply::Done
            }
            Command::Rollback => {
                if let Some(before) = self.saved.take() {
                    self.db = before;
                }
                Reply::Done
            }
            Command::FreeBookingSeats { booking_id } => {
                let seats = self.reserved_on(booking_id);
                for s in &seats {
                    let row = self.db.seats.get_mut(s).unwrap();
                    row.status = SeatStatus::Free;
                    row.booking_id = None;
                }
                self.returned = seats.clone();
                Reply::Rows(seats.len() as u64)
            }
            Command::SellBookingSeats { booking_id } => {
                let seats = self.reserved_on(booking_id);
                for s in &seats {
                    self.db.seats.get_mut(s).unwrap().status = SeatStatus::Sold;
                }
                self.returned = seats.clone();
                Reply::Rows(seats.len() as u64)
            }
            Command::SetBookingStatus { booking_id, status } => {
                match self.db.bookings.get_mut(&booking_id) {
                    Some(b) => {
                        b.status = status;
                        Reply::Rows(1)
                    }
                    None => Reply::Rows(0),
                }
            }
            Command::CancelBooking { booking_id } => match self.db.bookings.get_mut(&booking_id) {
                Some(b) if b.status != BookingStatus::Paid => {
                    b.status = BookingStatus::Cancelled;
                    Reply::Rows(1)
                }
                _ => Reply::Rows(0),
            },
            Command::DeleteBooking { booking_id } => {
                Reply::Rows(if self.db.bookings.remove(&booking_id).is_some() { 1 } else { 0 })
            }
            Command::DeleteCreatedBooking { booking_id } => {
                let created = self
                    .db
                    .bookings
                    .get(&booking_id)
                    .map(|b| b.status == BookingStatus::Created)
                    .unwrap_or(false);
                if created {
                    self.db.bookings.remove(&booking_id);
                    Reply::Rows(1)
                } else {
                    Reply::Rows(0)
                }
            }
            Command::MarkPayment { status } => match self.db.payments.get_mut(payment) {
                Some(p) => {
                    p.status = status;
                    Reply::Rows(1)
                }
                None => Reply::Rows(0),
            },
            Command::RecordPayment { booking_id, amount_minor } => {
                let created = self.db.next_payment;
                self.db.next_payment += 1;
                self.db.payments.insert(
                    payment.to_string(),
                    PaymentRow { booking_id, status: PaymentStatus::Pending, amount_minor, created },
                );
                Reply::Rows(1)
            }
            Command::ListBookingEvents => {
                let events: BTreeSet<i64> = self.db.bookings.values().map(|b| b.event_id).collect();
                self.listed = events.into_iter().collect();
                Reply::Count(self.listed.len() as u64)
            }
            Command::ResetSeats => {
                let mut n = 0;
                for s in self.db.seats.values_mut() {
                    if s.status != SeatStatus::Free || s.booking_id.is_some() {
                        s.status = SeatStatus::Free;
                        s.booking_id = None;
                        n += 1;
                    }
                }
                Reply::Rows(n)
            }
            Command::DeleteAllPayments => {
                let n = self.db.payments.len() as u64;
                self.db.payments.clear();
                Reply::Rows(n)
            }
            Command::DeleteAllBookings => {
                let n = self.db.bookings.len() as u64;
                self.db.bookings.clear();
                Reply::Rows(n)
            }
            Command::RestartBookingIds => {
                self.db.next_booking_id = 1;
                Reply::Done
            }
            Command::LockSeat { seat_id, user_id } => {
                if self.locks.contains_key(&seat_id) {
                    Reply::Flag(false)
                } else {
                    self.locks.insert(seat_id, user_id);
                    Reply::Flag(true)
                }
            }
            Command::UnlockSeat { seat_id } => {
                self.locks.remove(&seat_id);
                Reply::Done
            }
            Command::UnlockReturnedSeats => {
                for s in &self.returned {
                    self.locks.remove(s);
                }
                Reply::Done
            }
            Command::InvalidateSeats { event_id } => {
                self.caches.remove(&event_id);
                Reply::Done
            }
            Command::InvalidateListedEvents => {
                for e in &self.listed {
                    self.caches.remove(e);
                }
                Reply::Done
            }
            Command::PurgeLocks => {
                let n = self.locks.len() as u64;
                self.locks.clear();
                Reply::Count(n)
            }
            Command::PurgeSeatCaches => {
                let n = self.caches.len() as u64;
                self.caches.clear();
                Reply::Count(n)
            }
            Command::GatewayInit { .. } => self.init,
            Command::GatewayCheck => self.check,
            Command::GatewayConfirm => self.confirm,
            Command::Finish(_) => Reply::Done,
        }
    }

    fn holdings(&self) -> (Db, BTreeMap<i64, i64>, BTreeSet<i64>) {
        (self.db.clone(), self.locks.clone(), self.caches.clone())
    }
}

fn drive<M: Machine>(start: (M, Command), world: &mut World, payment: &str) -> Outcome {
    let (mut machine, mut command) = start;
    for _ in 0..32 {
        if let Command::Finish(outcome) = command {
            return outcome;
        }
        let reply = world.apply(payment, command);
        let step = machine.next(reply);
        machine = step.0;
        command = step.1;
    }
    panic!("the machine did not finish");
}

fn rejected(status: u16, message: Message) -> Outcome {
    Outcome::Rejected { status, message }
}

fn gateway_opens() -> Reply {
    Reply::Init(InitDigest { success: true, code: None, has_payment_id: true })
}

fn gateway_reports(status: GatewayStatus, confirmable: bool) -> Reply {
    Reply::Check(CheckDigest { success: true, status: Some(status), confirmable })
}

/// A world in which user 1 holds booking 1 on event 7 with seat 42 reserved
/// and a pending payment `p`.
fn world_awaiting_payment() -> World {
    let mut world = world_with_seats(&[(42, 7, 150_000), (43, 7, 90_000)]);
    world.init = gateway_opens();
    assert_eq!(drive(CreateBooking::start(1, 7), &mut world, ""), Outcome::Created { id: 1 });
    assert_eq!(drive(SelectSeat::start(1, 1, 42), &mut world, ""), Outcome::Done(Message::SeatAdded));
    assert_eq!(
        drive(InitiatePayment::start(1, 1), &mut world, "p"),
        Outcome::PaymentStarted { amount_minor: 150_000, seat_count: 1 }
    );
    world.log.clear();
    world
}

#[test]
fn create_booking_returns_fresh_ids() {
    let mut world = world_with_seats(&[]);
    assert_eq!(drive(CreateBooking::start(1, 7), &mut world, ""), Outcome::Created { id: 1 });
    assert_eq!(drive(CreateBooking::start(1, 7), &mut world, ""), Outcome::Created { id: 2 });
    assert_eq!(world.db.bookings[&1].status, BookingStatus::Created);
    assert_eq!(world.db.bookings[&2].user_id, 1);
    assert_eq!(Outcome::Created { id: 1 }.http_status(), 201);
}

#[test]
fn create_booking_rejects_event_ids_that_are_not_positive() {
    let mut world = world_with_seats(&[]);
    for event_id in [0, -1, i64::MIN] {
        let outcome = drive(CreateBooking::start(1, event_id), &mut world, "");
        assert_eq!(outcome, rejected(400, Message::EventIdNotPositive));
    }
    assert!(world.log.is_empty());
    assert!(world.db.bookings.is_empty());
}

#[test]
fn create_booking_reports_a_failing_store() {
    let mut world = world_with_seats(&[]);
    world.failing.push(Command::InsertBooking { event_id: 7, user_id: 1 });
    let outcome = drive(CreateBooking::start(1, 7), &mut world, "");
    assert_eq!(outcome, rejected(500, Message::BookingNotCreated));
    assert_eq!(Message::BookingNotCreated.text(), "Не удалось создать бронирование");
}

#[test]
fn select_seat_locks_then_reserves_then_invalidates() {
    let mut world = world_with_seats(&[(42, 7, 1000)]);
    world.caches.insert(7);
    drive(CreateBooking::start(1, 7), &mut world, "");
    world.log.clear();
    let outcome = drive(SelectSeat::start(1, 1, 42), &mut world, "");
    assert_eq!(outcome, Outcome::Done(Message::SeatAdded));
    assert_eq!(outcome.http_status(), 200);
    assert_eq!(
        world.log,
        vec![
            Command::BookingOwned { booking_id: 1, user_id: 1 },
            Command::LockSeat { seat_id: 42, user_id: 1 },
            Command::ReserveSeat { seat_id: 42, booking_id: 1 },
            Command::SeatEvent { seat_id: 42 },
            Command::InvalidateSeats { event_id: 7 },
        ]
    );
    assert_eq!(world.db.seats[&42].status, SeatStatus::Reserved);
    assert_eq!(world.db.seats[&42].booking_id, Some(1));
    assert_eq!(world.locks.get(&42), Some(&1));
    assert!(!world.caches.contains(&7));
}

#[test]
fn select_seat_rejects_ids_that_are_not_positive() {
    let mut world = world_with_seats(&[(42, 7, 1000)]);
    for (booking_id, seat_id) in [(0, 42), (1, 0), (-3, -4)] {
        let outcome = drive(SelectSeat::start(1, booking_id, seat_id), &mut world, "");
        assert_eq!(outcome, rejected(400, Message::IdsNotPositive));
    }
    assert!(world.log.is_empty());
}

#[test]
fn select_seat_needs_a_booking_of_the_user() {
    let mut world = world_with_seats(&[(42, 7, 1000)]);
    drive(CreateBooking::start(1, 7), &mut world, "");
    let outcome = drive(SelectSeat::start(2, 1, 42), &mut world, "");
    assert_eq!(outcome, rejected(419, Message::BookingNotFound));
    assert!(world.locks.is_empty());
    assert_eq!(world.db.seats[&42].status, SeatStatus::Free);
}

#[test]
fn select_seat_gives_the_lock_back_when_the_store_says_no() {
    let mut world = world_with_seats(&[(42, 7, 1000)]);
    drive(CreateBooking::start(1, 7), &mut world, "");
    world.db.seats.get_mut(&42).unwrap().status = SeatStatus::Sold;
    world.db.seats.get_mut(&42).unwrap().booking_id = Some(9);
    let outcome = drive(SelectSeat::start(1, 1, 42), &mut world, "");
    assert_eq!(outcome, rejected(419, Message::SeatNotAdded));
    assert_eq!(Message::SeatNotAdded.text(), "Не удалось добавить место в бронь");
    assert!(world.locks.is_empty());
    assert_eq!(world.log.last(), Some(&Command::UnlockSeat { seat_id: 42 }));
    assert_eq!(world.db.seats[&42].status, SeatStatus::Sold);
}

#[test]
fn select_seat_succeeds_without_an_event_to_invalidate() {
    let mut world = world_with_seats(&[(42, 7, 1000)]);
    drive(CreateBooking::start(1, 7), &mut world, "");
    world.failing.push(Command::SeatEvent { seat_id: 42 });
    let outcome = drive(SelectSeat::start(1, 1, 42), &mut world, "");
    assert_eq!(outcome, Outcome::Done(Message::SeatAdded));
    assert_eq!(world.db.seats[&42].status, SeatStatus::Reserved);
}

#[test]
fn concurrent_contention_has_one_winner() {
    let mut world = world_with_seats(&[(100, 7, 1000)]);
    drive(CreateBooking::start(1, 7), &mut world, "");
    drive(CreateBooking::start(2, 7), &mut world, "");
    let mut first = SelectSeat::start(1, 1, 100);
    let mut second = SelectSeat::start(2, 2, 100);
    // Both pass the ownership check before either reaches for the lock.
    for contender in [&mut first, &mut second] {
        let reply = world.apply("", contender.1);
        *contender = contender.0.next(reply);
    }
    // The second user reaches the key store first.
    let reply = world.apply("", second.1);
    second = second.0.next(reply);
    let loser = drive(first, &mut world, "");
    let winner = drive(second, &mut world, "");
    assert_eq!(winner, Outcome::Done(Message::SeatAdded));
    assert_eq!(winner.http_status(), 200);
    assert_eq!(loser, rejected(419, Message::SeatAlreadyReserved));
    assert_eq!(loser.http_status(), 419);
    assert_eq!(Message::SeatAlreadyReserved.text(), "Место уже зарезервировано");
    assert_eq!(world.db.seats[&100].status, SeatStatus::Reserved);
    assert_eq!(world.db.seats[&100].booking_id, Some(2));
    assert_eq!(world.locks.get(&100), Some(&2));
    assert_eq!(world.locks.len(), 1);
}

#[test]
fn every_interleaving_of_three_contenders_has_one_winner() {
    // Each contender needs five moves at most; schedules are numbers in base 3.
    for code in 0..3u32.pow(9) {
        let mut world = world_with_seats(&[(100, 7, 1000)]);
        let mut contenders = Vec::new();
        for user in 1..=3 {
            drive(CreateBooking::start(user, 7), &mut world, "");
            contenders.push(SelectSeat::start(user, user as i64, 100));
        }
        let mut rest = code;
        for _ in 0..9 {
            let who = (rest % 3) as usize;
            rest /= 3;
            if let Command::Finish(_) = contenders[who].1 {
                continue;
            }
            let reply = world.apply("", contenders[who].1);
            contenders[who] = contenders[who].0.next(reply);
            let winners = contenders
                .iter()
                .filter(|c| c.1 == Command::Finish(Outcome::Done(Message::SeatAdded)))
                .count();
            assert!(winners <= 1);
        }
        let outcomes: Vec<Outcome> =
            contenders.into_iter().map(|c| drive(c, &mut world, "")).collect();
        let winners: Vec<usize> = (0..3).filter(|i| outcomes[*i].is_success()).collect();
        assert_eq!(winners.len(), 1, "schedule {}", code);
        let winner = winners[0] as i64 + 1;
        for (i, outcome) in outcomes.iter().enumerate() {
            if i as i64 + 1 != winner {
                assert_eq!(outcome.http_status(), 419);
            }
        }
        assert_eq!(world.db.seats[&100].status, SeatStatus::Reserved);
        assert_eq!(world.db.seats[&100].booking_id, Some(winner));
        assert_eq!(world.locks.get(&100), Some(&winner));
        assert_eq!(world.locks.len(), 1);
    }
}

#[test]
fn release_seat_frees_unlocks_and_invalidates() {
    let mut world = world_with_seats(&[(42, 7, 1000)]);
    drive(CreateBooking::start(1, 7), &mut world, "");
    drive(SelectSeat::start(1, 1, 42), &mut world, "");
    world.caches.insert(7);
    world.log.clear();
    let outcome = drive(ReleaseSeat::start(1, 42), &mut world, "");
    assert_eq!(outcome, Outcome::Done(Message::SeatReleased));
    assert_eq!(
        world.log,
        vec![
            Command::SeatHeldBy { seat_id: 42, user_id: 1 },
            Command::FreeSeat { seat_id: 42 },
            Command::UnlockSeat { seat_id: 42 },
            Command::SeatEvent { seat_id: 42 },
            Command::InvalidateSeats { event_id: 7 },
        ]
    );
    assert_eq!(world.db.seats[&42], free_seat(7, 1000));
    assert!(world.locks.is_empty());
    assert!(world.caches.is_empty());
}

#[test]
fn release_seat_refuses_what_the_user_does_not_hold() {
    let mut world = world_with_seats(&[(42, 7, 1000)]);
    drive(CreateBooking::start(1, 7), &mut world, "");
    drive(SelectSeat::start(1, 1, 42), &mut world, "");
    assert_eq!(drive(ReleaseSeat::start(2, 42), &mut world, ""), rejected(403, Message::SeatNotYours));
    assert_eq!(drive(ReleaseSeat::start(1, 43), &mut world, ""), rejected(403, Message::SeatNotYours));
    assert_eq!(
        drive(ReleaseSeat::start(1, 0), &mut world, ""),
        rejected(400, Message::SeatIdNotPositive)
    );
    assert_eq!(world.db.seats[&42].status, SeatStatus::Reserved);
    assert_eq!(world.locks.get(&42), Some(&1));
}

#[test]
fn release_seat_reports_a_lost_race() {
    let mut world = world_with_seats(&[(42, 7, 1000)]);
    drive(CreateBooking::start(1, 7), &mut world, "");
    drive(SelectSeat::start(1, 1, 42), &mut world, "");
    world.failing.push(Command::FreeSeat { seat_id: 42 });
    let outcome = drive(ReleaseSeat::start(1, 42), &mut world, "");
    assert_eq!(outcome, rejected(419, Message::SeatNotReleased));
    assert_eq!(world.locks.get(&42), Some(&1));
}

#[test]
fn user_cancels_before_payment() {
    let mut world = world_with_seats(&[(5, 7, 1000), (6, 7, 2000), (8, 7, 3000)]);
    world.caches.insert(7);
    assert_eq!(drive(CreateBooking::start(1, 7), &mut world, ""), Outcome::Created { id: 1 });
    assert_eq!(drive(SelectSeat::start(1, 1, 5), &mut world, ""), Outcome::Done(Message::SeatAdded));
    assert_eq!(drive(SelectSeat::start(1, 1, 6), &mut world, ""), Outcome::Done(Message::SeatAdded));
    world.caches.insert(7);
    world.log.clear();
    let outcome = drive(CancelBooking::start(1, 1), &mut world, "");
    assert_eq!(outcome, Outcome::Done(Message::BookingCancelled));
    assert_eq!(Message::BookingCancelled.text(), "Бронь успешно отменена");
    assert_eq!(
        world.log,
        vec![
            Command::BookingOwned { booking_id: 1, user_id: 1 },
            Command::BookingEvent { booking_id: 1 },
            Command::Begin,
            Command::FreeBookingSeats { booking_id: 1 },
            Command::CancelBooking { booking_id: 1 },
            Command::Commit,
            Command::UnlockReturnedSeats,
            Command::InvalidateSeats { event_id: 7 },
        ]
    );
    assert_eq!(world.db.seats[&5], free_seat(7, 1000));
    assert_eq!(world.db.seats[&6], free_seat(7, 2000));
    assert_eq!(world.db.bookings[&1].status, BookingStatus::Cancelled);
    assert!(world.locks.is_empty());
    assert!(world.caches.is_empty());
    assert_eq!(world.saved, None);
}

#[test]
fn cancel_refuses_a_paid_booking_and_changes_nothing() {
    let mut world = world_awaiting_payment();
    drive(Webhook::start(GatewayStatus::Confirmed), &mut world, "p");
    drive(SelectSeat::start(1, 1, 43), &mut world, "");
    let before = world.holdings();
    let outcome = drive(CancelBooking::start(1, 1), &mut world, "");
    assert_eq!(outcome, rejected(409, Message::BookingAlreadyPaid));
    assert_eq!(world.log.last(), Some(&Command::Rollback));
    assert_eq!(world.holdings(), before);
    assert_eq!(world.db.seats[&42].status, SeatStatus::Sold);
    assert_eq!(world.db.seats[&43].status, SeatStatus::Reserved);
    assert_eq!(world.db.bookings[&1].status, BookingStatus::Paid);
}

#[test]
fn cancel_refuses_strangers_and_bad_ids() {
    let mut world = world_with_seats(&[(5, 7, 1000)]);
    drive(CreateBooking::start(1, 7), &mut world, "");
    drive(SelectSeat::start(1, 1, 5), &mut world, "");
    assert_eq!(
        drive(CancelBooking::start(2, 1), &mut world, ""),
        rejected(403, Message::BookingNotYours)
    );
    assert_eq!(
        drive(CancelBooking::start(1, 0), &mut world, ""),
        rejected(400, Message::BookingIdNotPositive)
    );
    assert_eq!(world.db.seats[&5].status, SeatStatus::Reserved);
    assert_eq!(world.db.bookings[&1].status, BookingStatus::Created);
}

#[test]
fn cancel_rolls_back_when_a_statement_fails() {
    for (failing, message) in [
        (Command::FreeBookingSeats { booking_id: 1 }, Message::SeatsNotFreed),
        (Command::CancelBooking { booking_id: 1 }, Message::BookingNotCancelled),
    ] {
        let mut world = world_with_seats(&[(5, 7, 1000)]);
        drive(CreateBooking::start(1, 7), &mut world, "");
        drive(SelectSeat::start(1, 1, 5), &mut world, "");
        let before = world.holdings();
        world.failing.push(failing);
        let outcome = drive(CancelBooking::start(1, 1), &mut world, "");
        assert_eq!(outcome, rejected(500, message));
        assert_eq!(world.log.last(), Some(&Command::Rollback));
        assert_eq!(world.holdings(), before);
    }
}

#[test]
fn cancel_reports_store_failures_and_changes_nothing() {
    for (failing, message) in [
        (Command::BookingEvent { booking_id: 1 }, Message::StoreError),
        (Command::Begin, Message::TransactionError),
        (Command::Commit, Message::CommitError),
    ] {
        let mut world = world_with_seats(&[(5, 7, 1000)]);
        drive(CreateBooking::start(1, 7), &mut world, "");
        drive(SelectSeat::start(1, 1, 5), &mut world, "");
        let before = world.holdings();
        world.failing.push(failing);
        let outcome = drive(CancelBooking::start(1, 1), &mut world, "");
        assert_eq!(outcome, rejected(500, message));
        assert_eq!(world.locks.get(&5), Some(&1));
        assert_eq!(world.holdings(), before);
        assert_eq!(world.saved, None);
    }
}

#[test]
fn successful_booking() {
    let mut world = world_with_seats(&[(42, 7, 150_000)]);
    world.init = gateway_opens();
    world.caches.insert(7);
    assert_eq!(drive(CreateBooking::start(1, 7), &mut world, ""), Outcome::Created { id: 1 });
    assert_eq!(drive(SelectSeat::start(1, 1, 42), &mut world, ""), Outcome::Done(Message::SeatAdded));
    let started = drive(InitiatePayment::start(1, 1), &mut world, "p");
    assert_eq!(started, Outcome::PaymentStarted { amount_minor: 150_000, seat_count: 1 });
    assert_eq!(started.http_status(), 200);
    assert_eq!(world.db.bookings[&1].status, BookingStatus::PendingPayment);
    assert_eq!(world.db.seats[&42].status, SeatStatus::Reserved);
    assert_eq!(world.db.payments["p"].status, PaymentStatus::Pending);
    assert_eq!(world.db.payments["p"].amount_minor, 150_000);
    world.caches.insert(7);
    let settled = drive(Webhook::start(GatewayStatus::Confirmed), &mut world, "p");
    assert_eq!(settled, Outcome::Settled(Settlement::Completed));
    assert_eq!(settled.http_status(), 200);
    assert_eq!(world.db.bookings[&1].status, BookingStatus::Paid);
    assert_eq!(world.db.seats[&42].status, SeatStatus::Sold);
    assert_eq!(world.db.seats[&42].booking_id, Some(1));
    assert!(!world.locks.contains_key(&42));
    assert_eq!(world.db.payments["p"].status, PaymentStatus::Completed);
    assert!(!world.caches.contains(&7));
}

#[test]
fn initiate_payment_asks_for_the_sum_of_the_reserved_seats() {
    let mut world = world_with_seats(&[(1, 7, 100_050), (2, 7, 50_000), (3, 7, 1)]);
    world.init = gateway_opens();
    drive(CreateBooking::start(1, 7), &mut world, "");
    drive(SelectSeat::start(1, 1, 1), &mut world, "");
    drive(SelectSeat::start(1, 1, 2), &mut world, "");
    world.log.clear();
    let outcome = drive(InitiatePayment::start(1, 1), &mut world, "p");
    assert_eq!(outcome, Outcome::PaymentStarted { amount_minor: 150_050, seat_count: 2 });
    assert_eq!(
        world.log,
        vec![
            Command::BookingSummary { booking_id: 1, user_id: 1 },
            Command::GatewayInit { amount_minor: 150_050, seat_count: 2 },
            Command::Begin,
            Command::RecordPayment { booking_id: 1, amount_minor: 150_050 },
            Command::SetBookingStatus { booking_id: 1, status: BookingStatus::PendingPayment },
            Command::Commit,
        ]
    );
}

#[test]
fn initiate_payment_refuses_before_the_gateway_is_asked() {
    let mut world = world_with_seats(&[(1, 7, 0), (2, 7, 500)]);
    world.init = gateway_opens();
    drive(CreateBooking::start(1, 7), &mut world, "");
    assert_eq!(
        drive(InitiatePayment::start(1, 0), &mut world, "p"),
        rejected(400, Message::PaymentBookingIdNotPositive)
    );
    assert_eq!(
        drive(InitiatePayment::start(1, 1), &mut world, "p"),
        rejected(409, Message::BookingEmpty)
    );
    assert_eq!(
        drive(InitiatePayment::start(2, 1), &mut world, "p"),
        rejected(409, Message::BookingEmpty)
    );
    drive(SelectSeat::start(1, 1, 1), &mut world, "");
    assert_eq!(
        drive(InitiatePayment::start(1, 1), &mut world, "p"),
        rejected(400, Message::InvalidPrice)
    );
    world.failing.push(Command::BookingSummary { booking_id: 1, user_id: 1 });
    assert_eq!(
        drive(InitiatePayment::start(1, 1), &mut world, "p"),
        rejected(500, Message::DatabaseError)
    );
    assert!(!world.log.iter().any(|c| matches!(c, Command::GatewayInit { .. })));
    assert!(world.db.payments.is_empty());
}

#[test]
fn initiate_payment_maps_gateway_refusals() {
    for (code, status) in [
        (Some(1001), 401),
        (Some(1002), 409),
        (Some(1004), 402),
        (Some(1006), 400),
        (Some(3015), 429),
        (Some(1000), 502),
        (Some(0), 502),
        (None, 502),
    ] {
        let mut world = world_with_seats(&[(1, 7, 500)]);
        drive(CreateBooking::start(1, 7), &mut world, "");
        drive(SelectSeat::start(1, 1, 1), &mut world, "");
        world.init = Reply::Init(InitDigest { success: false, code, has_payment_id: true });
        let outcome = drive(InitiatePayment::start(1, 1), &mut world, "p");
        assert_eq!(outcome, Outcome::GatewayRejected { status, code: code.unwrap_or(9999) });
        assert_eq!(outcome.http_status(), status);
        assert!(!outcome.is_success());
        assert!(world.db.payments.is_empty());
        assert_eq!(world.db.bookings[&1].status, BookingStatus::Created);
    }
}

#[test]
fn initiate_payment_reports_gateway_trouble() {
    for (reply, status, message) in [
        (Reply::BreakerOpen, 503, Message::GatewayUnavailable),
        (Reply::Failed, 502, Message::GatewayUnreachable),
        (
            Reply::Init(InitDigest { success: true, code: None, has_payment_id: false }),
            500,
            Message::NoPaymentId,
        ),
    ] {
        let mut world = world_with_seats(&[(1, 7, 500)]);
        drive(CreateBooking::start(1, 7), &mut world, "");
        drive(SelectSeat::start(1, 1, 1), &mut world, "");
        world.init = reply;
        let outcome = drive(InitiatePayment::start(1, 1), &mut world, "p");
        assert_eq!(outcome, rejected(status, message));
        assert!(world.db.payments.is_empty());
        assert_eq!(world.db.seats[&1].status, SeatStatus::Reserved);
    }
}

#[test]
fn initiate_payment_rolls_back_what_it_cannot_finish() {
    for (failing, message, rolled_back) in [
        (Command::Begin, Message::DatabaseError, false),
        (Command::RecordPayment { booking_id: 1, amount_minor: 500 }, Message::TransactionNotSaved, true),
        (
            Command::SetBookingStatus { booking_id: 1, status: BookingStatus::PendingPayment },
            Message::BookingNotUpdated,
            true,
        ),
        (Command::Commit, Message::DatabaseError, true),
    ] {
        let mut world = world_with_seats(&[(1, 7, 500)]);
        world.init = gateway_opens();
        drive(CreateBooking::start(1, 7), &mut world, "");
        drive(SelectSeat::start(1, 1, 1), &mut world, "");
        world.failing.push(failing);
        let outcome = drive(InitiatePayment::start(1, 1), &mut world, "p");
        assert_eq!(outcome, rejected(500, message));
        assert_eq!(world.log.last() == Some(&Command::Rollback), rolled_back);
        if rolled_back {
            assert!(world.db.payments.is_empty());
            assert_eq!(world.db.bookings[&1].status, BookingStatus::Created);
        }
    }
}

#[test]
fn confirmed_webhook_replay_changes_nothing() {
    let mut world = world_awaiting_payment();
    let first = drive(Webhook::start(GatewayStatus::Confirmed), &mut world, "p");
    let after_first = world.holdings();
    let second = drive(Webhook::start(GatewayStatus::Confirmed), &mut world, "p");
    assert_eq!(first, Outcome::Settled(Settlement::Completed));
    assert_eq!(second, first);
    assert_eq!(world.holdings(), after_first);
}

#[test]
fn webhook_settles_in_one_transaction_then_cleans_up() {
    let mut world = world_awaiting_payment();
    drive(Webhook::start(GatewayStatus::Confirmed), &mut world, "p");
    assert_eq!(
        world.log,
        vec![
            Command::FindPaymentBooking,
            Command::Begin,
            Command::MarkPayment { status: PaymentStatus::Completed },
            Command::SetBookingStatus { booking_id: 1, status: BookingStatus::Paid },
            Command::SellBookingSeats { booking_id: 1 },
            Command::Commit,
            Command::UnlockReturnedSeats,
            Command::InvalidateSeats { event_id: 7 },
        ]
    );
}

#[test]
fn webhook_for_a_dead_payment_frees_the_seats() {
    for status in [
        GatewayStatus::Cancelled,
        GatewayStatus::Failed,
        GatewayStatus::Expired,
        GatewayStatus::Refunded,
    ] {
        let mut world = world_awaiting_payment();
        let outcome = drive(Webhook::start(status), &mut world, "p");
        assert_eq!(outcome, Outcome::Settled(Settlement::Failed));
        assert_eq!(world.db.payments["p"].status, PaymentStatus::Failed);
        assert_eq!(world.db.seats[&42], free_seat(7, 150_000));
        assert!(!world.db.bookings.contains_key(&1));
        assert!(world.locks.is_empty());
    }
}

#[test]
fn webhook_without_effect() {
    for (status, settlement) in [
        (GatewayStatus::New, Settlement::NoAction),
        (GatewayStatus::Unknown, Settlement::UnknownStatus),
    ] {
        let mut world = world_awaiting_payment();
        let before = world.holdings();
        let outcome = drive(Webhook::start(status), &mut world, "p");
        assert_eq!(outcome, Outcome::Settled(settlement));
        assert_eq!(outcome.http_status(), 200);
        assert_eq!(world.holdings(), before);
    }
    let mut world = world_awaiting_payment();
    let before = world.holdings();
    let outcome = drive(Webhook::start(GatewayStatus::Confirmed), &mut world, "another");
    assert_eq!(outcome, Outcome::Settled(Settlement::UnknownPayment));
    assert_eq!(world.holdings(), before);
}

#[test]
fn webhook_for_authorized_only_payment() {
    let mut world = world_awaiting_payment();
    world.check = gateway_reports(GatewayStatus::Authorized, true);
    world.confirm = Reply::Confirm(true);
    let outcome = drive(Webhook::start(GatewayStatus::Authorized), &mut world, "p");
    assert_eq!(outcome, Outcome::Settled(Settlement::Completed));
    assert_eq!(
        world.log[..3],
        [Command::FindPaymentBooking, Command::GatewayCheck, Command::GatewayConfirm]
    );
    assert_eq!(world.db.bookings[&1].status, BookingStatus::Paid);
    assert_eq!(world.db.seats[&42].status, SeatStatus::Sold);
    assert_eq!(world.db.payments["p"].status, PaymentStatus::Completed);
    assert!(!world.locks.contains_key(&42));
}

#[test]
fn webhook_for_authorized_payment_waits_when_it_cannot_capture() {
    for (check, confirm, asked_to_confirm) in [
        (Reply::BreakerOpen, Reply::Confirm(true), false),
        (Reply::Failed, Reply::Confirm(true), false),
        (gateway_reports(GatewayStatus::Authorized, false), Reply::Confirm(true), false),
        (gateway_reports(GatewayStatus::Authorized, true), Reply::Confirm(false), true),
        (gateway_reports(GatewayStatus::Authorized, true), Reply::BreakerOpen, true),
        (gateway_reports(GatewayStatus::Authorized, true), Reply::Failed, true),
    ] {
        let mut world = world_awaiting_payment();
        world.check = check;
        world.confirm = confirm;
        let before = world.holdings();
        let outcome = drive(Webhook::start(GatewayStatus::Authorized), &mut world, "p");
        assert_eq!(outcome, Outcome::Settled(Settlement::LeftPending));
        assert_eq!(world.log.contains(&Command::GatewayConfirm), asked_to_confirm);
        assert_eq!(world.holdings(), before);
        assert_eq!(world.db.bookings[&1].status, BookingStatus::PendingPayment);
        assert_eq!(world.db.payments["p"].status, PaymentStatus::Pending);
        // The reaper takes over at its next sweep.
        world.check = gateway_reports(GatewayStatus::Cancelled, false);
        let swept = drive(ExpiredPayment::start(1, 7), &mut world, "p");
        assert_eq!(swept, Outcome::Settled(Settlement::Expired));
    }
}

#[test]
fn settlement_that_does_not_commit_cleans_nothing_up() {
    for failing in [Command::Begin, Command::Commit] {
        let mut world = world_awaiting_payment();
        world.failing.push(failing);
        let outcome = drive(Settle::start(SettleKind::Completed, 1, 7), &mut world, "p");
        assert_eq!(outcome, Outcome::Settled(Settlement::NotCommitted));
        assert_eq!(world.locks.get(&42), Some(&1));
        assert!(!world.log.contains(&Command::UnlockReturnedSeats));
    }
}

#[test]
fn settlement_of_which_a_statement_fails_changes_nothing() {
    let paid = Command::SetBookingStatus { booking_id: 1, status: BookingStatus::Paid };
    let cases = [
        (SettleKind::Completed, Command::MarkPayment { status: PaymentStatus::Completed }),
        (SettleKind::Completed, paid),
        (SettleKind::Completed, Command::SellBookingSeats { booking_id: 1 }),
        (SettleKind::Completed, Command::Commit),
        (SettleKind::Failed, Command::MarkPayment { status: PaymentStatus::Failed }),
        (SettleKind::Failed, Command::FreeBookingSeats { booking_id: 1 }),
        (SettleKind::Failed, Command::DeleteBooking { booking_id: 1 }),
        (SettleKind::Failed, Command::Commit),
        (SettleKind::Expired, Command::MarkPayment { status: PaymentStatus::Expired }),
        (SettleKind::Expired, Command::FreeBookingSeats { booking_id: 1 }),
        (SettleKind::Expired, Command::DeleteBooking { booking_id: 1 }),
        (SettleKind::Expired, Command::Commit),
        (SettleKind::Dropped, Command::FreeBookingSeats { booking_id: 1 }),
        (SettleKind::Dropped, Command::CancelBooking { booking_id: 1 }),
        (SettleKind::Dropped, Command::Commit),
    ];
    for (kind, failing) in cases {
        let mut world = world_awaiting_payment();
        world.caches.insert(7);
        let before = world.holdings();
        world.failing.push(failing);
        let outcome = drive(Settle::start(kind, 1, 7), &mut world, "p");
        assert_eq!(outcome, Outcome::Settled(Settlement::NotCommitted), "{:?} {:?}", kind, failing);
        assert_eq!(world.log.last(), Some(&Command::Rollback));
        assert_eq!(world.log[world.log.len() - 2], failing);
        assert_eq!(world.holdings(), before, "{:?} {:?}", kind, failing);
        assert_eq!(world.saved, None);
        assert!(!world.log.contains(&Command::UnlockReturnedSeats));
        assert!(!world.log.iter().any(|c| matches!(c, Command::InvalidateSeats { .. })));
    }
}

#[test]
fn notification_of_which_a_statement_fails_changes_nothing() {
    let mut world = world_awaiting_payment();
    let before = world.holdings();
    world.failing.push(Command::MarkPayment { status: PaymentStatus::Completed });
    let outcome = drive(Webhook::start(GatewayStatus::Confirmed), &mut world, "p");
    assert_eq!(outcome, Outcome::Settled(Settlement::NotCommitted));
    assert_eq!(world.holdings(), before);
    assert_eq!(world.db.payments["p"].status, PaymentStatus::Pending);
    assert_eq!(world.db.seats[&42].status, SeatStatus::Reserved);
    // Once the store is back, the notification goes through.
    world.failing.clear();
    let outcome = drive(Webhook::start(GatewayStatus::Confirmed), &mut world, "p");
    assert_eq!(outcome, Outcome::Settled(Settlement::Completed));
}

#[test]
fn statement_that_touches_no_row_has_not_failed() {
    // No payment is known under this id: the mark touches no row.
    let mut world = world_awaiting_payment();
    let outcome = drive(Settle::start(SettleKind::Completed, 1, 7), &mut world, "unknown");
    assert_eq!(outcome, Outcome::Settled(Settlement::Completed));
    assert_eq!(world.db.seats[&42].status, SeatStatus::Sold);
}

#[test]
fn payment_expires() {
    let mut world = world_with_seats(&[(8, 7, 5000)]);
    world.init = gateway_opens();
    world.caches.insert(7);
    drive(CreateBooking::start(1, 7), &mut world, "");
    drive(SelectSeat::start(1, 1, 8), &mut world, "");
    drive(InitiatePayment::start(1, 1), &mut world, "p");
    world.caches.insert(7);
    world.check = gateway_reports(GatewayStatus::Cancelled, false);
    world.log.clear();
    let outcome = drive(ExpiredPayment::start(1, 7), &mut world, "p");
    assert_eq!(outcome, Outcome::Settled(Settlement::Expired));
    assert_eq!(
        world.log,
        vec![
            Command::GatewayCheck,
            Command::Begin,
            Command::MarkPayment { status: PaymentStatus::Expired },
            Command::FreeBookingSeats { booking_id: 1 },
            Command::DeleteBooking { booking_id: 1 },
            Command::Commit,
            Command::UnlockReturnedSeats,
            Command::InvalidateSeats { event_id: 7 },
        ]
    );
    assert_eq!(world.db.payments["p"].status, PaymentStatus::Expired);
    assert_eq!(world.db.seats[&8], free_seat(7, 5000));
    assert!(!world.db.bookings.contains_key(&1));
    assert!(world.locks.is_empty());
    assert!(world.caches.is_empty());
}

#[test]
fn reaper_gives_up_on_whatever_did_not_go_through() {
    for check in [
        Reply::BreakerOpen,
        Reply::Failed,
        gateway_reports(GatewayStatus::New, false),
        gateway_reports(GatewayStatus::Unknown, false),
        gateway_reports(GatewayStatus::Refunded, false),
        Reply::Check(CheckDigest { success: true, status: None, confirmable: true }),
        Reply::Check(CheckDigest {
            success: false,
            status: Some(GatewayStatus::Confirmed),
            confirmable: true,
        }),
    ] {
        let mut world = world_awaiting_payment();
        world.check = check;
        let outcome = drive(ExpiredPayment::start(1, 7), &mut world, "p");
        assert_eq!(outcome, Outcome::Settled(Settlement::Expired));
        assert_eq!(world.db.payments["p"].status, PaymentStatus::Expired);
        assert_eq!(world.db.seats[&42].status, SeatStatus::Free);
        assert!(!world.db.bookings.contains_key(&1));
    }
}

#[test]
fn reaper_completes_what_went_through_after_all() {
    for status in [GatewayStatus::Confirmed, GatewayStatus::Authorized] {
        let mut world = world_awaiting_payment();
        world.check = gateway_reports(status, false);
        let outcome = drive(ExpiredPayment::start(1, 7), &mut world, "p");
        assert_eq!(outcome, Outcome::Settled(Settlement::Completed));
        assert_eq!(world.db.payments["p"].status, PaymentStatus::Completed);
        assert_eq!(world.db.seats[&42].status, SeatStatus::Sold);
        assert_eq!(world.db.bookings[&1].status, BookingStatus::Paid);
    }
}

#[test]
fn reaper_drops_stale_and_empty_bookings() {
    let mut world = world_with_seats(&[(5, 7, 1000)]);
    drive(CreateBooking::start(1, 7), &mut world, "");
    drive(CreateBooking::start(1, 7), &mut world, "");
    drive(SelectSeat::start(1, 1, 5), &mut world, "");
    world.log.clear();
    let outcome = drive(Settle::start(SettleKind::Dropped, 1, 7), &mut world, "");
    assert_eq!(outcome, Outcome::Settled(Settlement::Dropped));
    assert_eq!(
        world.log,
        vec![
            Command::Begin,
            Command::FreeBookingSeats { booking_id: 1 },
            Command::CancelBooking { booking_id: 1 },
            Command::Commit,
            Command::UnlockReturnedSeats,
            Command::InvalidateSeats { event_id: 7 },
        ]
    );
    assert_eq!(world.db.seats[&5], free_seat(7, 1000));
    assert!(world.locks.is_empty());
    assert_eq!(world.db.bookings[&1].status, BookingStatus::Cancelled);

    assert_eq!(drive(EmptyBooking::start(2), &mut world, ""), Outcome::Settled(Settlement::Dropped));
    assert!(!world.db.bookings.contains_key(&2));
    assert_eq!(drive(EmptyBooking::start(2), &mut world, ""), Outcome::Settled(Settlement::NoAction));
}

#[test]
fn stale_booking_that_cannot_be_cancelled_is_rolled_back() {
    let mut world = world_with_seats(&[(5, 7, 1000)]);
    drive(CreateBooking::start(1, 7), &mut world, "");
    drive(SelectSeat::start(1, 1, 5), &mut world, "");
    let before = world.holdings();
    world.failing.push(Command::CancelBooking { booking_id: 1 });
    let outcome = drive(Settle::start(SettleKind::Dropped, 1, 7), &mut world, "");
    assert_eq!(outcome, Outcome::Settled(Settlement::NotCommitted));
    assert_eq!(world.log.last(), Some(&Command::Rollback));
    assert_eq!(world.holdings(), before);
}

#[test]
fn payment_status_is_read_from_the_store_and_the_gateway() {
    let mut world = world_awaiting_payment();
    for (check, confirm, shown) in [
        (gateway_reports(GatewayStatus::Confirmed, false), Reply::Failed, PaymentStatus::Completed),
        (gateway_reports(GatewayStatus::Failed, false), Reply::Failed, PaymentStatus::Failed),
        (gateway_reports(GatewayStatus::Cancelled, false), Reply::Failed, PaymentStatus::Failed),
        (gateway_reports(GatewayStatus::Expired, false), Reply::Failed, PaymentStatus::Failed),
        (gateway_reports(GatewayStatus::Refunded, false), Reply::Failed, PaymentStatus::Pending),
        (gateway_reports(GatewayStatus::New, false), Reply::Failed, PaymentStatus::Pending),
        (gateway_reports(GatewayStatus::Authorized, false), Reply::Confirm(true), PaymentStatus::Pending),
        (gateway_reports(GatewayStatus::Authorized, true), Reply::Confirm(true), PaymentStatus::Completed),
        (gateway_reports(GatewayStatus::Authorized, true), Reply::Confirm(false), PaymentStatus::Pending),
        (gateway_reports(GatewayStatus::Authorized, true), Reply::Failed, PaymentStatus::Pending),
        (Reply::BreakerOpen, Reply::Failed, PaymentStatus::Pending),
        (Reply::Failed, Reply::Failed, PaymentStatus::Pending),
        (
            Reply::Check(CheckDigest {
                success: false,
                status: Some(GatewayStatus::Confirmed),
                confirmable: false,
            }),
            Reply::Failed,
            PaymentStatus::Pending,
        ),
    ] {
        world.check = check;
        world.confirm = confirm;
        let before = world.holdings();
        let outcome = drive(PaymentStatusQuery::start(1, 1), &mut world, "p");
        assert_eq!(outcome, Outcome::PaymentState { status: shown });
        assert_eq!(world.holdings(), before);
    }
    world.db.payments.get_mut("p").unwrap().status = PaymentStatus::Expired;
    world.log.clear();
    let outcome = drive(PaymentStatusQuery::start(1, 1), &mut world, "p");
    assert_eq!(outcome, Outcome::PaymentState { status: PaymentStatus::Expired });
    assert_eq!(world.log, vec![Command::LatestPayment { booking_id: 1, user_id: 1 }]);
}

#[test]
fn payment_status_of_a_booking_without_payment_is_not_found() {
    let mut world = world_awaiting_payment();
    drive(CreateBooking::start(1, 7), &mut world, "");
    assert_eq!(
        drive(PaymentStatusQuery::start(1, 2), &mut world, ""),
        rejected(404, Message::PaymentNotFound)
    );
    assert_eq!(
        drive(PaymentStatusQuery::start(2, 1), &mut world, ""),
        rejected(404, Message::PaymentNotFound)
    );
    world.failing.push(Command::LatestPayment { booking_id: 1, user_id: 1 });
    assert_eq!(
        drive(PaymentStatusQuery::start(1, 1), &mut world, ""),
        rejected(500, Message::DatabaseError)
    );
}

#[test]
fn landing_settles_like_a_notification() {
    let mut world = world_awaiting_payment();
    world.check = gateway_reports(GatewayStatus::Confirmed, false);
    let outcome = drive(Landing::start(LandingPage::Success, true), &mut world, "p");
    assert_eq!(outcome, Outcome::Settled(Settlement::Completed));
    assert_eq!(world.db.seats[&42].status, SeatStatus::Sold);
    let after = world.holdings();
    // The notification that arrives afterwards finds nothing left to do.
    drive(Webhook::start(GatewayStatus::Confirmed), &mut world, "p");
    assert_eq!(world.holdings(), after);

    let mut world = world_awaiting_payment();
    world.check = gateway_reports(GatewayStatus::Authorized, true);
    world.confirm = Reply::Confirm(true);
    let outcome = drive(Landing::start(LandingPage::Success, true), &mut world, "p");
    assert_eq!(outcome, Outcome::Settled(Settlement::Completed));
    assert_eq!(world.db.bookings[&1].status, BookingStatus::Paid);
}

#[test]
fn failure_landing_settles_like_a_notification() {
    for status in [
        GatewayStatus::Cancelled,
        GatewayStatus::Failed,
        GatewayStatus::Expired,
        GatewayStatus::Refunded,
    ] {
        let mut world = world_awaiting_payment();
        world.check = gateway_reports(status, false);
        let outcome = drive(Landing::start(LandingPage::Failure, true), &mut world, "p");
        assert_eq!(outcome, Outcome::Settled(Settlement::Failed));
        assert_eq!(world.db.payments["p"].status, PaymentStatus::Failed);
        assert_eq!(world.db.seats[&42], free_seat(7, 150_000));
        assert!(!world.db.bookings.contains_key(&1));
        assert!(world.locks.is_empty());
        let after = world.holdings();
        // The notification that arrives afterwards finds nothing left to do.
        drive(Webhook::start(status), &mut world, "p");
        assert_eq!(world.holdings(), after);
    }
}

#[test]
fn landing_does_not_trust_its_caller() {
    // The payer arrives at the failure page, but the payment went through,
    // or at the success page, but it did not: nothing is settled.
    for (page, status) in [
        (LandingPage::Failure, GatewayStatus::Confirmed),
        (LandingPage::Failure, GatewayStatus::Authorized),
        (LandingPage::Failure, GatewayStatus::New),
        (LandingPage::Failure, GatewayStatus::Unknown),
        (LandingPage::Success, GatewayStatus::Cancelled),
        (LandingPage::Success, GatewayStatus::Refunded),
        (LandingPage::Success, GatewayStatus::New),
    ] {
        let mut world = world_awaiting_payment();
        world.check = gateway_reports(status, true);
        let before = world.holdings();
        let outcome = drive(Landing::start(page, true), &mut world, "p");
        assert_eq!(outcome, Outcome::Settled(Settlement::NoAction));
        assert_eq!(world.log, vec![Command::GatewayCheck]);
        assert_eq!(world.holdings(), before);
    }
    for page in [LandingPage::Success, LandingPage::Failure] {
        for status in [GatewayStatus::Confirmed, GatewayStatus::Cancelled] {
            let mut world = world_awaiting_payment();
            world.check =
                Reply::Check(CheckDigest { success: false, status: Some(status), confirmable: true });
            let before = world.holdings();
            let outcome = drive(Landing::start(page, true), &mut world, "p");
            assert_eq!(outcome, Outcome::Settled(Settlement::NoAction));
            assert_eq!(world.holdings(), before);
        }
    }
}

#[test]
fn landing_without_a_confirmed_payment_does_nothing() {
    for check in [
        gateway_reports(GatewayStatus::Cancelled, false),
        gateway_reports(GatewayStatus::New, false),
        Reply::BreakerOpen,
        Reply::Failed,
    ] {
        let mut world = world_awaiting_payment();
        world.check = check;
        let before = world.holdings();
        let outcome = drive(Landing::start(LandingPage::Success, true), &mut world, "p");
        assert_eq!(outcome, Outcome::Settled(Settlement::NoAction));
        assert_eq!(world.holdings(), before);
    }
    for page in [LandingPage::Success, LandingPage::Failure] {
        let mut world = world_awaiting_payment();
        assert_eq!(
            drive(Landing::start(page, false), &mut world, ""),
            Outcome::Settled(Settlement::NoAction)
        );
        assert!(world.log.is_empty());
    }
}

#[test]
fn reset_leaves_a_clean_slate() {
    let mut world = world_with_seats(&[(1, 7, 100), (2, 7, 100), (3, 8, 100), (4, 9, 100)]);
    world.init = gateway_opens();
    drive(CreateBooking::start(1, 7), &mut world, "");
    drive(CreateBooking::start(2, 8), &mut world, "");
    drive(CreateBooking::start(3, 8), &mut world, "");
    drive(SelectSeat::start(1, 1, 1), &mut world, "");
    drive(SelectSeat::start(1, 1, 2), &mut world, "");
    drive(SelectSeat::start(2, 2, 3), &mut world, "");
    drive(InitiatePayment::start(1, 1), &mut world, "p");
    drive(Webhook::start(GatewayStatus::Confirmed), &mut world, "p");
    drive(SelectSeat::start(3, 3, 4), &mut world, "");
    world.caches = [7, 8, 9, 10].into_iter().collect();
    world.log.clear();
    let outcome = drive(Reset::start(), &mut world, "");
    assert_eq!(
        outcome,
        Outcome::Reset(ResetReport {
            seats_reset: 4,
            bookings_deleted: 3,
            payments_deleted: 1,
            locks_cleared: 2,
            caches_cleared: 2,
            events_invalidated: 2,
        })
    );
    assert_eq!(
        world.log,
        vec![
            Command::Begin,
            Command::ListBookingEvents,
            Command::ResetSeats,
            Command::DeleteAllPayments,
            Command::DeleteAllBookings,
            Command::RestartBookingIds,
            Command::Commit,
            Command::PurgeLocks,
            Command::InvalidateListedEvents,
            Command::PurgeSeatCaches,
        ]
    );
    // Every seat is free, the sold ones too.
    assert_eq!(world.db.seats[&1], free_seat(7, 100));
    assert_eq!(world.db.seats[&2], free_seat(7, 100));
    assert_eq!(world.db.seats[&3], free_seat(8, 100));
    assert_eq!(world.db.seats[&4], free_seat(9, 100));
    assert_eq!(world.db.seats.len(), 4);
    assert!(world.db.bookings.is_empty());
    assert!(world.db.payments.is_empty());
    assert!(world.locks.is_empty());
    assert!(world.caches.is_empty());
    assert_eq!(drive(CreateBooking::start(1, 7), &mut world, ""), Outcome::Created { id: 1 });
}

#[test]
fn reset_rolls_back_when_a_statement_fails() {
    for (failing, message, rolled_back) in [
        (Command::Begin, Message::ResetBeginError, false),
        (Command::ListBookingEvents, Message::ResetEventsError, true),
        (Command::RestartBookingIds, Message::ResetSequenceError, true),
        (Command::ResetSeats, Message::ResetSeatsError, true),
        (Command::DeleteAllPayments, Message::ResetPaymentsError, true),
        (Command::DeleteAllBookings, Message::ResetBookingsError, true),
        (Command::Commit, Message::ResetCommitError, true),
    ] {
        let mut world = world_awaiting_payment();
        let before = world.holdings();
        world.failing.push(failing);
        let outcome = drive(Reset::start(), &mut world, "");
        assert_eq!(outcome, rejected(500, message));
        assert_eq!(world.log.last() == Some(&Command::Rollback), rolled_back);
        if rolled_back || failing == Command::Begin {
            assert_eq!(world.holdings(), before);
        }
        assert!(!world.log.contains(&Command::PurgeLocks));
        assert_eq!(world.saved, None);
    }
    assert_eq!(Message::ResetEventsError.text(), "Ошибка чтения событий");
    assert_eq!(Message::ResetSequenceError.text(), "Ошибка сброса счетчика бронирований");
    assert_eq!(Message::ResetSeatsError.text(), "Ошибка сброса мест");
}

#[test]
fn reset_passes_over_what_may_fail() {
    let mut world = world_awaiting_payment();
    world.caches.insert(7);
    // After the commit the key store is cleaned as far as it can be.
    world.failing =
        vec![Command::PurgeLocks, Command::InvalidateListedEvents, Command::PurgeSeatCaches];
    let outcome = drive(Reset::start(), &mut world, "");
    assert_eq!(
        outcome,
        Outcome::Reset(ResetReport {
            seats_reset: 1,
            bookings_deleted: 1,
            payments_deleted: 1,
            locks_cleared: 0,
            caches_cleared: 0,
            events_invalidated: 1,
        })
    );
    assert!(world.db.bookings.is_empty());
}

#[test]
fn seats_only_move_along_the_edges_of_their_life_cycle() {
    let mut world = world_with_seats(&[(1, 7, 100), (2, 7, 100), (3, 7, 100)]);
    world.init = gateway_opens();
    let mut seen: Vec<(SeatStatus, SeatStatus)> = Vec::new();
    let mut steps: Vec<Box<dyn FnMut(&mut World)>> = vec![
        Box::new(|w| {
            drive(CreateBooking::start(1, 7), w, "");
        }),
        Box::new(|w| {
            drive(SelectSeat::start(1, 1, 1), w, "");
        }),
        Box::new(|w| {
            drive(SelectSeat::start(1, 1, 2), w, "");
        }),
        Box::new(|w| {
            drive(ReleaseSeat::start(1, 2), w, "");
        }),
        Box::new(|w| {
            drive(InitiatePayment::start(1, 1), w, "p");
        }),
        Box::new(|w| {
            drive(Webhook::start(GatewayStatus::Confirmed), w, "p");
        }),
        Box::new(|w| {
            drive(SelectSeat::start(1, 1, 3), w, "");
        }),
        Box::new(|w| {
            drive(CancelBooking::start(1, 1), w, "");
        }),
        Box::new(|w| {
            drive(Webhook::start(GatewayStatus::Refunded), w, "p");
        }),
    ];
    for step in steps.iter_mut() {
        let before = world.db.seats.clone();
        step(&mut world);
        for (id, seat) in &world.db.seats {
            let moved = (before[id].status, seat.status);
            if moved.0 != moved.1 && !seen.contains(&moved) {
                seen.push(moved);
            }
        }
    }
    let allowed = [
        (SeatStatus::Free, SeatStatus::Reserved),
        (SeatStatus::Reserved, SeatStatus::Free),
        (SeatStatus::Reserved, SeatStatus::Sold),
    ];
    assert_eq!(seen.len(), 3);
    for moved in &seen {
        assert!(allowed.contains(moved));
    }
    assert_eq!(world.db.seats[&1].status, SeatStatus::Sold);
    // Only the admin reset takes a seat out of sold.
    drive(Reset::start(), &mut world, "");
    assert_eq!(world.db.seats[&1], free_seat(7, 100));
}

#[test]
fn sold_seats_name_a_paid_booking() {
    let mut world = world_with_seats(&[(1, 7, 100), (2, 7, 100)]);
    world.init = gateway_opens();
    drive(CreateBooking::start(1, 7), &mut world, "");
    drive(SelectSeat::start(1, 1, 1), &mut world, "");
    drive(SelectSeat::start(1, 1, 2), &mut world, "");
    drive(InitiatePayment::start(1, 1), &mut world, "p");
    drive(Webhook::start(GatewayStatus::Confirmed), &mut world, "p");
    drive(CancelBooking::start(1, 1), &mut world, "");
    drive(ReleaseSeat::start(1, 1), &mut world, "");
    for seat in world.db.seats.values() {
        assert_eq!(seat.status, SeatStatus::Sold);
        let booking = &world.db.bookings[&seat.booking_id.unwrap()];
        assert_eq!(booking.status, BookingStatus::Paid);
    }
}

#[test]
fn machines_repeat_their_outcome_once_finished() {
    let (machine, command) = CreateBooking::start(1, 0);
    let outcome = rejected(400, Message::EventIdNotPositive);
    assert_eq!(command, Command::Finish(outcome));
    for reply in [Reply::Done, Reply::Failed, Reply::Id(5), Reply::Rows(1)] {
        assert_eq!(machine.next(reply), (machine, Command::Finish(outcome)));
    }
    let (machine, _) = Reset::start();
    let (machine, command) = machine.next(Reply::Failed);
    assert_eq!(command, Command::Finish(rejected(500, Message::ResetBeginError)));
    assert_eq!(machine.next(Reply::Done), (machine, command));
}

#[test]
fn no_double_sale_when_calls_fail_and_locks_run_out() {
    // Two contenders; each move performs a command, fails a command or lets
    // the lock of the seat run out. Schedules are numbers in base 5.
    for code in 0..5u32.pow(8) {
        let mut world = world_with_seats(&[(100, 7, 1000)]);
        drive(CreateBooking::start(1, 7), &mut world, "");
        drive(CreateBooking::start(2, 7), &mut world, "");
        let mut contenders = vec![SelectSeat::start(1, 1, 100), SelectSeat::start(2, 2, 100)];
        let mut rest = code;
        for _ in 0..8 {
            let what = rest % 5;
            rest /= 5;
            if what == 4 {
                world.locks.remove(&100);
                continue;
            }
            let who = (what % 2) as usize;
            if let Command::Finish(_) = contenders[who].1 {
                continue;
            }
            let reply = if what < 2 { world.apply("", contenders[who].1) } else { Reply::Failed };
            contenders[who] = contenders[who].0.next(reply);
            let winners: Vec<usize> = (0..2)
                .filter(|i| contenders[*i].1 == Command::Finish(Outcome::Done(Message::SeatAdded)))
                .collect();
            assert!(winners.len() <= 1, "schedule {}", code);
            for winner in winners {
                assert_eq!(world.db.seats[&100].status, SeatStatus::Reserved);
                assert_eq!(world.db.seats[&100].booking_id, Some(winner as i64 + 1));
            }
        }
    }
}
