//! Laws of the engine, stated over the reference model of the outside world
//! and proved.

use vstd::prelude::*;
use crate::bookings::{CancelBooking, CancelStage, CreateBooking};
use crate::cleanup::{lemma_expired_settling, went_through, EmptyBooking, ExpiredPayment};
use crate::machine::{
    answer, begins_well, lemma_run_step, patience, run, GatewayScript, Machine,
};
use crate::payments::{InitiatePayment, InitiateStage, PaymentStatusQuery};
use crate::protocol::{Command, InitDigest, Message, Outcome, Reply, ResetReport, Settlement};
use crate::reset::{Reset, ResetStage};
use crate::seats::{ReleaseSeat, SelectSeat, SelectStage};
use crate::settle::{lemma_settle_run, settled, Settle, SettleKind, SettleStage};
use crate::status::{BookingStatus, GatewayStatus, PaymentStatus, SeatStatus};
use crate::webhook::{lemma_webhook_settling, Landing, LandingPage, Webhook};
use crate::world::{seats_move_along_edges, BookingRow, Db, PaymentRow, World};

verus! {

/// No statement of any operation but the admin reset takes a seat anywhere
/// but along an edge of its life cycle: from free to reserved, from
/// reserved to free, from reserved to sold. A sold seat stays sold. (The
/// admin reset frees every seat, sold ones too; `Rollback` is no
/// statement: it restores the seats as they were when the transaction
/// began.)
pub proof fn lemma_seats_move_along_edges(world: World, payment: Seq<char>, command: Command)
    requires
        command != Command::Rollback,
        command != Command::ResetSeats,
    ensures
        seats_move_along_edges(world, world.apply(payment, command).0),
{
}

/// What a statement must respect for sold seats to stay with a paid
/// booking: a booking that has a sold seat is neither deleted nor given
/// another status than paid, seats are sold only on a paid booking, and a
/// new booking does not take the id of one that exists.
pub open spec fn respects_sold_seats(world: World, command: Command) -> bool {
    match command {
        Command::Rollback => false,
        Command::InsertBooking { .. } => !world.db.bookings.contains_key(world.db.next_booking_id),
        Command::SellBookingSeats { booking_id } => (forall|s: i64|
            !world.db.reserved_on(booking_id).contains(s)) || (world.db.bookings.contains_key(booking_id)
            && world.db.bookings[booking_id].status == BookingStatus::Paid),
        Command::SetBookingStatus { booking_id, status } => status == BookingStatus::Paid
            || !world.db.has_sold_seat(booking_id),
        Command::DeleteBooking { booking_id } => !world.db.has_sold_seat(booking_id),
        Command::DeleteCreatedBooking { booking_id } => !world.db.has_sold_seat(booking_id),
        Command::DeleteAllBookings => forall|s: i64| #[trigger]
            world.db.seats.contains_key(s) ==> world.db.seats[s].status != SeatStatus::Sold,
        _ => true,
    }
}

/// Where every sold seat names a paid booking, it still does after any
/// statement that respects sold seats.
pub proof fn lemma_sold_seats_stay_paid(world: World, payment: Seq<char>, command: Command)
    requires
        world.db.sold_seats_are_paid(),
        respects_sold_seats(world, command),
    ensures
        world.apply(payment, command).0.db.sold_seats_are_paid(),
{
    let after = world.apply(payment, command).0;
    assert forall|s: i64| #[trigger]
        after.db.seats.contains_key(s) && after.db.seats[s].status == SeatStatus::Sold implies {
        &&& after.db.seats[s].booking_id is Some
        &&& after.db.bookings.contains_key(after.db.seats[s].booking_id->0)
        &&& after.db.bookings[after.db.seats[s].booking_id->0].status == BookingStatus::Paid
    } by {
        assert(world.db.seats.contains_key(s));
    }
}

/// The commands that keep any consistent world consistent: all but those
/// that reserve or sell seats, give a booking a status of any kind, or
/// insert or delete bookings.
pub open spec fn gentle(command: Command) -> bool {
    match command {
        Command::InsertBooking { .. } => false,
        Command::ReserveSeat { .. } => false,
        Command::SellBookingSeats { .. } => false,
        Command::SetBookingStatus { .. } => false,
        Command::DeleteBooking { .. } => false,
        Command::DeleteCreatedBooking { .. } => false,
        Command::DeleteAllBookings => false,
        _ => true,
    }
}

proof fn lemma_consistent_by_seats(before: Db, after: Db)
    requires
        before.consistent(),
        forall|s: i64| #[trigger]
            after.seats.contains_key(s) ==> before.seats.contains_key(s) && (after.seats[s]
                == before.seats[s] || (after.seats[s].status == SeatStatus::Free
                && after.seats[s].booking_id is None)),
        forall|b: i64| #[trigger]
            before.bookings.contains_key(b) ==> after.bookings.contains_key(b) && (
            before.bookings[b].status == BookingStatus::Paid ==> after.bookings[b].status
                == BookingStatus::Paid),
    ensures
        after.consistent(),
{
    assert forall|s: i64| #[trigger] after.seats.contains_key(s) implies (if after.seats[s].status
        == SeatStatus::Free {
        after.seats[s].booking_id is None
    } else {
        after.seats[s].booking_id is Some && after.bookings.contains_key(after.seats[s].booking_id->0)
    }) by {
        assert(before.seats.contains_key(s));
        if after.seats[s].status != SeatStatus::Free {
            assert(before.bookings.contains_key(before.seats[s].booking_id->0));
        }
    }
    assert forall|s: i64| #[trigger]
        after.seats.contains_key(s) && after.seats[s].status == SeatStatus::Sold implies {
        &&& after.seats[s].booking_id is Some
        &&& after.bookings.contains_key(after.seats[s].booking_id->0)
        &&& after.bookings[after.seats[s].booking_id->0].status == BookingStatus::Paid
    } by {
        assert(before.seats.contains_key(s));
        assert(before.bookings.contains_key(before.seats[s].booking_id->0));
    }
}

/// A gentle command keeps a consistent world consistent.
pub proof fn lemma_gentle_command(world: World, payment: Seq<char>, command: Command)
    requires
        world.consistent(),
        gentle(command),
    ensures
        world.apply(payment, command).0.consistent(),
{
    if !(command is Rollback) {
        lemma_consistent_by_seats(world.db, world.apply(payment, command).0.db);
    }
}

/// A machine that hands out gentle commands only keeps a consistent world
/// consistent, however long it runs.
pub proof fn lemma_gentle_run<M: Machine>(
    machine: M,
    command: Command,
    world: World,
    payment: Seq<char>,
    gateway: GatewayScript,
    fuel: nat,
)
    requires
        world.consistent(),
        gentle(command),
        forall|m: M, reply: Reply| gentle(#[trigger] m.spec_next(reply).1),
    ensures
        run(machine, command, world, payment, gateway, fuel).0.consistent(),
    decreases fuel,
{
    if !(command is Finish) && fuel > 0 {
        let (after, reply) = answer(world, payment, gateway, command);
        if !(command is GatewayInit || command is GatewayCheck || command is GatewayConfirm) {
            lemma_gentle_command(world, payment, command);
        }
        let next = machine.spec_next(reply);
        lemma_gentle_run(next.0, next.1, after, payment, gateway, (fuel - 1) as nat);
    }
}

/// Selecting a seat keeps a consistent world consistent, whatever it is
/// asked for and however it ends: the seat is reserved only for a booking
/// that was found to exist.
pub proof fn lemma_select_keeps_consistent(
    world: World,
    payment: Seq<char>,
    gateway: GatewayScript,
    user_id: i32,
    booking_id: i64,
    seat_id: i64,
)
    requires
        world.consistent(),
    ensures
        ({
            let start = SelectSeat::spec_start(user_id, booking_id, seat_id);
            run(start.0, start.1, world, payment, gateway, patience()).0.consistent()
        }),
{
    let start = SelectSeat::spec_start(user_id, booking_id, seat_id);
    let m = start.0;
    if !(start.1 is Finish) {
        let c1 = Command::LockSeat { seat_id, user_id: user_id as i64 };
        let c2 = Command::ReserveSeat { seat_id, booking_id };
        lemma_run_step(m, start.1, world, payment, gateway, patience());
        if world.db.owns(user_id as i64, booking_id) {
            lemma_run_step(m.at(SelectStage::AwaitLock), c1, world, payment, gateway, 15);
            let w1 = world.apply(payment, c1).0;
            lemma_gentle_command(world, payment, c1);
            if !world.locks.contains_key(seat_id) {
                lemma_run_step(m.at(SelectStage::AwaitReserve), c2, w1, payment, gateway, 14);
                let (w2, reserved) = w1.apply(payment, c2);
                assert(w2.consistent()) by {
                    assert forall|s: i64| #[trigger] w2.db.seats.contains_key(s) implies (
                    if w2.db.seats[s].status == SeatStatus::Free {
                        w2.db.seats[s].booking_id is None
                    } else {
                        w2.db.seats[s].booking_id is Some && w2.db.bookings.contains_key(
                            w2.db.seats[s].booking_id->0,
                        )
                    }) by {
                        assert(w1.db.seats.contains_key(s));
                    }
                    assert forall|s: i64| #[trigger]
                        w2.db.seats.contains_key(s) && w2.db.seats[s].status
                            == SeatStatus::Sold implies {
                        &&& w2.db.seats[s].booking_id is Some
                        &&& w2.db.bookings.contains_key(w2.db.seats[s].booking_id->0)
                        &&& w2.db.bookings[w2.db.seats[s].booking_id->0].status == BookingStatus::Paid
                    } by {
                        assert(w1.db.seats.contains_key(s));
                    }
                }
                let next = m.at(SelectStage::AwaitReserve).spec_next(reserved);
                // What follows the update is gentle: the event is looked up and
                // its cached seat list deleted, or the lock is given back.
                lemma_run_step(next.0, next.1, w2, payment, gateway, 13);
                lemma_gentle_command(w2, payment, next.1);
                let (w3, reply) = w2.apply(payment, next.1);
                let last = next.0.spec_next(reply);
                if !(last.1 is Finish) {
                    lemma_run_step(last.0, last.1, w3, payment, gateway, 12);
                    lemma_gentle_command(w3, payment, last.1);
                }
            }
        }
    }
}

/// Releasing a seat, cancelling a booking and asking for the state of a
/// payment keep a consistent world consistent, whatever they are asked for
/// and however they end.
pub proof fn lemma_operations_keep_consistent(
    world: World,
    payment: Seq<char>,
    gateway: GatewayScript,
    user_id: i32,
    booking_id: i64,
    seat_id: i64,
)
    requires
        world.consistent(),
    ensures
        ({
            let start = ReleaseSeat::spec_start(user_id, seat_id);
            run(start.0, start.1, world, payment, gateway, patience()).0.consistent()
        }),
        ({
            let start = CancelBooking::spec_start(user_id, booking_id);
            run(start.0, start.1, world, payment, gateway, patience()).0.consistent()
        }),
        ({
            let start = PaymentStatusQuery::spec_start(user_id, booking_id);
            run(start.0, start.1, world, payment, gateway, patience()).0.consistent()
        }),
{
    let release = ReleaseSeat::spec_start(user_id, seat_id);
    lemma_gentle_run(release.0, release.1, world, payment, gateway, patience());
    let cancel = CancelBooking::spec_start(user_id, booking_id);
    lemma_gentle_run(cancel.0, cancel.1, world, payment, gateway, patience());
    let query = PaymentStatusQuery::spec_start(user_id, booking_id);
    lemma_gentle_run(query.0, query.1, world, payment, gateway, patience());
}

/// Settling a successful payment and dropping a stale booking keep a
/// consistent store consistent. A successful payment sells every seat that
/// was reserved on the booking, and a sold seat is sold to a paid booking:
/// this is the one operation that sells seats.
pub proof fn lemma_settlements_keep_consistent(
    world: World,
    payment: Seq<char>,
    booking_id: i64,
    event_id: i64,
)
    requires
        world.db.consistent(),
    ensures
        settled(world, payment, SettleKind::Completed, booking_id, event_id).db.consistent(),
        settled(world, payment, SettleKind::Dropped, booking_id, event_id).db.consistent(),
        forall|s: i64| #[trigger]
            world.db.reserved_on(booking_id).contains(s) ==> settled(
                world,
                payment,
                SettleKind::Completed,
                booking_id,
                event_id,
            ).db.seats[s].status == SeatStatus::Sold,
{
    let sold = settled(world, payment, SettleKind::Completed, booking_id, event_id).db;
    assert forall|s: i64| #[trigger] sold.seats.contains_key(s) implies (if sold.seats[s].status
        == SeatStatus::Free {
        sold.seats[s].booking_id is None
    } else {
        sold.seats[s].booking_id is Some && sold.bookings.contains_key(sold.seats[s].booking_id->0)
    }) by {
        assert(world.db.seats.contains_key(s));
    }
    assert forall|s: i64| #[trigger]
        sold.seats.contains_key(s) && sold.seats[s].status == SeatStatus::Sold implies {
        &&& sold.seats[s].booking_id is Some
        &&& sold.bookings.contains_key(sold.seats[s].booking_id->0)
        &&& sold.bookings[sold.seats[s].booking_id->0].status == BookingStatus::Paid
    } by {
        assert(world.db.seats.contains_key(s));
    }
    lemma_consistent_by_seats(
        world.db,
        settled(world, payment, SettleKind::Dropped, booking_id, event_id).db,
    );
}

/// A booking that was cancelled has no seats: after a cancellation that
/// succeeded in a consistent world, no seat names the booking.
pub proof fn lemma_cancelled_booking_has_no_seats(
    world: World,
    payment: Seq<char>,
    gateway: GatewayScript,
    user_id: i32,
    booking_id: i64,
)
    requires
        world.db.consistent(),
    ensures
        ({
            let start = CancelBooking::spec_start(user_id, booking_id);
            let end = run(start.0, start.1, world, payment, gateway, patience());
            end.1 == Some(Outcome::Done(Message::BookingCancelled)) ==> {
                &&& !end.0.db.has_seat_of(booking_id)
                &&& end.0.db.bookings.contains_key(booking_id)
                &&& end.0.db.bookings[booking_id].status == BookingStatus::Cancelled
            }
        }),
{
    let start = CancelBooking::spec_start(user_id, booking_id);
    let end = run(start.0, start.1, world, payment, gateway, patience());
    let u = user_id as i64;
    let k = start.0;
    if booking_id > 0 && world.db.owns(u, booking_id) {
        let event_id = world.db.bookings[booking_id].event_id;
        let k1 = CancelBooking { stage: CancelStage::AwaitBegin, event_id, ..k };
        let d0 = Command::BookingOwned { booking_id, user_id: u };
        let d1 = Command::BookingEvent { booking_id };
        let d2 = Command::Begin;
        let d3 = Command::FreeBookingSeats { booking_id };
        let d4 = Command::CancelBooking { booking_id };
        let d5 = Command::Commit;
        let d6 = Command::UnlockReturnedSeats;
        let d7 = Command::InvalidateSeats { event_id };
        let v1 = world.apply(payment, d2).0;
        let v2 = v1.apply(payment, d3).0;
        let v3 = v2.apply(payment, d4).0;
        let v4 = v3.apply(payment, d5).0;
        let v5 = v4.apply(payment, d6).0;
        let v6 = v5.apply(payment, d7).0;
        lemma_run_step(k, d0, world, payment, gateway, patience());
        lemma_run_step(k.at(CancelStage::AwaitEvent), d1, world, payment, gateway, 15);
        lemma_run_step(k1, d2, world, payment, gateway, 14);
        lemma_run_step(k1.at(CancelStage::AwaitFree), d3, v1, payment, gateway, 13);
        lemma_run_step(k1.at(CancelStage::AwaitCancel), d4, v2, payment, gateway, 12);
        if world.db.bookings[booking_id].status != BookingStatus::Paid {
            lemma_run_step(k1.at(CancelStage::AwaitCommit), d5, v3, payment, gateway, 11);
            lemma_run_step(k1.at(CancelStage::AwaitUnlock), d6, v4, payment, gateway, 10);
            lemma_run_step(k1.at(CancelStage::AwaitInvalidate), d7, v5, payment, gateway, 9);
            assert(end.0 == v6);
            assert forall|s: i64| #[trigger] v6.db.seats.contains_key(s) implies v6.db.seats[s].booking_id
                != Some(booking_id) by {
                assert(world.db.seats.contains_key(s));
            }
        } else {
            let undo = k1.at(CancelStage::AwaitCancel).spec_next(Reply::Rows(0));
            lemma_run_step(undo.0, undo.1, v3, payment, gateway, 11);
        }
    } else if booking_id > 0 {
        lemma_run_step(k, start.1, world, payment, gateway, patience());
    }
}

/// Whether two worlds hold the same: the same durable store, the same seat
/// locks and the same cached seat lists.
pub open spec fn same_holdings(a: World, b: World) -> bool {
    &&& a.db.seats == b.db.seats
    &&& a.db.bookings == b.db.bookings
    &&& a.db.payments == b.db.payments
    &&& a.locks == b.locks
    &&& a.caches == b.caches
}

/// A notification that a payment is confirmed changes nothing when it
/// arrives a second time: after the first, the payment is completed, the
/// booking paid and no seat of the booking is reserved any more, so that the
/// second finds nothing to do.
pub proof fn lemma_confirmed_webhook_replay(world: World, payment: Seq<char>, gateway: GatewayScript)
    ensures
        ({
            let start = Webhook::spec_start(GatewayStatus::Confirmed);
            let first = run(start.0, start.1, world, payment, gateway, patience());
            let second = run(start.0, start.1, first.0, payment, gateway, patience());
            &&& first.1 is Some
            &&& second.1 == first.1
            &&& same_holdings(first.0, second.0)
        }),
{
    let start = Webhook::spec_start(GatewayStatus::Confirmed);
    let first = run(start.0, start.1, world, payment, gateway, patience());
    let second = run(start.0, start.1, first.0, payment, gateway, patience());
    let kind = SettleKind::Completed;
    lemma_run_step(start.0, start.1, world, payment, gateway, patience());
    lemma_run_step(start.0, start.1, first.0, payment, gateway, patience());
    match world.apply(payment, Command::FindPaymentBooking).1 {
        Reply::Owner(Some(owner)) => {
            let b = owner.booking_id;
            let e = owner.event_id;
            lemma_webhook_settling(start.0, Settle::spec_start(kind, b, e), world, payment, gateway, 15);
            lemma_settle_run(world, payment, gateway, kind, b, e, 15);
            let w1 = settled(world, payment, kind, b, e);
            assert(first.0 == w1);
            assert(w1.db.payments.contains_key(payment));
            assert(w1.db.bookings.contains_key(b));
            assert(w1.apply(payment, Command::FindPaymentBooking).1 == Reply::Owner(Some(owner)));
            lemma_webhook_settling(start.0, Settle::spec_start(kind, b, e), w1, payment, gateway, 15);
            lemma_settle_run(w1, payment, gateway, kind, b, e, 15);
            let w2 = settled(w1, payment, kind, b, e);
            assert(second.0 == w2);
            assert(w1.db.reserved_on(b) =~= Set::empty());
            assert(w2.db.seats =~= w1.db.seats);
            assert(w2.db.bookings =~= w1.db.bookings);
            assert(w2.db.payments =~= w1.db.payments);
            assert(w2.locks =~= w1.locks);
            assert(w2.caches =~= w1.caches);
        },
        _ => {},
    }
}

/// A payment that was pending for too long and that the gateway does not
/// report as gone through is swept in one go: the payment is expired, every
/// seat that was reserved on its booking is free again and names no
/// booking, its lock is deleted, and the booking is gone. This holds
/// whatever the gateway answers otherwise, and when it cannot be asked.
pub proof fn lemma_expired_payment_swept(
    world: World,
    payment: Seq<char>,
    gateway: GatewayScript,
    booking_id: i64,
    event_id: i64,
)
    requires
        !went_through(gateway.check),
    ensures
        ({
            let start = ExpiredPayment::spec_start(booking_id, event_id);
            let end = run(start.0, start.1, world, payment, gateway, patience());
            &&& end.1 == Some(Outcome::Settled(Settlement::Expired))
            &&& end.0 == settled(world, payment, SettleKind::Expired, booking_id, event_id)
            &&& world.db.payments.contains_key(payment) ==> end.0.db.payments[payment].status
                == PaymentStatus::Expired
            &&& !end.0.db.bookings.contains_key(booking_id)
            &&& forall|s: i64| #[trigger]
                world.db.reserved_on(booking_id).contains(s) ==> {
                    &&& end.0.db.seats[s].status == SeatStatus::Free
                    &&& end.0.db.seats[s].booking_id is None
                    &&& !end.0.locks.contains_key(s)
                }
            &&& end.0.saved is None
        }),
{
    let start = ExpiredPayment::spec_start(booking_id, event_id);
    lemma_run_step(start.0, start.1, world, payment, gateway, patience());
    lemma_expired_settling(
        start.0,
        Settle::spec_start(SettleKind::Expired, booking_id, event_id),
        world,
        payment,
        gateway,
        15,
    );
    lemma_settle_run(world, payment, gateway, SettleKind::Expired, booking_id, event_id, 15);
}

/// Cancelling undoes selecting. A user opens a booking, adds a free seat
/// to it and cancels the booking before paying: every step succeeds, the
/// seat is reserved for the booking and locked for the user in between, and
/// in the end the seat is free, names no booking and has no lock, and the
/// booking is cancelled.
pub proof fn lemma_cancel_undoes_select(
    world: World,
    payment: Seq<char>,
    gateway: GatewayScript,
    user_id: i32,
    event_id: i64,
    seat_id: i64,
)
    requires
        event_id > 0,
        seat_id > 0,
        0 < world.db.next_booking_id < i64::MAX,
        !world.db.bookings.contains_key(world.db.next_booking_id),
        world.db.seats.contains_key(seat_id),
        world.db.seats[seat_id].status == SeatStatus::Free,
        !world.locks.contains_key(seat_id),
    ensures
        ({
            let booking_id = world.db.next_booking_id;
            let create = CreateBooking::spec_start(user_id, event_id);
            let created = run(create.0, create.1, world, payment, gateway, patience());
            let select = SelectSeat::spec_start(user_id, booking_id, seat_id);
            let selected = run(select.0, select.1, created.0, payment, gateway, patience());
            let cancel = CancelBooking::spec_start(user_id, booking_id);
            let cancelled = run(cancel.0, cancel.1, selected.0, payment, gateway, patience());
            &&& created.1 == Some(Outcome::Created { id: booking_id })
            &&& selected.1 == Some(Outcome::Done(Message::SeatAdded))
            &&& selected.0.db.seats[seat_id].status == SeatStatus::Reserved
            &&& selected.0.db.seats[seat_id].booking_id == Some(booking_id)
            &&& selected.0.locks.contains_key(seat_id)
            &&& selected.0.locks[seat_id] == user_id as i64
            &&& cancelled.1 == Some(Outcome::Done(Message::BookingCancelled))
            &&& cancelled.0.db.seats[seat_id].status == SeatStatus::Free
            &&& cancelled.0.db.seats[seat_id].booking_id is None
            &&& !cancelled.0.locks.contains_key(seat_id)
            &&& cancelled.0.db.bookings[booking_id].status == BookingStatus::Cancelled
            &&& cancelled.0.saved is None
        }),
{
    let b = world.db.next_booking_id;
    let u = user_id as i64;
    let create = CreateBooking::spec_start(user_id, event_id);
    lemma_run_step(create.0, create.1, world, payment, gateway, patience());
    let w1 = world.apply(payment, create.1).0;
    assert(w1.db.owns(u, b));

    let select = SelectSeat::spec_start(user_id, b, seat_id);
    let m = select.0;
    let c0 = Command::BookingOwned { booking_id: b, user_id: u };
    let c1 = Command::LockSeat { seat_id, user_id: u };
    let c2 = Command::ReserveSeat { seat_id, booking_id: b };
    let c3 = Command::SeatEvent { seat_id };
    let c4 = Command::InvalidateSeats { event_id: world.db.seats[seat_id].event_id };
    let w2 = w1.apply(payment, c1).0;
    let w3 = w2.apply(payment, c2).0;
    let w4 = w3.apply(payment, c4).0;
    lemma_run_step(m, c0, w1, payment, gateway, patience());
    lemma_run_step(m.at(SelectStage::AwaitLock), c1, w1, payment, gateway, 15);
    lemma_run_step(m.at(SelectStage::AwaitReserve), c2, w2, payment, gateway, 14);
    lemma_run_step(m.at(SelectStage::AwaitEvent), c3, w3, payment, gateway, 13);
    lemma_run_step(m.at(SelectStage::AwaitInvalidate), c4, w3, payment, gateway, 12);
    let selected = run(select.0, select.1, w1, payment, gateway, patience());
    assert(selected.0 == w4);
    assert(selected.1 == Some(Outcome::Done(Message::SeatAdded)));

    let cancel = CancelBooking::spec_start(user_id, b);
    let k = cancel.0;
    let k1 = CancelBooking { stage: CancelStage::AwaitBegin, event_id, ..k };
    let d0 = Command::BookingOwned { booking_id: b, user_id: u };
    let d1 = Command::BookingEvent { booking_id: b };
    let d2 = Command::Begin;
    let d3 = Command::FreeBookingSeats { booking_id: b };
    let d4 = Command::CancelBooking { booking_id: b };
    let d5 = Command::Commit;
    let d6 = Command::UnlockReturnedSeats;
    let d7 = Command::InvalidateSeats { event_id };
    let v1 = w4.apply(payment, d2).0;
    let v2 = v1.apply(payment, d3).0;
    let v3 = v2.apply(payment, d4).0;
    let v4 = v3.apply(payment, d5).0;
    let v5 = v4.apply(payment, d6).0;
    let v6 = v5.apply(payment, d7).0;
    assert(w4.db.owns(u, b));
    assert(w4.db.bookings[b].event_id == event_id);
    assert(w4.db.reserved_on(b).contains(seat_id));
    lemma_run_step(k, d0, w4, payment, gateway, patience());
    lemma_run_step(k.at(CancelStage::AwaitEvent), d1, w4, payment, gateway, 15);
    lemma_run_step(k1, d2, w4, payment, gateway, 14);
    lemma_run_step(k1.at(CancelStage::AwaitFree), d3, v1, payment, gateway, 13);
    lemma_run_step(k1.at(CancelStage::AwaitCancel), d4, v2, payment, gateway, 12);
    lemma_run_step(k1.at(CancelStage::AwaitCommit), d5, v3, payment, gateway, 11);
    lemma_run_step(k1.at(CancelStage::AwaitUnlock), d6, v4, payment, gateway, 10);
    lemma_run_step(k1.at(CancelStage::AwaitInvalidate), d7, v5, payment, gateway, 9);
    let cancelled = run(cancel.0, cancel.1, w4, payment, gateway, patience());
    assert(cancelled.0 == v6);
}

/// An admin reset that meets no failure ends within ten commands and
/// leaves a clean slate: every seat is free and names no booking, the
/// seats are the same seats otherwise, there are no bookings, no payment
/// attempts, no seat locks and no cached seat lists, and the next booking
/// gets the id 1. What is left is consistent. The report counts what was
/// there.
pub proof fn lemma_reset_clears(world: World, payment: Seq<char>, gateway: GatewayScript)
    ensures
        ({
            let start = Reset::spec_start();
            let end = run(start.0, start.1, world, payment, gateway, patience());
            &&& end.1 == Some(
                Outcome::Reset(
                    ResetReport {
                        seats_reset: world.db.taken().len() as u64,
                        bookings_deleted: world.db.bookings.dom().len() as u64,
                        payments_deleted: world.db.payments.dom().len() as u64,
                        locks_cleared: world.locks.dom().len() as u64,
                        caches_cleared: world.caches.difference(world.db.booking_events()).len() as u64,
                        events_invalidated: world.db.booking_events().len() as u64,
                    },
                ),
            )
            &&& end.0.db.seats == world.db.with_seats(world.db.taken(), SeatStatus::Free, false).seats
            &&& end.0.db.seats.dom() == world.db.seats.dom()
            &&& forall|s: i64| #[trigger]
                end.0.db.seats.contains_key(s) ==> {
                    &&& end.0.db.seats[s].status == SeatStatus::Free
                    &&& end.0.db.seats[s].booking_id is None
                    &&& end.0.db.seats[s].event_id == world.db.seats[s].event_id
                    &&& end.0.db.seats[s].price_minor == world.db.seats[s].price_minor
                }
            &&& end.0.db.consistent()
            &&& end.0.db.bookings == Map::<i64, BookingRow>::empty()
            &&& end.0.db.payments == Map::<Seq<char>, PaymentRow>::empty()
            &&& end.0.db.next_booking_id == 1
            &&& end.0.locks == Map::<i64, i64>::empty()
            &&& end.0.caches == Set::<i64>::empty()
            &&& end.0.saved is None
        }),
{
    let start = Reset::spec_start();
    let m = start.0;
    let r0 = m.report;
    let c0 = Command::Begin;
    let c1 = Command::ListBookingEvents;
    let c2 = Command::ResetSeats;
    let c3 = Command::DeleteAllPayments;
    let c4 = Command::DeleteAllBookings;
    let c5 = Command::RestartBookingIds;
    let c6 = Command::Commit;
    let c7 = Command::PurgeLocks;
    let c8 = Command::InvalidateListedEvents;
    let c9 = Command::PurgeSeatCaches;
    let w1 = world.apply(payment, c0).0;
    let w2 = w1.apply(payment, c1).0;
    let w3 = w2.apply(payment, c2).0;
    let w4 = w3.apply(payment, c3).0;
    let w5 = w4.apply(payment, c4).0;
    let w6 = w5.apply(payment, c5).0;
    let w7 = w6.apply(payment, c6).0;
    let w8 = w7.apply(payment, c7).0;
    let w9 = w8.apply(payment, c8).0;
    let w10 = w9.apply(payment, c9).0;
    let r1 = ResetReport { events_invalidated: world.db.booking_events().len() as u64, ..r0 };
    let r2 = ResetReport { seats_reset: world.db.taken().len() as u64, ..r1 };
    let r3 = ResetReport { payments_deleted: world.db.payments.dom().len() as u64, ..r2 };
    let r4 = ResetReport { bookings_deleted: world.db.bookings.dom().len() as u64, ..r3 };
    let r5 = ResetReport { locks_cleared: world.locks.dom().len() as u64, ..r4 };
    lemma_run_step(m, c0, world, payment, gateway, patience());
    lemma_run_step(m.at(ResetStage::AwaitEvents), c1, w1, payment, gateway, 15);
    lemma_run_step(Reset { stage: ResetStage::AwaitSeats, report: r1 }, c2, w2, payment, gateway, 14);
    lemma_run_step(Reset { stage: ResetStage::AwaitPayments, report: r2 }, c3, w3, payment, gateway, 13);
    lemma_run_step(Reset { stage: ResetStage::AwaitBookings, report: r3 }, c4, w4, payment, gateway, 12);
    lemma_run_step(Reset { stage: ResetStage::AwaitRestart, report: r4 }, c5, w5, payment, gateway, 11);
    lemma_run_step(Reset { stage: ResetStage::AwaitCommit, report: r4 }, c6, w6, payment, gateway, 10);
    lemma_run_step(Reset { stage: ResetStage::AwaitLocks, report: r4 }, c7, w7, payment, gateway, 9);
    lemma_run_step(Reset { stage: ResetStage::AwaitInvalidate, report: r5 }, c8, w8, payment, gateway, 8);
    lemma_run_step(Reset { stage: ResetStage::AwaitCaches, report: r5 }, c9, w9, payment, gateway, 7);
    let end = run(start.0, start.1, world, payment, gateway, patience());
    assert(end.0 == w10);
    let freed = world.db.with_seats(world.db.taken(), SeatStatus::Free, false).seats;
    assert(w10.db.seats == freed);
    assert(freed.dom() =~= world.db.seats.dom());
    assert forall|s: i64| #[trigger] freed.contains_key(s) implies {
        &&& freed[s].status == SeatStatus::Free
        &&& freed[s].booking_id is None
        &&& freed[s].event_id == world.db.seats[s].event_id
        &&& freed[s].price_minor == world.db.seats[s].price_minor
    } by {
        assert(world.db.seats.contains_key(s));
        if world.db.seats[s].status != SeatStatus::Free || world.db.seats[s].booking_id is Some {
            assert(world.db.taken().contains(s));
        }
    }
}

/// A payment that the gateway opens is recorded as pending over the sum of
/// the reserved seats, the booking awaits payment, and every seat is as it
/// was: the seats stay reserved while the payment is pending.
pub proof fn lemma_payment_started(
    world: World,
    payment: Seq<char>,
    gateway: GatewayScript,
    user_id: i32,
    booking_id: i64,
)
    requires
        booking_id > 0,
        world.db.summary(booking_id, user_id as i64) is Some,
        world.db.summary(booking_id, user_id as i64)->0.total_minor > 0,
        gateway.init matches Reply::Init(answer) && answer.success && answer.has_payment_id,
    ensures
        ({
            let start = InitiatePayment::spec_start(user_id, booking_id);
            let end = run(start.0, start.1, world, payment, gateway, patience());
            let summary = world.db.summary(booking_id, user_id as i64)->0;
            &&& end.1 == Some(
                Outcome::PaymentStarted {
                    amount_minor: summary.total_minor,
                    seat_count: summary.seat_count,
                },
            )
            &&& end.0.db.seats == world.db.seats
            &&& end.0.db.bookings[booking_id].status == BookingStatus::PendingPayment
            &&& end.0.db.payments.contains_key(payment)
            &&& end.0.db.payments[payment].status == PaymentStatus::Pending
            &&& end.0.db.payments[payment].booking_id == booking_id
            &&& end.0.db.payments[payment].amount_minor == summary.total_minor
            &&& end.0.saved is None
        }),
{
    let start = InitiatePayment::spec_start(user_id, booking_id);
    let summary = world.db.summary(booking_id, user_id as i64)->0;
    let m = InitiatePayment { summary, ..start.0 };
    let c1 = Command::GatewayInit { amount_minor: summary.total_minor, seat_count: summary.seat_count };
    let c2 = Command::Begin;
    let c3 = Command::RecordPayment { booking_id, amount_minor: summary.total_minor };
    let c4 = Command::SetBookingStatus { booking_id, status: BookingStatus::PendingPayment };
    let c5 = Command::Commit;
    let w2 = world.apply(payment, c2).0;
    let w3 = w2.apply(payment, c3).0;
    let w4 = w3.apply(payment, c4).0;
    let w5 = w4.apply(payment, c5).0;
    lemma_run_step(start.0, start.1, world, payment, gateway, patience());
    lemma_run_step(m.at(InitiateStage::AwaitGateway), c1, world, payment, gateway, 15);
    lemma_run_step(m.at(InitiateStage::AwaitBegin), c2, world, payment, gateway, 14);
    lemma_run_step(m.at(InitiateStage::AwaitRecord), c3, w2, payment, gateway, 13);
    lemma_run_step(m.at(InitiateStage::AwaitBookingUpdate), c4, w3, payment, gateway, 12);
    lemma_run_step(m.at(InitiateStage::AwaitCommit), c5, w4, payment, gateway, 11);
    let end = run(start.0, start.1, world, payment, gateway, patience());
    assert(end.0 == w5);
}

/// Every operation of the engine begins well, whatever it is asked for: by
/// [`lemma_machine_ends`](crate::machine::lemma_machine_ends) it then ends
/// within `patience()` commands, whatever the outside world replies.
pub proof fn lemma_operations_begin_well(
    user_id: i32,
    booking_id: i64,
    event_id: i64,
    seat_id: i64,
    status: GatewayStatus,
    kind: SettleKind,
    has_payment_id: bool,
    page: LandingPage,
)
    ensures
        begins_well(CreateBooking::spec_start(user_id, event_id)),
        begins_well(CancelBooking::spec_start(user_id, booking_id)),
        begins_well(SelectSeat::spec_start(user_id, booking_id, seat_id)),
        begins_well(ReleaseSeat::spec_start(user_id, seat_id)),
        begins_well(InitiatePayment::spec_start(user_id, booking_id)),
        begins_well(PaymentStatusQuery::spec_start(user_id, booking_id)),
        begins_well(Settle::spec_start(kind, booking_id, event_id)),
        begins_well(Webhook::spec_start(status)),
        begins_well(Landing::spec_start(page, has_payment_id)),
        begins_well(ExpiredPayment::spec_start(booking_id, event_id)),
        begins_well(EmptyBooking::spec_start(booking_id)),
        begins_well(Reset::spec_start()),
{
}

/// The order of things, whatever the outside world replies. A seat is
/// reserved in the durable store only after its lock was set; the key store
/// is cleaned up after a settlement or a cancellation only after the
/// transaction was committed; and a payment is recorded only after the
/// gateway has opened it.
pub proof fn lemma_order_of_commands(
    select: SelectSeat,
    settle: Settle,
    cancel: CancelBooking,
    initiate: InitiatePayment,
    reply: Reply,
)
    ensures
        select.spec_next(reply).1 is ReserveSeat ==> select.stage == SelectStage::AwaitLock && reply
            == Reply::Flag(true),
        settle.spec_next(reply).1 is UnlockReturnedSeats ==> settle.stage == SettleStage::AwaitCommit
            && reply == Reply::Done,
        settle.spec_next(reply).1 is InvalidateSeats ==> settle.stage == SettleStage::AwaitUnlock,
        cancel.spec_next(reply).1 is UnlockReturnedSeats ==> cancel.stage == CancelStage::AwaitCommit
            && reply == Reply::Done,
        cancel.spec_next(reply).1 is InvalidateSeats ==> cancel.stage == CancelStage::AwaitUnlock,
        initiate.spec_next(reply).1 is Begin ==> initiate.stage == InitiateStage::AwaitGateway
            && reply matches Reply::Init(InitDigest { success: true, has_payment_id: true, .. }),
{
}

} // verus!
