//! Settling a payment or a stale booking: one transaction on the durable
//! store, then the cleanup of the key store.
//!
//! The seat updates are conditional on the seat being reserved, so that
//! settling a second time finds nothing to do. Where a statement of the
//! transaction fails, the transaction is rolled back and nothing is cleaned
//! up: no other operation sees half a settlement.
//!
//! | kind | payment | seats reserved on the booking | booking |
//! |---|---|---|---|
//! | completed | completed | sold | paid |
//! | failed | failed | free | deleted |
//! | expired | expired | free | deleted |
//! | dropped | – | free | cancelled |

use vstd::prelude::*;
use crate::machine::{
    lemma_run_failing_step, lemma_run_finished, lemma_run_step, run, run_failing, GatewayScript,
    Machine,
};
use crate::protocol::{Command, Outcome, Reply, Settlement};
use crate::status::{BookingStatus, PaymentStatus, SeatStatus};
use crate::world::{BookingRow, Db, PaymentRow, World};

verus! {

/// What is being settled.
#[derive(Clone, Copy, Debug, PartialEq, Eq, Structural)]
pub enum SettleKind {
    /// The payment went through.
    Completed,
    /// The payment failed or was called off.
    Failed,
    /// The payment was pending for too long.
    Expired,
    /// The booking held seats for too long without a payment attempt: it
    /// is cancelled.
    Dropped,
}

/// Where a settlement stands.
#[derive(Clone, Copy, Debug, PartialEq, Eq, Structural)]
pub enum SettleStage {
    AwaitBegin,
    AwaitMark,
    AwaitPaid,
    AwaitSeats,
    AwaitBooking,
    AwaitCommit,
    AwaitUnlock,
    AwaitInvalidate,
    AwaitRollback,
    Finished(Outcome),
}

/// A settlement in progress.
#[derive(Clone, Copy, Debug, PartialEq, Eq, Structural)]
pub struct Settle {
    pub stage: SettleStage,
    pub kind: SettleKind,
    pub booking_id: i64,
    pub event_id: i64,
}

impl SettleKind {
    /// The status the payment gets.
    pub open spec fn spec_payment_status(self) -> PaymentStatus {
        match self {
            SettleKind::Completed => PaymentStatus::Completed,
            SettleKind::Failed => PaymentStatus::Failed,
            SettleKind::Expired => PaymentStatus::Expired,
            SettleKind::Dropped => PaymentStatus::Expired,
        }
    }

    /// How the settlement is reported.
    pub open spec fn spec_settlement(self) -> Settlement {
        match self {
            SettleKind::Completed => Settlement::Completed,
            SettleKind::Failed => Settlement::Failed,
            SettleKind::Expired => Settlement::Expired,
            SettleKind::Dropped => Settlement::Dropped,
        }
    }

    /// The status the payment gets.
    pub fn payment_status(self) -> (status: PaymentStatus)
        ensures
            status == self.spec_payment_status(),
    {
        match self {
            SettleKind::Completed => PaymentStatus::Completed,
            SettleKind::Failed => PaymentStatus::Failed,
            SettleKind::Expired => PaymentStatus::Expired,
            SettleKind::Dropped => PaymentStatus::Expired,
        }
    }

    /// How the settlement is reported.
    pub fn settlement(self) -> (s: Settlement)
        ensures
            s == self.spec_settlement(),
    {
        match self {
            SettleKind::Completed => Settlement::Completed,
            SettleKind::Failed => Settlement::Failed,
            SettleKind::Expired => Settlement::Expired,
            SettleKind::Dropped => Settlement::Dropped,
        }
    }
}

impl Settle {
    /// The machine at another stage.
    pub open spec fn at(self, stage: SettleStage) -> Settle {
        Settle { stage, ..self }
    }

    /// The step that ends the operation with an outcome.
    pub open spec fn finished(self, settlement: Settlement) -> (Settle, Command) {
        (
            self.at(SettleStage::Finished(Outcome::Settled(settlement))),
            Command::Finish(Outcome::Settled(settlement)),
        )
    }

    /// The step that abandons the open transaction; the settlement then
    /// ends as not committed.
    pub open spec fn undone(self) -> (Settle, Command) {
        (self.at(SettleStage::AwaitRollback), Command::Rollback)
    }

    /// A settlement begins by opening a transaction.
    pub open spec fn spec_start(kind: SettleKind, booking_id: i64, event_id: i64) -> (Settle, Command) {
        (Settle { stage: SettleStage::AwaitBegin, kind, booking_id, event_id }, Command::Begin)
    }

    /// Begins a settlement.
    pub fn start(kind: SettleKind, booking_id: i64, event_id: i64) -> (step: (Settle, Command))
        ensures
            step == Self::spec_start(kind, booking_id, event_id),
    {
        (Settle { stage: SettleStage::AwaitBegin, kind, booking_id, event_id }, Command::Begin)
    }

    fn go(self, stage: SettleStage, command: Command) -> (step: (Settle, Command))
        ensures
            step == (self.at(stage), command),
    {
        (
            Settle { stage, kind: self.kind, booking_id: self.booking_id, event_id: self.event_id },
            command,
        )
    }

    fn undo(self) -> (step: (Settle, Command))
        ensures
            step == self.undone(),
    {
        self.go(SettleStage::AwaitRollback, Command::Rollback)
    }

    fn finish(self, settlement: Settlement) -> (step: (Settle, Command))
        ensures
            step == self.finished(settlement),
    {
        let outcome = Outcome::Settled(settlement);
        self.go(SettleStage::Finished(outcome), Command::Finish(outcome))
    }
}

impl Machine for Settle {
    /// Inside the transaction: the payment is marked (not for a dropped
    /// booking); for a completed payment the booking is marked paid and its
    /// reserved seats sold; otherwise its reserved seats are freed and the
    /// booking deleted, or cancelled if it is a dropped one. A statement
    /// that fails, or a commit that fails, ends the settlement with the
    /// transaction rolled back: nothing has changed, and nothing is cleaned
    /// up. A statement that touches no row has not failed.
    open spec fn spec_next(self, reply: Reply) -> (Settle, Command) {
        let booking_id = self.booking_id;
        match self.stage {
            SettleStage::AwaitBegin => if reply != Reply::Done {
                self.finished(Settlement::NotCommitted)
            } else if self.kind == SettleKind::Dropped {
                (self.at(SettleStage::AwaitSeats), Command::FreeBookingSeats { booking_id })
            } else {
                (
                    self.at(SettleStage::AwaitMark),
                    Command::MarkPayment { status: self.kind.spec_payment_status() },
                )
            },
            SettleStage::AwaitMark => if !(reply is Rows) {
                self.undone()
            } else if self.kind == SettleKind::Completed {
                (
                    self.at(SettleStage::AwaitPaid),
                    Command::SetBookingStatus { booking_id, status: BookingStatus::Paid },
                )
            } else {
                (self.at(SettleStage::AwaitSeats), Command::FreeBookingSeats { booking_id })
            },
            SettleStage::AwaitPaid => if !(reply is Rows) {
                self.undone()
            } else {
                (self.at(SettleStage::AwaitSeats), Command::SellBookingSeats { booking_id })
            },
            SettleStage::AwaitSeats => if !(reply is Rows) {
                self.undone()
            } else if self.kind == SettleKind::Completed {
                (self.at(SettleStage::AwaitCommit), Command::Commit)
            } else if self.kind == SettleKind::Dropped {
                (self.at(SettleStage::AwaitBooking), Command::CancelBooking { booking_id })
            } else {
                (self.at(SettleStage::AwaitBooking), Command::DeleteBooking { booking_id })
            },
            SettleStage::AwaitBooking => if !(reply is Rows) {
                self.undone()
            } else {
                (self.at(SettleStage::AwaitCommit), Command::Commit)
            },
            SettleStage::AwaitCommit => if reply == Reply::Done {
                (self.at(SettleStage::AwaitUnlock), Command::UnlockReturnedSeats)
            } else {
                self.undone()
            },
            SettleStage::AwaitUnlock => (
                self.at(SettleStage::AwaitInvalidate),
                Command::InvalidateSeats { event_id: self.event_id },
            ),
            SettleStage::AwaitInvalidate => self.finished(self.kind.spec_settlement()),
            SettleStage::AwaitRollback => self.finished(Settlement::NotCommitted),
            SettleStage::Finished(outcome) => (self, Command::Finish(outcome)),
        }
    }

    open spec fn spec_remaining(self) -> nat {
        match self.stage {
            SettleStage::AwaitBegin => 8,
            SettleStage::AwaitMark => 7,
            SettleStage::AwaitPaid => 6,
            SettleStage::AwaitSeats => 5,
            SettleStage::AwaitBooking => 4,
            SettleStage::AwaitCommit => 3,
            SettleStage::AwaitUnlock => 2,
            SettleStage::AwaitInvalidate => 1,
            SettleStage::AwaitRollback => 1,
            SettleStage::Finished(_) => 0,
        }
    }

    proof fn lemma_progress(self, reply: Reply)
    {
    }

    fn next(self, reply: Reply) -> (step: (Settle, Command)) {
        let booking_id = self.booking_id;
        let completed = match self.kind {
            SettleKind::Completed => true,
            _ => false,
        };
        let dropped = match self.kind {
            SettleKind::Dropped => true,
            _ => false,
        };
        let executed = match reply {
            Reply::Rows(_) => true,
            _ => false,
        };
        let done = match reply {
            Reply::Done => true,
            _ => false,
        };
        match self.stage {
            SettleStage::AwaitBegin => if !done {
                self.finish(Settlement::NotCommitted)
            } else if dropped {
                self.go(SettleStage::AwaitSeats, Command::FreeBookingSeats { booking_id })
            } else {
                self.go(
                    SettleStage::AwaitMark,
                    Command::MarkPayment { status: self.kind.payment_status() },
                )
            },
            SettleStage::AwaitMark => if !executed {
                self.undo()
            } else if completed {
                self.go(
                    SettleStage::AwaitPaid,
                    Command::SetBookingStatus { booking_id, status: BookingStatus::Paid },
                )
            } else {
                self.go(SettleStage::AwaitSeats, Command::FreeBookingSeats { booking_id })
            },
            SettleStage::AwaitPaid => if !executed {
                self.undo()
            } else {
                self.go(SettleStage::AwaitSeats, Command::SellBookingSeats { booking_id })
            },
            SettleStage::AwaitSeats => if !executed {
                self.undo()
            } else if completed {
                self.go(SettleStage::AwaitCommit, Command::Commit)
            } else if dropped {
                self.go(SettleStage::AwaitBooking, Command::CancelBooking { booking_id })
            } else {
                self.go(SettleStage::AwaitBooking, Command::DeleteBooking { booking_id })
            },
            SettleStage::AwaitBooking => if !executed {
                self.undo()
            } else {
                self.go(SettleStage::AwaitCommit, Command::Commit)
            },
            SettleStage::AwaitCommit => if done {
                self.go(SettleStage::AwaitUnlock, Command::UnlockReturnedSeats)
            } else {
                self.undo()
            },
            SettleStage::AwaitUnlock => self.go(
                SettleStage::AwaitInvalidate,
                Command::InvalidateSeats { event_id: self.event_id },
            ),
            SettleStage::AwaitInvalidate => self.finish(self.kind.settlement()),
            SettleStage::AwaitRollback => self.finish(Settlement::NotCommitted),
            SettleStage::Finished(outcome) => (self, Command::Finish(outcome)),
        }
    }
}

/// The durable store after a settlement that met no failure: the payment
/// has its new status (a dropped booking has no payment to mark); for a
/// completed payment the booking is paid and the seats that were reserved on
/// it are sold; otherwise those seats are free, and the booking is gone or,
/// if it is a dropped one that is not paid, cancelled.
pub open spec fn settled_db(db: Db, payment: Seq<char>, kind: SettleKind, booking_id: i64) -> Db {
    let marked = if kind != SettleKind::Dropped && db.payments.contains_key(payment) {
        db.with_payment(
            payment,
            PaymentRow { status: kind.spec_payment_status(), ..db.payments[payment] },
        )
    } else {
        db
    };
    if kind == SettleKind::Completed {
        let paid = if db.bookings.contains_key(booking_id) {
            marked.with_booking(
                booking_id,
                BookingRow { status: BookingStatus::Paid, ..db.bookings[booking_id] },
            )
        } else {
            marked
        };
        paid.with_seats(db.reserved_on(booking_id), SeatStatus::Sold, true)
    } else if kind == SettleKind::Dropped {
        let freed = db.with_seats(db.reserved_on(booking_id), SeatStatus::Free, false);
        if db.bookings.contains_key(booking_id) && db.bookings[booking_id].status
            != BookingStatus::Paid {
            freed.with_booking(
                booking_id,
                BookingRow { status: BookingStatus::Cancelled, ..db.bookings[booking_id] },
            )
        } else {
            freed
        }
    } else {
        marked.with_seats(db.reserved_on(booking_id), SeatStatus::Free, false).without_booking(
            booking_id,
        )
    }
}

/// The world after a settlement that met no failure: the durable store as
/// [`settled_db`] says, no transaction open, the locks of the seats that
/// were reserved on the booking deleted, and the cached seat list of the
/// event deleted.
pub open spec fn settled(world: World, payment: Seq<char>, kind: SettleKind, booking_id: i64, event_id: i64) -> World {
    World {
        db: settled_db(world.db, payment, kind, booking_id),
        saved: None,
        locks: world.locks.remove_keys(world.db.reserved_on(booking_id)),
        caches: world.caches.remove(event_id),
        returned: world.db.reserved_on(booking_id),
        listed: world.listed,
    }
}

/// Whether two worlds agree in every part.
pub open spec fn same_world(a: World, b: World) -> bool {
    &&& a.db.seats =~= b.db.seats
    &&& a.db.bookings =~= b.db.bookings
    &&& a.db.payments =~= b.db.payments
    &&& a.db.next_booking_id == b.db.next_booking_id
    &&& a.db.next_payment == b.db.next_payment
    &&& a.saved == b.saved
    &&& a.locks =~= b.locks
    &&& a.caches =~= b.caches
    &&& a.returned =~= b.returned
    &&& a.listed =~= b.listed
}

/// Worlds that agree in every part are one world.
pub proof fn lemma_same_world(a: World, b: World)
    requires
        same_world(a, b),
    ensures
        a == b,
{
    assert(a.db == b.db);
}

proof fn lemma_settle_completed(
    world: World,
    payment: Seq<char>,
    gateway: GatewayScript,
    booking_id: i64,
    event_id: i64,
    fuel: nat,
)
    requires
        fuel >= 7,
    ensures
        ({
            let start = Settle::spec_start(SettleKind::Completed, booking_id, event_id);
            let end = run(start.0, start.1, world, payment, gateway, fuel);
            &&& end.1 == Some(Outcome::Settled(Settlement::Completed))
            &&& end.0 == settled(world, payment, SettleKind::Completed, booking_id, event_id)
        }),
{
    let kind = SettleKind::Completed;
    let m = Settle { stage: SettleStage::AwaitBegin, kind, booking_id, event_id };
    let done = Outcome::Settled(Settlement::Completed);
    let c0 = Command::Begin;
    let c1 = Command::MarkPayment { status: PaymentStatus::Completed };
    let c2 = Command::SetBookingStatus { booking_id, status: BookingStatus::Paid };
    let c3 = Command::SellBookingSeats { booking_id };
    let c4 = Command::Commit;
    let c5 = Command::UnlockReturnedSeats;
    let c6 = Command::InvalidateSeats { event_id };
    let w1 = world.apply(payment, c0).0;
    let w2 = w1.apply(payment, c1).0;
    let w3 = w2.apply(payment, c2).0;
    let w4 = w3.apply(payment, c3).0;
    let w5 = w4.apply(payment, c4).0;
    let w6 = w5.apply(payment, c5).0;
    let w7 = w6.apply(payment, c6).0;
    lemma_run_step(m, c0, world, payment, gateway, fuel);
    lemma_run_step(m.at(SettleStage::AwaitMark), c1, w1, payment, gateway, (fuel - 1) as nat);
    lemma_run_step(m.at(SettleStage::AwaitPaid), c2, w2, payment, gateway, (fuel - 2) as nat);
    lemma_run_step(m.at(SettleStage::AwaitSeats), c3, w3, payment, gateway, (fuel - 3) as nat);
    lemma_run_step(m.at(SettleStage::AwaitCommit), c4, w4, payment, gateway, (fuel - 4) as nat);
    lemma_run_step(m.at(SettleStage::AwaitUnlock), c5, w5, payment, gateway, (fuel - 5) as nat);
    lemma_run_step(m.at(SettleStage::AwaitInvalidate), c6, w6, payment, gateway, (fuel - 6) as nat);
    lemma_run_finished(m.at(SettleStage::Finished(done)), done, w7, payment, gateway, (fuel - 7) as nat);
    assert(w3.db.reserved_on(booking_id) =~= world.db.reserved_on(booking_id));
    lemma_same_world(w7, settled(world, payment, kind, booking_id, event_id));
}

proof fn lemma_settle_refused(
    world: World,
    payment: Seq<char>,
    gateway: GatewayScript,
    kind: SettleKind,
    booking_id: i64,
    event_id: i64,
    fuel: nat,
)
    requires
        fuel >= 7,
        kind == SettleKind::Failed || kind == SettleKind::Expired,
    ensures
        ({
            let start = Settle::spec_start(kind, booking_id, event_id);
            let end = run(start.0, start.1, world, payment, gateway, fuel);
            &&& end.1 == Some(Outcome::Settled(kind.spec_settlement()))
            &&& end.0 == settled(world, payment, kind, booking_id, event_id)
        }),
{
    let m = Settle { stage: SettleStage::AwaitBegin, kind, booking_id, event_id };
    let done = Outcome::Settled(kind.spec_settlement());
    let c0 = Command::Begin;
    let c1 = Command::MarkPayment { status: kind.spec_payment_status() };
    let c2 = Command::FreeBookingSeats { booking_id };
    let c3 = Command::DeleteBooking { booking_id };
    let c4 = Command::Commit;
    let c5 = Command::UnlockReturnedSeats;
    let c6 = Command::InvalidateSeats { event_id };
    let w1 = world.apply(payment, c0).0;
    let w2 = w1.apply(payment, c1).0;
    let w3 = w2.apply(payment, c2).0;
    let w4 = w3.apply(payment, c3).0;
    let w5 = w4.apply(payment, c4).0;
    let w6 = w5.apply(payment, c5).0;
    let w7 = w6.apply(payment, c6).0;
    lemma_run_step(m, c0, world, payment, gateway, fuel);
    lemma_run_step(m.at(SettleStage::AwaitMark), c1, w1, payment, gateway, (fuel - 1) as nat);
    lemma_run_step(m.at(SettleStage::AwaitSeats), c2, w2, payment, gateway, (fuel - 2) as nat);
    lemma_run_step(m.at(SettleStage::AwaitBooking), c3, w3, payment, gateway, (fuel - 3) as nat);
    lemma_run_step(m.at(SettleStage::AwaitCommit), c4, w4, payment, gateway, (fuel - 4) as nat);
    lemma_run_step(m.at(SettleStage::AwaitUnlock), c5, w5, payment, gateway, (fuel - 5) as nat);
    lemma_run_step(m.at(SettleStage::AwaitInvalidate), c6, w6, payment, gateway, (fuel - 6) as nat);
    lemma_run_finished(m.at(SettleStage::Finished(done)), done, w7, payment, gateway, (fuel - 7) as nat);
    assert(w2.db.reserved_on(booking_id) =~= world.db.reserved_on(booking_id));
    lemma_same_world(w7, settled(world, payment, kind, booking_id, event_id));
}

proof fn lemma_settle_dropped(
    world: World,
    payment: Seq<char>,
    gateway: GatewayScript,
    booking_id: i64,
    event_id: i64,
    fuel: nat,
)
    requires
        fuel >= 7,
    ensures
        ({
            let start = Settle::spec_start(SettleKind::Dropped, booking_id, event_id);
            let end = run(start.0, start.1, world, payment, gateway, fuel);
            &&& end.1 == Some(Outcome::Settled(Settlement::Dropped))
            &&& end.0 == settled(world, payment, SettleKind::Dropped, booking_id, event_id)
        }),
{
    let kind = SettleKind::Dropped;
    let m = Settle { stage: SettleStage::AwaitBegin, kind, booking_id, event_id };
    let done = Outcome::Settled(Settlement::Dropped);
    let c0 = Command::Begin;
    let c2 = Command::FreeBookingSeats { booking_id };
    let c3 = Command::CancelBooking { booking_id };
    let c4 = Command::Commit;
    let c5 = Command::UnlockReturnedSeats;
    let c6 = Command::InvalidateSeats { event_id };
    let w1 = world.apply(payment, c0).0;
    let w3 = w1.apply(payment, c2).0;
    let w4 = w3.apply(payment, c3).0;
    let w5 = w4.apply(payment, c4).0;
    let w6 = w5.apply(payment, c5).0;
    let w7 = w6.apply(payment, c6).0;
    lemma_run_step(m, c0, world, payment, gateway, fuel);
    lemma_run_step(m.at(SettleStage::AwaitSeats), c2, w1, payment, gateway, (fuel - 1) as nat);
    lemma_run_step(m.at(SettleStage::AwaitBooking), c3, w3, payment, gateway, (fuel - 2) as nat);
    lemma_run_step(m.at(SettleStage::AwaitCommit), c4, w4, payment, gateway, (fuel - 3) as nat);
    lemma_run_step(m.at(SettleStage::AwaitUnlock), c5, w5, payment, gateway, (fuel - 4) as nat);
    lemma_run_step(m.at(SettleStage::AwaitInvalidate), c6, w6, payment, gateway, (fuel - 5) as nat);
    lemma_run_finished(m.at(SettleStage::Finished(done)), done, w7, payment, gateway, (fuel - 6) as nat);
    lemma_same_world(w7, settled(world, payment, kind, booking_id, event_id));
}

/// A settlement that meets no failure ends within seven commands, reports
/// its kind, and leaves the world as [`settled`] says.
pub proof fn lemma_settle_run(
    world: World,
    payment: Seq<char>,
    gateway: GatewayScript,
    kind: SettleKind,
    booking_id: i64,
    event_id: i64,
    fuel: nat,
)
    requires
        fuel >= 7,
    ensures
        ({
            let start = Settle::spec_start(kind, booking_id, event_id);
            let end = run(start.0, start.1, world, payment, gateway, fuel);
            &&& end.1 == Some(Outcome::Settled(kind.spec_settlement()))
            &&& end.0 == settled(world, payment, kind, booking_id, event_id)
        }),
{
    match kind {
        SettleKind::Completed => lemma_settle_completed(world, payment, gateway, booking_id, event_id, fuel),
        SettleKind::Dropped => lemma_settle_dropped(world, payment, gateway, booking_id, event_id, fuel),
        _ => lemma_settle_refused(world, payment, gateway, kind, booking_id, event_id, fuel),
    }
}

/// The commands a settlement hands out inside its transaction, the commit
/// included.
pub open spec fn in_transaction(kind: SettleKind, booking_id: i64, command: Command) -> bool {
    match command {
        Command::MarkPayment { status } => kind != SettleKind::Dropped && status
            == kind.spec_payment_status(),
        Command::SetBookingStatus { booking_id: b, status } => kind == SettleKind::Completed && b
            == booking_id && status == BookingStatus::Paid,
        Command::SellBookingSeats { booking_id: b } => kind == SettleKind::Completed && b == booking_id,
        Command::FreeBookingSeats { booking_id: b } => kind != SettleKind::Completed && b == booking_id,
        Command::DeleteBooking { booking_id: b } => (kind == SettleKind::Failed || kind
            == SettleKind::Expired) && b == booking_id,
        Command::CancelBooking { booking_id: b } => kind == SettleKind::Dropped && b == booking_id,
        Command::Commit => true,
        _ => false,
    }
}

/// Whether a world is inside the transaction that a settlement opened in
/// `origin`: what a rollback brings back is the durable store of `origin`,
/// and the key store is as it was.
spec fn inside(origin: World, world: World) -> bool {
    &&& world.saved == Some(origin.db)
    &&& world.locks == origin.locks
    &&& world.caches == origin.caches
    &&& world.listed == origin.listed
}

/// Whether a world is `origin` but for what the shell keeps of the last
/// statement, with no transaction open.
spec fn restored(origin: World, world: World) -> bool {
    &&& world.db == origin.db
    &&& world.saved is None
    &&& world.locks == origin.locks
    &&& world.caches == origin.caches
    &&& world.listed == origin.listed
}

proof fn lemma_failed_here(
    origin: World,
    world: World,
    payment: Seq<char>,
    gateway: GatewayScript,
    machine: Settle,
    failing: Command,
    fuel: nat,
)
    requires
        fuel >= 2,
        inside(origin, world),
        in_transaction(machine.kind, machine.booking_id, failing),
        machine.stage == SettleStage::AwaitMark || machine.stage == SettleStage::AwaitPaid
            || machine.stage == SettleStage::AwaitSeats || machine.stage == SettleStage::AwaitBooking
            || machine.stage == SettleStage::AwaitCommit,
    ensures
        ({
            let end = run_failing(machine, failing, world, payment, gateway, failing, fuel);
            end.1 == Some(Outcome::Settled(Settlement::NotCommitted)) && restored(origin, end.0)
        }),
{
    lemma_run_failing_step(machine, failing, world, payment, gateway, failing, fuel);
    lemma_run_failing_step(
        machine.at(SettleStage::AwaitRollback),
        Command::Rollback,
        world,
        payment,
        gateway,
        failing,
        (fuel - 1) as nat,
    );
}

proof fn lemma_went_on(
    origin: World,
    world: World,
    payment: Seq<char>,
    gateway: GatewayScript,
    machine: Settle,
    command: Command,
    failing: Command,
    fuel: nat,
)
    requires
        fuel >= 1,
        inside(origin, world),
        command != failing,
        in_transaction(machine.kind, machine.booking_id, command),
        !(command is Commit),
    ensures
        ({
            let (after, reply) = world.apply(payment, command);
            let next = machine.spec_next(reply);
            &&& inside(origin, after)
            &&& reply is Rows
            &&& run_failing(machine, command, world, payment, gateway, failing, fuel) == run_failing(
                next.0,
                next.1,
                after,
                payment,
                gateway,
                failing,
                (fuel - 1) as nat,
            )
        }),
{
    lemma_run_failing_step(machine, command, world, payment, gateway, failing, fuel);
}

/// The place of a command in the transaction of a settlement.
spec fn place(command: Command) -> int {
    match command {
        Command::MarkPayment { .. } => 1,
        Command::SetBookingStatus { .. } => 2,
        Command::SellBookingSeats { .. } => 3,
        Command::FreeBookingSeats { .. } => 3,
        Command::DeleteBooking { .. } => 4,
        Command::CancelBooking { .. } => 4,
        Command::Commit => 5,
        _ => 0,
    }
}

/// The command a settlement has handed out when it stands inside its
/// transaction.
spec fn handed(machine: Settle) -> Command {
    let booking_id = machine.booking_id;
    match machine.stage {
        SettleStage::AwaitMark => Command::MarkPayment { status: machine.kind.spec_payment_status() },
        SettleStage::AwaitPaid => Command::SetBookingStatus { booking_id, status: BookingStatus::Paid },
        SettleStage::AwaitSeats => if machine.kind == SettleKind::Completed {
            Command::SellBookingSeats { booking_id }
        } else {
            Command::FreeBookingSeats { booking_id }
        },
        SettleStage::AwaitBooking => if machine.kind == SettleKind::Dropped {
            Command::CancelBooking { booking_id }
        } else {
            Command::DeleteBooking { booking_id }
        },
        _ => Command::Commit,
    }
}

/// Whether a settlement stands inside its transaction.
spec fn in_stage(machine: Settle) -> bool {
    match machine.stage {
        SettleStage::AwaitMark => machine.kind != SettleKind::Dropped,
        SettleStage::AwaitPaid => machine.kind == SettleKind::Completed,
        SettleStage::AwaitSeats => true,
        SettleStage::AwaitBooking => machine.kind != SettleKind::Completed,
        SettleStage::AwaitCommit => true,
        _ => false,
    }
}

proof fn lemma_settle_failing_inside(
    origin: World,
    world: World,
    payment: Seq<char>,
    gateway: GatewayScript,
    machine: Settle,
    failing: Command,
    fuel: nat,
)
    requires
        fuel >= machine.spec_remaining(),
        inside(origin, world),
        in_stage(machine),
        in_transaction(machine.kind, machine.booking_id, failing),
        place(failing) >= place(handed(machine)),
    ensures
        ({
            let end = run_failing(machine, handed(machine), world, payment, gateway, failing, fuel);
            end.1 == Some(Outcome::Settled(Settlement::NotCommitted)) && restored(origin, end.0)
        }),
    decreases machine.spec_remaining(),
{
    let command = handed(machine);
    if command == failing {
        lemma_failed_here(origin, world, payment, gateway, machine, failing, fuel);
    } else {
        lemma_went_on(origin, world, payment, gateway, machine, command, failing, fuel);
        let (after, reply) = world.apply(payment, command);
        let next = machine.spec_next(reply);
        assert(next.1 == handed(next.0));
        lemma_settle_failing_inside(origin, after, payment, gateway, next.0, failing, (fuel - 1) as nat);
    }
}

/// A settlement of which a statement fails, or the commit, changes nothing:
/// it ends as not committed, the durable store, the seat locks and the
/// cached seat lists are as they were before, and no transaction is open.
pub proof fn lemma_settle_failing(
    world: World,
    payment: Seq<char>,
    gateway: GatewayScript,
    kind: SettleKind,
    booking_id: i64,
    event_id: i64,
    failing: Command,
    fuel: nat,
)
    requires
        fuel >= 9,
        in_transaction(kind, booking_id, failing),
    ensures
        ({
            let start = Settle::spec_start(kind, booking_id, event_id);
            let end = run_failing(start.0, start.1, world, payment, gateway, failing, fuel);
            &&& end.1 == Some(Outcome::Settled(Settlement::NotCommitted))
            &&& end.0.db == world.db
            &&& end.0.locks == world.locks
            &&& end.0.caches == world.caches
            &&& end.0.saved is None
        }),
{
    let m = Settle { stage: SettleStage::AwaitBegin, kind, booking_id, event_id };
    lemma_run_failing_step(m, Command::Begin, world, payment, gateway, failing, fuel);
    let w1 = world.apply(payment, Command::Begin).0;
    let first = m.spec_next(Reply::Done);
    assert(first.1 == handed(first.0));
    lemma_settle_failing_inside(world, w1, payment, gateway, first.0, failing, (fuel - 1) as nat);
}

} // verus!
