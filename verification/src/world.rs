//! A reference model of the outside world: what the durable store and the key
//! store hold, and what each [`Command`] does to them when nothing fails.
//!
//! The model is the yardstick for the laws of the engine: they are stated
//! over runs of the engine's machines against it. It describes single
//! statements; a transaction is a saved copy that `Rollback` restores.

use vstd::prelude::*;
use crate::protocol::{Command, Owner, Reply, Summary};
use crate::status::{seat_step_allowed, BookingStatus, PaymentStatus, SeatStatus};

verus! {

/// A seat in the durable store.
pub struct SeatRow {
    pub event_id: i64,
    pub status: SeatStatus,
    pub booking_id: Option<i64>,
    pub price_minor: int,
}

/// A booking in the durable store.
pub struct BookingRow {
    pub event_id: i64,
    pub user_id: i64,
    pub status: BookingStatus,
}

/// A payment attempt in the durable store.
pub struct PaymentRow {
    pub booking_id: i64,
    pub status: PaymentStatus,
    pub amount_minor: i64,
    /// Position in the order of creation; later attempts have larger numbers.
    pub created: nat,
}

/// The durable store.
pub struct Db {
    pub seats: Map<i64, SeatRow>,
    pub bookings: Map<i64, BookingRow>,
    /// Payment attempts by the id the gateway gave them.
    pub payments: Map<Seq<char>, PaymentRow>,
    pub next_booking_id: i64,
    pub next_payment: nat,
}

/// The durable store and the key store together.
pub struct World {
    pub db: Db,
    /// The durable store as it was when the open transaction began.
    pub saved: Option<Db>,
    /// Seat locks: the user that holds the lock of a seat.
    pub locks: Map<i64, i64>,
    /// The events whose seat list is cached.
    pub caches: Set<i64>,
    /// The seat ids the last `FreeBookingSeats` or `SellBookingSeats` returned.
    pub returned: Set<i64>,
    /// The events the last `ListBookingEvents` returned.
    pub listed: Set<i64>,
}

impl Db {
    /// The seats reserved on a booking.
    pub open spec fn reserved_on(self, booking_id: i64) -> Set<i64> {
        Set::new(
            |s: i64|
                self.seats.contains_key(s) && self.seats[s].status == SeatStatus::Reserved
                    && self.seats[s].booking_id == Some(booking_id),
        )
    }

    /// The seats that are not free or name a booking.
    pub open spec fn taken(self) -> Set<i64> {
        Set::new(
            |s: i64|
                self.seats.contains_key(s) && (self.seats[s].status != SeatStatus::Free
                    || self.seats[s].booking_id is Some),
        )
    }

    /// The store after the seats in `which` were set to `status`, keeping or
    /// clearing their booking.
    pub open spec fn with_seats(self, which: Set<i64>, status: SeatStatus, keep_booking: bool) -> Db {
        Db {
            seats: Map::new(
                |s: i64| self.seats.contains_key(s),
                |s: i64|
                    if which.contains(s) {
                        SeatRow {
                            status,
                            booking_id: if keep_booking {
                                self.seats[s].booking_id
                            } else {
                                None
                            },
                            ..self.seats[s]
                        }
                    } else {
                        self.seats[s]
                    },
            ),
            ..self
        }
    }

    /// The store with one seat replaced.
    pub open spec fn with_seat(self, seat_id: i64, row: SeatRow) -> Db {
        Db { seats: self.seats.insert(seat_id, row), ..self }
    }

    /// The store with one booking inserted or replaced.
    pub open spec fn with_booking(self, booking_id: i64, row: BookingRow) -> Db {
        Db { bookings: self.bookings.insert(booking_id, row), ..self }
    }

    /// The store without one booking.
    pub open spec fn without_booking(self, booking_id: i64) -> Db {
        Db { bookings: self.bookings.remove(booking_id), ..self }
    }

    /// The store with one payment attempt inserted or replaced.
    pub open spec fn with_payment(self, payment: Seq<char>, row: PaymentRow) -> Db {
        Db { payments: self.payments.insert(payment, row), ..self }
    }

    /// Whether the user owns the booking.
    pub open spec fn owns(self, user_id: i64, booking_id: i64) -> bool {
        self.bookings.contains_key(booking_id) && self.bookings[booking_id].user_id == user_id
    }

    /// Whether the seat is reserved on a booking of the user.
    pub open spec fn holds(self, user_id: i64, seat_id: i64) -> bool {
        &&& self.seats.contains_key(seat_id)
        &&& self.seats[seat_id].status == SeatStatus::Reserved
        &&& self.seats[seat_id].booking_id is Some
        &&& self.owns(user_id, self.seats[seat_id].booking_id->0)
    }

    /// The sum of the prices of the seats reserved on a booking.
    pub open spec fn reserved_total(self, booking_id: i64) -> int {
        self.reserved_on(booking_id).fold(0int, |sum: int, s: i64| sum + self.seats[s].price_minor)
    }

    /// What `BookingSummary` reports.
    pub open spec fn summary(self, booking_id: i64, user_id: i64) -> Option<Summary> {
        if self.owns(user_id, booking_id) && self.reserved_on(booking_id).len() > 0 {
            Some(
                Summary {
                    total_minor: self.reserved_total(booking_id) as i64,
                    seat_count: self.reserved_on(booking_id).len() as i32,
                },
            )
        } else {
            None
        }
    }

    /// Whether `payment` is the latest attempt for the booking.
    pub open spec fn is_latest(self, payment: Seq<char>, booking_id: i64) -> bool {
        &&& self.payments.contains_key(payment)
        &&& self.payments[payment].booking_id == booking_id
        &&& forall|other: Seq<char>|
            self.payments.contains_key(other) && #[trigger] self.payments[other].booking_id
                == booking_id ==> self.payments[other].created <= self.payments[payment].created
    }

    /// What `LatestPayment` reports.
    pub open spec fn latest_payment(self, booking_id: i64, user_id: i64) -> Option<PaymentStatus> {
        if self.owns(user_id, booking_id) && exists|p: Seq<char>| self.is_latest(p, booking_id) {
            Some(self.payments[choose|p: Seq<char>| self.is_latest(p, booking_id)].status)
        } else {
            None
        }
    }

    /// Whether every seat that is reserved or sold names a booking that
    /// exists, and no free seat names one.
    pub open spec fn single_holder(self) -> bool {
        forall|s: i64| #[trigger]
            self.seats.contains_key(s) ==> if self.seats[s].status == SeatStatus::Free {
                self.seats[s].booking_id is None
            } else {
                self.seats[s].booking_id is Some && self.bookings.contains_key(
                    self.seats[s].booking_id->0,
                )
            }
    }

    /// Whether a booking has a sold seat.
    pub open spec fn has_sold_seat(self, booking_id: i64) -> bool {
        exists|s: i64| #[trigger]
            self.seats.contains_key(s) && self.seats[s].status == SeatStatus::Sold
                && self.seats[s].booking_id == Some(booking_id)
    }

    /// Whether any seat names the booking.
    pub open spec fn has_seat_of(self, booking_id: i64) -> bool {
        exists|s: i64| #[trigger]
            self.seats.contains_key(s) && self.seats[s].booking_id == Some(booking_id)
    }

    /// Whether seats and bookings go together: every seat has a single
    /// holder, and every sold seat a paid one.
    pub open spec fn consistent(self) -> bool {
        self.single_holder() && self.sold_seats_are_paid()
    }

    /// Whether every sold seat names a booking that is paid.
    pub open spec fn sold_seats_are_paid(self) -> bool {
        forall|s: i64| #[trigger]
            self.seats.contains_key(s) && self.seats[s].status == SeatStatus::Sold ==> {
                &&& self.seats[s].booking_id is Some
                &&& self.bookings.contains_key(self.seats[s].booking_id->0)
                &&& self.bookings[self.seats[s].booking_id->0].status == BookingStatus::Paid
            }
    }

    /// The events that bookings refer to.
    pub open spec fn booking_events(self) -> Set<i64> {
        Set::new(
            |e: i64|
                exists|b: i64| self.bookings.contains_key(b) && #[trigger] self.bookings[b].event_id == e,
        )
    }
}

impl World {
    /// The world with another durable store.
    pub open spec fn with_db(self, db: Db) -> World {
        World { db, ..self }
    }

    /// A reply that reports how many rows a statement touched.
    pub open spec fn touched(n: nat) -> Reply {
        Reply::Rows(n as u64)
    }

    /// What the world is after a command, and what comes back, when nothing
    /// fails. `payment` is the id of the payment the session is about.
    /// Gateway commands and `Finish` leave the world as it is.
    pub open spec fn apply(self, payment: Seq<char>, command: Command) -> (World, Reply) {
        let db = self.db;
        match command {
            Command::InsertBooking { event_id, user_id } => (
                self.with_db(
                    Db {
                        next_booking_id: (db.next_booking_id + 1) as i64,
                        ..db.with_booking(
                            db.next_booking_id,
                            BookingRow { event_id, user_id, status: BookingStatus::Created },
                        )
                    },
                ),
                Reply::Id(db.next_booking_id),
            ),
            Command::BookingOwned { booking_id, user_id } => (
                self,
                Reply::Flag(db.owns(user_id, booking_id)),
            ),
            Command::BookingEvent { booking_id } => (
                self,
                if db.bookings.contains_key(booking_id) {
                    Reply::MaybeId(Some(db.bookings[booking_id].event_id))
                } else {
                    Reply::Failed
                },
            ),
            Command::SeatEvent { seat_id } => (
                self,
                if db.seats.contains_key(seat_id) {
                    Reply::MaybeId(Some(db.seats[seat_id].event_id))
                } else {
                    Reply::Failed
                },
            ),
            Command::SeatHeldBy { seat_id, user_id } => (self, Reply::Flag(db.holds(user_id, seat_id))),
            Command::SeatActive { seat_id } => (
                self,
                Reply::Flag(
                    db.seats.contains_key(seat_id) && db.seats[seat_id].status != SeatStatus::Free,
                ),
            ),
            Command::ReserveSeat { seat_id, booking_id } => {
                if db.seats.contains_key(seat_id) && db.seats[seat_id].status == SeatStatus::Free {
                    (
                        self.with_db(
                            db.with_seat(
                                seat_id,
                                SeatRow {
                                    status: SeatStatus::Reserved,
                                    booking_id: Some(booking_id),
                                    ..db.seats[seat_id]
                                },
                            ),
                        ),
                        Reply::Rows(1),
                    )
                } else {
                    (self, Reply::Rows(0))
                }
            },
            Command::FreeSeat { seat_id } => {
                if db.seats.contains_key(seat_id) && db.seats[seat_id].status == SeatStatus::Reserved {
                    (
                        self.with_db(
                            db.with_seat(
                                seat_id,
                                SeatRow {
                                    status: SeatStatus::Free,
                                    booking_id: None,
                                    ..db.seats[seat_id]
                                },
                            ),
                        ),
                        Reply::Rows(1),
                    )
                } else {
                    (self, Reply::Rows(0))
                }
            },
            Command::BookingSummary { booking_id, user_id } => (
                self,
                Reply::Summary(db.summary(booking_id, user_id)),
            ),
            Command::LatestPayment { booking_id, user_id } => (
                self,
                Reply::Payment(db.latest_payment(booking_id, user_id)),
            ),
            Command::FindPaymentBooking => (
                self,
                if db.payments.contains_key(payment) && db.bookings.contains_key(
                    db.payments[payment].booking_id,
                ) {
                    Reply::Owner(
                        Some(
                            Owner {
                                booking_id: db.payments[payment].booking_id,
                                event_id: db.bookings[db.payments[payment].booking_id].event_id,
                            },
                        ),
                    )
                } else {
                    Reply::Owner(None)
                },
            ),
            Command::Begin => (World { saved: Some(db), ..self }, Reply::Done),
            Command::Commit => (World { saved: None, ..self }, Reply::Done),
            Command::Rollback => (
                World {
                    db: match self.saved {
                        Some(before) => before,
                        None => db,
                    },
                    saved: None,
                    ..self
                },
                Reply::Done,
            ),
            Command::FreeBookingSeats { booking_id } => (
                World {
                    db: db.with_seats(db.reserved_on(booking_id), SeatStatus::Free, false),
                    returned: db.reserved_on(booking_id),
                    ..self
                },
                Self::touched(db.reserved_on(booking_id).len()),
            ),
            Command::SellBookingSeats { booking_id } => (
                World {
                    db: db.with_seats(db.reserved_on(booking_id), SeatStatus::Sold, true),
                    returned: db.reserved_on(booking_id),
                    ..self
                },
                Self::touched(db.reserved_on(booking_id).len()),
            ),
            Command::SetBookingStatus { booking_id, status } => {
                if db.bookings.contains_key(booking_id) {
                    (
                        self.with_db(
                            db.with_booking(booking_id, BookingRow { status, ..db.bookings[booking_id] }),
                        ),
                        Reply::Rows(1),
                    )
                } else {
                    (self, Reply::Rows(0))
                }
            },
            Command::CancelBooking { booking_id } => {
                if db.bookings.contains_key(booking_id) && db.bookings[booking_id].status
                    != BookingStatus::Paid {
                    (
                        self.with_db(
                            db.with_booking(
                                booking_id,
                                BookingRow { status: BookingStatus::Cancelled, ..db.bookings[booking_id] },
                            ),
                        ),
                        Reply::Rows(1),
                    )
                } else {
                    (self, Reply::Rows(0))
                }
            },
            Command::DeleteBooking { booking_id } => {
                if db.bookings.contains_key(booking_id) {
                    (self.with_db(db.without_booking(booking_id)), Reply::Rows(1))
                } else {
                    (self, Reply::Rows(0))
                }
            },
            Command::DeleteCreatedBooking { booking_id } => {
                if db.bookings.contains_key(booking_id) && db.bookings[booking_id].status
                    == BookingStatus::Created {
                    (self.with_db(db.without_booking(booking_id)), Reply::Rows(1))
                } else {
                    (self, Reply::Rows(0))
                }
            },
            Command::MarkPayment { status } => {
                if db.payments.contains_key(payment) {
                    (
                        self.with_db(
                            db.with_payment(payment, PaymentRow { status, ..db.payments[payment] }),
                        ),
                        Reply::Rows(1),
                    )
                } else {
                    (self, Reply::Rows(0))
                }
            },
            Command::RecordPayment { booking_id, amount_minor } => (
                self.with_db(
                    Db {
                        next_payment: db.next_payment + 1,
                        ..db.with_payment(
                            payment,
                            PaymentRow {
                                booking_id,
                                status: PaymentStatus::Pending,
                                amount_minor,
                                created: db.next_payment,
                            },
                        )
                    },
                ),
                Reply::Rows(1),
            ),
            Command::ListBookingEvents => (
                World { listed: db.booking_events(), ..self },
                Reply::Count(db.booking_events().len() as u64),
            ),
            Command::ResetSeats => (
                self.with_db(db.with_seats(db.taken(), SeatStatus::Free, false)),
                Self::touched(db.taken().len()),
            ),
            Command::DeleteAllPayments => (
                self.with_db(Db { payments: Map::empty(), ..db }),
                Self::touched(db.payments.dom().len()),
            ),
            Command::DeleteAllBookings => (
                self.with_db(Db { bookings: Map::empty(), ..db }),
                Self::touched(db.bookings.dom().len()),
            ),
            Command::RestartBookingIds => (self.with_db(Db { next_booking_id: 1, ..db }), Reply::Done),
            Command::LockSeat { seat_id, user_id } => {
                if self.locks.contains_key(seat_id) {
                    (self, Reply::Flag(false))
                } else {
                    (World { locks: self.locks.insert(seat_id, user_id), ..self }, Reply::Flag(true))
                }
            },
            Command::UnlockSeat { seat_id } => (
                World { locks: self.locks.remove(seat_id), ..self },
                Reply::Done,
            ),
            Command::UnlockReturnedSeats => (
                World { locks: self.locks.remove_keys(self.returned), ..self },
                Reply::Done,
            ),
            Command::InvalidateSeats { event_id } => (
                World { caches: self.caches.remove(event_id), ..self },
                Reply::Done,
            ),
            Command::InvalidateListedEvents => (
                World { caches: self.caches.difference(self.listed), ..self },
                Reply::Done,
            ),
            Command::PurgeLocks => (
                World { locks: Map::empty(), ..self },
                Reply::Count(self.locks.dom().len() as u64),
            ),
            Command::PurgeSeatCaches => (
                World { caches: Set::empty(), ..self },
                Reply::Count(self.caches.len() as u64),
            ),
            Command::GatewayInit { .. } => (self, Reply::Failed),
            Command::GatewayCheck => (self, Reply::Failed),
            Command::GatewayConfirm => (self, Reply::Failed),
            Command::Finish(_) => (self, Reply::Done),
        }
    }

    /// Whether the world is consistent, now and in what a rollback would
    /// bring back.
    pub open spec fn consistent(self) -> bool {
        &&& self.db.consistent()
        &&& self.saved is Some ==> self.saved->0.consistent()
    }
}

/// Whether every seat has moved along an edge of the life cycle or is
/// where it was, and no seat is gone.
pub open spec fn seats_move_along_edges(before: World, after: World) -> bool {
    forall|s: i64| #[trigger]
        before.db.seats.contains_key(s) ==> after.db.seats.contains_key(s) && (
        after.db.seats[s].status == before.db.seats[s].status || seat_step_allowed(
            before.db.seats[s].status,
            after.db.seats[s].status,
        ))
}

} // verus!
