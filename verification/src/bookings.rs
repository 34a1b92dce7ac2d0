//! Creating and cancelling a booking.

use std::collections::BTreeMap;
use vstd::prelude::*;
use vstd::std_specs::cmp::OrdSpec;
use crate::machine::Machine;
use crate::protocol::{
    Command, Message, Outcome, Reply, HTTP_BAD_REQUEST, HTTP_CONFLICT, HTTP_FORBIDDEN, HTTP_INTERNAL,
    HTTP_SEAT_CONFLICT,
};

verus! {

broadcast use vstd::std_specs::btree::group_btree_axioms;

/// Widens a user id to the width the durable store keeps it in.
pub fn user_user_id_to_i64(user_id: i32) -> (wide: i64)
    ensures
        wide == user_id,
{
    user_id as i64
}

/// Where the creation of a booking stands.
#[derive(Clone, Copy, Debug, PartialEq, Eq, Structural)]
pub enum CreateStage {
    AwaitInsert,
    Finished(Outcome),
}

/// A user opening a booking for an event.
#[derive(Clone, Copy, Debug, PartialEq, Eq, Structural)]
pub struct CreateBooking {
    pub stage: CreateStage,
}

impl CreateBooking {
    /// An event id that is not positive is refused at once; otherwise the
    /// booking is inserted.
    pub open spec fn spec_start(user_id: i32, event_id: i64) -> (CreateBooking, Command) {
        if event_id <= 0 {
            let outcome = Outcome::Rejected {
                status: HTTP_BAD_REQUEST,
                message: Message::EventIdNotPositive,
            };
            (CreateBooking { stage: CreateStage::Finished(outcome) }, Command::Finish(outcome))
        } else {
            (
                CreateBooking { stage: CreateStage::AwaitInsert },
                Command::InsertBooking { event_id, user_id: user_id as i64 },
            )
        }
    }

    /// Begins the creation of a booking.
    pub fn start(user_id: i32, event_id: i64) -> (step: (CreateBooking, Command))
        ensures
            step == Self::spec_start(user_id, event_id),
    {
        if event_id <= 0 {
            let outcome = Outcome::Rejected {
                status: HTTP_BAD_REQUEST,
                message: Message::EventIdNotPositive,
            };
            (CreateBooking { stage: CreateStage::Finished(outcome) }, Command::Finish(outcome))
        } else {
            (
                CreateBooking { stage: CreateStage::AwaitInsert },
                Command::InsertBooking { event_id, user_id: user_user_id_to_i64(user_id) },
            )
        }
    }
}

impl Machine for CreateBooking {
    /// The id the store gave the booking is handed to the caller; a store
    /// that gave none is an internal error.
    open spec fn spec_next(self, reply: Reply) -> (CreateBooking, Command) {
        match self.stage {
            CreateStage::AwaitInsert => {
                let outcome = match reply {
                    Reply::Id(id) => Outcome::Created { id },
                    _ => Outcome::Rejected { status: HTTP_INTERNAL, message: Message::BookingNotCreated },
                };
                (CreateBooking { stage: CreateStage::Finished(outcome) }, Command::Finish(outcome))
            },
            CreateStage::Finished(outcome) => (self, Command::Finish(outcome)),
        }
    }

    open spec fn spec_remaining(self) -> nat {
        match self.stage {
            CreateStage::AwaitInsert => 1,
            CreateStage::Finished(_) => 0,
        }
    }

    proof fn lemma_progress(self, reply: Reply)
    {
    }

    fn next(self, reply: Reply) -> (step: (CreateBooking, Command)) {
        match self.stage {
            CreateStage::AwaitInsert => {
                let outcome = match reply {
                    Reply::Id(id) => Outcome::Created { id },
                    _ => Outcome::Rejected { status: HTTP_INTERNAL, message: Message::BookingNotCreated },
                };
                (CreateBooking { stage: CreateStage::Finished(outcome) }, Command::Finish(outcome))
            },
            CreateStage::Finished(outcome) => (self, Command::Finish(outcome)),
        }
    }
}

/// Where a cancellation stands.
#[derive(Clone, Copy, Debug, PartialEq, Eq, Structural)]
pub enum CancelStage {
    AwaitOwner,
    AwaitEvent,
    AwaitBegin,
    AwaitFree,
    AwaitCancel,
    AwaitCommit,
    AwaitUnlock,
    AwaitInvalidate,
    AwaitRollback(Outcome),
    Finished(Outcome),
}

/// A user cancelling a booking that is not paid.
#[derive(Clone, Copy, Debug, PartialEq, Eq, Structural)]
pub struct CancelBooking {
    pub stage: CancelStage,
    pub user_id: i64,
    pub booking_id: i64,
    pub event_id: i64,
}

impl CancelBooking {
    /// The machine at another stage.
    pub open spec fn at(self, stage: CancelStage) -> CancelBooking {
        CancelBooking { stage, ..self }
    }

    /// The step that ends the operation with an outcome.
    pub open spec fn finished(self, outcome: Outcome) -> (CancelBooking, Command) {
        (self.at(CancelStage::Finished(outcome)), Command::Finish(outcome))
    }

    /// The step that ends the operation with a refusal.
    pub open spec fn refused(self, status: u16, message: Message) -> (CancelBooking, Command) {
        self.finished(Outcome::Rejected { status, message })
    }

    /// The step that abandons the open transaction; the refusal follows.
    pub open spec fn undone(self, status: u16, message: Message) -> (CancelBooking, Command) {
        (self.at(CancelStage::AwaitRollback(Outcome::Rejected { status, message })), Command::Rollback)
    }

    /// A booking id that is not positive is refused at once; otherwise the
    /// first question is whether the booking is the user's.
    pub open spec fn spec_start(user_id: i32, booking_id: i64) -> (CancelBooking, Command) {
        let fresh = CancelBooking {
            stage: CancelStage::AwaitOwner,
            user_id: user_id as i64,
            booking_id,
            event_id: 0,
        };
        if booking_id <= 0 {
            fresh.refused(HTTP_BAD_REQUEST, Message::BookingIdNotPositive)
        } else {
            (fresh, Command::BookingOwned { booking_id, user_id: user_id as i64 })
        }
    }

    /// Begins the cancellation of a booking.
    pub fn start(user_id: i32, booking_id: i64) -> (step: (CancelBooking, Command))
        ensures
            step == Self::spec_start(user_id, booking_id),
    {
        let fresh = CancelBooking {
            stage: CancelStage::AwaitOwner,
            user_id: user_id as i64,
            booking_id,
            event_id: 0,
        };
        if booking_id <= 0 {
            fresh.refuse(HTTP_BAD_REQUEST, Message::BookingIdNotPositive)
        } else {
            (fresh, Command::BookingOwned { booking_id, user_id: user_id as i64 })
        }
    }

    fn go(self, stage: CancelStage, command: Command) -> (step: (CancelBooking, Command))
        ensures
            step == (self.at(stage), command),
    {
        (
            CancelBooking {
                stage,
                user_id: self.user_id,
                booking_id: self.booking_id,
                event_id: self.event_id,
            },
            command,
        )
    }

    fn finish(self, outcome: Outcome) -> (step: (CancelBooking, Command))
        ensures
            step == self.finished(outcome),
    {
        self.go(CancelStage::Finished(outcome), Command::Finish(outcome))
    }

    fn refuse(self, status: u16, message: Message) -> (step: (CancelBooking, Command))
        ensures
            step == self.refused(status, message),
    {
        self.finish(Outcome::Rejected { status, message })
    }

    fn undo(self, status: u16, message: Message) -> (step: (CancelBooking, Command))
        ensures
            step == self.undone(status, message),
    {
        self.go(CancelStage::AwaitRollback(Outcome::Rejected { status, message }), Command::Rollback)
    }
}

impl Machine for CancelBooking {
    /// A booking that is not the user's is forbidden. Inside one
    /// transaction the seats reserved on the booking are freed and the
    /// booking is marked cancelled unless it is paid: a paid booking is a
    /// conflict, and like any failed statement and a failed commit it ends
    /// with the transaction rolled back, so that no seat has changed. Only after the commit the
    /// locks of the freed seats are deleted, then the cached seat list of
    /// the event.
    open spec fn spec_next(self, reply: Reply) -> (CancelBooking, Command) {
        match self.stage {
            CancelStage::AwaitOwner => if reply.spec_yes() {
                (self.at(CancelStage::AwaitEvent), Command::BookingEvent { booking_id: self.booking_id })
            } else {
                self.refused(HTTP_FORBIDDEN, Message::BookingNotYours)
            },
            CancelStage::AwaitEvent => match reply {
                Reply::MaybeId(Some(event_id)) => (
                    CancelBooking { stage: CancelStage::AwaitBegin, event_id, ..self },
                    Command::Begin,
                ),
                Reply::MaybeId(None) => self.refused(HTTP_SEAT_CONFLICT, Message::BookingNotFound),
                _ => self.refused(HTTP_INTERNAL, Message::StoreError),
            },
            CancelStage::AwaitBegin => if reply == Reply::Done {
                (
                    self.at(CancelStage::AwaitFree),
                    Command::FreeBookingSeats { booking_id: self.booking_id },
                )
            } else {
                self.refused(HTTP_INTERNAL, Message::TransactionError)
            },
            CancelStage::AwaitFree => match reply {
                Reply::Rows(_) => (
                    self.at(CancelStage::AwaitCancel),
                    Command::CancelBooking { booking_id: self.booking_id },
                ),
                _ => self.undone(HTTP_INTERNAL, Message::SeatsNotFreed),
            },
            CancelStage::AwaitCancel => match reply {
                Reply::Rows(n) => if n > 0 {
                    (self.at(CancelStage::AwaitCommit), Command::Commit)
                } else {
                    self.undone(HTTP_CONFLICT, Message::BookingAlreadyPaid)
                },
                _ => self.undone(HTTP_INTERNAL, Message::BookingNotCancelled),
            },
            CancelStage::AwaitCommit => if reply == Reply::Done {
                (self.at(CancelStage::AwaitUnlock), Command::UnlockReturnedSeats)
            } else {
                self.undone(HTTP_INTERNAL, Message::CommitError)
            },
            CancelStage::AwaitUnlock => (
                self.at(CancelStage::AwaitInvalidate),
                Command::InvalidateSeats { event_id: self.event_id },
            ),
            CancelStage::AwaitInvalidate => self.finished(Outcome::Done(Message::BookingCancelled)),
            CancelStage::AwaitRollback(outcome) => self.finished(outcome),
            CancelStage::Finished(outcome) => (self, Command::Finish(outcome)),
        }
    }

    open spec fn spec_remaining(self) -> nat {
        match self.stage {
            CancelStage::AwaitOwner => 8,
            CancelStage::AwaitEvent => 7,
            CancelStage::AwaitBegin => 6,
            CancelStage::AwaitFree => 5,
            CancelStage::AwaitCancel => 4,
            CancelStage::AwaitCommit => 3,
            CancelStage::AwaitUnlock => 2,
            CancelStage::AwaitInvalidate => 1,
            CancelStage::AwaitRollback(_) => 1,
            CancelStage::Finished(_) => 0,
        }
    }

    proof fn lemma_progress(self, reply: Reply)
    {
    }

    fn next(self, reply: Reply) -> (step: (CancelBooking, Command)) {
        match self.stage {
            CancelStage::AwaitOwner => if reply.yes() {
                self.go(CancelStage::AwaitEvent, Command::BookingEvent { booking_id: self.booking_id })
            } else {
                self.refuse(HTTP_FORBIDDEN, Message::BookingNotYours)
            },
            CancelStage::AwaitEvent => match reply {
                Reply::MaybeId(Some(event_id)) => (
                    CancelBooking {
                        stage: CancelStage::AwaitBegin,
                        user_id: self.user_id,
                        booking_id: self.booking_id,
                        event_id,
                    },
                    Command::Begin,
                ),
                Reply::MaybeId(None) => self.refuse(HTTP_SEAT_CONFLICT, Message::BookingNotFound),
                _ => self.refuse(HTTP_INTERNAL, Message::StoreError),
            },
            CancelStage::AwaitBegin => match reply {
                Reply::Done => self.go(
                    CancelStage::AwaitFree,
                    Command::FreeBookingSeats { booking_id: self.booking_id },
                ),
                _ => self.refuse(HTTP_INTERNAL, Message::TransactionError),
            },
            CancelStage::AwaitFree => match reply {
                Reply::Rows(_) => self.go(
                    CancelStage::AwaitCancel,
                    Command::CancelBooking { booking_id: self.booking_id },
                ),
                _ => self.undo(HTTP_INTERNAL, Message::SeatsNotFreed),
            },
            CancelStage::AwaitCancel => match reply {
                Reply::Rows(n) => if n > 0 {
                    self.go(CancelStage::AwaitCommit, Command::Commit)
                } else {
                    self.undo(HTTP_CONFLICT, Message::BookingAlreadyPaid)
                },
                _ => self.undo(HTTP_INTERNAL, Message::BookingNotCancelled),
            },
            CancelStage::AwaitCommit => match reply {
                Reply::Done => self.go(CancelStage::AwaitUnlock, Command::UnlockReturnedSeats),
                _ => self.undo(HTTP_INTERNAL, Message::CommitError),
            },
            CancelStage::AwaitUnlock => self.go(
                CancelStage::AwaitInvalidate,
                Command::InvalidateSeats { event_id: self.event_id },
            ),
            CancelStage::AwaitInvalidate => self.finish(Outcome::Done(Message::BookingCancelled)),
            CancelStage::AwaitRollback(outcome) => self.finish(outcome),
            CancelStage::Finished(outcome) => (self, Command::Finish(outcome)),
        }
    }
}

/// One row of the list of a user's bookings as the durable store delivers
/// it: a booking with its event, and one of its seats if it has any.
#[derive(Clone, Copy, Debug, PartialEq, Eq, Structural)]
pub struct BookingSeatRow {
    pub booking_id: i64,
    pub event_id: i64,
    pub seat_id: Option<i64>,
}

/// A booking with its seats, as it is served to its user.
#[derive(Debug, Clone)]
pub struct BookingResponse {
    pub id: i64,
    pub event_id: i64,
    pub seats: Vec<i64>,
}

/// Whether any row is about the booking.
pub open spec fn mentions(rows: Seq<BookingSeatRow>, booking_id: i64) -> bool {
    exists|k: int| 0 <= k < rows.len() && (#[trigger] rows[k]).booking_id == booking_id
}

/// The seats of a booking: the seats of the rows about it, in their order.
pub open spec fn seats_of(rows: Seq<BookingSeatRow>, booking_id: i64) -> Seq<i64>
    decreases rows.len(),
{
    if rows.len() == 0 {
        Seq::empty()
    } else {
        let before = seats_of(rows.drop_last(), booking_id);
        if rows.last().booking_id == booking_id && rows.last().seat_id is Some {
            before.push(rows.last().seat_id->0)
        } else {
            before
        }
    }
}

/// The event of a booking: the event of the first row about it.
pub open spec fn event_of(rows: Seq<BookingSeatRow>, booking_id: i64) -> i64
    decreases rows.len(),
{
    if rows.len() == 0 {
        0
    } else if mentions(rows.drop_last(), booking_id) {
        event_of(rows.drop_last(), booking_id)
    } else {
        rows.last().event_id
    }
}

/// What a list says of one booking: that rows are about it, its event and
/// its seats.
pub open spec fn entry_fits(entry: BookingResponse, rows: Seq<BookingSeatRow>) -> bool {
    &&& mentions(rows, entry.id)
    &&& entry.event_id == event_of(rows, entry.id)
    &&& entry.seats@ == seats_of(rows, entry.id)
}

/// Whether the bookings stand by rising id, each once.
pub open spec fn rising(bookings: Seq<BookingResponse>) -> bool {
    forall|i: int, j: int|
        0 <= i < j < bookings.len() ==> (#[trigger] bookings[i]).id < (#[trigger] bookings[j]).id
}

/// Whether every entry says of its booking what the rows say.
pub open spec fn all_fit(bookings: Seq<BookingResponse>, rows: Seq<BookingSeatRow>) -> bool {
    forall|i: int| 0 <= i < bookings.len() ==> entry_fits(#[trigger] bookings[i], rows)
}

/// Whether the booking has an entry.
pub open spec fn listed(bookings: Seq<BookingResponse>, booking_id: i64) -> bool {
    exists|i: int| 0 <= i < bookings.len() && (#[trigger] bookings[i]).id == booking_id
}

/// Whether every booking that a row is about has an entry.
pub open spec fn all_listed(bookings: Seq<BookingResponse>, rows: Seq<BookingSeatRow>) -> bool {
    forall|k: int| 0 <= k < rows.len() ==> listed(bookings, (#[trigger] rows[k]).booking_id)
}

/// Whether `bookings` is the list of the bookings that `rows` are about:
/// every booking once, by rising id, each with its event and its seats.
pub open spec fn grouped(bookings: Seq<BookingResponse>, rows: Seq<BookingSeatRow>) -> bool {
    &&& rising(bookings)
    &&& all_fit(bookings, rows)
    &&& all_listed(bookings, rows)
}

proof fn lemma_unmentioned_has_no_seats(rows: Seq<BookingSeatRow>, booking_id: i64)
    requires
        !mentions(rows, booking_id),
    ensures
        seats_of(rows, booking_id) == Seq::<i64>::empty(),
    decreases rows.len(),
{
    if rows.len() > 0 {
        assert(rows[rows.len() - 1].booking_id != booking_id);
        assert forall|k: int| 0 <= k < rows.drop_last().len() implies (#[trigger] rows.drop_last()[k]).booking_id
            != booking_id by {
            assert(rows.drop_last()[k] == rows[k]);
        }
        lemma_unmentioned_has_no_seats(rows.drop_last(), booking_id);
    }
}

proof fn lemma_mentions_push(rows: Seq<BookingSeatRow>, row: BookingSeatRow, booking_id: i64)
    ensures
        mentions(rows.push(row), booking_id) <==> mentions(rows, booking_id) || row.booking_id
            == booking_id,
{
    let more = rows.push(row);
    if mentions(rows, booking_id) {
        let k = choose|k: int| 0 <= k < rows.len() && (#[trigger] rows[k]).booking_id == booking_id;
        assert(more[k].booking_id == booking_id);
    }
    if row.booking_id == booking_id {
        assert(more[rows.len() as int].booking_id == booking_id);
    }
    if mentions(more, booking_id) {
        let k = choose|k: int| 0 <= k < more.len() && (#[trigger] more[k]).booking_id == booking_id;
        if k < rows.len() {
            assert(rows[k].booking_id == booking_id);
        }
    }
}

proof fn lemma_entry_untouched(entry: BookingResponse, rows: Seq<BookingSeatRow>, row: BookingSeatRow)
    requires
        entry_fits(entry, rows),
        entry.id != row.booking_id,
    ensures
        entry_fits(entry, rows.push(row)),
{
    let more = rows.push(row);
    assert(more.drop_last() =~= rows);
    lemma_mentions_push(rows, row, entry.id);
}

proof fn lemma_entry_extended(
    entry: BookingResponse,
    longer: BookingResponse,
    rows: Seq<BookingSeatRow>,
    row: BookingSeatRow,
)
    requires
        entry_fits(entry, rows),
        entry.id == row.booking_id,
        longer.id == entry.id,
        longer.event_id == entry.event_id,
        longer.seats@ == match row.seat_id {
            Some(seat_id) => entry.seats@.push(seat_id),
            None => entry.seats@,
        },
    ensures
        entry_fits(longer, rows.push(row)),
{
    let more = rows.push(row);
    assert(more.drop_last() =~= rows);
    lemma_mentions_push(rows, row, entry.id);
}

proof fn lemma_entry_new(entry: BookingResponse, rows: Seq<BookingSeatRow>, row: BookingSeatRow)
    requires
        !mentions(rows, row.booking_id),
        entry.id == row.booking_id,
        entry.event_id == row.event_id,
        entry.seats@ == match row.seat_id {
            Some(seat_id) => seq![seat_id],
            None => Seq::empty(),
        },
    ensures
        entry_fits(entry, rows.push(row)),
{
    let more = rows.push(row);
    assert(more.drop_last() =~= rows);
    lemma_mentions_push(rows, row, entry.id);
    lemma_unmentioned_has_no_seats(rows, row.booking_id);
    if row.seat_id is Some {
        assert(Seq::<i64>::empty().push(row.seat_id->0) =~= seq![row.seat_id->0]);
    }
}

proof fn lemma_keys_rise(keys: Seq<i64>, i: int, j: int)
    requires
        vstd::std_specs::btree::increasing_seq(keys),
        0 <= i < j < keys.len(),
    ensures
        keys[i] < keys[j],
{
    broadcast use vstd::laws_cmp::group_laws_cmp;
    assert(vstd::laws_cmp::obeys_cmp::<i64>());
    vstd::std_specs::btree::axiom_increasing_seq_meaning::<i64>(keys);
    assert(keys[i].cmp_spec(&keys[j]) is Less);
}

/// Whether a map holds, under the id of each booking that `rows` are about,
/// what the rows say of the booking, and nothing else.
spec fn collected(map: Map<i64, BookingResponse>, rows: Seq<BookingSeatRow>) -> bool {
    &&& forall|b: i64| #[trigger]
        map.contains_key(b) ==> map[b].id == b && entry_fits(map[b], rows)
    &&& forall|k: int| 0 <= k < rows.len() ==> map.contains_key((#[trigger] rows[k]).booking_id)
}

proof fn lemma_collected_push(
    before: Map<i64, BookingResponse>,
    after: Map<i64, BookingResponse>,
    rows: Seq<BookingSeatRow>,
    row: BookingSeatRow,
)
    requires
        collected(before, rows),
        after.dom() == before.dom().insert(row.booking_id),
        forall|b: i64| b != row.booking_id && before.contains_key(b) ==> #[trigger] after[b] == before[b],
        after[row.booking_id].id == row.booking_id,
        before.contains_key(row.booking_id) ==> {
            &&& after[row.booking_id].event_id == before[row.booking_id].event_id
            &&& after[row.booking_id].seats@ == match row.seat_id {
                Some(seat_id) => before[row.booking_id].seats@.push(seat_id),
                None => before[row.booking_id].seats@,
            }
        },
        !before.contains_key(row.booking_id) ==> {
            &&& after[row.booking_id].event_id == row.event_id
            &&& after[row.booking_id].seats@ == match row.seat_id {
                Some(seat_id) => seq![seat_id],
                None => Seq::empty(),
            }
        },
    ensures
        collected(after, rows.push(row)),
{
    let more = rows.push(row);
    let key = row.booking_id;
    assert forall|b: i64| #[trigger] after.contains_key(b) implies after[b].id == b && entry_fits(
        after[b],
        more,
    ) by {
        if b != key {
            assert(before.contains_key(b));
            lemma_entry_untouched(before[b], rows, row);
        } else if before.contains_key(key) {
            lemma_entry_extended(before[key], after[key], rows, row);
        } else {
            if mentions(rows, key) {
                let k = choose|k: int| 0 <= k < rows.len() && (#[trigger] rows[k]).booking_id == key;
                assert(before.contains_key(rows[k].booking_id));
            }
            lemma_entry_new(after[key], rows, row);
        }
    }
    assert forall|k: int| 0 <= k < more.len() implies after.contains_key(
        (#[trigger] more[k]).booking_id,
    ) by {
        if k < rows.len() {
            assert(more[k] == rows[k]);
            assert(before.contains_key(rows[k].booking_id));
        }
    }
}

/// Collects the rows of a user's bookings into a map from the id of a
/// booking to the booking with its seats.
fn collect_bookings(rows: &Vec<BookingSeatRow>) -> (map: BTreeMap<i64, BookingResponse>)
    ensures
        collected(map@, rows@),
{
    let mut map: BTreeMap<i64, BookingResponse> = BTreeMap::new();
    let mut n: usize = 0;
    while n < rows.len()
        invariant
            n <= rows.len(),
            collected(map@, rows@.take(n as int)),
        decreases rows.len() - n,
    {
        let row = rows[n];
        let ghost before = map@;
        proof {
            assert(rows@.take(n + 1) =~= rows@.take(n as int).push(row));
        }
        let entry = match map.remove(&row.booking_id) {
            Some(found) => {
                let mut entry = found;
                if let Some(seat_id) = row.seat_id {
                    entry.seats.push(seat_id);
                }
                entry
            },
            None => {
                let mut seats: Vec<i64> = Vec::new();
                if let Some(seat_id) = row.seat_id {
                    seats.push(seat_id);
                }
                proof {
                    if row.seat_id is Some {
                        assert(seats@ =~= seq![row.seat_id->0]);
                    }
                }
                BookingResponse { id: row.booking_id, event_id: row.event_id, seats }
            },
        };
        map.insert(row.booking_id, entry);
        proof {
            assert(map@.dom() =~= before.dom().insert(row.booking_id));
            lemma_collected_push(before, map@, rows@.take(n as int), row);
        }
        n = n + 1;
    }
    proof {
        assert(rows@.take(n as int) =~= rows@);
    }
    map
}

/// Groups the rows of a user's bookings: one entry for each booking, by
/// rising id, with the event of its first row and the seats of its rows in
/// their order.
pub fn group_bookings(rows: &Vec<BookingSeatRow>) -> (bookings: Vec<BookingResponse>)
    ensures
        grouped(bookings@, rows@),
{
    let map = collect_bookings(rows);
    let mut bookings: Vec<BookingResponse> = Vec::new();
    for pair in it: map.iter()
        invariant
            collected(map@, rows@),
            bookings@.len() == it.index(),
            vstd::std_specs::btree::increasing_seq(
                it.seq().map_values(|kv: (&i64, &BookingResponse)| *kv.0),
            ),
            forall|i: int| 0 <= i < it.seq().len() ==> map@.contains_key(*(#[trigger] it.seq()[i]).0)
                && map@[*it.seq()[i].0] == *it.seq()[i].1,
            forall|b: i64| #[trigger]
                map@.contains_key(b) ==> listed(bookings@, b) || exists|i: int|
                    it.index() <= i < it.seq().len() && *(#[trigger] it.seq()[i]).0 == b,
            forall|i: int| 0 <= i < bookings@.len() ==> (#[trigger] bookings@[i]).id == *it.seq()[i].0,
            rising(bookings@),
            all_fit(bookings@, rows@),
    {
        proof {
            let keys = it.seq().map_values(|kv: (&i64, &BookingResponse)| *kv.0);
            let n = bookings@.len() as int;
            assert(it.seq()[n] == pair);
            assert forall|i: int| 0 <= i < n implies (#[trigger] bookings@[i]).id < *pair.0 by {
                assert(keys[i] == bookings@[i].id);
                assert(keys[n] == *pair.0);
                lemma_keys_rise(keys, i, n);
            }
            assert(map@.contains_key(*it.seq()[n].0));
        }
        let ghost before = bookings@;
        bookings.push(
            BookingResponse { id: *pair.0, event_id: pair.1.event_id, seats: pair.1.seats.clone() },
        );
        proof {
            let n = before.len() as int;
            assert forall|b: i64| #[trigger] map@.contains_key(b) implies listed(bookings@, b)
                || exists|i: int|
                n + 1 <= i < it.seq().len() && *(#[trigger] it.seq()[i]).0 == b by {
                if listed(before, b) {
                    let j = choose|j: int| 0 <= j < before.len() && (#[trigger] before[j]).id == b;
                    assert(bookings@[j] == before[j]);
                } else {
                    let i = choose|i: int|
                        n <= i < it.seq().len() && *(#[trigger] it.seq()[i]).0 == b;
                    if i == n {
                        assert(bookings@[n].id == b);
                    }
                }
            }
        }
    }
    proof {
        assert forall|k: int| 0 <= k < rows@.len() implies listed(
            bookings@,
            (#[trigger] rows@[k]).booking_id,
        ) by {
            assert(map@.contains_key(rows@[k].booking_id));
        }
    }
    bookings
}

} // verus!
