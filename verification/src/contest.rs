//! Many users reaching for one seat at once.
//!
//! Each contender runs the machine that selects a seat; their commands
//! reach the outside world one at a time, in any order. However they are
//! interleaved, one contender at most gets the seat: exactly one where
//! nothing fails, and never more than one where calls fail and locks run
//! out in between.

use vstd::prelude::*;
use crate::machine::Machine;
use crate::protocol::{Command, Message, Outcome, Reply, HTTP_SEAT_CONFLICT};
use crate::seats::{SelectSeat, SelectStage};
use crate::status::SeatStatus;
use crate::world::World;

verus! {

/// A contender: a selection in progress with the command it has handed out.
pub struct Contender {
    pub machine: SelectSeat,
    pub command: Command,
}

/// The contenders as they enter: contender `i` is user `users[i]` with
/// booking `bookings[i]`, and all want the same seat.
pub open spec fn entered(seat_id: i64, users: Seq<i32>, bookings: Seq<i64>) -> Seq<Contender> {
    Seq::new(
        users.len(),
        |i: int|
            {
                let start = SelectSeat::spec_start(users[i], bookings[i], seat_id);
                Contender { machine: start.0, command: start.1 }
            },
    )
}

/// One move: the command of contender `who` reaches the world, and the
/// contender takes the reply. A contender that has finished, or a number
/// that names none, moves nothing.
pub open spec fn contest_step(world: World, contenders: Seq<Contender>, who: int) -> (
    World,
    Seq<Contender>,
) {
    if 0 <= who < contenders.len() && !(contenders[who].command is Finish) {
        let (after, reply) = world.apply(Seq::empty(), contenders[who].command);
        let next = contenders[who].machine.spec_next(reply);
        (after, contenders.update(who, Contender { machine: next.0, command: next.1 }))
    } else {
        (world, contenders)
    }
}

/// The contest after the moves that a schedule names, in its order.
pub open spec fn contest(world: World, contenders: Seq<Contender>, schedule: Seq<int>) -> (
    World,
    Seq<Contender>,
)
    decreases schedule.len(),
{
    if schedule.len() == 0 {
        (world, contenders)
    } else {
        let before = contest(world, contenders, schedule.drop_last());
        contest_step(before.0, before.1, schedule.last())
    }
}

/// Whether a contender was turned away with a seat conflict and the word
/// that the seat is already reserved.
pub open spec fn turned_away(contender: Contender) -> bool {
    contender.machine.stage == SelectStage::Finished(
        Outcome::Rejected { status: HTTP_SEAT_CONFLICT, message: Message::SeatAlreadyReserved },
    )
}

/// Whether two worlds differ in nothing but one seat and its lock: they
/// hold the same bookings, the same other seats and the same other locks.
pub open spec fn unchanged_elsewhere(before: World, after: World, seat_id: i64) -> bool {
    &&& after.db.bookings == before.db.bookings
    &&& after.db.seats.remove(seat_id) == before.db.seats.remove(seat_id)
    &&& after.locks.remove(seat_id) == before.locks.remove(seat_id)
}

/// Whether a contender holds the command that goes with its stage.
spec fn wired(contender: Contender) -> bool {
    let m = contender.machine;
    match m.stage {
        SelectStage::AwaitOwner => contender.command == Command::BookingOwned {
            booking_id: m.booking_id,
            user_id: m.user_id,
        },
        SelectStage::AwaitLock => contender.command == Command::LockSeat {
            seat_id: m.seat_id,
            user_id: m.user_id,
        },
        SelectStage::AwaitReserve => contender.command == Command::ReserveSeat {
            seat_id: m.seat_id,
            booking_id: m.booking_id,
        },
        SelectStage::AwaitEvent => contender.command == Command::SeatEvent { seat_id: m.seat_id },
        SelectStage::AwaitInvalidate => contender.command is InvalidateSeats,
        SelectStage::AwaitUnlock => false,
        SelectStage::Finished(outcome) => contender.command == Command::Finish(outcome),
    }
}

/// Whether a contender has not reached for the lock yet, or was turned away.
spec fn outside(contender: Contender) -> bool {
    contender.machine.stage == SelectStage::AwaitOwner || contender.machine.stage
        == SelectStage::AwaitLock || turned_away(contender)
}

/// What stays as it was throughout a contest: the bookings, every other
/// seat, every other lock, and who the contenders are.
spec fn framed(
    origin: World,
    seat_id: i64,
    users: Seq<i32>,
    bookings: Seq<i64>,
    world: World,
    contenders: Seq<Contender>,
) -> bool {
    &&& contenders.len() == users.len()
    &&& world.db.seats.contains_key(seat_id)
    &&& unchanged_elsewhere(origin, world, seat_id)
    &&& forall|i: int|
        0 <= i < contenders.len() ==> {
            let m = (#[trigger] contenders[i]).machine;
            &&& m.user_id == users[i] as i64
            &&& m.booking_id == bookings[i]
            &&& m.seat_id == seat_id
            &&& wired(contenders[i])
        }
}

/// Nobody holds the lock: the seat is free and every contender is still
/// outside.
spec fn open_contest(seat_id: i64, world: World, contenders: Seq<Contender>) -> bool {
    &&& !world.locks.contains_key(seat_id)
    &&& world.db.seats[seat_id].status == SeatStatus::Free
    &&& forall|i: int|
        0 <= i < contenders.len() ==> (#[trigger] contenders[i]).machine.stage
            == SelectStage::AwaitOwner || contenders[i].machine.stage == SelectStage::AwaitLock
}

/// Contender `holder` holds the lock: it is about to reserve the free
/// seat, or has reserved it; every other contender is outside.
spec fn decided(seat_id: i64, world: World, contenders: Seq<Contender>, holder: int) -> bool {
    let h = contenders[holder].machine;
    &&& 0 <= holder < contenders.len()
    &&& world.locks.contains_key(seat_id)
    &&& world.locks[seat_id] == h.user_id
    &&& if h.stage == SelectStage::AwaitReserve {
        world.db.seats[seat_id].status == SeatStatus::Free
    } else {
        &&& h.stage == SelectStage::AwaitEvent || h.stage == SelectStage::AwaitInvalidate
            || h.succeeded()
        &&& world.db.seats[seat_id].status == SeatStatus::Reserved
        &&& world.db.seats[seat_id].booking_id == Some(h.booking_id)
    }
    &&& forall|i: int| 0 <= i < contenders.len() && i != holder ==> outside(#[trigger] contenders[i])
}

proof fn lemma_contest_step(
    origin: World,
    seat_id: i64,
    users: Seq<i32>,
    bookings: Seq<i64>,
    world: World,
    contenders: Seq<Contender>,
    who: int,
    holder: Option<int>,
) -> (still: Option<int>)
    requires
        users.len() == bookings.len(),
        forall|i: int| 0 <= i < users.len() ==> origin.db.owns(users[i] as i64, #[trigger] bookings[i]),
        framed(origin, seat_id, users, bookings, world, contenders),
        match holder {
            Some(h) => decided(seat_id, world, contenders, h),
            None => open_contest(seat_id, world, contenders),
        },
    ensures
        ({
            let after = contest_step(world, contenders, who);
            &&& framed(origin, seat_id, users, bookings, after.0, after.1)
            &&& match still {
                Some(h) => decided(seat_id, after.0, after.1, h),
                None => open_contest(seat_id, after.0, after.1),
            }
        }),
{
    let after = contest_step(world, contenders, who);
    if 0 <= who < contenders.len() && !(contenders[who].command is Finish) {
        let mover = contenders[who];
        assert(wired(mover));
        assert(origin.db.owns(users[who] as i64, bookings[who]));
        let still = match mover.machine.stage {
            SelectStage::AwaitLock => if holder is None {
                Some(who)
            } else {
                holder
            },
            _ => holder,
        };
        if let Some(h) = holder {
            if who != h {
                assert(outside(contenders[who]));
            }
        }
        assert(after.0.db.seats.remove(seat_id) =~= world.db.seats.remove(seat_id));
        assert(after.0.locks.remove(seat_id) =~= world.locks.remove(seat_id));
        assert(after.0.db.bookings == world.db.bookings);
        assert(after.0.db.seats.contains_key(seat_id));
        assert forall|i: int| 0 <= i < after.1.len() implies {
            let m = (#[trigger] after.1[i]).machine;
            &&& m.user_id == users[i] as i64
            &&& m.booking_id == bookings[i]
            &&& m.seat_id == seat_id
            &&& wired(after.1[i])
        } by {
            if i != who {
                assert(after.1[i] == contenders[i]);
            }
        }
        match still {
            Some(h) => {
                assert forall|i: int| 0 <= i < after.1.len() && i != h implies outside(
                    #[trigger] after.1[i],
                ) by {
                    if i != who {
                        assert(after.1[i] == contenders[i]);
                        if holder is None {
                            assert(contenders[i].machine.stage == SelectStage::AwaitOwner
                                || contenders[i].machine.stage == SelectStage::AwaitLock);
                        }
                    }
                }
                assert(decided(seat_id, after.0, after.1, h));
            },
            None => {
                assert forall|i: int| 0 <= i < after.1.len() implies (#[trigger] after.1[i]).machine.stage
                    == SelectStage::AwaitOwner || after.1[i].machine.stage
                    == SelectStage::AwaitLock by {
                    if i != who {
                        assert(after.1[i] == contenders[i]);
                    }
                }
            },
        }
        still
    } else {
        holder
    }
}

proof fn lemma_contest_holds(
    origin: World,
    seat_id: i64,
    users: Seq<i32>,
    bookings: Seq<i64>,
    schedule: Seq<int>,
) -> (holder: Option<int>)
    requires
        users.len() == bookings.len(),
        seat_id > 0,
        forall|i: int|
            0 <= i < users.len() ==> #[trigger] bookings[i] > 0 && origin.db.owns(
                users[i] as i64,
                bookings[i],
            ),
        origin.db.seats.contains_key(seat_id),
        origin.db.seats[seat_id].status == SeatStatus::Free,
        !origin.locks.contains_key(seat_id),
    ensures
        ({
            let end = contest(origin, entered(seat_id, users, bookings), schedule);
            &&& framed(origin, seat_id, users, bookings, end.0, end.1)
            &&& match holder {
                Some(h) => decided(seat_id, end.0, end.1, h),
                None => open_contest(seat_id, end.0, end.1),
            }
        }),
    decreases schedule.len(),
{
    if schedule.len() == 0 {
        let cs = entered(seat_id, users, bookings);
        assert forall|i: int| 0 <= i < cs.len() implies {
            let m = (#[trigger] cs[i]).machine;
            &&& m.user_id == users[i] as i64
            &&& m.booking_id == bookings[i]
            &&& m.seat_id == seat_id
            &&& wired(cs[i])
            &&& m.stage == SelectStage::AwaitOwner
        } by {
            assert(bookings[i] > 0);
        }
        None
    } else {
        let holder = lemma_contest_holds(origin, seat_id, users, bookings, schedule.drop_last());
        let before = contest(origin, entered(seat_id, users, bookings), schedule.drop_last());
        assert forall|i: int| 0 <= i < users.len() implies origin.db.owns(
            users[i] as i64,
            #[trigger] bookings[i],
        ) by {
            assert(bookings[i] > 0);
        }
        lemma_contest_step(origin, seat_id, users, bookings, before.0, before.1, schedule.last(), holder)
    }
}

/// No double sale. Any number of users reach for one free, unlocked seat,
/// each with a booking of their own; their commands reach the outside
/// world in any order whatever. Then at no time has more than one of them
/// been told that the seat was added. Once all of them have their answer,
/// exactly one has the seat and every other one was turned away with a seat
/// conflict and the word that the seat is already reserved; the seat is
/// reserved for the winner's booking, its lock stands in the winner's name,
/// and no other seat or lock has changed.
pub proof fn lemma_no_double_sale(
    world: World,
    seat_id: i64,
    users: Seq<i32>,
    bookings: Seq<i64>,
    schedule: Seq<int>,
)
    requires
        users.len() == bookings.len(),
        seat_id > 0,
        forall|i: int|
            0 <= i < users.len() ==> #[trigger] bookings[i] > 0 && world.db.owns(
                users[i] as i64,
                bookings[i],
            ),
        world.db.seats.contains_key(seat_id),
        world.db.seats[seat_id].status == SeatStatus::Free,
        !world.locks.contains_key(seat_id),
    ensures
        ({
            let (after, contenders) = contest(world, entered(seat_id, users, bookings), schedule);
            &&& contenders.len() == users.len()
            &&& forall|i: int, j: int|
                0 <= i < contenders.len() && 0 <= j < contenders.len()
                    && (#[trigger] contenders[i]).machine.succeeded()
                    && (#[trigger] contenders[j]).machine.succeeded() ==> i == j
            &&& unchanged_elsewhere(world, after, seat_id)
            &&& users.len() > 0 && (forall|i: int|
                0 <= i < contenders.len() ==> (#[trigger] contenders[i]).machine.is_finished())
                ==> exists|winner: int|
                {
                    &&& 0 <= winner < contenders.len()
                    &&& (#[trigger] contenders[winner]).machine.succeeded()
                    &&& after.db.seats[seat_id].status == SeatStatus::Reserved
                    &&& after.db.seats[seat_id].booking_id == Some(bookings[winner])
                    &&& after.locks.contains_key(seat_id)
                    &&& after.locks[seat_id] == users[winner] as i64
                    &&& forall|i: int|
                        0 <= i < contenders.len() && i != winner ==> turned_away(
                            #[trigger] contenders[i],
                        )
                }
        }),
{
    let holder = lemma_contest_holds(world, seat_id, users, bookings, schedule);
    let end = contest(world, entered(seat_id, users, bookings), schedule);
    let contenders = end.1;
    match holder {
        Some(h) => {
            assert forall|i: int, j: int|
                0 <= i < contenders.len() && 0 <= j < contenders.len()
                    && (#[trigger] contenders[i]).machine.succeeded()
                    && (#[trigger] contenders[j]).machine.succeeded() implies i == j by {
                if i != h {
                    assert(outside(contenders[i]));
                }
                if j != h {
                    assert(outside(contenders[j]));
                }
            }
            if users.len() > 0 && (forall|i: int|
                0 <= i < contenders.len() ==> (#[trigger] contenders[i]).machine.is_finished()) {
                assert(contenders[h].machine.is_finished());
                assert(contenders[h].machine.succeeded());
                assert forall|i: int| 0 <= i < contenders.len() && i != h implies turned_away(
                    #[trigger] contenders[i],
                ) by {
                    assert(outside(contenders[i]));
                    assert(contenders[i].machine.is_finished());
                }
            }
        },
        None => {
            assert forall|i: int, j: int|
                0 <= i < contenders.len() && 0 <= j < contenders.len()
                    && (#[trigger] contenders[i]).machine.succeeded()
                    && (#[trigger] contenders[j]).machine.succeeded() implies i == j by {
                assert(contenders[i].machine.stage == SelectStage::AwaitOwner
                    || contenders[i].machine.stage == SelectStage::AwaitLock);
            }
            if users.len() > 0 && (forall|i: int|
                0 <= i < contenders.len() ==> (#[trigger] contenders[i]).machine.is_finished()) {
                assert(contenders[0].machine.is_finished());
                assert(contenders[0].machine.stage == SelectStage::AwaitOwner
                    || contenders[0].machine.stage == SelectStage::AwaitLock);
            }
        },
    }
}

/// What can happen in a contest in which things go wrong.
pub enum Move {
    /// The command of a contender is performed.
    Step(int),
    /// The command of a contender fails: nothing changes, and the contender
    /// is told so.
    Fail(int),
    /// The lock of the seat runs out.
    Expire,
}

/// One move of a contest in which things go wrong.
pub open spec fn troubled_step(world: World, contenders: Seq<Contender>, seat_id: i64, what: Move) -> (
    World,
    Seq<Contender>,
) {
    match what {
        Move::Step(who) => contest_step(world, contenders, who),
        Move::Fail(who) => if 0 <= who < contenders.len() && !(contenders[who].command is Finish) {
            let next = contenders[who].machine.spec_next(Reply::Failed);
            (world, contenders.update(who, Contender { machine: next.0, command: next.1 }))
        } else {
            (world, contenders)
        },
        Move::Expire => (World { locks: world.locks.remove(seat_id), ..world }, contenders),
    }
}

/// The contest after a sequence of moves.
pub open spec fn troubled_contest(
    world: World,
    contenders: Seq<Contender>,
    seat_id: i64,
    moves: Seq<Move>,
) -> (World, Seq<Contender>)
    decreases moves.len(),
{
    if moves.len() == 0 {
        (world, contenders)
    } else {
        let before = troubled_contest(world, contenders, seat_id, moves.drop_last());
        troubled_step(before.0, before.1, seat_id, moves.last())
    }
}

/// Whether a contender has the seat: it has reserved it in the durable
/// store, whether or not it has been told so yet.
pub open spec fn has_seat(contender: Contender) -> bool {
    contender.machine.stage == SelectStage::AwaitEvent || contender.machine.stage
        == SelectStage::AwaitInvalidate || contender.machine.succeeded()
}

/// Whether a contender holds the command that goes with its stage, in a
/// contest in which things go wrong.
spec fn troubled_wired(contender: Contender) -> bool {
    let m = contender.machine;
    match m.stage {
        SelectStage::AwaitUnlock => contender.command == Command::UnlockSeat { seat_id: m.seat_id },
        SelectStage::Finished(outcome) => contender.command == Command::Finish(outcome) && (
        outcome is Rejected || outcome == Outcome::Done(Message::SeatAdded)),
        _ => wired(contender),
    }
}

/// What holds throughout a contest in which things go wrong: the seat is
/// free and nobody has it, or it is reserved for the booking of the one
/// contender that has it.
spec fn troubled_inv(
    seat_id: i64,
    users: Seq<i32>,
    bookings: Seq<i64>,
    world: World,
    contenders: Seq<Contender>,
    winner: Option<int>,
) -> bool {
    &&& contenders.len() == users.len()
    &&& world.db.seats.contains_key(seat_id)
    &&& forall|i: int|
        0 <= i < contenders.len() ==> {
            let m = (#[trigger] contenders[i]).machine;
            &&& m.booking_id == bookings[i]
            &&& m.seat_id == seat_id
            &&& troubled_wired(contenders[i])
            &&& has_seat(contenders[i]) ==> winner == Some(i)
        }
    &&& match winner {
        Some(h) => {
            &&& 0 <= h < contenders.len()
            &&& has_seat(contenders[h])
            &&& world.db.seats[seat_id].status == SeatStatus::Reserved
            &&& world.db.seats[seat_id].booking_id == Some(bookings[h])
        },
        None => world.db.seats[seat_id].status == SeatStatus::Free,
    }
}

proof fn lemma_troubled_step(
    seat_id: i64,
    users: Seq<i32>,
    bookings: Seq<i64>,
    world: World,
    contenders: Seq<Contender>,
    what: Move,
    winner: Option<int>,
) -> (still: Option<int>)
    requires
        troubled_inv(seat_id, users, bookings, world, contenders, winner),
    ensures
        ({
            let after = troubled_step(world, contenders, seat_id, what);
            troubled_inv(seat_id, users, bookings, after.0, after.1, still)
        }),
{
    let after = troubled_step(world, contenders, seat_id, what);
    let who = match what {
        Move::Step(who) => who,
        Move::Fail(who) => who,
        Move::Expire => -1,
    };
    if 0 <= who < contenders.len() && !(contenders[who].command is Finish) {
        let mover = contenders[who];
        assert(troubled_wired(mover));
        let still = if what is Step && mover.machine.stage == SelectStage::AwaitReserve && winner
            is None {
            Some(who)
        } else {
            winner
        };
        assert forall|i: int| 0 <= i < after.1.len() implies {
            let m = (#[trigger] after.1[i]).machine;
            &&& m.booking_id == bookings[i]
            &&& m.seat_id == seat_id
            &&& troubled_wired(after.1[i])
            &&& has_seat(after.1[i]) ==> still == Some(i)
        } by {
            if i != who {
                assert(after.1[i] == contenders[i]);
            }
        }
        if let Some(h) = still {
            if h != who {
                assert(after.1[h] == contenders[h]);
            }
        }
        still
    } else {
        assert(after.1 == contenders);
        winner
    }
}

proof fn lemma_troubled_contest(
    world: World,
    seat_id: i64,
    users: Seq<i32>,
    bookings: Seq<i64>,
    moves: Seq<Move>,
) -> (winner: Option<int>)
    requires
        users.len() == bookings.len(),
        world.db.seats.contains_key(seat_id),
        world.db.seats[seat_id].status == SeatStatus::Free,
    ensures
        ({
            let end = troubled_contest(world, entered(seat_id, users, bookings), seat_id, moves);
            troubled_inv(seat_id, users, bookings, end.0, end.1, winner)
        }),
    decreases moves.len(),
{
    if moves.len() == 0 {
        None
    } else {
        let winner = lemma_troubled_contest(world, seat_id, users, bookings, moves.drop_last());
        let before = troubled_contest(
            world,
            entered(seat_id, users, bookings),
            seat_id,
            moves.drop_last(),
        );
        lemma_troubled_step(seat_id, users, bookings, before.0, before.1, moves.last(), winner)
    }
}

/// No double sale, whatever goes wrong. Any number of users reach for one
/// free seat; their commands are performed in any order whatever, any of
/// them may fail at any time, and the lock of the seat may run out at any
/// time. Then at no time do two of them have the seat, and as long as one
/// has it, the seat is reserved for that one's booking. It is the
/// conditional update in the durable store that decides, not the lock.
pub proof fn lemma_no_double_sale_in_trouble(
    world: World,
    seat_id: i64,
    users: Seq<i32>,
    bookings: Seq<i64>,
    moves: Seq<Move>,
)
    requires
        users.len() == bookings.len(),
        world.db.seats.contains_key(seat_id),
        world.db.seats[seat_id].status == SeatStatus::Free,
    ensures
        ({
            let (after, contenders) = troubled_contest(
                world,
                entered(seat_id, users, bookings),
                seat_id,
                moves,
            );
            &&& contenders.len() == users.len()
            &&& forall|i: int, j: int|
                0 <= i < contenders.len() && 0 <= j < contenders.len() && has_seat(
                    #[trigger] contenders[i],
                ) && has_seat(#[trigger] contenders[j]) ==> i == j
            &&& forall|i: int|
                0 <= i < contenders.len() && has_seat(#[trigger] contenders[i]) ==> {
                    &&& after.db.seats[seat_id].status == SeatStatus::Reserved
                    &&& after.db.seats[seat_id].booking_id == Some(bookings[i])
                }
            &&& (forall|i: int| 0 <= i < contenders.len() ==> !has_seat(#[trigger] contenders[i]))
                ==> after.db.seats[seat_id].status == SeatStatus::Free
        }),
{
    let winner = lemma_troubled_contest(world, seat_id, users, bookings, moves);
}

} // verus!
