//! Selecting and releasing a seat.
//!
//! A seat is taken in two moves: a short-lived lock in the key store keeps
//! other contenders out, then a conditional update in the durable store
//! decides. Only the update makes the seat the booking's; where it does not
//! succeed, the lock is given back.

use vstd::prelude::*;
use crate::machine::Machine;
use crate::protocol::{
    Command, Message, Outcome, Reply, HTTP_BAD_REQUEST, HTTP_FORBIDDEN, HTTP_SEAT_CONFLICT,
};

verus! {

/// How long a seat lock lives without being deleted, in seconds.
pub const LOCK_TTL_SECONDS: u64 = 300;

/// Where the selection of a seat stands.
#[derive(Clone, Copy, Debug, PartialEq, Eq, Structural)]
pub enum SelectStage {
    AwaitOwner,
    AwaitLock,
    AwaitReserve,
    AwaitEvent,
    AwaitInvalidate,
    AwaitUnlock,
    Finished(Outcome),
}

/// A user adding a seat to a booking.
#[derive(Clone, Copy, Debug, PartialEq, Eq, Structural)]
pub struct SelectSeat {
    pub stage: SelectStage,
    pub user_id: i64,
    pub booking_id: i64,
    pub seat_id: i64,
}

impl SelectSeat {
    /// The machine at another stage.
    pub open spec fn at(self, stage: SelectStage) -> SelectSeat {
        SelectSeat { stage, ..self }
    }

    /// The step that ends the operation with an outcome.
    pub open spec fn finished(self, outcome: Outcome) -> (SelectSeat, Command) {
        (self.at(SelectStage::Finished(outcome)), Command::Finish(outcome))
    }

    /// The step that ends the operation with a seat conflict.
    pub open spec fn conflict(self, message: Message) -> (SelectSeat, Command) {
        self.finished(Outcome::Rejected { status: HTTP_SEAT_CONFLICT, message })
    }

    /// Ids that are not positive are refused at once; otherwise the first
    /// question is whether the booking is the user's.
    pub open spec fn spec_start(user_id: i32, booking_id: i64, seat_id: i64) -> (SelectSeat, Command) {
        let fresh = SelectSeat {
            stage: SelectStage::AwaitOwner,
            user_id: user_id as i64,
            booking_id,
            seat_id,
        };
        if booking_id <= 0 || seat_id <= 0 {
            fresh.finished(
                Outcome::Rejected { status: HTTP_BAD_REQUEST, message: Message::IdsNotPositive },
            )
        } else {
            (fresh, Command::BookingOwned { booking_id, user_id: user_id as i64 })
        }
    }

    /// Whether the machine has answered the caller with success.
    pub open spec fn succeeded(self) -> bool {
        self.stage == SelectStage::Finished(Outcome::Done(Message::SeatAdded))
    }

    /// Whether the machine has answered the caller at all.
    pub open spec fn is_finished(self) -> bool {
        self.stage is Finished
    }

    /// Begins the selection of a seat.
    pub fn start(user_id: i32, booking_id: i64, seat_id: i64) -> (step: (SelectSeat, Command))
        ensures
            step == Self::spec_start(user_id, booking_id, seat_id),
    {
        let fresh = SelectSeat {
            stage: SelectStage::AwaitOwner,
            user_id: user_id as i64,
            booking_id,
            seat_id,
        };
        if booking_id <= 0 || seat_id <= 0 {
            fresh.finish(
                Outcome::Rejected { status: HTTP_BAD_REQUEST, message: Message::IdsNotPositive },
            )
        } else {
            (fresh, Command::BookingOwned { booking_id, user_id: user_id as i64 })
        }
    }

    fn go(self, stage: SelectStage, command: Command) -> (step: (SelectSeat, Command))
        ensures
            step == (self.at(stage), command),
    {
        (
            SelectSeat {
                stage,
                user_id: self.user_id,
                booking_id: self.booking_id,
                seat_id: self.seat_id,
            },
            command,
        )
    }

    fn finish(self, outcome: Outcome) -> (step: (SelectSeat, Command))
        ensures
            step == self.finished(outcome),
    {
        self.go(SelectStage::Finished(outcome), Command::Finish(outcome))
    }

    fn refuse(self, message: Message) -> (step: (SelectSeat, Command))
        ensures
            step == self.conflict(message),
    {
        self.finish(Outcome::Rejected { status: HTTP_SEAT_CONFLICT, message })
    }
}

impl Machine for SelectSeat {
    /// A booking that is not the user's, a lock that is already there and an
    /// update that touches no row each end in a seat conflict; after the
    /// last of these the lock is deleted first. After a successful update
    /// the cached seat list of the seat's event is deleted, if the event can
    /// be found, and the caller is told that the seat was added.
    open spec fn spec_next(self, reply: Reply) -> (SelectSeat, Command) {
        match self.stage {
            SelectStage::AwaitOwner => if reply.spec_yes() {
                (
                    self.at(SelectStage::AwaitLock),
                    Command::LockSeat { seat_id: self.seat_id, user_id: self.user_id },
                )
            } else {
                self.conflict(Message::BookingNotFound)
            },
            SelectStage::AwaitLock => if reply.spec_yes() {
                (
                    self.at(SelectStage::AwaitReserve),
                    Command::ReserveSeat { seat_id: self.seat_id, booking_id: self.booking_id },
                )
            } else {
                self.conflict(Message::SeatAlreadyReserved)
            },
            SelectStage::AwaitReserve => if reply.spec_rows() > 0 {
                (self.at(SelectStage::AwaitEvent), Command::SeatEvent { seat_id: self.seat_id })
            } else {
                (self.at(SelectStage::AwaitUnlock), Command::UnlockSeat { seat_id: self.seat_id })
            },
            SelectStage::AwaitEvent => match reply {
                Reply::MaybeId(Some(event_id)) => (
                    self.at(SelectStage::AwaitInvalidate),
                    Command::InvalidateSeats { event_id },
                ),
                _ => self.finished(Outcome::Done(Message::SeatAdded)),
            },
            SelectStage::AwaitInvalidate => self.finished(Outcome::Done(Message::SeatAdded)),
            SelectStage::AwaitUnlock => self.conflict(Message::SeatNotAdded),
            SelectStage::Finished(outcome) => (self, Command::Finish(outcome)),
        }
    }

    open spec fn spec_remaining(self) -> nat {
        match self.stage {
            SelectStage::AwaitOwner => 5,
            SelectStage::AwaitLock => 4,
            SelectStage::AwaitReserve => 3,
            SelectStage::AwaitEvent => 2,
            SelectStage::AwaitInvalidate => 1,
            SelectStage::AwaitUnlock => 1,
            SelectStage::Finished(_) => 0,
        }
    }

    proof fn lemma_progress(self, reply: Reply)
    {
    }

    fn next(self, reply: Reply) -> (step: (SelectSeat, Command)) {
        match self.stage {
            SelectStage::AwaitOwner => if reply.yes() {
                self.go(
                    SelectStage::AwaitLock,
                    Command::LockSeat { seat_id: self.seat_id, user_id: self.user_id },
                )
            } else {
                self.refuse(Message::BookingNotFound)
            },
            SelectStage::AwaitLock => if reply.yes() {
                self.go(
                    SelectStage::AwaitReserve,
                    Command::ReserveSeat { seat_id: self.seat_id, booking_id: self.booking_id },
                )
            } else {
                self.refuse(Message::SeatAlreadyReserved)
            },
            SelectStage::AwaitReserve => if reply.rows() > 0 {
                self.go(SelectStage::AwaitEvent, Command::SeatEvent { seat_id: self.seat_id })
            } else {
                self.go(SelectStage::AwaitUnlock, Command::UnlockSeat { seat_id: self.seat_id })
            },
            SelectStage::AwaitEvent => match reply {
                Reply::MaybeId(Some(event_id)) => self.go(
                    SelectStage::AwaitInvalidate,
                    Command::InvalidateSeats { event_id },
                ),
                _ => self.finish(Outcome::Done(Message::SeatAdded)),
            },
            SelectStage::AwaitInvalidate => self.finish(Outcome::Done(Message::SeatAdded)),
            SelectStage::AwaitUnlock => self.refuse(Message::SeatNotAdded),
            SelectStage::Finished(outcome) => (self, Command::Finish(outcome)),
        }
    }
}

/// Where the release of a seat stands.
#[derive(Clone, Copy, Debug, PartialEq, Eq, Structural)]
pub enum ReleaseStage {
    AwaitHolder,
    AwaitFree,
    AwaitUnlock,
    AwaitEvent,
    AwaitInvalidate,
    Finished(Outcome),
}

/// A user giving a reserved seat back.
#[derive(Clone, Copy, Debug, PartialEq, Eq, Structural)]
pub struct ReleaseSeat {
    pub stage: ReleaseStage,
    pub user_id: i64,
    pub seat_id: i64,
}

impl ReleaseSeat {
    /// The machine at another stage.
    pub open spec fn at(self, stage: ReleaseStage) -> ReleaseSeat {
        ReleaseSeat { stage, ..self }
    }

    /// The step that ends the operation with an outcome.
    pub open spec fn finished(self, outcome: Outcome) -> (ReleaseSeat, Command) {
        (self.at(ReleaseStage::Finished(outcome)), Command::Finish(outcome))
    }

    /// A seat id that is not positive is refused at once; otherwise the
    /// first question is whether the user holds the seat.
    pub open spec fn spec_start(user_id: i32, seat_id: i64) -> (ReleaseSeat, Command) {
        let fresh = ReleaseSeat { stage: ReleaseStage::AwaitHolder, user_id: user_id as i64, seat_id };
        if seat_id <= 0 {
            fresh.finished(
                Outcome::Rejected { status: HTTP_BAD_REQUEST, message: Message::SeatIdNotPositive },
            )
        } else {
            (fresh, Command::SeatHeldBy { seat_id, user_id: user_id as i64 })
        }
    }

    /// Begins the release of a seat.
    pub fn start(user_id: i32, seat_id: i64) -> (step: (ReleaseSeat, Command))
        ensures
            step == Self::spec_start(user_id, seat_id),
    {
        let fresh = ReleaseSeat { stage: ReleaseStage::AwaitHolder, user_id: user_id as i64, seat_id };
        if seat_id <= 0 {
            fresh.finish(
                Outcome::Rejected { status: HTTP_BAD_REQUEST, message: Message::SeatIdNotPositive },
            )
        } else {
            (fresh, Command::SeatHeldBy { seat_id, user_id: user_id as i64 })
        }
    }

    fn go(self, stage: ReleaseStage, command: Command) -> (step: (ReleaseSeat, Command))
        ensures
            step == (self.at(stage), command),
    {
        (ReleaseSeat { stage, user_id: self.user_id, seat_id: self.seat_id }, command)
    }

    fn finish(self, outcome: Outcome) -> (step: (ReleaseSeat, Command))
        ensures
            step == self.finished(outcome),
    {
        self.go(ReleaseStage::Finished(outcome), Command::Finish(outcome))
    }
}

impl Machine for ReleaseSeat {
    /// A seat the user does not hold is forbidden; an update that touches no
    /// row is a seat conflict. After a successful update the lock of the
    /// seat is deleted, then the cached seat list of its event, if the event
    /// can be found.
    open spec fn spec_next(self, reply: Reply) -> (ReleaseSeat, Command) {
        match self.stage {
            ReleaseStage::AwaitHolder => if reply.spec_yes() {
                (self.at(ReleaseStage::AwaitFree), Command::FreeSeat { seat_id: self.seat_id })
            } else {
                self.finished(
                    Outcome::Rejected { status: HTTP_FORBIDDEN, message: Message::SeatNotYours },
                )
            },
            ReleaseStage::AwaitFree => if reply.spec_rows() > 0 {
                (self.at(ReleaseStage::AwaitUnlock), Command::UnlockSeat { seat_id: self.seat_id })
            } else {
                self.finished(
                    Outcome::Rejected { status: HTTP_SEAT_CONFLICT, message: Message::SeatNotReleased },
                )
            },
            ReleaseStage::AwaitUnlock => (
                self.at(ReleaseStage::AwaitEvent),
                Command::SeatEvent { seat_id: self.seat_id },
            ),
            ReleaseStage::AwaitEvent => match reply {
                Reply::MaybeId(Some(event_id)) => (
                    self.at(ReleaseStage::AwaitInvalidate),
                    Command::InvalidateSeats { event_id },
                ),
                _ => self.finished(Outcome::Done(Message::SeatReleased)),
            },
            ReleaseStage::AwaitInvalidate => self.finished(Outcome::Done(Message::SeatReleased)),
            ReleaseStage::Finished(outcome) => (self, Command::Finish(outcome)),
        }
    }

    open spec fn spec_remaining(self) -> nat {
        match self.stage {
            ReleaseStage::AwaitHolder => 5,
            ReleaseStage::AwaitFree => 4,
            ReleaseStage::AwaitUnlock => 3,
            ReleaseStage::AwaitEvent => 2,
            ReleaseStage::AwaitInvalidate => 1,
            ReleaseStage::Finished(_) => 0,
        }
    }

    proof fn lemma_progress(self, reply: Reply)
    {
    }

    fn next(self, reply: Reply) -> (step: (ReleaseSeat, Command)) {
        match self.stage {
            ReleaseStage::AwaitHolder => if reply.yes() {
                self.go(ReleaseStage::AwaitFree, Command::FreeSeat { seat_id: self.seat_id })
            } else {
                self.finish(
                    Outcome::Rejected { status: HTTP_FORBIDDEN, message: Message::SeatNotYours },
                )
            },
            ReleaseStage::AwaitFree => if reply.rows() > 0 {
                self.go(ReleaseStage::AwaitUnlock, Command::UnlockSeat { seat_id: self.seat_id })
            } else {
                self.finish(
                    Outcome::Rejected { status: HTTP_SEAT_CONFLICT, message: Message::SeatNotReleased },
                )
            },
            ReleaseStage::AwaitUnlock => self.go(
                ReleaseStage::AwaitEvent,
                Command::SeatEvent { seat_id: self.seat_id },
            ),
            ReleaseStage::AwaitEvent => match reply {
                Reply::MaybeId(Some(event_id)) => self.go(
                    ReleaseStage::AwaitInvalidate,
                    Command::InvalidateSeats { event_id },
                ),
                _ => self.finish(Outcome::Done(Message::SeatReleased)),
            },
            ReleaseStage::AwaitInvalidate => self.finish(Outcome::Done(Message::SeatReleased)),
            ReleaseStage::Finished(outcome) => (self, Command::Finish(outcome)),
        }
    }
}

} // verus!
