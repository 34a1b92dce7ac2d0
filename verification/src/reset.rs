//! The admin reset: every seat becomes free, sold seats included, all
//! bookings and payment attempts go, booking ids start over, and the key
//! store loses its seat locks and cached seat lists. It is meant for a
//! system without traffic, and it is the one operation that takes a seat
//! out of `Sold`.

use vstd::prelude::*;
use crate::machine::{lemma_run_failing_step, run_failing, GatewayScript, Machine};
use crate::protocol::{Command, Message, Outcome, Reply, ResetReport, HTTP_INTERNAL};
use crate::world::World;

verus! {

/// Where an admin reset stands.
#[derive(Clone, Copy, Debug, PartialEq, Eq, Structural)]
pub enum ResetStage {
    AwaitBegin,
    AwaitEvents,
    AwaitSeats,
    AwaitPayments,
    AwaitBookings,
    AwaitRestart,
    AwaitCommit,
    AwaitLocks,
    AwaitInvalidate,
    AwaitCaches,
    AwaitRollback(Message),
    Finished(Outcome),
}

/// An admin reset in progress.
#[derive(Clone, Copy, Debug, PartialEq, Eq, Structural)]
pub struct Reset {
    pub stage: ResetStage,
    pub report: ResetReport,
}

impl Reset {
    /// The machine at another stage.
    pub open spec fn at(self, stage: ResetStage) -> Reset {
        Reset { stage, ..self }
    }

    /// The step that ends the operation with an outcome.
    pub open spec fn finished(self, outcome: Outcome) -> (Reset, Command) {
        (self.at(ResetStage::Finished(outcome)), Command::Finish(outcome))
    }

    /// The step that ends the operation with a refusal.
    pub open spec fn refused(self, message: Message) -> (Reset, Command) {
        self.finished(Outcome::Rejected { status: HTTP_INTERNAL, message })
    }

    /// The step that abandons the open transaction; the refusal follows.
    pub open spec fn undone(self, message: Message) -> (Reset, Command) {
        (self.at(ResetStage::AwaitRollback(message)), Command::Rollback)
    }

    /// A reset begins by opening a transaction, with nothing counted yet.
    pub open spec fn spec_start() -> (Reset, Command) {
        (
            Reset {
                stage: ResetStage::AwaitBegin,
                report: ResetReport {
                    seats_reset: 0,
                    bookings_deleted: 0,
                    payments_deleted: 0,
                    locks_cleared: 0,
                    caches_cleared: 0,
                    events_invalidated: 0,
                },
            },
            Command::Begin,
        )
    }

    /// Begins an admin reset.
    pub fn start() -> (step: (Reset, Command))
        ensures
            step == Self::spec_start(),
    {
        (
            Reset {
                stage: ResetStage::AwaitBegin,
                report: ResetReport {
                    seats_reset: 0,
                    bookings_deleted: 0,
                    payments_deleted: 0,
                    locks_cleared: 0,
                    caches_cleared: 0,
                    events_invalidated: 0,
                },
            },
            Command::Begin,
        )
    }

    fn finish(self, outcome: Outcome) -> (step: (Reset, Command))
        ensures
            step == self.finished(outcome),
    {
        (Reset { stage: ResetStage::Finished(outcome), report: self.report }, Command::Finish(outcome))
    }

    fn refuse(self, message: Message) -> (step: (Reset, Command))
        ensures
            step == self.refused(message),
    {
        self.finish(Outcome::Rejected { status: HTTP_INTERNAL, message })
    }

    fn undo(self, message: Message) -> (step: (Reset, Command))
        ensures
            step == self.undone(message),
    {
        (Reset { stage: ResetStage::AwaitRollback(message), report: self.report }, Command::Rollback)
    }

    fn go(self, stage: ResetStage, command: Command) -> (step: (Reset, Command))
        ensures
            step == (self.at(stage), command),
    {
        (Reset { stage, report: self.report }, command)
    }
}

impl Machine for Reset {
    /// The order of a reset: inside one transaction the events of all
    /// bookings are listed, every seat that is not free is freed, the
    /// payment attempts and the bookings are deleted and the booking ids
    /// restarted; a statement that fails, or a commit that fails, ends the
    /// reset with the transaction rolled back. After the commit the seat locks go, then the
    /// cached seat lists of the listed events, then all cached seat lists;
    /// failures there are passed over.
    open spec fn spec_next(self, reply: Reply) -> (Reset, Command) {
        let r = self.report;
        match self.stage {
            ResetStage::AwaitBegin => if reply == Reply::Done {
                (self.at(ResetStage::AwaitEvents), Command::ListBookingEvents)
            } else {
                self.refused(Message::ResetBeginError)
            },
            ResetStage::AwaitEvents => match reply {
                Reply::Count(n) => (
                    Reset {
                        stage: ResetStage::AwaitSeats,
                        report: ResetReport { events_invalidated: n, ..r },
                    },
                    Command::ResetSeats,
                ),
                _ => self.undone(Message::ResetEventsError),
            },
            ResetStage::AwaitSeats => match reply {
                Reply::Rows(n) => (
                    Reset { stage: ResetStage::AwaitPayments, report: ResetReport { seats_reset: n, ..r } },
                    Command::DeleteAllPayments,
                ),
                _ => self.undone(Message::ResetSeatsError),
            },
            ResetStage::AwaitPayments => match reply {
                Reply::Rows(n) => (
                    Reset {
                        stage: ResetStage::AwaitBookings,
                        report: ResetReport { payments_deleted: n, ..r },
                    },
                    Command::DeleteAllBookings,
                ),
                _ => self.undone(Message::ResetPaymentsError),
            },
            ResetStage::AwaitBookings => match reply {
                Reply::Rows(n) => (
                    Reset {
                        stage: ResetStage::AwaitRestart,
                        report: ResetReport { bookings_deleted: n, ..r },
                    },
                    Command::RestartBookingIds,
                ),
                _ => self.undone(Message::ResetBookingsError),
            },
            ResetStage::AwaitRestart => if reply == Reply::Done {
                (self.at(ResetStage::AwaitCommit), Command::Commit)
            } else {
                self.undone(Message::ResetSequenceError)
            },
            ResetStage::AwaitCommit => if reply == Reply::Done {
                (self.at(ResetStage::AwaitLocks), Command::PurgeLocks)
            } else {
                self.undone(Message::ResetCommitError)
            },
            ResetStage::AwaitLocks => (
                Reset {
                    stage: ResetStage::AwaitInvalidate,
                    report: ResetReport { locks_cleared: reply.spec_count(), ..r },
                },
                Command::InvalidateListedEvents,
            ),
            ResetStage::AwaitInvalidate => (self.at(ResetStage::AwaitCaches), Command::PurgeSeatCaches),
            ResetStage::AwaitCaches => {
                let report = ResetReport { caches_cleared: reply.spec_count(), ..r };
                (
                    Reset { stage: ResetStage::Finished(Outcome::Reset(report)), report },
                    Command::Finish(Outcome::Reset(report)),
                )
            },
            ResetStage::AwaitRollback(message) => self.refused(message),
            ResetStage::Finished(outcome) => (self, Command::Finish(outcome)),
        }
    }

    open spec fn spec_remaining(self) -> nat {
        match self.stage {
            ResetStage::AwaitBegin => 10,
            ResetStage::AwaitEvents => 9,
            ResetStage::AwaitSeats => 8,
            ResetStage::AwaitPayments => 7,
            ResetStage::AwaitBookings => 6,
            ResetStage::AwaitRestart => 5,
            ResetStage::AwaitCommit => 4,
            ResetStage::AwaitLocks => 3,
            ResetStage::AwaitInvalidate => 2,
            ResetStage::AwaitCaches => 1,
            ResetStage::AwaitRollback(_) => 1,
            ResetStage::Finished(_) => 0,
        }
    }

    proof fn lemma_progress(self, reply: Reply)
    {
    }

    fn next(self, reply: Reply) -> (step: (Reset, Command)) {
        let mut report = self.report;
        match self.stage {
            ResetStage::AwaitBegin => match reply {
                Reply::Done => self.go(ResetStage::AwaitEvents, Command::ListBookingEvents),
                _ => self.refuse(Message::ResetBeginError),
            },
            ResetStage::AwaitEvents => match reply {
                Reply::Count(n) => {
                    report.events_invalidated = n;
                    (Reset { stage: ResetStage::AwaitSeats, report }, Command::ResetSeats)
                },
                _ => self.undo(Message::ResetEventsError),
            },
            ResetStage::AwaitSeats => match reply {
                Reply::Rows(n) => {
                    report.seats_reset = n;
                    (Reset { stage: ResetStage::AwaitPayments, report }, Command::DeleteAllPayments)
                },
                _ => self.undo(Message::ResetSeatsError),
            },
            ResetStage::AwaitPayments => match reply {
                Reply::Rows(n) => {
                    report.payments_deleted = n;
                    (Reset { stage: ResetStage::AwaitBookings, report }, Command::DeleteAllBookings)
                },
                _ => self.undo(Message::ResetPaymentsError),
            },
            ResetStage::AwaitBookings => match reply {
                Reply::Rows(n) => {
                    report.bookings_deleted = n;
                    (Reset { stage: ResetStage::AwaitRestart, report }, Command::RestartBookingIds)
                },
                _ => self.undo(Message::ResetBookingsError),
            },
            ResetStage::AwaitRestart => match reply {
                Reply::Done => self.go(ResetStage::AwaitCommit, Command::Commit),
                _ => self.undo(Message::ResetSequenceError),
            },
            ResetStage::AwaitCommit => match reply {
                Reply::Done => self.go(ResetStage::AwaitLocks, Command::PurgeLocks),
                _ => self.undo(Message::ResetCommitError),
            },
            ResetStage::AwaitLocks => {
                report.locks_cleared = reply.count();
                (Reset { stage: ResetStage::AwaitInvalidate, report }, Command::InvalidateListedEvents)
            },
            ResetStage::AwaitInvalidate => self.go(ResetStage::AwaitCaches, Command::PurgeSeatCaches),
            ResetStage::AwaitCaches => {
                report.caches_cleared = reply.count();
                let outcome = Outcome::Reset(report);
                (Reset { stage: ResetStage::Finished(outcome), report }, Command::Finish(outcome))
            },
            ResetStage::AwaitRollback(message) => self.refuse(message),
            ResetStage::Finished(outcome) => (self, Command::Finish(outcome)),
        }
    }
}

/// The text a reset ends with when a command of its transaction fails;
/// nothing for a command that is none of its transaction.
pub open spec fn reset_fault(failing: Command) -> Option<Message> {
    match failing {
        Command::ListBookingEvents => Some(Message::ResetEventsError),
        Command::ResetSeats => Some(Message::ResetSeatsError),
        Command::DeleteAllPayments => Some(Message::ResetPaymentsError),
        Command::DeleteAllBookings => Some(Message::ResetBookingsError),
        Command::RestartBookingIds => Some(Message::ResetSequenceError),
        Command::Commit => Some(Message::ResetCommitError),
        _ => None,
    }
}

/// The place of a command in the transaction of a reset.
spec fn place(command: Command) -> int {
    match command {
        Command::ListBookingEvents => 1,
        Command::ResetSeats => 2,
        Command::DeleteAllPayments => 3,
        Command::DeleteAllBookings => 4,
        Command::RestartBookingIds => 5,
        Command::Commit => 6,
        _ => 0,
    }
}

/// The command a reset has handed out when it stands inside its
/// transaction.
spec fn handed(machine: Reset) -> Command {
    match machine.stage {
        ResetStage::AwaitEvents => Command::ListBookingEvents,
        ResetStage::AwaitSeats => Command::ResetSeats,
        ResetStage::AwaitPayments => Command::DeleteAllPayments,
        ResetStage::AwaitBookings => Command::DeleteAllBookings,
        ResetStage::AwaitRestart => Command::RestartBookingIds,
        _ => Command::Commit,
    }
}

/// Whether a world is inside the transaction that a reset opened in
/// `origin`.
spec fn inside(origin: World, world: World) -> bool {
    &&& world.saved == Some(origin.db)
    &&& world.locks == origin.locks
    &&& world.caches == origin.caches
}

proof fn lemma_reset_failing_inside(
    origin: World,
    world: World,
    payment: Seq<char>,
    gateway: GatewayScript,
    machine: Reset,
    failing: Command,
    fuel: nat,
)
    requires
        fuel >= machine.spec_remaining(),
        inside(origin, world),
        place(handed(machine)) >= 1,
        machine.stage != ResetStage::AwaitBegin,
        place(handed(machine)) < 6 || machine.stage == ResetStage::AwaitCommit,
        reset_fault(failing) is Some,
        place(failing) >= place(handed(machine)),
    ensures
        ({
            let end = run_failing(machine, handed(machine), world, payment, gateway, failing, fuel);
            &&& end.1 == Some(
                Outcome::Rejected { status: HTTP_INTERNAL, message: reset_fault(failing)->0 },
            )
            &&& end.0.db == origin.db
            &&& end.0.locks == origin.locks
            &&& end.0.caches == origin.caches
            &&& end.0.saved is None
        }),
    decreases machine.spec_remaining(),
{
    let command = handed(machine);
    lemma_run_failing_step(machine, command, world, payment, gateway, failing, fuel);
    if command == failing {
        let undo = machine.spec_next(Reply::Failed);
        lemma_run_failing_step(undo.0, undo.1, world, payment, gateway, failing, (fuel - 1) as nat);
    } else {
        let (after, reply) = world.apply(payment, command);
        let next = machine.spec_next(reply);
        assert(next.1 == handed(next.0));
        lemma_reset_failing_inside(origin, after, payment, gateway, next.0, failing, (fuel - 1) as nat);
    }
}

/// An admin reset of which a statement fails, or the commit, changes
/// nothing: it ends with the text that goes with the statement, the durable
/// store, the seat locks and the cached seat lists are as they were before,
/// and no transaction is open.
pub proof fn lemma_reset_failing(
    world: World,
    payment: Seq<char>,
    gateway: GatewayScript,
    failing: Command,
    fuel: nat,
)
    requires
        fuel >= 11,
        reset_fault(failing) is Some,
    ensures
        ({
            let start = Reset::spec_start();
            let end = run_failing(start.0, start.1, world, payment, gateway, failing, fuel);
            &&& end.1 == Some(
                Outcome::Rejected { status: HTTP_INTERNAL, message: reset_fault(failing)->0 },
            )
            &&& end.0.db == world.db
            &&& end.0.locks == world.locks
            &&& end.0.caches == world.caches
            &&& end.0.saved is None
        }),
{
    let start = Reset::spec_start();
    lemma_run_failing_step(start.0, start.1, world, payment, gateway, failing, fuel);
    let w1 = world.apply(payment, Command::Begin).0;
    let first = start.0.spec_next(Reply::Done);
    assert(first.1 == handed(first.0));
    lemma_reset_failing_inside(world, w1, payment, gateway, first.0, failing, (fuel - 1) as nat);
}

} // verus!
