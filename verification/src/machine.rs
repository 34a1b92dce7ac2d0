//! What all operations of the engine have in common: they are machines that
//! turn the reply to their last command into their next command.

use vstd::prelude::*;
use crate::protocol::{Command, Outcome, Reply};
use crate::world::World;

verus! {

/// An operation of the engine in progress.
pub trait Machine: Sized {
    /// The machine and its command after `reply` came back for the command
    /// it last handed out.
    spec fn spec_next(self, reply: Reply) -> (Self, Command);

    /// The commands the machine hands out before it finishes, at most.
    spec fn spec_remaining(self) -> nat;

    /// Takes the reply to the last command and names the next one. After
    /// `Command::Finish` a machine stays where it is and repeats it.
    fn next(self, reply: Reply) -> (step: (Self, Command))
        ensures
            step == self.spec_next(reply),
    ;

    /// Whatever the reply, it takes the machine nearer its end, and the
    /// machine hands out `Finish` exactly when nothing remains.
    proof fn lemma_progress(self, reply: Reply)
        ensures
            self.spec_remaining() > 0 ==> self.spec_next(reply).0.spec_remaining() < self.spec_remaining(),
            self.spec_remaining() == 0 ==> self.spec_next(reply).0.spec_remaining() == 0,
            (self.spec_next(reply).1 is Finish) == (self.spec_next(reply).0.spec_remaining() == 0),
    ;
}

/// Whether a machine and the command it has handed out go together: the
/// command is `Finish` exactly when the machine has nothing left to do.
pub open spec fn paired<M: Machine>(machine: M, command: Command) -> bool {
    (command is Finish) == (machine.spec_remaining() == 0)
}

/// Whether an operation begins as it should: machine and command go
/// together, and the machine has no more commands to hand out than
/// `patience()`.
pub open spec fn begins_well<M: Machine>(start: (M, Command)) -> bool {
    paired(start.0, start.1) && start.0.spec_remaining() <= patience()
}

/// The machine and its command after a sequence of replies, whatever they
/// are.
pub open spec fn replied<M: Machine>(machine: M, command: Command, replies: Seq<Reply>) -> (M, Command)
    decreases replies.len(),
{
    if replies.len() == 0 {
        (machine, command)
    } else {
        replied(machine, command, replies.drop_last()).0.spec_next(replies.last())
    }
}

/// Every operation ends: whatever the outside world replies, a machine has
/// handed out `Finish` by the time it has taken as many replies as it had
/// commands remaining.
pub proof fn lemma_machine_ends<M: Machine>(machine: M, command: Command, replies: Seq<Reply>)
    requires
        paired(machine, command),
    ensures
        paired(replied(machine, command, replies).0, replied(machine, command, replies).1),
        replied(machine, command, replies).0.spec_remaining() + replies.len() <= machine.spec_remaining()
            || replied(machine, command, replies).0.spec_remaining() == 0,
        replies.len() >= machine.spec_remaining() ==> replied(machine, command, replies).1 is Finish,
    decreases replies.len(),
{
    if replies.len() > 0 {
        lemma_machine_ends(machine, command, replies.drop_last());
        replied(machine, command, replies.drop_last()).0.lemma_progress(replies.last());
    }
}

/// What the payment gateway answers during one run: one reply per kind of
/// request.
pub struct GatewayScript {
    pub init: Reply,
    pub check: Reply,
    pub confirm: Reply,
}

/// The reply to a command: the gateway's for a gateway command, the world's
/// for any other.
pub open spec fn answer(world: World, payment: Seq<char>, gateway: GatewayScript, command: Command) -> (
    World,
    Reply,
) {
    match command {
        Command::GatewayInit { .. } => (world, gateway.init),
        Command::GatewayCheck => (world, gateway.check),
        Command::GatewayConfirm => (world, gateway.confirm),
        _ => world.apply(payment, command),
    }
}

/// More commands than any operation of the engine hands out before it
/// finishes.
pub open spec fn patience() -> nat {
    16
}

/// Runs a machine against the world for at most `fuel` commands, starting
/// with `command`. Gives the world afterwards and the outcome, if the machine
/// finished.
pub open spec fn run<M: Machine>(
    machine: M,
    command: Command,
    world: World,
    payment: Seq<char>,
    gateway: GatewayScript,
    fuel: nat,
) -> (World, Option<Outcome>)
    decreases fuel,
{
    match command {
        Command::Finish(outcome) => (world, Some(outcome)),
        _ => if fuel == 0 {
            (world, None)
        } else {
            let (after, reply) = answer(world, payment, gateway, command);
            let (machine, command) = machine.spec_next(reply);
            run(machine, command, after, payment, gateway, (fuel - 1) as nat)
        },
    }
}

/// One command of a run: where the command at hand is not `Finish` and
/// fuel is left, the run goes on from what the command's reply leads to.
pub proof fn lemma_run_step<M: Machine>(
    machine: M,
    command: Command,
    world: World,
    payment: Seq<char>,
    gateway: GatewayScript,
    fuel: nat,
)
    requires
        fuel > 0,
        !(command is Finish),
    ensures
        ({
            let (after, reply) = answer(world, payment, gateway, command);
            let next = machine.spec_next(reply);
            run(machine, command, world, payment, gateway, fuel) == run(
                next.0,
                next.1,
                after,
                payment,
                gateway,
                (fuel - 1) as nat,
            )
        }),
{
}

/// A run that has reached `Finish` ends with the outcome it names and
/// leaves the world as it is.
pub proof fn lemma_run_finished<M: Machine>(
    machine: M,
    outcome: Outcome,
    world: World,
    payment: Seq<char>,
    gateway: GatewayScript,
    fuel: nat,
)
    ensures
        run(machine, Command::Finish(outcome), world, payment, gateway, fuel) == (world, Some(outcome)),
{
}

/// The reply to a command in a run in which one command fails: the failing
/// command changes nothing and is answered with `Failed`; every other
/// command is answered as in a run in which nothing fails.
pub open spec fn answer_failing(
    world: World,
    payment: Seq<char>,
    gateway: GatewayScript,
    failing: Command,
    command: Command,
) -> (World, Reply) {
    if command == failing {
        (world, Reply::Failed)
    } else {
        answer(world, payment, gateway, command)
    }
}

/// Runs a machine against a world in which the command `failing` fails
/// whenever it is handed out.
pub open spec fn run_failing<M: Machine>(
    machine: M,
    command: Command,
    world: World,
    payment: Seq<char>,
    gateway: GatewayScript,
    failing: Command,
    fuel: nat,
) -> (World, Option<Outcome>)
    decreases fuel,
{
    match command {
        Command::Finish(outcome) => (world, Some(outcome)),
        _ => if fuel == 0 {
            (world, None)
        } else {
            let (after, reply) = answer_failing(world, payment, gateway, failing, command);
            let (machine, command) = machine.spec_next(reply);
            run_failing(machine, command, after, payment, gateway, failing, (fuel - 1) as nat)
        },
    }
}

/// One command of a run in which a command fails.
pub proof fn lemma_run_failing_step<M: Machine>(
    machine: M,
    command: Command,
    world: World,
    payment: Seq<char>,
    gateway: GatewayScript,
    failing: Command,
    fuel: nat,
)
    requires
        fuel > 0,
        !(command is Finish),
    ensures
        ({
            let (after, reply) = answer_failing(world, payment, gateway, failing, command);
            let next = machine.spec_next(reply);
            run_failing(machine, command, world, payment, gateway, failing, fuel) == run_failing(
                next.0,
                next.1,
                after,
                payment,
                gateway,
                failing,
                (fuel - 1) as nat,
            )
        }),
{
}

} // verus!
