//! The cache in front of the durable store. The cache is a hint: whatever
//! it fails to deliver is read from the store, and nothing it holds is ever
//! written to the store.

use vstd::prelude::*;
use crate::status::DisplayStatus;

verus! {

/// A seat as it is served to viewers. The price is in minor units.
#[derive(Debug, Clone)]
pub struct Seat {
    pub id: i64,
    pub event_id: i64,
    pub row: i32,
    pub number: i32,
    pub status: DisplayStatus,
    pub booking_id: Option<i64>,
    pub category: Option<String>,
    pub price_minor: Option<i64>,
}

/// Where a list that is read through the cache came from.
#[derive(Clone, Copy, Debug, PartialEq, Eq, Structural)]
pub enum Source {
    Cache,
    Store,
    /// Neither the cache nor the store delivered: the list is empty.
    Nowhere,
}

/// What to do next when reading a list through the cache.
#[derive(Clone, Copy, Debug, PartialEq, Eq, Structural)]
pub enum ReadStep {
    /// Ask the cache.
    AskCache,
    /// Load the list from the durable store.
    AskStore,
    /// Put the list that the store delivered into the cache.
    FillCache,
    /// Serve the list from the given source.
    Serve(Source),
}

/// What the last step brought.
#[derive(Clone, Copy, Debug, PartialEq, Eq, Structural)]
pub enum ReadResult {
    /// The list was delivered.
    Delivered,
    /// The list was not delivered: it is missing, unreadable, or the call
    /// failed.
    Missing,
}

/// Reading through the cache: the cache is asked first; what it does not
/// deliver is loaded from the store and put into the cache, whether or not
/// the cache takes it; what the store does not deliver either is served as
/// an empty list.
pub open spec fn spec_read_through(step: ReadStep, result: ReadResult) -> ReadStep {
    match step {
        ReadStep::AskCache => if result == ReadResult::Delivered {
            ReadStep::Serve(Source::Cache)
        } else {
            ReadStep::AskStore
        },
        ReadStep::AskStore => if result == ReadResult::Delivered {
            ReadStep::FillCache
        } else {
            ReadStep::Serve(Source::Nowhere)
        },
        ReadStep::FillCache => ReadStep::Serve(Source::Store),
        ReadStep::Serve(source) => ReadStep::Serve(source),
    }
}

/// The step after `step` brought `result`. Reading begins with
/// `ReadStep::AskCache`.
pub fn read_through(step: ReadStep, result: ReadResult) -> (next: ReadStep)
    ensures
        next == spec_read_through(step, result),
{
    let delivered = match result {
        ReadResult::Delivered => true,
        ReadResult::Missing => false,
    };
    match step {
        ReadStep::AskCache => if delivered {
            ReadStep::Serve(Source::Cache)
        } else {
            ReadStep::AskStore
        },
        ReadStep::AskStore => if delivered {
            ReadStep::FillCache
        } else {
            ReadStep::Serve(Source::Nowhere)
        },
        ReadStep::FillCache => ReadStep::Serve(Source::Store),
        ReadStep::Serve(source) => ReadStep::Serve(source),
    }
}

/// The seats whose lock is to be looked up: those shown as free, in the
/// order of the list.
pub open spec fn spec_lock_probes(seats: Seq<Seat>) -> Seq<i64>
    decreases seats.len(),
{
    if seats.len() == 0 {
        Seq::empty()
    } else {
        let before = spec_lock_probes(seats.drop_last());
        if seats.last().status == DisplayStatus::Free {
            before.push(seats.last().id)
        } else {
            before
        }
    }
}

/// What seat `i` of a list is shown as, given the answers to the lock
/// probes: a free seat whose lock is there is shown as selected; every
/// other seat keeps its status. An answer that is missing is a lock that is
/// not there.
pub open spec fn spec_shown(seats: Seq<Seat>, locked: Seq<bool>, i: int) -> DisplayStatus {
    let probe = spec_lock_probes(seats.take(i)).len();
    if seats[i].status == DisplayStatus::Free && probe < locked.len() && locked[probe as int] {
        DisplayStatus::Selected
    } else {
        seats[i].status
    }
}

/// The seats whose lock is to be looked up: those shown as free, in order.
pub fn lock_probes(seats: &Vec<Seat>) -> (probes: Vec<i64>)
    ensures
        probes@ == spec_lock_probes(seats@),
{
    let mut probes: Vec<i64> = Vec::new();
    let mut i: usize = 0;
    while i < seats.len()
        invariant
            i <= seats.len(),
            probes@ == spec_lock_probes(seats@.take(i as int)),
        decreases seats.len() - i,
    {
        proof {
            assert(seats@.take(i + 1).drop_last() =~= seats@.take(i as int));
        }
        if seats[i].status == DisplayStatus::Free {
            probes.push(seats[i].id);
        }
        i = i + 1;
    }
    proof {
        assert(seats@.take(i as int) =~= seats@);
    }
    probes
}

/// Shows the seats with the locks that are in flight: the answers to the
/// lock probes are taken in order, one for each seat shown as free.
pub fn update_seats_with_reservations(seats: &mut Vec<Seat>, locked: &Vec<bool>)
    ensures
        final(seats)@.len() == old(seats)@.len(),
        forall|i: int|
            0 <= i < old(seats)@.len() ==> #[trigger] final(seats)@[i] == (Seat {
                status: spec_shown(old(seats)@, locked@, i),
                ..old(seats)@[i]
            }),
{
    let mut probe: usize = 0;
    let mut i: usize = 0;
    while i < seats.len()
        invariant
            i <= seats.len(),
            seats@.len() == old(seats)@.len(),
            probe == spec_lock_probes(old(seats)@.take(i as int)).len(),
            probe <= i,
            forall|j: int|
                0 <= j < i ==> #[trigger] seats@[j] == (Seat {
                    status: spec_shown(old(seats)@, locked@, j),
                    ..old(seats)@[j]
                }),
            forall|j: int| i <= j < seats@.len() ==> #[trigger] seats@[j] == old(seats)@[j],
        decreases seats.len() - i,
    {
        proof {
            assert(old(seats)@.take(i + 1).drop_last() =~= old(seats)@.take(i as int));
        }
        if seats[i].status == DisplayStatus::Free {
            if probe < locked.len() && locked[probe] {
                let seat = &mut seats[i];
                seat.status = DisplayStatus::Selected;
            }
            probe = probe + 1;
        }
        i = i + 1;
    }
}

} // verus!
