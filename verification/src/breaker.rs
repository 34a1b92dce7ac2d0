//! The circuit breaker in front of the payment gateway.
//!
//! Closed lets every call through and counts failures in a row; at the
//! threshold it opens. Open rejects every call until the timeout has passed
//! since the last failure; the first call after that is let through as a
//! probe and the breaker is half open. A probe that succeeds closes the
//! breaker, one that fails opens it again.

use vstd::prelude::*;
use tokio::time::Instant;

verus! {

/// A point on tokio's monotonic clock. Nothing is known of a value but that
/// it can be handed back to the clock.
#[verifier::external_type_specification]
#[verifier::external_body]
pub struct ExInstant(tokio::time::Instant);

/// `tokio::time::Instant::now`: the present moment. Nothing is claimed of
/// the value.
#[verifier::external_body]
fn instant_now() -> Instant {
    Instant::now()
}

/// `tokio::time::Instant::elapsed`, in whole seconds: the time since
/// `start`. Nothing is claimed of the value; the clock decides.
#[verifier::external_body]
fn seconds_since(start: &Instant) -> u64 {
    start.elapsed().as_secs()
}

/// The three states of a circuit breaker.
#[derive(Clone, Copy, Debug, PartialEq, Eq, Structural)]
pub enum CircuitState {
    /// Calls go through.
    Closed,
    /// Calls are rejected.
    Open,
    /// A probe is under way.
    HalfOpen,
}

/// What a circuit breaker holds, as plain numbers. Times are seconds on the
/// breaker's own clock.
pub struct BreakerView {
    pub state: CircuitState,
    pub failure_count: u32,
    pub last_failure_time: u64,
    pub failure_threshold: u32,
    pub timeout_seconds: u64,
}

impl BreakerView {
    /// The seconds between the last failure and `now`; none if the clock
    /// reads less than it did then.
    pub open spec fn elapsed(self, now: u64) -> int {
        if now >= self.last_failure_time {
            now - self.last_failure_time
        } else {
            0
        }
    }

    /// Whether the open breaker has waited long enough at `now`.
    pub open spec fn timed_out(self, now: u64) -> bool {
        self.elapsed(now) >= self.timeout_seconds
    }

    /// Whether a call attempted at `now` is let through.
    pub open spec fn admits(self, now: u64) -> bool {
        self.state != CircuitState::Open || self.timed_out(now)
    }

    /// The breaker after a call was attempted at `now`.
    pub open spec fn after_attempt(self, now: u64) -> BreakerView {
        if self.state == CircuitState::Open && self.timed_out(now) {
            BreakerView { state: CircuitState::HalfOpen, ..self }
        } else {
            self
        }
    }

    /// The breaker after a call succeeded.
    pub open spec fn after_success(self) -> BreakerView {
        match self.state {
            CircuitState::Open => self,
            _ => BreakerView { state: CircuitState::Closed, failure_count: 0, ..self },
        }
    }

    /// The failure count after one more failure: it stops at the largest
    /// number it can hold.
    pub open spec fn bumped(self) -> u32 {
        if self.failure_count < u32::MAX {
            (self.failure_count + 1) as u32
        } else {
            u32::MAX
        }
    }

    /// The breaker after a call failed at `now`.
    pub open spec fn after_failure(self, now: u64) -> BreakerView {
        BreakerView {
            state: if self.state == CircuitState::Closed && self.bumped() < self.failure_threshold {
                CircuitState::Closed
            } else {
                CircuitState::Open
            },
            failure_count: self.bumped(),
            last_failure_time: now,
            ..self
        }
    }
}

/// A circuit breaker with its own clock, which starts when the breaker is
/// made.
#[derive(Debug)]
pub struct CircuitBreaker {
    state: CircuitState,
    failure_count: u32,
    last_failure_time: u64,
    failure_threshold: u32,
    timeout_seconds: u64,
    started: Instant,
}

impl View for CircuitBreaker {
    type V = BreakerView;

    closed spec fn view(&self) -> BreakerView {
        BreakerView {
            state: self.state,
            failure_count: self.failure_count,
            last_failure_time: self.last_failure_time,
            failure_threshold: self.failure_threshold,
            timeout_seconds: self.timeout_seconds,
        }
    }
}

impl CircuitBreaker {
    /// A closed breaker that has counted no failure.
    pub fn new(failure_threshold: u32, timeout_seconds: u64) -> (breaker: CircuitBreaker)
        ensures
            breaker@ == (BreakerView {
                state: CircuitState::Closed,
                failure_count: 0,
                last_failure_time: 0,
                failure_threshold,
                timeout_seconds,
            }),
    {
        CircuitBreaker {
            state: CircuitState::Closed,
            failure_count: 0,
            last_failure_time: 0,
            failure_threshold,
            timeout_seconds,
            started: instant_now(),
        }
    }

    /// Whether a call may go out when the breaker's clock reads `now`; an
    /// open breaker whose timeout has passed becomes half open.
    pub fn can_execute_at(&mut self, now: u64) -> (admitted: bool)
        ensures
            admitted == old(self)@.admits(now),
            final(self)@ == old(self)@.after_attempt(now),
    {
        let last = self.last_failure_time;
        let elapsed: u64 = if now >= last {
            now - last
        } else {
            0
        };
        if self.state != CircuitState::Open {
            true
        } else if elapsed >= self.timeout_seconds {
            self.state = CircuitState::HalfOpen;
            true
        } else {
            false
        }
    }

    /// Whether a call may go out now. The breaker reads its clock; what
    /// follows holds for whatever the clock said.
    pub fn can_execute(&mut self) -> (admitted: bool)
        ensures
            exists|now: u64|
                admitted == old(self)@.admits(now) && final(self)@ == old(self)@.after_attempt(now),
    {
        let now = seconds_since(&self.started);
        self.can_execute_at(now)
    }

    /// Takes note of a call that succeeded.
    pub fn record_success(&mut self)
        ensures
            final(self)@ == old(self)@.after_success(),
    {
        if self.state != CircuitState::Open {
            self.state = CircuitState::Closed;
            self.failure_count = 0;
        }
    }

    /// Takes note of a call that failed when the breaker's clock read `now`.
    pub fn record_failure_at(&mut self, now: u64)
        ensures
            final(self)@ == old(self)@.after_failure(now),
    {
        if self.failure_count < u32::MAX {
            self.failure_count = self.failure_count + 1;
        }
        self.last_failure_time = now;
        if self.state != CircuitState::Closed || self.failure_count >= self.failure_threshold {
            self.state = CircuitState::Open;
        }
    }

    /// Takes note of a call that failed now. The breaker reads its clock;
    /// what follows holds for whatever the clock said.
    pub fn record_failure(&mut self)
        ensures
            exists|now: u64| final(self)@ == old(self)@.after_failure(now),
    {
        let now = seconds_since(&self.started);
        self.record_failure_at(now);
    }

    /// The state the breaker is in.
    pub fn get_state(&self) -> (state: CircuitState)
        ensures
            state == self@.state,
    {
        self.state
    }

    /// The failures counted since the breaker last closed.
    pub fn failure_count(&self) -> (count: u32)
        ensures
            count == self@.failure_count,
    {
        self.failure_count
    }
}

/// What can happen to a breaker.
pub enum BreakerEvent {
    /// A call was attempted at a time.
    Attempt(u64),
    /// A call succeeded.
    Success,
    /// A call failed at a time.
    Failure(u64),
}

/// The breaker after one event.
pub open spec fn after_event(breaker: BreakerView, event: BreakerEvent) -> BreakerView {
    match event {
        BreakerEvent::Attempt(now) => breaker.after_attempt(now),
        BreakerEvent::Success => breaker.after_success(),
        BreakerEvent::Failure(now) => breaker.after_failure(now),
    }
}

/// The breaker after a sequence of events, in order.
pub open spec fn after_events(breaker: BreakerView, events: Seq<BreakerEvent>) -> BreakerView
    decreases events.len(),
{
    if events.len() == 0 {
        breaker
    } else {
        after_event(after_events(breaker, events.drop_last()), events.last())
    }
}

/// The number of failures among events.
pub open spec fn failures_in(events: Seq<BreakerEvent>) -> nat
    decreases events.len(),
{
    if events.len() == 0 {
        0
    } else {
        failures_in(events.drop_last()) + if events.last() is Failure {
            1nat
        } else {
            0nat
        }
    }
}

/// No success among events.
pub open spec fn no_success_in(events: Seq<BreakerEvent>) -> bool {
    forall|i: int| 0 <= i < events.len() ==> !(#[trigger] events[i] is Success)
}

proof fn lemma_failures_keep_count(breaker: BreakerView, events: Seq<BreakerEvent>)
    requires
        no_success_in(events),
    ensures
        ({
            let after = after_events(breaker, events);
            after.state == CircuitState::Closed ==> after.failure_count >= failures_in(events)
                || after.failure_count == u32::MAX
        }),
        after_events(breaker, events).failure_threshold == breaker.failure_threshold,
    decreases events.len(),
{
    if events.len() > 0 {
        let before = events.drop_last();
        assert forall|i: int| 0 <= i < before.len() implies !(#[trigger] before[i] is Success) by {
            assert(before[i] == events[i]);
        }
        lemma_failures_keep_count(breaker, before);
        assert(!(events[events.len() - 1] is Success));
    }
}

/// However calls are interleaved: once as many failures as the threshold
/// have been recorded with no success among them, the breaker is open after
/// the last of these failures, whatever state it started in and whatever
/// attempts came between.
pub proof fn lemma_failures_open_breaker(breaker: BreakerView, events: Seq<BreakerEvent>)
    requires
        no_success_in(events),
        events.len() > 0,
        events.last() is Failure,
        failures_in(events) >= breaker.failure_threshold,
    ensures
        after_events(breaker, events).state == CircuitState::Open,
{
    let before = events.drop_last();
    assert forall|i: int| 0 <= i < before.len() implies !(#[trigger] before[i] is Success) by {
        assert(before[i] == events[i]);
    }
    lemma_failures_keep_count(breaker, before);
}

/// An open breaker whose timeout has passed since the last failure lets the
/// next call through and is half open from then on; before that it rejects
/// the call and stays open.
pub proof fn lemma_open_breaker_probes(breaker: BreakerView, now: u64)
    requires
        breaker.state == CircuitState::Open,
    ensures
        breaker.timed_out(now) ==> breaker.admits(now) && breaker.after_attempt(now).state
            == CircuitState::HalfOpen,
        !breaker.timed_out(now) ==> !breaker.admits(now) && breaker.after_attempt(now) == breaker,
{
}

/// A probe that succeeds closes the breaker and clears the failure count; a
/// probe that fails opens the breaker again.
pub proof fn lemma_probe_decides(breaker: BreakerView, now: u64)
    requires
        breaker.state == CircuitState::HalfOpen,
    ensures
        breaker.after_success().state == CircuitState::Closed,
        breaker.after_success().failure_count == 0,
        breaker.after_failure(now).state == CircuitState::Open,
{
}

} // verus!
