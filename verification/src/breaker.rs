//! The circuit breaker: a failure counter that trips at a threshold and
//! blocks calls until a cooldown has passed.

use std::time::Instant;
use vstd::prelude::*;

verus! {

/// Number of consecutive failures at which the breaker trips.
pub const FAILURE_THRESHOLD: u32 = 3;

/// Length of the cooldown, in nanoseconds (30 seconds).
pub const COOLDOWN_NANOS: u128 = 30_000_000_000;

/// The mathematical state of a breaker.
pub ghost struct BreakerState {
    /// Consecutive failures since the last reset.
    pub failures: nat,
    /// When the latest failure was recorded.
    pub last_failure: Option<Instant>,
    /// Whether the breaker has tripped.
    pub open: bool,
}

impl BreakerState {
    /// The state of a breaker that has seen no failure.
    pub open spec fn fresh() -> BreakerState {
        BreakerState { failures: 0, last_failure: None, open: false }
    }

    /// The state after one more failure, recorded at `now`.
    pub open spec fn after_failure(self, now: Instant) -> BreakerState {
        BreakerState {
            failures: self.failures + 1,
            last_failure: Some(now),
            open: self.open || self.failures + 1 >= FAILURE_THRESHOLD,
        }
    }

    /// The state after a run of failures, recorded one after another at the
    /// given stamps.
    pub open spec fn after_failures(self, stamps: Seq<Instant>) -> BreakerState
        decreases stamps.len(),
    {
        if stamps.len() == 0 {
            self
        } else {
            self.after_failures(stamps.drop_last()).after_failure(stamps.last())
        }
    }

    /// Whether calls are blocked once `elapsed_nanos` nanoseconds have passed
    /// since the latest failure: the breaker has tripped and the cooldown has
    /// not run out. The cooldown has run out when strictly more than
    /// `COOLDOWN_NANOS` have passed.
    pub open spec fn blocks_after(self, elapsed_nanos: nat) -> bool {
        self.open && elapsed_nanos <= COOLDOWN_NANOS
    }

    /// What every breaker satisfies: it is tripped exactly when the threshold
    /// has been reached, and it carries a stamp exactly when it has counted a
    /// failure.
    pub open spec fn well_formed(self) -> bool {
        &&& self.open <==> self.failures >= FAILURE_THRESHOLD
        &&& self.last_failure is None <==> self.failures == 0
    }
}

/// Every failure is counted: a run of failures raises the count by its
/// length, whatever the stamps, so no recorded failure is ever lost. The
/// breaker is tripped afterwards exactly when the count has reached the
/// threshold, it carries the stamp of the last failure of the run, and it is
/// well formed again.
pub proof fn lemma_failures_are_counted(s: BreakerState, stamps: Seq<Instant>)
    requires
        s.well_formed(),
    ensures
        s.after_failures(stamps).failures == s.failures + stamps.len(),
        s.after_failures(stamps).open <==> s.failures + stamps.len() >= FAILURE_THRESHOLD,
        stamps.len() > 0 ==> s.after_failures(stamps).last_failure == Some(stamps.last()),
        s.after_failures(stamps).well_formed(),
    decreases stamps.len(),
{
    if stamps.len() > 0 {
        lemma_failures_are_counted(s, stamps.drop_last());
    }
}

/// Counting from a breaker with no failures, the breaker is closed until the
/// failure that brings the count to the threshold, tripped by that failure,
/// and tripped after every failure that follows it.
pub proof fn lemma_trips_at_threshold(stamps: Seq<Instant>)
    ensures
        BreakerState::fresh().after_failures(stamps).open <==> stamps.len() >= FAILURE_THRESHOLD,
{
    lemma_failures_are_counted(BreakerState::fresh(), stamps);
}

/// A failure that brings the count to the threshold, or finds it there,
/// leaves the breaker tripped, and calls are blocked from the moment it is
/// recorded until the cooldown has run out. Once more than the cooldown has
/// passed, calls are let through again, though the breaker stays tripped.
pub proof fn lemma_cooldown(s: BreakerState, now: Instant, elapsed_nanos: nat)
    requires
        s.failures + 1 >= FAILURE_THRESHOLD,
    ensures
        s.after_failure(now).open,
        s.after_failure(now).blocks_after(0),
        s.after_failure(now).blocks_after(elapsed_nanos) <==> elapsed_nanos <= COOLDOWN_NANOS,
{
}

/// A circuit breaker. It counts consecutive failures, trips when the count
/// reaches `FAILURE_THRESHOLD`, and then blocks calls until `COOLDOWN_NANOS`
/// have passed since the latest failure. Only `reset` closes it again.
pub struct CircuitBreaker {
    failures: u32,
    last_failure: Option<Instant>,
    open: bool,
}

impl View for CircuitBreaker {
    type V = BreakerState;

    closed spec fn view(&self) -> BreakerState {
        BreakerState {
            failures: self.failures as nat,
            last_failure: self.last_failure,
            open: self.open,
        }
    }
}

impl CircuitBreaker {
    /// Every breaker is well formed, at all times.
    #[verifier::type_invariant]
    pub open spec fn inv(self) -> bool {
        self@.well_formed()
    }

    /// A closed breaker with no recorded failure.
    pub fn new() -> (cb: CircuitBreaker)
        ensures
            cb@ == BreakerState::fresh(),
    {
        CircuitBreaker { failures: 0, last_failure: None, open: false }
    }

    /// Counts one more failure and stamps it with `now`; trips the breaker
    /// when the count reaches the threshold.
    pub fn record_failure_at(&mut self, now: Instant)
        requires
            old(self)@.failures < u32::MAX,
        ensures
            final(self)@ == old(self)@.after_failure(now),
    {
        proof {
            use_type_invariant(&*self);
        }
        let failures: u32 = self.failures + 1;
        *self = CircuitBreaker {
            failures,
            last_failure: Some(now),
            open: self.open || failures >= FAILURE_THRESHOLD,
        };
    }

    /// Counts one more failure and stamps it with the current reading of the
    /// monotonic clock.
    pub fn record_failure(&mut self)
        requires
            old(self)@.failures < u32::MAX,
        ensures
            final(self)@.last_failure is Some,
            final(self)@ == old(self)@.after_failure(final(self)@.last_failure->0),
    {
        self.record_failure_at(Instant::now());
    }

    /// Closes the breaker and forgets every recorded failure.
    pub fn reset(&mut self)
        ensures
            final(self)@ == BreakerState::fresh(),
    {
        *self = CircuitBreaker { failures: 0, last_failure: None, open: false };
    }

    /// Whether calls are blocked when `elapsed_nanos` nanoseconds have passed
    /// since the latest failure. The breaker is left as it is: a cooldown that
    /// has run out lets calls through without closing the breaker.
    pub fn is_open_after(&self, elapsed_nanos: u128) -> (blocked: bool)
        ensures
            blocked == self@.blocks_after(elapsed_nanos as nat),
    {
        self.open && elapsed_nanos <= COOLDOWN_NANOS
    }

    /// Whether calls are blocked right now, by the monotonic clock.
    pub fn is_open(&self) -> (blocked: bool)
        ensures
            blocked ==> self@.open,
    {
        if self.open {
            if let Some(last) = &self.last_failure {
                let elapsed = last.elapsed();
                return self.is_open_after(elapsed.as_nanos());
            }
            return true;
        }
        false
    }

    /// Consecutive failures since the last reset.
    pub fn failures(&self) -> (n: u32)
        ensures
            n == self@.failures,
    {
        self.failures
    }

    /// When the latest failure was recorded, if any has been since the last
    /// reset.
    pub fn last_failure(&self) -> (stamp: Option<Instant>)
        ensures
            stamp == self@.last_failure,
    {
        self.last_failure
    }

    /// Whether the breaker has tripped, whatever the clock says.
    pub fn is_tripped(&self) -> (tripped: bool)
        ensures
            tripped == self@.open,
    {
        self.open
    }
}

} // verus!
