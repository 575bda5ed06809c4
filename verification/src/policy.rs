//! The guarded call: an operation is attempted a bounded number of times
//! behind a circuit breaker, and the breaker learns of each outcome.

use crate::breaker::{
    lemma_failures_are_counted, BreakerState, CircuitBreaker, COOLDOWN_NANOS,
};
use std::time::Instant;
use vstd::prelude::*;

verus! {

/// How many times one guarded call attempts its operation at most.
pub const MAX_ATTEMPTS: u32 = 3;

/// Why a guarded call did not succeed.
#[derive(Clone, Copy, Debug, PartialEq, Eq, Structural)]
pub enum OrchestrateError {
    /// The breaker blocked the call: the operation was not attempted.
    BreakerOpen,
    /// Every attempt of the operation failed.
    OperationFailed,
}

/// What a run of attempts on a breaker in state `pre` leaves behind, `op`
/// being asked for the outcome of attempt 1, 2, and so on:
/// - it succeeds when some attempt, preceded by failures only, succeeds, and
///   the breaker is then reset;
/// - it fails when all `MAX_ATTEMPTS` attempts fail, and the breaker has then
///   counted each of them.
pub open spec fn attempted<F: Fn(u32) -> bool>(
    pre: BreakerState,
    op: F,
    post: BreakerState,
    outcome: Result<(), OrchestrateError>,
) -> bool {
    match outcome {
        Ok(()) => {
            &&& post == BreakerState::fresh()
            &&& exists|n: u32|
                {
                    &&& 1 <= n <= MAX_ATTEMPTS
                    &&& #[trigger] call_ensures(op, (n,), true)
                    &&& forall|i: u32| 1 <= i < n ==> #[trigger] call_ensures(op, (i,), false)
                }
        },
        Err(OrchestrateError::OperationFailed) => {
            &&& forall|i: u32| 1 <= i <= MAX_ATTEMPTS ==> #[trigger] call_ensures(op, (i,), false)
            &&& exists|stamps: Seq<Instant>|
                stamps.len() == MAX_ATTEMPTS && post == #[trigger] pre.after_failures(stamps)
        },
        Err(OrchestrateError::BreakerOpen) => false,
    }
}

/// A run of attempts that all fail leaves the breaker tripped, with every
/// attempt counted: until the cooldown has run out, the next guarded call is
/// rejected.
pub proof fn lemma_failed_run_trips<F: Fn(u32) -> bool>(
    pre: BreakerState,
    op: F,
    post: BreakerState,
    elapsed_nanos: nat,
)
    requires
        pre.well_formed(),
        attempted(pre, op, post, Err(OrchestrateError::OperationFailed)),
    ensures
        post.failures == pre.failures + MAX_ATTEMPTS,
        post.open,
        post.last_failure is Some,
        post.blocks_after(elapsed_nanos) <==> elapsed_nanos <= COOLDOWN_NANOS,
{
    let stamps = choose|stamps: Seq<Instant>|
        stamps.len() == MAX_ATTEMPTS && post == #[trigger] pre.after_failures(stamps);
    lemma_failures_are_counted(pre, stamps);
}

/// Attempts `op` up to `MAX_ATTEMPTS` times, handing it the number of the
/// attempt, counted from 1. Each failed attempt is recorded on the breaker; the
/// first success resets the breaker and ends the run.
pub fn retry<F: Fn(u32) -> bool>(cb: &mut CircuitBreaker, op: F) -> (outcome: Result<
    (),
    OrchestrateError,
>)
    requires
        forall|n: u32| 1 <= n <= MAX_ATTEMPTS ==> call_requires(op, (n,)),
        old(cb)@.failures + MAX_ATTEMPTS <= u32::MAX,
    ensures
        attempted(old(cb)@, op, final(cb)@, outcome),
{
    let ghost mut stamps: Seq<Instant> = Seq::empty();
    let mut attempt: u32 = 0;
    while attempt < MAX_ATTEMPTS
        invariant
            attempt <= MAX_ATTEMPTS,
            stamps.len() == attempt,
            cb@ == old(cb)@.after_failures(stamps),
            cb@.failures == old(cb)@.failures + attempt,
            old(cb)@.failures + MAX_ATTEMPTS <= u32::MAX,
            forall|n: u32| 1 <= n <= MAX_ATTEMPTS ==> call_requires(op, (n,)),
            forall|i: u32| 1 <= i <= attempt ==> #[trigger] call_ensures(op, (i,), false),
        decreases MAX_ATTEMPTS - attempt,
    {
        attempt = attempt + 1;
        if op(attempt) {
            cb.reset();
            return Ok(());
        }
        cb.record_failure();
        proof {
            let grown = stamps.push(cb@.last_failure->0);
            assert(grown.drop_last() == stamps);
            stamps = grown;
        }
    }
    Err(OrchestrateError::OperationFailed)
}

/// Makes one guarded call on a breaker whose latest failure, if it has any,
/// lies `elapsed_nanos` nanoseconds back. A breaker that blocks calls at that
/// point rejects the call: `op` is not attempted and nothing is counted.
/// Otherwise `op` is attempted as `retry` does.
pub fn guarded_call_after<F: Fn(u32) -> bool>(
    cb: &mut CircuitBreaker,
    elapsed_nanos: u128,
    op: F,
) -> (outcome: Result<(), OrchestrateError>)
    requires
        forall|n: u32| 1 <= n <= MAX_ATTEMPTS ==> call_requires(op, (n,)),
        old(cb)@.failures + MAX_ATTEMPTS <= u32::MAX,
    ensures
        outcome matches Err(OrchestrateError::BreakerOpen) <==> old(cb)@.blocks_after(
            elapsed_nanos as nat,
        ),
        match outcome {
            Err(OrchestrateError::BreakerOpen) => final(cb)@ == old(cb)@,
            _ => attempted(old(cb)@, op, final(cb)@, outcome),
        },
{
    if cb.is_open_after(elapsed_nanos) {
        return Err(OrchestrateError::BreakerOpen);
    }
    retry(cb, op)
}

/// Makes one guarded call, the time since the latest failure being read from
/// the monotonic clock. Which way a tripped breaker decides depends on that
/// reading; a breaker that has not tripped never rejects the call.
pub fn guarded_call<F: Fn(u32) -> bool>(cb: &mut CircuitBreaker, op: F) -> (outcome: Result<
    (),
    OrchestrateError,
>)
    requires
        forall|n: u32| 1 <= n <= MAX_ATTEMPTS ==> call_requires(op, (n,)),
        old(cb)@.failures + MAX_ATTEMPTS <= u32::MAX,
    ensures
        outcome matches Err(OrchestrateError::BreakerOpen) ==> old(cb)@.open,
        match outcome {
            Err(OrchestrateError::BreakerOpen) => final(cb)@ == old(cb)@,
            _ => attempted(old(cb)@, op, final(cb)@, outcome),
        },
{
    if cb.is_open() {
        return Err(OrchestrateError::BreakerOpen);
    }
    retry(cb, op)
}

} // verus!
