//! The replies of the HTTP surface: a health probe, and an orchestration
//! endpoint that makes one guarded call per request.

use crate::breaker::{BreakerState, CircuitBreaker};
use crate::policy::{guarded_call, OrchestrateError, MAX_ATTEMPTS};
use vstd::prelude::*;

verus! {

/// Address the service listens on.
pub const BIND_HOST: &'static str = "0.0.0.0";

/// Port the service listens on.
pub const BIND_PORT: u16 = 8081;

/// Path of the health probe, answered to `GET`.
pub const HEALTH_PATH: &'static str = "/health";

/// Path of the orchestration endpoint, answered to `POST`.
pub const ORCHESTRATE_PATH: &'static str = "/orchestrate";

/// How many attempts of the simulated downstream call fail before one
/// succeeds.
pub const SIMULATED_FAILURES: u32 = 2;

/// A reply: the status code and the body sent with it.
#[derive(Clone, Copy, Debug)]
pub struct Reply {
    pub status: u16,
    pub body: &'static str,
}

impl Reply {
    /// Whether this reply carries the given status and body.
    pub open spec fn says(self, status: u16, body: Seq<char>) -> bool {
        self.status == status && self.body@ == body
    }
}

/// The reply to the health probe: always 200 "OK", whatever any breaker
/// holds.
pub fn health() -> (reply: Reply)
    ensures
        reply.says(200, "OK"@),
{
    Reply { status: 200, body: "OK" }
}

/// The reply that reports the outcome of a guarded call: 200 for success, 503
/// for a call the breaker blocked, 500 for an operation that failed at every
/// attempt.
pub fn reply_to(outcome: Result<(), OrchestrateError>) -> (reply: Reply)
    ensures
        match outcome {
            Ok(()) => reply.says(200, "Orchestration succeeded"@),
            Err(OrchestrateError::BreakerOpen) => reply.says(503, "Circuit breaker open"@),
            Err(OrchestrateError::OperationFailed) => reply.says(500, "Orchestration failed"@),
        },
{
    match outcome {
        Ok(()) => Reply { status: 200, body: "Orchestration succeeded" },
        Err(OrchestrateError::BreakerOpen) => Reply { status: 503, body: "Circuit breaker open" },
        Err(OrchestrateError::OperationFailed) => Reply {
            status: 500,
            body: "Orchestration failed",
        },
    }
}

/// The simulated downstream call: the first `SIMULATED_FAILURES` attempts
/// fail, every later one succeeds.
pub fn simulated_call(attempt: u32) -> (ok: bool)
    ensures
        ok == (attempt > SIMULATED_FAILURES),
{
    attempt > SIMULATED_FAILURES
}

/// Answers one request to the orchestration endpoint: a guarded call of the
/// simulated downstream call behind `cb`. A breaker that blocks calls right
/// now answers 503 and is left as it is; otherwise the third attempt succeeds,
/// the breaker is reset, and the answer is 200.
pub fn orchestrate(cb: &mut CircuitBreaker) -> (reply: Reply)
    requires
        old(cb)@.failures + MAX_ATTEMPTS <= u32::MAX,
    ensures
        reply.status == 503 ==> old(cb)@.open && final(cb)@ == old(cb)@ && reply.says(
            503,
            "Circuit breaker open"@,
        ),
        reply.status != 503 ==> final(cb)@ == BreakerState::fresh() && reply.says(
            200,
            "Orchestration succeeded"@,
        ),
        !old(cb)@.open ==> reply.status == 200,
{
    let outcome = guarded_call(cb, simulated_call);
    proof {
        assert(!call_ensures(simulated_call, (3u32,), false));
    }
    reply_to(outcome)
}

} // verus!
