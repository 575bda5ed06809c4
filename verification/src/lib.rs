//! A circuit breaker with a timed cooldown, a bounded-retry policy for calls
//! guarded by it, and the replies of a small HTTP surface built on both.

pub mod breaker;
pub mod clock;
pub mod http;
pub mod policy;
