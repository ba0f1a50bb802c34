//! Graceful-shutdown coordination: a supervisor spawns several workers, each
//! racing a bounded work timer against a shared cancellation signal; the first
//! worker to finish (or an operator interrupt) triggers cancellation, cancelled
//! workers acknowledge, and the supervisor drains the acknowledgment channel
//! until every producer handle has been released.

pub mod channel;
pub mod signal;
pub mod supervisor;
pub mod worker;
