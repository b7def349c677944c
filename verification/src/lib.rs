//! Verified core of two small serverless handlers.
//!
//! The library holds the logic that each invocation runs: converting an
//! HTTP-shaped event body between its external tagged form and internal
//! bytes, dispatching a request against an immutable route table, and
//! deciding a raw invocation's outcome from its configuration and context.
//! The surrounding runtime (event polling, environment reads, log writes)
//! stays outside the library and hands it plain values.

pub mod body;
pub mod error;
pub mod invocation;
pub mod router;
