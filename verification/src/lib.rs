//! A correlation-based response broker.
//!
//! A caller registers a single-use waiting point under a correlation
//! identifier, issues its outbound request tagged with that identifier, and an
//! independent task later delivers exactly one response to that waiting point
//! by identifier. The registry guarantees registration without silent
//! overwrite, at most one delivery per identifier, and idempotent
//! cancellation.

pub mod delivery;
pub mod entity;
pub mod errors;
pub mod laws;
pub mod registry;
pub mod waiter;
