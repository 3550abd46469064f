//! An authorization and rate-limiting engine for API-style access credentials.
//!
//! A *service* owns a set of *keys*. Each key carries a permission bitmask, a
//! fixed-window usage quota, an optional expiry, and a revocable lifecycle.
//! Every operation is a pure function from the current record state, the
//! current time, and the caller's verified identity to either a new record
//! state plus a notification event, or a specific rejection. Durable storage,
//! caller authentication, and event delivery are the host's concern: the host
//! loads records, passes in the clock reading and the authenticated caller
//! identity, and writes back whatever the engine returns.

pub mod errors;
pub mod events;
pub mod key;
pub mod laws;
pub mod limiter;
pub mod permissions;
pub mod service;
pub mod windows;
