//! A ledger-backed, TTL-governed, duplicate-rejecting tally store.
//!
//! The crate models a single-choice ballot kept in a host ledger's key/value
//! store. State lives in two storage tiers: an aggregate tier whose keys share
//! one expiration horizon, and a per-principal tier where every record expires
//! independently. A submission is validated, checked against the
//! duplicate-submission guard, recorded, and folded into the aggregate
//! counters; every mutating access runs the lifetime-extension policy on the
//! tier it touched. All state is explicit: the host's store is mirrored by
//! plain data passed into and returned from every operation, and the current
//! ledger position is an argument, never ambient.

pub mod convert;
pub mod errors;
pub mod record;
pub mod store;
pub mod tally;
pub mod ttl;
