//! A minimal identity-and-points ledger.
//!
//! Users register under a human-readable name, receive a unique numeric
//! identifier minted from a timestamp-and-counter generator, start with a
//! balance of 1000 points, and may transfer points to one another under
//! ownership and overflow checks. The host environment that persists
//! records, verifies signatures and serializes calls is out of scope: every
//! operation here works on plain values handed in by that environment.

pub mod errors;
pub mod idgen;
pub mod user;
pub mod store;
pub mod ledger;
pub mod lifecycle;
