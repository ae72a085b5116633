//! A permissioned fungible-token ledger.
//!
//! The crate tracks balances, allowances and the total supply of a single
//! asset.  Every mutation is guarded by role-based authorization, a global
//! pause switch and an ordered, fail-fast validation pipeline.  The hosting
//! environment (caller authentication, storage, the event bus) is kept
//! outside: entry points receive already-authenticated caller identifiers,
//! state lives in an explicit [`contract::MyStablecoin`] value, and emitted
//! events are recorded in order on that value.

pub mod contract;
pub mod extensions;
pub mod laws;
pub mod ledger;
pub mod types;
pub mod utils;
