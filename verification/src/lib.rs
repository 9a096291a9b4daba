//! Keeper registry: an escrow-backed task market in which task owners post
//! funded automation jobs and keepers claim, execute and get paid for them.
pub mod types;
pub mod rules;
pub mod ledger;
pub mod registry;
pub mod laws;
pub mod isolation;
pub mod bytes;
pub mod verifiers;
pub mod fuzzing;
