//! Reference task verifiers: an oracle cross-check, a signature check, and
//! a same-transaction inclusion check.
pub mod oracle;
pub mod signature;
pub mod inclusion;
pub mod identity;
