//! Consensus checks that a candidate block must pass before it is accepted.
//!
//! A block is checked in a fixed order: it holds transactions, no transaction
//! hash occurs twice, the cellbase obeys its rules, the merkle root matches
//! the header, the uncles are admissible, and every transaction that is no
//! cellbase passes the transaction rules. Each check is a small verifier that
//! borrows the block and can be called on its own; `block::BlockVerifier`
//! runs them all.
//!
//! Every check comes with a function that states its outcome as a
//! mathematical value, and is proved to return exactly that. Where a check
//! hands work to rules from outside, its outcome is stated over what those
//! rules answered, by their own postconditions.

pub mod block;
pub mod cellbase;
pub mod collections;
pub mod error;
pub mod provider;
pub mod structure;
pub mod transactions;
pub mod types;
pub mod uncles;
