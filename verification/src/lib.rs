//! On-ledger authorization module gating a single state transition —
//! activating a crowdfunding campaign — behind a verifiable fee payment.
//!
//! The processor authenticates the caller, recomputes the program-owned
//! signing authority, checks that the fee destination is controlled by that
//! authority and that the settlement engine is the genuine one, delegates the
//! fee transfer, and flips the campaign's enabled flag exactly once.

pub mod authority;
pub mod error;
pub mod instruction;
pub mod keys;
pub mod laws;
pub mod processor;
pub mod settlement;
pub mod state;
