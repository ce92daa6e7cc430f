//! A bounty marketplace kernel: a creator escrows a reward against a task,
//! an agent claims and completes it, and the reward is released only after
//! the creator's approval, with a reputation ledger updated on the way.
//!
//! The crate holds the rules alone: which lifecycle transitions are legal,
//! who may trigger them, how escrowed funds move with the state, and how
//! each record is laid out on the wire. The host ledger that stores the
//! records, authenticates signers and moves tokens is driven from outside.

mod principal;
pub mod codec;
pub mod lifecycle;
pub mod records;
pub mod simple;
pub mod wire;

pub use principal::Principal;
