//! A peer-to-peer wagering escrow.
//!
//! Two parties each stake an equal amount of one fungible token on opposite
//! sides of a binary outcome.  A challenger opens a wager, which creates a
//! wager record, a custody vault and a manager at addresses derived
//! deterministically from `(mint, name, challenger)`; a taker accepts it by
//! depositing the matching stake; an attester posts the outcome, which logs
//! an attestation record and drains the vault to the declared winner.
//!
//! The escrow state machine operates on a [`world::World`]: a keyed account
//! store together with an append-only attestation log.  Every operation is
//! an atomic transaction: it either applies all of its effects or returns an
//! error and leaves the world untouched.

pub mod accounts;
pub mod addr;
pub mod bytes;
pub mod errors;
pub mod laws;
pub mod memo;
pub mod store;
pub mod world;
