//! Errors that abort an escrow transaction.

use vstd::prelude::*;

verus! {

/// The escrow state machine's own validation errors.
#[derive(Clone, Copy, Debug, PartialEq, Eq, Structural)]
pub enum ErrorCodes {
    /// This challenge has already been taken.
    ChallengeTaken,
    /// Invalid bet amount.
    InvalidAmount,
}

/// Everything that can abort a transaction against the world: either one of
/// the state machine's own validation errors, or a failure reported by one of
/// its external collaborators (the keyed account store, which rejects creation
/// at an occupied address, and the token ledger, which rejects a transfer the
/// source cannot cover or the destination cannot hold).  A transaction that
/// returns an error has no effect at all.
#[derive(Clone, Copy, Debug, PartialEq, Eq, Structural)]
pub enum TxError {
    /// The escrow logic itself rejected the operation.
    Program(ErrorCodes),
    /// An account was to be created at an address that is already occupied.
    DuplicateAccount,
    /// No escrow account of the expected kind exists at a derived address.
    MissingAccount,
    /// An escrow account exists but does not satisfy the operation's
    /// constraints (a vault in the wrong mint or under the wrong authority,
    /// or a manager bound to different accounts).
    ConstraintViolation,
    /// The token account given as transfer source or destination is missing,
    /// is in the wrong mint, has the wrong owner, or is the vault itself.
    BadTokenAccount,
    /// The transfer source does not cover the stake.
    InsufficientFunds,
    /// The transfer destination cannot hold the credited amount.
    BalanceOverflow,
    /// No address can be derived from the seed tuple.
    AddressUnavailable,
}

} // verus!
