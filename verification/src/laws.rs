//! Laws of the escrow state machine, stated over the decision and effect
//! predicates that the operations' contracts are pinned by.  Each is proved
//! for every world and every input its statement admits, not for chosen
//! values.

use vstd::prelude::*;

use crate::accounts::derivable;
use crate::accounts::wager_addrs;
use crate::errors::{ErrorCodes, TxError};
use crate::store::{Entry, lookup};
use crate::world::{
    accept_effect, challenge_effect, config_at, manager_at, spec_accept, spec_challenge,
    token_at, token_balance,
};

verus! {

/// Law: a non-positive stake is always rejected.  On any world, a `challenge`
/// whose stake is zero — the only non-positive value of the unsigned stake —
/// decides `InvalidAmount`; by the operation's contract a rejected
/// transaction leaves the world unchanged, so no entities are created.
pub proof fn lemma_zero_stake_rejected(
    s: Seq<Entry>,
    mint: Seq<u8>,
    name: Seq<u8>,
    amount: u64,
    user: Seq<u8>,
    user_ata: Seq<u8>,
)
    requires
        amount == 0,
    ensures
        spec_challenge(s, mint, name, amount, user, user_ata) == Err::<(), TxError>(
            TxError::Program(ErrorCodes::InvalidAmount),
        ),
{
}

/// Whether a complete, correctly bound wager exists in `s` for
/// `(mint, name, challenger)`: its record, vault and manager are at their
/// derived addresses, the vault is in the wager's mint under the manager's
/// authority, and the manager is bound to exactly this vault and record.
/// `challenge` establishes this shape and the other operations preserve it.
pub open spec fn wager_wf(
    s: Seq<Entry>,
    mint: Seq<u8>,
    name: Seq<u8>,
    challenger: Seq<u8>,
) -> bool {
    &&& derivable(mint, name, challenger)
    &&& {
        let (ca, va, ma) = wager_addrs(mint, name, challenger);
        &&& config_at(s, ca) is Some
        &&& token_at(s, va) is Some
        &&& manager_at(s, ma) is Some
        &&& token_at(s, va)->0.mint == mint
        &&& token_at(s, va)->0.owner == ma
        &&& manager_at(s, ma)->0.vault == va
        &&& manager_at(s, ma)->0.config == ca
    }
}

/// Law: a wager can be accepted only once.  On any world holding a wager
/// whose taker is already set, `accept` decides `ChallengeTaken`, whoever
/// tries and whatever token account they bring; by the operation's contract
/// a rejected transaction leaves the world — the vault's balance included —
/// unchanged.
pub proof fn lemma_taken_wager_rejects_accept(
    s: Seq<Entry>,
    mint: Seq<u8>,
    name: Seq<u8>,
    challenger: Seq<u8>,
    user: Seq<u8>,
    user_ata: Seq<u8>,
)
    requires
        wager_wf(s, mint, name, challenger),
        config_at(s, wager_addrs(mint, name, challenger).0)->0.taker is Some,
    ensures
        spec_accept(s, mint, name, challenger, user, user_ata) == Err::<(), TxError>(
            TxError::Program(ErrorCodes::ChallengeTaken),
        ),
{
}

/// Law: duplicate protection.  Two `challenge` transactions for the same
/// `(mint, name, challenger)` are serialized by the ledger, and at most one
/// succeeds: once the first has taken effect, the wager record occupies its
/// derived address, so the second — whatever stake and funding account it
/// brings — is refused, as a duplicate whenever its stake passes the first
/// validation at all; and by the operation's contract the refused
/// transaction leaves no partial state.
pub proof fn lemma_duplicate_challenge_refused(
    pre: Seq<Entry>,
    post: Seq<Entry>,
    mint: Seq<u8>,
    name: Seq<u8>,
    amount: u64,
    side: bool,
    user: Seq<u8>,
    user_ata: Seq<u8>,
    amount2: u64,
    user_ata2: Seq<u8>,
)
    requires
        spec_challenge(pre, mint, name, amount, user, user_ata) is Ok,
        challenge_effect(pre, post, mint, name, amount, side, user, user_ata),
    ensures
        spec_challenge(post, mint, name, amount2, user, user_ata2) is Err,
        amount2 != 0 ==> spec_challenge(post, mint, name, amount2, user, user_ata2) == Err::<
            (),
            TxError,
        >(TxError::DuplicateAccount),
{
    assert(lookup(post, wager_addrs(mint, name, user).0) is Some);
}

/// Law: a successful `challenge` leaves a complete, correctly bound wager
/// behind — the shape `accept` and `post_result` check for — with the stake
/// in the vault and the taker absent.
pub proof fn lemma_challenge_establishes_wager(
    pre: Seq<Entry>,
    post: Seq<Entry>,
    mint: Seq<u8>,
    name: Seq<u8>,
    amount: u64,
    side: bool,
    user: Seq<u8>,
    user_ata: Seq<u8>,
)
    requires
        spec_challenge(pre, mint, name, amount, user, user_ata) is Ok,
        challenge_effect(pre, post, mint, name, amount, side, user, user_ata),
    ensures
        wager_wf(post, mint, name, user),
        config_at(post, wager_addrs(mint, name, user).0)->0.taker is None,
        config_at(post, wager_addrs(mint, name, user).0)->0.amount == amount,
        token_balance(post, wager_addrs(mint, name, user).1) == Some(amount),
{
}

/// Law: an accepted wager holds the doubled stake.  After a successful
/// `challenge` for `amount` and a successful `accept` of it, the vault's
/// balance is exactly `2 × amount` and the record's taker is the accepting
/// party.
pub proof fn lemma_accept_doubles_stake(
    s0: Seq<Entry>,
    s1: Seq<Entry>,
    s2: Seq<Entry>,
    mint: Seq<u8>,
    name: Seq<u8>,
    amount: u64,
    side: bool,
    challenger: Seq<u8>,
    challenger_ata: Seq<u8>,
    taker: Seq<u8>,
    taker_ata: Seq<u8>,
)
    requires
        spec_challenge(s0, mint, name, amount, challenger, challenger_ata) is Ok,
        challenge_effect(s0, s1, mint, name, amount, side, challenger, challenger_ata),
        spec_accept(s1, mint, name, challenger, taker, taker_ata) is Ok,
        accept_effect(s1, s2, mint, name, challenger, taker, taker_ata),
    ensures
        config_at(s2, wager_addrs(mint, name, challenger).0)->0.taker == Some(taker),
        token_balance(s2, wager_addrs(mint, name, challenger).1) == Some((2 * amount) as u64),
        2 * amount <= u64::MAX,
{
}

} // verus!
