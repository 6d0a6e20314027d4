//! The escrow state machine.
//!
//! A [`World`] is the state one escrow program sees: the keyed account store
//! and the append-only attestation log.  Each operation is one atomic
//! transaction: it validates, then either applies every effect or returns an
//! error and leaves the world exactly as it was.  Each operation's result is
//! pinned by a decision function (`spec_*`) over the pre-state, and its
//! effects by an effect predicate (`*_effect`) relating pre- and post-state.
//!
//! The wager lifecycle is `challenge` (create record, vault and manager,
//! deposit the challenger's stake) → `accept` (set the taker, deposit the
//! matching stake) → `post_result` (log an attestation and drain the vault
//! to the declared winner).

use vstd::prelude::*;

use crate::accounts::{
    Accept, Account, AccountModel, Challenge, ChallengeConfig, CloseChallenge, ConfigModel,
    Initialize, Manager, ManagerModel, PostResult, TokenAccount, TokenModel, derivable,
    wager_addrs,
};
use crate::bytes::{bytes_eq, clone_bytes, is_addr};
use crate::errors::{ErrorCodes, TxError};
use crate::memo::{memo_instruction_data, memo_of, render_memo};
use crate::store::{
    Entry, find_index, lemma_lookup_push, lemma_lookup_update, lookup, set_entry,
};

verus! {

/// The state of one escrow program: its keyed account store and its
/// append-only attestation log.
pub struct World {
    /// The keyed account store.
    pub accounts: Vec<Entry>,
    /// The attestation log, oldest record first.
    pub log: Vec<Vec<u8>>,
}

/// The wager record at `a`, if the account there is one.
pub open spec fn config_at(s: Seq<Entry>, a: Seq<u8>) -> Option<ConfigModel> {
    match lookup(s, a) {
        Some(AccountModel::Config(c)) => Some(c),
        _ => None,
    }
}

/// The token account at `a`, if the account there is one.
pub open spec fn token_at(s: Seq<Entry>, a: Seq<u8>) -> Option<TokenModel> {
    match lookup(s, a) {
        Some(AccountModel::Token(t)) => Some(t),
        _ => None,
    }
}

/// The manager at `a`, if the account there is one.
pub open spec fn manager_at(s: Seq<Entry>, a: Seq<u8>) -> Option<ManagerModel> {
    match lookup(s, a) {
        Some(AccountModel::Manager(m)) => Some(m),
        _ => None,
    }
}

/// The balance of the token account at `a`, if the account there is one.
pub open spec fn token_balance(s: Seq<Entry>, a: Seq<u8>) -> Option<u64> {
    match token_at(s, a) {
        Some(t) => Some(t.balance),
        None => None,
    }
}

/// The views of the attestation log's records.
pub open spec fn log_view(l: Seq<Vec<u8>>) -> Seq<Seq<u8>> {
    l.map_values(|v: Vec<u8>| v@)
}

/// The decision of `create_token_account`: creation fails exactly on an
/// occupied address.
pub open spec fn spec_create_token_account(s: Seq<Entry>, addr: Seq<u8>) -> Result<(), TxError> {
    if lookup(s, addr) is Some {
        Err(TxError::DuplicateAccount)
    } else {
        Ok(())
    }
}

/// The decision of `challenge` on the pre-state: a zero stake is rejected as
/// `InvalidAmount`; a seed tuple without a derivable address chain cannot be
/// used; creation at an occupied (or colliding) derived address is refused by
/// the store; the challenger's token account must exist in the wager's mint
/// under the challenger, and must cover the stake.
pub open spec fn spec_challenge(
    s: Seq<Entry>,
    mint: Seq<u8>,
    name: Seq<u8>,
    amount: u64,
    user: Seq<u8>,
    user_ata: Seq<u8>,
) -> Result<(), TxError> {
    if amount == 0 {
        Err(TxError::Program(ErrorCodes::InvalidAmount))
    } else if !derivable(mint, name, user) {
        Err(TxError::AddressUnavailable)
    } else {
        let (ca, va, ma) = wager_addrs(mint, name, user);
        if lookup(s, ca) is Some || lookup(s, va) is Some || lookup(s, ma) is Some {
            Err(TxError::DuplicateAccount)
        } else if ca == va || ca == ma || va == ma {
            Err(TxError::DuplicateAccount)
        } else {
            match token_at(s, user_ata) {
                None => Err(TxError::BadTokenAccount),
                Some(t) => if t.mint != mint || t.owner != user {
                    Err(TxError::BadTokenAccount)
                } else if t.balance < amount {
                    Err(TxError::InsufficientFunds)
                } else {
                    Ok(())
                },
            }
        }
    }
}

/// The effects of a successful `challenge`: the wager record, the vault
/// (holding the challenger's stake, owned by the manager's derived address)
/// and the manager come into existence at their derived addresses, the stake
/// leaves the challenger's token account, and nothing else changes.
pub open spec fn challenge_effect(
    pre: Seq<Entry>,
    post: Seq<Entry>,
    mint: Seq<u8>,
    name: Seq<u8>,
    amount: u64,
    side: bool,
    user: Seq<u8>,
    user_ata: Seq<u8>,
) -> bool {
    let (ca, va, ma) = wager_addrs(mint, name, user);
    let t = token_at(pre, user_ata)->0;
    &&& lookup(post, ca) == Some(
        AccountModel::Config(
            ConfigModel {
                name: name,
                amount: amount,
                challenger: user,
                challenger_side: side,
                taker: None,
            },
        ),
    )
    &&& lookup(post, va) == Some(
        AccountModel::Token(TokenModel { mint: mint, owner: ma, balance: amount }),
    )
    &&& lookup(post, ma) == Some(AccountModel::Manager(ManagerModel { vault: va, config: ca }))
    &&& lookup(post, user_ata) == Some(
        AccountModel::Token(
            TokenModel { mint: mint, owner: user, balance: (t.balance - amount) as u64 },
        ),
    )
    &&& forall|a: Seq<u8>|
        a != ca && a != va && a != ma && a != user_ata ==> lookup(post, a) == lookup(pre, a)
}

/// The decision of `accept` on the pre-state: the wager's three accounts must
/// exist at their derived addresses and satisfy their binding constraints; a
/// wager whose taker is already set is rejected as `ChallengeTaken`; the
/// taker's token account must exist in the wager's mint under the taker, must
/// not be the vault itself, and must cover the stake the wager record names;
/// and the vault must be able to hold the doubled stake.
pub open spec fn spec_accept(
    s: Seq<Entry>,
    mint: Seq<u8>,
    name: Seq<u8>,
    challenger: Seq<u8>,
    user: Seq<u8>,
    user_ata: Seq<u8>,
) -> Result<(), TxError> {
    if !derivable(mint, name, challenger) {
        Err(TxError::AddressUnavailable)
    } else {
        let (ca, va, ma) = wager_addrs(mint, name, challenger);
        match config_at(s, ca) {
            None => Err(TxError::MissingAccount),
            Some(cfg) => match token_at(s, va) {
                None => Err(TxError::MissingAccount),
                Some(vt) => if vt.mint != mint || vt.owner != ma {
                    Err(TxError::ConstraintViolation)
                } else {
                    match manager_at(s, ma) {
                        None => Err(TxError::MissingAccount),
                        Some(m) => if m.vault != va || m.config != ca {
                            Err(TxError::ConstraintViolation)
                        } else if cfg.taker is Some {
                            Err(TxError::Program(ErrorCodes::ChallengeTaken))
                        } else {
                            match token_at(s, user_ata) {
                            None => Err(TxError::BadTokenAccount),
                            Some(t) => if t.mint != mint || t.owner != user || user_ata == va {
                                Err(TxError::BadTokenAccount)
                            } else if t.balance < cfg.amount {
                                Err(TxError::InsufficientFunds)
                            } else if vt.balance + cfg.amount > u64::MAX {
                                Err(TxError::BalanceOverflow)
                            } else {
                                Ok(())
                            },
                            }
                        },
                    }
                },
            },
        }
    }
}

/// The effects of a successful `accept`: the wager record's taker is set to
/// the accepting party — its only transition from absent to present — the
/// matching stake moves from the taker's token account into the vault, and
/// nothing else changes.
pub open spec fn accept_effect(
    pre: Seq<Entry>,
    post: Seq<Entry>,
    mint: Seq<u8>,
    name: Seq<u8>,
    challenger: Seq<u8>,
    user: Seq<u8>,
    user_ata: Seq<u8>,
) -> bool {
    let (ca, va, ma) = wager_addrs(mint, name, challenger);
    let cfg = config_at(pre, ca)->0;
    let vt = token_at(pre, va)->0;
    let t = token_at(pre, user_ata)->0;
    &&& lookup(post, ca) == Some(
        AccountModel::Config(
            ConfigModel {
                name: cfg.name,
                amount: cfg.amount,
                challenger: cfg.challenger,
                challenger_side: cfg.challenger_side,
                taker: Some(user),
            },
        ),
    )
    &&& lookup(post, va) == Some(
        AccountModel::Token(
            TokenModel { mint: mint, owner: ma, balance: (vt.balance + cfg.amount) as u64 },
        ),
    )
    &&& lookup(post, user_ata) == Some(
        AccountModel::Token(
            TokenModel { mint: mint, owner: user, balance: (t.balance - cfg.amount) as u64 },
        ),
    )
    &&& forall|a: Seq<u8>|
        a != ca && a != va && a != user_ata ==> lookup(post, a) == lookup(pre, a)
}

/// The decision of `post_result` on the pre-state: the wager's three accounts
/// must exist at their derived addresses and satisfy their binding
/// constraints; the winner's token account must exist in the wager's mint
/// under the declared winner, must not be the vault itself, and must be able
/// to hold the vault's whole balance.
///
/// Deliberately absent, and flagged rather than assumed: no check that the
/// wager has been accepted, that the caller is a recognized authority, or
/// that the declared winner is the challenger or the taker.  Settlement is
/// permitted in any state of the wager, for any winner account.
pub open spec fn spec_post_result(
    s: Seq<Entry>,
    mint: Seq<u8>,
    name: Seq<u8>,
    challenger: Seq<u8>,
    winner: Seq<u8>,
    winner_ata: Seq<u8>,
) -> Result<(), TxError> {
    if !derivable(mint, name, challenger) {
        Err(TxError::AddressUnavailable)
    } else {
        let (ca, va, ma) = wager_addrs(mint, name, challenger);
        match config_at(s, ca) {
            None => Err(TxError::MissingAccount),
            Some(_) => match token_at(s, va) {
                None => Err(TxError::MissingAccount),
                Some(vt) => if vt.mint != mint || vt.owner != ma {
                    Err(TxError::ConstraintViolation)
                } else {
                    match manager_at(s, ma) {
                        None => Err(TxError::MissingAccount),
                        Some(m) => if m.vault != va || m.config != ca {
                            Err(TxError::ConstraintViolation)
                        } else {
                            match token_at(s, winner_ata) {
                                None => Err(TxError::BadTokenAccount),
                                Some(wt) => if wt.mint != mint || wt.owner != winner || winner_ata
                                    == va {
                                    Err(TxError::BadTokenAccount)
                                } else if wt.balance + vt.balance > u64::MAX {
                                    Err(TxError::BalanceOverflow)
                                } else {
                                    Ok(())
                                },
                            }
                        },
                    }
                },
            },
        }
    }
}

/// The effects of a successful `post_result`: an attestation record naming
/// the winner, the winning side and the paid-out amount is appended to the
/// log, the vault's whole balance moves to the winner's token account, the
/// vault is left empty, and nothing else changes.
pub open spec fn post_result_effect(
    pre: Seq<Entry>,
    post: Seq<Entry>,
    pre_log: Seq<Seq<u8>>,
    post_log: Seq<Seq<u8>>,
    mint: Seq<u8>,
    name: Seq<u8>,
    challenger: Seq<u8>,
    winning_side: bool,
    winner: Seq<u8>,
    winner_ata: Seq<u8>,
) -> bool {
    let (ca, va, ma) = wager_addrs(mint, name, challenger);
    let vt = token_at(pre, va)->0;
    let wt = token_at(pre, winner_ata)->0;
    &&& lookup(post, va) == Some(
        AccountModel::Token(TokenModel { mint: mint, owner: ma, balance: 0 }),
    )
    &&& lookup(post, winner_ata) == Some(
        AccountModel::Token(
            TokenModel { mint: mint, owner: winner, balance: (wt.balance + vt.balance) as u64 },
        ),
    )
    &&& forall|a: Seq<u8>|
        a != va && a != winner_ata ==> lookup(post, a) == lookup(pre, a)
    &&& post_log == pre_log.push(memo_of(winner, winning_side, vt.balance))
}

impl World {
    /// An empty world: no accounts, no attestations.
    pub fn new() -> (r: World)
        ensures
            r.accounts@.len() == 0,
            r.log@.len() == 0,
    {
        World { accounts: Vec::new(), log: Vec::new() }
    }

    /// Initializes the escrow.  Defines nothing yet: the admin and fee
    /// accounts it is meant to establish are not part of the current logic.
    pub fn initialize(&mut self, _accounts: &Initialize) -> (r: Result<(), TxError>)
        ensures
            r is Ok,
            *final(self) == *old(self),
    {
        Ok(())
    }

    /// Closes an open challenge, refunding the unaccepted stake: an
    /// unimplemented stub that performs no action.
    pub fn close_challenge(&mut self, _accounts: &CloseChallenge) -> (r: Result<(), TxError>)
        ensures
            r is Ok,
            *final(self) == *old(self),
    {
        Ok(())
    }

    /// Creates a token account with an initial balance at `addr`.  This is
    /// the token ledger's own account creation, used to set a wager's parties
    /// up; the store refuses an occupied address.
    pub fn create_token_account(
        &mut self,
        addr: &Vec<u8>,
        mint: &Vec<u8>,
        owner: &Vec<u8>,
        balance: u64,
    ) -> (r: Result<(), TxError>)
        ensures
            r == spec_create_token_account(old(self).accounts@, addr@),
            r is Ok ==> lookup(final(self).accounts@, addr@) == Some(
                AccountModel::Token(TokenModel { mint: mint@, owner: owner@, balance: balance }),
            ),
            r is Ok ==> forall|a: Seq<u8>|
                a != addr@ ==> lookup(final(self).accounts@, a) == lookup(old(self).accounts@, a),
            final(self).log == old(self).log,
            r is Err ==> *final(self) == *old(self),
    {
        if find_index(&self.accounts, addr).is_some() {
            return Err(TxError::DuplicateAccount);
        }
        let ghost s0 = self.accounts@;
        let e = Entry {
            addr: clone_bytes(addr),
            account: Account::Token(
                TokenAccount { mint: clone_bytes(mint), owner: clone_bytes(owner), balance },
            ),
        };
        let ghost ge = e;
        self.accounts.push(e);
        proof {
            assert forall|a: Seq<u8>|
                lookup(self.accounts@, a) == (if a == addr@ {
                    Some(ge.account@)
                } else {
                    lookup(s0, a)
                }) by {
                lemma_lookup_push(s0, ge, a);
            }
        }
        Ok(())
    }

    /// Posts a challenge: atomically creates the wager record, the vault and
    /// the manager at their derived addresses, records the challenger's
    /// identity and side, and deposits `amount` from the challenger's token
    /// account into the vault.
    ///
    /// Fails with `InvalidAmount` on a zero stake; with `DuplicateAccount`
    /// when any of the derived addresses is already occupied, so of two
    /// challenges for the same `(mint, name, challenger)` exactly one can
    /// succeed; and with a token-ledger error when the deposit cannot be
    /// made.  On failure nothing is created and nothing moves.
    pub fn challenge(
        &mut self,
        mint: &Vec<u8>,
        name: &Vec<u8>,
        amount: u64,
        side: bool,
        user: &Vec<u8>,
        user_ata: &Vec<u8>,
    ) -> (r: Result<(), TxError>)
        ensures
            r == spec_challenge(old(self).accounts@, mint@, name@, amount, user@, user_ata@),
            r is Ok ==> challenge_effect(
                old(self).accounts@,
                final(self).accounts@,
                mint@,
                name@,
                amount,
                side,
                user@,
                user_ata@,
            ),
            final(self).log == old(self).log,
            r is Err ==> *final(self) == *old(self),
    {
        if amount == 0 {
            return Err(TxError::Program(ErrorCodes::InvalidAmount));
        }
        let accts = match Challenge::resolve(mint, name, user) {
            Some(a) => a,
            None => {
                return Err(TxError::AddressUnavailable);
            },
        };
        proof {
            assert(accts.config@ == wager_addrs(mint@, name@, user@).0);
            assert(accts.vault@ == wager_addrs(mint@, name@, user@).1);
            assert(accts.manager@ == wager_addrs(mint@, name@, user@).2);
        }
        if find_index(&self.accounts, &accts.config).is_some() {
            return Err(TxError::DuplicateAccount);
        }
        if find_index(&self.accounts, &accts.vault).is_some() {
            return Err(TxError::DuplicateAccount);
        }
        if find_index(&self.accounts, &accts.manager).is_some() {
            return Err(TxError::DuplicateAccount);
        }
        if bytes_eq(&accts.config, &accts.vault) || bytes_eq(&accts.config, &accts.manager)
            || bytes_eq(&accts.vault, &accts.manager) {
            return Err(TxError::DuplicateAccount);
        }
        let ata_idx = match find_index(&self.accounts, user_ata) {
            Some(i) => i,
            None => {
                return Err(TxError::BadTokenAccount);
            },
        };
        let bal: u64;
        match &self.accounts[ata_idx].account {
            Account::Token(t) => {
                if !(bytes_eq(&t.mint, mint) && bytes_eq(&t.owner, user)) {
                    return Err(TxError::BadTokenAccount);
                }
                bal = t.balance;
            },
            _ => {
                return Err(TxError::BadTokenAccount);
            },
        }
        if bal < amount {
            return Err(TxError::InsufficientFunds);
        }
        // All checks passed: apply the whole transaction.
        let ghost s0 = self.accounts@;
        let ghost ca = accts.config@;
        let ghost va = accts.vault@;
        let ghost ma = accts.manager@;
        let e_ata = Entry {
            addr: clone_bytes(user_ata),
            account: Account::Token(
                TokenAccount {
                    mint: clone_bytes(mint),
                    owner: clone_bytes(user),
                    balance: bal - amount,
                },
            ),
        };
        let ghost g_ata = e_ata;
        set_entry(&mut self.accounts, ata_idx, e_ata);
        let ghost s1 = self.accounts@;
        let e_cfg = Entry {
            addr: clone_bytes(&accts.config),
            account: Account::Config(
                ChallengeConfig {
                    name: clone_bytes(name),
                    amount,
                    challenger: clone_bytes(user),
                    challenger_side: side,
                    taker: None,
                },
            ),
        };
        let ghost g_cfg = e_cfg;
        self.accounts.push(e_cfg);
        let ghost s2 = self.accounts@;
        let e_vault = Entry {
            addr: clone_bytes(&accts.vault),
            account: Account::Token(
                TokenAccount {
                    mint: clone_bytes(mint),
                    owner: clone_bytes(&accts.manager),
                    balance: amount,
                },
            ),
        };
        let ghost g_vault = e_vault;
        self.accounts.push(e_vault);
        let ghost s3 = self.accounts@;
        let e_mgr = Entry {
            addr: accts.manager,
            account: Account::Manager(Manager { vault: accts.vault, config: accts.config }),
        };
        let ghost g_mgr = e_mgr;
        self.accounts.push(e_mgr);
        let ghost s4 = self.accounts@;
        proof {
            // The challenger's token account exists, the derived addresses do
            // not, so they are pairwise distinct from it.
            assert(user_ata@ != ca && user_ata@ != va && user_ata@ != ma);
            assert forall|a: Seq<u8>|
                lookup(s1, a) == (if a == user_ata@ {
                    Some(g_ata.account@)
                } else {
                    lookup(s0, a)
                }) by {
                lemma_lookup_update(s0, ata_idx as int, g_ata, a);
            }
            assert forall|a: Seq<u8>|
                lookup(s2, a) == (if a == ca {
                    Some(g_cfg.account@)
                } else {
                    lookup(s1, a)
                }) by {
                lemma_lookup_push(s1, g_cfg, a);
            }
            assert forall|a: Seq<u8>|
                lookup(s3, a) == (if a == va {
                    Some(g_vault.account@)
                } else {
                    lookup(s2, a)
                }) by {
                lemma_lookup_push(s2, g_vault, a);
            }
            assert forall|a: Seq<u8>|
                lookup(s4, a) == (if a == ma {
                    Some(g_mgr.account@)
                } else {
                    lookup(s3, a)
                }) by {
                lemma_lookup_push(s3, g_mgr, a);
            }
            assert(challenge_effect(s0, s4, mint@, name@, amount, side, user@, user_ata@));
        }
        Ok(())
    }

    /// Accepts a challenge: sets the wager record's taker to the caller and
    /// deposits the stake named by the record — not re-specified by the
    /// caller — from the caller's token account into the vault.
    ///
    /// Fails with `ChallengeTaken` when the taker is already set, so of two
    /// accept attempts exactly one can succeed; and with a store or
    /// token-ledger error when the wager's accounts do not check out or the
    /// deposit cannot be made.  On failure nothing changes.
    pub fn accept(
        &mut self,
        mint: &Vec<u8>,
        name: &Vec<u8>,
        challenger: &Vec<u8>,
        user: &Vec<u8>,
        user_ata: &Vec<u8>,
    ) -> (r: Result<(), TxError>)
        ensures
            r == spec_accept(old(self).accounts@, mint@, name@, challenger@, user@, user_ata@),
            r is Ok ==> accept_effect(
                old(self).accounts@,
                final(self).accounts@,
                mint@,
                name@,
                challenger@,
                user@,
                user_ata@,
            ),
            final(self).log == old(self).log,
            r is Err ==> *final(self) == *old(self),
    {
        let accts = match Accept::resolve(mint, name, challenger) {
            Some(a) => a,
            None => {
                return Err(TxError::AddressUnavailable);
            },
        };
        proof {
            assert(accts.config@ == wager_addrs(mint@, name@, challenger@).0);
            assert(accts.vault@ == wager_addrs(mint@, name@, challenger@).1);
            assert(accts.manager@ == wager_addrs(mint@, name@, challenger@).2);
        }
        let cfg_idx = match find_index(&self.accounts, &accts.config) {
            Some(i) => i,
            None => {
                return Err(TxError::MissingAccount);
            },
        };
        let amount: u64;
        let taker_set: bool;
        let new_cfg: Entry;
        match &self.accounts[cfg_idx].account {
            Account::Config(c) => {
                amount = c.amount;
                taker_set = c.taker.is_some();
                new_cfg = Entry {
                    addr: clone_bytes(&accts.config),
                    account: Account::Config(
                        ChallengeConfig {
                            name: clone_bytes(&c.name),
                            amount: c.amount,
                            challenger: clone_bytes(&c.challenger),
                            challenger_side: c.challenger_side,
                            taker: Some(clone_bytes(user)),
                        },
                    ),
                };
            },
            _ => {
                return Err(TxError::MissingAccount);
            },
        }
        let vault_idx = match find_index(&self.accounts, &accts.vault) {
            Some(i) => i,
            None => {
                return Err(TxError::MissingAccount);
            },
        };
        let vbal: u64;
        match &self.accounts[vault_idx].account {
            Account::Token(v) => {
                if !(bytes_eq(&v.mint, mint) && bytes_eq(&v.owner, &accts.manager)) {
                    return Err(TxError::ConstraintViolation);
                }
                vbal = v.balance;
            },
            _ => {
                return Err(TxError::MissingAccount);
            },
        }
        let mgr_idx = match find_index(&self.accounts, &accts.manager) {
            Some(i) => i,
            None => {
                return Err(TxError::MissingAccount);
            },
        };
        match &self.accounts[mgr_idx].account {
            Account::Manager(m) => {
                if !(bytes_eq(&m.vault, &accts.vault) && bytes_eq(&m.config, &accts.config)) {
                    return Err(TxError::ConstraintViolation);
                }
            },
            _ => {
                return Err(TxError::MissingAccount);
            },
        }
        if taker_set {
            return Err(TxError::Program(ErrorCodes::ChallengeTaken));
        }
        let ata_idx = match find_index(&self.accounts, user_ata) {
            Some(i) => i,
            None => {
                return Err(TxError::BadTokenAccount);
            },
        };
        let tbal: u64;
        match &self.accounts[ata_idx].account {
            Account::Token(t) => {
                if !(bytes_eq(&t.mint, mint) && bytes_eq(&t.owner, user)) || bytes_eq(
                    user_ata,
                    &accts.vault,
                ) {
                    return Err(TxError::BadTokenAccount);
                }
                tbal = t.balance;
            },
            _ => {
                return Err(TxError::BadTokenAccount);
            },
        }
        if tbal < amount {
            return Err(TxError::InsufficientFunds);
        }
        if vbal > u64::MAX - amount {
            return Err(TxError::BalanceOverflow);
        }
        // All checks passed: apply the whole transaction.
        let ghost s0 = self.accounts@;
        let ghost ca = accts.config@;
        let ghost va = accts.vault@;
        let ghost ma = accts.manager@;
        proof {
            // The three touched addresses are pairwise distinct: the record
            // and the token accounts hold different kinds of account, and the
            // vault was explicitly refused as the deposit's source.
            assert(ca != va && ca != user_ata@ && va != user_ata@);
            assert(cfg_idx != vault_idx && cfg_idx != ata_idx && vault_idx != ata_idx);
        }
        let ghost g_cfg = new_cfg;
        set_entry(&mut self.accounts, cfg_idx, new_cfg);
        let ghost s1 = self.accounts@;
        let e_vault = Entry {
            addr: clone_bytes(&accts.vault),
            account: Account::Token(
                TokenAccount {
                    mint: clone_bytes(mint),
                    owner: clone_bytes(&accts.manager),
                    balance: vbal + amount,
                },
            ),
        };
        let ghost g_vault = e_vault;
        proof {
            assert forall|j: int| 0 <= j < vault_idx implies s1[j].addr@ != va by {
                if j != cfg_idx {
                    assert(s1[j] == s0[j]);
                }
            }
            assert(s1[vault_idx as int] == s0[vault_idx as int]);
        }
        set_entry(&mut self.accounts, vault_idx, e_vault);
        let ghost s2 = self.accounts@;
        let e_ata = Entry {
            addr: clone_bytes(user_ata),
            account: Account::Token(
                TokenAccount {
                    mint: clone_bytes(mint),
                    owner: clone_bytes(user),
                    balance: tbal - amount,
                },
            ),
        };
        let ghost g_ata = e_ata;
        proof {
            assert forall|j: int| 0 <= j < ata_idx implies s2[j].addr@ != user_ata@ by {
                if j != cfg_idx && j != vault_idx {
                    assert(s2[j] == s0[j]);
                }
            }
            assert(s2[ata_idx as int] == s0[ata_idx as int]);
        }
        set_entry(&mut self.accounts, ata_idx, e_ata);
        let ghost s3 = self.accounts@;
        proof {
            assert forall|a: Seq<u8>|
                lookup(s1, a) == (if a == ca {
                    Some(g_cfg.account@)
                } else {
                    lookup(s0, a)
                }) by {
                lemma_lookup_update(s0, cfg_idx as int, g_cfg, a);
            }
            assert forall|a: Seq<u8>|
                lookup(s2, a) == (if a == va {
                    Some(g_vault.account@)
                } else {
                    lookup(s1, a)
                }) by {
                lemma_lookup_update(s1, vault_idx as int, g_vault, a);
            }
            assert forall|a: Seq<u8>|
                lookup(s3, a) == (if a == user_ata@ {
                    Some(g_ata.account@)
                } else {
                    lookup(s2, a)
                }) by {
                lemma_lookup_update(s2, ata_idx as int, g_ata, a);
            }
            assert(accept_effect(s0, s3, mint@, name@, challenger@, user@, user_ata@));
        }
        Ok(())
    }

    /// Posts the result of a challenge: appends an attestation record naming
    /// the declared winner, the winning side and the payout to the public
    /// log, then transfers the vault's entire balance to the winner's token
    /// account, authorized by the manager's derived capability rather than
    /// any party's private key.
    ///
    /// Deliberately unchecked, and flagged rather than assumed: whether the
    /// wager has been accepted, whether the caller is a recognized
    /// authority, and whether the declared winner is the challenger or the
    /// taker.  On failure nothing is logged and nothing moves.
    pub fn post_result(
        &mut self,
        mint: &Vec<u8>,
        name: &Vec<u8>,
        challenger: &Vec<u8>,
        winning_side: bool,
        winner: &Vec<u8>,
        winner_ata: &Vec<u8>,
    ) -> (r: Result<(), TxError>)
        requires
            is_addr(winner@),
        ensures
            r == spec_post_result(
                old(self).accounts@,
                mint@,
                name@,
                challenger@,
                winner@,
                winner_ata@,
            ),
            r is Ok ==> post_result_effect(
                old(self).accounts@,
                final(self).accounts@,
                log_view(old(self).log@),
                log_view(final(self).log@),
                mint@,
                name@,
                challenger@,
                winning_side,
                winner@,
                winner_ata@,
            ),
            r is Err ==> *final(self) == *old(self),
    {
        let accts = match PostResult::resolve(mint, name, challenger) {
            Some(a) => a,
            None => {
                return Err(TxError::AddressUnavailable);
            },
        };
        proof {
            assert(accts.config@ == wager_addrs(mint@, name@, challenger@).0);
            assert(accts.vault@ == wager_addrs(mint@, name@, challenger@).1);
            assert(accts.manager@ == wager_addrs(mint@, name@, challenger@).2);
        }
        let cfg_idx = match find_index(&self.accounts, &accts.config) {
            Some(i) => i,
            None => {
                return Err(TxError::MissingAccount);
            },
        };
        match &self.accounts[cfg_idx].account {
            Account::Config(_) => {},
            _ => {
                return Err(TxError::MissingAccount);
            },
        }
        let vault_idx = match find_index(&self.accounts, &accts.vault) {
            Some(i) => i,
            None => {
                return Err(TxError::MissingAccount);
            },
        };
        let vbal: u64;
        match &self.accounts[vault_idx].account {
            Account::Token(v) => {
                if !(bytes_eq(&v.mint, mint) && bytes_eq(&v.owner, &accts.manager)) {
                    return Err(TxError::ConstraintViolation);
                }
                vbal = v.balance;
            },
            _ => {
                return Err(TxError::MissingAccount);
            },
        }
        let mgr_idx = match find_index(&self.accounts, &accts.manager) {
            Some(i) => i,
            None => {
                return Err(TxError::MissingAccount);
            },
        };
        match &self.accounts[mgr_idx].account {
            Account::Manager(m) => {
                if !(bytes_eq(&m.vault, &accts.vault) && bytes_eq(&m.config, &accts.config)) {
                    return Err(TxError::ConstraintViolation);
                }
            },
            _ => {
                return Err(TxError::MissingAccount);
            },
        }
        let wata_idx = match find_index(&self.accounts, winner_ata) {
            Some(i) => i,
            None => {
                return Err(TxError::BadTokenAccount);
            },
        };
        let wbal: u64;
        match &self.accounts[wata_idx].account {
            Account::Token(w) => {
                if !(bytes_eq(&w.mint, mint) && bytes_eq(&w.owner, winner)) || bytes_eq(
                    winner_ata,
                    &accts.vault,
                ) {
                    return Err(TxError::BadTokenAccount);
                }
                wbal = w.balance;
            },
            _ => {
                return Err(TxError::BadTokenAccount);
            },
        }
        if wbal > u64::MAX - vbal {
            return Err(TxError::BalanceOverflow);
        }
        // All checks passed: apply the whole transaction.
        let ghost s0 = self.accounts@;
        let ghost log0 = self.log@;
        let ghost ca = accts.config@;
        let ghost va = accts.vault@;
        let ghost ma = accts.manager@;
        proof {
            assert(va != winner_ata@);
        }
        // Write the attestation record on the public log, routed through the
        // memo program's instruction builder.
        let record = render_memo(winner, winning_side, vbal);
        let data = memo_instruction_data(&record);
        self.log.push(data);
        proof {
            assert(log_view(self.log@) =~= log_view(log0).push(
                crate::memo::memo_of(winner@, winning_side, vbal),
            ));
        }
        let e_vault = Entry {
            addr: clone_bytes(&accts.vault),
            account: Account::Token(
                TokenAccount {
                    mint: clone_bytes(mint),
                    owner: clone_bytes(&accts.manager),
                    balance: 0,
                },
            ),
        };
        let ghost g_vault = e_vault;
        set_entry(&mut self.accounts, vault_idx, e_vault);
        let ghost s1 = self.accounts@;
        let e_wata = Entry {
            addr: clone_bytes(winner_ata),
            account: Account::Token(
                TokenAccount {
                    mint: clone_bytes(mint),
                    owner: clone_bytes(winner),
                    balance: wbal + vbal,
                },
            ),
        };
        let ghost g_wata = e_wata;
        proof {
            assert forall|j: int| 0 <= j < wata_idx implies s1[j].addr@ != winner_ata@ by {
                if j != vault_idx {
                    assert(s1[j] == s0[j]);
                }
            }
            assert(s1[wata_idx as int] == s0[wata_idx as int]);
        }
        set_entry(&mut self.accounts, wata_idx, e_wata);
        let ghost s2 = self.accounts@;
        proof {
            assert forall|a: Seq<u8>|
                lookup(s1, a) == (if a == va {
                    Some(g_vault.account@)
                } else {
                    lookup(s0, a)
                }) by {
                lemma_lookup_update(s0, vault_idx as int, g_vault, a);
            }
            assert forall|a: Seq<u8>|
                lookup(s2, a) == (if a == winner_ata@ {
                    Some(g_wata.account@)
                } else {
                    lookup(s1, a)
                }) by {
                lemma_lookup_update(s1, wata_idx as int, g_wata, a);
            }
            assert(post_result_effect(
                s0,
                s2,
                log_view(log0),
                log_view(self.log@),
                mint@,
                name@,
                challenger@,
                winning_side,
                winner@,
                winner_ata@,
            ));
        }
        Ok(())
    }

    /// The account stored at `addr`, if any.
    pub fn account_at(&self, addr: &Vec<u8>) -> (r: Option<&Account>)
        ensures
            match r {
                Some(a) => lookup(self.accounts@, addr@) == Some(a@),
                None => lookup(self.accounts@, addr@) is None,
            },
    {
        match find_index(&self.accounts, addr) {
            Some(i) => Some(&self.accounts[i].account),
            None => None,
        }
    }

    /// The balance of the token account at `addr`, if one is stored there.
    pub fn balance_of(&self, addr: &Vec<u8>) -> (r: Option<u64>)
        ensures
            r == token_balance(self.accounts@, addr@),
    {
        match self.account_at(addr) {
            Some(Account::Token(t)) => Some(t.balance),
            _ => None,
        }
    }
}

} // verus!
