//! The entities of one wager, and the account sets each operation touches.
//!
//! A wager is a 1:1:1 triple created atomically by `challenge`: the wager
//! record ([`ChallengeConfig`]), the custody vault (a [`TokenAccount`] whose
//! authority is the manager's derived address), and the [`Manager`] binding
//! the two together.  All three live at addresses derived deterministically
//! from `(mint, name, challenger)`; see [`crate::addr`].

use vstd::prelude::*;

use crate::addr::{config_addr, derive_manager, derive_vault, manager_addr, vault_addr};
use crate::bytes::is_addr;

verus! {

/// The persisted terms of one wager.
///
/// `taker` is absent until the wager is accepted, and transitions from absent
/// to present exactly once; `amount` is positive at creation.
#[derive(Debug)]
pub struct ChallengeConfig {
    /// String identifier of the wager, part of its address.
    pub name: Vec<u8>,
    /// Stake per side, in token units.
    pub amount: u64,
    /// Identity of the party that opened the wager.
    pub challenger: Vec<u8>,
    /// The binary outcome the challenger has staked on.
    pub challenger_side: bool,
    /// Identity of the accepting party, absent until the wager is accepted.
    pub taker: Option<Vec<u8>>,
}

/// Mathematical value of a [`ChallengeConfig`].
pub struct ConfigModel {
    pub name: Seq<u8>,
    pub amount: u64,
    pub challenger: Seq<u8>,
    pub challenger_side: bool,
    pub taker: Option<Seq<u8>>,
}

/// The view of an optional byte string.
pub open spec fn opt_bytes_view(o: Option<Vec<u8>>) -> Option<Seq<u8>> {
    match o {
        Some(v) => Some(v@),
        None => None,
    }
}

impl View for ChallengeConfig {
    type V = ConfigModel;

    open spec fn view(&self) -> ConfigModel {
        ConfigModel {
            name: self.name@,
            amount: self.amount,
            challenger: self.challenger@,
            challenger_side: self.challenger_side,
            taker: opt_bytes_view(self.taker),
        }
    }
}

/// Binds a vault to its wager record.  Established at creation and never
/// mutated; its derived address is the vault's authority, the capability by
/// which only the escrow logic can debit the vault.
#[derive(Debug)]
pub struct Manager {
    /// Address of the vault.
    pub vault: Vec<u8>,
    /// Address of the wager record.
    pub config: Vec<u8>,
}

/// Mathematical value of a [`Manager`].
pub struct ManagerModel {
    pub vault: Seq<u8>,
    pub config: Seq<u8>,
}

impl View for Manager {
    type V = ManagerModel;

    open spec fn view(&self) -> ManagerModel {
        ManagerModel { vault: self.vault@, config: self.config@ }
    }
}

/// A token-ledger account: a balance of one fungible token type held for an
/// owner.  Both the parties' external accounts and the wager's vault are of
/// this kind; a vault is distinguished by having the manager's derived
/// address as its owner.
#[derive(Debug)]
pub struct TokenAccount {
    /// The fungible token type the balance is denominated in.
    pub mint: Vec<u8>,
    /// The identity authorized to debit this account.
    pub owner: Vec<u8>,
    /// Current balance.
    pub balance: u64,
}

/// Mathematical value of a [`TokenAccount`].
pub struct TokenModel {
    pub mint: Seq<u8>,
    pub owner: Seq<u8>,
    pub balance: u64,
}

impl View for TokenAccount {
    type V = TokenModel;

    open spec fn view(&self) -> TokenModel {
        TokenModel { mint: self.mint@, owner: self.owner@, balance: self.balance }
    }
}

/// One account of the keyed store.
#[derive(Debug)]
pub enum Account {
    /// A wager record.
    Config(ChallengeConfig),
    /// A manager.
    Manager(Manager),
    /// A token account (a party's external account, or a vault).
    Token(TokenAccount),
}

/// Mathematical value of an [`Account`].
pub enum AccountModel {
    Config(ConfigModel),
    Manager(ManagerModel),
    Token(TokenModel),
}

impl View for Account {
    type V = AccountModel;

    open spec fn view(&self) -> AccountModel {
        match self {
            Account::Config(c) => AccountModel::Config(c@),
            Account::Manager(m) => AccountModel::Manager(m@),
            Account::Token(t) => AccountModel::Token(t@),
        }
    }
}

/// Whether the whole derivation chain of a wager's addresses succeeds.
pub open spec fn derivable(mint: Seq<u8>, name: Seq<u8>, challenger: Seq<u8>) -> bool {
    &&& config_addr(mint, name, challenger) is Some
    &&& vault_addr(config_addr(mint, name, challenger)->0) is Some
    &&& manager_addr(vault_addr(config_addr(mint, name, challenger)->0)->0) is Some
}

/// The three derived addresses of one wager, in derivation order.
pub open spec fn wager_addrs(mint: Seq<u8>, name: Seq<u8>, challenger: Seq<u8>) -> (
    Seq<u8>,
    Seq<u8>,
    Seq<u8>,
)
    recommends
        derivable(mint, name, challenger),
{
    let ca = config_addr(mint, name, challenger)->0;
    let va = vault_addr(ca)->0;
    let ma = manager_addr(va)->0;
    (ca, va, ma)
}

/// Whether an address triple is the derived account set of
/// `(mint, name, challenger)`.
pub open spec fn resolved(
    config: Seq<u8>,
    vault: Seq<u8>,
    manager: Seq<u8>,
    mint: Seq<u8>,
    name: Seq<u8>,
    challenger: Seq<u8>,
) -> bool {
    &&& derivable(mint, name, challenger)
    &&& (config, vault, manager) == wager_addrs(mint, name, challenger)
    &&& is_addr(config) && is_addr(vault) && is_addr(manager)
}

/// Resolves the full derived account set of `(mint, name, challenger)`, or
/// reports that some link of the chain has no derivable address.
fn resolve_addrs(mint: &Vec<u8>, name: &Vec<u8>, challenger: &Vec<u8>) -> (r: Option<
    (Vec<u8>, Vec<u8>, Vec<u8>),
>)
    ensures
        (r is Some) == derivable(mint@, name@, challenger@),
        r is Some ==> resolved((r->0).0@, (r->0).1@, (r->0).2@, mint@, name@, challenger@),
{
    let config = match crate::addr::derive(mint, name, challenger) {
        Some(a) => a,
        None => {
            return None;
        },
    };
    let vault = match derive_vault(&config) {
        Some(a) => a,
        None => {
            return None;
        },
    };
    let manager = match derive_manager(&vault) {
        Some(a) => a,
        None => {
            return None;
        },
    };
    Some((config, vault, manager))
}

/// The account set of the `initialize` operation: empty, as the operation is
/// a no-op.
pub struct Initialize {}

/// The account set of the `close_challenge` operation: empty, as the
/// operation is an unimplemented stub.
pub struct CloseChallenge {}

/// The derived account set the `challenge` operation creates.
pub struct Challenge {
    /// Address of the wager record to create.
    pub config: Vec<u8>,
    /// Address of the vault to create.
    pub vault: Vec<u8>,
    /// Address of the manager to create.
    pub manager: Vec<u8>,
}

impl Challenge {
    /// Resolves the account set of a `challenge` for `(mint, name, challenger)`.
    pub fn resolve(mint: &Vec<u8>, name: &Vec<u8>, challenger: &Vec<u8>) -> (r: Option<Challenge>)
        ensures
            (r is Some) == derivable(mint@, name@, challenger@),
            r is Some ==> resolved(
                r->0.config@,
                r->0.vault@,
                r->0.manager@,
                mint@,
                name@,
                challenger@,
            ),
    {
        match resolve_addrs(mint, name, challenger) {
            Some((config, vault, manager)) => Some(Challenge { config, vault, manager }),
            None => None,
        }
    }
}

/// The derived account set the `accept` operation works on.
pub struct Accept {
    /// Address of the wager record.
    pub config: Vec<u8>,
    /// Address of the vault.
    pub vault: Vec<u8>,
    /// Address of the manager.
    pub manager: Vec<u8>,
}

impl Accept {
    /// Resolves the account set of an `accept` for `(mint, name, challenger)`.
    pub fn resolve(mint: &Vec<u8>, name: &Vec<u8>, challenger: &Vec<u8>) -> (r: Option<Accept>)
        ensures
            (r is Some) == derivable(mint@, name@, challenger@),
            r is Some ==> resolved(
                r->0.config@,
                r->0.vault@,
                r->0.manager@,
                mint@,
                name@,
                challenger@,
            ),
    {
        match resolve_addrs(mint, name, challenger) {
            Some((config, vault, manager)) => Some(Accept { config, vault, manager }),
            None => None,
        }
    }
}

/// The derived account set the `post_result` operation works on.
pub struct PostResult {
    /// Address of the wager record.
    pub config: Vec<u8>,
    /// Address of the vault.
    pub vault: Vec<u8>,
    /// Address of the manager.
    pub manager: Vec<u8>,
}

impl PostResult {
    /// Resolves the account set of a `post_result` for `(mint, name, challenger)`.
    pub fn resolve(mint: &Vec<u8>, name: &Vec<u8>, challenger: &Vec<u8>) -> (r: Option<PostResult>)
        ensures
            (r is Some) == derivable(mint@, name@, challenger@),
            r is Some ==> resolved(
                r->0.config@,
                r->0.vault@,
                r->0.manager@,
                mint@,
                name@,
                challenger@,
            ),
    {
        match resolve_addrs(mint, name, challenger) {
            Some((config, vault, manager)) => Some(PostResult { config, vault, manager }),
            None => None,
        }
    }
}

} // verus!
