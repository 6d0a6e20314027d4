//! Deterministic addressing.
//!
//! Every entity of a wager lives at an address derived from a seed tuple
//! under the escrow's fixed program address, so any party holding
//! `(mint, name, challenger)` can locate the wager record, and from it the
//! vault and the manager, without a lookup service.  The derivation chain is
//!
//! ```text
//! wager record = derive(mint, name, challenger)
//! vault        = derive(wager record)
//! manager      = derive(vault)
//! ```
//!
//! The derived address doubles as the capability scheme: no party holds a
//! private key over a derived address, so only the escrow logic itself can
//! authorize debits of the vault.

use vstd::prelude::*;

use crate::bytes::{clone_bytes, is_addr};

use anchor_lang::solana_program::pubkey::Pubkey;

verus! {

/// What `Pubkey::try_find_program_address` returns for a seed tuple and a
/// program id: either a derived 32-byte address, or nothing when no bump
/// byte yields a valid derivation.  The search is a pure function of the
/// seeds and the program id, so its result carries a name rather than a
/// definition.
pub uninterp spec fn addr_of(seeds: Seq<Seq<u8>>, program_id: Seq<u8>) -> Option<Seq<u8>>;

/// The views of a sequence of byte vectors.
pub open spec fn views_of(s: Seq<Vec<u8>>) -> Seq<Seq<u8>> {
    s.map_values(|v: Vec<u8>| v@)
}

/// The escrow's fixed program address, as a mathematical value.
pub open spec fn program_id_spec() -> Seq<u8> {
    seq![
        218u8, 7, 92, 178, 255, 94, 198, 129, 118, 19, 222, 83, 11, 105, 42, 135, 53, 71, 119,
        105, 218, 71, 67, 12, 189, 129, 84, 51, 92, 74, 131, 39,
    ]
}

/// The escrow's fixed program address: a process-wide configuration constant.
pub fn program_id() -> (r: Vec<u8>)
    ensures
        r@ == program_id_spec(),
        is_addr(r@),
{
    let r: Vec<u8> = vec![
        218u8, 7, 92, 178, 255, 94, 198, 129, 118, 19, 222, 83, 11, 105, 42, 135, 53, 71, 119,
        105, 218, 71, 67, 12, 189, 129, 84, 51, 92, 74, 131, 39,
    ];
    proof {
        assert(r@ =~= program_id_spec());
    }
    r
}

/// Relies on `Pubkey::try_find_program_address` of the `solana_pubkey` crate
/// (re-exported by `anchor_lang` as `solana_program::pubkey`): it searches for
/// a program-derived address for the given seeds under the given program id,
/// a deterministic computation over its two arguments, returning a 32-byte
/// address on success and `None` when no bump byte yields one.
#[verifier::external_body]
fn find_program_address(seeds: &Vec<Vec<u8>>, program_id: &Vec<u8>) -> (r: Option<Vec<u8>>)
    requires
        is_addr(program_id@),
    ensures
        (r is Some) == (addr_of(views_of(seeds@), program_id@) is Some),
        r is Some ==> r->0@ == addr_of(views_of(seeds@), program_id@)->0,
        r is Some ==> r->0@.len() == 32,
{
    let parts: Vec<&[u8]> = seeds.iter().map(|s| s.as_slice()).collect();
    let pid = Pubkey::new_from_array(program_id.as_slice().try_into().unwrap());
    Pubkey::try_find_program_address(parts.as_slice(), &pid)
        .map(|(a, _bump)| a.to_bytes().to_vec())
}

/// Address of the wager record for `(mint, name, challenger)`.
pub open spec fn config_addr(mint: Seq<u8>, name: Seq<u8>, challenger: Seq<u8>) -> Option<Seq<u8>> {
    addr_of(seq![mint, name, challenger], program_id_spec())
}

/// Address of the vault backing the wager record at `config`.
pub open spec fn vault_addr(config: Seq<u8>) -> Option<Seq<u8>> {
    addr_of(seq![config], program_id_spec())
}

/// Address of the manager of the vault at `vault`.
pub open spec fn manager_addr(vault: Seq<u8>) -> Option<Seq<u8>> {
    addr_of(seq![vault], program_id_spec())
}

/// Derives the address of the wager record for `(mint, name, challenger)`.
pub fn derive(mint: &Vec<u8>, name: &Vec<u8>, challenger: &Vec<u8>) -> (r: Option<Vec<u8>>)
    ensures
        (r is Some) == (config_addr(mint@, name@, challenger@) is Some),
        r is Some ==> Some(r->0@) == config_addr(mint@, name@, challenger@),
        r is Some ==> is_addr(r->0@),
{
    let mut seeds: Vec<Vec<u8>> = Vec::new();
    seeds.push(clone_bytes(mint));
    seeds.push(clone_bytes(name));
    seeds.push(clone_bytes(challenger));
    proof {
        assert(views_of(seeds@) =~= seq![mint@, name@, challenger@]);
    }
    let pid = program_id();
    find_program_address(&seeds, &pid)
}

/// Derives the address of the vault from the wager record's address.
pub fn derive_vault(config: &Vec<u8>) -> (r: Option<Vec<u8>>)
    ensures
        (r is Some) == (vault_addr(config@) is Some),
        r is Some ==> Some(r->0@) == vault_addr(config@),
        r is Some ==> is_addr(r->0@),
{
    let mut seeds: Vec<Vec<u8>> = Vec::new();
    seeds.push(clone_bytes(config));
    proof {
        assert(views_of(seeds@) =~= seq![config@]);
    }
    let pid = program_id();
    find_program_address(&seeds, &pid)
}

/// Derives the address of the manager from the vault's address.
pub fn derive_manager(vault: &Vec<u8>) -> (r: Option<Vec<u8>>)
    ensures
        (r is Some) == (manager_addr(vault@) is Some),
        r is Some ==> Some(r->0@) == manager_addr(vault@),
        r is Some ==> is_addr(r->0@),
{
    let mut seeds: Vec<Vec<u8>> = Vec::new();
    seeds.push(clone_bytes(vault));
    proof {
        assert(views_of(seeds@) =~= seq![vault@]);
    }
    let pid = program_id();
    find_program_address(&seeds, &pid)
}

/// Law: address derivation is deterministic.  Any two results that satisfy
/// the contract of [`derive`] for the same `(mint, name, challenger)` agree,
/// so repeated invocations locate the same wager record.
pub proof fn lemma_derive_deterministic(
    mint: Seq<u8>,
    name: Seq<u8>,
    challenger: Seq<u8>,
    r1: Option<Seq<u8>>,
    r2: Option<Seq<u8>>,
)
    requires
        (r1 is Some) == (config_addr(mint, name, challenger) is Some),
        r1 is Some ==> Some(r1->0) == config_addr(mint, name, challenger),
        (r2 is Some) == (config_addr(mint, name, challenger) is Some),
        r2 is Some ==> Some(r2->0) == config_addr(mint, name, challenger),
    ensures
        r1 == r2,
{
    if r1 is Some {
        assert(r1 == Some(r1->0));
        assert(r2 == Some(r2->0));
    }
}

} // verus!
