//! Attestation records.
//!
//! A settlement is recorded as a human-readable byte string
//! `"winner: <identity>, winning_side: <bool>, winnings: <amount>"`, where the
//! identity is rendered in base58 and the amount in decimal.  The record is
//! routed through the memo program's instruction builder, whose instruction
//! data carries the record verbatim, and appended to the public log.

use vstd::prelude::*;

use crate::bytes::is_addr;

use anchor_lang::solana_program::pubkey::Pubkey;

verus! {

/// What the base58 rendering of a 32-byte identity is: a pure function of the
/// bytes, named rather than defined.
pub uninterp spec fn base58_of(b: Seq<u8>) -> Seq<u8>;

/// Relies on the base58 `Display` of `Pubkey` (crate `solana_pubkey`,
/// re-exported by `anchor_lang` as `solana_program::pubkey`): the rendering
/// depends on the 32 bytes alone.
#[verifier::external_body]
fn base58_bytes(b: &Vec<u8>) -> (r: Vec<u8>)
    requires
        is_addr(b@),
    ensures
        r@ == base58_of(b@),
{
    let pk = Pubkey::new_from_array(b.as_slice().try_into().unwrap());
    format!("{}", pk).into_bytes()
}

/// The decimal rendering of `n`, most significant digit first.
pub open spec fn dec_of(n: nat) -> Seq<u8>
    decreases n,
{
    if n < 10 {
        seq![(48 + n) as u8]
    } else {
        dec_of(n / 10).push((48 + n % 10) as u8)
    }
}

/// Renders `n` in decimal.
pub fn u64_to_dec(n: u64) -> (r: Vec<u8>)
    ensures
        r@ == dec_of(n as nat),
    decreases n,
{
    if n < 10 {
        let mut r: Vec<u8> = Vec::new();
        r.push(48 + (n as u8));
        proof {
            assert(r@ =~= dec_of(n as nat));
        }
        r
    } else {
        let mut r = u64_to_dec(n / 10);
        r.push(48 + ((n % 10) as u8));
        proof {
            assert(r@ =~= dec_of(n as nat));
        }
        r
    }
}

/// The bytes of `"winner: "`.
pub open spec fn winner_label() -> Seq<u8> {
    seq![119u8, 105, 110, 110, 101, 114, 58, 32]
}

/// The bytes of `", winning_side: "`.
pub open spec fn side_label() -> Seq<u8> {
    seq![44u8, 32, 119, 105, 110, 110, 105, 110, 103, 95, 115, 105, 100, 101, 58, 32]
}

/// The bytes of `", winnings: "`.
pub open spec fn winnings_label() -> Seq<u8> {
    seq![44u8, 32, 119, 105, 110, 110, 105, 110, 103, 115, 58, 32]
}

/// The bytes of `"true"` or `"false"`.
pub open spec fn bool_ascii(b: bool) -> Seq<u8> {
    if b {
        seq![116u8, 114, 117, 101]
    } else {
        seq![102u8, 97, 108, 115, 101]
    }
}

/// The attestation record of a settlement: winner identity in base58, the
/// winning side, and the amount paid out.
pub open spec fn memo_of(winner: Seq<u8>, winning_side: bool, winnings: u64) -> Seq<u8> {
    winner_label() + base58_of(winner) + side_label() + bool_ascii(winning_side) + winnings_label()
        + dec_of(winnings as nat)
}

/// Renders the attestation record of a settlement.
pub fn render_memo(winner: &Vec<u8>, winning_side: bool, winnings: u64) -> (r: Vec<u8>)
    requires
        is_addr(winner@),
    ensures
        r@ == memo_of(winner@, winning_side, winnings),
{
    let mut r: Vec<u8> = vec![119u8, 105, 110, 110, 101, 114, 58, 32];
    proof {
        assert(r@ =~= winner_label());
    }
    let mut b58 = base58_bytes(winner);
    r.append(&mut b58);
    let mut side: Vec<u8> = vec![
        44u8, 32, 119, 105, 110, 110, 105, 110, 103, 95, 115, 105, 100, 101, 58, 32,
    ];
    proof {
        assert(side@ =~= side_label());
    }
    r.append(&mut side);
    let mut flag: Vec<u8> = if winning_side {
        vec![116u8, 114, 117, 101]
    } else {
        vec![102u8, 97, 108, 115, 101]
    };
    proof {
        assert(flag@ =~= bool_ascii(winning_side));
    }
    r.append(&mut flag);
    let mut label: Vec<u8> = vec![44u8, 32, 119, 105, 110, 110, 105, 110, 103, 115, 58, 32];
    proof {
        assert(label@ =~= winnings_label());
    }
    r.append(&mut label);
    let mut digits = u64_to_dec(winnings);
    r.append(&mut digits);
    proof {
        assert(r@ =~= memo_of(winner@, winning_side, winnings));
    }
    r
}

/// Relies on `spl_memo::build_memo`: the instruction it builds carries the
/// memo bytes verbatim as its data.
#[verifier::external_body]
pub(crate) fn memo_instruction_data(memo: &Vec<u8>) -> (r: Vec<u8>)
    ensures
        r@ == memo@,
{
    spl_memo::build_memo(memo.as_slice(), &[]).data
}

} // verus!
