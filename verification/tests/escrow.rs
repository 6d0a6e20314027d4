use betbook1::accounts::{Account, CloseChallenge, Initialize};
use betbook1::errors::{ErrorCodes, TxError};
use betbook1::world::World;

fn addr32(b: u8) -> Vec<u8> {
    vec![b; 32]
}

/// A world with a mint, a challenger C funded with `c_funds` and a taker T
/// funded with `t_funds`, returning (world, mint, c, c_ata, t, t_ata).
fn funded_world(c_funds: u64, t_funds: u64) -> (World, Vec<u8>, Vec<u8>, Vec<u8>, Vec<u8>, Vec<u8>) {
    let mint = addr32(1);
    let c = addr32(2);
    let t = addr32(3);
    let c_ata = addr32(10);
    let t_ata = addr32(11);
    let mut w = World::new();
    w.create_token_account(&c_ata, &mint, &c, c_funds).unwrap();
    w.create_token_account(&t_ata, &mint, &t, t_funds).unwrap();
    (w, mint, c, c_ata, t, t_ata)
}

fn vault_of(mint: &Vec<u8>, name: &Vec<u8>, challenger: &Vec<u8>) -> Vec<u8> {
    let config = betbook1::addr::derive(mint, name, challenger).unwrap();
    betbook1::addr::derive_vault(&config).unwrap()
}

#[test]
fn open_deposits_stake_and_leaves_taker_absent() {
    let (mut w, mint, c, c_ata, _t, _t_ata) = funded_world(5000, 5000);
    let name = b"g1".to_vec();
    w.challenge(&mint, &name, 1000, true, &c, &c_ata).unwrap();
    let vault = vault_of(&mint, &name, &c);
    assert_eq!(w.balance_of(&vault), Some(1000));
    assert_eq!(w.balance_of(&c_ata), Some(4000));
    let config = betbook1::addr::derive(&mint, &name, &c).unwrap();
    match w.account_at(&config) {
        Some(Account::Config(cfg)) => {
            assert_eq!(cfg.name, name);
            assert_eq!(cfg.amount, 1000);
            assert_eq!(cfg.challenger, c);
            assert!(cfg.challenger_side);
            assert!(cfg.taker.is_none());
        }
        _ => panic!("no wager record at the derived address"),
    }
}

#[test]
fn accept_doubles_vault_and_sets_taker() {
    let (mut w, mint, c, c_ata, t, t_ata) = funded_world(5000, 5000);
    let name = b"g1".to_vec();
    w.challenge(&mint, &name, 1000, true, &c, &c_ata).unwrap();
    w.accept(&mint, &name, &c, &t, &t_ata).unwrap();
    let vault = vault_of(&mint, &name, &c);
    assert_eq!(w.balance_of(&vault), Some(2000));
    assert_eq!(w.balance_of(&t_ata), Some(4000));
    let config = betbook1::addr::derive(&mint, &name, &c).unwrap();
    match w.account_at(&config) {
        Some(Account::Config(cfg)) => assert_eq!(cfg.taker.as_ref(), Some(&t)),
        _ => panic!("no wager record at the derived address"),
    }
}

#[test]
fn post_result_pays_winner_drains_vault_and_logs() {
    let (mut w, mint, c, c_ata, t, t_ata) = funded_world(1000, 1000);
    let name = b"g1".to_vec();
    w.challenge(&mint, &name, 1000, true, &c, &c_ata).unwrap();
    w.accept(&mint, &name, &c, &t, &t_ata).unwrap();
    assert_eq!(w.balance_of(&t_ata), Some(0));
    // The challenger staked on `true`; the attester reports `false`, so the
    // taker wins the pooled stake.
    w.post_result(&mint, &name, &c, false, &t, &t_ata).unwrap();
    let vault = vault_of(&mint, &name, &c);
    assert_eq!(w.balance_of(&vault), Some(0));
    assert_eq!(w.balance_of(&t_ata), Some(2000));
    assert_eq!(w.log.len(), 1);
    let t_b58 = solana_pubkey::Pubkey::new_from_array([3u8; 32]).to_string();
    let expected = format!("winner: {}, winning_side: false, winnings: 2000", t_b58);
    assert_eq!(String::from_utf8(w.log[0].clone()).unwrap(), expected);
}

#[test]
fn zero_stake_is_rejected_and_creates_nothing() {
    let (mut w, mint, c, c_ata, _t, _t_ata) = funded_world(5000, 5000);
    let name = b"g1".to_vec();
    let r = w.challenge(&mint, &name, 0, true, &c, &c_ata);
    assert_eq!(r, Err(TxError::Program(ErrorCodes::InvalidAmount)));
    let config = betbook1::addr::derive(&mint, &name, &c).unwrap();
    assert!(w.account_at(&config).is_none());
    assert_eq!(w.balance_of(&c_ata), Some(5000));
}

#[test]
fn accepting_a_taken_wager_is_rejected_and_moves_nothing() {
    let (mut w, mint, c, c_ata, t, t_ata) = funded_world(5000, 5000);
    let name = b"g1".to_vec();
    w.challenge(&mint, &name, 1000, true, &c, &c_ata).unwrap();
    w.accept(&mint, &name, &c, &t, &t_ata).unwrap();
    let r = w.accept(&mint, &name, &c, &t, &t_ata);
    assert_eq!(r, Err(TxError::Program(ErrorCodes::ChallengeTaken)));
    let vault = vault_of(&mint, &name, &c);
    assert_eq!(w.balance_of(&vault), Some(2000));
    assert_eq!(w.balance_of(&t_ata), Some(4000));
}

#[test]
fn second_open_for_the_same_seed_tuple_is_a_duplicate() {
    let (mut w, mint, c, c_ata, _t, _t_ata) = funded_world(5000, 5000);
    let name = b"g1".to_vec();
    w.challenge(&mint, &name, 1000, true, &c, &c_ata).unwrap();
    let r = w.challenge(&mint, &name, 700, false, &c, &c_ata);
    assert_eq!(r, Err(TxError::DuplicateAccount));
    let vault = vault_of(&mint, &name, &c);
    assert_eq!(w.balance_of(&vault), Some(1000));
    assert_eq!(w.balance_of(&c_ata), Some(4000));
}

#[test]
fn accept_without_a_wager_is_missing() {
    let (mut w, mint, c, _c_ata, t, t_ata) = funded_world(5000, 5000);
    let name = b"g1".to_vec();
    let r = w.accept(&mint, &name, &c, &t, &t_ata);
    assert_eq!(r, Err(TxError::MissingAccount));
}

#[test]
fn open_without_funds_is_rejected() {
    let (mut w, mint, c, c_ata, _t, _t_ata) = funded_world(999, 0);
    let name = b"g1".to_vec();
    let r = w.challenge(&mint, &name, 1000, true, &c, &c_ata);
    assert_eq!(r, Err(TxError::InsufficientFunds));
    assert_eq!(w.balance_of(&c_ata), Some(999));
}

#[test]
fn open_without_a_token_account_is_rejected() {
    let mut w = World::new();
    let mint = addr32(1);
    let c = addr32(2);
    let name = b"g1".to_vec();
    let r = w.challenge(&mint, &name, 1000, true, &c, &addr32(10));
    assert_eq!(r, Err(TxError::BadTokenAccount));
}

#[test]
fn open_with_someone_elses_token_account_is_rejected() {
    let (mut w, mint, c, _c_ata, _t, t_ata) = funded_world(5000, 5000);
    let name = b"g1".to_vec();
    let r = w.challenge(&mint, &name, 1000, true, &c, &t_ata);
    assert_eq!(r, Err(TxError::BadTokenAccount));
}

#[test]
fn overlong_name_has_no_derivable_address() {
    let (mut w, mint, c, c_ata, _t, _t_ata) = funded_world(5000, 5000);
    let name = vec![b'x'; 33];
    let r = w.challenge(&mint, &name, 1000, true, &c, &c_ata);
    assert_eq!(r, Err(TxError::AddressUnavailable));
}

#[test]
fn accept_overflowing_the_vault_is_rejected() {
    let half = 1u64 << 63;
    let (mut w, mint, c, c_ata, t, t_ata) = funded_world(u64::MAX, u64::MAX);
    let name = b"g1".to_vec();
    w.challenge(&mint, &name, half, true, &c, &c_ata).unwrap();
    let r = w.accept(&mint, &name, &c, &t, &t_ata);
    assert_eq!(r, Err(TxError::BalanceOverflow));
}

#[test]
fn creating_a_token_account_at_an_occupied_address_is_a_duplicate() {
    let mut w = World::new();
    let mint = addr32(1);
    let c = addr32(2);
    let a = addr32(10);
    w.create_token_account(&a, &mint, &c, 5).unwrap();
    let r = w.create_token_account(&a, &mint, &c, 7);
    assert_eq!(r, Err(TxError::DuplicateAccount));
    assert_eq!(w.balance_of(&a), Some(5));
}

#[test]
fn initialize_and_close_challenge_are_no_ops() {
    let mut w = World::new();
    assert_eq!(w.initialize(&Initialize {}), Ok(()));
    assert_eq!(w.close_challenge(&CloseChallenge {}), Ok(()));
    assert_eq!(w.accounts.len(), 0);
    assert_eq!(w.log.len(), 0);
}

#[test]
fn settling_an_unaccepted_wager_pays_the_single_stake() {
    // Settlement deliberately does not require the wager to have been
    // accepted; an unaccepted wager pays out whatever the vault holds.
    let (mut w, mint, c, c_ata, _t, _t_ata) = funded_world(1000, 0);
    let name = b"g1".to_vec();
    w.challenge(&mint, &name, 1000, true, &c, &c_ata).unwrap();
    w.post_result(&mint, &name, &c, true, &c, &c_ata).unwrap();
    let vault = vault_of(&mint, &name, &c);
    assert_eq!(w.balance_of(&vault), Some(0));
    assert_eq!(w.balance_of(&c_ata), Some(1000));
    assert_eq!(w.log.len(), 1);
}
