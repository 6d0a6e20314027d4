use solana_pubkey::Pubkey;

fn b32(b: u8) -> Vec<u8> {
    vec![b; 32]
}

#[test]
fn derivation_is_deterministic() {
    let mint = b32(1);
    let c = b32(2);
    let name = b"g1".to_vec();
    let a1 = betbook1::addr::derive(&mint, &name, &c).unwrap();
    let a2 = betbook1::addr::derive(&mint, &name, &c).unwrap();
    assert_eq!(a1, a2);
    assert_eq!(a1.len(), 32);
}

#[test]
fn derivation_changes_with_every_seed() {
    let mint = b32(1);
    let c = b32(2);
    let name = b"g1".to_vec();
    let base = betbook1::addr::derive(&mint, &name, &c).unwrap();
    let other_mint = betbook1::addr::derive(&b32(9), &name, &c).unwrap();
    let other_name = betbook1::addr::derive(&mint, &b"g2".to_vec(), &c).unwrap();
    let other_challenger = betbook1::addr::derive(&mint, &name, &b32(9)).unwrap();
    assert_ne!(base, other_mint);
    assert_ne!(base, other_name);
    assert_ne!(base, other_challenger);
}

#[test]
fn derivation_matches_the_program_derived_address() {
    let mint = b32(1);
    let c = b32(2);
    let name = b"g1".to_vec();
    let got = betbook1::addr::derive(&mint, &name, &c).unwrap();
    let pid = Pubkey::new_from_array(betbook1::addr::program_id().try_into().unwrap());
    let (expected, _bump) =
        Pubkey::try_find_program_address(&[&mint, &name, &c], &pid).unwrap();
    assert_eq!(got, expected.to_bytes().to_vec());
}

#[test]
fn derivation_chain_links_record_vault_and_manager() {
    let mint = b32(1);
    let c = b32(2);
    let name = b"g1".to_vec();
    let config = betbook1::addr::derive(&mint, &name, &c).unwrap();
    let vault = betbook1::addr::derive_vault(&config).unwrap();
    let manager = betbook1::addr::derive_manager(&vault).unwrap();
    let pid = Pubkey::new_from_array(betbook1::addr::program_id().try_into().unwrap());
    let (expected_vault, _) = Pubkey::try_find_program_address(&[&config], &pid).unwrap();
    let (expected_manager, _) =
        Pubkey::try_find_program_address(&[&vault], &pid).unwrap();
    assert_eq!(vault, expected_vault.to_bytes().to_vec());
    assert_eq!(manager, expected_manager.to_bytes().to_vec());
    assert_ne!(config, vault);
    assert_ne!(vault, manager);
}

#[test]
fn decimal_rendering_is_exact() {
    assert_eq!(betbook1::memo::u64_to_dec(0), b"0".to_vec());
    assert_eq!(betbook1::memo::u64_to_dec(2000), b"2000".to_vec());
    assert_eq!(
        betbook1::memo::u64_to_dec(u64::MAX),
        b"18446744073709551615".to_vec()
    );
}

#[test]
fn attestation_record_is_exact() {
    let winner = b32(7);
    let rendered = betbook1::memo::render_memo(&winner, true, 12345);
    let expected = format!(
        "winner: {}, winning_side: true, winnings: 12345",
        Pubkey::new_from_array([7u8; 32])
    );
    assert_eq!(String::from_utf8(rendered).unwrap(), expected);
}
