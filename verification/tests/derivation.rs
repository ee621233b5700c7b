//! Tests of address derivation.

use ata::address::{
    bytes_eq, get_associated_token_address, get_associated_token_address_and_bump_seed,
    get_associated_token_address_and_bump_seed_internal,
    get_associated_token_address_with_program_id, pubkey_eq, try_find_derived_address,
    try_get_associated_token_address, PROGRAM_ID, SYSTEM_PROGRAM_ID, TOKEN_PROGRAM_ID,
};

#[test]
fn derive_is_deterministic() {
    let wallet = [7u8; 32];
    let mint = [9u8; 32];
    let first = try_find_derived_address(&wallet, &mint, &PROGRAM_ID, &TOKEN_PROGRAM_ID)
        .expect("bump search should succeed");
    let second = try_find_derived_address(&wallet, &mint, &PROGRAM_ID, &TOKEN_PROGRAM_ID)
        .expect("bump search should succeed");
    assert_eq!(first.0, second.0);
    assert_eq!(first.1, second.1);
}

#[test]
fn derive_matches_reference_search() {
    let wallet = [7u8; 32];
    let mint = [9u8; 32];
    let (address, bump) =
        try_find_derived_address(&wallet, &mint, &PROGRAM_ID, &TOKEN_PROGRAM_ID)
            .expect("bump search should succeed");
    let program = solana_address::Address::new_from_array(PROGRAM_ID);
    let seeds: [&[u8]; 3] = [&wallet, &TOKEN_PROGRAM_ID, &mint];
    let (expected, expected_bump) =
        solana_address::Address::try_find_program_address(&seeds, &program)
            .expect("reference search should succeed");
    assert_eq!(address, expected.to_bytes());
    assert_eq!(bump, expected_bump);
}

#[test]
fn derived_address_is_off_curve() {
    let wallet = [1u8; 32];
    let mint = [2u8; 32];
    let (address, _bump) =
        try_find_derived_address(&wallet, &mint, &PROGRAM_ID, &TOKEN_PROGRAM_ID)
            .expect("bump search should succeed");
    assert!(!solana_address::Address::new_from_array(address).is_on_curve());
}

#[test]
fn derive_entry_points_agree() {
    let wallet = [3u8; 32];
    let mint = [4u8; 32];
    let pair =
        get_associated_token_address_and_bump_seed(&wallet, &mint, &PROGRAM_ID,
            &TOKEN_PROGRAM_ID);
    let internal = get_associated_token_address_and_bump_seed_internal(&wallet, &mint,
        &PROGRAM_ID, &TOKEN_PROGRAM_ID);
    assert_eq!(pair.0, internal.0);
    assert_eq!(pair.1, internal.1);
    let with_program =
        get_associated_token_address_with_program_id(&wallet, &mint, &TOKEN_PROGRAM_ID);
    assert_eq!(pair.0, with_program);
    let plain = get_associated_token_address(&wallet, &mint);
    assert_eq!(pair.0, plain);
    let tried = try_get_associated_token_address(&wallet, &mint)
        .expect("bump search should succeed");
    assert_eq!(pair.0, tried);
}

#[test]
fn derive_depends_on_every_input() {
    let wallet = [5u8; 32];
    let mint = [6u8; 32];
    let base = try_find_derived_address(&wallet, &mint, &PROGRAM_ID, &TOKEN_PROGRAM_ID)
        .expect("bump search should succeed");
    let other_wallet = try_find_derived_address(&[8u8; 32], &mint, &PROGRAM_ID,
        &TOKEN_PROGRAM_ID)
        .expect("bump search should succeed");
    let other_mint = try_find_derived_address(&wallet, &[9u8; 32], &PROGRAM_ID,
        &TOKEN_PROGRAM_ID)
        .expect("bump search should succeed");
    assert_ne!(base.0, other_wallet.0);
    assert_ne!(base.0, other_mint.0);
}

#[test]
fn byte_equality_helpers() {
    assert!(pubkey_eq(&[1u8; 32], &[1u8; 32]));
    assert!(!pubkey_eq(&[1u8; 32], &[2u8; 32]));
    assert!(bytes_eq(&[1, 2, 3], &[1, 2, 3]));
    assert!(!bytes_eq(&[1, 2, 3], &[1, 2]));
    assert!(!bytes_eq(&[1, 2, 3], &[1, 2, 4]));
    assert!(!pubkey_eq(&TOKEN_PROGRAM_ID, &SYSTEM_PROGRAM_ID));
}
