//! Tests of the modeled funding and token program operations.

use ata::account::{zeroed, Account};
use ata::address::{Pubkey, SYSTEM_PROGRAM_ID, TOKEN_PROGRAM_ID};
use ata::error::AtaError;
use ata::provision::create_pda_account;
use ata::system::{allocate, assign, create_account, transfer};
use ata::token::{
    close_account, initialize_account3, read_mint_decimals, read_token_account, token_account_bytes,
    transfer_checked, with_amount,
};

fn account(key: Pubkey, lamports: u64, owner_program: Pubkey, data: Vec<u8>, is_signer: bool)
    -> Account {
    Account { key, lamports, owner_program, data, is_signer }
}

fn mint_account(key: Pubkey, decimals: u8) -> Account {
    let mut data = vec![0u8; 82];
    data[44] = decimals;
    data[45] = 1;
    account(key, 1_000_000, TOKEN_PROGRAM_ID, data, false)
}

fn entry_account(key: Pubkey, mint: &Pubkey, owner: &Pubkey, amount: u64) -> Account {
    account(key, 1_000_000, TOKEN_PROGRAM_ID, token_account_bytes(mint, owner, amount), false)
}

#[test]
fn zeroed_buffer() {
    let v = zeroed(165);
    assert_eq!(v.len(), 165);
    assert!(v.iter().all(|b| *b == 0));
}

#[test]
fn entry_bytes_round_trip() {
    let entry = entry_account([1u8; 32], &[2u8; 32], &[3u8; 32], 77);
    let state = read_token_account(&entry).expect("entry should read back");
    assert_eq!(state.mint, [2u8; 32].to_vec());
    assert_eq!(state.owner, [3u8; 32].to_vec());
    assert_eq!(state.amount, 77);
}

#[test]
fn with_amount_changes_only_the_amount() {
    let data = token_account_bytes(&[2u8; 32], &[3u8; 32], 77);
    let rewritten = with_amount(&data, 500);
    assert_eq!(&rewritten[0..64], &data[0..64]);
    assert_eq!(&rewritten[72..], &data[72..]);
    assert_eq!(&rewritten[64..72], &500u64.to_le_bytes());
}

#[test]
fn read_rejects_non_entries() {
    let short = account([1u8; 32], 0, TOKEN_PROGRAM_ID, vec![0u8; 10], false);
    assert_eq!(read_token_account(&short).unwrap_err(), AtaError::InvalidAccountData);
    let foreign = account([1u8; 32], 0, [9u8; 32], vec![0u8; 165], false);
    assert_eq!(read_token_account(&foreign).unwrap_err(), AtaError::InvalidAccountData);
}

#[test]
fn read_mint_decimals_checks_owner_and_length() {
    assert_eq!(read_mint_decimals(&mint_account([1u8; 32], 9)), Ok(9));
    let short = account([1u8; 32], 0, TOKEN_PROGRAM_ID, vec![0u8; 10], false);
    assert_eq!(read_mint_decimals(&short), Err(AtaError::InvalidAccountData));
    let mut foreign = mint_account([1u8; 32], 9);
    foreign.owner_program = [9u8; 32];
    assert_eq!(read_mint_decimals(&foreign), Err(AtaError::InvalidAccountOwner));
}

#[test]
fn transfer_moves_lamports() {
    let mut from = account([1u8; 32], 100, SYSTEM_PROGRAM_ID, Vec::new(), true);
    let mut to = account([2u8; 32], 7, SYSTEM_PROGRAM_ID, Vec::new(), false);
    assert_eq!(transfer(&mut from, &mut to, 60), Ok(()));
    assert_eq!(from.lamports, 40);
    assert_eq!(to.lamports, 67);
}

#[test]
fn transfer_failures() {
    let mut unsigned = account([1u8; 32], 100, SYSTEM_PROGRAM_ID, Vec::new(), false);
    let mut to = account([2u8; 32], 0, SYSTEM_PROGRAM_ID, Vec::new(), false);
    assert_eq!(transfer(&mut unsigned, &mut to, 10), Err(AtaError::MissingRequiredSignature));

    let mut poor = account([1u8; 32], 5, SYSTEM_PROGRAM_ID, Vec::new(), true);
    assert_eq!(transfer(&mut poor, &mut to, 10), Err(AtaError::InsufficientFunds));

    let mut rich = account([1u8; 32], 100, SYSTEM_PROGRAM_ID, Vec::new(), true);
    let mut full = account([2u8; 32], u64::MAX, SYSTEM_PROGRAM_ID, Vec::new(), false);
    assert_eq!(transfer(&mut rich, &mut full, 1), Err(AtaError::ArithmeticOverflow));
}

#[test]
fn allocate_and_assign() {
    let mut acc = account([1u8; 32], 10, SYSTEM_PROGRAM_ID, Vec::new(), false);
    assert_eq!(allocate(&mut acc, 42), Ok(()));
    assert_eq!(acc.data, vec![0u8; 42]);
    assert_eq!(allocate(&mut acc, 42), Err(AtaError::AccountAlreadyInUse));
    assert_eq!(assign(&mut acc, &[7u8; 32]), Ok(()));
    assert_eq!(acc.owner_program, [7u8; 32]);
}

#[test]
fn create_account_rejects_used_target() {
    let mut payer = account([1u8; 32], 100, SYSTEM_PROGRAM_ID, Vec::new(), true);
    let mut used = account([2u8; 32], 3, SYSTEM_PROGRAM_ID, Vec::new(), false);
    assert_eq!(create_account(&mut payer, &mut used, 50, 10, &[7u8; 32]),
        Err(AtaError::AccountAlreadyInUse));
    let mut fresh = account([2u8; 32], 0, SYSTEM_PROGRAM_ID, Vec::new(), false);
    assert_eq!(create_account(&mut payer, &mut fresh, 50, 10, &[7u8; 32]), Ok(()));
    assert_eq!(payer.lamports, 50);
    assert_eq!(fresh.lamports, 50);
    assert_eq!(fresh.data, vec![0u8; 10]);
    assert_eq!(fresh.owner_program, [7u8; 32]);
}

#[test]
fn provision_fresh_and_prefunded() {
    let mut payer = account([1u8; 32], 1_000_000, SYSTEM_PROGRAM_ID, Vec::new(), true);
    let mut fresh = account([2u8; 32], 0, SYSTEM_PROGRAM_ID, Vec::new(), false);
    assert_eq!(create_pda_account(&mut payer, 500_000, 165, &TOKEN_PROGRAM_ID, &mut fresh),
        Ok(()));
    assert_eq!(payer.lamports, 500_000);
    assert_eq!(fresh.lamports, 500_000);
    assert_eq!(fresh.data.len(), 165);
    assert_eq!(fresh.owner_program, TOKEN_PROGRAM_ID);

    let mut payer = account([1u8; 32], 1_000_000, SYSTEM_PROGRAM_ID, Vec::new(), true);
    let mut topped = account([2u8; 32], 40, SYSTEM_PROGRAM_ID, Vec::new(), false);
    assert_eq!(create_pda_account(&mut payer, 500_000, 165, &TOKEN_PROGRAM_ID, &mut topped),
        Ok(()));
    assert_eq!(topped.lamports, 165);
    assert_eq!(payer.lamports, 1_000_000 - 125);
    assert_eq!(topped.data.len(), 165);
}

#[test]
fn initialize_account3_checks() {
    let mint = mint_account([5u8; 32], 2);

    let mut foreign = account([2u8; 32], 500, [9u8; 32], vec![0u8; 165], false);
    assert_eq!(initialize_account3(&mut foreign, &mint, &[3u8; 32], 100),
        Err(AtaError::IllegalOwner));

    let mut short = account([2u8; 32], 500, TOKEN_PROGRAM_ID, vec![0u8; 10], false);
    assert_eq!(initialize_account3(&mut short, &mint, &[3u8; 32], 100),
        Err(AtaError::InvalidAccountData));

    let mut poor = account([2u8; 32], 50, TOKEN_PROGRAM_ID, vec![0u8; 165], false);
    assert_eq!(initialize_account3(&mut poor, &mint, &[3u8; 32], 100),
        Err(AtaError::NotRentExempt));

    let mut plain = account([2u8; 32], 500, TOKEN_PROGRAM_ID, vec![0u8; 165], false);
    let mut dead_mint = mint_account([5u8; 32], 2);
    dead_mint.data[45] = 0;
    assert_eq!(initialize_account3(&mut plain, &dead_mint, &[3u8; 32], 100),
        Err(AtaError::InvalidAccountData));

    assert_eq!(initialize_account3(&mut plain, &mint, &[3u8; 32], 100), Ok(()));
    let state = read_token_account(&plain).expect("entry should read back");
    assert_eq!(state.mint, [5u8; 32].to_vec());
    assert_eq!(state.owner, [3u8; 32].to_vec());
    assert_eq!(state.amount, 0);
    assert_eq!(initialize_account3(&mut plain, &mint, &[3u8; 32], 100),
        Err(AtaError::AccountAlreadyInitialized));
}

#[test]
fn transfer_checked_moves_tokens() {
    let mint = mint_account([5u8; 32], 2);
    let mut from = entry_account([1u8; 32], &[5u8; 32], &[7u8; 32], 30);
    let mut to = entry_account([2u8; 32], &[5u8; 32], &[8u8; 32], 4);
    assert_eq!(transfer_checked(&mut from, &mut to, &mint, &[7u8; 32], 10, 2), Ok(()));
    assert_eq!(read_token_account(&from).unwrap().amount, 20);
    assert_eq!(read_token_account(&to).unwrap().amount, 14);
}

#[test]
fn transfer_checked_failures() {
    let mint = mint_account([5u8; 32], 2);

    let mut from = entry_account([1u8; 32], &[5u8; 32], &[7u8; 32], 30);
    let mut to = entry_account([2u8; 32], &[5u8; 32], &[8u8; 32], 4);
    assert_eq!(transfer_checked(&mut from, &mut to, &mint, &[7u8; 32], 10, 3),
        Err(AtaError::InvalidAccountData));
    assert_eq!(transfer_checked(&mut from, &mut to, &mint, &[9u8; 32], 10, 2),
        Err(AtaError::InvalidOwner));
    assert_eq!(transfer_checked(&mut from, &mut to, &mint, &[7u8; 32], 31, 2),
        Err(AtaError::InsufficientFunds));

    let mut wrong_mint = entry_account([1u8; 32], &[6u8; 32], &[7u8; 32], 30);
    assert_eq!(transfer_checked(&mut wrong_mint, &mut to, &mint, &[7u8; 32], 10, 2),
        Err(AtaError::InvalidAccountData));
}

#[test]
fn close_account_reclaims_balance() {
    let mut emptied = entry_account([1u8; 32], &[5u8; 32], &[7u8; 32], 0);
    emptied.lamports = 2_000;
    let mut wallet = account([7u8; 32], 300, SYSTEM_PROGRAM_ID, Vec::new(), true);
    assert_eq!(close_account(&mut emptied, &mut wallet, &[7u8; 32]), Ok(()));
    assert_eq!(wallet.lamports, 2_300);
    assert_eq!(emptied.lamports, 0);
    assert!(emptied.data.is_empty());
    assert_eq!(emptied.owner_program, SYSTEM_PROGRAM_ID);
    assert!(read_token_account(&emptied).is_err());
}

#[test]
fn close_account_failures() {
    let mut holding = entry_account([1u8; 32], &[5u8; 32], &[7u8; 32], 5);
    let mut wallet = account([7u8; 32], 300, SYSTEM_PROGRAM_ID, Vec::new(), true);
    assert_eq!(close_account(&mut holding, &mut wallet, &[7u8; 32]),
        Err(AtaError::NonNativeHasBalance));
    let mut emptied = entry_account([1u8; 32], &[5u8; 32], &[7u8; 32], 0);
    assert_eq!(close_account(&mut emptied, &mut wallet, &[9u8; 32]),
        Err(AtaError::InvalidOwner));
}
