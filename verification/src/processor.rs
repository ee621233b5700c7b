//! Instruction handlers: create / idempotent create of an associated token
//! account, and recovery of a nested associated token account, plus the
//! dispatcher that routes a raw instruction to them.
//!
//! Every handler is all-or-nothing: on failure the surrounding runtime
//! discards all attempted mutations, so only the error itself is specified
//! for failing runs.

use vstd::prelude::*;

use crate::account::{account_eq, Account};
use crate::address::{bytes_eq, pubkey_eq, spec_derived_address, try_find_derived_address,
    Pubkey, SYSTEM_PROGRAM_ID, TOKEN_PROGRAM_ID};
use crate::error::{AssociatedTokenAccountError, AtaError};
use crate::instruction::{spec_create_mode, CreateMode};
use crate::provision::{create_pda_account, spec_create_pda_account};
use crate::token::{close_account, initialize_account3, lemma_with_amount_fields,
    read_mint_decimals, read_token_account, spec_is_initialized_mint, spec_is_token_account,
    spec_mint_decimals, spec_token_account_bytes, spec_token_amount, spec_token_mint,
    spec_token_owner, spec_transfer_checked, spec_with_amount, transfer_checked,
    TOKEN_ACCOUNT_LEN};

verus! {

/// The ordered account list of a create instruction: funding account,
/// target associated token account, wallet, mint, system program, token
/// program.
#[derive(Debug)]
pub struct CreateAccounts {
    /// The funding account; must have signed.
    pub funder: Account,
    /// The associated token account to be created.
    pub ata: Account,
    /// The wallet the new associated token account belongs to.
    pub wallet: Account,
    /// The token mint for the new associated token account.
    pub mint: Account,
    /// The system (funding) program account.
    pub system_program: Account,
    /// The token program account.
    pub token_program: Account,
}

/// The ordered account list of a recover instruction: nested associated
/// token account, its mint, the destination associated token account, the
/// owner associated token account, its mint, the wallet, the token program.
#[derive(Debug)]
pub struct RecoverAccounts {
    /// The nested associated token account being unwound.
    pub nested_ata: Account,
    /// The token mint of the nested associated token account.
    pub nested_mint: Account,
    /// The wallet's associated token account for the nested mint.
    pub dest_ata: Account,
    /// The associated token account that owns the nested account.
    pub owner_ata: Account,
    /// The token mint of the owner associated token account.
    pub owner_mint: Account,
    /// The wallet; must have signed.
    pub wallet: Account,
    /// The token program account.
    pub token_program: Account,
}

/// What a successful create run did.
#[derive(Debug)]
pub enum CreateOutcome {
    /// The target was already the expected entry; nothing was touched.
    NoOp,
    /// The target was provisioned and initialized; the funder's and the
    /// target's new balances.
    Created { funder_lamports: u64, ata_lamports: u64 },
}

/// The outcome of a create run on the given accounts: what it does, or the
/// first failing check.
///
/// The instruction data must still carry a well-formed mode byte, but the
/// discriminator is authoritative for the mode, so the byte is otherwise
/// inert.
pub open spec fn spec_process_create(
    program_id: Seq<u8>,
    a: CreateAccounts,
    instruction_data: Seq<u8>,
    create_mode: CreateMode,
    rent_minimum: u64,
) -> Result<CreateOutcome, AtaError> {
    if instruction_data.len() == 0 {
        Err(AtaError::InvalidInstructionData)
    } else {
        match spec_create_mode(instruction_data[0]) {
            Err(e) => Err(e),
            Ok(mode_byte) => match spec_derived_address(a.wallet.key@, a.mint.key@, program_id,
                a.token_program.key@) {
                None => Err(AtaError::InvalidSeeds),
                Some((derived, bump)) => {
                    if derived != a.ata.key@ {
                        Err(AtaError::InvalidSeeds)
                    } else if create_mode == CreateMode::Idempotent
                        && a.token_program.key@ == TOKEN_PROGRAM_ID@
                        && a.ata.owner_program@ == a.token_program.key@
                        && spec_is_token_account(a.ata.data@, a.ata.owner_program@) {
                        if spec_token_owner(a.ata.data@) != a.wallet.key@ {
                            Err(AtaError::InvalidOwner)
                        } else if spec_token_mint(a.ata.data@) != a.mint.key@ {
                            Err(AtaError::InvalidAccountData)
                        } else {
                            Ok(CreateOutcome::NoOp)
                        }
                    } else if a.ata.owner_program@ != SYSTEM_PROGRAM_ID@ {
                        Err(AtaError::IllegalOwner)
                    } else {
                        match spec_create_pda_account(a.funder, rent_minimum,
                            TOKEN_ACCOUNT_LEN as u64, a.ata) {
                            Err(e) => Err(e),
                            Ok((funder_lamports, ata_lamports)) => {
                                if a.token_program.key@ != TOKEN_PROGRAM_ID@ {
                                    Err(AtaError::IllegalOwner)
                                } else if ata_lamports < rent_minimum {
                                    Err(AtaError::NotRentExempt)
                                } else if !spec_is_initialized_mint(a.mint.data@,
                                    a.mint.owner_program@) {
                                    Err(AtaError::InvalidAccountData)
                                } else {
                                    Ok(CreateOutcome::Created { funder_lamports, ata_lamports })
                                }
                            },
                        }
                    }
                },
            },
        }
    }
}

/// How the accounts of a successful create run end relative to how they
/// began.
pub open spec fn spec_create_effects(
    pre: CreateAccounts,
    post: CreateAccounts,
    outcome: CreateOutcome,
) -> bool {
    match outcome {
        CreateOutcome::NoOp => {
            &&& account_eq(post.funder, pre.funder)
            &&& account_eq(post.ata, pre.ata)
            &&& account_eq(post.wallet, pre.wallet)
            &&& account_eq(post.mint, pre.mint)
            &&& account_eq(post.system_program, pre.system_program)
            &&& account_eq(post.token_program, pre.token_program)
        },
        CreateOutcome::Created { funder_lamports, ata_lamports } => {
            &&& account_eq(post.wallet, pre.wallet)
            &&& account_eq(post.mint, pre.mint)
            &&& account_eq(post.system_program, pre.system_program)
            &&& account_eq(post.token_program, pre.token_program)
            &&& post.funder.lamports == funder_lamports
            &&& post.funder.key@ == pre.funder.key@
            &&& post.funder.owner_program@ == pre.funder.owner_program@
            &&& post.funder.data@ == pre.funder.data@
            &&& post.funder.is_signer == pre.funder.is_signer
            &&& post.ata.lamports == ata_lamports
            &&& post.ata.owner_program@ == pre.token_program.key@
            &&& post.ata.data@ == spec_token_account_bytes(pre.mint.key@, pre.wallet.key@, 0)
            &&& post.ata.key@ == pre.ata.key@
            &&& post.ata.is_signer == pre.ata.is_signer
        },
    }
}

/// Creates the associated token account for `(wallet, mint)` at the derived
/// address, after verifying the target address against the recomputed
/// derivation. In idempotent mode an existing matching entry is accepted
/// untouched; a recorded owner or mint that disagrees fails. `rent_minimum`
/// is the rent oracle's minimum balance for an entry-sized account.
pub fn process_create_associated_token_account(
    program_id: &Pubkey,
    accounts: &mut CreateAccounts,
    instruction_data: &Vec<u8>,
    create_mode: CreateMode,
    rent_minimum: u64,
) -> (r: Result<(), AtaError>)
    ensures
        match spec_process_create(program_id@, *old(accounts), instruction_data@, create_mode,
            rent_minimum) {
            Ok(outcome) => r == Ok::<(), AtaError>(()) && spec_create_effects(*old(accounts),
                *final(accounts), outcome),
            Err(e) => r == Err::<(), AtaError>(e),
        },
{
    if instruction_data.len() == 0 {
        return Err(AtaError::InvalidInstructionData);
    }
    match CreateMode::try_from(instruction_data[0]) {
        Ok(mode_byte) => {},
        Err(e) => {
            return Err(e);
        },
    }
    let derived = match try_find_derived_address(&accounts.wallet.key, &accounts.mint.key,
        program_id, &accounts.token_program.key) {
        Some(pair) => pair,
        None => {
            return Err(AtaError::InvalidSeeds);
        },
    };
    if !pubkey_eq(&derived.0, &accounts.ata.key) {
        return Err(AtaError::InvalidSeeds);
    }
    if create_mode == CreateMode::Idempotent
        && pubkey_eq(&accounts.token_program.key, &TOKEN_PROGRAM_ID)
        && pubkey_eq(&accounts.ata.owner_program, &accounts.token_program.key) {
        match read_token_account(&accounts.ata) {
            Ok(state) => {
                if !bytes_eq(state.owner.as_slice(), accounts.wallet.key.as_slice()) {
                    return Err(AtaError::from(AssociatedTokenAccountError::InvalidOwner));
                }
                if !bytes_eq(state.mint.as_slice(), accounts.mint.key.as_slice()) {
                    return Err(AtaError::InvalidAccountData);
                }
                return Ok(());
            },
            Err(_) => {},
        }
    }
    if !pubkey_eq(&accounts.ata.owner_program, &SYSTEM_PROGRAM_ID) {
        return Err(AtaError::IllegalOwner);
    }
    let token_program_key = accounts.token_program.key;
    match create_pda_account(&mut accounts.funder, rent_minimum, TOKEN_ACCOUNT_LEN as u64,
        &token_program_key, &mut accounts.ata) {
        Ok(()) => {},
        Err(e) => {
            return Err(e);
        },
    }
    match initialize_account3(&mut accounts.ata, &accounts.mint, &accounts.wallet.key,
        rent_minimum) {
        Ok(()) => {},
        Err(e) => {
            return Err(e);
        },
    }
    Ok(())
}

/// The outcome of a recover run on the given accounts: the amount moved out
/// of the nested account, or the first failing check. Three derivations are
/// verified: the owner associated token account from `(wallet, owner
/// mint)`, the nested account from `(owner associated token account, nested
/// mint)`, and the destination from `(wallet, nested mint)`.
pub open spec fn spec_process_recover(program_id: Seq<u8>, a: RecoverAccounts) -> Result<
    u64,
    AtaError,
> {
    match spec_derived_address(a.wallet.key@, a.owner_mint.key@, program_id,
        a.token_program.key@) {
        None => Err(AtaError::InvalidSeeds),
        Some((owner_ata_address, bump)) => {
            if owner_ata_address != a.owner_ata.key@ {
                Err(AtaError::InvalidSeeds)
            } else {
                match spec_derived_address(a.owner_ata.key@, a.nested_mint.key@, program_id,
                    a.token_program.key@) {
                    None => Err(AtaError::InvalidSeeds),
                    Some((nested_address, nested_bump)) => {
                        if nested_address != a.nested_ata.key@ {
                            Err(AtaError::InvalidSeeds)
                        } else {
                            match spec_derived_address(a.wallet.key@, a.nested_mint.key@,
                                program_id, a.token_program.key@) {
                                None => Err(AtaError::InvalidSeeds),
                                Some((destination_address, destination_bump)) => {
                                    spec_recover_checks(a, destination_address)
                                },
                            }
                        }
                    },
                }
            }
        },
    }
}

/// The ownership, signer and ledger-entry checks of a recover run, after
/// the three derivations, and the effect of the transfer and close.
pub open spec fn spec_recover_checks(a: RecoverAccounts, destination_address: Seq<u8>) -> Result<
    u64,
    AtaError,
> {
    if destination_address != a.dest_ata.key@ {
        Err(AtaError::InvalidSeeds)
    } else if !a.wallet.is_signer {
        Err(AtaError::MissingRequiredSignature)
    } else if a.owner_mint.owner_program@ != a.token_program.key@ {
        Err(AtaError::IllegalOwner)
    } else if a.owner_ata.owner_program@ != a.token_program.key@ {
        Err(AtaError::IllegalOwner)
    } else if !spec_is_token_account(a.owner_ata.data@, a.owner_ata.owner_program@) {
        Err(AtaError::InvalidAccountData)
    } else if spec_token_owner(a.owner_ata.data@) != a.wallet.key@ {
        Err(AtaError::InvalidOwner)
    } else if a.nested_ata.owner_program@ != a.token_program.key@ {
        Err(AtaError::IllegalOwner)
    } else if !spec_is_token_account(a.nested_ata.data@, a.nested_ata.owner_program@) {
        Err(AtaError::InvalidAccountData)
    } else if spec_token_owner(a.nested_ata.data@) != a.owner_ata.key@ {
        Err(AtaError::InvalidOwner)
    } else if a.nested_mint.owner_program@ != a.token_program.key@ {
        Err(AtaError::IllegalOwner)
    } else if a.nested_mint.data@.len() != 82 {
        Err(AtaError::InvalidAccountData)
    } else if a.nested_mint.owner_program@ != TOKEN_PROGRAM_ID@ {
        Err(AtaError::InvalidAccountOwner)
    } else {
        match spec_transfer_checked(a.nested_ata, a.dest_ata, a.nested_mint, a.owner_ata.key@,
            spec_token_amount(a.nested_ata.data@), spec_mint_decimals(a.nested_mint.data@)) {
            Err(e) => Err(e),
            Ok((from_amount, to_amount)) => {
                if a.wallet.lamports + a.nested_ata.lamports > u64::MAX {
                    Err(AtaError::ArithmeticOverflow)
                } else {
                    Ok(spec_token_amount(a.nested_ata.data@))
                }
            },
        }
    }
}

/// How the accounts of a successful recover run end relative to how they
/// began: the nested entry's whole amount lands in the destination entry,
/// the nested account is emptied and closed, and its reclaimed balance is
/// credited to the wallet.
pub open spec fn spec_recover_effects(
    pre: RecoverAccounts,
    post: RecoverAccounts,
    amount: u64,
) -> bool {
    &&& account_eq(post.nested_mint, pre.nested_mint)
    &&& account_eq(post.owner_ata, pre.owner_ata)
    &&& account_eq(post.owner_mint, pre.owner_mint)
    &&& account_eq(post.token_program, pre.token_program)
    &&& post.dest_ata.data@ == spec_with_amount(pre.dest_ata.data@, (spec_token_amount(
        pre.dest_ata.data@) + amount) as u64)
    &&& post.dest_ata.key@ == pre.dest_ata.key@
    &&& post.dest_ata.lamports == pre.dest_ata.lamports
    &&& post.dest_ata.owner_program@ == pre.dest_ata.owner_program@
    &&& post.dest_ata.is_signer == pre.dest_ata.is_signer
    &&& post.nested_ata.lamports == 0
    &&& post.nested_ata.data@ == Seq::<u8>::empty()
    &&& post.nested_ata.owner_program@ == SYSTEM_PROGRAM_ID@
    &&& post.nested_ata.key@ == pre.nested_ata.key@
    &&& post.nested_ata.is_signer == pre.nested_ata.is_signer
    &&& post.wallet.lamports == pre.wallet.lamports + pre.nested_ata.lamports
    &&& post.wallet.key@ == pre.wallet.key@
    &&& post.wallet.owner_program@ == pre.wallet.owner_program@
    &&& post.wallet.data@ == pre.wallet.data@
    &&& post.wallet.is_signer == pre.wallet.is_signer
}

/// Unwinds a nested associated token account: verifies the three
/// derivations and the ownership chain, moves the nested entry's whole
/// amount to the wallet's own associated token account, then closes the
/// nested account and credits its reclaimed balance to the wallet.
pub fn process_recover_nested(program_id: &Pubkey, accounts: &mut RecoverAccounts) -> (r: Result<
    (),
    AtaError,
>)
    ensures
        match spec_process_recover(program_id@, *old(accounts)) {
            Ok(amount) => r == Ok::<(), AtaError>(()) && spec_recover_effects(*old(accounts),
                *final(accounts), amount),
            Err(e) => r == Err::<(), AtaError>(e),
        },
{
    let owner_ata_derived = match try_find_derived_address(&accounts.wallet.key,
        &accounts.owner_mint.key, program_id, &accounts.token_program.key) {
        Some(pair) => pair,
        None => {
            return Err(AtaError::InvalidSeeds);
        },
    };
    if !pubkey_eq(&owner_ata_derived.0, &accounts.owner_ata.key) {
        return Err(AtaError::InvalidSeeds);
    }
    let nested_derived = match try_find_derived_address(&accounts.owner_ata.key,
        &accounts.nested_mint.key, program_id, &accounts.token_program.key) {
        Some(pair) => pair,
        None => {
            return Err(AtaError::InvalidSeeds);
        },
    };
    if !pubkey_eq(&nested_derived.0, &accounts.nested_ata.key) {
        return Err(AtaError::InvalidSeeds);
    }
    let destination_derived = match try_find_derived_address(&accounts.wallet.key,
        &accounts.nested_mint.key, program_id, &accounts.token_program.key) {
        Some(pair) => pair,
        None => {
            return Err(AtaError::InvalidSeeds);
        },
    };
    if !pubkey_eq(&destination_derived.0, &accounts.dest_ata.key) {
        return Err(AtaError::InvalidSeeds);
    }
    if !accounts.wallet.is_signer {
        return Err(AtaError::MissingRequiredSignature);
    }
    if !pubkey_eq(&accounts.owner_mint.owner_program, &accounts.token_program.key) {
        return Err(AtaError::IllegalOwner);
    }
    if !pubkey_eq(&accounts.owner_ata.owner_program, &accounts.token_program.key) {
        return Err(AtaError::IllegalOwner);
    }
    let owner_ata_state = match read_token_account(&accounts.owner_ata) {
        Ok(state) => state,
        Err(e) => {
            return Err(e);
        },
    };
    if !bytes_eq(owner_ata_state.owner.as_slice(), accounts.wallet.key.as_slice()) {
        return Err(AtaError::from(AssociatedTokenAccountError::InvalidOwner));
    }
    if !pubkey_eq(&accounts.nested_ata.owner_program, &accounts.token_program.key) {
        return Err(AtaError::IllegalOwner);
    }
    let nested_ata_state = match read_token_account(&accounts.nested_ata) {
        Ok(state) => state,
        Err(e) => {
            return Err(e);
        },
    };
    if !bytes_eq(nested_ata_state.owner.as_slice(), accounts.owner_ata.key.as_slice()) {
        return Err(AtaError::from(AssociatedTokenAccountError::InvalidOwner));
    }
    let amount = nested_ata_state.amount;
    if !pubkey_eq(&accounts.nested_mint.owner_program, &accounts.token_program.key) {
        return Err(AtaError::IllegalOwner);
    }
    let decimals = match read_mint_decimals(&accounts.nested_mint) {
        Ok(d) => d,
        Err(e) => {
            return Err(e);
        },
    };
    let owner_ata_key = accounts.owner_ata.key;
    let ghost nested_before = accounts.nested_ata;
    match transfer_checked(&mut accounts.nested_ata, &mut accounts.dest_ata,
        &accounts.nested_mint, &owner_ata_key, amount, decimals) {
        Ok(()) => {},
        Err(e) => {
            return Err(e);
        },
    }
    proof {
        lemma_with_amount_fields(nested_before.data@, 0u64);
    }
    match close_account(&mut accounts.nested_ata, &mut accounts.wallet, &owner_ata_key) {
        Ok(()) => {},
        Err(e) => {
            return Err(e);
        },
    }
    Ok(())
}

impl CreateAccounts {
    /// Destructures the ordered account list of a create instruction,
    /// failing explicitly when the list is too short; trailing accounts
    /// are ignored.
    pub fn from_list(accounts: Vec<Account>) -> (r: Result<CreateAccounts, AtaError>)
        ensures
            accounts@.len() < 6 ==> r == Err::<CreateAccounts, AtaError>(
                AtaError::NotEnoughAccountKeys),
            accounts@.len() >= 6 ==> (r matches Ok(c) && c.funder == accounts@[0]
                && c.ata == accounts@[1] && c.wallet == accounts@[2] && c.mint == accounts@[3]
                && c.system_program == accounts@[4] && c.token_program == accounts@[5]),
    {
        let mut accounts = accounts;
        if accounts.len() < 6 {
            return Err(AtaError::NotEnoughAccountKeys);
        }
        let funder = accounts.remove(0);
        let ata = accounts.remove(0);
        let wallet = accounts.remove(0);
        let mint = accounts.remove(0);
        let system_program = accounts.remove(0);
        let token_program = accounts.remove(0);
        Ok(CreateAccounts { funder, ata, wallet, mint, system_program, token_program })
    }
}

impl RecoverAccounts {
    /// Destructures the ordered account list of a recover instruction,
    /// failing explicitly when the list is too short; trailing accounts
    /// are ignored.
    pub fn from_list(accounts: Vec<Account>) -> (r: Result<RecoverAccounts, AtaError>)
        ensures
            accounts@.len() < 7 ==> r == Err::<RecoverAccounts, AtaError>(
                AtaError::NotEnoughAccountKeys),
            accounts@.len() >= 7 ==> (r matches Ok(c) && c.nested_ata == accounts@[0]
                && c.nested_mint == accounts@[1] && c.dest_ata == accounts@[2]
                && c.owner_ata == accounts@[3] && c.owner_mint == accounts@[4]
                && c.wallet == accounts@[5] && c.token_program == accounts@[6]),
    {
        let mut accounts = accounts;
        if accounts.len() < 7 {
            return Err(AtaError::NotEnoughAccountKeys);
        }
        let nested_ata = accounts.remove(0);
        let nested_mint = accounts.remove(0);
        let dest_ata = accounts.remove(0);
        let owner_ata = accounts.remove(0);
        let owner_mint = accounts.remove(0);
        let wallet = accounts.remove(0);
        let token_program = accounts.remove(0);
        Ok(RecoverAccounts {
            nested_ata,
            nested_mint,
            dest_ata,
            owner_ata,
            owner_mint,
            wallet,
            token_program,
        })
    }
}

/// The accounts a successful instruction hands back, as the handler left
/// them.
#[derive(Debug)]
pub enum ProcessedAccounts {
    /// A create or idempotent-create run.
    Create(CreateAccounts),
    /// A recover run.
    RecoverNested(RecoverAccounts),
}

/// The create accounts named by the first six entries of an account list.
pub open spec fn spec_create_accounts_of(s: Seq<Account>) -> CreateAccounts {
    CreateAccounts {
        funder: s[0],
        ata: s[1],
        wallet: s[2],
        mint: s[3],
        system_program: s[4],
        token_program: s[5],
    }
}

/// The recover accounts named by the first seven entries of an account
/// list.
pub open spec fn spec_recover_accounts_of(s: Seq<Account>) -> RecoverAccounts {
    RecoverAccounts {
        nested_ata: s[0],
        nested_mint: s[1],
        dest_ata: s[2],
        owner_ata: s[3],
        owner_mint: s[4],
        wallet: s[5],
        token_program: s[6],
    }
}

/// Routes a raw instruction to its handler. The leading byte selects the
/// instruction — 0 create, 1 idempotent create, 2 recover nested — and is
/// authoritative for the create mode; the rest of the data goes to the
/// handler. `rent_minimum` is the rent oracle's minimum balance for an
/// entry-sized account.
pub fn process_instruction(
    program_id: &Pubkey,
    accounts: Vec<Account>,
    instruction_data: &Vec<u8>,
    rent_minimum: u64,
) -> (r: Result<ProcessedAccounts, AtaError>)
    ensures
        instruction_data@.len() == 0 ==> r == Err::<ProcessedAccounts, AtaError>(
            AtaError::InvalidInstructionData),
        instruction_data@.len() >= 1 && instruction_data@[0] > 2 ==> r
            == Err::<ProcessedAccounts, AtaError>(AtaError::InvalidInstructionData),
        instruction_data@.len() >= 1 && (instruction_data@[0] == 0 || instruction_data@[0] == 1)
            ==> {
            let mode = if instruction_data@[0] == 0 { CreateMode::Always } else {
                CreateMode::Idempotent
            };
            if accounts@.len() < 6 {
                r == Err::<ProcessedAccounts, AtaError>(AtaError::NotEnoughAccountKeys)
            } else {
                match spec_process_create(program_id@, spec_create_accounts_of(accounts@),
                    instruction_data@.subrange(1, instruction_data@.len() as int), mode,
                    rent_minimum) {
                    Ok(outcome) => r matches Ok(ProcessedAccounts::Create(post))
                        && spec_create_effects(spec_create_accounts_of(accounts@), post, outcome),
                    Err(e) => r == Err::<ProcessedAccounts, AtaError>(e),
                }
            }
        },
        instruction_data@.len() >= 1 && instruction_data@[0] == 2 ==> {
            if accounts@.len() < 7 {
                r == Err::<ProcessedAccounts, AtaError>(AtaError::NotEnoughAccountKeys)
            } else {
                match spec_process_recover(program_id@, spec_recover_accounts_of(accounts@)) {
                    Ok(amount) => r matches Ok(ProcessedAccounts::RecoverNested(post))
                        && spec_recover_effects(spec_recover_accounts_of(accounts@), post,
                        amount),
                    Err(e) => r == Err::<ProcessedAccounts, AtaError>(e),
                }
            }
        },
{
    if instruction_data.len() == 0 {
        return Err(AtaError::InvalidInstructionData);
    }
    let discriminator = instruction_data[0];
    let rest = crate::token::bytes_range(instruction_data, 1, instruction_data.len());
    if discriminator == 0 || discriminator == 1 {
        let create_mode = if discriminator == 0 { CreateMode::Always } else {
            CreateMode::Idempotent
        };
        let mut accs = match CreateAccounts::from_list(accounts) {
            Ok(c) => c,
            Err(e) => {
                return Err(e);
            },
        };
        match process_create_associated_token_account(program_id, &mut accs, &rest, create_mode,
            rent_minimum) {
            Ok(()) => Ok(ProcessedAccounts::Create(accs)),
            Err(e) => Err(e),
        }
    } else if discriminator == 2 {
        let mut accs = match RecoverAccounts::from_list(accounts) {
            Ok(c) => c,
            Err(e) => {
                return Err(e);
            },
        };
        match process_recover_nested(program_id, &mut accs) {
            Ok(()) => Ok(ProcessedAccounts::RecoverNested(accs)),
            Err(e) => Err(e),
        }
    } else {
        Err(AtaError::InvalidInstructionData)
    }
}

} // verus!
