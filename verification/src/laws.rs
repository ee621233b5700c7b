//! Laws of the instruction handlers, proved from their specifications:
//! what a successful create leaves behind, how repeated runs behave in
//! each mode, when seed mismatches fail, and what a recover run moves.

use vstd::prelude::*;

use crate::address::{spec_derived_address, SYSTEM_PROGRAM_ID, TOKEN_PROGRAM_ID};
use crate::error::AtaError;
use crate::instruction::{spec_create_mode, CreateMode};
use crate::processor::{spec_create_effects, spec_process_create, spec_process_recover,
    spec_recover_effects, CreateAccounts, CreateOutcome, RecoverAccounts};
use crate::token::{lemma_token_account_bytes_fields, lemma_with_amount_fields,
    spec_is_token_account, spec_token_amount, spec_token_mint, spec_token_owner};

verus! {

/// Derivation is a pure function: identical inputs always yield the
/// identical derived address and bump.
pub proof fn lemma_derive_deterministic(
    wallet: Seq<u8>,
    mint: Seq<u8>,
    program_id: Seq<u8>,
    token_program_id: Seq<u8>,
    first: Option<(Seq<u8>, u8)>,
    second: Option<(Seq<u8>, u8)>,
)
    requires
        first == spec_derived_address(wallet, mint, program_id, token_program_id),
        second == spec_derived_address(wallet, mint, program_id, token_program_id),
    ensures
        first == second,
{
}

/// The two fixed program ids are distinct.
pub proof fn lemma_token_system_distinct()
    ensures
        TOKEN_PROGRAM_ID@ != SYSTEM_PROGRAM_ID@,
{
    assert(TOKEN_PROGRAM_ID@[0] == 6u8);
    assert(SYSTEM_PROGRAM_ID@[0] == 0u8);
}

/// A create run that provisions its target — whether the target was fresh
/// or pre-funded — leaves a ledger-owned entry of the right size recording
/// the wallet as owner and the mint as asset, holding no tokens, with a
/// balance at least the rent-exempt minimum.
pub proof fn lemma_create_establishes_entry(
    program_id: Seq<u8>,
    pre: CreateAccounts,
    post: CreateAccounts,
    instruction_data: Seq<u8>,
    create_mode: CreateMode,
    rent_minimum: u64,
    outcome: CreateOutcome,
)
    requires
        spec_process_create(program_id, pre, instruction_data, create_mode, rent_minimum)
            == Ok::<CreateOutcome, AtaError>(outcome),
        outcome is Created,
        spec_create_effects(pre, post, outcome),
    ensures
        spec_is_token_account(post.ata.data@, post.ata.owner_program@),
        post.ata.owner_program@ == TOKEN_PROGRAM_ID@,
        spec_token_owner(post.ata.data@) == pre.wallet.key@,
        spec_token_mint(post.ata.data@) == pre.mint.key@,
        spec_token_amount(post.ata.data@) == 0,
        post.ata.lamports >= rent_minimum,
{
    lemma_token_account_bytes_fields(pre.mint.key@, pre.wallet.key@, 0u64);
}

/// Repeating create in always mode on the same inputs after a successful
/// create fails with the illegal-owner error: the target is no longer
/// owned by the funding program.
pub proof fn lemma_create_repeat_always_fails(
    program_id: Seq<u8>,
    pre: CreateAccounts,
    post: CreateAccounts,
    instruction_data: Seq<u8>,
    create_mode: CreateMode,
    rent_minimum: u64,
    outcome: CreateOutcome,
    second_data: Seq<u8>,
    second_rent_minimum: u64,
)
    requires
        spec_process_create(program_id, pre, instruction_data, create_mode, rent_minimum)
            == Ok::<CreateOutcome, AtaError>(outcome),
        outcome is Created,
        spec_create_effects(pre, post, outcome),
        second_data.len() >= 1,
        spec_create_mode(second_data[0]) is Ok,
    ensures
        spec_process_create(program_id, post, second_data, CreateMode::Always,
            second_rent_minimum) == Err::<CreateOutcome, AtaError>(AtaError::IllegalOwner),
{
    lemma_token_system_distinct();
}

/// Repeating create in idempotent mode on the same inputs after a
/// successful create succeeds again as a no-op — and a no-op changes no
/// account.
pub proof fn lemma_create_rerun_idempotent_no_op(
    program_id: Seq<u8>,
    pre: CreateAccounts,
    post: CreateAccounts,
    instruction_data: Seq<u8>,
    create_mode: CreateMode,
    rent_minimum: u64,
    outcome: CreateOutcome,
    second_data: Seq<u8>,
    second_rent_minimum: u64,
)
    requires
        spec_process_create(program_id, pre, instruction_data, create_mode, rent_minimum)
            == Ok::<CreateOutcome, AtaError>(outcome),
        outcome is Created,
        spec_create_effects(pre, post, outcome),
        second_data.len() >= 1,
        spec_create_mode(second_data[0]) is Ok,
    ensures
        spec_process_create(program_id, post, second_data, CreateMode::Idempotent,
            second_rent_minimum) == Ok::<CreateOutcome, AtaError>(CreateOutcome::NoOp),
{
    lemma_token_account_bytes_fields(pre.mint.key@, pre.wallet.key@, 0u64);
}

/// An idempotent create against an existing entry whose recorded owner
/// differs from the wallet fails with the owner-mismatch error, even
/// though the address derivation matches.
pub proof fn lemma_create_idempotent_owner_mismatch(
    program_id: Seq<u8>,
    a: CreateAccounts,
    instruction_data: Seq<u8>,
    rent_minimum: u64,
)
    requires
        instruction_data.len() >= 1,
        spec_create_mode(instruction_data[0]) is Ok,
        spec_derived_address(a.wallet.key@, a.mint.key@, program_id, a.token_program.key@)
            is Some,
        (spec_derived_address(a.wallet.key@, a.mint.key@, program_id, a.token_program.key@)
            ->0).0 == a.ata.key@,
        a.token_program.key@ == TOKEN_PROGRAM_ID@,
        a.ata.owner_program@ == a.token_program.key@,
        spec_is_token_account(a.ata.data@, a.ata.owner_program@),
        spec_token_owner(a.ata.data@) != a.wallet.key@,
    ensures
        spec_process_create(program_id, a, instruction_data, CreateMode::Idempotent,
            rent_minimum) == Err::<CreateOutcome, AtaError>(AtaError::InvalidOwner),
{
}

/// A target address that does not equal the recomputed derivation fails
/// with the seed-mismatch error, under every mode.
pub proof fn lemma_create_seed_mismatch(
    program_id: Seq<u8>,
    a: CreateAccounts,
    instruction_data: Seq<u8>,
    create_mode: CreateMode,
    rent_minimum: u64,
)
    requires
        instruction_data.len() >= 1,
        spec_create_mode(instruction_data[0]) is Ok,
        spec_derived_address(a.wallet.key@, a.mint.key@, program_id, a.token_program.key@)
            matches Some(pair) ==> pair.0 != a.ata.key@,
    ensures
        spec_process_create(program_id, a, instruction_data, create_mode, rent_minimum)
            == Err::<CreateOutcome, AtaError>(AtaError::InvalidSeeds),
{
}

/// A successful recover run moves exactly the nested entry's recorded
/// amount into the destination entry, zeroes and closes the nested
/// account — a later read no longer sees a ledger entry there — and
/// credits the nested account's whole reclaimed balance to the wallet.
pub proof fn lemma_recover_moves_and_closes(
    program_id: Seq<u8>,
    pre: RecoverAccounts,
    post: RecoverAccounts,
    amount: u64,
)
    requires
        spec_process_recover(program_id, pre) == Ok::<u64, AtaError>(amount),
        spec_recover_effects(pre, post, amount),
    ensures
        amount == spec_token_amount(pre.nested_ata.data@),
        spec_token_amount(post.dest_ata.data@) == spec_token_amount(pre.dest_ata.data@)
            + amount,
        post.nested_ata.lamports == 0,
        post.wallet.lamports == pre.wallet.lamports + pre.nested_ata.lamports,
        !spec_is_token_account(post.nested_ata.data@, post.nested_ata.owner_program@),
{
    lemma_with_amount_fields(pre.dest_ata.data@, (spec_token_amount(pre.dest_ata.data@)
        + amount) as u64);
}


} // verus!
