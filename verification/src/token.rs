//! The ledger (token) program as the core sees it: the byte layout of a
//! ledger entry, reading entries out of raw account data, and the three
//! operations the core drives — initializing an entry, the decimals-checked
//! transfer, and closing an entry.

use vstd::prelude::*;

use crate::account::Account;
use crate::address::{bytes_eq, pubkey_eq, Pubkey, SYSTEM_PROGRAM_ID, TOKEN_PROGRAM_ID};
use crate::error::AtaError;

verus! {

/// Length in bytes of a ledger entry's account data.
pub const TOKEN_ACCOUNT_LEN: usize = 165;

/// Length in bytes of a mint's account data.
pub const MINT_LEN: usize = 82;

/// A parsed ledger entry: the fields of the raw buffer that the core reads.
#[derive(Debug)]
pub struct TokenAccountState {
    /// The mint (asset identity) this entry holds a balance of.
    pub mint: Vec<u8>,
    /// The identity recorded as owning this entry.
    pub owner: Vec<u8>,
    /// The amount of tokens this entry holds.
    pub amount: u64,
}

/// Whether an account can be read as a ledger entry: entry-sized data owned
/// by the canonical token program.
pub open spec fn spec_is_token_account(data: Seq<u8>, owner_program: Seq<u8>) -> bool {
    data.len() == 165 && owner_program == TOKEN_PROGRAM_ID@
}

/// The mint recorded in a ledger entry's data.
pub open spec fn spec_token_mint(data: Seq<u8>) -> Seq<u8> {
    data.subrange(0, 32)
}

/// The owner recorded in a ledger entry's data.
pub open spec fn spec_token_owner(data: Seq<u8>) -> Seq<u8> {
    data.subrange(32, 64)
}

/// The amount recorded in a ledger entry's data, little-endian at bytes
/// 64 through 71.
pub open spec fn spec_token_amount(data: Seq<u8>) -> u64 {
    vstd::bytes::spec_u64_from_le_bytes(data.subrange(64, 72))
}

/// The decimals recorded in a mint's data.
pub open spec fn spec_mint_decimals(data: Seq<u8>) -> u8 {
    data[44]
}

/// Whether an account is an initialized mint of the canonical token
/// program: mint-sized data, owned by it, with the initialized flag set.
pub open spec fn spec_is_initialized_mint(data: Seq<u8>, owner_program: Seq<u8>) -> bool {
    data.len() == 82 && owner_program == TOKEN_PROGRAM_ID@ && data[45] == 1
}

/// The data of a freshly written ledger entry holding `amount` of `mint`
/// for `owner`: mint, owner and little-endian amount at their offsets, the
/// initialized state byte at offset 108, and zeroes elsewhere.
pub open spec fn spec_token_account_bytes(mint: Seq<u8>, owner: Seq<u8>, amount: u64) -> Seq<u8> {
    Seq::new(165, |i: int|
        if i < 32 {
            mint[i]
        } else if i < 64 {
            owner[i - 32]
        } else if i < 72 {
            vstd::bytes::spec_u64_to_le_bytes(amount)[i - 64]
        } else if i == 108 {
            1u8
        } else {
            0u8
        })
}

/// A ledger entry's data with its amount field rewritten to `amount` and
/// every other byte kept.
pub open spec fn spec_with_amount(data: Seq<u8>, amount: u64) -> Seq<u8> {
    Seq::new(data.len(), |i: int|
        if 64 <= i < 72 {
            vstd::bytes::spec_u64_to_le_bytes(amount)[i - 64]
        } else {
            data[i]
        })
}

/// The fields a freshly written ledger entry reads back.
pub proof fn lemma_token_account_bytes_fields(mint: Seq<u8>, owner: Seq<u8>, amount: u64)
    requires
        mint.len() == 32,
        owner.len() == 32,
    ensures
        spec_token_account_bytes(mint, owner, amount).len() == 165,
        spec_token_mint(spec_token_account_bytes(mint, owner, amount)) == mint,
        spec_token_owner(spec_token_account_bytes(mint, owner, amount)) == owner,
        spec_token_amount(spec_token_account_bytes(mint, owner, amount)) == amount,
        spec_token_account_bytes(mint, owner, amount)[108] == 1u8,
{
    let b = spec_token_account_bytes(mint, owner, amount);
    vstd::bytes::lemma_auto_spec_u64_to_from_le_bytes();
    assert(spec_token_mint(b) =~= mint);
    assert(spec_token_owner(b) =~= owner);
    assert(b.subrange(64, 72) =~= vstd::bytes::spec_u64_to_le_bytes(amount));
}

/// Rewriting the amount field touches nothing else and reads back exactly.
pub proof fn lemma_with_amount_fields(data: Seq<u8>, amount: u64)
    requires
        data.len() == 165,
    ensures
        spec_with_amount(data, amount).len() == 165,
        spec_token_mint(spec_with_amount(data, amount)) == spec_token_mint(data),
        spec_token_owner(spec_with_amount(data, amount)) == spec_token_owner(data),
        spec_token_amount(spec_with_amount(data, amount)) == amount,
        spec_with_amount(data, amount)[108] == data[108],
{
    let b = spec_with_amount(data, amount);
    vstd::bytes::lemma_auto_spec_u64_to_from_le_bytes();
    assert(spec_token_mint(b) =~= spec_token_mint(data));
    assert(spec_token_owner(b) =~= spec_token_owner(data));
    assert(b.subrange(64, 72) =~= vstd::bytes::spec_u64_to_le_bytes(amount));
}

/// The bytes of `data` from `start` (inclusive) to `end` (exclusive).
pub fn bytes_range(data: &Vec<u8>, start: usize, end: usize) -> (v: Vec<u8>)
    requires
        start <= end <= data@.len(),
    ensures
        v@ == data@.subrange(start as int, end as int),
{
    let mut v: Vec<u8> = Vec::new();
    let mut i: usize = start;
    while i < end
        invariant
            start <= i <= end <= data@.len(),
            v@.len() == i - start,
            forall|j: int| 0 <= j < v@.len() ==> v@[j] == data@[start + j],
        decreases end - i,
    {
        v.push(data[i]);
        i = i + 1;
    }
    proof {
        assert(v@ =~= data@.subrange(start as int, end as int));
    }
    v
}

/// Writes the data of a fresh ledger entry.
pub fn token_account_bytes(mint: &Pubkey, owner: &Pubkey, amount: u64) -> (v: Vec<u8>)
    ensures
        v@ == spec_token_account_bytes(mint@, owner@, amount),
{
    proof {
        vstd::bytes::lemma_auto_spec_u64_to_from_le_bytes();
    }
    let ghost target = spec_token_account_bytes(mint@, owner@, amount);
    let mut v: Vec<u8> = Vec::new();
    let mut i: usize = 0;
    while i < 32
        invariant
            i == v@.len(),
            i <= 32,
            target == spec_token_account_bytes(mint@, owner@, amount),
            forall|j: int| 0 <= j < i ==> v@[j] == target[j],
        decreases 32 - i,
    {
        v.push(mint[i]);
        i = i + 1;
    }
    while i < 64
        invariant
            i == v@.len(),
            32 <= i <= 64,
            target == spec_token_account_bytes(mint@, owner@, amount),
            forall|j: int| 0 <= j < i ==> v@[j] == target[j],
        decreases 64 - i,
    {
        v.push(owner[i - 32]);
        i = i + 1;
    }
    let amount_bytes = vstd::bytes::u64_to_le_bytes(amount);
    while i < 72
        invariant
            i == v@.len(),
            64 <= i <= 72,
            target == spec_token_account_bytes(mint@, owner@, amount),
            amount_bytes@ == vstd::bytes::spec_u64_to_le_bytes(amount),
            amount_bytes@.len() == 8,
            forall|j: int| 0 <= j < i ==> v@[j] == target[j],
        decreases 72 - i,
    {
        v.push(amount_bytes[i - 64]);
        i = i + 1;
    }
    while i < 165
        invariant
            i == v@.len(),
            72 <= i <= 165,
            target == spec_token_account_bytes(mint@, owner@, amount),
            forall|j: int| 0 <= j < i ==> v@[j] == target[j],
        decreases 165 - i,
    {
        if i == 108 {
            v.push(1u8);
        } else {
            v.push(0u8);
        }
        i = i + 1;
    }
    proof {
        assert(v@ =~= target);
    }
    v
}

/// A copy of a ledger entry's data with the amount field rewritten.
pub fn with_amount(data: &Vec<u8>, amount: u64) -> (v: Vec<u8>)
    requires
        data@.len() == 165,
    ensures
        v@ == spec_with_amount(data@, amount),
{
    proof {
        vstd::bytes::lemma_auto_spec_u64_to_from_le_bytes();
    }
    let ghost target = spec_with_amount(data@, amount);
    let amount_bytes = vstd::bytes::u64_to_le_bytes(amount);
    let mut v: Vec<u8> = Vec::new();
    let mut i: usize = 0;
    while i < 165
        invariant
            i == v@.len(),
            i <= 165,
            data@.len() == 165,
            target == spec_with_amount(data@, amount),
            amount_bytes@ == vstd::bytes::spec_u64_to_le_bytes(amount),
            amount_bytes@.len() == 8,
            forall|j: int| 0 <= j < i ==> v@[j] == target[j],
        decreases 165 - i,
    {
        if 64 <= i && i < 72 {
            v.push(amount_bytes[i - 64]);
        } else {
            v.push(data[i]);
        }
        i = i + 1;
    }
    proof {
        assert(v@ =~= target);
    }
    v
}

/// Reads an account as a ledger entry, as the token program's own
/// deserializer does: the data must be entry-sized and the account owned by
/// the canonical token program; anything else is not (yet) a ledger entry.
pub fn read_token_account(account: &Account) -> (r: Result<TokenAccountState, AtaError>)
    ensures
        spec_is_token_account(account.data@, account.owner_program@) ==> (r matches Ok(s)
            && s.mint@ == spec_token_mint(account.data@)
            && s.owner@ == spec_token_owner(account.data@)
            && s.amount == spec_token_amount(account.data@)),
        !spec_is_token_account(account.data@, account.owner_program@) ==> r
            == Err::<TokenAccountState, AtaError>(AtaError::InvalidAccountData),
{
    if account.data.len() != TOKEN_ACCOUNT_LEN {
        return Err(AtaError::InvalidAccountData);
    }
    if !pubkey_eq(&account.owner_program, &TOKEN_PROGRAM_ID) {
        return Err(AtaError::InvalidAccountData);
    }
    let mint = bytes_range(&account.data, 0, 32);
    let owner = bytes_range(&account.data, 32, 64);
    let amount = vstd::bytes::u64_from_le_bytes(
        vstd::slice::slice_subrange(account.data.as_slice(), 64, 72));
    Ok(TokenAccountState { mint, owner, amount })
}

/// Reads an account as a mint, as the token program's own deserializer
/// does, and returns its decimals.
pub fn read_mint_decimals(account: &Account) -> (r: Result<u8, AtaError>)
    ensures
        account.data@.len() != 82 ==> r == Err::<u8, AtaError>(AtaError::InvalidAccountData),
        account.data@.len() == 82 && account.owner_program@ != TOKEN_PROGRAM_ID@ ==> r
            == Err::<u8, AtaError>(AtaError::InvalidAccountOwner),
        account.data@.len() == 82 && account.owner_program@ == TOKEN_PROGRAM_ID@ ==> r
            == Ok::<u8, AtaError>(spec_mint_decimals(account.data@)),
{
    if account.data.len() != MINT_LEN {
        return Err(AtaError::InvalidAccountData);
    }
    if !pubkey_eq(&account.owner_program, &TOKEN_PROGRAM_ID) {
        return Err(AtaError::InvalidAccountOwner);
    }
    Ok(account.data[44])
}

/// The outcome of initializing `acc` as a ledger entry for
/// `(mint_account, owner_key)`: the entry's new data, or the first failing
/// check. The account must be owned by the token program, entry-sized,
/// not yet initialized and rent-exempt, and the mint must be initialized.
pub open spec fn spec_initialize_account3(
    acc: Account,
    mint_account: Account,
    owner_key: Seq<u8>,
    rent_minimum: u64,
) -> Result<Seq<u8>, AtaError> {
    if acc.owner_program@ != TOKEN_PROGRAM_ID@ {
        Err(AtaError::IllegalOwner)
    } else if acc.data@.len() != 165 {
        Err(AtaError::InvalidAccountData)
    } else if acc.data@[108] != 0 {
        Err(AtaError::AccountAlreadyInitialized)
    } else if acc.lamports < rent_minimum {
        Err(AtaError::NotRentExempt)
    } else if !spec_is_initialized_mint(mint_account.data@, mint_account.owner_program@) {
        Err(AtaError::InvalidAccountData)
    } else {
        Ok(spec_token_account_bytes(mint_account.key@, owner_key, 0))
    }
}

/// Initializes `account` as a ledger entry bound to `mint_account`'s
/// address and owned by `owner_key`, with a zero starting amount.
/// `rent_minimum` is the rent oracle's minimum balance for an entry.
pub fn initialize_account3(
    account: &mut Account,
    mint_account: &Account,
    owner_key: &Pubkey,
    rent_minimum: u64,
) -> (r: Result<(), AtaError>)
    ensures
        match spec_initialize_account3(*old(account), *mint_account, owner_key@, rent_minimum) {
            Ok(d) => r == Ok::<(), AtaError>(()) && final(account).data@ == d
                && final(account).key@ == old(account).key@
                && final(account).lamports == old(account).lamports
                && final(account).owner_program@ == old(account).owner_program@
                && final(account).is_signer == old(account).is_signer,
            Err(e) => r == Err::<(), AtaError>(e) && *final(account) == *old(account),
        },
{
    if !pubkey_eq(&account.owner_program, &TOKEN_PROGRAM_ID) {
        return Err(AtaError::IllegalOwner);
    }
    if account.data.len() != TOKEN_ACCOUNT_LEN {
        return Err(AtaError::InvalidAccountData);
    }
    if account.data[108] != 0 {
        return Err(AtaError::AccountAlreadyInitialized);
    }
    if account.lamports < rent_minimum {
        return Err(AtaError::NotRentExempt);
    }
    if mint_account.data.len() != MINT_LEN
        || !pubkey_eq(&mint_account.owner_program, &TOKEN_PROGRAM_ID)
        || mint_account.data[45] != 1 {
        return Err(AtaError::InvalidAccountData);
    }
    let fresh = token_account_bytes(&mint_account.key, owner_key, 0);
    account.data = fresh;
    Ok(())
}

/// The outcome of a decimals-checked transfer of `amount` from `from` to
/// `to`, authorized by `authority`: the two entries' new amounts, or the
/// first failing check.
pub open spec fn spec_transfer_checked(
    from: Account,
    to: Account,
    mint: Account,
    authority: Seq<u8>,
    amount: u64,
    decimals: u8,
) -> Result<(u64, u64), AtaError> {
    if !spec_is_token_account(from.data@, from.owner_program@) {
        Err(AtaError::InvalidAccountData)
    } else if !spec_is_token_account(to.data@, to.owner_program@) {
        Err(AtaError::InvalidAccountData)
    } else if mint.data@.len() != 82 {
        Err(AtaError::InvalidAccountData)
    } else if mint.owner_program@ != TOKEN_PROGRAM_ID@ {
        Err(AtaError::InvalidAccountOwner)
    } else if spec_token_mint(from.data@) != mint.key@ || spec_token_mint(to.data@) != mint.key@ {
        Err(AtaError::InvalidAccountData)
    } else if decimals != spec_mint_decimals(mint.data@) {
        Err(AtaError::InvalidAccountData)
    } else if spec_token_owner(from.data@) != authority {
        Err(AtaError::InvalidOwner)
    } else if spec_token_amount(from.data@) < amount {
        Err(AtaError::InsufficientFunds)
    } else if spec_token_amount(to.data@) + amount > u64::MAX {
        Err(AtaError::ArithmeticOverflow)
    } else {
        Ok((
            (spec_token_amount(from.data@) - amount) as u64,
            (spec_token_amount(to.data@) + amount) as u64,
        ))
    }
}

/// Moves `amount` tokens from `from` to `to`, checking `decimals` against
/// the mint, authorized by `authority`.
pub fn transfer_checked(
    from: &mut Account,
    to: &mut Account,
    mint: &Account,
    authority: &Pubkey,
    amount: u64,
    decimals: u8,
) -> (r: Result<(), AtaError>)
    ensures
        match spec_transfer_checked(*old(from), *old(to), *mint, authority@, amount, decimals) {
            Ok((from_amount, to_amount)) => r == Ok::<(), AtaError>(())
                && final(from).data@ == spec_with_amount(old(from).data@, from_amount)
                && final(to).data@ == spec_with_amount(old(to).data@, to_amount)
                && final(from).key@ == old(from).key@
                && final(from).lamports == old(from).lamports
                && final(from).owner_program@ == old(from).owner_program@
                && final(from).is_signer == old(from).is_signer
                && final(to).key@ == old(to).key@
                && final(to).lamports == old(to).lamports
                && final(to).owner_program@ == old(to).owner_program@
                && final(to).is_signer == old(to).is_signer,
            Err(e) => r == Err::<(), AtaError>(e) && *final(from) == *old(from)
                && *final(to) == *old(to),
        },
{
    let from_state = match read_token_account(from) {
        Ok(s) => s,
        Err(e) => {
            return Err(e);
        },
    };
    let to_state = match read_token_account(to) {
        Ok(s) => s,
        Err(e) => {
            return Err(e);
        },
    };
    if mint.data.len() != MINT_LEN {
        return Err(AtaError::InvalidAccountData);
    }
    if !pubkey_eq(&mint.owner_program, &TOKEN_PROGRAM_ID) {
        return Err(AtaError::InvalidAccountOwner);
    }
    if !bytes_eq(from_state.mint.as_slice(), mint.key.as_slice())
        || !bytes_eq(to_state.mint.as_slice(), mint.key.as_slice()) {
        return Err(AtaError::InvalidAccountData);
    }
    if decimals != mint.data[44] {
        return Err(AtaError::InvalidAccountData);
    }
    if !bytes_eq(from_state.owner.as_slice(), authority.as_slice()) {
        return Err(AtaError::InvalidOwner);
    }
    if from_state.amount < amount {
        return Err(AtaError::InsufficientFunds);
    }
    if amount > u64::MAX - to_state.amount {
        return Err(AtaError::ArithmeticOverflow);
    }
    let new_from = with_amount(&from.data, from_state.amount - amount);
    from.data = new_from;
    let new_to = with_amount(&to.data, to_state.amount + amount);
    to.data = new_to;
    Ok(())
}

/// The outcome of closing the emptied entry `acc` and crediting its
/// balance to `dest`: the destination's new balance, or the first failing
/// check.
pub open spec fn spec_close_account(acc: Account, dest: Account, authority: Seq<u8>) -> Result<
    u64,
    AtaError,
> {
    if !spec_is_token_account(acc.data@, acc.owner_program@) {
        Err(AtaError::InvalidAccountData)
    } else if spec_token_owner(acc.data@) != authority {
        Err(AtaError::InvalidOwner)
    } else if spec_token_amount(acc.data@) != 0 {
        Err(AtaError::NonNativeHasBalance)
    } else if dest.lamports + acc.lamports > u64::MAX {
        Err(AtaError::ArithmeticOverflow)
    } else {
        Ok((dest.lamports + acc.lamports) as u64)
    }
}

/// Closes the emptied ledger entry `account`, crediting its whole balance
/// to `dest`, authorized by `authority`. The closed account is left with no
/// balance and no data, reassigned to the system program: a later read
/// reports it as not a ledger entry.
pub fn close_account(account: &mut Account, dest: &mut Account, authority: &Pubkey) -> (r: Result<
    (),
    AtaError,
>)
    ensures
        match spec_close_account(*old(account), *old(dest), authority@) {
            Ok(d) => r == Ok::<(), AtaError>(())
                && final(account).lamports == 0
                && final(account).data@ == Seq::<u8>::empty()
                && final(account).owner_program@ == SYSTEM_PROGRAM_ID@
                && final(account).key@ == old(account).key@
                && final(account).is_signer == old(account).is_signer
                && final(dest).lamports == d
                && final(dest).key@ == old(dest).key@
                && final(dest).owner_program@ == old(dest).owner_program@
                && final(dest).data@ == old(dest).data@
                && final(dest).is_signer == old(dest).is_signer,
            Err(e) => r == Err::<(), AtaError>(e) && *final(account) == *old(account)
                && *final(dest) == *old(dest),
        },
{
    let state = match read_token_account(account) {
        Ok(s) => s,
        Err(e) => {
            return Err(e);
        },
    };
    if !bytes_eq(state.owner.as_slice(), authority.as_slice()) {
        return Err(AtaError::InvalidOwner);
    }
    if state.amount != 0 {
        return Err(AtaError::NonNativeHasBalance);
    }
    if account.lamports > u64::MAX - dest.lamports {
        return Err(AtaError::ArithmeticOverflow);
    }
    dest.lamports = dest.lamports + account.lamports;
    account.lamports = 0;
    account.data.clear();
    account.owner_program = SYSTEM_PROGRAM_ID;
    Ok(())
}

} // verus!
