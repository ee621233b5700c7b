//! The funding (system) program as the core sees it: transferring native
//! units, allocating data, assigning ownership, and the single-step account
//! creation that combines the three.

use vstd::prelude::*;

use crate::account::{zeroed, Account};
use crate::address::{Pubkey, SYSTEM_PROGRAM_ID};
use crate::error::AtaError;

verus! {

/// The outcome of transferring `lamports` from `from` to `to`: the two new
/// balances, or the first failing check.
pub open spec fn spec_transfer(from: Account, to: Account, lamports: u64) -> Result<
    (u64, u64),
    AtaError,
> {
    if !from.is_signer {
        Err(AtaError::MissingRequiredSignature)
    } else if from.lamports < lamports {
        Err(AtaError::InsufficientFunds)
    } else if to.lamports + lamports > u64::MAX {
        Err(AtaError::ArithmeticOverflow)
    } else {
        Ok(((from.lamports - lamports) as u64, (to.lamports + lamports) as u64))
    }
}

/// Moves `lamports` native units from `from`, which must have signed, to
/// `to`.
pub fn transfer(from: &mut Account, to: &mut Account, lamports: u64) -> (r: Result<(), AtaError>)
    ensures
        match spec_transfer(*old(from), *old(to), lamports) {
            Ok((from_lamports, to_lamports)) => r == Ok::<(), AtaError>(())
                && final(from).lamports == from_lamports
                && final(from).key@ == old(from).key@
                && final(from).owner_program@ == old(from).owner_program@
                && final(from).data@ == old(from).data@
                && final(from).is_signer == old(from).is_signer
                && final(to).lamports == to_lamports
                && final(to).key@ == old(to).key@
                && final(to).owner_program@ == old(to).owner_program@
                && final(to).data@ == old(to).data@
                && final(to).is_signer == old(to).is_signer,
            Err(e) => r == Err::<(), AtaError>(e) && *final(from) == *old(from)
                && *final(to) == *old(to),
        },
{
    if !from.is_signer {
        return Err(AtaError::MissingRequiredSignature);
    }
    if from.lamports < lamports {
        return Err(AtaError::InsufficientFunds);
    }
    if lamports > u64::MAX - to.lamports {
        return Err(AtaError::ArithmeticOverflow);
    }
    from.lamports = from.lamports - lamports;
    to.lamports = to.lamports + lamports;
    Ok(())
}

/// The outcome of allocating `space` bytes in `acc`: the zeroed data, or
/// the failing check. Allocation needs a target still owned by the funding
/// program and holding no data.
pub open spec fn spec_allocate(acc: Account, space: u64) -> Result<Seq<u8>, AtaError> {
    if acc.owner_program@ != SYSTEM_PROGRAM_ID@ || acc.data@.len() != 0 {
        Err(AtaError::AccountAlreadyInUse)
    } else if space > usize::MAX as u64 {
        Err(AtaError::InvalidAccountData)
    } else {
        Ok(Seq::new(space as nat, |i: int| 0u8))
    }
}

/// Allocates `space` zeroed bytes in `account`, authorized by the caller's
/// derived-address signature.
pub fn allocate(account: &mut Account, space: u64) -> (r: Result<(), AtaError>)
    ensures
        match spec_allocate(*old(account), space) {
            Ok(d) => r == Ok::<(), AtaError>(()) && final(account).data@ == d
                && final(account).key@ == old(account).key@
                && final(account).lamports == old(account).lamports
                && final(account).owner_program@ == old(account).owner_program@
                && final(account).is_signer == old(account).is_signer,
            Err(e) => r == Err::<(), AtaError>(e) && *final(account) == *old(account),
        },
{
    if !crate::address::pubkey_eq(&account.owner_program, &SYSTEM_PROGRAM_ID)
        || account.data.len() != 0 {
        return Err(AtaError::AccountAlreadyInUse);
    }
    if space > usize::MAX as u64 {
        return Err(AtaError::InvalidAccountData);
    }
    let fresh = zeroed(space as usize);
    account.data = fresh;
    Ok(())
}

/// Assigns `account` to the owning program `owner`, authorized by the
/// caller's derived-address signature.
pub fn assign(account: &mut Account, owner: &Pubkey) -> (r: Result<(), AtaError>)
    ensures
        r == Ok::<(), AtaError>(()),
        final(account).owner_program@ == owner@,
        final(account).key@ == old(account).key@,
        final(account).lamports == old(account).lamports,
        final(account).data@ == old(account).data@,
        final(account).is_signer == old(account).is_signer,
{
    account.owner_program = *owner;
    Ok(())
}

/// The outcome of creating `to` in one step — funding it with `lamports`
/// from `from`, allocating `space` bytes and assigning ownership: the
/// payer's new balance and the zeroed data, or the first failing check.
pub open spec fn spec_create_account(from: Account, to: Account, lamports: u64, space: u64)
    -> Result<(u64, Seq<u8>), AtaError> {
    if to.lamports > 0 || to.data@.len() != 0 || to.owner_program@ != SYSTEM_PROGRAM_ID@ {
        Err(AtaError::AccountAlreadyInUse)
    } else if !from.is_signer {
        Err(AtaError::MissingRequiredSignature)
    } else if from.lamports < lamports {
        Err(AtaError::InsufficientFunds)
    } else if space > usize::MAX as u64 {
        Err(AtaError::InvalidAccountData)
    } else {
        Ok(((from.lamports - lamports) as u64, Seq::new(space as nat, |i: int| 0u8)))
    }
}

/// Creates the fresh account `to` in a single step: transfers `lamports`
/// from `from`, allocates `space` zeroed bytes, and assigns `to` to
/// `owner`.
pub fn create_account(
    from: &mut Account,
    to: &mut Account,
    lamports: u64,
    space: u64,
    owner: &Pubkey,
) -> (r: Result<(), AtaError>)
    ensures
        match spec_create_account(*old(from), *old(to), lamports, space) {
            Ok((from_lamports, d)) => r == Ok::<(), AtaError>(())
                && final(from).lamports == from_lamports
                && final(from).key@ == old(from).key@
                && final(from).owner_program@ == old(from).owner_program@
                && final(from).data@ == old(from).data@
                && final(from).is_signer == old(from).is_signer
                && final(to).lamports == lamports
                && final(to).data@ == d
                && final(to).owner_program@ == owner@
                && final(to).key@ == old(to).key@
                && final(to).is_signer == old(to).is_signer,
            Err(e) => r == Err::<(), AtaError>(e) && *final(from) == *old(from)
                && *final(to) == *old(to),
        },
{
    if to.lamports > 0 || to.data.len() != 0
        || !crate::address::pubkey_eq(&to.owner_program, &SYSTEM_PROGRAM_ID) {
        return Err(AtaError::AccountAlreadyInUse);
    }
    if !from.is_signer {
        return Err(AtaError::MissingRequiredSignature);
    }
    if from.lamports < lamports {
        return Err(AtaError::InsufficientFunds);
    }
    if space > usize::MAX as u64 {
        return Err(AtaError::InvalidAccountData);
    }
    from.lamports = from.lamports - lamports;
    to.lamports = lamports;
    let fresh = zeroed(space as usize);
    to.data = fresh;
    to.owner_program = *owner;
    Ok(())
}

} // verus!
