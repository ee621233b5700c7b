//! Provisioning a derived account: bringing the target to the required
//! size, owner and funding level, whether it is fresh or was funded before
//! creation.

use vstd::prelude::*;

use crate::account::Account;
use crate::address::{Pubkey, SYSTEM_PROGRAM_ID};
use crate::error::AtaError;
use crate::system::{allocate, assign, create_account, transfer};

verus! {

/// The outcome of provisioning `acc` from `payer`: the payer's and the
/// target's new balances, or the first failing check.
///
/// A fresh target (zero balance) is created in a single step funded with
/// `rent_exempt_lamports`. A pre-funded target is topped up only by the
/// shortfall against `max(space, 1)`, then allocated and assigned in
/// separately authorized steps, so that funding an address in advance
/// cannot block its creation.
pub open spec fn spec_create_pda_account(
    payer: Account,
    rent_exempt_lamports: u64,
    space: u64,
    acc: Account,
) -> Result<(u64, u64), AtaError> {
    if acc.lamports > 0 {
        let target: u64 = if space > 1 { space } else { 1u64 };
        let required: u64 = if target > acc.lamports { (target - acc.lamports) as u64 } else {
            0u64
        };
        if required > 0 && !payer.is_signer {
            Err(AtaError::MissingRequiredSignature)
        } else if required > 0 && payer.lamports < required {
            Err(AtaError::InsufficientFunds)
        } else if acc.owner_program@ != SYSTEM_PROGRAM_ID@ || acc.data@.len() != 0 {
            Err(AtaError::AccountAlreadyInUse)
        } else if space > usize::MAX as u64 {
            Err(AtaError::InvalidAccountData)
        } else {
            Ok((
                if required > 0 { (payer.lamports - required) as u64 } else { payer.lamports },
                (acc.lamports + required) as u64,
            ))
        }
    } else {
        if acc.data@.len() != 0 || acc.owner_program@ != SYSTEM_PROGRAM_ID@ {
            Err(AtaError::AccountAlreadyInUse)
        } else if !payer.is_signer {
            Err(AtaError::MissingRequiredSignature)
        } else if payer.lamports < rent_exempt_lamports {
            Err(AtaError::InsufficientFunds)
        } else if space > usize::MAX as u64 {
            Err(AtaError::InvalidAccountData)
        } else {
            Ok(((payer.lamports - rent_exempt_lamports) as u64, rent_exempt_lamports))
        }
    }
}

/// Brings `new_pda_account` to exactly `space` zeroed bytes, owned by
/// `owner`, funded from `payer`. On failure the surrounding runtime
/// discards every attempted mutation, so only the error itself is
/// specified.
pub fn create_pda_account(
    payer: &mut Account,
    rent_exempt_lamports: u64,
    space: u64,
    owner: &Pubkey,
    new_pda_account: &mut Account,
) -> (r: Result<(), AtaError>)
    ensures
        match spec_create_pda_account(*old(payer), rent_exempt_lamports, space,
            *old(new_pda_account)) {
            Ok((payer_lamports, account_lamports)) => r == Ok::<(), AtaError>(())
                && final(payer).lamports == payer_lamports
                && final(payer).key@ == old(payer).key@
                && final(payer).owner_program@ == old(payer).owner_program@
                && final(payer).data@ == old(payer).data@
                && final(payer).is_signer == old(payer).is_signer
                && final(new_pda_account).lamports == account_lamports
                && final(new_pda_account).data@ == Seq::new(space as nat, |i: int| 0u8)
                && final(new_pda_account).owner_program@ == owner@
                && final(new_pda_account).key@ == old(new_pda_account).key@
                && final(new_pda_account).is_signer == old(new_pda_account).is_signer,
            Err(e) => r == Err::<(), AtaError>(e),
        },
{
    if new_pda_account.lamports > 0 {
        let target: u64 = if space > 1 { space } else { 1 };
        let required: u64 = if target > new_pda_account.lamports {
            target - new_pda_account.lamports
        } else {
            0
        };
        if required > 0 {
            match transfer(payer, new_pda_account, required) {
                Ok(()) => {},
                Err(e) => {
                    return Err(e);
                },
            }
        }
        match allocate(new_pda_account, space) {
            Ok(()) => {},
            Err(e) => {
                return Err(e);
            },
        }
        match assign(new_pda_account, owner) {
            Ok(()) => {},
            Err(e) => {
                return Err(e);
            },
        }
        Ok(())
    } else {
        create_account(payer, new_pda_account, rent_exempt_lamports, space, owner)
    }
}

} // verus!
