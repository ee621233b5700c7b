//! Error types.

use vstd::prelude::*;

verus! {

/// Errors specific to the associated token account program.
#[derive(Clone, Copy, Debug, Eq, PartialEq, Structural)]
pub enum AssociatedTokenAccountError {
    /// Associated token account owner does not match address derivation.
    InvalidOwner,
}

/// Every failure the program core can report: its own checks together with
/// the modeled checks of the funding and token programs it drives. Any
/// failure aborts the whole invocation; the surrounding runtime discards
/// every attempted mutation.
#[derive(Clone, Copy, Debug, Eq, PartialEq, Structural)]
pub enum AtaError {
    /// The instruction data is malformed.
    InvalidInstructionData,
    /// The account list is shorter than the instruction requires.
    NotEnoughAccountKeys,
    /// A supplied address does not match the recomputed derivation.
    InvalidSeeds,
    /// An account is owned by an unexpected program.
    IllegalOwner,
    /// An account's data is not what the instruction requires.
    InvalidAccountData,
    /// An account's owning program is not what the instruction requires.
    InvalidAccountOwner,
    /// A required signature is missing.
    MissingRequiredSignature,
    /// A ledger entry's recorded owner disagrees with the expected identity.
    InvalidOwner,
    /// The payer cannot cover the requested transfer.
    InsufficientFunds,
    /// A balance update would overflow.
    ArithmeticOverflow,
    /// The target account already carries lamports, data or another owner.
    AccountAlreadyInUse,
    /// The target account is already an initialized ledger entry.
    AccountAlreadyInitialized,
    /// The account's balance is below the rent-exempt minimum.
    NotRentExempt,
    /// A ledger entry still holds tokens and cannot be closed.
    NonNativeHasBalance,
}

impl From<AssociatedTokenAccountError> for AtaError {
    fn from(e: AssociatedTokenAccountError) -> (r: AtaError) {
        match e {
            AssociatedTokenAccountError::InvalidOwner => AtaError::InvalidOwner,
        }
    }
}

impl vstd::std_specs::convert::FromSpecImpl<AssociatedTokenAccountError> for AtaError {
    open spec fn obeys_from_spec() -> bool {
        true
    }

    open spec fn from_spec(e: AssociatedTokenAccountError) -> AtaError {
        AtaError::InvalidOwner
    }
}

} // verus!
