//! Instruction types.

use vstd::prelude::*;

use crate::error::AtaError;

verus! {

/// Instructions supported by the associated token account program, selected
/// by the leading discriminator byte: 0 creates, 1 creates idempotently,
/// 2 recovers a nested account.
#[derive(Clone, Copy, Debug, Eq, PartialEq, Structural)]
pub enum AssociatedTokenAccountInstruction {
    /// Creates an associated token account for the given wallet address and
    /// token mint. Fails if the account already exists.
    Create,
    /// Creates an associated token account for the given wallet address and
    /// token mint, if it does not already exist. Fails if the account
    /// exists with a different owner.
    CreateIdempotent,
    /// Transfers from and closes a nested associated token account: an
    /// associated token account owned by an associated token account.
    RecoverNested,
}

/// Specifies when to create the associated token account.
#[derive(Clone, Copy, Debug, Eq, PartialEq, Structural)]
pub enum CreateMode {
    /// Always try to create the associated token account.
    Always,
    /// Only try to create the associated token account if non-existent.
    Idempotent,
}

/// The mode encoded by a mode byte: 0 always, 1 idempotent, anything else
/// malformed.
pub open spec fn spec_create_mode(value: u8) -> Result<CreateMode, AtaError> {
    if value == 0 {
        Ok(CreateMode::Always)
    } else if value == 1 {
        Ok(CreateMode::Idempotent)
    } else {
        Err(AtaError::InvalidInstructionData)
    }
}

impl CreateMode {
    /// Parses a mode byte.
    pub fn try_from(value: u8) -> (r: Result<CreateMode, AtaError>)
        ensures
            r == spec_create_mode(value),
    {
        match value {
            0 => Ok(CreateMode::Always),
            1 => Ok(CreateMode::Idempotent),
            _ => Err(AtaError::InvalidInstructionData),
        }
    }
}

} // verus!
