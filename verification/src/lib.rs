//! Associated token account program core: deterministic address derivation,
//! account provisioning, create / idempotent-create handling, and recovery
//! of nested associated token accounts, specified over a model of the
//! ledger's accounts.

pub mod account;
pub mod address;
pub mod error;
pub mod instruction;
pub mod laws;
pub mod processor;
pub mod provision;
pub mod system;
pub mod token;
