//! Cross-chain bridge for property tokens, with multisig operator approval.

pub mod types;
pub mod validation;
pub mod contract;
