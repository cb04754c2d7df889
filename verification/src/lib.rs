//! Verified core of the Stellar Insured contract suite: the admin hand-over,
//! claims, escrow, governance, policy, risk-pool and bridge state machines,
//! plus the AI valuation engine.
//!
//! Each contract's persistent storage is modelled by a plain struct of this
//! crate; entry points are methods that take the ledger time and the results
//! of any cross-contract queries as arguments and return what the host must do.
#![allow(unused_imports)]

pub mod address;
pub mod risk_pool;
pub mod insurance_types;
pub mod bridge;
pub mod escrow;
pub mod admin;
pub mod governance;
pub mod table;
pub mod sums;
pub mod util;
pub mod host;
pub mod random;
pub mod claims;
pub mod policy;
pub mod ai_valuation;
