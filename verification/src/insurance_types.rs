//! Records shared by the policy, claims, risk-pool and governance contracts.

use vstd::prelude::*;
use crate::address::Address;

verus! {

/// Lifecycle state of an insurance policy.
#[derive(Clone, Copy, Debug, PartialEq, Eq, Structural)]
pub enum PolicyStatus {
    Active,
    Renewed,
    Expired,
    Cancelled,
}

/// Kind of cover a policy provides.
#[derive(Clone, Copy, Debug, PartialEq, Eq, Structural)]
pub enum PolicyType {
    Standard,
    Parametric,
}

/// An issued insurance policy.
#[derive(Clone, Copy, Debug, PartialEq, Eq, Structural)]
pub struct InsurancePolicy {
    pub policy_id: u64,
    pub holder: Address,
    pub coverage_amount: i128,
    pub premium_amount: i128,
    pub start_time: u64,
    pub duration_days: u32,
    pub policy_type: PolicyType,
    pub status: PolicyStatus,
    pub risk_pool: Address,
    pub total_claimed: i128,
}

/// Lifecycle state of a claim.
#[derive(Clone, Copy, Debug, PartialEq, Eq, Structural)]
pub enum ClaimStatus {
    Submitted,
    UnderReview,
    Approved,
    Rejected,
    Settled,
    Withdrawn,
    Disputed,
    Expired,
}

/// A claim against a policy.
#[derive(Clone, Debug, PartialEq, Eq)]
pub struct InsuranceClaim {
    pub claim_id: u64,
    pub policy_id: u64,
    pub claimant: Address,
    pub amount: i128,
    pub status: ClaimStatus,
    pub submitted_at: u64,
    /// Timestamp when the claim moved to UnderReview.
    pub reviewed_at: Option<u64>,
    /// Timestamp when the claim was approved.
    pub approved_at: Option<u64>,
    /// Timestamp when the claim was settled (payout completed).
    pub settled_at: Option<u64>,
    /// Free-text reason / description for the claim.
    pub description: String,
    /// Deadline by which the claim must be settled.
    pub deadline: Option<u64>,
    /// If disputed, the dispute reason from the claimant.
    pub dispute_reason: Option<String>,
}

/// Capital figures reported by the risk pool.
#[derive(Clone, Copy, Debug, PartialEq, Eq, Structural)]
pub struct PoolStats {
    pub total_capital: i128,
    pub available_capital: i128,
    pub total_claims_paid: i128,
    pub provider_count: u32,
}

/// A governance proposal.
#[derive(Clone, Debug, PartialEq, Eq)]
pub struct Proposal {
    pub id: u64,
    pub title: String,
    pub description: String,
    pub execution_data: String,
    pub creator: Address,
    pub expires_at: u64,
    pub threshold_percentage: u32,
    pub yes_votes: i128,
    pub no_votes: i128,
    pub is_finalized: bool,
    pub is_executed: bool,
}

/// An action that a passed governance proposal carries out.
#[derive(Clone, Copy, Debug, PartialEq, Eq, Structural)]
pub enum GovernanceAction {
    /// Approve the claim with this id.
    ClaimApproval(u64),
    /// Pay `amount` to the recipient.
    FundAllocation(Address, i128),
    /// Change the policy with this id.
    PolicyChange(u64),
}

/// Failure reasons of the claims contract.
#[derive(Clone, Copy, Debug, PartialEq, Eq, Structural)]
pub enum ClaimError {
    AlreadyInitialized,
    InvalidAddress,
    PolicyNotActive,
    ClaimAmountInvalid,
    PolicyHasActiveClaim,
    ClaimNotFound,
    InvalidStatusTransition,
    InsufficientPoolFunds,
    ClaimNotWithdrawable,
    ClaimNotDisputable,
    OnlyClaimantCanDispute,
    ClaimExpired,
    Unauthorized,
}

} // verus!
