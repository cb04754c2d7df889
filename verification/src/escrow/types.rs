//! Records and errors of the escrow contract.

use vstd::prelude::*;
use crate::address::Address;

verus! {

/// Failure reasons of the escrow contract.
#[derive(Clone, Copy, Debug, PartialEq, Eq, Structural)]
pub enum EscrowError {
    AlreadyInitialized,
    NotInitialized,
    Unauthorized,
    ContractPaused,
    InvalidParameter,
    InvalidNonce,
    TooManyParticipants,
    InvalidMultisigConfig,
    ZeroAddress,
    InvalidTimestamp,
    EscrowNotFound,
    InvalidStatus,
    DepositExceedsAmount,
    TimeLockActive,
    SignatureThresholdNotMet,
    AlreadySigned,
}

/// Lifecycle state of an escrow.
#[derive(Clone, Copy, Debug, PartialEq, Eq, Structural)]
pub enum EscrowStatus {
    Created,
    Funded,
    Active,
    Released,
    Refunded,
    Disputed,
    Cancelled,
}

/// What a participant's signature approves.
#[derive(Clone, Copy, Debug, PartialEq, Eq, Structural)]
pub enum ApprovalType {
    Release,
    Refund,
    EmergencyOverride,
}

/// A property-sale escrow.
#[derive(Clone, Debug, PartialEq, Eq)]
pub struct EscrowData {
    pub id: u64,
    pub property_id: u64,
    pub buyer: Address,
    pub seller: Address,
    pub amount: i128,
    pub deposited_amount: i128,
    pub status: EscrowStatus,
    pub created_at: u64,
    pub release_time_lock: Option<u64>,
    pub participants: Vec<Address>,
}

/// Signers of an escrow and how many of them must approve.
#[derive(Clone, Debug, PartialEq, Eq)]
pub struct MultiSigConfig {
    pub required_signatures: u32,
    pub signers: Vec<Address>,
}

} // verus!

verus! {

impl View for ApprovalType {
    type V = ApprovalType;

    open spec fn view(&self) -> ApprovalType {
        *self
    }
}

impl crate::table::TableKey for ApprovalType {
    fn same_key(&self, other: &Self) -> (b: bool) {
        match (self, other) {
            (ApprovalType::Release, ApprovalType::Release) => true,
            (ApprovalType::Refund, ApprovalType::Refund) => true,
            (ApprovalType::EmergencyOverride, ApprovalType::EmergencyOverride) => true,
            _ => false,
        }
    }
}

} // verus!
