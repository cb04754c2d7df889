//! Records and errors of the property bridge.

use vstd::prelude::*;
use crate::address::Address;
use crate::util::copy_vec;

verus! {

/// Failure reasons of the bridge.
#[derive(Clone, Copy, Debug, PartialEq, Eq, Structural)]
pub enum BridgeError {
    AlreadyInitialized,
    NotInitialized,
    InvalidConfig,
    InvalidParameter,
    InvalidTimestamp,
    InvalidNonce,
    BridgePaused,
    UnsupportedChain,
    InvalidSignatureRequirement,
    NotOperator,
    Unauthorized,
    RequestNotFound,
    RequestNotPending,
    RequestExpired,
    AlreadySigned,
    RequestNotReady,
    RequestNotFailed,
    TooManyOperators,
    OperatorRemovalWouldBreakQuorum,
}

/// State of a bridge request or transaction.
#[derive(Clone, Copy, Debug, PartialEq, Eq, Structural)]
pub enum BridgeOperationStatus {
    Pending,
    Locked,
    Completed,
    Failed,
    Expired,
    InTransit,
}

/// Description of the property token being bridged.
#[derive(Clone, Debug, PartialEq, Eq)]
pub struct PropertyMetadata {
    pub location: String,
    pub size: u64,
    pub legal_description: String,
    pub valuation: u128,
    pub documents_url: String,
}

/// Bridge-wide configuration.
#[derive(Clone, Debug, PartialEq, Eq)]
pub struct BridgeConfig {
    pub supported_chains: Vec<u32>,
    pub min_signatures_required: u32,
    pub max_signatures_required: u32,
    pub default_timeout_seconds: u64,
    pub gas_limit_per_bridge: u64,
    pub emergency_pause: bool,
    pub metadata_preservation: bool,
    pub service_fee: i128,
    pub fee_token: Address,
    pub fee_recipient: Address,
}

/// A bridge request awaiting operator signatures.
#[derive(Clone, Debug, PartialEq, Eq)]
pub struct MultisigBridgeRequest {
    pub request_id: u64,
    pub token_id: u64,
    pub source_chain: u32,
    pub destination_chain: u32,
    pub sender: Address,
    pub recipient: Address,
    pub required_signatures: u32,
    pub signatures: Vec<Address>,
    pub rejections: Vec<Address>,
    pub created_at: u64,
    pub expires_at: Option<u64>,
    pub status: BridgeOperationStatus,
    pub metadata: PropertyMetadata,
}

/// A completed bridge transfer, kept in the sender's history.
#[derive(Clone, Debug, PartialEq, Eq)]
pub struct BridgeTransaction {
    pub transaction_id: u64,
    pub token_id: u64,
    pub source_chain: u32,
    pub destination_chain: u32,
    pub sender: Address,
    pub recipient: Address,
    pub transaction_hash: [u8; 32],
    pub timestamp: u64,
    pub gas_used: u64,
    pub status: BridgeOperationStatus,
    pub metadata: PropertyMetadata,
}

/// Per-chain bridge parameters.
#[derive(Clone, Debug, PartialEq, Eq)]
pub struct ChainBridgeInfo {
    pub chain_id: u32,
    pub chain_name: String,
    pub bridge_contract_address: String,
    pub is_active: bool,
    pub gas_multiplier: u32,
    pub confirmation_blocks: u32,
    pub supported_tokens: Vec<u64>,
}

/// What the admin does with a failed or expired request.
#[derive(Clone, Copy, Debug, PartialEq, Eq, Structural)]
pub enum RecoveryAction {
    UnlockToken,
    RefundGas,
    RetryBridge,
    CancelBridge,
}

impl PropertyMetadata {
    /// A field-by-field copy.
    pub fn copy(&self) -> (r: PropertyMetadata)
        ensures
            r == *self,
    {
        PropertyMetadata {
            location: self.location.clone(),
            size: self.size,
            legal_description: self.legal_description.clone(),
            valuation: self.valuation,
            documents_url: self.documents_url.clone(),
        }
    }
}

impl BridgeConfig {
    /// `self` and `other` hold the same values, the chain list compared by
    /// its contents.
    pub open spec fn same_as(&self, other: &BridgeConfig) -> bool {
        &&& self.supported_chains@ == other.supported_chains@
        &&& self.min_signatures_required == other.min_signatures_required
        &&& self.max_signatures_required == other.max_signatures_required
        &&& self.default_timeout_seconds == other.default_timeout_seconds
        &&& self.gas_limit_per_bridge == other.gas_limit_per_bridge
        &&& self.emergency_pause == other.emergency_pause
        &&& self.metadata_preservation == other.metadata_preservation
        &&& self.service_fee == other.service_fee
        &&& self.fee_token == other.fee_token
        &&& self.fee_recipient == other.fee_recipient
    }

    /// A field-by-field copy.
    pub fn copy(&self) -> (r: BridgeConfig)
        ensures
            r.same_as(self),
    {
        let supported_chains = copy_vec(&self.supported_chains);
        BridgeConfig {
            supported_chains,
            min_signatures_required: self.min_signatures_required,
            max_signatures_required: self.max_signatures_required,
            default_timeout_seconds: self.default_timeout_seconds,
            gas_limit_per_bridge: self.gas_limit_per_bridge,
            emergency_pause: self.emergency_pause,
            metadata_preservation: self.metadata_preservation,
            service_fee: self.service_fee,
            fee_token: self.fee_token,
            fee_recipient: self.fee_recipient,
        }
    }
}

impl MultisigBridgeRequest {
    /// `self` and `other` hold the same values, the signer lists compared by
    /// their contents.
    pub open spec fn same_as(&self, other: &MultisigBridgeRequest) -> bool {
        &&& self.request_id == other.request_id
        &&& self.token_id == other.token_id
        &&& self.source_chain == other.source_chain
        &&& self.destination_chain == other.destination_chain
        &&& self.sender == other.sender
        &&& self.recipient == other.recipient
        &&& self.required_signatures == other.required_signatures
        &&& self.signatures@ == other.signatures@
        &&& self.rejections@ == other.rejections@
        &&& self.created_at == other.created_at
        &&& self.expires_at == other.expires_at
        &&& self.status == other.status
        &&& self.metadata == other.metadata
    }

    /// A field-by-field copy.
    pub fn copy(&self) -> (r: MultisigBridgeRequest)
        ensures
            r.same_as(self),
    {
        MultisigBridgeRequest {
            request_id: self.request_id,
            token_id: self.token_id,
            source_chain: self.source_chain,
            destination_chain: self.destination_chain,
            sender: self.sender,
            recipient: self.recipient,
            required_signatures: self.required_signatures,
            signatures: copy_vec(&self.signatures),
            rejections: copy_vec(&self.rejections),
            created_at: self.created_at,
            expires_at: self.expires_at,
            status: self.status,
            metadata: self.metadata.copy(),
        }
    }
}

impl BridgeTransaction {
    /// A field-by-field copy.
    pub fn copy(&self) -> (r: BridgeTransaction)
        ensures
            r == *self,
    {
        BridgeTransaction {
            transaction_id: self.transaction_id,
            token_id: self.token_id,
            source_chain: self.source_chain,
            destination_chain: self.destination_chain,
            sender: self.sender,
            recipient: self.recipient,
            transaction_hash: self.transaction_hash,
            timestamp: self.timestamp,
            gas_used: self.gas_used,
            status: self.status,
            metadata: self.metadata.copy(),
        }
    }
}

impl ChainBridgeInfo {
    /// `self` and `other` hold the same values, the token list compared by
    /// its contents.
    pub open spec fn same_as(&self, other: &ChainBridgeInfo) -> bool {
        &&& self.chain_id == other.chain_id
        &&& self.chain_name == other.chain_name
        &&& self.bridge_contract_address == other.bridge_contract_address
        &&& self.is_active == other.is_active
        &&& self.gas_multiplier == other.gas_multiplier
        &&& self.confirmation_blocks == other.confirmation_blocks
        &&& self.supported_tokens@ == other.supported_tokens@
    }

    /// A field-by-field copy.
    pub fn copy(&self) -> (r: ChainBridgeInfo)
        ensures
            r.same_as(self),
    {
        ChainBridgeInfo {
            chain_id: self.chain_id,
            chain_name: self.chain_name.clone(),
            bridge_contract_address: self.bridge_contract_address.clone(),
            is_active: self.is_active,
            gas_multiplier: self.gas_multiplier,
            confirmation_blocks: self.confirmation_blocks,
            supported_tokens: copy_vec(&self.supported_tokens),
        }
    }
}

} // verus!
