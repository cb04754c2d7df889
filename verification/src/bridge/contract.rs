//! The property bridge contract: configuration, operators, multisig bridge
//! requests, fee escrow and each sender's transfer history.

use vstd::prelude::*;
use soroban_sdk::Env;
use crate::address::Address;
use crate::bridge::types::{
    BridgeConfig, BridgeError, BridgeOperationStatus, BridgeTransaction, ChainBridgeInfo,
    MultisigBridgeRequest, PropertyMetadata, RecoveryAction,
};
use crate::bridge::validation::{
    contains_address, contains_u32, require_admin, require_future_timestamp, require_non_zero_address,
    require_non_zero_u128, require_non_zero_u32, require_non_zero_u64, require_not_paused,
    require_operator, require_supported_chain, require_valid_signatures,
};
use crate::host::{sha256, sha256_digest};
use crate::table::Table;

verus! {

/// Version recorded at initialization.
pub const CONTRACT_VERSION: u32 = 1;

/// Most destination chains a bridge can be configured with.
pub const MAX_SUPPORTED_CHAINS: u32 = 20;

/// Most operators the bridge admits.
pub const MAX_OPERATORS: u32 = 10;

/// Most transfers kept in one sender's history.
pub const MAX_HISTORY_ITEMS: u32 = 50;

/// A token movement the host carries out for the bridge's fee escrow.
#[derive(Clone, Copy, Debug, PartialEq, Eq, Structural)]
pub enum FeeTransfer {
    /// `payer` pays `amount` of `token` into the bridge.
    Collect { token: Address, payer: Address, amount: i128 },
    /// The bridge pays `amount` of `token` out to `recipient`.
    Release { token: Address, recipient: Address, amount: i128 },
}

/// The eight big-endian bytes of `x`.
pub open spec fn be_bytes(x: u64) -> Seq<u8> {
    seq![
        (x / 0x100000000000000) as u8,
        ((x / 0x1000000000000) % 256) as u8,
        ((x / 0x10000000000) % 256) as u8,
        ((x / 0x100000000) % 256) as u8,
        ((x / 0x1000000) % 256) as u8,
        ((x / 0x10000) % 256) as u8,
        ((x / 0x100) % 256) as u8,
        (x % 256) as u8,
    ]
}

/// The eight big-endian bytes of `x`.
pub fn u64_be_bytes(x: u64) -> (r: Vec<u8>)
    ensures
        r@ == be_bytes(x),
{
    let mut r: Vec<u8> = Vec::new();
    r.push((x / 0x100000000000000) as u8);
    r.push(((x / 0x1000000000000) % 256) as u8);
    r.push(((x / 0x10000000000) % 256) as u8);
    r.push(((x / 0x100000000) % 256) as u8);
    r.push(((x / 0x1000000) % 256) as u8);
    r.push(((x / 0x10000) % 256) as u8);
    r.push(((x / 0x100) % 256) as u8);
    r.push((x % 256) as u8);
    assert(r@ =~= be_bytes(x));
    r
}

/// The hash that identifies the transfer of request `request_id`: the
/// SHA-256 digest of the request id's big-endian bytes.
pub open spec fn transfer_hash(request_id: u64) -> Seq<u8> {
    sha256_digest(be_bytes(request_id))
}

/// No operator both approved and rejected a request, and none did either twice.
pub open spec fn signers_ok(r: MultisigBridgeRequest) -> bool {
    &&& r.signatures@.no_duplicates()
    &&& r.rejections@.no_duplicates()
    &&& forall|a: Address| r.signatures@.contains(a) ==> !r.rejections@.contains(a)
}

/// `n` and `q` agree on everything but the signer lists and the status.
pub open spec fn same_but_signers(n: MultisigBridgeRequest, q: MultisigBridgeRequest) -> bool {
    &&& n.request_id == q.request_id
    &&& n.token_id == q.token_id
    &&& n.source_chain == q.source_chain
    &&& n.destination_chain == q.destination_chain
    &&& n.sender == q.sender
    &&& n.recipient == q.recipient
    &&& n.required_signatures == q.required_signatures
    &&& n.created_at == q.created_at
    &&& n.expires_at == q.expires_at
    &&& n.metadata == q.metadata
}

/// The chain entry that initialization writes for `chain_id`.
pub open spec fn is_default_chain_info(info: ChainBridgeInfo, chain_id: u32) -> bool {
    &&& info.chain_id == chain_id
    &&& info.chain_name@ == "Chain"@
    &&& info.bridge_contract_address@ == ""@
    &&& info.is_active
    &&& info.gas_multiplier == 100
    &&& info.confirmation_blocks == 6
    &&& info.supported_tokens@.len() == 0
}

/// Appending `s` to `x` keeps a sequence free of duplicates when `x` was not
/// in it.
proof fn lemma_push_no_duplicates(s: Seq<Address>, x: Address)
    requires
        s.no_duplicates(),
        !s.contains(x),
    ensures
        s.push(x).no_duplicates(),
{
    assert forall|i: int, j: int| 0 <= i < s.push(x).len() && 0 <= j < s.push(x).len() && i != j implies
        s.push(x)[i] != s.push(x)[j] by {
        if i < s.len() && j < s.len() {
        } else if i == s.len() {
            assert(s.contains(s[j]));
        } else {
            assert(s.contains(s[i]));
        }
    }
}

/// The stored state of the bridge contract.
pub struct PropertyBridge {
    pub admin: Option<Address>,
    pub config: Option<BridgeConfig>,
    pub version: Option<u32>,
    pub operators: Option<Vec<Address>>,
    pub req_counter: u64,
    pub tx_counter: u64,
    pub requests: Table<u64, MultisigBridgeRequest>,
    pub histories: Table<Address, Vec<BridgeTransaction>>,
    pub chain_infos: Table<u32, ChainBridgeInfo>,
    /// The hashes of the transfers carried out.
    pub verified_txs: Vec<[u8; 32]>,
    pub nonces: Table<Address, u64>,
    /// Service fees held for requests not yet completed or recovered.
    pub fee_escrow: Table<u64, i128>,
}

impl PropertyBridge {
    /// The bridge invariant: configuration, admin and operator list exist
    /// together; the configured minimum signature count is at least one and
    /// at most the maximum; at most `MAX_OPERATORS` operators, none listed twice;
    /// requests are numbered `1..=req_counter`, carry their own id, and no
    /// operator signs one twice or both ways; a history holds at most
    /// `MAX_HISTORY_ITEMS` transfers; escrowed fees are positive and belong
    /// to existing requests; a request is locked only once approved by the
    /// required number of operators.
    pub open spec fn wf(&self) -> bool {
        &&& self.requests.wf()
        &&& self.histories.wf()
        &&& self.chain_infos.wf()
        &&& self.nonces.wf()
        &&& self.fee_escrow.wf()
        &&& (self.admin is None <==> self.config is None)
        &&& (self.admin is None <==> self.operators is None)
        &&& self.admin is None ==> self.req_counter == 0 && self.tx_counter == 0
        &&& self.config matches Some(c) ==> 1 <= c.min_signatures_required <= c.max_signatures_required
        &&& self.operators matches Some(ops) ==> ops@.len() <= MAX_OPERATORS && ops@.no_duplicates()
        &&& forall|id: u64| #[trigger]
            self.requests@.contains_key(id) ==> {
                &&& 1 <= id <= self.req_counter
                &&& self.requests@[id].request_id == id
                &&& signers_ok(self.requests@[id])
                &&& self.requests@[id].status == BridgeOperationStatus::Locked
                    ==> self.requests@[id].signatures@.len() >= self.requests@[id].required_signatures
            }
        &&& forall|a: Address| #[trigger]
            self.histories@.contains_key(a) ==> self.histories@[a]@.len() <= MAX_HISTORY_ITEMS
        &&& forall|id: u64| #[trigger]
            self.fee_escrow@.contains_key(id) ==> self.requests@.contains_key(id) && self.fee_escrow@[id] > 0
    }

    /// The last nonce `a` used, zero before the first.
    pub open spec fn nonce_of(&self, a: Address) -> u64 {
        if self.nonces@.contains_key(a) { self.nonces@[a] } else { 0 }
    }

    /// The transfers recorded for `a`, oldest first.
    pub open spec fn history_of(&self, a: Address) -> Seq<BridgeTransaction> {
        if self.histories@.contains_key(a) { self.histories@[a]@ } else { Seq::empty() }
    }

    /// Whether `a` is an operator.
    pub open spec fn spec_is_operator(&self, a: Address) -> bool {
        self.operators matches Some(ops) && ops@.contains(a)
    }

    /// A bridge that was never initialized.
    pub fn new() -> (b: PropertyBridge)
        ensures
            b.wf(),
            b.admin is None,
            b.requests@ == Map::<u64, MultisigBridgeRequest>::empty(),
            b.histories@ == Map::<Address, Vec<BridgeTransaction>>::empty(),
            b.chain_infos@ == Map::<u32, ChainBridgeInfo>::empty(),
            b.nonces@ == Map::<Address, u64>::empty(),
            b.fee_escrow@ == Map::<u64, i128>::empty(),
            b.verified_txs@.len() == 0,
            b.version is None,
            b.config is None,
            b.operators is None,
            b.req_counter == 0,
            b.tx_counter == 0,
    {
        PropertyBridge {
            admin: None,
            config: None,
            version: None,
            operators: None,
            req_counter: 0,
            tx_counter: 0,
            requests: Table::new(),
            histories: Table::new(),
            chain_infos: Table::new(),
            verified_txs: Vec::new(),
            nonces: Table::new(),
            fee_escrow: Table::new(),
        }
    }

    /// What `init` answers.
    pub open spec fn init_outcome(
        &self,
        supported_chains: Seq<u32>,
        min_signatures: u32,
        max_signatures: u32,
        default_timeout: u64,
        gas_limit: u64,
    ) -> Result<(), BridgeError> {
        if self.admin is Some {
            Err(BridgeError::AlreadyInitialized)
        } else if supported_chains.len() == 0 {
            Err(BridgeError::InvalidConfig)
        } else if min_signatures == 0 || max_signatures == 0 || default_timeout == 0 || gas_limit == 0 {
            Err(BridgeError::InvalidParameter)
        } else if supported_chains.len() > MAX_SUPPORTED_CHAINS {
            Err(BridgeError::InvalidConfig)
        } else if supported_chains.contains(0) {
            Err(BridgeError::InvalidParameter)
        } else if min_signatures > max_signatures {
            Err(BridgeError::InvalidConfig)
        } else {
            Ok(())
        }
    }

    /// Configure the bridge: the chains it serves, the range of signature
    /// counts a request may ask for, the default timeout, the gas limit and
    /// the service fee. The admin becomes the first operator, and each
    /// supported chain gets a default chain entry. A refused call changes
    /// nothing.
    pub fn init(
        &mut self,
        admin: Address,
        supported_chains: Vec<u32>,
        min_signatures: u32,
        max_signatures: u32,
        default_timeout: u64,
        gas_limit: u64,
        service_fee: i128,
        fee_token: Address,
        fee_recipient: Address,
    ) -> (r: Result<(), BridgeError>)
        requires
            old(self).wf(),
        ensures
            final(self).wf(),
            r == old(self).init_outcome(supported_chains@, min_signatures, max_signatures, default_timeout, gas_limit),
            r is Err ==> *final(self) == *old(self),
            r is Ok ==> {
                &&& final(self).admin == Some(admin)
                &&& final(self).config matches Some(c) && {
                    &&& c.supported_chains@ == supported_chains@
                    &&& c.min_signatures_required == min_signatures
                    &&& c.max_signatures_required == max_signatures
                    &&& c.default_timeout_seconds == default_timeout
                    &&& c.gas_limit_per_bridge == gas_limit
                    &&& !c.emergency_pause
                    &&& c.metadata_preservation
                    &&& c.service_fee == service_fee
                    &&& c.fee_token == fee_token
                    &&& c.fee_recipient == fee_recipient
                }
                &&& final(self).version == Some(CONTRACT_VERSION)
                &&& final(self).operators matches Some(ops) && ops@ == seq![admin]
                &&& final(self).req_counter == 0
                &&& final(self).tx_counter == 0
                &&& final(self).chain_infos@.dom() == old(self).chain_infos@.dom().union(supported_chains@.to_set())
                &&& forall|c: u32| #[trigger] supported_chains@.contains(c) ==> is_default_chain_info(final(self).chain_infos@[c], c)
                &&& forall|c: u32| !supported_chains@.contains(c) ==> #[trigger] final(self).chain_infos@[c] == old(self).chain_infos@[c]
                &&& *final(self) == (PropertyBridge {
                    admin: final(self).admin,
                    config: final(self).config,
                    version: final(self).version,
                    operators: final(self).operators,
                    req_counter: 0,
                    tx_counter: 0,
                    chain_infos: final(self).chain_infos,
                    ..*old(self)
                })
            },
    {
        if self.admin.is_some() {
            return Err(BridgeError::AlreadyInitialized);
        }
        match require_non_zero_address(&admin) {
            Ok(()) => {},
            Err(e) => return Err(e),
        }
        if supported_chains.len() == 0 {
            return Err(BridgeError::InvalidConfig);
        }
        if min_signatures == 0 || max_signatures == 0 || default_timeout == 0 || gas_limit == 0 {
            return Err(BridgeError::InvalidParameter);
        }
        if supported_chains.len() > MAX_SUPPORTED_CHAINS as usize {
            return Err(BridgeError::InvalidConfig);
        }
        if contains_u32(&supported_chains, 0) {
            return Err(BridgeError::InvalidParameter);
        }
        if min_signatures > max_signatures {
            return Err(BridgeError::InvalidConfig);
        }
        let ghost old_infos = self.chain_infos@;
        let mut i: usize = 0;
        while i < supported_chains.len()
            invariant
                old(self).wf(),
                old(self).admin is None,
                *self == (PropertyBridge { chain_infos: self.chain_infos, ..*old(self) }),
                self.chain_infos.wf(),
                i <= supported_chains@.len(),
                self.chain_infos@.dom() == old_infos.dom().union(supported_chains@.take(i as int).to_set()),
                forall|c: u32| #[trigger] supported_chains@.take(i as int).contains(c) ==> is_default_chain_info(self.chain_infos@[c], c),
                forall|c: u32| !supported_chains@.take(i as int).contains(c) ==> #[trigger] self.chain_infos@[c] == old_infos[c],
            decreases supported_chains@.len() - i,
        {
            let chain_id = supported_chains[i];
            let info = ChainBridgeInfo {
                chain_id,
                chain_name: "Chain".to_owned(),
                bridge_contract_address: "".to_owned(),
                is_active: true,
                gas_multiplier: 100,
                confirmation_blocks: 6,
                supported_tokens: Vec::new(),
            };
            let ghost before = self.chain_infos@;
            self.chain_infos.insert(chain_id, info);
            proof {
                let t0 = supported_chains@.take(i as int);
                let t1 = supported_chains@.take(i + 1);
                assert(t1 =~= t0.push(chain_id));
                assert forall|c: u32| t1.contains(c) <==> (t0.contains(c) || c == chain_id) by {
                    if t1.contains(c) && c != chain_id {
                        let k = choose|k: int| 0 <= k < t1.len() && t1[k] == c;
                        assert(t0[k] == c);
                    }
                    if t0.contains(c) {
                        let k = choose|k: int| 0 <= k < t0.len() && t0[k] == c;
                        assert(t1[k] == c);
                    }
                    if c == chain_id {
                        assert(t1[i as int] == c);
                    }
                }
                assert(t1.to_set() =~= t0.to_set().insert(chain_id));
                assert(self.chain_infos@.dom() =~= old_infos.dom().union(t1.to_set()));
            }
            i = i + 1;
        }
        proof {
            assert(supported_chains@.take(supported_chains@.len() as int) =~= supported_chains@);
        }
        let mut operators: Vec<Address> = Vec::new();
        operators.push(admin);
        proof {
            assert(operators@ =~= seq![admin]);
        }
        self.config = Some(BridgeConfig {
            supported_chains,
            min_signatures_required: min_signatures,
            max_signatures_required: max_signatures,
            default_timeout_seconds: default_timeout,
            gas_limit_per_bridge: gas_limit,
            emergency_pause: false,
            metadata_preservation: true,
            service_fee,
            fee_token,
            fee_recipient,
        });
        self.admin = Some(admin);
        self.version = Some(CONTRACT_VERSION);
        self.req_counter = 0;
        self.tx_counter = 0;
        self.operators = Some(operators);
        Ok(())
    }

    /// The counters a new request moves stay in range.
    pub open spec fn initiate_fits(&self, caller: Address, timeout_seconds: Option<u64>, now: u64) -> bool {
        &&& self.nonce_of(caller) < u64::MAX
        &&& self.req_counter < u64::MAX
        &&& timeout_seconds matches Some(s) ==> now + s <= u64::MAX
    }

    /// What `initiate_bridge_multisig` answers.
    pub open spec fn initiate_outcome(
        &self,
        caller: Address,
        token_id: u64,
        destination_chain: u32,
        required_signatures: u32,
        timeout_seconds: Option<u64>,
        metadata: PropertyMetadata,
        nonce: u64,
    ) -> Result<(u64, Option<FeeTransfer>), BridgeError> {
        if token_id == 0 || required_signatures == 0 || metadata.size == 0 || metadata.valuation == 0
            || timeout_seconds == Some(0u64) {
            Err(BridgeError::InvalidParameter)
        } else if nonce != self.nonce_of(caller) + 1 {
            Err(BridgeError::InvalidNonce)
        } else if self.config is None {
            Err(BridgeError::NotInitialized)
        } else if self.config->0.emergency_pause {
            Err(BridgeError::BridgePaused)
        } else if !self.config->0.supported_chains@.contains(destination_chain) {
            Err(BridgeError::UnsupportedChain)
        } else if required_signatures < self.config->0.min_signatures_required
            || required_signatures > self.config->0.max_signatures_required {
            Err(BridgeError::InvalidSignatureRequirement)
        } else {
            let c = self.config->0;
            Ok(
                (
                    (self.req_counter + 1) as u64,
                    if c.service_fee > 0 {
                        Some(FeeTransfer::Collect { token: c.fee_token, payer: caller, amount: c.service_fee })
                    } else {
                        None
                    },
                ),
            )
        }
    }

    /// `caller` asks to bridge property token `token_id` to
    /// `destination_chain` for `recipient`, to be approved by
    /// `required_signatures` operators, optionally expiring `timeout_seconds`
    /// after `now`. `nonce` must be one more than the caller's last. Returns
    /// the new request's id and the service fee the caller pays into escrow,
    /// if any. The caller must have authorized the call. A refused call
    /// changes nothing.
    pub fn initiate_bridge_multisig(
        &mut self,
        caller: Address,
        token_id: u64,
        destination_chain: u32,
        recipient: Address,
        required_signatures: u32,
        timeout_seconds: Option<u64>,
        metadata: PropertyMetadata,
        nonce: u64,
        now: u64,
    ) -> (r: Result<(u64, Option<FeeTransfer>), BridgeError>)
        requires
            old(self).wf(),
            old(self).initiate_fits(caller, timeout_seconds, now),
        ensures
            final(self).wf(),
            r == old(self).initiate_outcome(
                caller,
                token_id,
                destination_chain,
                required_signatures,
                timeout_seconds,
                metadata,
                nonce,
            ),
            r is Err ==> *final(self) == *old(self),
            r matches Ok((id, _)) ==> {
                let q = final(self).requests@[id];
                let fee = old(self).config->0.service_fee;
                &&& final(self).requests@.contains_key(id)
                &&& final(self).requests@.remove(id) == old(self).requests@
                &&& q.request_id == id
                &&& q.token_id == token_id
                &&& q.source_chain == 1
                &&& q.destination_chain == destination_chain
                &&& q.sender == caller
                &&& q.recipient == recipient
                &&& q.required_signatures == required_signatures
                &&& q.signatures@.len() == 0
                &&& q.rejections@.len() == 0
                &&& q.created_at == now
                &&& q.expires_at == (match timeout_seconds {
                    Some(s) => Some((now + s) as u64),
                    None => None,
                })
                &&& q.status == BridgeOperationStatus::Pending
                &&& q.metadata == metadata
                &&& final(self).nonces@ == old(self).nonces@.insert(caller, nonce)
                &&& final(self).fee_escrow@ == (if fee > 0 {
                    old(self).fee_escrow@.insert(id, fee)
                } else {
                    old(self).fee_escrow@
                })
                &&& *final(self) == (PropertyBridge {
                    req_counter: id,
                    requests: final(self).requests,
                    nonces: final(self).nonces,
                    fee_escrow: final(self).fee_escrow,
                    ..*old(self)
                })
            },
    {
        match require_non_zero_address(&caller) {
            Ok(()) => {},
            Err(e) => return Err(e),
        }
        match require_non_zero_address(&recipient) {
            Ok(()) => {},
            Err(e) => return Err(e),
        }
        match require_non_zero_u64(token_id) {
            Ok(()) => {},
            Err(e) => return Err(e),
        }
        match require_non_zero_u32(required_signatures) {
            Ok(()) => {},
            Err(e) => return Err(e),
        }
        match require_non_zero_u64(metadata.size) {
            Ok(()) => {},
            Err(e) => return Err(e),
        }
        match require_non_zero_u128(metadata.valuation) {
            Ok(()) => {},
            Err(e) => return Err(e),
        }
        match timeout_seconds {
            Some(seconds) => match require_non_zero_u64(seconds) {
                Ok(()) => {},
                Err(e) => return Err(e),
            },
            None => {},
        }
        let current_nonce: u64 = match self.nonces.get(&caller) {
            Some(n) => *n,
            None => 0,
        };
        if nonce != current_nonce + 1 {
            return Err(BridgeError::InvalidNonce);
        }
        match require_not_paused(&self.config) {
            Ok(()) => {},
            Err(e) => return Err(e),
        }
        let (fee, fee_token) = match &self.config {
            Some(config) => {
                match require_supported_chain(config, destination_chain) {
                    Ok(()) => {},
                    Err(e) => return Err(e),
                }
                match require_valid_signatures(config, required_signatures) {
                    Ok(()) => {},
                    Err(e) => return Err(e),
                }
                (config.service_fee, config.fee_token)
            },
            None => return Err(BridgeError::NotInitialized),
        };
        let expires_at = match timeout_seconds {
            Some(seconds) => {
                let expiry = now + seconds;
                match require_future_timestamp(expiry, now) {
                    Ok(()) => {},
                    Err(e) => return Err(e),
                }
                Some(expiry)
            },
            None => None,
        };
        let counter = self.req_counter + 1;
        self.nonces.insert(caller, nonce);
        self.req_counter = counter;
        let transfer = if fee > 0 {
            self.fee_escrow.insert(counter, fee);
            Some(FeeTransfer::Collect { token: fee_token, payer: caller, amount: fee })
        } else {
            None
        };
        let request = MultisigBridgeRequest {
            request_id: counter,
            token_id,
            source_chain: 1,
            destination_chain,
            sender: caller,
            recipient,
            required_signatures,
            signatures: Vec::new(),
            rejections: Vec::new(),
            created_at: now,
            expires_at,
            status: BridgeOperationStatus::Pending,
            metadata,
        };
        proof {
            assert(!old(self).requests@.contains_key(counter));
            assert(request.signatures@.no_duplicates());
            assert(request.rejections@.no_duplicates());
        }
        self.requests.insert(counter, request);
        proof {
            assert(self.requests@.remove(counter) =~= old(self).requests@);
        }
        Ok((counter, transfer))
    }

    /// The checks an operator's call on request `request_id` passes before
    /// the request itself is looked at.
    pub open spec fn operator_gate(&self, operator: Address, request_id: u64) -> Result<(), BridgeError> {
        if request_id == 0 {
            Err(BridgeError::InvalidParameter)
        } else if self.operators is None {
            Err(BridgeError::NotInitialized)
        } else if !self.operators->0@.contains(operator) {
            Err(BridgeError::NotOperator)
        } else if self.config is None {
            Err(BridgeError::NotInitialized)
        } else if self.config->0.emergency_pause {
            Err(BridgeError::BridgePaused)
        } else if !self.requests@.contains_key(request_id) {
            Err(BridgeError::RequestNotFound)
        } else {
            Ok(())
        }
    }

    /// The checks an operator's call on request `request_id` passes before
    /// the request itself is looked at.
    fn check_operator_gate(&self, operator: &Address, request_id: u64) -> (r: Result<(), BridgeError>)
        requires
            self.wf(),
        ensures
            r == self.operator_gate(*operator, request_id),
    {
        match require_non_zero_address(operator) {
            Ok(()) => {},
            Err(e) => return Err(e),
        }
        match require_non_zero_u64(request_id) {
            Ok(()) => {},
            Err(e) => return Err(e),
        }
        match require_operator(&self.operators, operator) {
            Ok(()) => {},
            Err(e) => return Err(e),
        }
        match require_not_paused(&self.config) {
            Ok(()) => {},
            Err(e) => return Err(e),
        }
        if !self.requests.contains(&request_id) {
            return Err(BridgeError::RequestNotFound);
        }
        Ok(())
    }

    /// What `sign_bridge_request` answers.
    pub open spec fn sign_outcome(&self, operator: Address, request_id: u64, now: u64) -> Result<(), BridgeError> {
        let q = self.requests@[request_id];
        if self.operator_gate(operator, request_id) is Err {
            self.operator_gate(operator, request_id)
        } else if q.status != BridgeOperationStatus::Pending {
            Err(BridgeError::RequestNotPending)
        } else if q.expires_at matches Some(e) && now > e {
            Err(BridgeError::RequestExpired)
        } else if q.signatures@.contains(operator) || q.rejections@.contains(operator) {
            Err(BridgeError::AlreadySigned)
        } else {
            Ok(())
        }
    }

    /// Operator `operator` approves (`approve`) or rejects pending request
    /// `request_id` at `now`. Once the approvals reach the required count the
    /// request is locked for execution; once the rejections do, it fails.
    /// The operator must have authorized the call. A refused call changes
    /// nothing.
    pub fn sign_bridge_request(&mut self, operator: Address, request_id: u64, approve: bool, now: u64) -> (r: Result<
        (),
        BridgeError,
    >)
        requires
            old(self).wf(),
        ensures
            final(self).wf(),
            r == old(self).sign_outcome(operator, request_id, now),
            r is Err ==> *final(self) == *old(self),
            r is Ok ==> {
                let q = old(self).requests@[request_id];
                let n = final(self).requests@[request_id];
                &&& final(self).requests@.dom() == old(self).requests@.dom()
                &&& final(self).requests@.remove(request_id) == old(self).requests@.remove(request_id)
                &&& same_but_signers(n, q)
                &&& n.signatures@ == (if approve { q.signatures@.push(operator) } else { q.signatures@ })
                &&& n.rejections@ == (if approve { q.rejections@ } else { q.rejections@.push(operator) })
                &&& n.status == (if approve && q.signatures@.len() + 1 >= q.required_signatures {
                    BridgeOperationStatus::Locked
                } else if !approve && q.rejections@.len() + 1 >= q.required_signatures {
                    BridgeOperationStatus::Failed
                } else {
                    q.status
                })
                &&& *final(self) == (PropertyBridge { requests: final(self).requests, ..*old(self) })
            },
    {
        match self.check_operator_gate(&operator, request_id) {
            Ok(()) => {},
            Err(e) => return Err(e),
        }
        match self.requests.get(&request_id) {
            Some(q) => {
                if q.status != BridgeOperationStatus::Pending {
                    return Err(BridgeError::RequestNotPending);
                }
                match q.expires_at {
                    Some(e) => {
                        if now > e {
                            return Err(BridgeError::RequestExpired);
                        }
                    },
                    None => {},
                }
                if contains_address(&q.signatures, &operator) || contains_address(&q.rejections, &operator) {
                    return Err(BridgeError::AlreadySigned);
                }
            },
            None => return Err(BridgeError::RequestNotFound),
        }
        let ghost q = self.requests@[request_id];
        let mut request = match self.requests.remove(&request_id) {
            Some(req) => req,
            None => return Err(BridgeError::RequestNotFound),
        };
        if approve {
            request.signatures.push(operator);
            if request.signatures.len() as u64 >= request.required_signatures as u64 {
                request.status = BridgeOperationStatus::Locked;
            }
        } else {
            request.rejections.push(operator);
            if request.rejections.len() as u64 >= request.required_signatures as u64 {
                request.status = BridgeOperationStatus::Failed;
            }
        }
        proof {
            if approve {
                lemma_push_no_duplicates(q.signatures@, operator);
                assert(request.rejections@ == q.rejections@);
            } else {
                lemma_push_no_duplicates(q.rejections@, operator);
                assert(request.signatures@ == q.signatures@);
            }
            assert forall|a: Address| request.signatures@.contains(a) implies !request.rejections@.contains(a) by {
                if approve && a == operator {
                } else if approve {
                    assert(q.signatures@.contains(a)) by {
                        let k = choose|k: int| 0 <= k < request.signatures@.len() && request.signatures@[k] == a;
                        assert(q.signatures@[k] == a);
                    }
                } else {
                    if request.rejections@.contains(a) && a != operator {
                        let k = choose|k: int| 0 <= k < request.rejections@.len() && request.rejections@[k] == a;
                        assert(q.rejections@[k] == a);
                    }
                }
            }
        }
        self.requests.insert(request_id, request);
        proof {
            assert(self.requests@.dom() =~= old(self).requests@.dom());
            assert(self.requests@.remove(request_id) =~= old(self).requests@.remove(request_id));
        }
        Ok(())
    }

    /// The fee escrowed for request `request_id` goes to `recipient`: the
    /// transfer to make, if a fee is held.
    pub open spec fn fee_release(&self, request_id: u64, recipient: Address) -> Option<FeeTransfer> {
        if self.fee_escrow@.contains_key(request_id) {
            Some(FeeTransfer::Release {
                token: self.config->0.fee_token,
                recipient,
                amount: self.fee_escrow@[request_id],
            })
        } else {
            None
        }
    }

    /// Take the fee escrowed for request `request_id`, if any, for
    /// `recipient`.
    fn release_fee(&mut self, request_id: u64, recipient: Address) -> (t: Option<FeeTransfer>)
        requires
            old(self).wf(),
            old(self).config is Some,
        ensures
            final(self).wf(),
            t == old(self).fee_release(request_id, recipient),
            *final(self) == (PropertyBridge { fee_escrow: final(self).fee_escrow, ..*old(self) }),
            final(self).fee_escrow@ == old(self).fee_escrow@.remove(request_id),
    {
        let token = match &self.config {
            Some(c) => c.fee_token,
            None => return None,
        };
        match self.fee_escrow.remove(&request_id) {
            Some(fee) => {
                if fee > 0 {
                    Some(FeeTransfer::Release { token, recipient, amount: fee })
                } else {
                    None
                }
            },
            None => None,
        }
    }

    /// What `execute_bridge` answers.
    pub open spec fn execute_outcome(&self, operator: Address, request_id: u64) -> Result<
        Option<FeeTransfer>,
        BridgeError,
    > {
        if self.operator_gate(operator, request_id) is Err {
            Err(self.operator_gate(operator, request_id)->Err_0)
        } else if self.requests@[request_id].status != BridgeOperationStatus::Locked {
            Err(BridgeError::RequestNotReady)
        } else {
            Ok(self.fee_release(request_id, self.config->0.fee_recipient))
        }
    }

    /// `t` records the transfer of request `q` as transaction `tx_id` at `now`.
    pub open spec fn is_transfer_record(
        t: BridgeTransaction,
        tx_id: u64,
        q: MultisigBridgeRequest,
        now: u64,
    ) -> bool {
        &&& t.transaction_id == tx_id
        &&& t.token_id == q.token_id
        &&& t.source_chain == q.source_chain
        &&& t.destination_chain == q.destination_chain
        &&& t.sender == q.sender
        &&& t.recipient == q.recipient
        &&& t.transaction_hash@ == transfer_hash(q.request_id)
        &&& t.timestamp == now
        &&& t.gas_used == 0
        &&& t.status == BridgeOperationStatus::InTransit
        &&& t.metadata == q.metadata
    }

    /// A history with its oldest entry dropped when it is full.
    pub open spec fn trimmed(h: Seq<BridgeTransaction>) -> Seq<BridgeTransaction> {
        if h.len() >= MAX_HISTORY_ITEMS { h.drop_first() } else { h }
    }

    /// Operator `operator` carries out locked request `request_id` at `now`:
    /// the request completes, a transaction identified by the SHA-256 digest
    /// of the request id's big-endian bytes is recorded as verified and
    /// appended to the sender's history (dropping the oldest entry of a full
    /// history), and the escrowed fee, if any, goes to the fee recipient: the
    /// transfer to make is returned. The operator must have authorized the
    /// call. A refused call changes nothing.
    pub fn execute_bridge(&mut self, env: &Env, operator: Address, request_id: u64, now: u64) -> (r: Result<
        Option<FeeTransfer>,
        BridgeError,
    >)
        requires
            old(self).wf(),
            old(self).tx_counter < u64::MAX,
        ensures
            final(self).wf(),
            r == old(self).execute_outcome(operator, request_id),
            r is Err ==> *final(self) == *old(self),
            r is Ok ==> {
                let q = old(self).requests@[request_id];
                let n = final(self).requests@[request_id];
                let tx_id = (old(self).tx_counter + 1) as u64;
                let h = final(self).history_of(q.sender);
                let kept = Self::trimmed(old(self).history_of(q.sender));
                &&& final(self).tx_counter == tx_id
                &&& final(self).requests@.dom() == old(self).requests@.dom()
                &&& final(self).requests@.remove(request_id) == old(self).requests@.remove(request_id)
                &&& same_but_signers(n, q)
                &&& n.signatures@ == q.signatures@
                &&& n.rejections@ == q.rejections@
                &&& n.status == BridgeOperationStatus::Completed
                &&& final(self).fee_escrow@ == old(self).fee_escrow@.remove(request_id)
                &&& final(self).verified_txs@.len() == old(self).verified_txs@.len() + 1
                &&& final(self).verified_txs@.drop_last() == old(self).verified_txs@
                &&& final(self).verified_txs@.last()@ == transfer_hash(request_id)
                &&& final(self).histories@.contains_key(q.sender)
                &&& final(self).histories@.remove(q.sender) == old(self).histories@.remove(q.sender)
                &&& h.len() == kept.len() + 1
                &&& h.drop_last() == kept
                &&& Self::is_transfer_record(h.last(), tx_id, q, now)
                &&& *final(self) == (PropertyBridge {
                    tx_counter: tx_id,
                    requests: final(self).requests,
                    fee_escrow: final(self).fee_escrow,
                    verified_txs: final(self).verified_txs,
                    histories: final(self).histories,
                    ..*old(self)
                })
            },
    {
        match self.check_operator_gate(&operator, request_id) {
            Ok(()) => {},
            Err(e) => return Err(e),
        }
        match self.requests.get(&request_id) {
            Some(q) => {
                if q.status != BridgeOperationStatus::Locked {
                    return Err(BridgeError::RequestNotReady);
                }
            },
            None => return Err(BridgeError::RequestNotFound),
        }
        let ghost q = self.requests@[request_id];
        let ghost old_history = self.history_of(q.sender);
        let id_bytes = u64_be_bytes(request_id);
        let tx_hash = sha256(env, &id_bytes);
        let tx_counter = self.tx_counter + 1;
        self.tx_counter = tx_counter;
        let mut request = match self.requests.remove(&request_id) {
            Some(req) => req,
            None => return Err(BridgeError::RequestNotFound),
        };
        let sender = request.sender;
        let transaction = BridgeTransaction {
            transaction_id: tx_counter,
            token_id: request.token_id,
            source_chain: request.source_chain,
            destination_chain: request.destination_chain,
            sender,
            recipient: request.recipient,
            transaction_hash: tx_hash,
            timestamp: now,
            gas_used: 0,
            status: BridgeOperationStatus::InTransit,
            metadata: request.metadata.copy(),
        };
        request.status = BridgeOperationStatus::Completed;
        self.requests.insert(request_id, request);
        proof {
            assert(self.requests@.dom() =~= old(self).requests@.dom());
            assert(self.requests@.remove(request_id) =~= old(self).requests@.remove(request_id));
        }
        let recipient = match &self.config {
            Some(c) => c.fee_recipient,
            None => return Err(BridgeError::NotInitialized),
        };
        let transfer = self.release_fee(request_id, recipient);
        self.verified_txs.push(tx_hash);
        let mut history = match self.histories.remove(&sender) {
            Some(h) => h,
            None => Vec::new(),
        };
        proof {
            assert(history@ == old_history);
        }
        if history.len() >= MAX_HISTORY_ITEMS as usize {
            history.remove(0);
            proof {
                assert(history@ =~= old_history.drop_first());
            }
        }
        history.push(transaction);
        self.histories.insert(sender, history);
        proof {
            assert(self.histories@.remove(sender) =~= old(self).histories@.remove(sender));
            assert(self.history_of(sender).drop_last() =~= Self::trimmed(old_history));
            assert(self.verified_txs@.drop_last() =~= old(self).verified_txs@);
        }
        Ok(transfer)
    }

    /// The admin checks: `NotInitialized` before initialization,
    /// `Unauthorized` for anyone but the admin.
    pub open spec fn admin_gate(&self, caller: Address) -> Result<(), BridgeError> {
        match self.admin {
            None => Err(BridgeError::NotInitialized),
            Some(a) => if a == caller { Ok(()) } else { Err(BridgeError::Unauthorized) },
        }
    }

    /// What `recover_failed_bridge` answers.
    pub open spec fn recover_outcome(&self, admin: Address, request_id: u64) -> Result<
        Option<FeeTransfer>,
        BridgeError,
    > {
        let q = self.requests@[request_id];
        if request_id == 0 {
            Err(BridgeError::InvalidParameter)
        } else if self.admin_gate(admin) is Err {
            Err(self.admin_gate(admin)->Err_0)
        } else if self.config is None {
            Err(BridgeError::NotInitialized)
        } else if self.config->0.emergency_pause {
            Err(BridgeError::BridgePaused)
        } else if !self.requests@.contains_key(request_id) {
            Err(BridgeError::RequestNotFound)
        } else if q.status != BridgeOperationStatus::Failed && q.status != BridgeOperationStatus::Expired {
            Err(BridgeError::RequestNotFailed)
        } else {
            Ok(self.fee_release(request_id, q.sender))
        }
    }

    /// The admin recovers failed or expired request `request_id`: any
    /// escrowed fee goes back to the sender (the transfer to make is
    /// returned); `RetryBridge` reopens the request with no signatures, the
    /// other actions leave it failed. The admin must have authorized the
    /// call. A refused call changes nothing.
    pub fn recover_failed_bridge(&mut self, admin: Address, request_id: u64, recovery_action: RecoveryAction) -> (r:
        Result<Option<FeeTransfer>, BridgeError>)
        requires
            old(self).wf(),
        ensures
            final(self).wf(),
            r == old(self).recover_outcome(admin, request_id),
            r is Err ==> *final(self) == *old(self),
            r is Ok ==> {
                let q = old(self).requests@[request_id];
                let n = final(self).requests@[request_id];
                &&& final(self).requests@.dom() == old(self).requests@.dom()
                &&& final(self).requests@.remove(request_id) == old(self).requests@.remove(request_id)
                &&& same_but_signers(n, q)
                &&& (recovery_action == RecoveryAction::RetryBridge ==> {
                    &&& n.status == BridgeOperationStatus::Pending
                    &&& n.signatures@.len() == 0
                    &&& n.rejections@.len() == 0
                })
                &&& (recovery_action != RecoveryAction::RetryBridge ==> {
                    &&& n.status == BridgeOperationStatus::Failed
                    &&& n.signatures@ == q.signatures@
                    &&& n.rejections@ == q.rejections@
                })
                &&& final(self).fee_escrow@ == old(self).fee_escrow@.remove(request_id)
                &&& *final(self) == (PropertyBridge {
                    requests: final(self).requests,
                    fee_escrow: final(self).fee_escrow,
                    ..*old(self)
                })
            },
    {
        match require_non_zero_address(&admin) {
            Ok(()) => {},
            Err(e) => return Err(e),
        }
        match require_non_zero_u64(request_id) {
            Ok(()) => {},
            Err(e) => return Err(e),
        }
        match require_admin(&self.admin, &admin) {
            Ok(()) => {},
            Err(e) => return Err(e),
        }
        match require_not_paused(&self.config) {
            Ok(()) => {},
            Err(e) => return Err(e),
        }
        let sender = match self.requests.get(&request_id) {
            Some(q) => {
                if q.status != BridgeOperationStatus::Failed && q.status != BridgeOperationStatus::Expired {
                    return Err(BridgeError::RequestNotFailed);
                }
                q.sender
            },
            None => return Err(BridgeError::RequestNotFound),
        };
        let transfer = self.release_fee(request_id, sender);
        let mut request = match self.requests.remove(&request_id) {
            Some(req) => req,
            None => return Err(BridgeError::RequestNotFound),
        };
        match recovery_action {
            RecoveryAction::RetryBridge => {
                request.status = BridgeOperationStatus::Pending;
                request.signatures = Vec::new();
                request.rejections = Vec::new();
            },
            _ => {
                request.status = BridgeOperationStatus::Failed;
            },
        }
        self.requests.insert(request_id, request);
        proof {
            assert(self.requests@.dom() =~= old(self).requests@.dom());
            assert(self.requests@.remove(request_id) =~= old(self).requests@.remove(request_id));
        }
        Ok(transfer)
    }

    /// The admin sets or clears the emergency pause. The admin must have
    /// authorized the call.
    pub fn set_pause(&mut self, admin: Address, paused: bool) -> (r: Result<(), BridgeError>)
        requires
            old(self).wf(),
        ensures
            final(self).wf(),
            r == (if old(self).admin_gate(admin) is Err {
                old(self).admin_gate(admin)
            } else if old(self).config is None {
                Err(BridgeError::NotInitialized)
            } else {
                Ok(())
            }),
            r is Err ==> *final(self) == *old(self),
            r is Ok ==> *final(self) == (PropertyBridge {
                config: Some(BridgeConfig { emergency_pause: paused, ..old(self).config->0 }),
                ..*old(self)
            }),
    {
        match require_non_zero_address(&admin) {
            Ok(()) => {},
            Err(e) => return Err(e),
        }
        match require_admin(&self.admin, &admin) {
            Ok(()) => {},
            Err(e) => return Err(e),
        }
        match self.config.take() {
            Some(mut config) => {
                config.emergency_pause = paused;
                self.config = Some(config);
                Ok(())
            },
            None => Err(BridgeError::NotInitialized),
        }
    }

    /// The admin adds `operator`; adding one already listed changes
    /// nothing. At most `MAX_OPERATORS` operators are admitted. The admin
    /// must have authorized the call.
    pub fn add_operator(&mut self, admin: Address, operator: Address) -> (r: Result<(), BridgeError>)
        requires
            old(self).wf(),
        ensures
            final(self).wf(),
            r == (if old(self).admin_gate(admin) is Err {
                old(self).admin_gate(admin)
            } else if old(self).operators is None {
                Err(BridgeError::NotInitialized)
            } else if old(self).operators->0@.len() >= MAX_OPERATORS {
                Err(BridgeError::TooManyOperators)
            } else {
                Ok(())
            }),
            r is Err ==> *final(self) == *old(self),
            r is Ok ==> *final(self) == (PropertyBridge { operators: final(self).operators, ..*old(self) }),
            r is Ok ==> final(self).operators is Some && final(self).operators->0@ == (if old(self).operators->0@.contains(
                operator,
            ) {
                old(self).operators->0@
            } else {
                old(self).operators->0@.push(operator)
            }),
    {
        match require_non_zero_address(&admin) {
            Ok(()) => {},
            Err(e) => return Err(e),
        }
        match require_non_zero_address(&operator) {
            Ok(()) => {},
            Err(e) => return Err(e),
        }
        match require_admin(&self.admin, &admin) {
            Ok(()) => {},
            Err(e) => return Err(e),
        }
        match self.operators.take() {
            Some(mut ops) => {
                if ops.len() >= MAX_OPERATORS as usize {
                    self.operators = Some(ops);
                    return Err(BridgeError::TooManyOperators);
                }
                if !contains_address(&ops, &operator) {
                    proof {
                        lemma_push_no_duplicates(ops@, operator);
                    }
                    ops.push(operator);
                }
                self.operators = Some(ops);
                Ok(())
            },
            None => Err(BridgeError::NotInitialized),
        }
    }

    /// The admin removes `operator`, unless the list is no longer than the
    /// minimum signature count. Removing one not listed changes nothing.
    /// The admin must have authorized the call.
    pub fn remove_operator(&mut self, admin: Address, operator: Address) -> (r: Result<(), BridgeError>)
        requires
            old(self).wf(),
        ensures
            final(self).wf(),
            r == (if old(self).admin_gate(admin) is Err {
                old(self).admin_gate(admin)
            } else if old(self).operators is None || old(self).config is None {
                Err(BridgeError::NotInitialized)
            } else if old(self).operators->0@.len() <= old(self).config->0.min_signatures_required {
                Err(BridgeError::OperatorRemovalWouldBreakQuorum)
            } else {
                Ok(())
            }),
            r is Err ==> *final(self) == *old(self),
            r is Ok ==> *final(self) == (PropertyBridge { operators: final(self).operators, ..*old(self) }),
            r is Ok ==> final(self).operators is Some && final(self).operators->0@ == old(self).operators->0@.filter(
                |a: Address| a != operator,
            ),
    {
        match require_non_zero_address(&admin) {
            Ok(()) => {},
            Err(e) => return Err(e),
        }
        match require_non_zero_address(&operator) {
            Ok(()) => {},
            Err(e) => return Err(e),
        }
        match require_admin(&self.admin, &admin) {
            Ok(()) => {},
            Err(e) => return Err(e),
        }
        let min_signatures = match &self.config {
            Some(c) => c.min_signatures_required,
            None => return Err(BridgeError::NotInitialized),
        };
        let ops = match self.operators.take() {
            Some(ops) => ops,
            None => return Err(BridgeError::NotInitialized),
        };
        if ops.len() as u64 <= min_signatures as u64 {
            self.operators = Some(ops);
            return Err(BridgeError::OperatorRemovalWouldBreakQuorum);
        }
        let ghost keep = |a: Address| a != operator;
        let mut kept: Vec<Address> = Vec::new();
        let mut i: usize = 0;
        while i < ops.len()
            invariant
                i <= ops@.len(),
                ops@.no_duplicates(),
                kept@ == ops@.take(i as int).filter(keep),
                kept@.no_duplicates(),
                kept@.len() <= i,
                forall|a: Address| kept@.contains(a) ==> ops@.take(i as int).contains(a),
                keep == (|a: Address| a != operator),
            decreases ops@.len() - i,
        {
            let a = ops[i];
            let ghost kept_before = kept@;
            proof {
                assert(ops@.take(i + 1) =~= ops@.take(i as int).push(a));
                ops@.take(i as int).lemma_filter_push(a, keep);
            }
            if !a.same(&operator) {
                proof {
                    if kept@.contains(a) {
                        let k = choose|k: int| 0 <= k < i && ops@.take(i as int)[k] == a;
                        assert(ops@[k] == ops@[i as int]);
                    }
                    lemma_push_no_duplicates(kept@, a);
                }
                kept.push(a);
            }
            proof {
                assert forall|x: Address| kept@.contains(x) implies ops@.take(i + 1).contains(x) by {
                    let k = choose|k: int| 0 <= k < kept@.len() && kept@[k] == x;
                    if x != a {
                        assert(kept_before.contains(x)) by {
                            assert(kept@[k] == x);
                            if k < kept_before.len() {
                                assert(kept_before[k] == x);
                            }
                        }
                        assert(ops@.take(i as int).contains(x));
                        let j = choose|j: int| 0 <= j < i && ops@.take(i as int)[j] == x;
                        assert(ops@.take(i + 1)[j] == x);
                    } else {
                        assert(ops@.take(i + 1)[i as int] == x);
                    }
                }
            }
            i = i + 1;
        }
        proof {
            assert(ops@.take(ops@.len() as int) =~= ops@);
        }
        self.operators = Some(kept);
        Ok(())
    }

    /// The stored contract version, `CONTRACT_VERSION` before initialization.
    pub fn version(&self) -> (v: u32)
        ensures
            v == (match self.version {
                Some(v) => v,
                None => CONTRACT_VERSION,
            }),
    {
        match self.version {
            Some(v) => v,
            None => CONTRACT_VERSION,
        }
    }

    /// The bridge configuration.
    pub fn get_config(&self) -> (r: Result<BridgeConfig, BridgeError>)
        ensures
            self.config is None ==> r == Err::<BridgeConfig, BridgeError>(BridgeError::NotInitialized),
            self.config is Some ==> r is Ok && r->Ok_0.same_as(&self.config->0),
    {
        match &self.config {
            Some(c) => Ok(c.copy()),
            None => Err(BridgeError::NotInitialized),
        }
    }

    /// The admin.
    pub fn get_admin(&self) -> (r: Result<Address, BridgeError>)
        ensures
            r == (match self.admin {
                Some(a) => Ok(a),
                None => Err(BridgeError::NotInitialized),
            }),
    {
        match self.admin {
            Some(a) => Ok(a),
            None => Err(BridgeError::NotInitialized),
        }
    }

    /// The request with id `request_id`, if any.
    pub fn get_request(&self, request_id: u64) -> (r: Option<MultisigBridgeRequest>)
        requires
            self.wf(),
        ensures
            r is Some <==> self.requests@.contains_key(request_id),
            r is Some ==> r->0.same_as(&self.requests@[request_id]),
    {
        match self.requests.get(&request_id) {
            Some(q) => Some(q.copy()),
            None => None,
        }
    }

    /// The transfers recorded for `address`, oldest first.
    pub fn get_history(&self, address: Address) -> (r: Vec<BridgeTransaction>)
        requires
            self.wf(),
        ensures
            r@ == self.history_of(address),
    {
        let mut out: Vec<BridgeTransaction> = Vec::new();
        match self.histories.get(&address) {
            Some(h) => {
                let mut i: usize = 0;
                while i < h.len()
                    invariant
                        i <= h@.len(),
                        out@ == h@.take(i as int),
                    decreases h@.len() - i,
                {
                    out.push(h[i].copy());
                    i = i + 1;
                    proof {
                        assert(out@ =~= h@.take(i as int));
                    }
                }
                proof {
                    assert(h@.take(h@.len() as int) =~= h@);
                }
            },
            None => {},
        }
        out
    }

    /// The entry of chain `chain_id`, if any.
    pub fn get_chain_info(&self, chain_id: u32) -> (r: Option<ChainBridgeInfo>)
        requires
            self.wf(),
        ensures
            r is Some <==> self.chain_infos@.contains_key(chain_id),
            r is Some ==> r->0.same_as(&self.chain_infos@[chain_id]),
    {
        match self.chain_infos.get(&chain_id) {
            Some(info) => Some(info.copy()),
            None => None,
        }
    }

    /// Whether `address` is an operator.
    pub fn is_operator(&self, address: Address) -> (b: bool)
        ensures
            b == self.spec_is_operator(address),
    {
        match &self.operators {
            Some(ops) => contains_address(ops, &address),
            None => false,
        }
    }

    /// The last nonce `address` used, zero before the first.
    pub fn get_nonce(&self, address: Address) -> (n: u64)
        requires
            self.wf(),
        ensures
            n == self.nonce_of(address),
    {
        match self.nonces.get(&address) {
            Some(n) => *n,
            None => 0,
        }
    }
}

/// Replay protection: a nonce a caller has used is never accepted from them
/// again.
pub proof fn lemma_nonce_used_once(
    b: PropertyBridge,
    caller: Address,
    token_id: u64,
    destination_chain: u32,
    required_signatures: u32,
    timeout_seconds: Option<u64>,
    metadata: PropertyMetadata,
)
    ensures
        b.initiate_outcome(
            caller,
            token_id,
            destination_chain,
            required_signatures,
            timeout_seconds,
            metadata,
            b.nonce_of(caller),
        ) is Err,
{
}

/// An operator signs a request once: after approving or rejecting it, any
/// further signature of theirs on it is refused.
pub proof fn lemma_sign_once(b: PropertyBridge, operator: Address, request_id: u64, now: u64)
    requires
        b.requests@.contains_key(request_id),
        b.requests@[request_id].signatures@.contains(operator) || b.requests@[request_id].rejections@.contains(
            operator,
        ),
    ensures
        b.sign_outcome(operator, request_id, now) is Err,
{
}

/// A request is carried out at most once: a completed request is refused
/// by `execute_bridge`.
pub proof fn lemma_execute_once(b: PropertyBridge, operator: Address, request_id: u64)
    requires
        b.requests@.contains_key(request_id),
        b.requests@[request_id].status == BridgeOperationStatus::Completed,
    ensures
        b.execute_outcome(operator, request_id) is Err,
{
}

/// Only a locked request is carried out: every successful execution found
/// the request locked, that is, approved by the required number of
/// operators.
pub proof fn lemma_execute_needs_lock(b: PropertyBridge, operator: Address, request_id: u64)
    requires
        b.wf(),
        b.execute_outcome(operator, request_id) is Ok,
    ensures
        b.requests@.contains_key(request_id),
        b.requests@[request_id].status == BridgeOperationStatus::Locked,
        b.spec_is_operator(operator),
        b.requests@[request_id].signatures@.len() >= b.requests@[request_id].required_signatures,
{
}

} // verus!
