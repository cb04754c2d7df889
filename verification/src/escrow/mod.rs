//! Escrow for property transactions with multisig release.

pub mod types;
pub mod validation;

use vstd::prelude::*;
use crate::address::Address;
use crate::admin::{self, admin_state_wf, AdminError, AdminState, PendingAdmin};
use crate::sums::{
    lemma_sum_agree, lemma_sum_indicator_counts, lemma_sum_indicator_le_len, lemma_sum_update, lemma_sum_zero,
    sum_over, weight_one,
};
use crate::table::Table;
use crate::util::copy_vec;
use types::{ApprovalType, EscrowData, EscrowError, EscrowStatus, MultiSigConfig};
use validation::{
    get_admin, require_future_timestamp, require_non_zero_address, require_non_zero_u64,
    require_not_paused, require_positive_amount, require_valid_multisig,
};

verus! {

/// Version number recorded at initialization.
pub const CONTRACT_VERSION: u32 = 1;

/// Most participants an escrow may have.
pub const MAX_PARTICIPANTS: u32 = 10;

/// The stored state of the escrow contract.
pub struct AdvancedEscrow {
    pub admin: AdminState,
    pub version: Option<u32>,
    pub escrow_count: u64,
    pub paused: bool,
    /// Every escrow ever created, by id.
    pub escrows: Table<u64, EscrowData>,
    /// The signers of each escrow and how many must approve.
    pub multisig: Table<u64, MultiSigConfig>,
    /// Which signer has approved what for which escrow.
    pub signatures: Table<(u64, ApprovalType, Address), bool>,
    /// How many approvals of each kind each escrow has.
    pub sig_counts: Table<(u64, ApprovalType), u32>,
    /// The last nonce each buyer used.
    pub nonces: Table<Address, u64>,
}

/// Weight of a signer in the approval count of `(escrow_id, kind)`: one when
/// it has signed that approval.
pub open spec fn signed_weight(
    sigs: Map<(u64, ApprovalType, Address), bool>,
    escrow_id: u64,
    kind: ApprovalType,
) -> spec_fn(Address) -> int {
    |a: Address| if sigs.contains_key((escrow_id, kind, a)) { 1int } else { 0int }
}

/// A stored count, zero when none is stored.
pub open spec fn count_of(counts: Map<(u64, ApprovalType), u32>, escrow_id: u64, kind: ApprovalType) -> int {
    if counts.contains_key((escrow_id, kind)) {
        counts[(escrow_id, kind)] as int
    } else {
        0
    }
}

/// The last nonce recorded for `a`, zero when none is.
pub open spec fn nonce_of(nonces: Map<Address, u64>, a: Address) -> int {
    if nonces.contains_key(a) { nonces[a] as int } else { 0 }
}

/// Deposits agree with the escrow's status: nothing is held before funding
/// or after release, a funded escrow holds part of the amount, and an active
/// one holds all of it.
pub open spec fn escrow_balance_wf(e: EscrowData) -> bool {
    &&& e.amount > 0
    &&& 0 <= e.deposited_amount <= e.amount
    &&& e.status == EscrowStatus::Created ==> e.deposited_amount == 0
    &&& e.status == EscrowStatus::Funded ==> 0 < e.deposited_amount < e.amount
    &&& e.status == EscrowStatus::Active ==> e.deposited_amount == e.amount
    &&& e.status == EscrowStatus::Released ==> e.deposited_amount == 0
}

impl AdvancedEscrow {
    /// The signers of escrow `escrow_id`.
    pub open spec fn signers_of(&self, escrow_id: u64) -> Set<Address> {
        self.multisig@[escrow_id].signers@.to_set()
    }

    /// The escrow invariant: deposits agree with each escrow's status; each
    /// multisig configuration has between one and `MAX_PARTICIPANTS`
    /// signers, the escrow's participants, of whom it requires at most all;
    /// and approvals are only recorded for escrows that have a configuration.
    pub open spec fn wf(&self) -> bool {
        &&& self.escrows.wf()
        &&& self.multisig.wf()
        &&& self.signatures.wf()
        &&& self.sig_counts.wf()
        &&& self.nonces.wf()
        &&& admin_state_wf(self.admin)
        &&& forall|id: u64| #[trigger]
            self.escrows@.contains_key(id) <==> self.multisig@.contains_key(id)
        &&& forall|id: u64| #[trigger]
            self.escrows@.contains_key(id) ==> {
                let e = self.escrows@[id];
                &&& escrow_balance_wf(e)
                &&& e.participants@ == self.multisig@[id].signers@
            }
        &&& forall|id: u64| #[trigger]
            self.multisig@.contains_key(id) ==> {
                let m = self.multisig@[id];
                &&& 1 <= m.required_signatures <= m.signers@.len() <= MAX_PARTICIPANTS
            }
        &&& forall|k: (u64, ApprovalType, Address)| #[trigger]
            self.signatures@.contains_key(k) ==> self.multisig@.contains_key(k.0)
    }

    /// Escrows are numbered `1..=escrow_count` and carry their own id, and
    /// every approval count is the number of distinct signers of the escrow
    /// that gave that approval. Every entry point keeps this, except `init`
    /// on a contract that already holds escrows, which restarts the
    /// numbering.
    pub open spec fn consistent(&self) -> bool {
        &&& forall|id: u64| #[trigger]
            self.escrows@.contains_key(id) <==> 1 <= id <= self.escrow_count
        &&& forall|id: u64| #[trigger]
            self.escrows@.contains_key(id) ==> self.escrows@[id].id == id
        &&& forall|id: u64, kind: ApprovalType| #[trigger]
            count_of(self.sig_counts@, id, kind) == if self.multisig@.contains_key(id) {
                sum_over(self.signers_of(id), signed_weight(self.signatures@, id, kind))
            } else {
                0
            }
    }

    /// A contract that was never initialized.
    pub fn new() -> (c: AdvancedEscrow)
        ensures
            c.wf(),
            c.consistent(),
            c.admin == (AdminState { admin: None, pending: None }),
            c.version is None,
            c.escrow_count == 0,
            !c.paused,
            c.escrows@ == Map::<u64, EscrowData>::empty(),
            c.multisig@ == Map::<u64, MultiSigConfig>::empty(),
            c.signatures@ == Map::<(u64, ApprovalType, Address), bool>::empty(),
            c.sig_counts@ == Map::<(u64, ApprovalType), u32>::empty(),
            c.nonces@ == Map::<Address, u64>::empty(),
    {
        AdvancedEscrow {
            admin: AdminState::uninitialized(),
            version: None,
            escrow_count: 0,
            paused: false,
            escrows: Table::new(),
            multisig: Table::new(),
            signatures: Table::new(),
            sig_counts: Table::new(),
            nonces: Table::new(),
        }
    }

    /// Set the admin and record the contract version; the contract starts
    /// unpaused with no escrows.
    pub fn init(&mut self, admin: Address) -> (r: Result<(), EscrowError>)
        requires
            old(self).wf(),
        ensures
            final(self).wf(),
            old(self).consistent() && old(self).escrow_count == 0 ==> final(self).consistent(),
            r == (if admin.spec_is_zero() {
                Err(EscrowError::ZeroAddress)
            } else if old(self).admin.admin is Some {
                Err(EscrowError::AlreadyInitialized)
            } else {
                Ok(())
            }),
            r is Err ==> *final(self) == *old(self),
            r is Ok ==> {
                &&& final(self).admin == AdminState { admin: Some(admin), pending: old(self).admin.pending }
                &&& final(self).version == Some(CONTRACT_VERSION)
                &&& final(self).escrow_count == 0
                &&& !final(self).paused
                &&& final(self).escrows@ == old(self).escrows@
                &&& final(self).nonces@ == old(self).nonces@
                &&& final(self).multisig@ == old(self).multisig@
                &&& final(self).signatures@ == old(self).signatures@
                &&& final(self).sig_counts@ == old(self).sig_counts@
            },
    {
        match require_non_zero_address(&admin) {
            Ok(()) => {},
            Err(e) => return Err(e),
        }
        if self.admin.admin.is_some() {
            return Err(EscrowError::AlreadyInitialized);
        }
        self.admin.admin = Some(admin);
        self.version = Some(CONTRACT_VERSION);
        self.escrow_count = 0;
        self.paused = false;
        Ok(())
    }

    /// The admin, passed as `caller`, sets or clears the pause flag. The
    /// caller must have authorized the call.
    pub fn set_pause(&mut self, caller: Address, paused: bool) -> (r: Result<(), EscrowError>)
        requires
            old(self).wf(),
        ensures
            final(self).wf(),
            old(self).consistent() ==> final(self).consistent(),
            r == (if caller.spec_is_zero() {
                Err(EscrowError::ZeroAddress)
            } else if old(self).admin.admin is None {
                Err(EscrowError::NotInitialized)
            } else if caller != old(self).admin.admin->0 {
                Err(EscrowError::Unauthorized)
            } else {
                Ok(())
            }),
            r is Err ==> *final(self) == *old(self),
            r is Ok ==> *final(self) == (AdvancedEscrow { paused, ..*old(self) }),
    {
        match require_non_zero_address(&caller) {
            Ok(()) => {},
            Err(e) => return Err(e),
        }
        let admin = match get_admin(&self.admin.admin) {
            Ok(a) => a,
            Err(e) => return Err(e),
        };
        if !caller.same(&admin) {
            return Err(EscrowError::Unauthorized);
        }
        self.paused = paused;
        Ok(())
    }

    /// The checks of `create_escrow_advanced` that follow the nonce check,
    /// in order, as one result.
    pub open spec fn create_checks(
        buyer: Address,
        seller: Address,
        participants: Seq<Address>,
        required_signatures: u32,
        release_time_lock: Option<u64>,
        now: u64,
    ) -> Result<(), EscrowError> {
        if participants.len() > MAX_PARTICIPANTS {
            Err(EscrowError::TooManyParticipants)
        } else if required_signatures == 0 || participants.len() == 0 || required_signatures
            > participants.len() {
            Err(EscrowError::InvalidMultisigConfig)
        } else if buyer.spec_is_zero() || seller.spec_is_zero() {
            Err(EscrowError::ZeroAddress)
        } else if exists|i: int| 0 <= i < participants.len() && #[trigger] participants[i].spec_is_zero() {
            Err(EscrowError::ZeroAddress)
        } else if release_time_lock matches Some(t) && t <= now {
            Err(EscrowError::InvalidTimestamp)
        } else {
            Ok(())
        }
    }

    /// The counters of a creation that passes its checks stay in range.
    pub open spec fn create_fits(&self, buyer: Address) -> bool {
        &&& nonce_of(self.nonces@, buyer) < u64::MAX
        &&& self.escrow_count < u64::MAX
    }

    /// Create an escrow of `amount` for `property_id` between `buyer` and
    /// `seller`, released once `required_signatures` of `participants`
    /// approve and, when given, no earlier than `release_time_lock`. `nonce`
    /// must follow the buyer's last one, and is recorded when the escrow is
    /// created. A refused call changes nothing.
    pub fn create_escrow_advanced(
        &mut self,
        property_id: u64,
        amount: i128,
        buyer: Address,
        seller: Address,
        participants: Vec<Address>,
        required_signatures: u32,
        release_time_lock: Option<u64>,
        nonce: u64,
        now: u64,
    ) -> (r: Result<u64, EscrowError>)
        requires
            old(self).wf(),
            old(self).create_fits(buyer),
        ensures
            final(self).wf(),
            old(self).consistent() ==> final(self).consistent(),
            old(self).paused ==> r == Err::<u64, EscrowError>(EscrowError::ContractPaused)
                && *final(self) == *old(self),
            !old(self).paused && (property_id == 0 || amount <= 0) ==> r == Err::<u64, EscrowError>(
                EscrowError::InvalidParameter,
            ) && *final(self) == *old(self),
            !old(self).paused && property_id != 0 && amount > 0 && nonce != nonce_of(old(self).nonces@, buyer) + 1
                ==> r == Err::<u64, EscrowError>(EscrowError::InvalidNonce) && *final(self) == *old(self),
            !old(self).paused && property_id != 0 && amount > 0 && nonce == nonce_of(old(self).nonces@, buyer) + 1
                ==> match Self::create_checks(buyer, seller, participants@, required_signatures, release_time_lock, now) {
                    Err(e) => r == Err::<u64, EscrowError>(e) && *final(self) == *old(self),
                    Ok(()) => {
                        let id = (old(self).escrow_count + 1) as u64;
                        &&& r == Ok::<u64, EscrowError>(id)
                        &&& final(self).nonces@ == old(self).nonces@.insert(buyer, nonce)
                        &&& final(self).escrow_count == id
                        &&& final(self).escrows@ == old(self).escrows@.insert(
                            id,
                            EscrowData {
                                id,
                                property_id,
                                buyer,
                                seller,
                                amount,
                                deposited_amount: 0,
                                status: EscrowStatus::Created,
                                created_at: now,
                                release_time_lock,
                                participants,
                            },
                        )
                        &&& final(self).multisig@.dom() == old(self).multisig@.dom().insert(id)
                        &&& final(self).multisig@[id].required_signatures == required_signatures
                        &&& final(self).multisig@[id].signers@ == participants@
                        &&& forall|other: u64| other != id && #[trigger] old(self).multisig@.contains_key(other)
                            ==> final(self).multisig@[other] == old(self).multisig@[other]
                        &&& final(self).admin == old(self).admin
                        &&& final(self).version == old(self).version
                        &&& final(self).paused == old(self).paused
                        &&& final(self).signatures@ == old(self).signatures@
                        &&& final(self).sig_counts@ == old(self).sig_counts@
                    },
                },
    {
        match require_not_paused(self.paused) {
            Ok(()) => {},
            Err(e) => return Err(e),
        }
        match require_non_zero_u64(property_id) {
            Ok(()) => {},
            Err(e) => return Err(e),
        }
        match require_positive_amount(amount) {
            Ok(()) => {},
            Err(e) => return Err(e),
        }
        let current_nonce: u64 = match self.nonces.get(&buyer) {
            Some(n) => *n,
            None => 0,
        };
        if nonce != current_nonce + 1 {
            return Err(EscrowError::InvalidNonce);
        }
        if participants.len() > MAX_PARTICIPANTS as usize {
            return Err(EscrowError::TooManyParticipants);
        }
        match require_valid_multisig(required_signatures, participants.len() as u32) {
            Ok(()) => {},
            Err(e) => return Err(e),
        }
        match require_non_zero_address(&buyer) {
            Ok(()) => {},
            Err(e) => return Err(e),
        }
        match require_non_zero_address(&seller) {
            Ok(()) => {},
            Err(e) => return Err(e),
        }
        let mut i: usize = 0;
        #[verifier::loop_isolation(false)]
        while i < participants.len()
            invariant
                i <= participants@.len(),
                forall|j: int| 0 <= j < i ==> !(#[trigger] participants@[j]).spec_is_zero(),
            decreases participants@.len() - i,
        {
            match require_non_zero_address(&participants[i]) {
                Ok(()) => {},
                Err(e) => {
                    assert(participants@[i as int].spec_is_zero());
                    return Err(e);
                },
            }
            i = i + 1;
        }
        match release_time_lock {
            Some(time_lock) => {
                match require_future_timestamp(time_lock, now) {
                    Ok(()) => {},
                    Err(e) => return Err(e),
                }
            },
            None => {},
        }
        let ghost old_sigs = self.signatures@;
        let ghost old_multisig = self.multisig@;
        let ghost old_counts = self.sig_counts@;
        self.nonces.insert(buyer, nonce);
        let count = self.escrow_count + 1;
        self.escrow_count = count;
        let signers = copy_vec(&participants);
        let escrow_data = EscrowData {
            id: count,
            property_id,
            buyer,
            seller,
            amount,
            deposited_amount: 0,
            status: EscrowStatus::Created,
            created_at: now,
            release_time_lock,
            participants,
        };
        self.escrows.insert(count, escrow_data);
        self.multisig.insert(count, MultiSigConfig { required_signatures, signers });
        proof {
            if old(self).consistent() {
            assert forall|id: u64, kind: ApprovalType| #[trigger]
                count_of(self.sig_counts@, id, kind) == if self.multisig@.contains_key(id) {
                    sum_over(self.signers_of(id), signed_weight(self.signatures@, id, kind))
                } else {
                    0
                } by {
                if id == count {
                    assert(!old(self).escrows@.contains_key(id));
                    assert(!old_multisig.contains_key(id));
                    assert forall|a: Address| self.signers_of(id).contains(a) implies signed_weight(
                        self.signatures@,
                        id,
                        kind,
                    )(a) == 0 by {
                        if old_sigs.contains_key((id, kind, a)) {
                            assert(old_multisig.contains_key(id));
                        }
                    }
                    lemma_sum_zero(self.signers_of(id), signed_weight(self.signatures@, id, kind));
                    assert(!old_multisig.contains_key(id));
                    assert(count_of(old_counts, id, kind) == 0);
                } else {
                    assert(self.signers_of(id) == old(self).signers_of(id));
                }
            }
            }
        }
        Ok(count)
    }

    /// Add `amount` to the deposits of escrow `escrow_id`, which must be
    /// created or partly funded; deposits may not exceed the escrow amount.
    /// The escrow becomes active once fully funded.
    pub fn deposit_funds(&mut self, escrow_id: u64, amount: i128) -> (r: Result<(), EscrowError>)
        requires
            old(self).wf(),
        ensures
            final(self).wf(),
            old(self).consistent() ==> final(self).consistent(),
            r is Err ==> *final(self) == *old(self),
            r == (if old(self).paused {
                Err(EscrowError::ContractPaused)
            } else if escrow_id == 0 || amount <= 0 {
                Err(EscrowError::InvalidParameter)
            } else if !old(self).escrows@.contains_key(escrow_id) {
                Err(EscrowError::EscrowNotFound)
            } else if old(self).escrows@[escrow_id].status != EscrowStatus::Created
                && old(self).escrows@[escrow_id].status != EscrowStatus::Funded {
                Err(EscrowError::InvalidStatus)
            } else if old(self).escrows@[escrow_id].deposited_amount + amount > old(
                self,
            ).escrows@[escrow_id].amount {
                Err(EscrowError::DepositExceedsAmount)
            } else {
                Ok(())
            }),
            r is Ok ==> {
                let e = old(self).escrows@[escrow_id];
                let total = e.deposited_amount + amount;
                &&& final(self).escrows@ == old(self).escrows@.insert(
                    escrow_id,
                    EscrowData {
                        deposited_amount: total as i128,
                        status: if total >= e.amount {
                            EscrowStatus::Active
                        } else {
                            EscrowStatus::Funded
                        },
                        ..e
                    },
                )
                &&& Self::same_except_escrows(final(self), old(self))
            },
    {
        match require_not_paused(self.paused) {
            Ok(()) => {},
            Err(e) => return Err(e),
        }
        match require_non_zero_u64(escrow_id) {
            Ok(()) => {},
            Err(e) => return Err(e),
        }
        match require_positive_amount(amount) {
            Ok(()) => {},
            Err(e) => return Err(e),
        }
        let new_deposit_total = match self.escrows.get(&escrow_id) {
            Some(escrow) => {
                if escrow.status != EscrowStatus::Created && escrow.status != EscrowStatus::Funded {
                    return Err(EscrowError::InvalidStatus);
                }
                let total = match escrow.deposited_amount.checked_add(amount) {
                    Some(t) => t,
                    None => return Err(EscrowError::DepositExceedsAmount),
                };
                if total > escrow.amount {
                    return Err(EscrowError::DepositExceedsAmount);
                }
                total
            },
            None => return Err(EscrowError::EscrowNotFound),
        };
        let mut escrow = match self.escrows.remove(&escrow_id) {
            Some(e) => e,
            None => return Err(EscrowError::EscrowNotFound),
        };
        escrow.deposited_amount = new_deposit_total;
        escrow.status = if escrow.deposited_amount >= escrow.amount {
            EscrowStatus::Active
        } else {
            EscrowStatus::Funded
        };
        self.escrows.insert(escrow_id, escrow);
        proof {
            assert(self.escrows@.dom() =~= old(self).escrows@.dom());
        }
        Ok(())
    }

    /// Everything but the escrow records is the same in `a` and `b`.
    pub open spec fn same_except_escrows(a: &Self, b: &Self) -> bool {
        &&& a.admin == b.admin
        &&& a.version == b.version
        &&& a.escrow_count == b.escrow_count
        &&& a.paused == b.paused
        &&& a.multisig@ == b.multisig@
        &&& a.signatures@ == b.signatures@
        &&& a.sig_counts@ == b.sig_counts@
        &&& a.nonces@ == b.nonces@
    }

    /// Release the deposits of an active escrow to the seller once its time
    /// lock (if any) has passed at `now` and enough participants have
    /// approved the release. The escrow is marked released and holds nothing
    /// afterwards.
    pub fn release_funds(&mut self, escrow_id: u64, now: u64) -> (r: Result<(), EscrowError>)
        requires
            old(self).wf(),
        ensures
            final(self).wf(),
            old(self).consistent() ==> final(self).consistent(),
            r is Err ==> *final(self) == *old(self),
            r == (if old(self).paused {
                Err(EscrowError::ContractPaused)
            } else if escrow_id == 0 {
                Err(EscrowError::InvalidParameter)
            } else if !old(self).escrows@.contains_key(escrow_id) {
                Err(EscrowError::EscrowNotFound)
            } else if old(self).escrows@[escrow_id].status != EscrowStatus::Active {
                Err(EscrowError::InvalidStatus)
            } else if old(self).escrows@[escrow_id].release_time_lock matches Some(t) && now < t {
                Err(EscrowError::TimeLockActive)
            } else if !old(self).multisig@.contains_key(escrow_id) {
                Err(EscrowError::EscrowNotFound)
            } else if count_of(old(self).sig_counts@, escrow_id, ApprovalType::Release) < old(
                self,
            ).multisig@[escrow_id].required_signatures {
                Err(EscrowError::SignatureThresholdNotMet)
            } else {
                Ok(())
            }),
            r is Ok ==> {
                &&& final(self).escrows@ == old(self).escrows@.insert(
                    escrow_id,
                    EscrowData {
                        status: EscrowStatus::Released,
                        deposited_amount: 0,
                        ..old(self).escrows@[escrow_id]
                    },
                )
                &&& Self::same_except_escrows(final(self), old(self))
            },
    {
        match require_not_paused(self.paused) {
            Ok(()) => {},
            Err(e) => return Err(e),
        }
        match require_non_zero_u64(escrow_id) {
            Ok(()) => {},
            Err(e) => return Err(e),
        }
        match self.escrows.get(&escrow_id) {
            Some(escrow) => {
                if escrow.status != EscrowStatus::Active {
                    return Err(EscrowError::InvalidStatus);
                }
                match escrow.release_time_lock {
                    Some(time_lock) => {
                        if now < time_lock {
                            return Err(EscrowError::TimeLockActive);
                        }
                    },
                    None => {},
                }
            },
            None => return Err(EscrowError::EscrowNotFound),
        }
        let sig_count: u32 = match self.sig_counts.get(&(escrow_id, ApprovalType::Release)) {
            Some(c) => *c,
            None => 0,
        };
        match self.multisig.get(&escrow_id) {
            Some(config) => {
                if sig_count < config.required_signatures {
                    return Err(EscrowError::SignatureThresholdNotMet);
                }
            },
            None => return Err(EscrowError::EscrowNotFound),
        }
        let mut escrow = match self.escrows.remove(&escrow_id) {
            Some(e) => e,
            None => return Err(EscrowError::EscrowNotFound),
        };
        escrow.status = EscrowStatus::Released;
        escrow.deposited_amount = 0;
        self.escrows.insert(escrow_id, escrow);
        proof {
            assert(self.escrows@.dom() =~= old(self).escrows@.dom());
        }
        Ok(())
    }

    /// The approval count of a signature that passes its checks stays in
    /// range. A consistent contract needs no such bound: its counts never
    /// exceed the number of participants (`lemma_count_bounded`).
    pub open spec fn sign_fits(&self, escrow_id: u64, approval_type: ApprovalType, signer: Address) -> bool {
        (self.multisig@.contains_key(escrow_id) && !self.signatures@.contains_key(
            (escrow_id, approval_type, signer),
        )) ==> count_of(self.sig_counts@, escrow_id, approval_type) < u32::MAX
    }

    /// A participant of escrow `escrow_id` approves `approval_type`; each
    /// participant approves each kind at most once. The signer must have
    /// authorized the call.
    pub fn sign_approval(&mut self, escrow_id: u64, approval_type: ApprovalType, signer: Address) -> (r: Result<
        (),
        EscrowError,
    >)
        requires
            old(self).wf(),
            old(self).consistent() || old(self).sign_fits(escrow_id, approval_type, signer),
        ensures
            final(self).wf(),
            old(self).consistent() ==> final(self).consistent(),
            r is Err ==> *final(self) == *old(self),
            r == (if old(self).paused {
                Err(EscrowError::ContractPaused)
            } else if escrow_id == 0 {
                Err(EscrowError::InvalidParameter)
            } else if signer.spec_is_zero() {
                Err(EscrowError::ZeroAddress)
            } else if !old(self).multisig@.contains_key(escrow_id) {
                Err(EscrowError::EscrowNotFound)
            } else if !old(self).multisig@[escrow_id].signers@.contains(signer) {
                Err(EscrowError::Unauthorized)
            } else if old(self).signatures@.contains_key((escrow_id, approval_type, signer)) {
                Err(EscrowError::AlreadySigned)
            } else {
                Ok(())
            }),
            r is Ok ==> {
                &&& final(self).signatures@ == old(self).signatures@.insert(
                    (escrow_id, approval_type, signer),
                    true,
                )
                &&& final(self).sig_counts@ == old(self).sig_counts@.insert(
                    (escrow_id, approval_type),
                    (count_of(old(self).sig_counts@, escrow_id, approval_type) + 1) as u32,
                )
                &&& final(self).escrows@ == old(self).escrows@
                &&& final(self).multisig@ == old(self).multisig@
                &&& final(self).nonces@ == old(self).nonces@
                &&& final(self).admin == old(self).admin
                &&& final(self).escrow_count == old(self).escrow_count
                &&& final(self).paused == old(self).paused
            },
    {
        match require_not_paused(self.paused) {
            Ok(()) => {},
            Err(e) => return Err(e),
        }
        match require_non_zero_u64(escrow_id) {
            Ok(()) => {},
            Err(e) => return Err(e),
        }
        match require_non_zero_address(&signer) {
            Ok(()) => {},
            Err(e) => return Err(e),
        }
        match self.multisig.get(&escrow_id) {
            Some(config) => {
                if !crate::bridge::validation::contains_address(&config.signers, &signer) {
                    return Err(EscrowError::Unauthorized);
                }
            },
            None => return Err(EscrowError::EscrowNotFound),
        }
        if self.signatures.contains(&(escrow_id, approval_type, signer)) {
            return Err(EscrowError::AlreadySigned);
        }
        proof {
            if old(self).consistent() {
                old(self).lemma_count_bounded(escrow_id, approval_type);
            }
        }
        let ghost old_sigs = self.signatures@;
        self.signatures.insert((escrow_id, approval_type, signer), true);
        let count: u32 = match self.sig_counts.get(&(escrow_id, approval_type)) {
            Some(c) => *c,
            None => 0,
        };
        self.sig_counts.insert((escrow_id, approval_type), count + 1);
        proof {
            if old(self).consistent() {
                assert forall|id: u64, kind: ApprovalType| #[trigger]
                    count_of(self.sig_counts@, id, kind) == if self.multisig@.contains_key(id) {
                        sum_over(self.signers_of(id), signed_weight(self.signatures@, id, kind))
                    } else {
                        0
                    } by {
                    let s = self.signers_of(id);
                    assert(count_of(old(self).sig_counts@, id, kind) == if old(self).multisig@.contains_key(id) {
                        sum_over(old(self).signers_of(id), signed_weight(old_sigs, id, kind))
                    } else {
                        0
                    });
                    if self.multisig@.contains_key(id) {
                        if id == escrow_id && kind == approval_type {
                            assert(s.contains(signer));
                            assert(s.insert(signer) =~= s);
                            lemma_sum_update(
                                s,
                                signed_weight(old_sigs, id, kind),
                                signed_weight(self.signatures@, id, kind),
                                signer,
                            );
                        } else {
                            lemma_sum_agree(
                                s,
                                signed_weight(old_sigs, id, kind),
                                signed_weight(self.signatures@, id, kind),
                            );
                        }
                    }
                }
            }
        }
        Ok(())
    }

    /// Approval counts count distinct signers: in a consistent contract the
    /// count of `approval_type` approvals of escrow `escrow_id` is the number
    /// of distinct participants of that escrow who gave it, and so at most
    /// the number of participants.
    pub proof fn lemma_count_bounded(&self, escrow_id: u64, approval_type: ApprovalType)
        requires
            self.wf(),
            self.consistent(),
            self.multisig@.contains_key(escrow_id),
        ensures
            count_of(self.sig_counts@, escrow_id, approval_type) == self.signers_of(escrow_id).filter(
                |a: Address| self.signatures@.contains_key((escrow_id, approval_type, a)),
            ).len(),
            count_of(self.sig_counts@, escrow_id, approval_type) <= self.multisig@[escrow_id].signers@.len(),
    {
        let s = self.signers_of(escrow_id);
        let w = signed_weight(self.signatures@, escrow_id, approval_type);
        self.multisig@[escrow_id].signers@.lemma_cardinality_of_set();
        lemma_sum_indicator_le_len(s, w);
        lemma_sum_indicator_counts(s, w);
        assert(weight_one(s, w) =~= s.filter(
            |a: Address| self.signatures@.contains_key((escrow_id, approval_type, a)),
        ));
    }

    /// The recorded version, the current one when none is recorded.
    pub fn version(&self) -> (v: u32)
        ensures
            v == match self.version {
                Some(v) => v,
                None => CONTRACT_VERSION,
            },
    {
        match self.version {
            Some(v) => v,
            None => CONTRACT_VERSION,
        }
    }

    /// The current admin; `NotInitialized` before initialization.
    pub fn get_admin(&self) -> (r: Result<Address, EscrowError>)
        ensures
            r == (match self.admin.admin {
                Some(a) => Ok(a),
                None => Err(EscrowError::NotInitialized),
            }),
    {
        get_admin(&self.admin.admin)
    }

    /// Whether the contract is paused.
    pub fn is_paused(&self) -> (b: bool)
        ensures
            b == self.paused,
    {
        self.paused
    }

    /// The escrow with id `escrow_id`, if any.
    pub fn get_escrow(&self, escrow_id: u64) -> (r: Option<&EscrowData>)
        requires
            self.wf(),
        ensures
            match r {
                Some(e) => self.escrows@.contains_key(escrow_id) && *e == self.escrows@[escrow_id],
                None => !self.escrows@.contains_key(escrow_id),
            },
    {
        self.escrows.get(&escrow_id)
    }

    /// The number of escrows created.
    pub fn get_escrow_count(&self) -> (n: u64)
        ensures
            n == self.escrow_count,
    {
        self.escrow_count
    }

    /// The multisig configuration of escrow `escrow_id`, if any.
    pub fn get_multisig_config(&self, escrow_id: u64) -> (r: Option<&MultiSigConfig>)
        requires
            self.wf(),
        ensures
            match r {
                Some(m) => self.multisig@.contains_key(escrow_id) && *m == self.multisig@[escrow_id],
                None => !self.multisig@.contains_key(escrow_id),
            },
    {
        self.multisig.get(&escrow_id)
    }

    /// How many participants approved `approval_type` for escrow `escrow_id`.
    pub fn get_sig_count(&self, escrow_id: u64, approval_type: ApprovalType) -> (n: u32)
        requires
            self.wf(),
        ensures
            n == count_of(self.sig_counts@, escrow_id, approval_type),
    {
        match self.sig_counts.get(&(escrow_id, approval_type)) {
            Some(c) => *c,
            None => 0,
        }
    }

    /// The last nonce `address` used, zero when none.
    pub fn get_nonce(&self, address: Address) -> (n: u64)
        requires
            self.wf(),
        ensures
            n == nonce_of(self.nonces@, address),
    {
        match self.nonces.get(&address) {
            Some(n) => *n,
            None => 0,
        }
    }

    /// Nominate `new_admin`, acceptable once `delay_seconds` have elapsed
    /// after `now`. The current admin must have authorized the call.
    pub fn transfer_admin(&mut self, new_admin: Address, delay_seconds: u64, now: u64) -> (r: Result<
        (),
        AdminError,
    >)
        requires
            old(self).wf(),
        ensures
            final(self).wf(),
            old(self).consistent() ==> final(self).consistent(),
            match admin::propose_outcome(old(self).admin, new_admin, delay_seconds, now) {
                Ok(s) => r == Ok::<(), AdminError>(()) && *final(self) == (AdvancedEscrow { admin: s, ..*old(self) }),
                Err(e) => r == Err::<(), AdminError>(e) && *final(self) == *old(self),
            },
    {
        admin::propose_transfer(&mut self.admin, new_admin, delay_seconds, now)
    }

    /// The nominee accepts the outstanding nomination at `now`. The nominee
    /// must have authorized the call.
    pub fn accept_admin(&mut self, now: u64) -> (r: Result<(), AdminError>)
        requires
            old(self).wf(),
        ensures
            final(self).wf(),
            old(self).consistent() ==> final(self).consistent(),
            match admin::accept_outcome(old(self).admin, now) {
                Ok(s) => r == Ok::<(), AdminError>(()) && *final(self) == (AdvancedEscrow { admin: s, ..*old(self) }),
                Err(e) => r == Err::<(), AdminError>(e) && *final(self) == *old(self),
            },
    {
        admin::accept_transfer(&mut self.admin, now)
    }

    /// The admin withdraws the outstanding nomination. The admin must have
    /// authorized the call.
    pub fn cancel_admin_transfer(&mut self) -> (r: Result<(), AdminError>)
        requires
            old(self).wf(),
        ensures
            final(self).wf(),
            old(self).consistent() ==> final(self).consistent(),
            match admin::cancel_outcome(old(self).admin) {
                Ok(s) => r == Ok::<(), AdminError>(()) && *final(self) == (AdvancedEscrow { admin: s, ..*old(self) }),
                Err(e) => r == Err::<(), AdminError>(e) && *final(self) == *old(self),
            },
    {
        admin::cancel_transfer(&mut self.admin)
    }

    /// The outstanding nomination, if any.
    pub fn get_pending_admin(&self) -> (r: Option<PendingAdmin>)
        ensures
            r == self.admin.pending,
    {
        admin::read_pending(&self.admin)
    }
}

} // verus!
