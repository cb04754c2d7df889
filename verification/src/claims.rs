//! Insurance claims: submission against an active policy, review, approval,
//! settlement from the risk pool, withdrawal, dispute and expiry.

use vstd::prelude::*;
use crate::address::Address;
use crate::admin::{self, admin_state_wf, AdminError, AdminState, PendingAdmin};
use crate::insurance_types::{ClaimError, ClaimStatus, InsuranceClaim, InsurancePolicy};
use crate::table::Table;
use crate::util::copy_vec;

verus! {

/// Claim-resolution deadline used when none was configured (thirty days).
pub const DEFAULT_DEADLINE_SECONDS: u64 = 2592000;

/// How long after its rejection a claim may be disputed (seven days).
pub const DISPUTE_WINDOW_SECONDS: u64 = 604800;

/// A claim in one of these states is in flight.
pub open spec fn spec_is_active_status(status: ClaimStatus) -> bool {
    status == ClaimStatus::Submitted || status == ClaimStatus::UnderReview || status
        == ClaimStatus::Approved || status == ClaimStatus::Disputed
}

/// Whether a claim is in flight.
pub fn is_active_status(status: &ClaimStatus) -> (b: bool)
    ensures
        b == spec_is_active_status(*status),
{
    match status {
        ClaimStatus::Submitted | ClaimStatus::UnderReview | ClaimStatus::Approved
        | ClaimStatus::Disputed => true,
        _ => false,
    }
}

/// A claim has expired at `now`: its deadline has passed while it is still in
/// flight.
pub open spec fn spec_is_expired(claim: InsuranceClaim, now: u64) -> bool {
    match claim.deadline {
        Some(deadline) => spec_is_active_status(claim.status) && now > deadline,
        None => false,
    }
}

/// Whether a claim has expired at `now`.
pub fn is_expired(claim: &InsuranceClaim, now: u64) -> (b: bool)
    ensures
        b == spec_is_expired(*claim, now),
{
    match claim.deadline {
        Some(deadline) => is_active_status(&claim.status) && now > deadline,
        None => false,
    }
}

/// What the risk pool and the policy contract must be told when a claim is
/// settled: pay `amount` to `claimant`, and add `amount` to the claimed total
/// of policy `policy_id`.
#[derive(Clone, Copy, Debug, PartialEq, Eq, Structural)]
pub struct SettlementOrder {
    pub risk_pool: Address,
    pub policy_contract: Address,
    pub claimant: Address,
    pub amount: i128,
    pub policy_id: u64,
}

/// The stored state of the claims contract.
pub struct ClaimsContract {
    pub admin: AdminState,
    pub policy_contract: Option<Address>,
    pub risk_pool: Option<Address>,
    pub claim_counter: u64,
    /// Every claim ever submitted, by id.
    pub claims: Table<u64, InsuranceClaim>,
    /// For each policy with a claim in flight, the id of that claim.
    pub active_claims: Table<u64, u64>,
    /// For each policy, the ids of all claims submitted against it.
    pub policy_claims: Table<u64, Vec<u64>>,
    pub default_deadline_seconds: Option<u64>,
    /// For each claim that has been rejected, when it was last rejected.
    pub rejected_at: Table<u64, u64>,
}

/// The claim with every field of `c` but the status.
pub open spec fn with_status(c: InsuranceClaim, status: ClaimStatus) -> InsuranceClaim {
    InsuranceClaim { status, ..c }
}

/// A field-by-field copy of a claim.
pub fn copy_claim(c: &InsuranceClaim) -> (r: InsuranceClaim)
    ensures
        r == *c,
{
    let dispute_reason = match &c.dispute_reason {
        Some(reason) => Some(reason.clone()),
        None => None,
    };
    InsuranceClaim {
        claim_id: c.claim_id,
        policy_id: c.policy_id,
        claimant: c.claimant,
        amount: c.amount,
        status: c.status,
        submitted_at: c.submitted_at,
        reviewed_at: c.reviewed_at,
        approved_at: c.approved_at,
        settled_at: c.settled_at,
        description: c.description.clone(),
        deadline: c.deadline,
        dispute_reason,
    }
}

/// The claims and active index after expiring, in order, each listed claim
/// that has expired at `now`, and how many were expired.
pub open spec fn expire_run(
    claims: Map<u64, InsuranceClaim>,
    active: Map<u64, u64>,
    ids: Seq<u64>,
    now: u64,
) -> (Map<u64, InsuranceClaim>, Map<u64, u64>, nat)
    decreases ids.len(),
{
    if ids.len() == 0 {
        (claims, active, 0)
    } else {
        let (c0, a0, n0) = expire_run(claims, active, ids.drop_last(), now);
        let id = ids.last();
        if c0.contains_key(id) && spec_is_expired(c0[id], now) {
            (
                c0.insert(id, with_status(c0[id], ClaimStatus::Expired)),
                a0.remove(c0[id].policy_id),
                n0 + 1,
            )
        } else {
            (c0, a0, n0)
        }
    }
}

impl ClaimsContract {
    /// The ids of the claims submitted against `policy_id`.
    pub open spec fn claims_of_policy(&self, policy_id: u64) -> Seq<u64> {
        if self.policy_claims@.contains_key(policy_id) {
            self.policy_claims@[policy_id]@
        } else {
            Seq::empty()
        }
    }

    /// The claims contract's invariant: claims are numbered `1..=claim_counter`
    /// and carry their own id; the active-claim index only points at claims
    /// of that policy that are in flight; the per-policy lists only hold
    /// claims of that policy; every rejected claim has its rejection time on
    /// record; and the admin slots are well formed.
    pub open spec fn wf(&self) -> bool {
        &&& self.claims.wf()
        &&& self.active_claims.wf()
        &&& self.policy_claims.wf()
        &&& self.rejected_at.wf()
        &&& admin_state_wf(self.admin)
        &&& forall|id: u64| #[trigger]
            self.claims@.contains_key(id) <==> 1 <= id <= self.claim_counter
        &&& forall|id: u64| #[trigger]
            self.claims@.contains_key(id) ==> self.claims@[id].claim_id == id
        &&& forall|id: u64| #[trigger]
            self.claims@.contains_key(id) && self.claims@[id].status == ClaimStatus::Rejected
                ==> self.rejected_at@.contains_key(id)
        &&& forall|p: u64| #[trigger]
            self.active_claims@.contains_key(p) ==> {
                let id = self.active_claims@[p];
                &&& self.claims@.contains_key(id)
                &&& self.claims@[id].policy_id == p
                &&& spec_is_active_status(self.claims@[id].status)
            }
        &&& forall|p: u64, i: int| #![trigger self.policy_claims@[p]@[i]]
            self.policy_claims@.contains_key(p) && 0 <= i < self.policy_claims@[p]@.len() ==> {
                &&& self.claims@.contains_key(self.policy_claims@[p]@[i])
                &&& self.claims@[self.policy_claims@[p]@[i]].policy_id == p
            }
        &&& (self.admin.admin is None <==> self.policy_contract is None)
        &&& (self.admin.admin is None <==> self.risk_pool is None)
        &&& (self.admin.admin is None <==> self.default_deadline_seconds is None)
        &&& self.admin.admin is None ==> {
            &&& self.claim_counter == 0
            &&& self.active_claims@ == Map::<u64, u64>::empty()
            &&& self.policy_claims@ == Map::<u64, Vec<u64>>::empty()
        }
    }

    /// Everything but the claims, the active index and the per-policy lists
    /// is the same in `a` and `b`.
    pub open spec fn same_settings(a: &Self, b: &Self) -> bool {
        &&& a.admin == b.admin
        &&& a.policy_contract == b.policy_contract
        &&& a.risk_pool == b.risk_pool
        &&& a.claim_counter == b.claim_counter
        &&& a.default_deadline_seconds == b.default_deadline_seconds
    }

    /// A contract that was never initialized.
    pub fn new() -> (c: ClaimsContract)
        ensures
            c.wf(),
            c.admin == (AdminState { admin: None, pending: None }),
            c.policy_contract is None,
            c.risk_pool is None,
            c.claim_counter == 0,
            c.claims@ == Map::<u64, InsuranceClaim>::empty(),
            c.active_claims@ == Map::<u64, u64>::empty(),
            c.policy_claims@ == Map::<u64, Vec<u64>>::empty(),
            c.default_deadline_seconds is None,
            c.rejected_at@ == Map::<u64, u64>::empty(),
    {
        ClaimsContract {
            admin: AdminState::uninitialized(),
            policy_contract: None,
            risk_pool: None,
            claim_counter: 0,
            claims: Table::new(),
            active_claims: Table::new(),
            policy_claims: Table::new(),
            default_deadline_seconds: None,
            rejected_at: Table::new(),
        }
    }

    /// Set the admin, the policy contract and the risk pool (three distinct
    /// addresses) and the claim-resolution deadline, thirty days when none is
    /// given.
    pub fn initialize(
        &mut self,
        admin: Address,
        policy_contract: Address,
        risk_pool: Address,
        default_deadline_seconds: Option<u64>,
    ) -> (r: Result<(), ClaimError>)
        requires
            old(self).wf(),
        ensures
            final(self).wf(),
            r == (if old(self).admin.admin is Some {
                Err(ClaimError::AlreadyInitialized)
            } else if admin == policy_contract || admin == risk_pool || policy_contract == risk_pool {
                Err(ClaimError::InvalidAddress)
            } else {
                Ok(())
            }),
            r is Err ==> *final(self) == *old(self),
            r is Ok ==> {
                &&& final(self).admin == AdminState { admin: Some(admin), pending: old(self).admin.pending }
                &&& final(self).policy_contract == Some(policy_contract)
                &&& final(self).risk_pool == Some(risk_pool)
                &&& final(self).claim_counter == 0
                &&& final(self).default_deadline_seconds == Some(
                    match default_deadline_seconds {
                        Some(d) => d,
                        None => DEFAULT_DEADLINE_SECONDS,
                    },
                )
                &&& final(self).claims@ == old(self).claims@
                &&& final(self).active_claims@ == old(self).active_claims@
                &&& final(self).policy_claims@ == old(self).policy_claims@
                &&& final(self).rejected_at@ == old(self).rejected_at@
            },
    {
        if self.admin.admin.is_some() {
            return Err(ClaimError::AlreadyInitialized);
        }
        if admin.same(&policy_contract) || admin.same(&risk_pool) || policy_contract.same(&risk_pool) {
            return Err(ClaimError::InvalidAddress);
        }
        self.admin.admin = Some(admin);
        self.policy_contract = Some(policy_contract);
        self.risk_pool = Some(risk_pool);
        self.claim_counter = 0;
        let deadline: u64 = match default_deadline_seconds {
            Some(d) => d,
            None => DEFAULT_DEADLINE_SECONDS,
        };
        self.default_deadline_seconds = Some(deadline);
        Ok(())
    }

    /// Everything but the claims and the active index is the same in `a` and
    /// `b`.
    pub open spec fn same_except_claims(a: &Self, b: &Self) -> bool {
        &&& Self::same_settings(a, b)
        &&& a.policy_claims@ == b.policy_claims@
        &&& a.rejected_at@ == b.rejected_at@
    }

    /// A copy of the stored claim `claim_id`.
    fn read_claim(&self, claim_id: u64) -> (r: Result<InsuranceClaim, ClaimError>)
        requires
            self.wf(),
        ensures
            match r {
                Ok(c) => self.claims@.contains_key(claim_id) && c == self.claims@[claim_id],
                Err(e) => !self.claims@.contains_key(claim_id) && e == ClaimError::ClaimNotFound,
            },
    {
        match self.claims.get(&claim_id) {
            Some(c) => Ok(copy_claim(c)),
            None => Err(ClaimError::ClaimNotFound),
        }
    }

    /// Drop the active-claim entry of `policy_id`.
    fn clear_active(&mut self, policy_id: u64)
        requires
            old(self).wf(),
        ensures
            final(self).wf(),
            final(self).active_claims@ == old(self).active_claims@.remove(policy_id),
            final(self).claims@ == old(self).claims@,
            Self::same_except_claims(final(self), old(self)),
    {
        self.active_claims.remove(&policy_id);
        proof {
            if self.admin.admin is None {
                assert(self.active_claims@ =~= Map::<u64, u64>::empty());
            }
        }
    }

    /// Store `claim` as the new state of claim `claim_id`. The claim keeps its
    /// id and policy, and no active-claim entry may point at it once it has
    /// left the in-flight states.
    fn store_claim(&mut self, claim_id: u64, claim: InsuranceClaim)
        requires
            old(self).wf(),
            old(self).claims@.contains_key(claim_id),
            claim.claim_id == claim_id,
            claim.policy_id == old(self).claims@[claim_id].policy_id,
            !spec_is_active_status(claim.status) ==> forall|p: u64| #[trigger]
                old(self).active_claims@.contains_key(p) ==> old(self).active_claims@[p] != claim_id,
            claim.status == ClaimStatus::Rejected ==> old(self).rejected_at@.contains_key(claim_id),
        ensures
            final(self).wf(),
            final(self).claims@ == old(self).claims@.insert(claim_id, claim),
            final(self).active_claims@ == old(self).active_claims@,
            Self::same_except_claims(final(self), old(self)),
    {
        self.claims.insert(claim_id, claim);
        proof {
            assert(self.claims@.dom() =~= old(self).claims@.dom());
        }
    }

    /// Mark claim `claim_id`, whose deadline has passed while it was in
    /// flight, as expired and drop its policy's active-claim entry.
    fn mark_expired(&mut self, claim_id: u64, claim: InsuranceClaim)
        requires
            old(self).wf(),
            old(self).claims@.contains_key(claim_id),
            claim == old(self).claims@[claim_id],
        ensures
            final(self).wf(),
            final(self).claims@ == old(self).claims@.insert(
                claim_id,
                with_status(claim, ClaimStatus::Expired),
            ),
            final(self).active_claims@ == old(self).active_claims@.remove(claim.policy_id),
            Self::same_except_claims(final(self), old(self)),
    {
        let policy_id = claim.policy_id;
        self.clear_active(policy_id);
        let mut c = claim;
        c.status = ClaimStatus::Expired;
        self.store_claim(claim_id, c);
    }

    /// The claim-resolution deadline in force.
    pub open spec fn deadline_seconds(&self) -> u64 {
        match self.default_deadline_seconds {
            Some(d) => d,
            None => DEFAULT_DEADLINE_SECONDS,
        }
    }

    /// No arithmetic of a submission that passes its checks leaves its type.
    pub open spec fn submit_fits(&self, amount: i128, policy: InsurancePolicy, now: u64) -> bool {
        &&& amount > 0 ==> i128::MIN <= amount + policy.total_claimed <= i128::MAX
        &&& self.claim_counter < u64::MAX
        &&& now + self.deadline_seconds() <= u64::MAX
    }

    /// The claim a submission creates.
    pub open spec fn submitted_claim(
        &self,
        policy_id: u64,
        amount: i128,
        description: String,
        policy: InsurancePolicy,
        now: u64,
    ) -> InsuranceClaim {
        InsuranceClaim {
            claim_id: (self.claim_counter + 1) as u64,
            policy_id,
            claimant: policy.holder,
            amount,
            status: ClaimStatus::Submitted,
            submitted_at: now,
            reviewed_at: None,
            approved_at: None,
            settled_at: None,
            description,
            deadline: Some((now + self.deadline_seconds()) as u64),
            dispute_reason: None,
        }
    }

    /// Submit a claim of `amount` against policy `policy_id`. `policy` is
    /// the policy contract's record of that policy when it reported the
    /// policy active, and `None` when it reported it inactive (the record is
    /// then not fetched). The policy holder becomes the claimant and must
    /// have authorized the call. The claim's deadline is `now` plus the
    /// configured deadline.
    pub fn submit_claim(
        &mut self,
        policy_id: u64,
        amount: i128,
        description: String,
        policy: Option<&InsurancePolicy>,
        now: u64,
    ) -> (r: Result<u64, ClaimError>)
        requires
            old(self).wf(),
            old(self).policy_contract is Some,
            policy is Some ==> old(self).submit_fits(amount, *policy.unwrap(), now),
        ensures
            final(self).wf(),
            r == (if policy is None {
                Err(ClaimError::PolicyNotActive)
            } else if amount <= 0 || amount + policy.unwrap().total_claimed > policy.unwrap().coverage_amount {
                Err(ClaimError::ClaimAmountInvalid)
            } else if old(self).active_claims@.contains_key(policy_id) {
                Err(ClaimError::PolicyHasActiveClaim)
            } else {
                Ok((old(self).claim_counter + 1) as u64)
            }),
            r is Err ==> *final(self) == *old(self),
            r matches Ok(id) ==> {
                &&& final(self).claim_counter == id
                &&& final(self).claims@ == old(self).claims@.insert(
                    id,
                    old(self).submitted_claim(policy_id, amount, description, *policy.unwrap(), now),
                )
                &&& final(self).active_claims@ == old(self).active_claims@.insert(policy_id, id)
                &&& final(self).policy_claims@.dom() == old(self).policy_claims@.dom().insert(policy_id)
                &&& final(self).claims_of_policy(policy_id) == old(self).claims_of_policy(policy_id).push(id)
                &&& forall|p: u64| p != policy_id ==> #[trigger] final(self).claims_of_policy(p)
                    == old(self).claims_of_policy(p)
                &&& final(self).admin == old(self).admin
                &&& final(self).policy_contract == old(self).policy_contract
                &&& final(self).risk_pool == old(self).risk_pool
                &&& final(self).default_deadline_seconds == old(self).default_deadline_seconds
                &&& final(self).rejected_at@ == old(self).rejected_at@
            },
    {
        let policy = match policy {
            Some(p) => p,
            None => return Err(ClaimError::PolicyNotActive),
        };
        if amount <= 0 || amount + policy.total_claimed > policy.coverage_amount {
            return Err(ClaimError::ClaimAmountInvalid);
        }
        if self.active_claims.contains(&policy_id) {
            return Err(ClaimError::PolicyHasActiveClaim);
        }
        let ghost old_self_claims = self.claims@;
        let ghost old_lists = self.policy_claims@;
        let ghost expected = self.submitted_claim(policy_id, amount, description, *policy, now);
        let counter = self.claim_counter + 1;
        self.claim_counter = counter;
        let deadline_seconds: u64 = match self.default_deadline_seconds {
            Some(d) => d,
            None => DEFAULT_DEADLINE_SECONDS,
        };
        let claim = InsuranceClaim {
            claim_id: counter,
            policy_id,
            claimant: policy.holder,
            amount,
            status: ClaimStatus::Submitted,
            submitted_at: now,
            reviewed_at: None,
            approved_at: None,
            settled_at: None,
            description,
            deadline: Some(now + deadline_seconds),
            dispute_reason: None,
        };
        assert(claim == expected);
        assert(!old_self_claims.contains_key(counter));
        self.claims.insert(counter, claim);
        let mut list: Vec<u64> = match self.policy_claims.remove(&policy_id) {
            Some(l) => l,
            None => Vec::new(),
        };
        list.push(counter);
        self.policy_claims.insert(policy_id, list);
        self.active_claims.insert(policy_id, counter);
        proof {
            assert(self.policy_claims@.dom() =~= old_lists.dom().insert(policy_id));
            assert forall|p: u64, i: int| #![trigger self.policy_claims@[p]@[i]]
                self.policy_claims@.contains_key(p) && 0 <= i < self.policy_claims@[p]@.len() implies {
                &&& self.claims@.contains_key(self.policy_claims@[p]@[i])
                &&& self.claims@[self.policy_claims@[p]@[i]].policy_id == p
            } by {
                if p == policy_id {
                    if i < self.policy_claims@[p]@.len() - 1 {
                        assert(old_lists.contains_key(p));
                        assert(self.policy_claims@[p]@[i] == old_lists[p]@[i]);
                    }
                } else {
                    assert(self.policy_claims@[p] == old_lists[p]);
                }
            }
            assert forall|p: u64| p != policy_id implies #[trigger] self.claims_of_policy(p)
                == old(self).claims_of_policy(p) by {
                if old_lists.contains_key(p) {
                    assert(self.policy_claims@[p] == old_lists[p]);
                }
            }
        }
        Ok(counter)
    }

    /// `new` is `old` with claim `claim_id` marked expired and its policy's
    /// active-claim entry dropped.
    pub open spec fn expired_from(old: &Self, new: &Self, claim_id: u64) -> bool {
        let c = old.claims@[claim_id];
        &&& new.claims@ == old.claims@.insert(claim_id, with_status(c, ClaimStatus::Expired))
        &&& new.active_claims@ == old.active_claims@.remove(c.policy_id)
        &&& Self::same_except_claims(new, old)
    }

    /// `new` is `old` with claim `claim_id` replaced by `c` and the active
    /// index untouched.
    pub open spec fn updated_from(old: &Self, new: &Self, claim_id: u64, c: InsuranceClaim) -> bool {
        &&& new.claims@ == old.claims@.insert(claim_id, c)
        &&& new.active_claims@ == old.active_claims@
        &&& Self::same_except_claims(new, old)
    }

    /// `new` is `old` with claim `claim_id` replaced by `c` and its policy's
    /// active-claim entry dropped.
    pub open spec fn closed_from(old: &Self, new: &Self, claim_id: u64, c: InsuranceClaim) -> bool {
        &&& new.claims@ == old.claims@.insert(claim_id, c)
        &&& new.active_claims@ == old.active_claims@.remove(old.claims@[claim_id].policy_id)
        &&& Self::same_except_claims(new, old)
    }

    /// The admin moves a claim to review at `now`: a submitted claim, or a
    /// disputed one, which is thereby reviewed again. A claim whose deadline
    /// has passed is refused with `ClaimExpired` (it is left for
    /// `expire_claim`). The admin must have authorized the call.
    pub fn start_review(&mut self, claim_id: u64, now: u64) -> (r: Result<(), ClaimError>)
        requires
            old(self).wf(),
        ensures
            final(self).wf(),
            old(self).admin.admin is None ==> r == Err::<(), ClaimError>(ClaimError::Unauthorized),
            old(self).admin.admin is Some && !old(self).claims@.contains_key(claim_id) ==> r == Err::<
                (),
                ClaimError,
            >(ClaimError::ClaimNotFound),
            old(self).admin.admin is Some && old(self).claims@.contains_key(claim_id) ==> {
                let c = old(self).claims@[claim_id];
                if spec_is_expired(c, now) {
                    r == Err::<(), ClaimError>(ClaimError::ClaimExpired)
                } else if c.status != ClaimStatus::Submitted && c.status != ClaimStatus::Disputed {
                    r == Err::<(), ClaimError>(ClaimError::InvalidStatusTransition)
                } else {
                    r == Ok::<(), ClaimError>(()) && Self::updated_from(
                        old(self),
                        final(self),
                        claim_id,
                        InsuranceClaim { status: ClaimStatus::UnderReview, reviewed_at: Some(now), ..c },
                    )
                }
            },
            r is Err ==> *final(self) == *old(self),
    {
        if self.admin.admin.is_none() {
            return Err(ClaimError::Unauthorized);
        }
        let mut claim = match self.read_claim(claim_id) {
            Ok(c) => c,
            Err(e) => return Err(e),
        };
        if is_expired(&claim, now) {
            return Err(ClaimError::ClaimExpired);
        }
        if claim.status != ClaimStatus::Submitted && claim.status != ClaimStatus::Disputed {
            return Err(ClaimError::InvalidStatusTransition);
        }
        claim.status = ClaimStatus::UnderReview;
        claim.reviewed_at = Some(now);
        self.store_claim(claim_id, claim);
        Ok(())
    }

    /// The admin approves a claim under review at `now`. A claim whose
    /// deadline has passed is refused with `ClaimExpired`. The admin must
    /// have authorized the call.
    pub fn approve_claim(&mut self, claim_id: u64, now: u64) -> (r: Result<(), ClaimError>)
        requires
            old(self).wf(),
        ensures
            final(self).wf(),
            old(self).admin.admin is None ==> r == Err::<(), ClaimError>(ClaimError::Unauthorized),
            old(self).admin.admin is Some && !old(self).claims@.contains_key(claim_id) ==> r == Err::<
                (),
                ClaimError,
            >(ClaimError::ClaimNotFound),
            old(self).admin.admin is Some && old(self).claims@.contains_key(claim_id) ==> {
                let c = old(self).claims@[claim_id];
                if spec_is_expired(c, now) {
                    r == Err::<(), ClaimError>(ClaimError::ClaimExpired)
                } else if c.status != ClaimStatus::UnderReview {
                    r == Err::<(), ClaimError>(ClaimError::InvalidStatusTransition)
                } else {
                    r == Ok::<(), ClaimError>(()) && Self::updated_from(
                        old(self),
                        final(self),
                        claim_id,
                        InsuranceClaim { status: ClaimStatus::Approved, approved_at: Some(now), ..c },
                    )
                }
            },
            r is Err ==> *final(self) == *old(self),
    {
        if self.admin.admin.is_none() {
            return Err(ClaimError::Unauthorized);
        }
        let mut claim = match self.read_claim(claim_id) {
            Ok(c) => c,
            Err(e) => return Err(e),
        };
        if is_expired(&claim, now) {
            return Err(ClaimError::ClaimExpired);
        }
        if claim.status != ClaimStatus::UnderReview {
            return Err(ClaimError::InvalidStatusTransition);
        }
        claim.status = ClaimStatus::Approved;
        claim.approved_at = Some(now);
        self.store_claim(claim_id, claim);
        Ok(())
    }

    /// The admin rejects a claim under review at `now`, which frees its
    /// policy for a new claim and opens the claimant's dispute window. The
    /// admin must have authorized the call.
    pub fn reject_claim(&mut self, claim_id: u64, now: u64) -> (r: Result<(), ClaimError>)
        requires
            old(self).wf(),
        ensures
            final(self).wf(),
            old(self).admin.admin is None ==> r == Err::<(), ClaimError>(ClaimError::Unauthorized),
            old(self).admin.admin is Some && !old(self).claims@.contains_key(claim_id) ==> r == Err::<
                (),
                ClaimError,
            >(ClaimError::ClaimNotFound),
            old(self).admin.admin is Some && old(self).claims@.contains_key(claim_id) ==> {
                let c = old(self).claims@[claim_id];
                if c.status != ClaimStatus::UnderReview {
                    r == Err::<(), ClaimError>(ClaimError::InvalidStatusTransition)
                } else {
                    &&& r == Ok::<(), ClaimError>(())
                    &&& final(self).claims@ == old(self).claims@.insert(
                        claim_id,
                        with_status(c, ClaimStatus::Rejected),
                    )
                    &&& final(self).active_claims@ == old(self).active_claims@.remove(c.policy_id)
                    &&& final(self).rejected_at@ == old(self).rejected_at@.insert(claim_id, now)
                    &&& final(self).policy_claims@ == old(self).policy_claims@
                    &&& Self::same_settings(final(self), old(self))
                }
            },
            r is Err ==> *final(self) == *old(self),
    {
        if self.admin.admin.is_none() {
            return Err(ClaimError::Unauthorized);
        }
        let mut claim = match self.read_claim(claim_id) {
            Ok(c) => c,
            Err(e) => return Err(e),
        };
        if claim.status != ClaimStatus::UnderReview {
            return Err(ClaimError::InvalidStatusTransition);
        }
        let policy_id = claim.policy_id;
        self.clear_active(policy_id);
        self.rejected_at.insert(claim_id, now);
        claim.status = ClaimStatus::Rejected;
        self.store_claim(claim_id, claim);
        Ok(())
    }

    /// The first half of a settlement, run before the risk pool is asked
    /// for its available capital: the admin's checks that the claim is
    /// approved and its deadline has not passed (`ClaimExpired` otherwise).
    /// Nothing changes; the returned order names the claimant, the amount and
    /// the contracts to call. The admin must have authorized the call.
    pub fn settle_claim(&self, claim_id: u64, now: u64) -> (r: Result<SettlementOrder, ClaimError>)
        requires
            self.wf(),
        ensures
            self.admin.admin is None ==> r == Err::<SettlementOrder, ClaimError>(
                ClaimError::Unauthorized,
            ),
            self.admin.admin is Some && !self.claims@.contains_key(claim_id) ==> r == Err::<
                SettlementOrder,
                ClaimError,
            >(ClaimError::ClaimNotFound),
            self.admin.admin is Some && self.claims@.contains_key(claim_id) ==> {
                let c = self.claims@[claim_id];
                if spec_is_expired(c, now) {
                    r == Err::<SettlementOrder, ClaimError>(ClaimError::ClaimExpired)
                } else if c.status != ClaimStatus::Approved {
                    r == Err::<SettlementOrder, ClaimError>(ClaimError::InvalidStatusTransition)
                } else {
                    r == Ok::<SettlementOrder, ClaimError>(
                        SettlementOrder {
                            risk_pool: self.risk_pool->0,
                            policy_contract: self.policy_contract->0,
                            claimant: c.claimant,
                            amount: c.amount,
                            policy_id: c.policy_id,
                        },
                    )
                }
            },
    {
        if self.admin.admin.is_none() {
            return Err(ClaimError::Unauthorized);
        }
        let claim = match self.read_claim(claim_id) {
            Ok(c) => c,
            Err(e) => return Err(e),
        };
        if is_expired(&claim, now) {
            return Err(ClaimError::ClaimExpired);
        }
        if claim.status != ClaimStatus::Approved {
            return Err(ClaimError::InvalidStatusTransition);
        }
        let risk_pool = match self.risk_pool {
            Some(a) => a,
            None => return Err(ClaimError::Unauthorized),
        };
        let policy_contract = match self.policy_contract {
            Some(a) => a,
            None => return Err(ClaimError::Unauthorized),
        };
        Ok(
            SettlementOrder {
                risk_pool,
                policy_contract,
                claimant: claim.claimant,
                amount: claim.amount,
                policy_id: claim.policy_id,
            },
        )
    }

    /// The second half of a settlement, once the risk pool has reported
    /// `available_capital`: `InsufficientPoolFunds` when it is below the
    /// claim amount, otherwise the claim is settled at `now` and its policy
    /// freed. The caller then has the risk pool pay the claimant and the
    /// policy contract record the amount, as the order from `settle_claim`
    /// says.
    pub fn finish_settlement(&mut self, claim_id: u64, now: u64, available_capital: i128) -> (r: Result<
        (),
        ClaimError,
    >)
        requires
            old(self).wf(),
            old(self).claims@.contains_key(claim_id),
            old(self).claims@[claim_id].status == ClaimStatus::Approved,
        ensures
            final(self).wf(),
            ({
                let c = old(self).claims@[claim_id];
                if available_capital < c.amount {
                    r == Err::<(), ClaimError>(ClaimError::InsufficientPoolFunds) && *final(self)
                        == *old(self)
                } else {
                    r == Ok::<(), ClaimError>(()) && Self::closed_from(
                        old(self),
                        final(self),
                        claim_id,
                        InsuranceClaim { status: ClaimStatus::Settled, settled_at: Some(now), ..c },
                    )
                }
            }),
    {
        let mut claim = match self.read_claim(claim_id) {
            Ok(c) => c,
            Err(e) => return Err(e),
        };
        if available_capital < claim.amount {
            return Err(ClaimError::InsufficientPoolFunds);
        }
        let policy_id = claim.policy_id;
        self.clear_active(policy_id);
        claim.status = ClaimStatus::Settled;
        claim.settled_at = Some(now);
        self.store_claim(claim_id, claim);
        Ok(())
    }

    /// The claimant withdraws a claim that is submitted or under review,
    /// which frees its policy. The claimant must have authorized the call.
    pub fn withdraw_claim(&mut self, claim_id: u64) -> (r: Result<(), ClaimError>)
        requires
            old(self).wf(),
        ensures
            final(self).wf(),
            !old(self).claims@.contains_key(claim_id) ==> r == Err::<(), ClaimError>(
                ClaimError::ClaimNotFound,
            ) && *final(self) == *old(self),
            old(self).claims@.contains_key(claim_id) ==> {
                let c = old(self).claims@[claim_id];
                if c.status != ClaimStatus::Submitted && c.status != ClaimStatus::UnderReview {
                    r == Err::<(), ClaimError>(ClaimError::ClaimNotWithdrawable) && *final(self)
                        == *old(self)
                } else {
                    r == Ok::<(), ClaimError>(()) && Self::closed_from(
                        old(self),
                        final(self),
                        claim_id,
                        with_status(c, ClaimStatus::Withdrawn),
                    )
                }
            },
    {
        let mut claim = match self.read_claim(claim_id) {
            Ok(c) => c,
            Err(e) => return Err(e),
        };
        match claim.status {
            ClaimStatus::Submitted | ClaimStatus::UnderReview => {},
            _ => return Err(ClaimError::ClaimNotWithdrawable),
        }
        let policy_id = claim.policy_id;
        self.clear_active(policy_id);
        claim.status = ClaimStatus::Withdrawn;
        self.store_claim(claim_id, claim);
        Ok(())
    }

    /// The rejection time of a rejected claim leaves room for the dispute
    /// window before the end of time.
    pub open spec fn dispute_fits(&self, claim_id: u64) -> bool {
        self.claims@.contains_key(claim_id) && self.claims@[claim_id].status == ClaimStatus::Rejected
            ==> self.rejected_at@[claim_id] + DISPUTE_WINDOW_SECONDS <= u64::MAX
    }

    /// The claimant disputes a rejected claim within seven days of its
    /// rejection; the claim is back in flight, holds its policy again and
    /// awaits the admin's renewed review (`start_review`). The claimant must
    /// have authorized the call.
    pub fn dispute_claim(&mut self, claim_id: u64, dispute_reason: String, now: u64) -> (r: Result<
        (),
        ClaimError,
    >)
        requires
            old(self).wf(),
            old(self).dispute_fits(claim_id),
        ensures
            final(self).wf(),
            !old(self).claims@.contains_key(claim_id) ==> r == Err::<(), ClaimError>(
                ClaimError::ClaimNotFound,
            ) && *final(self) == *old(self),
            old(self).claims@.contains_key(claim_id) ==> {
                let c = old(self).claims@[claim_id];
                if c.status != ClaimStatus::Rejected {
                    r == Err::<(), ClaimError>(ClaimError::ClaimNotDisputable) && *final(self)
                        == *old(self)
                } else if now > old(self).rejected_at@[claim_id] + DISPUTE_WINDOW_SECONDS {
                    r == Err::<(), ClaimError>(ClaimError::ClaimExpired) && *final(self) == *old(self)
                } else {
                    &&& r == Ok::<(), ClaimError>(())
                    &&& final(self).claims@ == old(self).claims@.insert(
                        claim_id,
                        InsuranceClaim {
                            status: ClaimStatus::Disputed,
                            dispute_reason: Some(dispute_reason),
                            ..c
                        },
                    )
                    &&& final(self).active_claims@ == old(self).active_claims@.insert(
                        c.policy_id,
                        claim_id,
                    )
                    &&& Self::same_except_claims(final(self), old(self))
                }
            },
    {
        let mut claim = match self.read_claim(claim_id) {
            Ok(c) => c,
            Err(e) => return Err(e),
        };
        if claim.status != ClaimStatus::Rejected {
            return Err(ClaimError::ClaimNotDisputable);
        }
        let rejected_at: u64 = match self.rejected_at.get(&claim_id) {
            Some(t) => *t,
            None => return Err(ClaimError::ClaimNotDisputable),
        };
        if now > rejected_at + DISPUTE_WINDOW_SECONDS {
            return Err(ClaimError::ClaimExpired);
        }
        let policy_id = claim.policy_id;
        claim.status = ClaimStatus::Disputed;
        claim.dispute_reason = Some(dispute_reason);
        self.store_claim(claim_id, claim);
        self.active_claims.insert(policy_id, claim_id);
        Ok(())
    }

    /// Anyone may expire a claim whose deadline has passed while it is in
    /// flight; `ClaimExpired` reports a claim that has not expired.
    pub fn expire_claim(&mut self, claim_id: u64, now: u64) -> (r: Result<(), ClaimError>)
        requires
            old(self).wf(),
        ensures
            final(self).wf(),
            !old(self).claims@.contains_key(claim_id) ==> r == Err::<(), ClaimError>(
                ClaimError::ClaimNotFound,
            ) && *final(self) == *old(self),
            old(self).claims@.contains_key(claim_id) ==> {
                if !spec_is_expired(old(self).claims@[claim_id], now) {
                    r == Err::<(), ClaimError>(ClaimError::ClaimExpired) && *final(self) == *old(self)
                } else {
                    r == Ok::<(), ClaimError>(()) && Self::expired_from(old(self), final(self), claim_id)
                }
            },
    {
        let claim = match self.read_claim(claim_id) {
            Ok(c) => c,
            Err(e) => return Err(e),
        };
        if !is_expired(&claim, now) {
            return Err(ClaimError::ClaimExpired);
        }
        self.mark_expired(claim_id, claim);
        Ok(())
    }

    /// Expire, one after the other, each listed claim that has expired at
    /// `now`; returns how many were expired. Unknown ids are skipped.
    pub fn expire_stale_claims(&mut self, claim_ids: &Vec<u64>, now: u64) -> (r: u32)
        requires
            old(self).wf(),
            claim_ids@.len() <= u32::MAX,
        ensures
            final(self).wf(),
            (final(self).claims@, final(self).active_claims@, r as nat) == expire_run(
                old(self).claims@,
                old(self).active_claims@,
                claim_ids@,
                now,
            ),
            Self::same_except_claims(final(self), old(self)),
    {
        let mut expired_count: u32 = 0;
        let mut i: usize = 0;
        while i < claim_ids.len()
            invariant
                self.wf(),
                i <= claim_ids@.len(),
                claim_ids@.len() <= u32::MAX,
                expired_count <= i,
                (self.claims@, self.active_claims@, expired_count as nat) == expire_run(
                    old(self).claims@,
                    old(self).active_claims@,
                    claim_ids@.take(i as int),
                    now,
                ),
                Self::same_except_claims(self, old(self)),
            decreases claim_ids@.len() - i,
        {
            let cid = claim_ids[i];
            proof {
                assert(claim_ids@.take(i + 1).drop_last() =~= claim_ids@.take(i as int));
                assert(claim_ids@.take(i + 1).last() == cid);
            }
            match self.read_claim(cid) {
                Ok(claim) => {
                    if is_expired(&claim, now) {
                        self.mark_expired(cid, claim);
                        expired_count = expired_count + 1;
                    }
                },
                Err(_) => {},
            }
            i = i + 1;
        }
        assert(claim_ids@.take(claim_ids@.len() as int) =~= claim_ids@);
        expired_count
    }

    /// The claim with id `claim_id`.
    pub fn get_claim(&self, claim_id: u64) -> (r: Result<&InsuranceClaim, ClaimError>)
        requires
            self.wf(),
        ensures
            match r {
                Ok(c) => self.claims@.contains_key(claim_id) && *c == self.claims@[claim_id],
                Err(e) => !self.claims@.contains_key(claim_id) && e == ClaimError::ClaimNotFound,
            },
    {
        match self.claims.get(&claim_id) {
            Some(c) => Ok(c),
            None => Err(ClaimError::ClaimNotFound),
        }
    }

    /// The number of claims ever submitted.
    pub fn get_stats(&self) -> (n: u64)
        ensures
            n == self.claim_counter,
    {
        self.claim_counter
    }

    /// The ids of all claims ever submitted against `policy_id`, oldest
    /// first.
    pub fn get_claims_by_policy(&self, policy_id: u64) -> (ids: Vec<u64>)
        requires
            self.wf(),
        ensures
            ids@ == self.claims_of_policy(policy_id),
    {
        match self.policy_claims.get(&policy_id) {
            Some(list) => copy_vec(list),
            None => Vec::new(),
        }
    }

    /// The claim in flight for `policy_id`, if any.
    pub fn get_active_claim(&self, policy_id: u64) -> (r: Option<u64>)
        requires
            self.wf(),
        ensures
            r == (if self.active_claims@.contains_key(policy_id) {
                Some(self.active_claims@[policy_id])
            } else {
                None
            }),
    {
        match self.active_claims.get(&policy_id) {
            Some(id) => Some(*id),
            None => None,
        }
    }

    /// Whether claim `claim_id` has expired at `now`.
    pub fn is_claim_expired(&self, claim_id: u64, now: u64) -> (r: Result<bool, ClaimError>)
        requires
            self.wf(),
        ensures
            r == (if self.claims@.contains_key(claim_id) {
                Ok(spec_is_expired(self.claims@[claim_id], now))
            } else {
                Err(ClaimError::ClaimNotFound)
            }),
    {
        match self.claims.get(&claim_id) {
            Some(c) => Ok(is_expired(c, now)),
            None => Err(ClaimError::ClaimNotFound),
        }
    }

    /// The current admin; `Unauthorized` before initialization.
    pub fn get_admin(&self) -> (r: Result<Address, ClaimError>)
        ensures
            r == (match self.admin.admin {
                Some(a) => Ok(a),
                None => Err(ClaimError::Unauthorized),
            }),
    {
        match self.admin.admin {
            Some(a) => Ok(a),
            None => Err(ClaimError::Unauthorized),
        }
    }

    /// Nominate `new_admin`, acceptable once `delay_seconds` have elapsed
    /// after `now`. The current admin must have authorized the call.
    pub fn transfer_admin(&mut self, new_admin: Address, delay_seconds: u64, now: u64) -> (r: Result<
        (),
        AdminError,
    >)
        requires
            old(self).wf(),
        ensures
            final(self).wf(),
            match admin::propose_outcome(old(self).admin, new_admin, delay_seconds, now) {
                Ok(s) => r == Ok::<(), AdminError>(()) && final(self).admin == s,
                Err(e) => r == Err::<(), AdminError>(e) && final(self).admin == old(self).admin,
            },
            final(self).claims@ == old(self).claims@,
            final(self).active_claims@ == old(self).active_claims@,
            final(self).policy_claims@ == old(self).policy_claims@,
    {
        admin::propose_transfer(&mut self.admin, new_admin, delay_seconds, now)
    }

    /// The nominee accepts the outstanding nomination at `now`. The nominee
    /// must have authorized the call.
    pub fn accept_admin(&mut self, now: u64) -> (r: Result<(), AdminError>)
        requires
            old(self).wf(),
        ensures
            final(self).wf(),
            match admin::accept_outcome(old(self).admin, now) {
                Ok(s) => r == Ok::<(), AdminError>(()) && final(self).admin == s,
                Err(e) => r == Err::<(), AdminError>(e) && final(self).admin == old(self).admin,
            },
            final(self).claims@ == old(self).claims@,
            final(self).active_claims@ == old(self).active_claims@,
            final(self).policy_claims@ == old(self).policy_claims@,
    {
        admin::accept_transfer(&mut self.admin, now)
    }

    /// The admin withdraws the outstanding nomination. The admin must have
    /// authorized the call.
    pub fn cancel_admin_transfer(&mut self) -> (r: Result<(), AdminError>)
        requires
            old(self).wf(),
        ensures
            final(self).wf(),
            match admin::cancel_outcome(old(self).admin) {
                Ok(s) => r == Ok::<(), AdminError>(()) && final(self).admin == s,
                Err(e) => r == Err::<(), AdminError>(e) && final(self).admin == old(self).admin,
            },
            final(self).claims@ == old(self).claims@,
            final(self).active_claims@ == old(self).active_claims@,
            final(self).policy_claims@ == old(self).policy_claims@,
    {
        admin::cancel_transfer(&mut self.admin)
    }

    /// The outstanding nomination, if any.
    pub fn get_pending_admin(&self) -> (r: Option<PendingAdmin>)
        ensures
            r == self.admin.pending,
    {
        admin::read_pending(&self.admin)
    }
}

} // verus!
