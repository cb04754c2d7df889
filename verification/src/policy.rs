//! Insurance policy issuance, renewal, cancellation and expiry.

use vstd::prelude::*;
use crate::address::Address;
use crate::insurance_types::{InsurancePolicy, PolicyStatus, PolicyType};
use crate::table::Table;

verus! {

/// Seconds in a day.
pub const SECONDS_PER_DAY: u64 = 86400;

/// Reasons a policy call is refused.
#[derive(Clone, Copy, Debug, PartialEq, Eq, Structural)]
pub enum PolicyError {
    AlreadyInitialized,
    NotInitialized,
    PolicyNotFound,
    PolicyNotActive,
    /// Renewal of a policy whose term has ended.
    PolicyExpired,
    /// Cancellation of a policy whose term has ended.
    PolicyAlreadyExpired,
    ClaimsContractNotSet,
    TotalClaimedExceedsCoverage,
    PolicyNotYetExpired,
}

/// The end of a policy's term.
pub open spec fn spec_expiry(p: InsurancePolicy) -> int {
    p.start_time + p.duration_days * SECONDS_PER_DAY
}

/// A policy in one of these states covers claims while its term runs.
pub open spec fn is_live_status(s: PolicyStatus) -> bool {
    s == PolicyStatus::Active || s == PolicyStatus::Renewed
}

/// The end of a policy's term, when it fits in a timestamp.
fn expiry(p: &InsurancePolicy) -> (t: u64)
    requires
        spec_expiry(*p) <= u64::MAX,
    ensures
        t == spec_expiry(*p),
{
    p.start_time + (p.duration_days as u64) * SECONDS_PER_DAY
}

/// The stored state of the policy contract.
pub struct PolicyContract {
    pub admin: Option<Address>,
    pub risk_pool: Option<Address>,
    pub claims_contract: Option<Address>,
    pub policy_counter: u64,
    /// Every policy ever issued, by id.
    pub policies: Table<u64, InsurancePolicy>,
}

impl PolicyContract {
    /// Policies are numbered `1..=policy_counter` and carry their own id;
    /// none exists before initialization.
    pub open spec fn wf(&self) -> bool {
        &&& self.policies.wf()
        &&& forall|id: u64| #[trigger]
            self.policies@.contains_key(id) <==> 1 <= id <= self.policy_counter
        &&& forall|id: u64| #[trigger]
            self.policies@.contains_key(id) ==> self.policies@[id].policy_id == id
        &&& (self.admin is None <==> self.risk_pool is None)
        &&& self.admin is None ==> self.policy_counter == 0
    }

    /// The term of policy `policy_id`, if it exists, ends within timestamp
    /// range.
    pub open spec fn term_fits(&self, policy_id: u64) -> bool {
        self.policies@.contains_key(policy_id) ==> spec_expiry(self.policies@[policy_id]) <= u64::MAX
    }

    /// `new` is `old` with policy `policy_id` replaced by `p`.
    pub open spec fn updated_from(old: &Self, new: &Self, policy_id: u64, p: InsurancePolicy) -> bool {
        &&& new.policies@ == old.policies@.insert(policy_id, p)
        &&& new.admin == old.admin
        &&& new.risk_pool == old.risk_pool
        &&& new.claims_contract == old.claims_contract
        &&& new.policy_counter == old.policy_counter
    }

    /// A contract that was never initialized.
    pub fn new() -> (c: PolicyContract)
        ensures
            c.wf(),
            c.admin is None,
            c.risk_pool is None,
            c.claims_contract is None,
            c.policy_counter == 0,
            c.policies@ == Map::<u64, InsurancePolicy>::empty(),
    {
        PolicyContract {
            admin: None,
            risk_pool: None,
            claims_contract: None,
            policy_counter: 0,
            policies: Table::new(),
        }
    }

    /// Whether the contract has been initialized; an initialized contract
    /// cannot be initialized again, and only an initialized one issues
    /// policies.
    pub fn is_initialized(&self) -> (b: bool)
        ensures
            b == (self.admin is Some),
    {
        self.admin.is_some()
    }

    /// Whether policy `policy_id` exists.
    pub fn has_policy(&self, policy_id: u64) -> (b: bool)
        requires
            self.wf(),
        ensures
            b == self.policies@.contains_key(policy_id),
    {
        self.policies.contains(&policy_id)
    }

    /// Set the admin and the risk pool policies are written against. The
    /// contract must not have been initialized before.
    pub fn initialize(&mut self, admin: Address, risk_pool: Address)
        requires
            old(self).wf(),
            old(self).admin is None,
        ensures
            final(self).wf(),
            *final(self) == (PolicyContract {
                admin: Some(admin),
                risk_pool: Some(risk_pool),
                policy_counter: 0,
                ..*old(self)
            }),
    {
        self.admin = Some(admin);
        self.risk_pool = Some(risk_pool);
        self.policy_counter = 0;
    }

    /// The admin issues a policy to `holder`, starting at `now`, written
    /// against the configured risk pool; the contract must be initialized.
    /// Returns the new policy's id. The admin must have authorized the call.
    pub fn issue_policy(
        &mut self,
        holder: Address,
        coverage_amount: i128,
        premium_amount: i128,
        duration_days: u32,
        policy_type: PolicyType,
        now: u64,
    ) -> (id: u64)
        requires
            old(self).wf(),
            old(self).policy_counter < u64::MAX,
            old(self).admin is Some,
        ensures
            final(self).wf(),
            id == old(self).policy_counter + 1,
            final(self).policy_counter == id,
            final(self).policies@ == old(self).policies@.insert(
                id,
                InsurancePolicy {
                    policy_id: id,
                    holder,
                    coverage_amount,
                    premium_amount,
                    start_time: now,
                    duration_days,
                    policy_type,
                    status: PolicyStatus::Active,
                    risk_pool: old(self).risk_pool->0,
                    total_claimed: 0,
                },
            ),
            final(self).admin == old(self).admin,
            final(self).risk_pool == old(self).risk_pool,
            final(self).claims_contract == old(self).claims_contract,
    {
        let risk_pool = match self.risk_pool {
            Some(a) => a,
            None => return 0,
        };
        let counter = self.policy_counter + 1;
        self.policy_counter = counter;
        let policy = InsurancePolicy {
            policy_id: counter,
            holder,
            coverage_amount,
            premium_amount,
            start_time: now,
            duration_days,
            policy_type,
            status: PolicyStatus::Active,
            risk_pool,
            total_claimed: 0,
        };
        self.policies.insert(counter, policy);
        counter
    }

    /// The policy with id `policy_id`, which must exist (`has_policy`).
    pub fn get_policy(&self, policy_id: u64) -> (p: &InsurancePolicy)
        requires
            self.wf(),
            self.policies@.contains_key(policy_id),
        ensures
            *p == self.policies@[policy_id],
    {
        self.policies.get(&policy_id).unwrap()
    }

    /// The policy with id `policy_id`, under the name other contracts call.
    pub fn get_pol(&self, policy_id: u64) -> (p: &InsurancePolicy)
        requires
            self.wf(),
            self.policies@.contains_key(policy_id),
        ensures
            *p == self.policies@[policy_id],
    {
        self.get_policy(policy_id)
    }

    /// Whether policy `policy_id`, which must exist, is active or renewed
    /// and its term has not ended at `now`.
    pub fn is_active(&self, policy_id: u64, now: u64) -> (b: bool)
        requires
            self.wf(),
            self.term_fits(policy_id),
            self.policies@.contains_key(policy_id),
        ensures
            b == (is_live_status(self.policies@[policy_id].status) && now <= spec_expiry(
                self.policies@[policy_id],
            )),
    {
        let policy = self.policies.get(&policy_id).unwrap();
        if policy.status != PolicyStatus::Active && policy.status != PolicyStatus::Renewed {
            return false;
        }
        now <= expiry(policy)
    }

    /// What a renewal of policy `policy_id` at `now` is answered.
    pub open spec fn renew_outcome(&self, policy_id: u64, now: u64) -> Result<(), PolicyError> {
        if !self.policies@.contains_key(policy_id) {
            Err(PolicyError::PolicyNotFound)
        } else if !is_live_status(self.policies@[policy_id].status) {
            Err(PolicyError::PolicyNotActive)
        } else if now > spec_expiry(self.policies@[policy_id]) {
            Err(PolicyError::PolicyExpired)
        } else {
            Ok(())
        }
    }

    /// Check a renewal before it is made: `Ok` exactly when `renew_policy`
    /// admits it, otherwise the reason it is refused.
    pub fn renew_check(&self, policy_id: u64, now: u64) -> (r: Result<(), PolicyError>)
        requires
            self.wf(),
            self.term_fits(policy_id),
        ensures
            r == self.renew_outcome(policy_id, now),
    {
        let policy = match self.policies.get(&policy_id) {
            Some(p) => p,
            None => return Err(PolicyError::PolicyNotFound),
        };
        if policy.status != PolicyStatus::Active && policy.status != PolicyStatus::Renewed {
            return Err(PolicyError::PolicyNotActive);
        }
        if now > expiry(policy) {
            return Err(PolicyError::PolicyExpired);
        }
        Ok(())
    }

    /// The holder extends a live policy whose term has not ended at `now` by
    /// `duration_days` (`renew_check`). The holder must have authorized the
    /// call.
    pub fn renew_policy(&mut self, policy_id: u64, duration_days: u32, now: u64)
        requires
            old(self).wf(),
            old(self).renew_outcome(policy_id, now) is Ok,
            old(self).policies@[policy_id].duration_days + duration_days <= u32::MAX,
        ensures
            final(self).wf(),
            ({
                let p = old(self).policies@[policy_id];
                Self::updated_from(
                    old(self),
                    final(self),
                    policy_id,
                    InsurancePolicy {
                        duration_days: (p.duration_days + duration_days) as u32,
                        status: PolicyStatus::Renewed,
                        ..p
                    },
                )
            }),
    {
        let mut policy = *self.policies.get(&policy_id).unwrap();
        policy.duration_days = policy.duration_days + duration_days;
        policy.status = PolicyStatus::Renewed;
        self.policies.insert(policy_id, policy);
        proof {
            assert(self.policies@.dom() =~= old(self).policies@.dom());
        }
    }

    /// What a cancellation of policy `policy_id` at `now` is answered.
    pub open spec fn cancel_outcome(&self, policy_id: u64, now: u64) -> Result<(), PolicyError> {
        if !self.policies@.contains_key(policy_id) {
            Err(PolicyError::PolicyNotFound)
        } else if now > spec_expiry(self.policies@[policy_id]) {
            Err(PolicyError::PolicyAlreadyExpired)
        } else {
            Ok(())
        }
    }

    /// Check a cancellation before it is made: `Ok` exactly when
    /// `cancel_policy` admits it, otherwise the reason it is refused.
    pub fn cancel_check(&self, policy_id: u64, now: u64) -> (r: Result<(), PolicyError>)
        requires
            self.wf(),
            self.term_fits(policy_id),
        ensures
            r == self.cancel_outcome(policy_id, now),
    {
        let policy = match self.policies.get(&policy_id) {
            Some(p) => p,
            None => return Err(PolicyError::PolicyNotFound),
        };
        if now > expiry(policy) {
            return Err(PolicyError::PolicyAlreadyExpired);
        }
        Ok(())
    }

    /// The holder cancels a policy whose term has not ended at `now`
    /// (`cancel_check`). The holder must have authorized the call.
    pub fn cancel_policy(&mut self, policy_id: u64, now: u64)
        requires
            old(self).wf(),
            old(self).cancel_outcome(policy_id, now) is Ok,
        ensures
            final(self).wf(),
            Self::updated_from(
                old(self),
                final(self),
                policy_id,
                InsurancePolicy { status: PolicyStatus::Cancelled, ..old(self).policies@[policy_id] },
            ),
    {
        let mut policy = *self.policies.get(&policy_id).unwrap();
        policy.status = PolicyStatus::Cancelled;
        self.policies.insert(policy_id, policy);
        proof {
            assert(self.policies@.dom() =~= old(self).policies@.dom());
        }
    }

    /// The admin names the claims contract allowed to record claimed
    /// amounts; the contract must be initialized. The admin must have
    /// authorized the call.
    pub fn set_claims_contract(&mut self, claims_contract: Address)
        requires
            old(self).wf(),
            old(self).admin is Some,
        ensures
            final(self).wf(),
            *final(self) == (PolicyContract { claims_contract: Some(claims_contract), ..*old(self) }),
    {
        self.claims_contract = Some(claims_contract);
    }

    /// What recording a settled `amount` against policy `policy_id` is
    /// answered.
    pub open spec fn update_claimed_outcome(&self, policy_id: u64, amount: i128) -> Result<(), PolicyError> {
        if self.claims_contract is None {
            Err(PolicyError::ClaimsContractNotSet)
        } else if !self.policies@.contains_key(policy_id) {
            Err(PolicyError::PolicyNotFound)
        } else if self.policies@[policy_id].total_claimed + amount > self.policies@[policy_id].coverage_amount {
            Err(PolicyError::TotalClaimedExceedsCoverage)
        } else {
            Ok(())
        }
    }

    /// Check a claimed amount before it is recorded: `Ok` exactly when
    /// `update_claimed` admits it, otherwise the reason it is refused.
    pub fn update_claimed_check(&self, policy_id: u64, amount: i128) -> (r: Result<(), PolicyError>)
        requires
            self.wf(),
            self.policies@.contains_key(policy_id) ==> i128::MIN <= self.policies@[policy_id].total_claimed
                + amount <= i128::MAX,
        ensures
            r == self.update_claimed_outcome(policy_id, amount),
    {
        if self.claims_contract.is_none() {
            return Err(PolicyError::ClaimsContractNotSet);
        }
        let policy = match self.policies.get(&policy_id) {
            Some(p) => p,
            None => return Err(PolicyError::PolicyNotFound),
        };
        if policy.total_claimed + amount > policy.coverage_amount {
            return Err(PolicyError::TotalClaimedExceedsCoverage);
        }
        Ok(())
    }

    /// The claims contract adds a settled `amount` to the claimed total of
    /// policy `policy_id`; the total may not exceed the coverage
    /// (`update_claimed_check`). The claims contract must have authorized the
    /// call.
    pub fn update_claimed(&mut self, policy_id: u64, amount: i128)
        requires
            old(self).wf(),
            old(self).update_claimed_outcome(policy_id, amount) is Ok,
            i128::MIN <= old(self).policies@[policy_id].total_claimed + amount,
        ensures
            final(self).wf(),
            ({
                let p = old(self).policies@[policy_id];
                Self::updated_from(
                    old(self),
                    final(self),
                    policy_id,
                    InsurancePolicy { total_claimed: (p.total_claimed + amount) as i128, ..p },
                )
            }),
    {
        let mut policy = *self.policies.get(&policy_id).unwrap();
        policy.total_claimed = policy.total_claimed + amount;
        self.policies.insert(policy_id, policy);
        proof {
            assert(self.policies@.dom() =~= old(self).policies@.dom());
        }
    }

    /// The same as `update_claimed`, under its short name.
    pub fn update_cl(&mut self, policy_id: u64, amount: i128)
        requires
            old(self).wf(),
            old(self).update_claimed_outcome(policy_id, amount) is Ok,
            i128::MIN <= old(self).policies@[policy_id].total_claimed + amount,
        ensures
            final(self).wf(),
            ({
                let p = old(self).policies@[policy_id];
                Self::updated_from(
                    old(self),
                    final(self),
                    policy_id,
                    InsurancePolicy { total_claimed: (p.total_claimed + amount) as i128, ..p },
                )
            }),
    {
        self.update_claimed(policy_id, amount)
    }

    /// What marking policy `policy_id` expired at `now` is answered.
    pub open spec fn expire_outcome(&self, policy_id: u64, now: u64) -> Result<(), PolicyError> {
        if !self.policies@.contains_key(policy_id) {
            Err(PolicyError::PolicyNotFound)
        } else if now < spec_expiry(self.policies@[policy_id]) {
            Err(PolicyError::PolicyNotYetExpired)
        } else {
            Ok(())
        }
    }

    /// Check an expiry before it is recorded: `Ok` exactly when
    /// `expire_policy` admits it, otherwise the reason it is refused.
    pub fn expire_check(&self, policy_id: u64, now: u64) -> (r: Result<(), PolicyError>)
        requires
            self.wf(),
            self.term_fits(policy_id),
        ensures
            r == self.expire_outcome(policy_id, now),
    {
        let policy = match self.policies.get(&policy_id) {
            Some(p) => p,
            None => return Err(PolicyError::PolicyNotFound),
        };
        if now < expiry(policy) {
            return Err(PolicyError::PolicyNotYetExpired);
        }
        Ok(())
    }

    /// Anyone marks a policy expired once its term has ended at `now`
    /// (`expire_check`).
    pub fn expire_policy(&mut self, policy_id: u64, now: u64)
        requires
            old(self).wf(),
            old(self).expire_outcome(policy_id, now) is Ok,
        ensures
            final(self).wf(),
            Self::updated_from(
                old(self),
                final(self),
                policy_id,
                InsurancePolicy { status: PolicyStatus::Expired, ..old(self).policies@[policy_id] },
            ),
    {
        let mut policy = *self.policies.get(&policy_id).unwrap();
        policy.status = PolicyStatus::Expired;
        self.policies.insert(policy_id, policy);
        proof {
            assert(self.policies@.dom() =~= old(self).policies@.dom());
        }
    }

    /// The number of policies issued.
    pub fn get_stats(&self) -> (n: u64)
        ensures
            n == self.policy_counter,
    {
        self.policy_counter
    }
}

} // verus!
