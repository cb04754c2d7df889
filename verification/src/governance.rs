//! DAO governance: proposals, token-weighted votes, quorum and threshold.

use vstd::prelude::*;
use crate::address::Address;
use crate::insurance_types::{GovernanceAction, Proposal};
use crate::sums::{lemma_sum_nonneg, lemma_sum_update, lemma_sum_zero, sum_over};
use vstd::arithmetic::div_mod::{lemma_fundamental_div_mod, lemma_mod_pos_bound};
use crate::table::Table;

verus! {

/// Reasons a governance call is refused.
#[derive(Clone, Copy, Debug, PartialEq, Eq, Structural)]
pub enum GovernanceError {
    AlreadyInitialized,
    NotInitialized,
    ProposalNotFound,
    WeightNotPositive,
    WeightExceedsBalance,
    VotingPeriodEnded,
    AlreadyVoted,
    VotingPeriodNotEnded,
    NotFinalized,
    AlreadyExecuted,
    QuorumNotMet,
    ThresholdNotMet,
    QuorumPercentageZero,
    QuorumPercentageAboveHundred,
    ThresholdPercentageZero,
    ThresholdPercentageAboveHundred,
}

/// Check a quorum percentage: `Ok` exactly when it lies in `1..=100`.
pub fn check_quorum_percentage(value: u32) -> (r: Result<(), GovernanceError>)
    ensures
        r == (if value == 0 {
            Err(GovernanceError::QuorumPercentageZero)
        } else if value > 100 {
            Err(GovernanceError::QuorumPercentageAboveHundred)
        } else {
            Ok(())
        }),
{
    if value == 0 {
        return Err(GovernanceError::QuorumPercentageZero);
    }
    if value > 100 {
        return Err(GovernanceError::QuorumPercentageAboveHundred);
    }
    Ok(())
}

/// Check a proposal approval threshold: `Ok` exactly when it lies in
/// `1..=100`.
pub fn check_threshold_percentage(value: u32) -> (r: Result<(), GovernanceError>)
    ensures
        r == (if value == 0 {
            Err(GovernanceError::ThresholdPercentageZero)
        } else if value > 100 {
            Err(GovernanceError::ThresholdPercentageAboveHundred)
        } else {
            Ok(())
        }),
{
    if value == 0 {
        return Err(GovernanceError::ThresholdPercentageZero);
    }
    if value > 100 {
        return Err(GovernanceError::ThresholdPercentageAboveHundred);
    }
    Ok(())
}

/// Validate a quorum percentage. A quorum of zero would disable the quorum
/// requirement and one above 100 could never be met, so only `1..=100` is
/// admitted; `check_quorum_percentage` says which error the rest gets.
pub fn validate_quorum_percentage(value: u32)
    requires
        1 <= value <= 100,
{
}

/// Validate a proposal approval threshold. Zero would pass a proposal with
/// no support and above 100 none could pass, so only `1..=100` is admitted;
/// `check_threshold_percentage` says which error the rest gets.
pub fn validate_threshold_percentage(value: u32)
    requires
        1 <= value <= 100,
{
}

} // verus!

verus! {

/// Quorum percentage used until the admin sets one.
pub const DEFAULT_QUORUM_PERCENTAGE: u32 = 10;

/// A voter's ballot on a proposal.
#[derive(Clone, Copy, Debug, PartialEq, Eq, Structural)]
pub struct VoteRecord {
    pub voter: Address,
    pub weight: i128,
    pub is_yes: bool,
    pub timestamp: u64,
}

/// Where a proposal stands.
#[derive(Clone, Copy, Debug, PartialEq, Eq, Structural)]
pub enum ProposalStatus {
    Active,
    Finalized,
    Expired,
    Executed,
}

/// The tally of a proposal and where it stands.
#[derive(Clone, Copy, Debug, PartialEq, Eq, Structural)]
pub struct ProposalStats {
    pub yes_votes: i128,
    pub no_votes: i128,
    pub total_votes: i128,
    pub status: ProposalStatus,
}

/// Integer division rounding toward zero, for a positive divisor.
pub open spec fn trunc_div(a: int, b: int) -> int {
    if a >= 0 { a / b } else { -((-a) / b) }
}

/// Weight of a ballot in the yes tally of proposal `p`.
pub open spec fn yes_weight(votes: Map<(u64, Address), VoteRecord>, p: u64) -> spec_fn((u64, Address)) -> int {
    |k: (u64, Address)| if k.0 == p && votes[k].is_yes { votes[k].weight as int } else { 0int }
}

/// Weight of a ballot in the no tally of proposal `p`.
pub open spec fn no_weight(votes: Map<(u64, Address), VoteRecord>, p: u64) -> spec_fn((u64, Address)) -> int {
    |k: (u64, Address)| if k.0 == p && !votes[k].is_yes { votes[k].weight as int } else { 0int }
}

/// The sum of the yes ballots on proposal `p`.
pub open spec fn yes_tally(votes: Map<(u64, Address), VoteRecord>, p: u64) -> int {
    sum_over(votes.dom(), yes_weight(votes, p))
}

/// The sum of the no ballots on proposal `p`.
pub open spec fn no_tally(votes: Map<(u64, Address), VoteRecord>, p: u64) -> int {
    sum_over(votes.dom(), no_weight(votes, p))
}

/// The stored state of the governance contract.
pub struct GovernanceContract {
    pub admin: Option<Address>,
    pub token: Option<Address>,
    pub slashing_contract: Option<Address>,
    pub voting_period: Option<u64>,
    pub claims_contract: Option<Address>,
    pub risk_pool_contract: Option<Address>,
    pub policy_contract: Option<Address>,
    pub proposal_counter: u64,
    /// Every proposal ever created, by id.
    pub proposals: Table<u64, Proposal>,
    /// Each voter's ballot on each proposal.
    pub votes: Table<(u64, Address), VoteRecord>,
    /// The action a passed proposal will carry out, until it is executed.
    pub pending_actions: Table<u64, GovernanceAction>,
    pub min_quorum_percentage: Option<u32>,
}

impl GovernanceContract {
    /// The governance invariant: proposals are numbered
    /// `1..=proposal_counter` and carry their own id; ballots are cast by
    /// their voter on existing proposals with positive weight; each
    /// proposal's yes and no counts are the sums of its yes and no ballots;
    /// pending actions belong to existing proposals; and nothing exists
    /// before initialization.
    pub open spec fn wf(&self) -> bool {
        &&& self.proposals.wf()
        &&& self.votes.wf()
        &&& self.pending_actions.wf()
        &&& forall|id: u64| #[trigger]
            self.proposals@.contains_key(id) <==> 1 <= id <= self.proposal_counter
        &&& forall|id: u64| #[trigger]
            self.proposals@.contains_key(id) ==> {
                let p = self.proposals@[id];
                &&& p.id == id
                &&& p.yes_votes == yes_tally(self.votes@, id)
                &&& p.no_votes == no_tally(self.votes@, id)
            }
        &&& forall|k: (u64, Address)| #[trigger]
            self.votes@.contains_key(k) ==> {
                &&& self.proposals@.contains_key(k.0)
                &&& self.votes@[k].voter == k.1
                &&& self.votes@[k].weight > 0
            }
        &&& forall|id: u64| #[trigger]
            self.pending_actions@.contains_key(id) ==> self.proposals@.contains_key(id)
        &&& (self.admin is None <==> self.voting_period is None)
        &&& (self.admin is None <==> self.token is None)
        &&& self.admin is None ==> self.proposal_counter == 0
    }

    /// Everything but the proposals, ballots and pending actions is the same
    /// in `a` and `b`.
    pub open spec fn same_settings(a: &Self, b: &Self) -> bool {
        &&& a.admin == b.admin
        &&& a.token == b.token
        &&& a.slashing_contract == b.slashing_contract
        &&& a.voting_period == b.voting_period
        &&& a.claims_contract == b.claims_contract
        &&& a.risk_pool_contract == b.risk_pool_contract
        &&& a.policy_contract == b.policy_contract
        &&& a.min_quorum_percentage == b.min_quorum_percentage
    }

    /// The quorum percentage in force.
    pub open spec fn quorum_percentage(&self) -> u32 {
        match self.min_quorum_percentage {
            Some(q) => q,
            None => DEFAULT_QUORUM_PERCENTAGE,
        }
    }

    /// A contract that was never initialized.
    pub fn new() -> (c: GovernanceContract)
        ensures
            c.wf(),
            c.admin is None,
            c.token is None,
            c.slashing_contract is None,
            c.voting_period is None,
            c.claims_contract is None,
            c.risk_pool_contract is None,
            c.policy_contract is None,
            c.proposal_counter == 0,
            c.proposals@ == Map::<u64, Proposal>::empty(),
            c.votes@ == Map::<(u64, Address), VoteRecord>::empty(),
            c.pending_actions@ == Map::<u64, GovernanceAction>::empty(),
            c.min_quorum_percentage is None,
    {
        GovernanceContract {
            admin: None,
            token: None,
            slashing_contract: None,
            voting_period: None,
            claims_contract: None,
            risk_pool_contract: None,
            policy_contract: None,
            proposal_counter: 0,
            proposals: Table::new(),
            votes: Table::new(),
            pending_actions: Table::new(),
            min_quorum_percentage: None,
        }
    }

    /// Whether the contract has been initialized; an initialized contract
    /// cannot be initialized again, and proposals need one that is.
    pub fn is_initialized(&self) -> (b: bool)
        ensures
            b == (self.admin is Some),
    {
        self.admin.is_some()
    }

    /// Whether proposal `proposal_id` exists.
    pub fn has_proposal(&self, proposal_id: u64) -> (b: bool)
        requires
            self.wf(),
        ensures
            b == self.proposals@.contains_key(proposal_id),
    {
        self.proposals.contains(&proposal_id)
    }

    /// Record the admin, the voting token, the voting period and the
    /// contracts that passed proposals act on. The contract must not have
    /// been initialized before.
    pub fn initialize(
        &mut self,
        admin: Address,
        token: Address,
        slashing_contract: Address,
        voting_period: u64,
        claims_contract: Address,
        risk_pool_contract: Address,
        policy_contract: Address,
    )
        requires
            old(self).wf(),
            old(self).admin is None,
        ensures
            final(self).wf(),
            *final(self) == (GovernanceContract {
                admin: Some(admin),
                token: Some(token),
                slashing_contract: Some(slashing_contract),
                voting_period: Some(voting_period),
                claims_contract: Some(claims_contract),
                risk_pool_contract: Some(risk_pool_contract),
                policy_contract: Some(policy_contract),
                proposal_counter: 0,
                ..*old(self)
            }),
    {
        self.admin = Some(admin);
        self.token = Some(token);
        self.slashing_contract = Some(slashing_contract);
        self.voting_period = Some(voting_period);
        self.proposal_counter = 0;
        self.claims_contract = Some(claims_contract);
        self.risk_pool_contract = Some(risk_pool_contract);
        self.policy_contract = Some(policy_contract);
    }

    /// The counters of a new proposal stay in range.
    pub open spec fn create_fits(&self, now: u64) -> bool {
        &&& self.proposal_counter < u64::MAX
        &&& self.voting_period matches Some(v) ==> now + v <= u64::MAX
    }

    /// The proposal a creation at `now` makes.
    pub open spec fn new_proposal(
        &self,
        creator: Address,
        title: String,
        description: String,
        execution_data: String,
        threshold_percentage: u32,
        now: u64,
    ) -> Proposal {
        Proposal {
            id: (self.proposal_counter + 1) as u64,
            title,
            description,
            execution_data,
            creator,
            expires_at: (now + self.voting_period->0) as u64,
            threshold_percentage,
            yes_votes: 0,
            no_votes: 0,
            is_finalized: false,
            is_executed: false,
        }
    }

    /// Store a new proposal, with no ballots, and its action if it has one.
    fn add_proposal(
        &mut self,
        creator: Address,
        title: String,
        description: String,
        execution_data: String,
        threshold_percentage: u32,
        action: Option<GovernanceAction>,
        now: u64,
    ) -> (id: u64)
        requires
            old(self).wf(),
            old(self).admin is Some,
            old(self).create_fits(now),
        ensures
            final(self).wf(),
            id == old(self).proposal_counter + 1,
            final(self).proposal_counter == id,
            final(self).proposals@ == old(self).proposals@.insert(
                id,
                old(self).new_proposal(creator, title, description, execution_data, threshold_percentage, now),
            ),
            final(self).votes@ == old(self).votes@,
            final(self).pending_actions@ == (match action {
                Some(a) => old(self).pending_actions@.insert(id, a),
                None => old(self).pending_actions@,
            }),
            Self::same_settings(final(self), old(self)),
    {
        let voting_period = match self.voting_period {
            Some(v) => v,
            None => 0,
        };
        let counter = self.proposal_counter + 1;
        self.proposal_counter = counter;
        let proposal = Proposal {
            id: counter,
            title,
            description,
            execution_data,
            creator,
            expires_at: now + voting_period,
            threshold_percentage,
            yes_votes: 0,
            no_votes: 0,
            is_finalized: false,
            is_executed: false,
        };
        proof {
            self.votes.lemma_dom_finite();
            assert(!old(self).proposals@.contains_key(counter));
            assert forall|k: (u64, Address)| self.votes@.dom().contains(k) implies yes_weight(self.votes@, counter)(k) == 0 by {
                assert(self.votes@.contains_key(k));
            }
            assert forall|k: (u64, Address)| self.votes@.dom().contains(k) implies no_weight(self.votes@, counter)(k) == 0 by {
                assert(self.votes@.contains_key(k));
            }
            lemma_sum_zero(self.votes@.dom(), yes_weight(self.votes@, counter));
            lemma_sum_zero(self.votes@.dom(), no_weight(self.votes@, counter));
        }
        self.proposals.insert(counter, proposal);
        match action {
            Some(a) => self.pending_actions.insert(counter, a),
            None => {},
        }
        counter
    }

    /// `creator` proposes an action described by `execution_data`, passing
    /// with at least `threshold_percentage` percent of the votes cast; voting
    /// runs from `now` for the configured period. The threshold must lie in
    /// `1..=100` and the contract must be initialized. Returns the new
    /// proposal's id. The creator must have authorized the call.
    pub fn create_proposal(
        &mut self,
        creator: Address,
        title: String,
        description: String,
        execution_data: String,
        threshold_percentage: u32,
        now: u64,
    ) -> (id: u64)
        requires
            old(self).wf(),
            old(self).create_fits(now),
            1 <= threshold_percentage <= 100,
            old(self).admin is Some,
        ensures
            final(self).wf(),
            id == old(self).proposal_counter + 1,
            ({
                &&& final(self).proposal_counter == id
                &&& final(self).proposals@ == old(self).proposals@.insert(
                    id,
                    old(self).new_proposal(creator, title, description, execution_data, threshold_percentage, now),
                )
                &&& final(self).votes@ == old(self).votes@
                &&& final(self).pending_actions@ == old(self).pending_actions@
                &&& Self::same_settings(final(self), old(self))
            }),
    {
        validate_threshold_percentage(threshold_percentage);
        self.add_proposal(creator, title, description, execution_data, threshold_percentage, None, now)
    }

    /// `creator` proposes a slashing, described by `reason`, passing with at
    /// least `threshold` percent of the votes cast. The threshold must lie in
    /// `1..=100` and the contract must be initialized. Returns the new
    /// proposal's id. The creator must have authorized the call.
    pub fn create_slashing_proposal(&mut self, creator: Address, reason: String, threshold: u32, now: u64) -> (id: u64)
        requires
            old(self).wf(),
            old(self).create_fits(now),
            1 <= threshold <= 100,
            old(self).admin is Some,
        ensures
            final(self).wf(),
            id == old(self).proposal_counter + 1,
            ({
                &&& final(self).proposal_counter == id
                &&& final(self).proposals@.dom() == old(self).proposals@.dom().insert(id)
                &&& forall|other: u64| other != id ==> #[trigger] final(self).proposals@[other] == old(self).proposals@[other]
                &&& final(self).proposals@[id].title@ == "Slashing Proposal"@
                &&& final(self).proposals@[id].execution_data@ == "slash_call"@
                &&& final(self).proposals@[id].description == reason
                &&& final(self).proposals@[id].creator == creator
                &&& final(self).proposals@[id].threshold_percentage == threshold
                &&& final(self).proposals@[id].expires_at == now + old(self).voting_period->0
                &&& final(self).votes@ == old(self).votes@
                &&& final(self).pending_actions@ == old(self).pending_actions@
                &&& Self::same_settings(final(self), old(self))
            }),
    {
        validate_threshold_percentage(threshold);
        let title = "Slashing Proposal".to_owned();
        let execution_data = "slash_call".to_owned();
        self.add_proposal(creator, title, reason, execution_data, threshold, None, now)
    }

    /// `creator` proposes that the DAO approve claim `claim_id`, passing with
    /// at least `threshold` percent of the votes cast. The threshold is not
    /// range-checked here. The contract must be initialized. Returns the new
    /// proposal's id. The creator must have authorized the call.
    pub fn create_claim_approval_proposal(&mut self, creator: Address, claim_id: u64, threshold: u32, now: u64) -> (id: u64)
        requires
            old(self).wf(),
            old(self).create_fits(now),
            old(self).admin is Some,
        ensures
            final(self).wf(),
            id == old(self).proposal_counter + 1,
            ({
                &&& final(self).proposal_counter == id
                &&& final(self).proposals@.dom() == old(self).proposals@.dom().insert(id)
                &&& forall|other: u64| other != id ==> #[trigger] final(self).proposals@[other] == old(self).proposals@[other]
                &&& final(self).proposals@[id].title@ == "Claim Approval Proposal"@
                &&& final(self).proposals@[id].description@ == "DAO vote required for claim approval"@
                &&& final(self).proposals@[id].execution_data@ == "approve_claim"@
                &&& final(self).proposals@[id].creator == creator
                &&& final(self).proposals@[id].threshold_percentage == threshold
                &&& final(self).proposals@[id].expires_at == now + old(self).voting_period->0
                &&& final(self).votes@ == old(self).votes@
                &&& final(self).pending_actions@ == old(self).pending_actions@.insert(
                    id,
                    GovernanceAction::ClaimApproval(claim_id),
                )
                &&& Self::same_settings(final(self), old(self))
            }),
    {
        let title = "Claim Approval Proposal".to_owned();
        let description = "DAO vote required for claim approval".to_owned();
        let execution_data = "approve_claim".to_owned();
        self.add_proposal(
            creator,
            title,
            description,
            execution_data,
            threshold,
            Some(GovernanceAction::ClaimApproval(claim_id)),
            now,
        )
    }

    /// `creator` proposes that the risk pool pay `amount` to `recipient`,
    /// passing with at least `threshold` percent of the votes cast. The
    /// threshold is not range-checked here. The contract must be initialized.
    /// Returns the new proposal's id. The creator must have authorized the
    /// call.
    pub fn create_fund_allocation_proposal(
        &mut self,
        creator: Address,
        recipient: Address,
        amount: i128,
        threshold: u32,
        now: u64,
    ) -> (id: u64)
        requires
            old(self).wf(),
            old(self).create_fits(now),
            old(self).admin is Some,
        ensures
            final(self).wf(),
            id == old(self).proposal_counter + 1,
            ({
                &&& final(self).proposal_counter == id
                &&& final(self).proposals@.dom() == old(self).proposals@.dom().insert(id)
                &&& forall|other: u64| other != id ==> #[trigger] final(self).proposals@[other] == old(self).proposals@[other]
                &&& final(self).proposals@[id].title@ == "Fund Allocation Proposal"@
                &&& final(self).proposals@[id].description@ == "DAO vote required for fund allocation"@
                &&& final(self).proposals@[id].execution_data@ == "allocate_funds"@
                &&& final(self).proposals@[id].creator == creator
                &&& final(self).proposals@[id].threshold_percentage == threshold
                &&& final(self).proposals@[id].expires_at == now + old(self).voting_period->0
                &&& final(self).votes@ == old(self).votes@
                &&& final(self).pending_actions@ == old(self).pending_actions@.insert(
                    id,
                    GovernanceAction::FundAllocation(recipient, amount),
                )
                &&& Self::same_settings(final(self), old(self))
            }),
    {
        let title = "Fund Allocation Proposal".to_owned();
        let description = "DAO vote required for fund allocation".to_owned();
        let execution_data = "allocate_funds".to_owned();
        self.add_proposal(
            creator,
            title,
            description,
            execution_data,
            threshold,
            Some(GovernanceAction::FundAllocation(recipient, amount)),
            now,
        )
    }

    /// A proposal copied field by field, with new vote counts and flags.
    fn rebuild(p: &Proposal, yes_votes: i128, no_votes: i128, is_finalized: bool, is_executed: bool) -> (r: Proposal)
        ensures
            r == (Proposal { yes_votes, no_votes, is_finalized, is_executed, ..*p }),
    {
        Proposal {
            id: p.id,
            title: p.title.clone(),
            description: p.description.clone(),
            execution_data: p.execution_data.clone(),
            creator: p.creator,
            expires_at: p.expires_at,
            threshold_percentage: p.threshold_percentage,
            yes_votes,
            no_votes,
            is_finalized,
            is_executed,
        }
    }

    /// The tally of a ballot that passes its checks stays in range.
    pub open spec fn vote_fits(&self, proposal_id: u64, weight: i128, is_yes: bool) -> bool {
        self.proposals@.contains_key(proposal_id) ==> if is_yes {
            self.proposals@[proposal_id].yes_votes + weight <= i128::MAX
        } else {
            self.proposals@[proposal_id].no_votes + weight <= i128::MAX
        }
    }

    /// What a ballot of `weight` by `voter` on proposal `proposal_id` at
    /// `now` is answered, the voter's balance being `voter_balance`.
    pub open spec fn vote_outcome(
        &self,
        voter: Address,
        proposal_id: u64,
        weight: i128,
        voter_balance: i128,
        now: u64,
    ) -> Result<(), GovernanceError> {
        if weight <= 0 {
            Err(GovernanceError::WeightNotPositive)
        } else if self.token is None {
            Err(GovernanceError::NotInitialized)
        } else if weight > voter_balance {
            Err(GovernanceError::WeightExceedsBalance)
        } else if !self.proposals@.contains_key(proposal_id) {
            Err(GovernanceError::ProposalNotFound)
        } else if now > self.proposals@[proposal_id].expires_at {
            Err(GovernanceError::VotingPeriodEnded)
        } else if self.votes@.contains_key((proposal_id, voter)) {
            Err(GovernanceError::AlreadyVoted)
        } else {
            Ok(())
        }
    }

    /// Check a ballot before it is cast: `Ok` exactly when `vote` admits
    /// it, otherwise the reason it is refused.
    pub fn vote_check(
        &self,
        voter: Address,
        proposal_id: u64,
        weight: i128,
        voter_balance: i128,
        now: u64,
    ) -> (r: Result<(), GovernanceError>)
        requires
            self.wf(),
        ensures
            r == self.vote_outcome(voter, proposal_id, weight, voter_balance, now),
    {
        if weight <= 0 {
            return Err(GovernanceError::WeightNotPositive);
        }
        if self.token.is_none() {
            return Err(GovernanceError::NotInitialized);
        }
        if weight > voter_balance {
            return Err(GovernanceError::WeightExceedsBalance);
        }
        match self.proposals.get(&proposal_id) {
            Some(p) => {
                if now > p.expires_at {
                    return Err(GovernanceError::VotingPeriodEnded);
                }
            },
            None => return Err(GovernanceError::ProposalNotFound),
        }
        if self.votes.contains(&(proposal_id, voter)) {
            return Err(GovernanceError::AlreadyVoted);
        }
        Ok(())
    }

    /// `voter` casts a ballot of `weight` on proposal `proposal_id` at
    /// `now`; the token contract has reported `voter_balance` as the
    /// voter's balance. The weight must be positive and within the balance,
    /// voting must still be open, and each voter votes once per proposal
    /// (`vote_check` tells which of these fails). The chosen tally grows by
    /// `weight` and the ballot is recorded. The voter must have authorized
    /// the call.
    pub fn vote(
        &mut self,
        voter: Address,
        proposal_id: u64,
        weight: i128,
        is_yes: bool,
        voter_balance: i128,
        now: u64,
    )
        requires
            old(self).wf(),
            old(self).vote_fits(proposal_id, weight, is_yes),
            old(self).vote_outcome(voter, proposal_id, weight, voter_balance, now) is Ok,
        ensures
            final(self).wf(),
            ({
                let p = old(self).proposals@[proposal_id];
                &&& final(self).votes@ == old(self).votes@.insert(
                    (proposal_id, voter),
                    VoteRecord { voter, weight, is_yes, timestamp: now },
                )
                &&& final(self).proposals@ == old(self).proposals@.insert(
                    proposal_id,
                    if is_yes {
                        Proposal { yes_votes: (p.yes_votes + weight) as i128, ..p }
                    } else {
                        Proposal { no_votes: (p.no_votes + weight) as i128, ..p }
                    },
                )
                &&& final(self).pending_actions@ == old(self).pending_actions@
                &&& final(self).proposal_counter == old(self).proposal_counter
                &&& Self::same_settings(final(self), old(self))
            }),
    {
        let updated = match self.proposals.get(&proposal_id) {
            Some(p) => {
                if is_yes {
                    Self::rebuild(p, p.yes_votes + weight, p.no_votes, p.is_finalized, p.is_executed)
                } else {
                    Self::rebuild(p, p.yes_votes, p.no_votes + weight, p.is_finalized, p.is_executed)
                }
            },
            None => return,
        };
        let ghost old_votes = self.votes@;
        let key = (proposal_id, voter);
        self.proposals.insert(proposal_id, updated);
        self.votes.insert(key, VoteRecord { voter, weight, is_yes, timestamp: now });
        proof {
            old(self).votes.lemma_dom_finite();
            self.votes.lemma_dom_finite();
            let new_votes = self.votes@;
            assert(new_votes.dom() =~= old_votes.dom().insert(key));
            assert(self.proposals@.dom() =~= old(self).proposals@.dom());
            assert forall|id: u64| #[trigger] self.proposals@.contains_key(id) implies {
                let q = self.proposals@[id];
                &&& q.id == id
                &&& q.yes_votes == yes_tally(self.votes@, id)
                &&& q.no_votes == no_tally(self.votes@, id)
            } by {
                assert(old(self).proposals@.contains_key(id));
                lemma_sum_update(old_votes.dom(), yes_weight(old_votes, id), yes_weight(new_votes, id), key);
                lemma_sum_update(old_votes.dom(), no_weight(old_votes, id), no_weight(new_votes, id), key);
            }
        }
    }

    /// What closing voting on proposal `proposal_id` at `now` is answered.
    pub open spec fn finalize_outcome(&self, proposal_id: u64, now: u64) -> Result<(), GovernanceError> {
        if !self.proposals@.contains_key(proposal_id) {
            Err(GovernanceError::ProposalNotFound)
        } else if now <= self.proposals@[proposal_id].expires_at {
            Err(GovernanceError::VotingPeriodNotEnded)
        } else {
            Ok(())
        }
    }

    /// Check a finalization before it is made: `Ok` exactly when
    /// `finalize_proposal` admits it, otherwise the reason it is refused.
    pub fn finalize_check(&self, proposal_id: u64, now: u64) -> (r: Result<(), GovernanceError>)
        requires
            self.wf(),
        ensures
            r == self.finalize_outcome(proposal_id, now),
    {
        match self.proposals.get(&proposal_id) {
            Some(p) => {
                if now <= p.expires_at {
                    Err(GovernanceError::VotingPeriodNotEnded)
                } else {
                    Ok(())
                }
            },
            None => Err(GovernanceError::ProposalNotFound),
        }
    }

    /// Close voting on a proposal once its period has ended at `now`; the
    /// proposal must exist and its period have ended (`finalize_check`).
    pub fn finalize_proposal(&mut self, proposal_id: u64, now: u64)
        requires
            old(self).wf(),
            old(self).finalize_outcome(proposal_id, now) is Ok,
        ensures
            final(self).wf(),
            final(self).proposals@ == old(self).proposals@.insert(
                proposal_id,
                Proposal { is_finalized: true, ..old(self).proposals@[proposal_id] },
            ),
            final(self).votes@ == old(self).votes@,
            final(self).pending_actions@ == old(self).pending_actions@,
            final(self).proposal_counter == old(self).proposal_counter,
            Self::same_settings(final(self), old(self)),
    {
        let updated = match self.proposals.get(&proposal_id) {
            Some(p) => Self::rebuild(p, p.yes_votes, p.no_votes, true, p.is_executed),
            None => return,
        };
        self.proposals.insert(proposal_id, updated);
        proof {
            assert(self.proposals@.dom() =~= old(self).proposals@.dom());
        }
    }

    /// The arithmetic of an execution stays in range.
    pub open spec fn execute_fits(&self, proposal_id: u64, total_supply: i128) -> bool {
        self.proposals@.contains_key(proposal_id) ==> {
            let p = self.proposals@[proposal_id];
            &&& p.yes_votes + p.no_votes <= i128::MAX
            &&& i128::MIN <= total_supply * self.quorum_percentage() <= i128::MAX
            &&& p.yes_votes * 100 <= i128::MAX
        }
    }

    /// Whether a finalized proposal passes: its ballots reach the quorum
    /// share of `total_supply`, and its yes share, in whole percent rounded
    /// down, reaches its threshold.
    pub open spec fn execute_outcome(&self, proposal_id: u64, total_supply: i128) -> Result<(), GovernanceError> {
        let p = self.proposals@[proposal_id];
        let total = p.yes_votes + p.no_votes;
        if !self.proposals@.contains_key(proposal_id) {
            Err(GovernanceError::ProposalNotFound)
        } else if !p.is_finalized {
            Err(GovernanceError::NotFinalized)
        } else if p.is_executed {
            Err(GovernanceError::AlreadyExecuted)
        } else if self.token is None {
            Err(GovernanceError::NotInitialized)
        } else if total < trunc_div(total_supply * self.quorum_percentage(), 100) {
            Err(GovernanceError::QuorumNotMet)
        } else if total == 0 || (p.yes_votes * 100) / total < p.threshold_percentage {
            Err(GovernanceError::ThresholdNotMet)
        } else {
            Ok(())
        }
    }

    /// Check an execution before it is made, given the voting token's
    /// `total_supply`: `Ok` exactly when `execute_proposal` admits it,
    /// otherwise the reason it is refused.
    pub fn execute_check(&self, proposal_id: u64, total_supply: i128) -> (r: Result<(), GovernanceError>)
        requires
            self.wf(),
            self.execute_fits(proposal_id, total_supply),
        ensures
            r == self.execute_outcome(proposal_id, total_supply),
    {
        proof {
            self.votes.lemma_dom_finite();
            if self.proposals@.contains_key(proposal_id) {
                assert forall|k: (u64, Address)| self.votes@.dom().contains(k) implies yes_weight(self.votes@, proposal_id)(k) >= 0 by {
                    assert(self.votes@.contains_key(k));
                }
                assert forall|k: (u64, Address)| self.votes@.dom().contains(k) implies no_weight(self.votes@, proposal_id)(k) >= 0 by {
                    assert(self.votes@.contains_key(k));
                }
                lemma_sum_nonneg(self.votes@.dom(), yes_weight(self.votes@, proposal_id));
                lemma_sum_nonneg(self.votes@.dom(), no_weight(self.votes@, proposal_id));
            }
        }
        let quorum_percentage: u32 = match self.min_quorum_percentage {
            Some(q) => q,
            None => DEFAULT_QUORUM_PERCENTAGE,
        };
        match self.proposals.get(&proposal_id) {
            Some(p) => {
                if !p.is_finalized {
                    return Err(GovernanceError::NotFinalized);
                }
                if p.is_executed {
                    return Err(GovernanceError::AlreadyExecuted);
                }
                let total_votes = p.yes_votes + p.no_votes;
                if self.token.is_none() {
                    return Err(GovernanceError::NotInitialized);
                }
                let required_quorum = total_supply * (quorum_percentage as i128) / 100;
                assert(required_quorum == trunc_div(total_supply * quorum_percentage, 100));
                if total_votes < required_quorum {
                    return Err(GovernanceError::QuorumNotMet);
                }
                if total_votes == 0 || (p.yes_votes * 100 / total_votes) < p.threshold_percentage as i128 {
                    return Err(GovernanceError::ThresholdNotMet);
                }
                Ok(())
            },
            None => Err(GovernanceError::ProposalNotFound),
        }
    }

    /// Execute a finalized, passed proposal, given the voting token's
    /// `total_supply`: it must be finalized and not yet executed, and its
    /// ballots must reach the quorum and its threshold (`execute_check`).
    /// Returns the action the proposal carries, if any, for the caller to
    /// perform (approve a claim, pay from the risk pool, or change a
    /// policy); the action is consumed and the proposal marked executed.
    pub fn execute_proposal(&mut self, proposal_id: u64, total_supply: i128) -> (r: Option<GovernanceAction>)
        requires
            old(self).wf(),
            old(self).execute_outcome(proposal_id, total_supply) is Ok,
        ensures
            final(self).wf(),
            r == (if old(self).pending_actions@.contains_key(proposal_id) {
                Some(old(self).pending_actions@[proposal_id])
            } else {
                None
            }),
            final(self).pending_actions@ == old(self).pending_actions@.remove(proposal_id),
            final(self).proposals@ == old(self).proposals@.insert(
                proposal_id,
                Proposal { is_executed: true, ..old(self).proposals@[proposal_id] },
            ),
            final(self).votes@ == old(self).votes@,
            final(self).proposal_counter == old(self).proposal_counter,
            Self::same_settings(final(self), old(self)),
    {
        let updated = match self.proposals.get(&proposal_id) {
            Some(p) => Self::rebuild(p, p.yes_votes, p.no_votes, p.is_finalized, true),
            None => return None,
        };
        let action = self.pending_actions.remove(&proposal_id);
        self.proposals.insert(proposal_id, updated);
        proof {
            assert(self.proposals@.dom() =~= old(self).proposals@.dom());
        }
        action
    }

    /// Execute a slashing proposal: the same conditions and effects as
    /// `execute_proposal`.
    pub fn execute_slashing_proposal(&mut self, proposal_id: u64, total_supply: i128) -> (r: Option<GovernanceAction>)
        requires
            old(self).wf(),
            old(self).execute_outcome(proposal_id, total_supply) is Ok,
        ensures
            final(self).wf(),
            r == (if old(self).pending_actions@.contains_key(proposal_id) {
                Some(old(self).pending_actions@[proposal_id])
            } else {
                None
            }),
            final(self).pending_actions@ == old(self).pending_actions@.remove(proposal_id),
            final(self).proposals@ == old(self).proposals@.insert(
                proposal_id,
                Proposal { is_executed: true, ..old(self).proposals@[proposal_id] },
            ),
            final(self).votes@ == old(self).votes@,
            final(self).proposal_counter == old(self).proposal_counter,
            Self::same_settings(final(self), old(self)),
    {
        self.execute_proposal(proposal_id, total_supply)
    }

    /// The admin sets the quorum percentage, which must lie in `1..=100`
    /// (`check_quorum_percentage`); the contract must be initialized. The
    /// admin must have authorized the call.
    pub fn set_min_quorum_percentage(&mut self, value: u32)
        requires
            old(self).wf(),
            old(self).admin is Some,
            1 <= value <= 100,
        ensures
            final(self).wf(),
            *final(self) == (GovernanceContract { min_quorum_percentage: Some(value), ..*old(self) }),
    {
        validate_quorum_percentage(value);
        self.min_quorum_percentage = Some(value);
    }

    /// The proposal with id `proposal_id`, which must exist
    /// (`has_proposal`).
    pub fn get_proposal(&self, proposal_id: u64) -> (r: Proposal)
        requires
            self.wf(),
            self.proposals@.contains_key(proposal_id),
        ensures
            r == self.proposals@[proposal_id],
    {
        let p = self.proposals.get(&proposal_id).unwrap();
        Self::rebuild(p, p.yes_votes, p.no_votes, p.is_finalized, p.is_executed)
    }

    /// Whether proposal `id` is still open for voting at `now`.
    pub open spec fn is_open(&self, id: u64, now: u64) -> bool {
        &&& self.proposals@.contains_key(id)
        &&& !self.proposals@[id].is_finalized
        &&& now <= self.proposals@[id].expires_at
    }

    /// The ids, in increasing order, of the proposals still open for voting
    /// at `now`.
    pub fn get_active_proposals(&self, now: u64) -> (r: Vec<u64>)
        requires
            self.wf(),
        ensures
            forall|i: int, j: int| 0 <= i < j < r@.len() ==> r@[i] < r@[j],
            forall|id: u64| r@.contains(id) <==> self.is_open(id, now),
    {
        let counter = self.proposal_counter;
        let mut list: Vec<u64> = Vec::new();
        let mut k: u64 = 0;
        while k < counter
            invariant
                self.wf(),
                counter == self.proposal_counter,
                k <= counter,
                forall|i: int, j: int| 0 <= i < j < list@.len() ==> list@[i] < list@[j],
                forall|i: int| 0 <= i < list@.len() ==> list@[i] <= k,
                forall|id: u64| list@.contains(id) <==> (id <= k && self.is_open(id, now)),
            decreases counter - k,
        {
            let id = k + 1;
            let ghost before = list@;
            match self.proposals.get(&id) {
                Some(p) => {
                    if !p.is_finalized && now <= p.expires_at {
                        list.push(id);
                    }
                },
                None => {},
            }
            proof {
                assert forall|x: u64| list@.contains(x) <==> (x <= id && self.is_open(x, now)) by {
                    if list@.contains(x) && x != id {
                        let i = choose|i: int| 0 <= i < list@.len() && list@[i] == x;
                        assert(before[i] == x);
                        assert(before.contains(x));
                    }
                    if x <= id && self.is_open(x, now) && x != id {
                        assert(before.contains(x));
                        let i = choose|i: int| 0 <= i < before.len() && before[i] == x;
                        assert(list@[i] == x);
                    }
                    if x == id && self.is_open(x, now) {
                        assert(list@[list@.len() - 1] == x);
                    }
                }
            }
            k = id;
        }
        list
    }

    /// The tally of proposal `proposal_id` and where it stands at `now`:
    /// executed, else finalized, else expired once `now` is past its end,
    /// else active. The proposal must exist (`has_proposal`).
    pub fn get_proposal_stats(&self, proposal_id: u64, now: u64) -> (r: ProposalStats)
        requires
            self.wf(),
            self.proposals@.contains_key(proposal_id),
            self.proposals@[proposal_id].yes_votes + self.proposals@[proposal_id].no_votes <= i128::MAX,
        ensures
            r == ({
                let p = self.proposals@[proposal_id];
                ProposalStats {
                    yes_votes: p.yes_votes,
                    no_votes: p.no_votes,
                    total_votes: (p.yes_votes + p.no_votes) as i128,
                    status: if p.is_executed {
                        ProposalStatus::Executed
                    } else if p.is_finalized {
                        ProposalStatus::Finalized
                    } else if now > p.expires_at {
                        ProposalStatus::Expired
                    } else {
                        ProposalStatus::Active
                    },
                }
            }),
    {
        proof {
            self.votes.lemma_dom_finite();
            if self.proposals@.contains_key(proposal_id) {
                assert forall|k: (u64, Address)| self.votes@.dom().contains(k) implies yes_weight(self.votes@, proposal_id)(k) >= 0 by {
                    assert(self.votes@.contains_key(k));
                }
                assert forall|k: (u64, Address)| self.votes@.dom().contains(k) implies no_weight(self.votes@, proposal_id)(k) >= 0 by {
                    assert(self.votes@.contains_key(k));
                }
                lemma_sum_nonneg(self.votes@.dom(), yes_weight(self.votes@, proposal_id));
                lemma_sum_nonneg(self.votes@.dom(), no_weight(self.votes@, proposal_id));
            }
        }
        match self.proposals.get(&proposal_id) {
            Some(p) => {
                let status = if p.is_executed {
                    ProposalStatus::Executed
                } else if p.is_finalized {
                    ProposalStatus::Finalized
                } else if now > p.expires_at {
                    ProposalStatus::Expired
                } else {
                    ProposalStatus::Active
                };
                ProposalStats {
                    yes_votes: p.yes_votes,
                    no_votes: p.no_votes,
                    total_votes: p.yes_votes + p.no_votes,
                    status,
                }
            },
            None => ProposalStats { yes_votes: 0, no_votes: 0, total_votes: 0, status: ProposalStatus::Active },
        }
    }

    /// Every proposal id ever issued, in increasing order: `1..=proposal_counter`.
    pub fn get_all_proposals(&self) -> (r: Vec<u64>)
        ensures
            r@.len() == self.proposal_counter,
            forall|i: int| 0 <= i < r@.len() ==> r@[i] == i + 1,
    {
        let counter = self.proposal_counter;
        let mut list: Vec<u64> = Vec::new();
        let mut k: u64 = 0;
        while k < counter
            invariant
                k <= counter,
                list@.len() == k,
                forall|i: int| 0 <= i < list@.len() ==> list@[i] == i + 1,
            decreases counter - k,
        {
            list.push(k + 1);
            k = k + 1;
        }
        list
    }

    /// The ballot `voter` cast on proposal `proposal_id`, if any.
    pub fn get_vote_record(&self, proposal_id: u64, voter: Address) -> (r: Option<VoteRecord>)
        requires
            self.wf(),
        ensures
            r == (if self.votes@.contains_key((proposal_id, voter)) {
                Some(self.votes@[(proposal_id, voter)])
            } else {
                None
            }),
    {
        match self.votes.get(&(proposal_id, voter)) {
            Some(v) => Some(*v),
            None => None,
        }
    }
}

/// One voter, one ballot: once `voter` has voted on a proposal, any further
/// ballot of theirs on it is refused, whatever its weight, balance or time.
pub proof fn lemma_vote_once(
    g: GovernanceContract,
    voter: Address,
    proposal_id: u64,
    weight: i128,
    voter_balance: i128,
    now: u64,
)
    requires
        g.votes@.contains_key((proposal_id, voter)),
    ensures
        g.vote_outcome(voter, proposal_id, weight, voter_balance, now) is Err,
{
}

/// A proposal is executed at most once: after a successful execution, which
/// marks it executed, executing it again is refused with `AlreadyExecuted`.
pub proof fn lemma_execute_once(before: GovernanceContract, after: GovernanceContract, proposal_id: u64, total_supply: i128, later_supply: i128)
    requires
        before.execute_outcome(proposal_id, total_supply) is Ok,
        after.proposals@ == before.proposals@.insert(
            proposal_id,
            Proposal { is_executed: true, ..before.proposals@[proposal_id] },
        ),
    ensures
        after.execute_outcome(proposal_id, later_supply) == Err::<(), GovernanceError>(GovernanceError::AlreadyExecuted),
{
}

/// A proposal passes only with a quorum: when its ballots fall short of the
/// quorum share of the supply, execution is refused.
pub proof fn lemma_no_execution_without_quorum(g: GovernanceContract, proposal_id: u64, total_supply: i128)
    requires
        g.proposals@.contains_key(proposal_id),
        g.proposals@[proposal_id].is_finalized,
        !g.proposals@[proposal_id].is_executed,
        g.token is Some,
        g.proposals@[proposal_id].yes_votes + g.proposals@[proposal_id].no_votes < trunc_div(
            total_supply * g.quorum_percentage(),
            100,
        ),
    ensures
        g.execute_outcome(proposal_id, total_supply) == Err::<(), GovernanceError>(GovernanceError::QuorumNotMet),
{
}

/// How a finalized, not yet executed proposal is decided, in whole
/// numbers: with total ballots `t`, yes ballots `y`, quorum percentage `q`
/// and a token supply `s`, it meets its quorum when `s * q < 100 * (t + 1)`
/// (at least `q` percent of `s`, rounded down, has voted), and its threshold
/// when `t > 0` and `100 * y >= threshold * t` (at least `threshold` percent
/// of the ballots say yes). It is executed exactly when both hold; a missed
/// quorum is refused with `QuorumNotMet`, a missed threshold with
/// `ThresholdNotMet`.
pub proof fn lemma_quorum_and_threshold_decide(g: GovernanceContract, proposal_id: u64, total_supply: i128)
    requires
        g.wf(),
        g.proposals@.contains_key(proposal_id),
        g.proposals@[proposal_id].is_finalized,
        !g.proposals@[proposal_id].is_executed,
        g.token is Some,
        total_supply >= 0,
    ensures
        ({
            let p = g.proposals@[proposal_id];
            let t = p.yes_votes + p.no_votes;
            let quorum_met = total_supply * g.quorum_percentage() < 100 * (t + 1);
            let threshold_met = t > 0 && 100 * p.yes_votes >= p.threshold_percentage * t;
            &&& (quorum_met && threshold_met) <==> g.execute_outcome(proposal_id, total_supply) is Ok
            &&& !quorum_met ==> g.execute_outcome(proposal_id, total_supply) == Err::<(), GovernanceError>(
                GovernanceError::QuorumNotMet,
            )
            &&& quorum_met && !threshold_met ==> g.execute_outcome(proposal_id, total_supply) == Err::<
                (),
                GovernanceError,
            >(GovernanceError::ThresholdNotMet)
        }),
{
    let p = g.proposals@[proposal_id];
    let y = p.yes_votes as int;
    let n = p.no_votes as int;
    let t = y + n;
    let thr = p.threshold_percentage as int;
    g.votes.lemma_dom_finite();
    assert forall|k: (u64, Address)| g.votes@.dom().contains(k) implies yes_weight(g.votes@, proposal_id)(k) >= 0 by {
        assert(g.votes@.contains_key(k));
    }
    assert forall|k: (u64, Address)| g.votes@.dom().contains(k) implies no_weight(g.votes@, proposal_id)(k) >= 0 by {
        assert(g.votes@.contains_key(k));
    }
    lemma_sum_nonneg(g.votes@.dom(), yes_weight(g.votes@, proposal_id));
    lemma_sum_nonneg(g.votes@.dom(), no_weight(g.votes@, proposal_id));
    assert(y >= 0 && n >= 0);
    let x = total_supply * g.quorum_percentage();
    assert(x >= 0) by (nonlinear_arith)
        requires
            total_supply >= 0,
            g.quorum_percentage() >= 0,
            x == total_supply * g.quorum_percentage(),
    ;
    lemma_fundamental_div_mod(x, 100);
    lemma_mod_pos_bound(x, 100);
    assert(trunc_div(x, 100) == x / 100);
    assert((t >= x / 100) <==> (x < 100 * (t + 1)));
    if t > 0 {
        let d = (y * 100) / t;
        lemma_fundamental_div_mod(y * 100, t);
        lemma_mod_pos_bound(y * 100, t);
        assert(y * 100 == t * d + (y * 100) % t);
        if d >= thr {
            assert(t * d >= t * thr) by (nonlinear_arith)
                requires
                    t > 0,
                    d >= thr,
            ;
            assert(thr * t == t * thr) by (nonlinear_arith);
            assert(100 * y >= thr * t);
        } else {
            assert(t * (d + 1) <= t * thr) by (nonlinear_arith)
                requires
                    t > 0,
                    d + 1 <= thr,
            ;
            assert(t * (d + 1) == t * d + t) by (nonlinear_arith);
            assert(thr * t == t * thr) by (nonlinear_arith);
            assert(100 * y < thr * t);
        }
    }
}

} // verus!
