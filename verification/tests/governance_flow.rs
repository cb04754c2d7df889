use stellar_insured::address::Address;
use stellar_insured::governance::{
    check_quorum_percentage, check_threshold_percentage, GovernanceContract, GovernanceError, ProposalStatus,
};
use stellar_insured::insurance_types::GovernanceAction;

fn addr(n: u128) -> Address {
    Address::account(n, n)
}

/// The contract's message for a refused call.
fn fail(e: GovernanceError) -> ! {
    match e {
        GovernanceError::WeightNotPositive => panic!("Weight must be positive"),
        GovernanceError::WeightExceedsBalance => panic!("Voting weight exceeds token balance"),
        GovernanceError::VotingPeriodEnded => panic!("Voting period ended"),
        GovernanceError::AlreadyVoted => panic!("Already voted"),
        GovernanceError::VotingPeriodNotEnded => panic!("Voting period not yet ended"),
        GovernanceError::NotFinalized => panic!("Proposal must be finalized first"),
        GovernanceError::AlreadyExecuted => panic!("Already executed"),
        GovernanceError::QuorumNotMet => panic!("Quorum not met"),
        GovernanceError::ThresholdNotMet => panic!("Threshold not met"),
        GovernanceError::ProposalNotFound => panic!("Proposal not found"),
        other => panic!("{:?}", other),
    }
}

/// Cast a ballot as the contract does: checked first, refused with the
/// contract's message.
fn vote(g: &mut GovernanceContract, voter: Address, id: u64, weight: i128, yes: bool, balance: i128, now: u64) {
    match g.vote_check(voter, id, weight, balance, now) {
        Ok(()) => g.vote(voter, id, weight, yes, balance, now),
        Err(e) => fail(e),
    }
}

fn finalize(g: &mut GovernanceContract, id: u64, now: u64) {
    match g.finalize_check(id, now) {
        Ok(()) => g.finalize_proposal(id, now),
        Err(e) => fail(e),
    }
}

fn execute(g: &mut GovernanceContract, id: u64, supply: i128) -> Option<GovernanceAction> {
    match g.execute_check(id, supply) {
        Ok(()) => g.execute_proposal(id, supply),
        Err(e) => fail(e),
    }
}

fn setup() -> GovernanceContract {
    let mut g = GovernanceContract::new();
    g.initialize(addr(1), addr(2), addr(3), 3600, addr(4), addr(5), addr(6));
    g
}

fn propose(g: &mut GovernanceContract) -> u64 {
    g.create_proposal(addr(10), "Test Prop".to_string(), "Desc".to_string(), "Data".to_string(), 50, 0)
}

#[test]
fn test_successful_voting_up_to_balance() {
    let mut g = setup();
    let voter = addr(20);
    let proposal_id = propose(&mut g);

    // Vote exactly the voter's balance of 100.
    vote(&mut g, voter, proposal_id, 100, true, 100, 0);

    let stats = g.get_proposal_stats(proposal_id, 0);
    assert_eq!(stats.yes_votes, 100);
}

#[test]
fn test_quorum_and_threshold_met_success() {
    let mut g = setup();
    let voter1 = addr(20);
    let proposal_id = propose(&mut g);

    // Total supply 1000; voter1 holds 150 (15%).
    vote(&mut g, voter1, proposal_id, 150, true, 150, 0);

    finalize(&mut g, proposal_id, 3601);

    assert_eq!(execute(&mut g, proposal_id, 1000), None);

    let stats = g.get_proposal_stats(proposal_id, 3601);
    assert_eq!(stats.status, ProposalStatus::Executed);
}

#[test]
#[should_panic(expected = "Voting weight exceeds token balance")]
fn test_attacker_with_zero_tokens_cannot_vote() {
    let mut g = setup();
    let proposal_id = propose(&mut g);
    // The attacker holds no tokens; a ballot of weight 1 is refused.
    vote(&mut g, addr(30), proposal_id, 1, true, 0, 0);
}

#[test]
#[should_panic(expected = "Voting weight exceeds token balance")]
fn test_cannot_vote_exceeding_token_balance() {
    let mut g = setup();
    let proposal_id = propose(&mut g);
    // The voter holds 100 tokens; a ballot of weight 101 is refused.
    vote(&mut g, addr(20), proposal_id, 101, true, 100, 0);
}

#[test]
#[should_panic(expected = "Quorum not met")]
fn test_quorum_enforcement_rejection() {
    let mut g = setup();
    let proposal_id = propose(&mut g);
    // 90 of a supply of 1000 is 9%, below the default 10% quorum.
    vote(&mut g, addr(20), proposal_id, 90, true, 90, 0);
    finalize(&mut g, proposal_id, 3601);
    execute(&mut g, proposal_id, 1000);
}

#[test]
fn the_checks_name_each_refusal() {
    let mut g = setup();
    let proposal_id = propose(&mut g);
    assert_eq!(g.vote_check(addr(20), proposal_id, 0, 100, 0), Err(GovernanceError::WeightNotPositive));
    assert_eq!(g.vote_check(addr(20), proposal_id, 101, 100, 0), Err(GovernanceError::WeightExceedsBalance));
    assert_eq!(g.vote_check(addr(20), 99, 10, 100, 0), Err(GovernanceError::ProposalNotFound));
    assert_eq!(g.vote_check(addr(20), proposal_id, 10, 100, 3601), Err(GovernanceError::VotingPeriodEnded));
    vote(&mut g, addr(20), proposal_id, 10, true, 100, 0);
    assert_eq!(g.vote_check(addr(20), proposal_id, 10, 100, 0), Err(GovernanceError::AlreadyVoted));
    assert_eq!(g.finalize_check(proposal_id, 3600), Err(GovernanceError::VotingPeriodNotEnded));
    assert_eq!(g.finalize_check(99, 3601), Err(GovernanceError::ProposalNotFound));
    assert_eq!(g.execute_check(proposal_id, 1000), Err(GovernanceError::NotFinalized));
    assert_eq!(g.execute_check(99, 1000), Err(GovernanceError::ProposalNotFound));
    finalize(&mut g, proposal_id, 3601);
    // 10 of 1000 is 1%, below the 10% quorum; of 100 it meets it.
    assert_eq!(g.execute_check(proposal_id, 1000), Err(GovernanceError::QuorumNotMet));
    assert_eq!(g.execute_check(proposal_id, 100), Ok(()));
    assert_eq!(execute(&mut g, proposal_id, 100), None);
    assert_eq!(g.execute_check(proposal_id, 100), Err(GovernanceError::AlreadyExecuted));
}

#[test]
fn execution_below_the_threshold_is_refused() {
    let mut g = setup();
    let proposal_id = propose(&mut g);
    vote(&mut g, addr(20), proposal_id, 100, true, 100, 0);
    vote(&mut g, addr(21), proposal_id, 200, false, 200, 0);
    finalize(&mut g, proposal_id, 3601);
    // 100 of 300 votes is 33%, below the 50% threshold.
    assert_eq!(g.execute_check(proposal_id, 1000), Err(GovernanceError::ThresholdNotMet));
}

#[test]
fn the_tallies_add_up_the_ballots() {
    let mut g = setup();
    let proposal_id = propose(&mut g);
    vote(&mut g, addr(20), proposal_id, 40, true, 40, 0);
    vote(&mut g, addr(21), proposal_id, 25, false, 30, 0);
    vote(&mut g, addr(22), proposal_id, 5, true, 5, 0);
    let stats = g.get_proposal_stats(proposal_id, 0);
    assert_eq!(stats.yes_votes, 45);
    assert_eq!(stats.no_votes, 25);
    assert_eq!(stats.total_votes, 70);
    assert_eq!(stats.status, ProposalStatus::Active);
    let record = g.get_vote_record(proposal_id, addr(21)).unwrap();
    assert_eq!(record.weight, 25);
    assert!(!record.is_yes);
}

#[test]
fn each_voter_votes_once() {
    let mut g = setup();
    let proposal_id = propose(&mut g);
    vote(&mut g, addr(20), proposal_id, 10, true, 100, 0);
    assert_eq!(g.vote_check(addr(20), proposal_id, 10, 100, 0), Err(GovernanceError::AlreadyVoted));
}

#[test]
fn voting_closes_at_the_end_of_the_period() {
    let mut g = setup();
    let proposal_id = propose(&mut g);
    assert_eq!(g.get_proposal_stats(proposal_id, 3601).status, ProposalStatus::Expired);
    assert_eq!(g.vote_check(addr(20), proposal_id, 10, 100, 3601), Err(GovernanceError::VotingPeriodEnded));
}

#[test]
fn finalization_waits_for_the_end_of_voting() {
    let mut g = setup();
    let proposal_id = propose(&mut g);
    assert_eq!(g.get_proposal_stats(proposal_id, 100).status, ProposalStatus::Active);
    assert_eq!(g.finalize_check(proposal_id, 3600), Err(GovernanceError::VotingPeriodNotEnded));
}

#[test]
fn a_proposal_executes_once_and_hands_over_its_action() {
    let mut g = setup();
    let proposal_id = g.create_claim_approval_proposal(addr(10), 77, 50, 0);
    vote(&mut g, addr(20), proposal_id, 500, true, 500, 0);
    finalize(&mut g, proposal_id, 3601);
    assert_eq!(execute(&mut g, proposal_id, 1000), Some(GovernanceAction::ClaimApproval(77)));
    assert_eq!(g.execute_check(proposal_id, 1000), Err(GovernanceError::AlreadyExecuted));
}

#[test]
fn the_quorum_rounds_toward_zero() {
    let mut g = setup();
    let proposal_id = propose(&mut g);
    // 10% of 99 is 9.9, which rounds down to 9: nine votes meet the quorum.
    vote(&mut g, addr(20), proposal_id, 9, true, 9, 0);
    finalize(&mut g, proposal_id, 3601);
    assert_eq!(execute(&mut g, proposal_id, 99), None);
}

#[test]
fn initialization_is_reported() {
    let g = GovernanceContract::new();
    assert!(!g.is_initialized());
    let g = setup();
    assert!(g.is_initialized());
}

#[test]
fn proposals_validate_their_threshold() {
    assert_eq!(check_threshold_percentage(0), Err(GovernanceError::ThresholdPercentageZero));
    assert_eq!(check_threshold_percentage(101), Err(GovernanceError::ThresholdPercentageAboveHundred));
    let mut g = setup();
    let id = g.create_slashing_proposal(addr(10), "misbehaviour".to_string(), 100, 0);
    assert_eq!(g.get_proposal(id).threshold_percentage, 100);
    assert_eq!(g.get_proposal(id).title, "Slashing Proposal".to_string());
}

#[test]
fn the_quorum_percentage_can_be_raised() {
    let mut g = setup();
    assert_eq!(check_quorum_percentage(0), Err(GovernanceError::QuorumPercentageZero));
    assert_eq!(check_quorum_percentage(101), Err(GovernanceError::QuorumPercentageAboveHundred));
    g.set_min_quorum_percentage(20);
    let proposal_id = propose(&mut g);
    vote(&mut g, addr(20), proposal_id, 150, true, 150, 0);
    finalize(&mut g, proposal_id, 3601);
    assert_eq!(g.execute_check(proposal_id, 1000), Err(GovernanceError::QuorumNotMet));
}

#[test]
fn listings_report_open_and_all_proposals() {
    let mut g = setup();
    let first = propose(&mut g);
    let second = g.create_fund_allocation_proposal(addr(10), addr(40), 500, 60, 0);
    finalize(&mut g, first, 3601);
    assert_eq!(g.get_all_proposals(), vec![1, 2]);
    assert_eq!(g.get_active_proposals(3600), vec![second]);
    assert_eq!(g.get_active_proposals(3601), Vec::<u64>::new());
    assert_eq!(g.get_proposal(second).title, "Fund Allocation Proposal".to_string());
    assert!(!g.has_proposal(9));
    assert!(g.has_proposal(second));
    assert_eq!(g.get_vote_record(first, addr(20)), None);
}

#[test]
fn a_slashing_proposal_executes_like_any_other() {
    let mut g = setup();
    let proposal_id = g.create_slashing_proposal(addr(10), "double signing".to_string(), 50, 0);
    vote(&mut g, addr(20), proposal_id, 300, true, 300, 0);
    finalize(&mut g, proposal_id, 3601);
    assert_eq!(g.execute_check(proposal_id, 1000), Ok(()));
    assert_eq!(g.execute_slashing_proposal(proposal_id, 1000), None);
    assert_eq!(g.get_proposal_stats(proposal_id, 3601).status, ProposalStatus::Executed);
}
