use stellar_insured::address::Address;
use stellar_insured::claims::{ClaimsContract, DEFAULT_DEADLINE_SECONDS};
use stellar_insured::escrow::types::{ApprovalType, EscrowError, EscrowStatus};
use stellar_insured::escrow::AdvancedEscrow;
use stellar_insured::insurance_types::{ClaimError, ClaimStatus, InsurancePolicy, PolicyStatus, PolicyType};
use stellar_insured::policy::{PolicyContract, PolicyError};
use stellar_insured::random::Randomness;
use stellar_insured::risk_pool::{RiskPoolContract, RiskPoolError};


fn addr(n: u128) -> Address {
    Address::account(n, n)
}

const DAY: u64 = 86_400;

// ---- risk pool ----

fn pool() -> RiskPoolContract {
    let mut p = RiskPoolContract::new();
    p.initialize(addr(1), addr(2), 100).unwrap();
    p
}

#[test]
fn deposits_and_withdrawals_keep_the_books() {
    let mut p = pool();
    p.deposit_liquidity(addr(10), 500).unwrap();
    p.deposit_liquidity(addr(11), 300).unwrap();
    let s = p.get_pool_stats();
    assert_eq!((s.total_capital, s.available_capital, s.provider_count), (800, 800, 2));
    p.withdraw_liquidity(addr(10), 500).unwrap();
    let s = p.get_pool_stats();
    assert_eq!((s.total_capital, s.available_capital, s.provider_count), (300, 300, 1));
    assert_eq!(p.get_provider_info(addr(10)), 0);
}

#[test]
fn a_deposit_withdrawn_again_leaves_the_pool_as_it_was() {
    let mut p = pool();
    p.deposit_liquidity(addr(10), 400).unwrap();
    let before = p.get_pool_stats();
    p.deposit_liquidity(addr(11), 250).unwrap();
    p.withdraw_liquidity(addr(11), 250).unwrap();
    assert_eq!(p.get_pool_stats(), before);
    assert_eq!(p.get_provider_info(addr(11)), 0);
}

#[test]
fn the_pool_refuses_bad_movements() {
    let mut p = pool();
    assert_eq!(p.deposit_liquidity(addr(10), 0), Err(RiskPoolError::InvalidAmount));
    assert_eq!(p.deposit_liquidity(addr(10), 99), Err(RiskPoolError::AmountBelowMinStake));
    p.deposit_liquidity(addr(10), 200).unwrap();
    assert_eq!(p.withdraw_liquidity(addr(10), 201), Err(RiskPoolError::InsufficientStake));
    p.payout_claim(addr(50), 150).unwrap();
    assert_eq!(p.withdraw_liquidity(addr(10), 100), Err(RiskPoolError::InsufficientAvailableCapital));
    let s = p.get_pool_stats();
    assert_eq!((s.total_capital, s.available_capital, s.total_claims_paid), (200, 50, 150));
    assert_eq!(p.initialize(addr(1), addr(2), 100), Err(RiskPoolError::AlreadyInitialized));
    let mut fresh = RiskPoolContract::new();
    assert_eq!(fresh.deposit_liquidity(addr(10), 200), Err(RiskPoolError::NotInitialized));
}

// ---- policy ----

fn policies() -> PolicyContract {
    let mut c = PolicyContract::new();
    c.initialize(addr(1), addr(2));
    c
}

#[test]
fn a_policy_covers_its_term() {
    let mut c = policies();
    let id = c.issue_policy(addr(10), 10_000, 100, 30, PolicyType::Standard, 1_000);
    assert_eq!(id, 1);
    assert!(c.has_policy(id));
    assert!(!c.has_policy(9));
    assert!(c.is_active(id, 1_000 + 30 * DAY));
    assert!(!c.is_active(id, 1_000 + 30 * DAY + 1));
    assert_eq!(c.get_policy(id).status, PolicyStatus::Active);
    assert_eq!(c.get_stats(), 1);
}

#[test]
fn renewal_extends_and_cancellation_ends_a_policy() {
    let mut c = policies();
    let id = c.issue_policy(addr(10), 10_000, 100, 30, PolicyType::Parametric, 0);
    assert_eq!(c.renew_check(id, 5), Ok(()));
    c.renew_policy(id, 10, 5);
    assert_eq!(c.get_policy(id).duration_days, 40);
    assert_eq!(c.get_policy(id).status, PolicyStatus::Renewed);
    assert_eq!(c.cancel_check(id, 6), Ok(()));
    c.cancel_policy(id, 6);
    assert!(!c.is_active(id, 7));
    assert_eq!(c.renew_check(id, 8), Err(PolicyError::PolicyNotActive));
}

#[test]
fn policies_refuse_what_their_term_does_not_allow() {
    let mut c = policies();
    let id = c.issue_policy(addr(10), 10_000, 100, 1, PolicyType::Standard, 0);
    assert_eq!(c.renew_check(id, DAY + 1), Err(PolicyError::PolicyExpired));
    assert_eq!(c.cancel_check(id, DAY + 1), Err(PolicyError::PolicyAlreadyExpired));
    assert_eq!(c.expire_check(id, DAY - 1), Err(PolicyError::PolicyNotYetExpired));
    assert_eq!(c.expire_check(id, DAY), Ok(()));
    c.expire_policy(id, DAY);
    assert_eq!(c.get_policy(id).status, PolicyStatus::Expired);
    assert_eq!(c.renew_check(9, 0), Err(PolicyError::PolicyNotFound));
    assert_eq!(c.cancel_check(9, 0), Err(PolicyError::PolicyNotFound));
    assert_eq!(c.expire_check(9, 0), Err(PolicyError::PolicyNotFound));
    assert!(!PolicyContract::new().is_initialized());
    assert!(c.is_initialized());
}

#[test]
fn claimed_totals_stay_within_coverage() {
    let mut c = policies();
    let id = c.issue_policy(addr(10), 1_000, 10, 30, PolicyType::Standard, 0);
    assert_eq!(c.update_claimed_check(id, 100), Err(PolicyError::ClaimsContractNotSet));
    c.set_claims_contract(addr(5));
    assert_eq!(c.update_claimed_check(9, 100), Err(PolicyError::PolicyNotFound));
    c.update_claimed(id, 600);
    assert_eq!(c.update_claimed_check(id, 401), Err(PolicyError::TotalClaimedExceedsCoverage));
    assert_eq!(c.update_claimed_check(id, 400), Ok(()));
    c.update_cl(id, 400);
    assert_eq!(c.get_pol(id).total_claimed, 1_000);
}

// ---- claims ----

fn policy(id: u64, coverage: i128, claimed: i128) -> InsurancePolicy {
    InsurancePolicy {
        policy_id: id,
        holder: addr(10),
        coverage_amount: coverage,
        premium_amount: 10,
        start_time: 0,
        duration_days: 30,
        policy_type: PolicyType::Standard,
        status: PolicyStatus::Active,
        risk_pool: addr(2),
        total_claimed: claimed,
    }
}

fn claims() -> ClaimsContract {
    let mut c = ClaimsContract::new();
    c.initialize(addr(1), addr(3), addr(2), None).unwrap();
    c
}

#[test]
fn a_claim_runs_from_submission_to_settlement() {
    let mut c = claims();
    let p = policy(7, 1_000, 0);
    let id = c.submit_claim(7, 400, "flood".to_string(), Some(&p), 100).unwrap();
    assert_eq!(c.get_active_claim(7), Some(id));
    c.start_review(id, 200).unwrap();
    c.approve_claim(id, 300).unwrap();
    let order = c.settle_claim(id, 400).unwrap();
    assert_eq!(order.amount, 400);
    assert_eq!(order.claimant, addr(10));
    assert_eq!(c.finish_settlement(id, 400, 300), Err(ClaimError::InsufficientPoolFunds));
    c.finish_settlement(id, 400, 1_000).unwrap();
    let claim = c.get_claim(id).unwrap();
    assert_eq!(claim.status, ClaimStatus::Settled);
    assert_eq!(claim.settled_at, Some(400));
    assert_eq!(claim.deadline, Some(100 + DEFAULT_DEADLINE_SECONDS));
    assert_eq!(c.get_active_claim(7), None);
    assert_eq!(c.get_claims_by_policy(7), vec![id]);
    assert_eq!(c.settle_claim(id, 500).map(|o| o.amount), Err(ClaimError::InvalidStatusTransition));
}

#[test]
fn a_policy_has_one_claim_in_flight() {
    let mut c = claims();
    let p = policy(7, 1_000, 0);
    let first = c.submit_claim(7, 100, "a".to_string(), Some(&p), 0).unwrap();
    assert_eq!(
        c.submit_claim(7, 100, "b".to_string(), Some(&p), 0),
        Err(ClaimError::PolicyHasActiveClaim)
    );
    c.withdraw_claim(first).unwrap();
    assert_eq!(c.get_claim(first).unwrap().status, ClaimStatus::Withdrawn);
    assert_eq!(c.submit_claim(7, 100, "b".to_string(), Some(&p), 0), Ok(2));
    assert_eq!(c.get_stats(), 2);
}

#[test]
fn claims_are_checked_against_the_policy() {
    let mut c = claims();
    let p = policy(7, 1_000, 900);
    assert_eq!(c.submit_claim(7, 50, "x".to_string(), None, 0), Err(ClaimError::PolicyNotActive));
    assert_eq!(c.submit_claim(7, 0, "x".to_string(), Some(&p), 0), Err(ClaimError::ClaimAmountInvalid));
    assert_eq!(c.submit_claim(7, 101, "x".to_string(), Some(&p), 0), Err(ClaimError::ClaimAmountInvalid));
    assert_eq!(c.start_review(9, 0), Err(ClaimError::ClaimNotFound));
}

#[test]
fn rejected_claims_can_be_disputed_within_the_window() {
    let mut c = claims();
    let p = policy(7, 1_000, 0);
    let id = c.submit_claim(7, 100, "x".to_string(), Some(&p), 0).unwrap();
    assert_eq!(c.reject_claim(id, 1), Err(ClaimError::InvalidStatusTransition));
    c.start_review(id, 1).unwrap();
    c.reject_claim(id, 1).unwrap();
    assert_eq!(c.get_active_claim(7), None);
    c.dispute_claim(id, "unfair".to_string(), 2).unwrap();
    let claim = c.get_claim(id).unwrap();
    assert_eq!(claim.status, ClaimStatus::Disputed);
    assert_eq!(claim.dispute_reason, Some("unfair".to_string()));
    assert_eq!(c.get_active_claim(7), Some(id));
    assert_eq!(c.withdraw_claim(id), Err(ClaimError::ClaimNotWithdrawable));
}

#[test]
fn the_dispute_window_runs_from_the_rejection() {
    let mut c = claims();
    let p = policy(7, 1_000, 0);
    let id = c.submit_claim(7, 100, "x".to_string(), Some(&p), 0).unwrap();
    c.start_review(id, 5 * DAY).unwrap();
    c.reject_claim(id, 10 * DAY).unwrap();
    // Seventeen days after submission, but seven after the rejection.
    assert_eq!(c.dispute_claim(id, "late".to_string(), 17 * DAY), Ok(()));
    assert_eq!(c.get_claim(id).unwrap().status, ClaimStatus::Disputed);

    let p2 = policy(8, 1_000, 0);
    let other = c.submit_claim(8, 100, "y".to_string(), Some(&p2), 0).unwrap();
    c.start_review(other, 1).unwrap();
    c.reject_claim(other, 2 * DAY).unwrap();
    assert_eq!(c.dispute_claim(other, "too late".to_string(), 9 * DAY + 1), Err(ClaimError::ClaimExpired));
    assert_eq!(c.get_claim(other).unwrap().status, ClaimStatus::Rejected);
}

#[test]
fn a_disputed_claim_is_reviewed_again() {
    let mut c = claims();
    let p = policy(7, 1_000, 0);
    let id = c.submit_claim(7, 100, "x".to_string(), Some(&p), 0).unwrap();
    c.start_review(id, 1).unwrap();
    c.reject_claim(id, 2).unwrap();
    c.dispute_claim(id, "unfair".to_string(), 3).unwrap();
    assert_eq!(c.approve_claim(id, 4), Err(ClaimError::InvalidStatusTransition));
    c.start_review(id, 4).unwrap();
    let claim = c.get_claim(id).unwrap();
    assert_eq!(claim.status, ClaimStatus::UnderReview);
    assert_eq!(claim.reviewed_at, Some(4));
    c.approve_claim(id, 5).unwrap();
    assert_eq!(c.get_claim(id).unwrap().status, ClaimStatus::Approved);
    assert_eq!(c.get_active_claim(7), Some(id));
}

#[test]
fn overdue_claims_expire() {
    let mut c = claims();
    let p = policy(7, 1_000, 0);
    let id = c.submit_claim(7, 100, "x".to_string(), Some(&p), 0).unwrap();
    assert_eq!(c.expire_claim(id, DEFAULT_DEADLINE_SECONDS), Err(ClaimError::ClaimExpired));
    assert_eq!(c.is_claim_expired(id, DEFAULT_DEADLINE_SECONDS + 1), Ok(true));
    assert_eq!(c.start_review(id, DEFAULT_DEADLINE_SECONDS + 1), Err(ClaimError::ClaimExpired));
    // A refused call changes nothing; expiring is `expire_claim`'s work.
    assert_eq!(c.get_claim(id).unwrap().status, ClaimStatus::Submitted);
    assert_eq!(c.expire_claim(id, DEFAULT_DEADLINE_SECONDS + 1), Ok(()));
    assert_eq!(c.get_claim(id).unwrap().status, ClaimStatus::Expired);
    assert_eq!(c.get_active_claim(7), None);
    let p2 = policy(8, 1_000, 0);
    let other = c.submit_claim(8, 100, "y".to_string(), Some(&p2), 10).unwrap();
    assert_eq!(c.expire_stale_claims(&vec![other, 99], DEFAULT_DEADLINE_SECONDS + 11), 1);
    assert_eq!(c.get_claim(other).unwrap().status, ClaimStatus::Expired);
}

#[test]
fn the_claims_admin_changes_hands_in_two_steps() {
    let mut c = claims();
    assert_eq!(c.initialize(addr(1), addr(3), addr(2), None), Err(ClaimError::AlreadyInitialized));
    c.transfer_admin(addr(20), 3_600, 0).unwrap();
    assert_eq!(c.get_admin(), Ok(addr(1)));
    assert_eq!(c.get_pending_admin().unwrap().new_admin, addr(20));
    c.accept_admin(3_600).unwrap();
    assert_eq!(c.get_admin(), Ok(addr(20)));
    let mut fresh = ClaimsContract::new();
    assert_eq!(fresh.start_review(1, 0), Err(ClaimError::Unauthorized));
}

// ---- escrow ----

fn escrow() -> AdvancedEscrow {
    let mut e = AdvancedEscrow::new();
    e.init(addr(1)).unwrap();
    e
}

#[test]
fn an_escrow_releases_after_funding_and_approval() {
    let mut e = escrow();
    let id = e
        .create_escrow_advanced(5, 1_000, addr(10), addr(11), vec![addr(10), addr(11)], 2, Some(50), 1, 0)
        .unwrap();
    assert_eq!(e.get_escrow_count(), 1);
    assert_eq!(e.get_nonce(addr(10)), 1);
    e.deposit_funds(id, 400).unwrap();
    assert_eq!(e.get_escrow(id).unwrap().status, EscrowStatus::Funded);
    assert_eq!(e.deposit_funds(id, 601), Err(EscrowError::DepositExceedsAmount));
    e.deposit_funds(id, 600).unwrap();
    assert_eq!(e.get_escrow(id).unwrap().status, EscrowStatus::Active);
    assert_eq!(e.release_funds(id, 60), Err(EscrowError::SignatureThresholdNotMet));
    e.sign_approval(id, ApprovalType::Release, addr(10)).unwrap();
    assert_eq!(e.sign_approval(id, ApprovalType::Release, addr(10)), Err(EscrowError::AlreadySigned));
    assert_eq!(e.sign_approval(id, ApprovalType::Release, addr(12)), Err(EscrowError::Unauthorized));
    e.sign_approval(id, ApprovalType::Release, addr(11)).unwrap();
    assert_eq!(e.get_sig_count(id, ApprovalType::Release), 2);
    assert_eq!(e.release_funds(id, 49), Err(EscrowError::TimeLockActive));
    e.release_funds(id, 50).unwrap();
    assert_eq!(e.get_escrow(id).unwrap().status, EscrowStatus::Released);
    assert_eq!(e.release_funds(id, 60), Err(EscrowError::InvalidStatus));
}

#[test]
fn escrow_creation_is_validated() {
    let mut e = escrow();
    assert_eq!(
        e.create_escrow_advanced(0, 1_000, addr(10), addr(11), vec![addr(10)], 1, None, 1, 0),
        Err(EscrowError::InvalidParameter)
    );
    assert_eq!(
        e.create_escrow_advanced(5, 1_000, addr(10), addr(11), vec![addr(10)], 1, None, 2, 0),
        Err(EscrowError::InvalidNonce)
    );
    assert_eq!(
        e.create_escrow_advanced(5, 1_000, addr(10), addr(11), vec![addr(10)], 2, None, 1, 0),
        Err(EscrowError::InvalidMultisigConfig)
    );
    assert_eq!(
        e.create_escrow_advanced(5, 1_000, addr(10), addr(11), (0..11).map(|n| addr(100 + n)).collect(), 1, None, 1, 0),
        Err(EscrowError::TooManyParticipants)
    );
    assert_eq!(
        e.create_escrow_advanced(5, 1_000, Address::account(0, 0), addr(11), vec![addr(10)], 1, None, 1, 0),
        Err(EscrowError::ZeroAddress)
    );
    assert_eq!(
        e.create_escrow_advanced(5, 1_000, addr(10), addr(11), vec![addr(10)], 1, Some(0), 1, 5),
        Err(EscrowError::InvalidTimestamp)
    );
    // Refused creations record no nonce and no escrow.
    assert_eq!(e.get_nonce(addr(10)), 0);
    assert_eq!(e.get_escrow_count(), 0);
    assert_eq!(e.deposit_funds(9, 1), Err(EscrowError::EscrowNotFound));
}

#[test]
fn the_escrow_pause_is_the_admins() {
    let mut e = escrow();
    assert_eq!(e.init(addr(1)), Err(EscrowError::AlreadyInitialized));
    assert_eq!(e.set_pause(addr(2), true), Err(EscrowError::Unauthorized));
    e.set_pause(addr(1), true).unwrap();
    assert!(e.is_paused());
    assert_eq!(e.deposit_funds(1, 1), Err(EscrowError::ContractPaused));
    let mut fresh = AdvancedEscrow::new();
    assert_eq!(fresh.set_pause(addr(1), true), Err(EscrowError::NotInitialized));
}

// ---- randomness ----

#[test]
fn selection_takes_the_drawn_positions() {
    assert_eq!(Randomness::select_one(vec![3u32, 5, 9], 1), Some(5));
    assert_eq!(Randomness::select_one::<u32>(vec![], 0), None);
    // Position 4 of [1,2,3,4,5] is 5; then 0 of [1,2,3,4] is 1; then 1 of [2,3,4] is 3.
    assert_eq!(Randomness::select_multiple(vec![1u32, 2, 3, 4, 5], 3, &vec![4, 0, 1]), vec![5, 1, 3]);
    assert_eq!(Randomness::select_multiple(vec![1u32, 2], 3, &vec![]), vec![1, 2]);
}
