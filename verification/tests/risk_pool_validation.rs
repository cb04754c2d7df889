use stellar_insured::risk_pool::{validate_liquidity_amount, validate_min_stake, RiskPoolError};

#[test]
fn accepts_a_positive_minimum_stake() {
    assert_eq!(validate_min_stake(1_000), Ok(()));
}

#[test]
fn accepts_a_zero_minimum_stake() {
    // A pool with no minimum is a valid choice.
    assert_eq!(validate_min_stake(0), Ok(()));
}

#[test]
fn rejects_a_negative_minimum_stake() {
    assert_eq!(validate_min_stake(-1), Err(RiskPoolError::InvalidMinStake));
}

#[test]
fn accepts_a_positive_amount() {
    assert_eq!(validate_liquidity_amount(500), Ok(()));
}

#[test]
fn rejects_a_zero_amount() {
    assert_eq!(validate_liquidity_amount(0), Err(RiskPoolError::InvalidAmount));
}

#[test]
fn rejects_a_negative_amount() {
    assert_eq!(validate_liquidity_amount(-1), Err(RiskPoolError::InvalidAmount));
}

#[test]
fn rejects_a_negative_amount_that_the_min_stake_check_would_admit() {
    // With min_stake = -100, `amount < min_stake` is false for -1, so the
    // min-stake comparison admits it. This check is what stops it.
    assert_eq!(validate_liquidity_amount(-1), Err(RiskPoolError::InvalidAmount));
}
