use stellar_insured::governance::{
    check_quorum_percentage, check_threshold_percentage, validate_quorum_percentage,
    validate_threshold_percentage, GovernanceError,
};

/// Validate as the contract does: out-of-range values are refused with the
/// contract's message.
fn quorum(value: u32) {
    match check_quorum_percentage(value) {
        Ok(()) => validate_quorum_percentage(value),
        Err(GovernanceError::QuorumPercentageZero) => panic!("Quorum percentage must be greater than zero"),
        Err(e) => {
            assert_eq!(e, GovernanceError::QuorumPercentageAboveHundred);
            panic!("Quorum percentage cannot exceed 100")
        },
    }
}

fn threshold(value: u32) {
    match check_threshold_percentage(value) {
        Ok(()) => validate_threshold_percentage(value),
        Err(GovernanceError::ThresholdPercentageZero) => panic!("Threshold percentage must be greater than zero"),
        Err(e) => {
            assert_eq!(e, GovernanceError::ThresholdPercentageAboveHundred);
            panic!("Threshold percentage cannot exceed 100")
        },
    }
}

#[test]
fn quorum_accepts_the_valid_range() {
    for value in [1, 50, 100] {
        quorum(value);
    }
}

#[test]
#[should_panic(expected = "Quorum percentage must be greater than zero")]
fn quorum_rejects_zero() {
    quorum(0);
}

#[test]
#[should_panic(expected = "Quorum percentage cannot exceed 100")]
fn quorum_rejects_above_one_hundred() {
    quorum(101);
}

#[test]
fn threshold_accepts_the_valid_range() {
    for value in [1, 51, 100] {
        threshold(value);
    }
}

#[test]
#[should_panic(expected = "Threshold percentage must be greater than zero")]
fn threshold_rejects_zero() {
    threshold(0);
}

#[test]
#[should_panic(expected = "Threshold percentage cannot exceed 100")]
fn threshold_rejects_above_one_hundred() {
    threshold(101);
}

#[test]
fn the_checks_name_the_reason() {
    assert_eq!(check_quorum_percentage(0), Err(GovernanceError::QuorumPercentageZero));
    assert_eq!(check_quorum_percentage(101), Err(GovernanceError::QuorumPercentageAboveHundred));
    assert_eq!(check_quorum_percentage(100), Ok(()));
    assert_eq!(check_threshold_percentage(0), Err(GovernanceError::ThresholdPercentageZero));
    assert_eq!(check_threshold_percentage(u32::MAX), Err(GovernanceError::ThresholdPercentageAboveHundred));
    assert_eq!(check_threshold_percentage(1), Ok(()));
}
