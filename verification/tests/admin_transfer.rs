use stellar_insured::address::Address;
use stellar_insured::admin::{
    accept_transfer, cancel_transfer, propose_transfer, read_admin, read_pending, AdminError,
    AdminState, ACCEPTANCE_WINDOW_SECONDS, MAX_TRANSFER_DELAY_SECONDS, MIN_TRANSFER_DELAY_SECONDS,
};

struct Fixture {
    state: AdminState,
    admin: Address,
    successor: Address,
}

fn setup() -> Fixture {
    let admin = Address::account(1, 1);
    let successor = Address::account(2, 2);
    Fixture { state: AdminState::new(admin), admin, successor }
}

#[test]
fn nomination_does_not_change_the_admin() {
    let mut f = setup();
    assert_eq!(propose_transfer(&mut f.state, f.successor, MIN_TRANSFER_DELAY_SECONDS, 0), Ok(()));

    assert_eq!(read_admin(&f.state), Ok(f.admin));

    let pending = read_pending(&f.state).unwrap();
    assert_eq!(pending.new_admin, f.successor);
    assert_eq!(pending.proposed_by, f.admin);
    assert_eq!(pending.eligible_at, MIN_TRANSFER_DELAY_SECONDS);
    assert_eq!(pending.expires_at, MIN_TRANSFER_DELAY_SECONDS + ACCEPTANCE_WINDOW_SECONDS);
}

#[test]
fn acceptance_after_the_time_lock_moves_the_admin() {
    let mut f = setup();
    propose_transfer(&mut f.state, f.successor, MIN_TRANSFER_DELAY_SECONDS, 0).unwrap();

    assert_eq!(accept_transfer(&mut f.state, MIN_TRANSFER_DELAY_SECONDS), Ok(()));

    assert_eq!(read_admin(&f.state), Ok(f.successor));
    assert_eq!(read_pending(&f.state), None);
}

#[test]
fn acceptance_before_the_time_lock_is_rejected() {
    let mut f = setup();
    propose_transfer(&mut f.state, f.successor, MIN_TRANSFER_DELAY_SECONDS, 0).unwrap();

    assert_eq!(
        accept_transfer(&mut f.state, MIN_TRANSFER_DELAY_SECONDS - 1),
        Err(AdminError::TimeLockActive)
    );
    assert_eq!(read_admin(&f.state), Ok(f.admin));
}

#[test]
fn acceptance_after_the_window_is_rejected() {
    let mut f = setup();
    propose_transfer(&mut f.state, f.successor, MIN_TRANSFER_DELAY_SECONDS, 0).unwrap();

    assert_eq!(
        accept_transfer(&mut f.state, MIN_TRANSFER_DELAY_SECONDS + ACCEPTANCE_WINDOW_SECONDS + 1),
        Err(AdminError::TransferExpired)
    );
    assert_eq!(read_admin(&f.state), Ok(f.admin));
}

#[test]
fn cancelling_withdraws_the_nomination() {
    let mut f = setup();
    propose_transfer(&mut f.state, f.successor, MIN_TRANSFER_DELAY_SECONDS, 0).unwrap();
    assert_eq!(cancel_transfer(&mut f.state), Ok(()));

    assert_eq!(read_pending(&f.state), None);

    assert_eq!(
        accept_transfer(&mut f.state, MIN_TRANSFER_DELAY_SECONDS),
        Err(AdminError::NoPendingTransfer)
    );
    assert_eq!(read_admin(&f.state), Ok(f.admin));
}

#[test]
fn a_second_nomination_replaces_the_first() {
    let mut f = setup();
    let other = Address::account(3, 3);

    propose_transfer(&mut f.state, f.successor, MIN_TRANSFER_DELAY_SECONDS, 0).unwrap();
    propose_transfer(&mut f.state, other, MIN_TRANSFER_DELAY_SECONDS, 0).unwrap();

    let pending = read_pending(&f.state).unwrap();
    assert_eq!(pending.new_admin, other);

    accept_transfer(&mut f.state, MIN_TRANSFER_DELAY_SECONDS).unwrap();
    assert_eq!(read_admin(&f.state), Ok(other));
}

#[test]
fn the_delay_is_bounded_at_both_ends() {
    let mut f = setup();

    assert_eq!(
        propose_transfer(&mut f.state, f.successor, MIN_TRANSFER_DELAY_SECONDS - 1, 0),
        Err(AdminError::DelayTooShort)
    );
    assert_eq!(
        propose_transfer(&mut f.state, f.successor, MAX_TRANSFER_DELAY_SECONDS + 1, 0),
        Err(AdminError::DelayTooLong)
    );
    assert_eq!(read_pending(&f.state), None);
}

#[test]
fn nominating_the_current_admin_is_rejected() {
    let mut f = setup();
    assert_eq!(
        propose_transfer(&mut f.state, f.admin, MIN_TRANSFER_DELAY_SECONDS, 0),
        Err(AdminError::SameAsCurrentAdmin)
    );
}

#[test]
fn cancelling_with_nothing_pending_is_rejected() {
    let mut f = setup();
    assert_eq!(cancel_transfer(&mut f.state), Err(AdminError::NoPendingTransfer));
}

#[test]
fn the_new_admin_can_hand_the_role_on_again() {
    let mut f = setup();
    let third = Address::account(3, 3);

    propose_transfer(&mut f.state, f.successor, MIN_TRANSFER_DELAY_SECONDS, 0).unwrap();
    accept_transfer(&mut f.state, MIN_TRANSFER_DELAY_SECONDS).unwrap();

    propose_transfer(&mut f.state, third, MIN_TRANSFER_DELAY_SECONDS, MIN_TRANSFER_DELAY_SECONDS).unwrap();
    accept_transfer(&mut f.state, MIN_TRANSFER_DELAY_SECONDS * 2).unwrap();

    assert_eq!(read_admin(&f.state), Ok(third));
}

#[test]
fn an_uninitialized_contract_has_no_admin() {
    let mut state = AdminState::uninitialized();
    assert_eq!(read_admin(&state), Err(AdminError::NotInitialized));
    assert_eq!(
        propose_transfer(&mut state, Address::account(2, 2), MIN_TRANSFER_DELAY_SECONDS, 0),
        Err(AdminError::NotInitialized)
    );
    assert_eq!(cancel_transfer(&mut state), Err(AdminError::NotInitialized));
}

#[test]
fn an_accepted_nomination_cannot_be_replayed() {
    let mut f = setup();
    propose_transfer(&mut f.state, f.successor, MIN_TRANSFER_DELAY_SECONDS, 0).unwrap();
    accept_transfer(&mut f.state, MIN_TRANSFER_DELAY_SECONDS).unwrap();
    assert_eq!(
        accept_transfer(&mut f.state, MIN_TRANSFER_DELAY_SECONDS + 1),
        Err(AdminError::NoPendingTransfer)
    );
}

#[test]
fn deadlines_that_overflow_the_clock_are_refused() {
    let mut f = setup();
    assert_eq!(
        propose_transfer(&mut f.state, f.successor, MIN_TRANSFER_DELAY_SECONDS, u64::MAX - 10),
        Err(AdminError::DelayTooLong)
    );
}
