//! Two-step, time-locked admin transfer shared by the contracts.
//!
//! The current admin nominates a successor; the nomination becomes acceptable
//! once its time lock has elapsed and stays acceptable for an acceptance
//! window; only an acceptance by the nominee moves the admin. The admin may
//! withdraw an outstanding nomination at any time before it is accepted.

use vstd::prelude::*;
use crate::address::Address;

verus! {

/// Shortest time lock a nomination may carry (one hour).
pub const MIN_TRANSFER_DELAY_SECONDS: u64 = 3600;

/// Longest time lock a nomination may carry (thirty days).
pub const MAX_TRANSFER_DELAY_SECONDS: u64 = 2592000;

/// How long a nomination stays acceptable once its time lock has elapsed
/// (seven days).
pub const ACCEPTANCE_WINDOW_SECONDS: u64 = 604800;

/// A nomination awaiting acceptance.
#[derive(Clone, Copy, Debug, PartialEq, Eq, Structural)]
pub struct PendingAdmin {
    /// Address nominated to become the new admin.
    pub new_admin: Address,
    /// Admin that made the nomination.
    pub proposed_by: Address,
    /// Ledger timestamp at which the nomination was made.
    pub proposed_at: u64,
    /// First timestamp at which `new_admin` may accept.
    pub eligible_at: u64,
    /// Last timestamp at which `new_admin` may accept.
    pub expires_at: u64,
}

/// Failure reasons for the admin-transfer flow.
#[derive(Clone, Copy, Debug, PartialEq, Eq, Structural)]
pub enum AdminError {
    /// No admin is stored: the contract was never initialized.
    NotInitialized,
    /// There is no nomination to accept or cancel.
    NoPendingTransfer,
    /// The nominated address is the current admin.
    SameAsCurrentAdmin,
    /// `delay_seconds` is below `MIN_TRANSFER_DELAY_SECONDS`.
    DelayTooShort,
    /// `delay_seconds` is above `MAX_TRANSFER_DELAY_SECONDS`, or the
    /// deadlines it yields do not fit in a timestamp.
    DelayTooLong,
    /// The time lock has not elapsed yet.
    TimeLockActive,
    /// The acceptance window has closed.
    TransferExpired,
}

/// The two storage slots of a contract that the transfer flow uses: the
/// admin and the outstanding nomination.
#[derive(Clone, Copy, Debug, PartialEq, Eq, Structural)]
pub struct AdminState {
    pub admin: Option<Address>,
    pub pending: Option<PendingAdmin>,
}

/// A nomination is well formed: its deadlines follow from a delay within the
/// allowed bounds, and it does not nominate the admin that made it.
pub open spec fn pending_wf(p: PendingAdmin) -> bool {
    &&& MIN_TRANSFER_DELAY_SECONDS <= p.eligible_at - p.proposed_at <= MAX_TRANSFER_DELAY_SECONDS
    &&& p.expires_at == p.eligible_at + ACCEPTANCE_WINDOW_SECONDS
    &&& p.new_admin != p.proposed_by
}

/// Every stored nomination is well formed.
pub open spec fn admin_state_wf(s: AdminState) -> bool {
    s.pending matches Some(p) ==> pending_wf(p)
}

/// The state after nominating `new_admin` with `delay_seconds` at `now`, or
/// the error that stops it.
pub open spec fn propose_outcome(s: AdminState, new_admin: Address, delay_seconds: u64, now: u64) -> Result<AdminState, AdminError> {
    match s.admin {
        None => Err(AdminError::NotInitialized),
        Some(current) => {
            if new_admin == current {
                Err(AdminError::SameAsCurrentAdmin)
            } else if delay_seconds < MIN_TRANSFER_DELAY_SECONDS {
                Err(AdminError::DelayTooShort)
            } else if delay_seconds > MAX_TRANSFER_DELAY_SECONDS {
                Err(AdminError::DelayTooLong)
            } else if now + delay_seconds + ACCEPTANCE_WINDOW_SECONDS > u64::MAX {
                Err(AdminError::DelayTooLong)
            } else {
                Ok(AdminState {
                    admin: s.admin,
                    pending: Some(PendingAdmin {
                        new_admin,
                        proposed_by: current,
                        proposed_at: now,
                        eligible_at: (now + delay_seconds) as u64,
                        expires_at: (now + delay_seconds + ACCEPTANCE_WINDOW_SECONDS) as u64,
                    }),
                })
            }
        },
    }
}

/// The state after the nominee accepts at `now`, or the error that stops it.
pub open spec fn accept_outcome(s: AdminState, now: u64) -> Result<AdminState, AdminError> {
    match s.pending {
        None => Err(AdminError::NoPendingTransfer),
        Some(p) => {
            if now < p.eligible_at {
                Err(AdminError::TimeLockActive)
            } else if now > p.expires_at {
                Err(AdminError::TransferExpired)
            } else if s.admin is None {
                Err(AdminError::NotInitialized)
            } else {
                Ok(AdminState { admin: Some(p.new_admin), pending: None })
            }
        },
    }
}

/// The state after the admin withdraws the nomination, or the error that
/// stops it.
pub open spec fn cancel_outcome(s: AdminState) -> Result<AdminState, AdminError> {
    if s.admin is None {
        Err(AdminError::NotInitialized)
    } else if s.pending is None {
        Err(AdminError::NoPendingTransfer)
    } else {
        Ok(AdminState { admin: s.admin, pending: None })
    }
}

impl AdminState {
    /// The slots of a freshly initialized contract: `admin` and no nomination.
    pub fn new(admin: Address) -> (s: AdminState)
        ensures
            s == (AdminState { admin: Some(admin), pending: None }),
            admin_state_wf(s),
    {
        AdminState { admin: Some(admin), pending: None }
    }

    /// Slots of a contract that was never initialized.
    pub fn uninitialized() -> (s: AdminState)
        ensures
            s == (AdminState { admin: None, pending: None }),
            admin_state_wf(s),
    {
        AdminState { admin: None, pending: None }
    }
}

/// The stored admin; `NotInitialized` when there is none.
pub fn read_admin(state: &AdminState) -> (r: Result<Address, AdminError>)
    ensures
        r == (match state.admin {
            None => Err(AdminError::NotInitialized),
            Some(a) => Ok(a),
        }),
{
    match state.admin {
        None => Err(AdminError::NotInitialized),
        Some(a) => Ok(a),
    }
}

/// The outstanding nomination, if any. A returned record is not necessarily
/// still acceptable: compare its deadlines with the current time.
pub fn read_pending(state: &AdminState) -> (r: Option<PendingAdmin>)
    ensures
        r == state.pending,
{
    state.pending
}

/// Nominate `new_admin` as the successor, acceptable `delay_seconds` after
/// `now` and for `ACCEPTANCE_WINDOW_SECONDS` after that. A nomination made
/// while another is outstanding replaces it. The admin is not changed here.
/// The current admin must have authorized the call.
pub fn propose_transfer(state: &mut AdminState, new_admin: Address, delay_seconds: u64, now: u64) -> (r: Result<(), AdminError>)
    requires
        admin_state_wf(*old(state)),
    ensures
        admin_state_wf(*final(state)),
        match propose_outcome(*old(state), new_admin, delay_seconds, now) {
            Ok(s) => r == Ok::<(), AdminError>(()) && *final(state) == s,
            Err(e) => r == Err::<(), AdminError>(e) && *final(state) == *old(state),
        },
        final(state).admin == old(state).admin,
{
    let current = match read_admin(state) {
        Ok(a) => a,
        Err(e) => return Err(e),
    };
    if new_admin.same(&current) {
        return Err(AdminError::SameAsCurrentAdmin);
    }
    if delay_seconds < MIN_TRANSFER_DELAY_SECONDS {
        return Err(AdminError::DelayTooShort);
    }
    if delay_seconds > MAX_TRANSFER_DELAY_SECONDS {
        return Err(AdminError::DelayTooLong);
    }
    let eligible_at = match now.checked_add(delay_seconds) {
        Some(t) => t,
        None => return Err(AdminError::DelayTooLong),
    };
    let expires_at = match eligible_at.checked_add(ACCEPTANCE_WINDOW_SECONDS) {
        Some(t) => t,
        None => return Err(AdminError::DelayTooLong),
    };
    state.pending = Some(
        PendingAdmin { new_admin, proposed_by: current, proposed_at: now, eligible_at, expires_at },
    );
    Ok(())
}

/// The nominee accepts the outstanding nomination at `now` and becomes the
/// admin; the nomination is consumed. The nominee must have authorized the
/// call.
pub fn accept_transfer(state: &mut AdminState, now: u64) -> (r: Result<(), AdminError>)
    requires
        admin_state_wf(*old(state)),
    ensures
        admin_state_wf(*final(state)),
        match accept_outcome(*old(state), now) {
            Ok(s) => r == Ok::<(), AdminError>(()) && *final(state) == s,
            Err(e) => r == Err::<(), AdminError>(e) && *final(state) == *old(state),
        },
{
    let pending = match state.pending {
        None => return Err(AdminError::NoPendingTransfer),
        Some(p) => p,
    };
    if now < pending.eligible_at {
        return Err(AdminError::TimeLockActive);
    }
    if now > pending.expires_at {
        return Err(AdminError::TransferExpired);
    }
    if state.admin.is_none() {
        return Err(AdminError::NotInitialized);
    }
    state.admin = Some(pending.new_admin);
    state.pending = None;
    Ok(())
}

/// The admin withdraws the outstanding nomination. The admin must have
/// authorized the call.
pub fn cancel_transfer(state: &mut AdminState) -> (r: Result<(), AdminError>)
    requires
        admin_state_wf(*old(state)),
    ensures
        admin_state_wf(*final(state)),
        match cancel_outcome(*old(state)) {
            Ok(s) => r == Ok::<(), AdminError>(()) && *final(state) == s,
            Err(e) => r == Err::<(), AdminError>(e) && *final(state) == *old(state),
        },
        final(state).admin == old(state).admin,
{
    if state.admin.is_none() {
        return Err(AdminError::NotInitialized);
    }
    if state.pending.is_none() {
        return Err(AdminError::NoPendingTransfer);
    }
    state.pending = None;
    Ok(())
}

/// A nomination hands the role over: once the time lock has elapsed and
/// before the acceptance window closes, the nominee's acceptance makes the
/// nominee the admin and consumes the nomination.
pub proof fn lemma_accept_after_time_lock(s: AdminState, new_admin: Address, delay_seconds: u64, now: u64, at: u64)
    requires
        propose_outcome(s, new_admin, delay_seconds, now) is Ok,
        now + delay_seconds <= at <= now + delay_seconds + ACCEPTANCE_WINDOW_SECONDS,
    ensures
        accept_outcome(propose_outcome(s, new_admin, delay_seconds, now)->Ok_0, at) == Ok::<AdminState, AdminError>(
            AdminState { admin: Some(new_admin), pending: None },
        ),
{
}

/// Proposing is not transferring: a nomination leaves the admin as it was.
pub proof fn lemma_propose_keeps_admin(s: AdminState, new_admin: Address, delay_seconds: u64, now: u64)
    requires
        propose_outcome(s, new_admin, delay_seconds, now) is Ok,
    ensures
        propose_outcome(s, new_admin, delay_seconds, now)->Ok_0.admin == s.admin,
        propose_outcome(s, new_admin, delay_seconds, now)->Ok_0.pending == Some(
            PendingAdmin {
                new_admin,
                proposed_by: s.admin->0,
                proposed_at: now,
                eligible_at: (now + delay_seconds) as u64,
                expires_at: (now + delay_seconds + ACCEPTANCE_WINDOW_SECONDS) as u64,
            },
        ),
{
}

/// A nomination cannot be accepted before its time lock has elapsed or
/// after its acceptance window has closed; the admin stays in place.
pub proof fn lemma_accept_outside_window(s: AdminState, new_admin: Address, delay_seconds: u64, now: u64, at: u64)
    requires
        propose_outcome(s, new_admin, delay_seconds, now) is Ok,
        at < now + delay_seconds || at > now + delay_seconds + ACCEPTANCE_WINDOW_SECONDS,
    ensures
        accept_outcome(propose_outcome(s, new_admin, delay_seconds, now)->Ok_0, at) == (if at < now + delay_seconds {
            Err::<AdminState, AdminError>(AdminError::TimeLockActive)
        } else {
            Err::<AdminState, AdminError>(AdminError::TransferExpired)
        }),
{
}

/// A cancelled nomination is gone: accepting afterwards, at any time, is
/// refused with `NoPendingTransfer`.
pub proof fn lemma_cancel_then_accept(s: AdminState, at: u64)
    requires
        cancel_outcome(s) is Ok,
    ensures
        accept_outcome(cancel_outcome(s)->Ok_0, at) == Err::<AdminState, AdminError>(AdminError::NoPendingTransfer),
        cancel_outcome(s)->Ok_0.admin == s.admin,
{
}

/// An accepted nomination cannot be replayed: a second acceptance is
/// refused with `NoPendingTransfer`.
pub proof fn lemma_accept_once(s: AdminState, at: u64, again: u64)
    requires
        accept_outcome(s, at) is Ok,
    ensures
        accept_outcome(accept_outcome(s, at)->Ok_0, again) == Err::<AdminState, AdminError>(
            AdminError::NoPendingTransfer,
        ),
{
}

/// A second nomination replaces the first: only the latest nominee can be
/// accepted.
pub proof fn lemma_second_nomination_replaces(
    s: AdminState,
    first: Address,
    second: Address,
    delay_seconds: u64,
    now: u64,
    later: u64,
)
    requires
        propose_outcome(s, first, delay_seconds, now) is Ok,
        propose_outcome(propose_outcome(s, first, delay_seconds, now)->Ok_0, second, delay_seconds, later) is Ok,
    ensures
        propose_outcome(propose_outcome(s, first, delay_seconds, now)->Ok_0, second, delay_seconds, later)->Ok_0.pending->0.new_admin
            == second,
{
}

/// Every nomination that is accepted was made with a delay of at least
/// `MIN_TRANSFER_DELAY_SECONDS`: no admin moves in the ledger it was
/// nominated.
pub proof fn lemma_no_instant_transfer(s: AdminState, at: u64)
    requires
        admin_state_wf(s),
        accept_outcome(s, at) is Ok,
    ensures
        at >= s.pending->0.proposed_at + MIN_TRANSFER_DELAY_SECONDS,
{
}

} // verus!
