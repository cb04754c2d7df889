//! Liquidity risk pool.

use vstd::prelude::*;
use crate::address::Address;
use crate::insurance_types::PoolStats as InsurancePoolStats;
use crate::sums::{lemma_sum_bounds_element, lemma_sum_empty, lemma_sum_update, sum_over};
use crate::table::Table;

verus! {

/// Failure reasons of the risk pool.
#[derive(Clone, Copy, Debug, PartialEq, Eq, Structural)]
pub enum RiskPoolError {
    AlreadyInitialized,
    NotInitialized,
    InvalidMinStake,
    InvalidAmount,
    AmountBelowMinStake,
    InsufficientStake,
    InsufficientAvailableCapital,
}

/// Validate the minimum stake set at initialisation: it may be zero, never
/// negative.
pub fn validate_min_stake(min_stake: i128) -> (r: Result<(), RiskPoolError>)
    ensures
        r == (if min_stake < 0 { Err(RiskPoolError::InvalidMinStake) } else { Ok(()) }),
{
    if min_stake < 0 {
        return Err(RiskPoolError::InvalidMinStake);
    }
    Ok(())
}

/// Validate a liquidity amount: deposits and withdrawals are strictly positive.
pub fn validate_liquidity_amount(amount: i128) -> (r: Result<(), RiskPoolError>)
    ensures
        r == (if amount <= 0 { Err(RiskPoolError::InvalidAmount) } else { Ok(()) }),
{
    if amount <= 0 {
        return Err(RiskPoolError::InvalidAmount);
    }
    Ok(())
}

} // verus!

verus! {

/// Capital figures of the pool, without the provider count.
#[derive(Clone, Copy, Debug, PartialEq, Eq, Structural)]
pub struct PoolStats {
    pub total_capital: i128,
    pub available_capital: i128,
    pub total_claims_paid: i128,
}

/// The stored state of the risk-pool contract.
pub struct RiskPoolContract {
    pub admin: Option<Address>,
    pub token: Option<Address>,
    pub min_stake: Option<i128>,
    pub total_capital: i128,
    pub available_capital: i128,
    pub claims_paid: i128,
    pub provider_count: u32,
    /// Stake of each provider that ever deposited.
    pub stakes: Table<Address, i128>,
}

/// Weight of a provider in the capital total: its stake.
pub open spec fn stake_weight(m: Map<Address, i128>) -> spec_fn(Address) -> int {
    |a: Address| m[a] as int
}

/// Weight of a provider in the provider count: one while its stake is positive.
pub open spec fn provider_weight(m: Map<Address, i128>) -> spec_fn(Address) -> int {
    |a: Address| if m[a] > 0 { 1int } else { 0int }
}

/// The sum of all stakes.
pub open spec fn stake_total(m: Map<Address, i128>) -> int {
    sum_over(m.dom(), stake_weight(m))
}

/// The number of providers with a positive stake.
pub open spec fn active_providers(m: Map<Address, i128>) -> int {
    sum_over(m.dom(), provider_weight(m))
}

/// The stake recorded for `a`, zero when none is.
pub open spec fn stake_of(m: Map<Address, i128>, a: Address) -> int {
    if m.contains_key(a) { m[a] as int } else { 0 }
}

impl RiskPoolContract {
    /// The pool's accounting invariant: stakes are never negative, the total
    /// capital is the sum of the stakes, the available capital and the claims
    /// paid add up to the total capital, the available capital is never
    /// negative, and the provider count is the number of providers with a
    /// positive stake.
    pub open spec fn wf(&self) -> bool {
        &&& self.stakes.wf()
        &&& forall|a: Address| #[trigger] self.stakes@.contains_key(a) ==> self.stakes@[a] >= 0
        &&& self.total_capital == stake_total(self.stakes@)
        &&& self.available_capital + self.claims_paid == self.total_capital
        &&& self.available_capital >= 0
        &&& self.provider_count == active_providers(self.stakes@)
        &&& (self.admin is None <==> self.min_stake is None)
        &&& (self.admin is None <==> self.token is None)
        &&& (self.admin is None ==> self.stakes@ == Map::<Address, i128>::empty())
    }

    /// A pool that was never initialized.
    pub fn new() -> (p: RiskPoolContract)
        ensures
            p.wf(),
            p.admin is None,
            p.stakes@ == Map::<Address, i128>::empty(),
            p.total_capital == 0 && p.available_capital == 0 && p.claims_paid == 0,
            p.provider_count == 0,
    {
        let p = RiskPoolContract {
            admin: None,
            token: None,
            min_stake: None,
            total_capital: 0,
            available_capital: 0,
            claims_paid: 0,
            provider_count: 0,
            stakes: Table::new(),
        };
        proof {
            lemma_sum_empty(stake_weight(p.stakes@));
            lemma_sum_empty(provider_weight(p.stakes@));
            assert(p.stakes@.dom() =~= Set::<Address>::empty());
        }
        p
    }

    /// Set the admin, the staking token and the minimum stake; all capital
    /// figures start at zero.
    pub fn initialize(&mut self, admin: Address, token: Address, min_stake: i128) -> (r: Result<(), RiskPoolError>)
        requires
            old(self).wf(),
        ensures
            final(self).wf(),
            old(self).admin is Some ==> r == Err::<(), RiskPoolError>(RiskPoolError::AlreadyInitialized)
                && *final(self) == *old(self),
            old(self).admin is None && min_stake < 0 ==> r == Err::<(), RiskPoolError>(RiskPoolError::InvalidMinStake)
                && *final(self) == *old(self),
            old(self).admin is None && min_stake >= 0 ==> {
                &&& r == Ok::<(), RiskPoolError>(())
                &&& final(self).admin == Some(admin)
                &&& final(self).token == Some(token)
                &&& final(self).min_stake == Some(min_stake)
                &&& final(self).total_capital == 0 && final(self).available_capital == 0
                &&& final(self).claims_paid == 0 && final(self).provider_count == 0
                &&& final(self).stakes@ == old(self).stakes@
            },
    {
        if self.admin.is_some() {
            return Err(RiskPoolError::AlreadyInitialized);
        }
        match validate_min_stake(min_stake) {
            Ok(()) => {},
            Err(e) => return Err(e),
        }
        proof {
            assert(self.stakes@.dom() =~= Set::<Address>::empty());
            lemma_sum_empty(stake_weight(self.stakes@));
            lemma_sum_empty(provider_weight(self.stakes@));
        }
        self.admin = Some(admin);
        self.token = Some(token);
        self.min_stake = Some(min_stake);
        self.total_capital = 0;
        self.available_capital = 0;
        self.claims_paid = 0;
        self.provider_count = 0;
        Ok(())
    }

    /// What `deposit_liquidity` answers.
    pub open spec fn deposit_result(&self, amount: i128) -> Result<(), RiskPoolError> {
        if amount <= 0 {
            Err(RiskPoolError::InvalidAmount)
        } else if self.min_stake is None {
            Err(RiskPoolError::NotInitialized)
        } else if amount < self.min_stake->0 {
            Err(RiskPoolError::AmountBelowMinStake)
        } else if self.token is None {
            Err(RiskPoolError::NotInitialized)
        } else {
            Ok(())
        }
    }

    /// `new` is `old` after `provider` deposited `amount`: its stake, the
    /// total and the available capital grow by `amount`, and it counts as a
    /// provider if it did not before.
    pub open spec fn deposited_from(old: &Self, new: &Self, provider: Address, amount: i128) -> bool {
        &&& new.stakes@ == old.stakes@.insert(provider, (stake_of(old.stakes@, provider) + amount) as i128)
        &&& new.total_capital == old.total_capital + amount
        &&& new.available_capital == old.available_capital + amount
        &&& new.claims_paid == old.claims_paid
        &&& new.provider_count == old.provider_count + (if stake_of(old.stakes@, provider) == 0 {
            1int
        } else {
            0int
        })
        &&& new.admin == old.admin && new.token == old.token
        &&& new.min_stake == old.min_stake
    }

    /// What `withdraw_liquidity` answers.
    pub open spec fn withdraw_result(&self, provider: Address, amount: i128) -> Result<(), RiskPoolError> {
        if amount <= 0 {
            Err(RiskPoolError::InvalidAmount)
        } else if stake_of(self.stakes@, provider) < amount {
            Err(RiskPoolError::InsufficientStake)
        } else if self.available_capital < amount {
            Err(RiskPoolError::InsufficientAvailableCapital)
        } else if self.token is None {
            Err(RiskPoolError::NotInitialized)
        } else {
            Ok(())
        }
    }

    /// `new` is `old` after `provider` withdrew `amount`: its stake, the
    /// total and the available capital shrink by `amount`, and it no longer
    /// counts as a provider once its stake is gone.
    pub open spec fn withdrawn_from(old: &Self, new: &Self, provider: Address, amount: i128) -> bool {
        &&& new.stakes@ == old.stakes@.insert(provider, (stake_of(old.stakes@, provider) - amount) as i128)
        &&& new.total_capital == old.total_capital - amount
        &&& new.available_capital == old.available_capital - amount
        &&& new.claims_paid == old.claims_paid
        &&& new.provider_count == old.provider_count - (if stake_of(old.stakes@, provider) == amount {
            1int
        } else {
            0int
        })
        &&& new.admin == old.admin && new.token == old.token
        &&& new.min_stake == old.min_stake
    }

    /// What `payout_claim` answers.
    pub open spec fn payout_result(&self, amount: i128) -> Result<(), RiskPoolError> {
        if self.admin is None {
            Err(RiskPoolError::NotInitialized)
        } else if self.available_capital < amount {
            Err(RiskPoolError::InsufficientAvailableCapital)
        } else if self.token is None {
            Err(RiskPoolError::NotInitialized)
        } else {
            Ok(())
        }
    }

    /// `new` is `old` after a payout of `amount`: it moves from the
    /// available capital to the claims paid; nothing else changes.
    pub open spec fn paid_from(old: &Self, new: &Self, amount: i128) -> bool {
        &&& new.available_capital == old.available_capital - amount
        &&& new.claims_paid == old.claims_paid + amount
        &&& new.total_capital == old.total_capital
        &&& new.stakes@ == old.stakes@
        &&& new.provider_count == old.provider_count
        &&& new.admin == old.admin && new.token == old.token
        &&& new.min_stake == old.min_stake
    }

    /// No arithmetic of a deposit that passes its checks leaves its type.
    pub open spec fn deposit_fits(&self, provider: Address, amount: i128) -> bool {
        (amount > 0 && self.min_stake is Some && amount >= self.min_stake->0 && self.token is Some) ==> {
            &&& self.total_capital + amount <= i128::MAX
            &&& self.available_capital + amount <= i128::MAX
            &&& stake_of(self.stakes@, provider) == 0 ==> self.provider_count < u32::MAX
        }
    }

    /// A provider adds `amount` to its stake. The caller transfers `amount`
    /// of the pool token from the provider to the pool when this succeeds;
    /// the provider must have authorized the call.
    pub fn deposit_liquidity(&mut self, provider: Address, amount: i128) -> (r: Result<(), RiskPoolError>)
        requires
            old(self).wf(),
            old(self).deposit_fits(provider, amount),
        ensures
            final(self).wf(),
            r == old(self).deposit_result(amount),
            r is Err ==> *final(self) == *old(self),
            r is Ok ==> Self::deposited_from(old(self), final(self), provider, amount),
    {
        match validate_liquidity_amount(amount) {
            Ok(()) => {},
            Err(e) => return Err(e),
        }
        let min_stake = match self.min_stake {
            Some(m) => m,
            None => return Err(RiskPoolError::NotInitialized),
        };
        if amount < min_stake {
            return Err(RiskPoolError::AmountBelowMinStake);
        }
        if self.token.is_none() {
            return Err(RiskPoolError::NotInitialized);
        }
        let ghost old_stakes = self.stakes@;
        proof {
            self.stakes.lemma_dom_finite();
        }
        let current_stake: i128 = match self.stakes.get(&provider) {
            Some(s) => *s,
            None => 0,
        };
        proof {
            if old_stakes.contains_key(provider) {
                lemma_sum_bounds_element(old_stakes.dom(), stake_weight(old_stakes), provider);
            }
        }
        let new_stake: i128 = current_stake + amount;
        self.stakes.insert(provider, new_stake);
        proof {
            let new_stakes = self.stakes@;
            assert(new_stakes.dom() =~= old_stakes.dom().insert(provider));
            lemma_sum_update(old_stakes.dom(), stake_weight(old_stakes), stake_weight(new_stakes), provider);
            lemma_sum_update(old_stakes.dom(), provider_weight(old_stakes), provider_weight(new_stakes), provider);
        }
        if current_stake == 0 {
            self.provider_count = self.provider_count + 1;
        }
        self.total_capital = self.total_capital + amount;
        self.available_capital = self.available_capital + amount;
        Ok(())
    }

    /// A provider takes `amount` back out of its stake. The caller transfers
    /// `amount` of the pool token from the pool to the provider when this
    /// succeeds; the provider must have authorized the call.
    pub fn withdraw_liquidity(&mut self, provider: Address, amount: i128) -> (r: Result<(), RiskPoolError>)
        requires
            old(self).wf(),
        ensures
            final(self).wf(),
            r == old(self).withdraw_result(provider, amount),
            r is Err ==> *final(self) == *old(self),
            r is Ok ==> Self::withdrawn_from(old(self), final(self), provider, amount),
    {
        match validate_liquidity_amount(amount) {
            Ok(()) => {},
            Err(e) => return Err(e),
        }
        let stake: i128 = match self.stakes.get(&provider) {
            Some(s) => *s,
            None => 0,
        };
        if stake < amount {
            return Err(RiskPoolError::InsufficientStake);
        }
        if self.available_capital < amount {
            return Err(RiskPoolError::InsufficientAvailableCapital);
        }
        if self.token.is_none() {
            return Err(RiskPoolError::NotInitialized);
        }
        let ghost old_stakes = self.stakes@;
        proof {
            self.stakes.lemma_dom_finite();
            lemma_sum_bounds_element(old_stakes.dom(), stake_weight(old_stakes), provider);
            lemma_sum_bounds_element(old_stakes.dom(), provider_weight(old_stakes), provider);
        }
        let new_stake: i128 = stake - amount;
        self.stakes.insert(provider, new_stake);
        proof {
            let new_stakes = self.stakes@;
            assert(new_stakes.dom() =~= old_stakes.dom().insert(provider));
            lemma_sum_update(old_stakes.dom(), stake_weight(old_stakes), stake_weight(new_stakes), provider);
            lemma_sum_update(old_stakes.dom(), provider_weight(old_stakes), provider_weight(new_stakes), provider);
        }
        if new_stake == 0 {
            self.provider_count = self.provider_count - 1;
        }
        self.total_capital = self.total_capital - amount;
        self.available_capital = self.available_capital - amount;
        Ok(())
    }

    /// No arithmetic of a payout that passes its checks leaves its type.
    pub open spec fn payout_fits(&self, amount: i128) -> bool {
        (self.admin is Some && self.available_capital >= amount && self.token is Some) ==> {
            &&& self.available_capital - amount <= i128::MAX
            &&& i128::MIN <= self.claims_paid + amount <= i128::MAX
        }
    }

    /// The admin pays `amount` of available capital out for a claim. The
    /// caller transfers `amount` of the pool token from the pool to the
    /// recipient when this succeeds; the admin must have authorized the call.
    pub fn payout_claim(&mut self, recipient: Address, amount: i128) -> (r: Result<(), RiskPoolError>)
        requires
            old(self).wf(),
            old(self).payout_fits(amount),
        ensures
            final(self).wf(),
            r == old(self).payout_result(amount),
            r is Err ==> *final(self) == *old(self),
            r is Ok ==> Self::paid_from(old(self), final(self), amount),
    {
        if self.admin.is_none() {
            return Err(RiskPoolError::NotInitialized);
        }
        if self.available_capital < amount {
            return Err(RiskPoolError::InsufficientAvailableCapital);
        }
        if self.token.is_none() {
            return Err(RiskPoolError::NotInitialized);
        }
        self.available_capital = self.available_capital - amount;
        self.claims_paid = self.claims_paid + amount;
        Ok(())
    }

    /// The capital figures and the provider count.
    pub fn get_pool_stats(&self) -> (s: InsurancePoolStats)
        ensures
            s == (InsurancePoolStats {
                total_capital: self.total_capital,
                available_capital: self.available_capital,
                total_claims_paid: self.claims_paid,
                provider_count: self.provider_count,
            }),
    {
        InsurancePoolStats {
            total_capital: self.total_capital,
            available_capital: self.available_capital,
            total_claims_paid: self.claims_paid,
            provider_count: self.provider_count,
        }
    }

    /// The stake of `provider`, zero when it never deposited.
    pub fn get_provider_info(&self, provider: Address) -> (s: i128)
        requires
            self.wf(),
        ensures
            s == stake_of(self.stakes@, provider),
    {
        match self.stakes.get(&provider) {
            Some(s) => *s,
            None => 0,
        }
    }
}

/// Depositing an amount and then withdrawing the same amount succeeds and
/// leaves the pool's capital figures, the provider count and every
/// provider's stake as they were. `deposited` is the pool a successful
/// `deposit_liquidity` of `amount` by `provider` leaves (`deposit_fits` is
/// the deposit's own bound); the withdrawal it then admits restores `pool`.
pub proof fn lemma_deposit_withdraw_round_trip(
    pool: RiskPoolContract,
    deposited: RiskPoolContract,
    provider: Address,
    amount: i128,
)
    requires
        pool.wf(),
        pool.deposit_fits(provider, amount),
        pool.deposit_result(amount) is Ok,
        RiskPoolContract::deposited_from(&pool, &deposited, provider, amount),
    ensures
        deposited.withdraw_result(provider, amount) is Ok,
        forall|withdrawn: RiskPoolContract| #[trigger]
            RiskPoolContract::withdrawn_from(&deposited, &withdrawn, provider, amount) ==> {
                &&& withdrawn.total_capital == pool.total_capital
                &&& withdrawn.available_capital == pool.available_capital
                &&& withdrawn.claims_paid == pool.claims_paid
                &&& withdrawn.provider_count == pool.provider_count
                &&& forall|a: Address| #[trigger] stake_of(withdrawn.stakes@, a) == stake_of(pool.stakes@, a)
            },
{
    pool.stakes.lemma_dom_finite();
    if pool.stakes@.contains_key(provider) {
        lemma_sum_bounds_element(pool.stakes@.dom(), stake_weight(pool.stakes@), provider);
    }
    assert(stake_of(pool.stakes@, provider) >= 0);
    assert(stake_of(pool.stakes@, provider) + amount <= i128::MAX);
    assert(stake_of(deposited.stakes@, provider) == stake_of(pool.stakes@, provider) + amount);
}

/// A payout keeps the pool's books: when it is granted, the amount moves
/// from the available capital to the claims paid, the total capital still
/// equals the available capital plus the claims paid, and the available
/// capital stays non-negative; when the amount exceeds the available
/// capital it is refused. `paid` is the pool a granted `payout_claim` of
/// `amount` leaves.
pub proof fn lemma_payout_keeps_books(pool: RiskPoolContract, paid: RiskPoolContract, amount: i128)
    requires
        pool.wf(),
        RiskPoolContract::paid_from(&pool, &paid, amount),
    ensures
        pool.admin is Some && amount > pool.available_capital ==> pool.payout_result(amount)
            == Err::<(), RiskPoolError>(RiskPoolError::InsufficientAvailableCapital),
        pool.payout_result(amount) is Ok ==> {
            &&& paid.total_capital == paid.available_capital + paid.claims_paid
            &&& paid.available_capital == pool.available_capital - amount
            &&& paid.claims_paid == pool.claims_paid + amount
            &&& paid.available_capital >= 0
        },
{
}

} // verus!
