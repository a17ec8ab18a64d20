use vstd::prelude::*;

use crate::constants::WAD;
use crate::errors::ErrorCode;
use crate::key::Key;
use crate::pool::{update_defined, DunePool};

verus! {

/// A user's stake in one pool.
#[derive(Clone, Copy, Debug)]
pub struct DuneUserInfo {
    pub authority: Key,
    pub bump: u8,
    pub dunepool: Key,
    pub total_claimed: u128,
    pub total_stake: u64,
    pub last_updated: u64,
    /// Rewards already accounted to the user at the last deposit.
    pub reward_debt: u64,
    pub blacklisted: bool,
    pub is_initialized: bool,
}

/// Rewards accrued by `stake` units at `acc_reward_per_share`, truncated to
/// `u64` as the program casts it.
pub open spec fn accrued(stake: u64, acc_reward_per_share: u128) -> u64 {
    (stake * acc_reward_per_share / (WAD as int)) as u64
}

/// Rewards owed to `user` when the pool stands at `acc_reward_per_share`.
pub open spec fn pending_reward(user: DuneUserInfo, acc_reward_per_share: u128) -> int {
    if user.total_stake > 0 {
        accrued(user.total_stake, acc_reward_per_share) - user.reward_debt
    } else {
        0
    }
}

/// Whether `deposit(pool, amount, slot)` runs without an arithmetic fault.
pub open spec fn deposit_defined(user: DuneUserInfo, pool: DunePool, amount: u64, slot: u64) -> bool {
    user.is_initialized && amount > 0 ==> {
        let acc = pool.acc_reward_per_share;
        &&& update_defined(pool, slot)
        &&& user.total_stake > 0 ==> user.total_stake * acc <= u128::MAX && pending_reward(user, acc) >= 0
        &&& pool.total_stake + amount <= u128::MAX
        &&& user.total_stake + amount <= u64::MAX
        &&& (user.total_stake + amount) * acc <= u128::MAX
    }
}

/// A fresh record bound to its pool and owner.
pub open spec fn initialized_user(user: DuneUserInfo, dunepool: Key, bump: u8, authority: Key) -> DuneUserInfo {
    DuneUserInfo {
        dunepool: dunepool,
        authority: authority,
        bump: bump,
        blacklisted: false,
        is_initialized: true,
        ..user
    }
}

/// The pool after a deposit of `amount`: its total stake grown by `amount`,
/// all else as it was (bringing it up to date changes nothing where the
/// deposit completes).
pub open spec fn pool_after_deposit(pool: DunePool, amount: u64) -> DunePool {
    DunePool { total_stake: (pool.total_stake + amount) as u128, ..pool }
}

/// The user's record after a deposit of `amount` at `slot` into `pool`: its
/// stake grown by `amount`, its reward debt reset to what that stake has
/// accrued at the pool's `acc_reward_per_share`.
pub open spec fn user_after_deposit(user: DuneUserInfo, pool: DunePool, amount: u64, slot: u64) -> DuneUserInfo {
    let stake = (user.total_stake + amount) as u64;
    DuneUserInfo {
        total_stake: stake,
        reward_debt: accrued(stake, pool.acc_reward_per_share),
        last_updated: slot,
        ..user
    }
}

/// The rewards a deposit into `pool` pays out to `user`.
pub open spec fn deposit_reward(user: DuneUserInfo, pool: DunePool) -> u64 {
    pending_reward(user, pool.acc_reward_per_share) as u64
}

impl Default for DuneUserInfo {
    /// A record with zero keys, zero counters, not blacklisted, not
    /// initialized.
    fn default() -> (u: DuneUserInfo)
        ensures
            u.authority.is_zero(),
            u.bump == 0,
            u.dunepool.is_zero(),
            u.total_claimed == 0,
            u.total_stake == 0,
            u.last_updated == 0,
            u.reward_debt == 0,
            !u.blacklisted,
            !u.is_initialized,
    {
        DuneUserInfo {
            authority: Key::zero(),
            bump: 0,
            dunepool: Key::zero(),
            total_claimed: 0,
            total_stake: 0,
            last_updated: 0,
            reward_debt: 0,
            blacklisted: false,
            is_initialized: false,
        }
    }
}

impl DuneUserInfo {
    /// Account size of a stake record, with its 8-byte discriminator.
    pub const LEN: usize = 8 + 32 + 1 + 32 + 16 + 8 + 8 + 16 + 1 + 1;

    /// Binds a fresh record to its pool and owner; a record that is already
    /// initialized is refused and left as it was.
    pub fn initialize(&mut self, dunepool: Key, bump: u8, authority: Key) -> (r: Result<(), ErrorCode>)
        ensures
            !old(self).is_initialized ==> r is Ok && *final(self) == initialized_user(
                *old(self),
                dunepool,
                bump,
                authority,
            ),
            old(self).is_initialized ==> r == Err::<(), ErrorCode>(ErrorCode::AccountIsInitialized)
                && *final(self) == *old(self),
    {
        if !self.is_initialized {
            self.dunepool = dunepool;
            self.authority = authority;
            self.bump = bump;
            self.blacklisted = false;
            self.is_initialized = true;
            return Ok(());
        }
        Err(ErrorCode::AccountIsInitialized)
    }

    /// Stakes `amount` more in `dunepool` at `current_slot` and returns the
    /// rewards the user had earned since the last deposit. The pool is first
    /// updated to `current_slot`, which leaves it as it was wherever the
    /// deposit completes; both totals then grow by `amount`, and the user's
    /// reward debt is reset to what the new stake has accrued.
    pub fn deposit(&mut self, dunepool: &mut DunePool, amount: u64, current_slot: u64) -> (r: Result<u64, ErrorCode>)
        requires
            deposit_defined(*old(self), *old(dunepool), amount, current_slot),
        ensures
            !old(self).is_initialized ==> r == Err::<u64, ErrorCode>(ErrorCode::AccountIsInitialized)
                && *final(self) == *old(self) && *final(dunepool) == *old(dunepool),
            old(self).is_initialized && amount == 0 ==> r == Err::<u64, ErrorCode>(ErrorCode::InvalidDepositAmount)
                && *final(self) == *old(self) && *final(dunepool) == *old(dunepool),
            old(self).is_initialized && amount > 0 ==> {
                &&& r == Ok::<u64, ErrorCode>(deposit_reward(*old(self), *old(dunepool)))
                &&& *final(dunepool) == pool_after_deposit(*old(dunepool), amount)
                &&& *final(self) == user_after_deposit(*old(self), *old(dunepool), amount, current_slot)
            },
    {
        self.enforce_initialized()?;
        if amount == 0 {
            return Err(ErrorCode::InvalidDepositAmount);
        }
        dunepool.update(current_slot)?;
        let mut pending_reward: u64 = 0;
        if self.total_stake > 0 {
            pending_reward = ((self.total_stake as u128) * dunepool.acc_reward_per_share / WAD) as u64
                - self.reward_debt;
        }
        dunepool.update_total_stake(amount as u128)?;
        self.total_stake = self.total_stake + amount;
        self.update_user_info(dunepool, current_slot)?;
        Ok(pending_reward)
    }

    fn enforce_initialized(&self) -> (r: Result<(), ErrorCode>)
        ensures
            self.is_initialized ==> r is Ok,
            !self.is_initialized ==> r == Err::<(), ErrorCode>(ErrorCode::AccountIsInitialized),
    {
        if !self.is_initialized {
            return Err(ErrorCode::AccountIsInitialized);
        }
        Ok(())
    }

    fn update_user_info(&mut self, dunepool: &DunePool, current_slot: u64) -> (r: Result<(), ErrorCode>)
        requires
            old(self).total_stake * dunepool.acc_reward_per_share <= u128::MAX,
        ensures
            r is Ok,
            *final(self) == (DuneUserInfo {
                reward_debt: accrued(old(self).total_stake, dunepool.acc_reward_per_share),
                last_updated: current_slot,
                ..*old(self)
            }),
    {
        self.reward_debt = ((self.total_stake as u128) * dunepool.acc_reward_per_share / WAD) as u64;
        self.last_updated = current_slot;
        Ok(())
    }
}

/// A deposit adds the same amount to the pool's total stake and to the
/// user's stake.
pub proof fn deposit_grows_both_totals_alike(user: DuneUserInfo, pool: DunePool, amount: u64, slot: u64)
    requires
        user.is_initialized,
        amount > 0,
        deposit_defined(user, pool, amount, slot),
    ensures
        pool_after_deposit(pool, amount).total_stake == pool.total_stake + amount,
        user_after_deposit(user, pool, amount, slot).total_stake == user.total_stake + amount,
{
}

/// Right after a deposit the user is owed nothing at the pool's
/// `acc_reward_per_share`, so a next deposit into the same pool pays out no
/// reward.
pub proof fn next_deposit_pays_nothing(user: DuneUserInfo, pool: DunePool, amount: u64, slot: u64)
    requires
        user.is_initialized,
        amount > 0,
        deposit_defined(user, pool, amount, slot),
    ensures
        pending_reward(
            user_after_deposit(user, pool, amount, slot),
            pool_after_deposit(pool, amount).acc_reward_per_share,
        ) == 0,
        deposit_reward(
            user_after_deposit(user, pool, amount, slot),
            pool_after_deposit(pool, amount),
        ) == 0,
{
}

/// A record can be initialized once: initializing binds it and marks it
/// initialized, and initializing it again is refused.
pub proof fn initialize_is_one_shot(user: DuneUserInfo, dunepool: Key, bump: u8, authority: Key)
    requires
        !user.is_initialized,
    ensures
        initialized_user(user, dunepool, bump, authority).is_initialized,
        initialized_user(user, dunepool, bump, authority).dunepool == dunepool,
        initialized_user(user, dunepool, bump, authority).authority == authority,
        initialized_user(user, dunepool, bump, authority).total_stake == user.total_stake,
{
}

/// Rewards accrued by a stake grow with `acc_reward_per_share`, as long as
/// the larger accrual fits in a `u64`, so that the cast truncates neither.
pub proof fn accrued_is_monotone(stake: u64, acc0: u128, acc1: u128)
    requires
        acc0 <= acc1,
        stake * acc1 / (WAD as int) <= u64::MAX,
    ensures
        accrued(stake, acc0) <= accrued(stake, acc1),
{
    vstd::arithmetic::mul::lemma_mul_inequality(acc0 as int, acc1 as int, stake as int);
    assert(stake * acc0 <= stake * acc1) by (nonlinear_arith)
        requires
            acc0 * stake <= acc1 * stake,
    ;
    vstd::arithmetic::div_mod::lemma_div_is_ordered(stake * acc0, stake * acc1, WAD as int);
    assert(stake * acc0 >= 0) by (nonlinear_arith);
    assert(stake * acc0 / (WAD as int) >= 0);
}

/// A reward debt taken at an `acc_reward_per_share` no larger than the
/// pool's present one never exceeds what the stake has accrued since, so the
/// pending-reward subtraction of a deposit cannot underflow (where the
/// present accrual fits in a `u64`); and the deposit settles the debt again
/// at the pool's present `acc_reward_per_share`.
pub proof fn deposit_settles_reward_debt(
    user: DuneUserInfo,
    pool: DunePool,
    amount: u64,
    slot: u64,
    debt_acc: u128,
)
    requires
        user.reward_debt == accrued(user.total_stake, debt_acc),
        debt_acc <= pool.acc_reward_per_share,
        user.total_stake * pool.acc_reward_per_share / (WAD as int) <= u64::MAX,
    ensures
        pending_reward(user, pool.acc_reward_per_share) >= 0,
        user_after_deposit(user, pool, amount, slot).reward_debt == accrued(
            (user.total_stake + amount) as u64,
            pool_after_deposit(pool, amount).acc_reward_per_share,
        ),
{
    accrued_is_monotone(user.total_stake, debt_acc, pool.acc_reward_per_share);
}

} // verus!
