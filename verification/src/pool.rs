use vstd::prelude::*;

use crate::constants::{DUNE_POOL_SEED, WAD};
use crate::errors::ErrorCode;
use crate::key::Key;
use crate::shared::to_timestamp_u64;

verus! {

/// A staking pool: where its tokens live, and the state of its reward
/// accounting.
#[derive(Clone, Copy, Debug)]
pub struct DunePool {
    pub pool_config: Key,
    pub bump: u8,
    pub deposit_token_mint: Key,
    pub deposit_token_vault: Key,
    pub reward_token_mint: Key,
    pub reward_token_vault: Key,
    pub paused: bool,
    /// Rewards released per block.
    pub reward_per_block: u128,
    /// Sum of all deposits.
    pub total_stake: u128,
    /// Accumulated rewards per staked unit, scaled by `WAD`.
    pub acc_reward_per_share: u128,
    pub last_updated: u64,
}

/// Rewards released between two blocks, in the order in which
/// `spawning_rewards` subtracts them: `from - to` blocks.
pub open spec fn spawned(reward_per_block: u128, from: u64, to: u64) -> int {
    reward_per_block * (from - to)
}

/// Whether `spawning_rewards(from, to)` runs without an arithmetic fault.
pub open spec fn spawning_rewards_defined(pool: DunePool, from: u64, to: u64) -> bool {
    &&& to <= from
    &&& spawned(pool.reward_per_block, from, to) <= u128::MAX
}

/// Whether `update(slot)` runs without an arithmetic fault: exactly when the
/// slot is not past `last_updated`. A later slot enters the catch-up branch,
/// whose first step `spawning_rewards(last_updated, slot)` subtracts `slot`
/// from `last_updated` and underflows (see `catch_up_faults`).
pub open spec fn update_defined(pool: DunePool, slot: u64) -> bool {
    slot <= pool.last_updated
}

impl Default for DunePool {
    /// A pool whose keys are all zero, unpaused, with all counters zero.
    fn default() -> (p: DunePool)
        ensures
            p.pool_config.is_zero(),
            p.bump == 0,
            p.deposit_token_mint.is_zero(),
            p.deposit_token_vault.is_zero(),
            p.reward_token_mint.is_zero(),
            p.reward_token_vault.is_zero(),
            !p.paused,
            p.reward_per_block == 0,
            p.total_stake == 0,
            p.acc_reward_per_share == 0,
            p.last_updated == 0,
    {
        DunePool {
            pool_config: Key::zero(),
            bump: 0,
            deposit_token_mint: Key::zero(),
            deposit_token_vault: Key::zero(),
            reward_token_mint: Key::zero(),
            reward_token_vault: Key::zero(),
            paused: false,
            reward_per_block: 0,
            total_stake: 0,
            acc_reward_per_share: 0,
            last_updated: 0,
        }
    }
}

impl DunePool {
    /// Account size of a pool, with its 8-byte discriminator.
    pub const LEN: usize = 8 + 32 + 1 + 32 * 4 + 1 + 16 + 16 + 16 + 8;

    /// Records where the pool's tokens live and starts its clock at
    /// `unix_timestamp`. The keys and the bump are written first; a negative
    /// timestamp is then refused and leaves `last_updated` as it was.
    pub fn initialize(
        &mut self,
        pool_config: Key,
        bump: u8,
        deposit_token_mint: Key,
        deposit_token_vault: Key,
        reward_token_mint: Key,
        reward_token_vault: Key,
        unix_timestamp: i64,
    ) -> (r: Result<(), ErrorCode>)
        ensures
            final(self).pool_config == pool_config,
            final(self).bump == bump,
            final(self).deposit_token_mint == deposit_token_mint,
            final(self).deposit_token_vault == deposit_token_vault,
            final(self).reward_token_mint == reward_token_mint,
            final(self).reward_token_vault == reward_token_vault,
            final(self).paused == old(self).paused,
            final(self).reward_per_block == old(self).reward_per_block,
            final(self).total_stake == old(self).total_stake,
            final(self).acc_reward_per_share == old(self).acc_reward_per_share,
            unix_timestamp >= 0 ==> r is Ok && final(self).last_updated == unix_timestamp as u64,
            unix_timestamp < 0 ==> r == Err::<(), ErrorCode>(ErrorCode::InvalidTimestampConversion)
                && final(self).last_updated == old(self).last_updated,
    {
        self.pool_config = pool_config;
        self.deposit_token_vault = deposit_token_vault;
        self.deposit_token_mint = deposit_token_mint;
        self.reward_token_mint = reward_token_mint;
        self.reward_token_vault = reward_token_vault;
        self.bump = bump;
        self.last_updated = to_timestamp_u64(unix_timestamp)?;
        Ok(())
    }

    /// Adds a deposit to the pool's total stake.
    pub fn update_total_stake(&mut self, deposit_amount: u128) -> (r: Result<(), ErrorCode>)
        requires
            old(self).total_stake + deposit_amount <= u128::MAX,
        ensures
            r is Ok,
            *final(self) == (DunePool { total_stake: (old(self).total_stake + deposit_amount) as u128, ..*old(self) }),
    {
        self.total_stake = self.total_stake + deposit_amount;
        Ok(())
    }

    /// Brings the reward accounting up to `current_slot`. A slot not past
    /// `last_updated` changes nothing. For a later slot the code would add
    /// the rewards released since `last_updated`, per staked unit and scaled
    /// by `WAD`, to `acc_reward_per_share`; but it counts the blocks as
    /// `last_updated - current_slot`, which underflows, so the function is
    /// only defined on slots not past `last_updated`, where it leaves the
    /// pool as it was.
    pub fn update(&mut self, current_slot: u64) -> (r: Result<(), ErrorCode>)
        requires
            update_defined(*old(self), current_slot),
        ensures
            r is Ok,
            *final(self) == *old(self),
    {
        if current_slot <= self.last_updated {
            return Ok(());
        }
        let total_spawning_rewards = self.spawning_rewards(self.last_updated, current_slot)?;
        self.acc_reward_per_share = self.acc_reward_per_share + total_spawning_rewards * WAD
            / self.total_stake;
        self.last_updated = current_slot;
        Ok(())
    }

    /// Rewards released over `from - to` blocks.
    pub fn spawning_rewards(&self, from: u64, to: u64) -> (r: Result<u128, ErrorCode>)
        requires
            spawning_rewards_defined(*self, from, to),
        ensures
            r == Ok::<u128, ErrorCode>(spawned(self.reward_per_block, from, to) as u128),
            r matches Ok(v) && v == self.reward_per_block * (from - to),
    {
        let total_blocks = from - to;
        let total_spawning_rewards = self.reward_per_block * (total_blocks as u128);
        Ok(total_spawning_rewards)
    }

    /// The seeds of the pool's address: the pool seed, then the bytes of the
    /// configuration, of the deposit mint and of the reward mint.
    pub fn seeds(&self) -> (r: [&[u8]; 4])
        ensures
            r@[0]@ == DUNE_POOL_SEED@,
            r@[1]@ == self.pool_config.bytes@,
            r@[2]@ == self.deposit_token_mint.bytes@,
            r@[3]@ == self.reward_token_mint.bytes@,
    {
        [
            vstd::array::array_as_slice(&DUNE_POOL_SEED),
            vstd::array::array_as_slice(&self.pool_config.bytes),
            vstd::array::array_as_slice(&self.deposit_token_mint.bytes),
            vstd::array::array_as_slice(&self.reward_token_mint.bytes),
        ]
    }
}

/// For a slot past `last_updated`, the catch-up branch of `update` cannot
/// run: `spawning_rewards(last_updated, slot)` would subtract the later slot
/// from the earlier one.
pub proof fn catch_up_faults(pool: DunePool, slot: u64)
    requires
        slot > pool.last_updated,
    ensures
        !spawning_rewards_defined(pool, pool.last_updated, slot),
        !update_defined(pool, slot),
{
}

/// Rewards are released at `reward_per_block` for each block: one block
/// releases exactly `reward_per_block`, and the rewards over a span are the
/// sum of those over its two parts, so they are linear in the block count.
pub proof fn spawned_is_linear_in_blocks(reward_per_block: u128, from: u64, mid: u64, to: u64)
    requires
        to <= mid <= from,
    ensures
        spawned(reward_per_block, from, to) == spawned(reward_per_block, from, mid) + spawned(
            reward_per_block,
            mid,
            to,
        ),
        spawned(reward_per_block, to, to) == 0,
        to < u64::MAX ==> spawned(reward_per_block, (to + 1) as u64, to) == reward_per_block,
        spawned(reward_per_block, from, to) == reward_per_block * (from - to),
{
    assert(reward_per_block * (from - to) == reward_per_block * (from - mid) + reward_per_block * (mid
        - to)) by (nonlinear_arith);
}

} // verus!
