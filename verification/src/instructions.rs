use vstd::prelude::*;

use crate::constants::WAD;
use crate::errors::ErrorCode;
use crate::events::DepositEvent;
use crate::key::Key;
use crate::pool::DunePool;
use crate::stake::{
    deposit_defined, deposit_reward, initialized_user, pool_after_deposit, user_after_deposit,
    DuneUserInfo,
};

verus! {

/// The record a stake instruction deposits into: as it is if initialized,
/// else freshly bound to the pool and the depositor.
pub open spec fn staking_user(user: DuneUserInfo, dunepool_key: Key, bump: u8, token_authority: Key) -> DuneUserInfo {
    if user.is_initialized {
        user
    } else {
        initialized_user(user, dunepool_key, bump, token_authority)
    }
}

/// The accounting of a stake instruction: binds a fresh user record to the
/// pool (at address `dunepool_key`) and the depositor, deposits
/// `deposit_amount` at `current_slot`, and returns the event that reports it.
/// Whether rewards are paid out is `earned_rewards > 0` in the event.
pub fn process_stake(
    user_info: &mut DuneUserInfo,
    dunepool: &mut DunePool,
    dunepool_key: Key,
    user_info_bump: u8,
    token_authority: Key,
    deposit_amount: u64,
    current_slot: u64,
) -> (r: Result<DepositEvent, ErrorCode>)
    requires
        deposit_defined(
            staking_user(*old(user_info), dunepool_key, user_info_bump, token_authority),
            *old(dunepool),
            deposit_amount,
            current_slot,
        ),
    ensures
        ({
            let user = staking_user(*old(user_info), dunepool_key, user_info_bump, token_authority);
            &&& deposit_amount == 0 ==> r == Err::<DepositEvent, ErrorCode>(ErrorCode::InvalidDepositAmount)
                && *final(user_info) == user && *final(dunepool) == *old(dunepool)
            &&& deposit_amount > 0 ==> {
                let after = user_after_deposit(user, *old(dunepool), deposit_amount, current_slot);
                &&& r == Ok::<DepositEvent, ErrorCode>(DepositEvent {
                    pool_id: dunepool_key,
                    user: user.authority,
                    earned_rewards: deposit_reward(user, *old(dunepool)),
                    deposit_amount: deposit_amount,
                    total_stake: after.total_stake,
                })
                &&& *final(user_info) == after
                &&& *final(dunepool) == pool_after_deposit(*old(dunepool), deposit_amount)
            }
        }),
{
    if !user_info.is_initialized {
        user_info.initialize(dunepool_key, user_info_bump, token_authority)?;
    }
    let earned_rewards = user_info.deposit(dunepool, deposit_amount, current_slot)?;
    Ok(DepositEvent {
        pool_id: dunepool_key,
        user: user_info.authority,
        earned_rewards,
        deposit_amount,
        total_stake: user_info.total_stake,
    })
}

/// Whether `process_stake` with these arguments completes without an
/// arithmetic fault, so that a caller can refuse the inputs on which the
/// program would abort.
pub fn stake_completes(
    user_info: &DuneUserInfo,
    dunepool: &DunePool,
    dunepool_key: Key,
    user_info_bump: u8,
    token_authority: Key,
    deposit_amount: u64,
    current_slot: u64,
) -> (r: bool)
    ensures
        r == deposit_defined(
            staking_user(*user_info, dunepool_key, user_info_bump, token_authority),
            *dunepool,
            deposit_amount,
            current_slot,
        ),
{
    if deposit_amount == 0 {
        return true;
    }
    if current_slot > dunepool.last_updated {
        return false;
    }
    let acc = dunepool.acc_reward_per_share;
    let stake = user_info.total_stake;
    if stake > 0 {
        match (stake as u128).checked_mul(acc) {
            None => return false,
            Some(product) => {
                if ((product / WAD) as u64) < user_info.reward_debt {
                    return false;
                }
            },
        }
    }
    if dunepool.total_stake.checked_add(deposit_amount as u128).is_none() {
        return false;
    }
    match stake.checked_add(deposit_amount) {
        None => false,
        Some(new_stake) => (new_stake as u128).checked_mul(acc).is_some(),
    }
}

} // verus!
