use vstd::prelude::*;

use crate::key::Key;

verus! {

/// What a deposit reports: the pool, the user, the rewards paid out, the
/// amount deposited and the user's stake after it.
#[derive(Clone, Copy, Debug)]
pub struct DepositEvent {
    pub pool_id: Key,
    pub user: Key,
    pub earned_rewards: u64,
    pub deposit_amount: u64,
    pub total_stake: u64,
}

} // verus!
