use vstd::prelude::*;

verus! {

/// Fixed-point scale of `acc_reward_per_share`.
pub const WAD: u128 = 1_000_000_000_000_000_000u128;

/// Seed of the address of a pool: the bytes of `"dune_pool"`.
pub const DUNE_POOL_SEED: [u8; 9] = [100, 117, 110, 101, 95, 112, 111, 111, 108];

/// Seed of the address of a user's stake record: the bytes of `"user_dune_info"`.
pub const USER_DUNE_INFO_SEED: [u8; 14] = [117, 115, 101, 114, 95, 100, 117, 110, 101, 95, 105, 110, 102, 111];

} // verus!
