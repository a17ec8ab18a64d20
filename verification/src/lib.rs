//! Reward accounting for a staking pool: pools, their configuration of
//! guardians, per-user stake records, and the checks that decide how a deposit
//! moves tokens.

pub mod key;
pub mod errors;
pub mod constants;
pub mod shared;
pub mod pool;
pub mod config;
pub mod stake;
pub mod token;
pub mod remaining_accounts;
pub mod events;
pub mod instructions;
