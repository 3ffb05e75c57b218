use vstd::prelude::*;

verus! {

/// Maximum allowed reward rate (1000% when scaled by `REWARD_SCALE`).
/// Prevents misconfiguration of reward rates that could drain the reward vault.
pub const MAX_REWARD_RATE: u64 = 1_000_000_000_000;

/// Scale factor for reward rate calculations (1e9).
/// Reward rates are stored as scaled integers: 100_000_000 means 10%.
pub const REWARD_SCALE: u128 = 1_000_000_000;

/// Scale factor for reward rate calculations, as a `u64`.
pub const REWARD_SCALE_U64: u64 = 1_000_000_000;

} // verus!
