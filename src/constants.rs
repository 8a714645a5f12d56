use vstd::prelude::*;

verus! {

/// Hard cap on all units ever committed (100B tokens with 3 decimals).
pub const MAX_SUPPLY: u64 = 100_000_000_000_000;

/// Reward for one solution before any halving.
pub const INITIAL_REWARD: u64 = 25_000_000;

/// Number of claimed solutions between two halvings of the reward.
pub const HALVING_INTERVAL: u64 = 2_000_000;

/// Length of an epoch, in seconds.
pub const EPOCH_DURATION: i64 = 600;

/// Number of solutions per epoch that the retarget aims for.
pub const TARGET_SOLUTIONS: u64 = 50;

/// Difficulty at genesis and after a reset.
pub const INITIAL_DIFFICULTY: u64 = 8;

/// Largest difficulty, in leading zero bits.
pub const MAX_DIFFICULTY: u64 = 250;

/// Smallest difficulty, in leading zero bits.
pub const MIN_DIFFICULTY: u64 = 4;

/// Largest change of difficulty in one retarget.
pub const MAX_DIFFICULTY_ADJ: u64 = 5;

/// Number of epochs during which a solution can be claimed.
pub const CLAIM_EXPIRY_EPOCHS: u64 = 500;

/// Time over which locked units vest linearly, in seconds (30 days).
pub const VESTING_DURATION: i64 = 2_592_000;

} // verus!
