use vstd::prelude::*;
use vstd::arithmetic::div_mod::lemma_div_is_ordered;

use crate::constants::{HALVING_INTERVAL, INITIAL_REWARD};

verus! {

/// Number of halvings that have taken place after `total_mined` claims.
pub open spec fn halvings_spec(total_mined: u64) -> u64 {
    total_mined / HALVING_INTERVAL
}

/// Reward for the next claim after `total_mined` claims: the initial reward
/// shifted right once per halving, and zero from the 64th halving on.
pub open spec fn reward_spec(total_mined: u64) -> u64 {
    if halvings_spec(total_mined) >= 64 {
        0
    } else {
        INITIAL_REWARD >> halvings_spec(total_mined)
    }
}

/// Reward paid for the next claimed solution.
pub fn calculate_reward(total_mined: u64) -> (r: u64)
    ensures
        r == reward_spec(total_mined),
        r <= INITIAL_REWARD,
{
    let halvings = total_mined / HALVING_INTERVAL;
    if halvings >= 64 {
        return 0;
    }
    let r = INITIAL_REWARD >> halvings;
    assert((25_000_000u64 >> halvings) <= 25_000_000u64) by (bit_vector);
    r
}

/// The reward never grows as more solutions are claimed.
pub proof fn lemma_reward_non_increasing(a: u64, b: u64)
    requires
        a <= b,
    ensures
        reward_spec(b) <= reward_spec(a),
{
    lemma_div_is_ordered(a as int, b as int, HALVING_INTERVAL as int);
    let ha = halvings_spec(a);
    let hb = halvings_spec(b);
    if hb < 64 {
        assert((25_000_000u64 >> hb) <= (25_000_000u64 >> ha)) by (bit_vector)
            requires
                ha <= hb,
        ;
    }
}

/// One more halving interval of claims halves the reward (rounding down).
pub proof fn lemma_reward_halves(n: u64)
    requires
        n + HALVING_INTERVAL <= u64::MAX,
    ensures
        reward_spec((n + HALVING_INTERVAL) as u64) == reward_spec(n) / 2,
{
    let m = (n + HALVING_INTERVAL) as u64;
    assert(m / HALVING_INTERVAL == n / HALVING_INTERVAL + 1);
    let h = halvings_spec(n);
    if h == 63 {
        assert((25_000_000u64 >> 63u64) == 0) by (bit_vector);
    } else if h < 63 {
        assert((25_000_000u64 >> ((h + 1) as u64)) == (25_000_000u64 >> h) / 2) by (bit_vector)
            requires
                h < 63,
        ;
    }
}

/// From the 64th halving interval on, a claim pays nothing.
pub proof fn lemma_reward_exhausted(n: u64)
    requires
        n >= 64 * HALVING_INTERVAL,
    ensures
        reward_spec(n) == 0,
{
    lemma_div_is_ordered(64 * HALVING_INTERVAL as int, n as int, HALVING_INTERVAL as int);
}

} // verus!
