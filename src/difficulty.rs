use vstd::prelude::*;
use vstd::arithmetic::power2::{lemma2_to64, lemma_pow2_unfold, pow2};

use crate::constants::{MAX_DIFFICULTY, MAX_DIFFICULTY_ADJ, MIN_DIFFICULTY, TARGET_SOLUTIONS};

verus! {

/// `ceil(log2(n))`, taken as 0 for `n <= 1`.
pub open spec fn log2_ceil_spec(n: nat) -> nat
    decreases n,
{
    if n <= 1 {
        0
    } else {
        1 + log2_ceil_spec((n / 2 + n % 2) as nat)
    }
}

/// For `n >= 2`, `log2_ceil_spec(n)` is the exponent of the least power of
/// two that is at least `n`.
pub proof fn lemma_log2_ceil_bounds(n: nat)
    requires
        n >= 2,
    ensures
        log2_ceil_spec(n) >= 1,
        pow2((log2_ceil_spec(n) - 1) as nat) < n <= pow2(log2_ceil_spec(n)),
    decreases n,
{
    let m = (n / 2 + n % 2) as nat;
    let l = log2_ceil_spec(n);
    assert(l == 1 + log2_ceil_spec(m));
    lemma_pow2_unfold(l);
    if m == 1 {
        assert(l == 1);
        lemma2_to64();
    } else {
        lemma_log2_ceil_bounds(m);
        let k = log2_ceil_spec(m);
        lemma_pow2_unfold(k);
    }
}

/// Ceiling of the base-2 logarithm of `n`; 0 when `n <= 1`.
pub fn log2_ceil(n: u64) -> (r: u64)
    ensures
        r == log2_ceil_spec(n as nat),
        n <= 1 ==> r == 0,
        n >= 2 ==> r >= 1 && pow2((r - 1) as nat) < n <= pow2(r as nat),
{
    proof {
        if n >= 2 {
            lemma_log2_ceil_bounds(n as nat);
        }
    }
    let mut m: u64 = n;
    let mut k: u64 = 0;
    while m > 1
        invariant
            k + log2_ceil_spec(m as nat) == log2_ceil_spec(n as nat),
            k + m <= n,
        decreases m,
    {
        m = m / 2 + m % 2;
        k = k + 1;
    }
    k
}

/// Size of one retarget step for a ratio: `ceil(log2(ratio))` kept within
/// `[1, MAX_DIFFICULTY_ADJ]`.
pub open spec fn step_spec(ratio: nat) -> int {
    let l = log2_ceil_spec(ratio);
    if l < 1 {
        1
    } else if l > MAX_DIFFICULTY_ADJ {
        MAX_DIFFICULTY_ADJ as int
    } else {
        l as int
    }
}

/// Difficulty of the next epoch, from the current one and the number of
/// solutions observed in the epoch that closed.
pub open spec fn retarget_spec(difficulty: int, observed: int) -> int {
    let target = TARGET_SOLUTIONS as int;
    if observed > target + target / 5 {
        let d = difficulty + step_spec((observed / target) as nat);
        if d > MAX_DIFFICULTY { MAX_DIFFICULTY as int } else { d }
    } else if observed == 0 {
        let d = difficulty - MAX_DIFFICULTY_ADJ;
        if d < MIN_DIFFICULTY { MIN_DIFFICULTY as int } else { d }
    } else if observed < target - target / 5 {
        let d = difficulty - step_spec((target / observed) as nat);
        if d < MIN_DIFFICULTY { MIN_DIFFICULTY as int } else { d }
    } else {
        difficulty
    }
}

fn adjustment_step(ratio: u64) -> (r: u64)
    ensures
        r == step_spec(ratio as nat),
{
    let l = log2_ceil(ratio);
    if l < 1 {
        1
    } else if l > MAX_DIFFICULTY_ADJ {
        MAX_DIFFICULTY_ADJ
    } else {
        l
    }
}

/// Retargets the difficulty after an epoch in which `observed` solutions were
/// reported: up by `ceil(log2(observed / target))` when more than 20% over the
/// target, down by `ceil(log2(target / observed))` when more than 20% under it,
/// down by the largest step when none came, each step between 1 and
/// `MAX_DIFFICULTY_ADJ`, and the result kept within the difficulty bounds.
pub fn next_difficulty(difficulty: u64, observed: u64) -> (r: u64)
    requires
        MIN_DIFFICULTY <= difficulty <= MAX_DIFFICULTY,
    ensures
        r == retarget_spec(difficulty as int, observed as int),
        MIN_DIFFICULTY <= r <= MAX_DIFFICULTY,
{
    let target = TARGET_SOLUTIONS;
    if observed > target + target / 5 {
        let inc = adjustment_step(observed / target);
        let d = difficulty + inc;
        if d > MAX_DIFFICULTY { MAX_DIFFICULTY } else { d }
    } else if observed == 0 {
        if difficulty < MIN_DIFFICULTY + MAX_DIFFICULTY_ADJ {
            MIN_DIFFICULTY
        } else {
            difficulty - MAX_DIFFICULTY_ADJ
        }
    } else if observed < target - target / 5 {
        let dec = adjustment_step(target / observed);
        if difficulty < MIN_DIFFICULTY + dec {
            MIN_DIFFICULTY
        } else {
            difficulty - dec
        }
    } else {
        difficulty
    }
}

/// Whatever count the crank reports, a retarget from a difficulty within the
/// bounds stays within the bounds.
pub proof fn lemma_retarget_bounded(difficulty: u64, observed: u64)
    requires
        MIN_DIFFICULTY <= difficulty <= MAX_DIFFICULTY,
    ensures
        MIN_DIFFICULTY <= retarget_spec(difficulty as int, observed as int) <= MAX_DIFFICULTY,
{
}

} // verus!
