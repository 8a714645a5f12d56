use proof_of_inference::constants::{
    HALVING_INTERVAL, INITIAL_REWARD, MAX_DIFFICULTY, MAX_SUPPLY, MIN_DIFFICULTY, VESTING_DURATION,
};
use proof_of_inference::difficulty::{log2_ceil, next_difficulty};
use proof_of_inference::errors::ErrorCode;
use proof_of_inference::reward::calculate_reward;
use proof_of_inference::solution::claimable_reward;
use proof_of_inference::vesting::{create_vesting, credit_vesting, drip_vesting, withdraw};
use proof_of_inference::work::check_difficulty;

const OWNER: [u8; 32] = [7u8; 32];

#[test]
fn reward_schedule_values() {
    assert_eq!(calculate_reward(0), 25_000_000);
    assert_eq!(calculate_reward(HALVING_INTERVAL - 1), 25_000_000);
    assert_eq!(calculate_reward(2_000_000), 12_500_000);
    assert_eq!(calculate_reward(4_000_000), 6_250_000);
    assert_eq!(calculate_reward(64 * HALVING_INTERVAL), 0);
    assert_eq!(calculate_reward(u64::MAX), 0);
}

#[test]
fn reward_halves_each_interval() {
    let mut prev = calculate_reward(0);
    for k in 1..70u64 {
        let r = calculate_reward(k * HALVING_INTERVAL);
        assert_eq!(r, prev / 2);
        assert!(calculate_reward(k * HALVING_INTERVAL - 1) >= r);
        prev = r;
    }
}

#[test]
fn log2_ceil_values() {
    assert_eq!(log2_ceil(0), 0);
    assert_eq!(log2_ceil(1), 0);
    assert_eq!(log2_ceil(2), 1);
    assert_eq!(log2_ceil(3), 2);
    assert_eq!(log2_ceil(4), 2);
    assert_eq!(log2_ceil(10), 4);
    assert_eq!(log2_ceil(u64::MAX), 64);
}

#[test]
fn retarget_scenarios() {
    assert_eq!(next_difficulty(8, 50), 8);
    assert_eq!(next_difficulty(8, 100), 9);
    assert_eq!(next_difficulty(8, 0), 4);
    assert_eq!(next_difficulty(20, 0), 15);
    assert_eq!(next_difficulty(20, 5), 16);
    assert_eq!(next_difficulty(20, 60), 20);
    assert_eq!(next_difficulty(20, 40), 20);
    assert_eq!(next_difficulty(20, 61), 21);
    assert_eq!(next_difficulty(20, 39), 19);
    assert_eq!(next_difficulty(20, 1_000_000_000), 25);
    assert_eq!(next_difficulty(248, 1_000_000_000), 250);
}

#[test]
fn retarget_stays_in_bounds() {
    let counts = [0u64, 1, 5, 39, 40, 50, 60, 61, 100, 1_000, 1_000_000_000, u64::MAX];
    for d in MIN_DIFFICULTY..=MAX_DIFFICULTY {
        for &c in counts.iter() {
            let n = next_difficulty(d, c);
            assert!(n >= 4 && n <= 250);
        }
    }
}

#[test]
fn zero_hash_meets_difficulty_up_to_256() {
    let h = [0u8; 32];
    for d in 0..=256u64 {
        assert!(check_difficulty(&h, d));
    }
    assert!(!check_difficulty(&h, 257));
    assert!(!check_difficulty(&h, 264));
    assert!(!check_difficulty(&h, u64::MAX));
}

#[test]
fn single_bit_hash_threshold() {
    for d in 1..=256u64 {
        let p = d - 1;
        let mut h = [0u8; 32];
        h[(p / 8) as usize] = 0x80u8 >> (p % 8);
        assert!(!check_difficulty(&h, d));
        assert!(check_difficulty(&h, d - 1));
    }
}

#[test]
fn supply_clamp_at_cap() {
    assert_eq!(claimable_reward(0, 0), INITIAL_REWARD);
    assert_eq!(claimable_reward(0, MAX_SUPPLY - 10), 10);
    assert_eq!(claimable_reward(0, MAX_SUPPLY), 0);
    assert_eq!(claimable_reward(HALVING_INTERVAL, MAX_SUPPLY - 12_500_000), 12_500_000);
}

#[test]
fn drip_conserves_and_vests_linearly() {
    let mut v = create_vesting(OWNER, 1_000, 1);
    credit_vesting(&mut v, 1_000, 1_000_000);
    assert_eq!((v.locked, v.unlocked, v.last_update), (1_000_000, 0, 1_000));
    drip_vesting(&mut v, 1_000);
    assert_eq!((v.locked, v.unlocked, v.last_update), (1_000_000, 0, 1_000));
    drip_vesting(&mut v, 1_000 + VESTING_DURATION / 4);
    assert_eq!((v.locked, v.unlocked), (750_000, 250_000));
    drip_vesting(&mut v, 500);
    assert_eq!((v.locked, v.unlocked, v.last_update), (750_000, 250_000, 500));
    drip_vesting(&mut v, 500 + VESTING_DURATION);
    assert_eq!((v.locked, v.unlocked), (0, 1_000_000));
}

#[test]
fn drip_rounds_down() {
    let mut v = create_vesting(OWNER, 0, 1);
    credit_vesting(&mut v, 0, 3);
    drip_vesting(&mut v, VESTING_DURATION / 2);
    assert_eq!((v.locked, v.unlocked), (2, 1));
}

#[test]
fn vesting_round_trip() {
    let t: i64 = 1_700_000_000;
    let r: u64 = 25_000_001;
    let mut v = create_vesting(OWNER, t, 1);
    credit_vesting(&mut v, t, r);
    let first = withdraw(&mut v, &OWNER, t + VESTING_DURATION / 2).unwrap();
    assert_eq!(first, r / 2);
    assert_eq!(v.unlocked, 0);
    assert_eq!(v.locked, r - r / 2);
    let second = withdraw(&mut v, &OWNER, t + VESTING_DURATION / 2 + VESTING_DURATION).unwrap();
    assert_eq!(first + second, r);
    assert_eq!(v.locked, 0);
}

#[test]
fn vesting_pool_rebases_on_each_drip() {
    let t: i64 = 0;
    let mut v = create_vesting(OWNER, t, 1);
    credit_vesting(&mut v, t, 2);
    assert_eq!(withdraw(&mut v, &OWNER, t + VESTING_DURATION / 2), Ok(1));
    assert_eq!(withdraw(&mut v, &OWNER, t + VESTING_DURATION), Err(ErrorCode::NothingToWithdraw));
    assert_eq!(v.locked, 1);
}

#[test]
fn withdraw_errors_leave_ledger_unchanged() {
    let mut v = create_vesting(OWNER, 0, 1);
    assert_eq!(withdraw(&mut v, &OWNER, 100), Err(ErrorCode::NothingToWithdraw));
    assert_eq!(v.last_update, 0);
    credit_vesting(&mut v, 0, 1_000);
    assert_eq!(withdraw(&mut v, &[9u8; 32], VESTING_DURATION), Err(ErrorCode::Unauthorized));
    assert_eq!((v.locked, v.unlocked, v.last_update), (1_000, 0, 0));
    assert_eq!(withdraw(&mut v, &OWNER, VESTING_DURATION), Ok(1_000));
}

#[test]
fn drip_without_elapsed_time_touches_only_last_update() {
    let mut v = create_vesting(OWNER, 100, 1);
    v.locked = u64::MAX;
    v.unlocked = 5;
    drip_vesting(&mut v, 100);
    assert_eq!((v.locked, v.unlocked, v.last_update), (u64::MAX, 5, 100));
    drip_vesting(&mut v, 50);
    assert_eq!((v.locked, v.unlocked, v.last_update), (u64::MAX, 5, 50));
}
