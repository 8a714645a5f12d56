use vstd::prelude::*;

use crate::constants::{EPOCH_DURATION, INITIAL_DIFFICULTY, MAX_DIFFICULTY, MAX_SUPPLY, MIN_DIFFICULTY};
use crate::difficulty::{next_difficulty, retarget_spec};
use crate::errors::ErrorCode;
use crate::hashing::{keccak256, keccak256_of, le_bytes_spec, push_bytes, push_le_bytes};
use crate::keys::{same_key, Pubkey};

verus! {

/// The singleton mining state: challenge, difficulty, epoch window and
/// supply counters, with the identities of the token and of the crank
/// authority.
#[derive(Debug, Clone, Copy)]
pub struct MineState {
    pub total_mined: u64,
    pub difficulty: u64,
    pub challenge_seed: [u8; 32],
    pub epoch_number: u64,
    pub epoch_start_time: i64,
    pub epoch_end_time: i64,
    pub solutions_in_epoch: u64,
    pub settled_in_epoch: u64,
    pub total_supply: u64,
    pub mint: Pubkey,
    pub crank_authority: Pubkey,
    pub bump: u8,
}

impl MineState {
    /// Supply within the cap, difficulty within its bounds, and an epoch
    /// window of exactly one epoch.
    pub open spec fn wf(&self) -> bool {
        &&& self.total_supply <= MAX_SUPPLY
        &&& MIN_DIFFICULTY <= self.difficulty <= MAX_DIFFICULTY
        &&& self.epoch_end_time == self.epoch_start_time + EPOCH_DURATION
    }

    /// Whether the state satisfies `wf`.
    pub fn is_well_formed(&self) -> (r: bool)
        ensures
            r == self.wf(),
    {
        self.total_supply <= MAX_SUPPLY && MIN_DIFFICULTY <= self.difficulty && self.difficulty
            <= MAX_DIFFICULTY && self.epoch_start_time <= i64::MAX - EPOCH_DURATION
            && self.epoch_end_time == self.epoch_start_time + EPOCH_DURATION
    }

    /// The epoch is still open at `now`.
    pub open spec fn is_active(&self, now: i64) -> bool {
        now < self.epoch_end_time
    }
}

/// Bytes hashed into the challenge seed at genesis and on a reset.
pub open spec fn genesis_preimage(slot: u64, now: i64, state_key: Seq<u8>) -> Seq<u8> {
    le_bytes_spec(slot) + le_bytes_spec(now as u64) + state_key
}

/// Bytes hashed into the next challenge seed when an epoch is advanced.
pub open spec fn advance_preimage(seed: Seq<u8>, now: i64, slot: u64, observed: u64) -> Seq<u8> {
    seed + le_bytes_spec(now as u64) + le_bytes_spec(slot) + le_bytes_spec(observed)
}

/// `s` holds the counters of a fresh start at `now`, with a seed derived from
/// the slot, the time and the state's own key.
pub open spec fn is_fresh_start(s: MineState, now: i64, slot: u64, state_key: Seq<u8>) -> bool {
    &&& s.total_mined == 0
    &&& s.difficulty == INITIAL_DIFFICULTY
    &&& s.challenge_seed@ == keccak256_of(genesis_preimage(slot, now, state_key))
    &&& s.epoch_number == 0
    &&& s.epoch_start_time == now
    &&& s.epoch_end_time == now + EPOCH_DURATION
    &&& s.solutions_in_epoch == 0
    &&& s.settled_in_epoch == 0
    &&& s.total_supply == 0
}

fn genesis_seed(slot: u64, now: i64, state_key: &Pubkey) -> (r: [u8; 32])
    ensures
        r@ == keccak256_of(genesis_preimage(slot, now, state_key@)),
{
    let mut buf: Vec<u8> = Vec::new();
    push_le_bytes(&mut buf, slot);
    push_le_bytes(&mut buf, now as u64);
    push_bytes(&mut buf, state_key.as_slice());
    keccak256(buf.as_slice())
}

/// Creates the mining state at genesis: zero counters, the initial
/// difficulty, one epoch from `now`, and `payer` as crank authority.
pub fn initialize(state_key: &Pubkey, mint: Pubkey, payer: Pubkey, now: i64, slot: u64, bump: u8) -> (r: MineState)
    requires
        now + EPOCH_DURATION <= i64::MAX,
    ensures
        is_fresh_start(r, now, slot, state_key@),
        r.mint == mint,
        r.crank_authority == payer,
        r.bump == bump,
        r.wf(),
{
    let seed = genesis_seed(slot, now, state_key);
    MineState {
        total_mined: 0,
        difficulty: INITIAL_DIFFICULTY,
        challenge_seed: seed,
        epoch_number: 0,
        epoch_start_time: now,
        epoch_end_time: now + EPOCH_DURATION,
        solutions_in_epoch: 0,
        settled_in_epoch: 0,
        total_supply: 0,
        mint,
        crank_authority: payer,
        bump,
    }
}

/// Succeeds exactly when `signer` is the crank authority.
pub fn check_crank_authority(state: &MineState, signer: &Pubkey) -> (r: Result<(), ErrorCode>)
    ensures
        r == if signer@ == state.crank_authority@ {
            Ok::<(), ErrorCode>(())
        } else {
            Err::<(), ErrorCode>(ErrorCode::Unauthorized)
        },
{
    if same_key(signer, &state.crank_authority) {
        Ok(())
    } else {
        Err(ErrorCode::Unauthorized)
    }
}

/// Hands the crank authority to `new_authority`; only the current authority
/// may do so.
pub fn set_crank_authority(state: &mut MineState, signer: &Pubkey, new_authority: Pubkey) -> (r: Result<(), ErrorCode>)
    ensures
        signer@ == old(state).crank_authority@ ==> r.is_ok()
            && *final(state) == (MineState { crank_authority: new_authority, ..*old(state) }),
        signer@ != old(state).crank_authority@ ==> r == Err::<(), ErrorCode>(ErrorCode::Unauthorized)
            && *final(state) == *old(state),
{
    check_crank_authority(state, signer)?;
    state.crank_authority = new_authority;
    Ok(())
}

/// Starts the mining state over as at genesis, keeping the token, the crank
/// authority and the bump; only the crank authority may do so.
pub fn reset_state(state: &mut MineState, signer: &Pubkey, state_key: &Pubkey, now: i64, slot: u64) -> (r: Result<(), ErrorCode>)
    requires
        now + EPOCH_DURATION <= i64::MAX,
    ensures
        signer@ == old(state).crank_authority@ ==> r.is_ok()
            && is_fresh_start(*final(state), now, slot, state_key@)
            && final(state).mint == old(state).mint
            && final(state).crank_authority == old(state).crank_authority
            && final(state).bump == old(state).bump
            && final(state).wf(),
        signer@ != old(state).crank_authority@ ==> r == Err::<(), ErrorCode>(ErrorCode::Unauthorized)
            && *final(state) == *old(state),
{
    check_crank_authority(state, signer)?;
    let seed = genesis_seed(slot, now, state_key);
    state.total_mined = 0;
    state.difficulty = INITIAL_DIFFICULTY;
    state.challenge_seed = seed;
    state.epoch_number = 0;
    state.epoch_start_time = now;
    state.epoch_end_time = now + EPOCH_DURATION;
    state.solutions_in_epoch = 0;
    state.settled_in_epoch = 0;
    state.total_supply = 0;
    Ok(())
}

/// Closes the current epoch once its end time has passed: records the
/// reported solution count, retargets the difficulty, derives a new challenge
/// seed and opens the next epoch at `now`. Anyone may call it; before the end
/// time it is refused and nothing changes.
pub fn advance_epoch(state: &mut MineState, now: i64, slot: u64, solution_count: u64) -> (r: Result<(), ErrorCode>)
    requires
        old(state).wf(),
        now + EPOCH_DURATION <= i64::MAX,
        old(state).epoch_number < u64::MAX,
    ensures
        final(state).wf(),
        now < old(state).epoch_end_time ==> r == Err::<(), ErrorCode>(ErrorCode::EpochNotEnded)
            && *final(state) == *old(state),
        now >= old(state).epoch_end_time ==> r.is_ok()
            && final(state).solutions_in_epoch == solution_count
            && final(state).difficulty == retarget_spec(old(state).difficulty as int, solution_count as int)
            && final(state).challenge_seed@ == keccak256_of(
                advance_preimage(old(state).challenge_seed@, now, slot, solution_count),
            )
            && final(state).epoch_number == old(state).epoch_number + 1
            && final(state).epoch_start_time == now
            && final(state).epoch_end_time == now + EPOCH_DURATION
            && final(state).total_mined == old(state).total_mined
            && final(state).total_supply == old(state).total_supply
            && final(state).settled_in_epoch == old(state).settled_in_epoch
            && final(state).mint == old(state).mint
            && final(state).crank_authority == old(state).crank_authority
            && final(state).bump == old(state).bump,
{
    if now < state.epoch_end_time {
        return Err(ErrorCode::EpochNotEnded);
    }
    state.solutions_in_epoch = solution_count;
    state.difficulty = next_difficulty(state.difficulty, solution_count);
    let mut buf: Vec<u8> = Vec::new();
    push_bytes(&mut buf, state.challenge_seed.as_slice());
    push_le_bytes(&mut buf, now as u64);
    push_le_bytes(&mut buf, slot);
    push_le_bytes(&mut buf, solution_count);
    state.challenge_seed = keccak256(buf.as_slice());
    state.epoch_number = state.epoch_number + 1;
    state.epoch_start_time = now;
    state.epoch_end_time = now + EPOCH_DURATION;
    Ok(())
}

} // verus!
