use vstd::prelude::*;

use crate::constants::{CLAIM_EXPIRY_EPOCHS, INITIAL_REWARD, MAX_SUPPLY};
use crate::errors::ErrorCode;
use crate::hashing::{keccak256, keccak256_of, le_bytes_spec, push_bytes, push_le_bytes};
use crate::keys::{same_key, Pubkey};
use crate::reward::{calculate_reward, reward_spec};
use crate::state::MineState;
use crate::vesting::{credit_spec, credit_vesting, VestingAccount};
use crate::work::{check_difficulty, meets_difficulty};

verus! {

/// An accepted submission awaiting its claim, keyed by submitter and epoch.
#[derive(Debug, Clone, Copy)]
pub struct Solution {
    pub miner: Pubkey,
    pub recipient: Pubkey,
    pub epoch: u64,
    pub nonce: u64,
    pub hash: [u8; 32],
    pub bump: u8,
}

/// The separator between the text and the nonce in the proof preimage.
pub open spec fn separator() -> Seq<u8> {
    seq![124u8, 124u8]
}

/// Bytes hashed into a proof: seed, submitter, text, separator, nonce.
pub open spec fn proof_preimage(seed: Seq<u8>, miner: Seq<u8>, text: Seq<u8>, nonce: u64) -> Seq<u8> {
    seed + miner + text + separator() + le_bytes_spec(nonce)
}

/// The proof hash of a submission against a challenge seed.
pub fn compute_proof_hash(seed: &[u8; 32], miner: &Pubkey, text: &[u8], nonce: u64) -> (r: [u8; 32])
    ensures
        r@ == keccak256_of(proof_preimage(seed@, miner@, text@, nonce)),
{
    let mut buf: Vec<u8> = Vec::new();
    push_bytes(&mut buf, seed.as_slice());
    push_bytes(&mut buf, miner.as_slice());
    push_bytes(&mut buf, text);
    buf.push(124u8);
    buf.push(124u8);
    push_le_bytes(&mut buf, nonce);
    proof {
        assert(buf@ =~= proof_preimage(seed@, miner@, text@, nonce));
    }
    keccak256(buf.as_slice())
}

/// The error a submission meets first, if any: the epoch has closed, the
/// supply is exhausted, the text fails the word constraint, or the hash is
/// short of the difficulty.
pub open spec fn submission_error(state: MineState, now: i64, text_valid: bool, hash: Seq<u8>) -> Option<ErrorCode> {
    if !state.is_active(now) {
        Some(ErrorCode::EpochEnded)
    } else if state.total_supply >= MAX_SUPPLY {
        Some(ErrorCode::MaxSupplyReached)
    } else if !text_valid {
        Some(ErrorCode::InvalidText)
    } else if !meets_difficulty(hash, state.difficulty as nat) {
        Some(ErrorCode::InsufficientDifficulty)
    } else {
        None
    }
}

/// Decides a submission whose proof hash is `hash`, and whose text the word
/// constraint judged `text_valid`: on success, the new solution record for
/// the current epoch. The mining state is only read.
pub fn accept_solution(
    state: &MineState,
    miner: Pubkey,
    recipient: Pubkey,
    nonce: u64,
    now: i64,
    text_valid: bool,
    hash: [u8; 32],
    bump: u8,
) -> (r: Result<Solution, ErrorCode>)
    ensures
        submission_error(*state, now, text_valid, hash@) matches Some(e) ==> r == Err::<Solution, ErrorCode>(e),
        submission_error(*state, now, text_valid, hash@) is None ==> (r matches Ok(s) && s.miner == miner
            && s.recipient == recipient && s.epoch == state.epoch_number && s.nonce == nonce
            && s.hash == hash && s.bump == bump),
{
    if now >= state.epoch_end_time {
        return Err(ErrorCode::EpochEnded);
    }
    if state.total_supply >= MAX_SUPPLY {
        return Err(ErrorCode::MaxSupplyReached);
    }
    if !text_valid {
        return Err(ErrorCode::InvalidText);
    }
    if !check_difficulty(&hash, state.difficulty) {
        return Err(ErrorCode::InsufficientDifficulty);
    }
    Ok(Solution { miner, recipient, epoch: state.epoch_number, nonce, hash, bump })
}

/// Submits `text` and `nonce` as a solution of the current challenge, with
/// `text_valid` the word constraint's verdict on the text. The proof hash is
/// computed over the seed, the submitter, the text and the nonce, and the
/// submission is decided as `accept_solution` does with that hash.
pub fn submit_solution(
    state: &MineState,
    miner: Pubkey,
    recipient: Pubkey,
    text: &[u8],
    nonce: u64,
    now: i64,
    text_valid: bool,
    bump: u8,
) -> (r: Result<Solution, ErrorCode>)
    ensures
        ({
            let hash = keccak256_of(proof_preimage(state.challenge_seed@, miner@, text@, nonce));
            &&& submission_error(*state, now, text_valid, hash) matches Some(e) ==> r == Err::<Solution, ErrorCode>(e)
            &&& submission_error(*state, now, text_valid, hash) is None ==> (r matches Ok(s) && s.miner == miner
                && s.recipient == recipient && s.epoch == state.epoch_number && s.nonce == nonce
                && s.hash@ == hash && s.bump == bump)
        }),
{
    if now >= state.epoch_end_time {
        return Err(ErrorCode::EpochEnded);
    }
    if state.total_supply >= MAX_SUPPLY {
        return Err(ErrorCode::MaxSupplyReached);
    }
    if !text_valid {
        return Err(ErrorCode::InvalidText);
    }
    let hash = compute_proof_hash(&state.challenge_seed, &miner, text, nonce);
    accept_solution(state, miner, recipient, nonce, now, text_valid, hash, bump)
}

/// Units that a claim credits after `total_mined` claims with `total_supply`
/// committed: the current reward, cut down to what remains under the cap.
pub open spec fn claim_amount_spec(total_mined: u64, total_supply: u64) -> nat {
    let room: int = if total_supply >= MAX_SUPPLY { 0 } else { MAX_SUPPLY - total_supply };
    if reward_spec(total_mined) <= room {
        reward_spec(total_mined) as nat
    } else {
        room as nat
    }
}

/// The reward of the next claim, clamped to the headroom under the cap.
pub fn claimable_reward(total_mined: u64, total_supply: u64) -> (r: u64)
    ensures
        r == claim_amount_spec(total_mined, total_supply),
        r <= INITIAL_REWARD,
{
    let reward = calculate_reward(total_mined);
    let room = MAX_SUPPLY.saturating_sub(total_supply);
    if reward <= room {
        reward
    } else {
        room
    }
}

/// A claim never lifts the committed supply above the cap, and where the
/// reward would overshoot it, the claim credits exactly the remaining
/// headroom and the supply lands on the cap.
pub proof fn lemma_claim_respects_cap(total_mined: u64, total_supply: u64)
    requires
        total_supply <= MAX_SUPPLY,
    ensures
        total_supply + claim_amount_spec(total_mined, total_supply) <= MAX_SUPPLY,
        reward_spec(total_mined) >= MAX_SUPPLY - total_supply ==> claim_amount_spec(total_mined, total_supply)
            == MAX_SUPPLY - total_supply,
        reward_spec(total_mined) <= MAX_SUPPLY - total_supply ==> claim_amount_spec(total_mined, total_supply)
            == reward_spec(total_mined),
{
}

/// The epoch of a solution from `solution_epoch` is over at `now`: it lies
/// before the current epoch, or it is the current one and its end time has
/// passed.
pub open spec fn epoch_over(solution_epoch: u64, state: MineState, now: i64) -> bool {
    solution_epoch < state.epoch_number || (solution_epoch == state.epoch_number && now >= state.epoch_end_time)
}

/// The last epoch plus one in which a solution from `solution_epoch` can be
/// claimed: `solution_epoch + CLAIM_EXPIRY_EPOCHS`, saturating at `u64::MAX`.
pub open spec fn expiry_epoch(solution_epoch: u64) -> int {
    if solution_epoch + CLAIM_EXPIRY_EPOCHS > u64::MAX {
        u64::MAX as int
    } else {
        solution_epoch + CLAIM_EXPIRY_EPOCHS
    }
}

/// The claim window of a solution from `solution_epoch` is still open.
pub open spec fn claim_open(solution_epoch: u64, current_epoch: u64) -> bool {
    current_epoch < expiry_epoch(solution_epoch)
}

/// The error a claim meets first, if any.
pub open spec fn claim_error(state: MineState, solution: Solution, signer: Seq<u8>, now: i64) -> Option<ErrorCode> {
    if signer != solution.miner@ {
        Some(ErrorCode::InvalidRecipient)
    } else if !epoch_over(solution.epoch, state, now) {
        Some(ErrorCode::EpochNotEnded)
    } else if !claim_open(solution.epoch, state.epoch_number) {
        Some(ErrorCode::ClaimExpired)
    } else {
        None
    }
}

fn claim_window_open(solution_epoch: u64, current_epoch: u64) -> (r: bool)
    ensures
        r == claim_open(solution_epoch, current_epoch),
{
    if solution_epoch > u64::MAX - CLAIM_EXPIRY_EPOCHS {
        current_epoch < u64::MAX
    } else {
        current_epoch < solution_epoch + CLAIM_EXPIRY_EPOCHS
    }
}

/// Claims a solution whose epoch is over and whose claim window is open,
/// on behalf of its submitter: the clamped reward is credited to the
/// submitter's vesting ledger (dripped to `now` first), one more solution
/// counts as mined, and the committed supply grows by the amount credited,
/// which is returned. A refused claim changes nothing.
pub fn claim(
    state: &mut MineState,
    vesting: &mut VestingAccount,
    solution: &Solution,
    signer: &Pubkey,
    now: i64,
) -> (r: Result<u64, ErrorCode>)
    requires
        old(state).wf(),
        old(vesting).miner@ == solution.miner@,
        old(vesting).locked + old(vesting).unlocked + INITIAL_REWARD <= u64::MAX,
        old(state).total_mined < u64::MAX,
    ensures
        final(state).wf(),
        claim_error(*old(state), *solution, signer@, now) matches Some(e) ==> r == Err::<u64, ErrorCode>(e)
            && *final(state) == *old(state) && *final(vesting) == *old(vesting),
        claim_error(*old(state), *solution, signer@, now) is None ==> ({
            let amount = claim_amount_spec(old(state).total_mined, old(state).total_supply);
            &&& r == Ok::<u64, ErrorCode>(amount as u64)
            &&& *final(state) == (MineState {
                total_mined: (old(state).total_mined + 1) as u64,
                total_supply: (old(state).total_supply + amount) as u64,
                ..*old(state)
            })
            &&& *final(vesting) == credit_spec(*old(vesting), now, amount as u64)
        }),
{
    if !same_key(signer, &solution.miner) {
        return Err(ErrorCode::InvalidRecipient);
    }
    let current_epoch = state.epoch_number;
    let over = if solution.epoch < current_epoch {
        true
    } else if solution.epoch == current_epoch {
        now >= state.epoch_end_time
    } else {
        false
    };
    if !over {
        return Err(ErrorCode::EpochNotEnded);
    }
    if !claim_window_open(solution.epoch, current_epoch) {
        return Err(ErrorCode::ClaimExpired);
    }
    let amount = claimable_reward(state.total_mined, state.total_supply);
    proof {
        lemma_claim_respects_cap(state.total_mined, state.total_supply);
    }
    credit_vesting(vesting, now, amount);
    state.total_mined = state.total_mined + 1;
    state.total_supply = state.total_supply + amount;
    Ok(amount)
}

/// Closes a solution whose claim window has passed, so that its storage can
/// be reclaimed by whoever calls; an open solution is refused.
pub fn close_expired(state: &MineState, solution: &Solution) -> (r: Result<(), ErrorCode>)
    ensures
        r == if claim_open(solution.epoch, state.epoch_number) {
            Err::<(), ErrorCode>(ErrorCode::NotExpired)
        } else {
            Ok::<(), ErrorCode>(())
        },
{
    if claim_window_open(solution.epoch, state.epoch_number) {
        Err(ErrorCode::NotExpired)
    } else {
        Ok(())
    }
}

} // verus!
