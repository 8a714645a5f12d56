use vstd::prelude::*;
use vstd::arithmetic::div_mod::lemma_div_multiples_vanish_quotient;

use crate::constants::VESTING_DURATION;
use crate::errors::ErrorCode;
use crate::keys::{same_key, Pubkey};

verus! {

/// One owner's vesting ledger: units earned but still locked, units vested
/// and withdrawable, and the time of the last drip.
#[derive(Debug, Clone, Copy)]
pub struct VestingAccount {
    pub miner: Pubkey,
    pub locked: u64,
    pub unlocked: u64,
    pub last_update: i64,
    pub bump: u8,
}

/// Units that a drip at `now` moves from `locked` to `unlocked`: all of them
/// once a whole vesting period has passed, else the elapsed share of it,
/// rounded down; nothing when nothing is locked or no time has passed.
pub open spec fn release_spec(locked: u64, last_update: i64, now: i64) -> nat {
    let elapsed = now - last_update;
    if locked == 0 || elapsed <= 0 {
        0
    } else if elapsed >= VESTING_DURATION {
        locked as nat
    } else {
        (locked * elapsed / (VESTING_DURATION as int)) as nat
    }
}

proof fn lemma_release_at_most_locked(locked: u64, last_update: i64, now: i64)
    ensures
        release_spec(locked, last_update, now) <= locked,
{
    let elapsed = now - last_update;
    if locked != 0 && 0 < elapsed < VESTING_DURATION {
        assert(locked * elapsed / (VESTING_DURATION as int) <= locked) by (nonlinear_arith)
            requires
                0 < elapsed < VESTING_DURATION,
                0 <= locked,
        ;
    }
}

/// The ledger after a drip at `now`.
pub open spec fn drip_spec(v: VestingAccount, now: i64) -> VestingAccount {
    let release = release_spec(v.locked, v.last_update, now);
    VestingAccount {
        locked: (v.locked - release) as u64,
        unlocked: (v.unlocked + release) as u64,
        last_update: now,
        ..v
    }
}

/// The ledger after `amount` newly earned units are credited at `now`: a
/// drip first, then the units join the locked pool.
pub open spec fn credit_spec(v: VestingAccount, now: i64, amount: u64) -> VestingAccount {
    let d = drip_spec(v, now);
    VestingAccount { locked: (d.locked + amount) as u64, ..d }
}

/// The ledger after a withdrawal at `now`: a drip, then `unlocked` paid out.
pub open spec fn after_withdraw_spec(v: VestingAccount, now: i64) -> VestingAccount {
    VestingAccount { unlocked: 0, ..drip_spec(v, now) }
}

/// The ledger for `miner`, empty, created at `now`.
pub open spec fn new_ledger_spec(miner: Pubkey, now: i64, bump: u8) -> VestingAccount {
    VestingAccount { miner, locked: 0, unlocked: 0, last_update: now, bump }
}

/// Creates the empty vesting ledger of `miner` at time `now`.
pub fn create_vesting(miner: Pubkey, now: i64, bump: u8) -> (r: VestingAccount)
    ensures
        r == new_ledger_spec(miner, now, bump),
{
    VestingAccount { miner, locked: 0, unlocked: 0, last_update: now, bump }
}

/// Moves the vested share of `locked` to `unlocked` and sets `last_update`
/// to `now`. The total held never changes.
pub fn drip_vesting(v: &mut VestingAccount, now: i64)
    requires
        old(v).unlocked + release_spec(old(v).locked, old(v).last_update, now) <= u64::MAX,
    ensures
        *final(v) == drip_spec(*old(v), now),
        final(v).locked + final(v).unlocked == old(v).locked + old(v).unlocked,
        final(v).last_update == now,
        now - old(v).last_update >= VESTING_DURATION ==> final(v).locked == 0,
        now == old(v).last_update ==> (*final(v) == VestingAccount { last_update: now, ..*old(v) }),
{
    if v.locked == 0 || now <= v.last_update {
        v.last_update = now;
        return;
    }
    let elapsed: i128 = now as i128 - v.last_update as i128;
    let release: u64 = if elapsed >= VESTING_DURATION as i128 {
        v.locked
    } else {
        let l = v.locked as u128;
        let e = elapsed as u128;
        proof {
            assert(l * e <= u64::MAX * (VESTING_DURATION as int)) by (nonlinear_arith)
                requires
                    l <= u64::MAX,
                    e < VESTING_DURATION,
            ;
            assert(l * e / (VESTING_DURATION as int) <= l) by (nonlinear_arith)
                requires
                    e < VESTING_DURATION,
                    0 <= e,
                    0 <= l,
            ;
        }
        (l * e / (VESTING_DURATION as u128)) as u64
    };
    v.unlocked = v.unlocked + release;
    v.locked = v.locked - release;
    v.last_update = now;
}

/// Adds `amount` newly earned units to the locked pool, after dripping the
/// ledger to `now`; the vesting clock of the whole pool restarts at `now`.
pub fn credit_vesting(v: &mut VestingAccount, now: i64, amount: u64)
    requires
        old(v).locked + old(v).unlocked + amount <= u64::MAX,
    ensures
        *final(v) == credit_spec(*old(v), now, amount),
        final(v).locked + final(v).unlocked == old(v).locked + old(v).unlocked + amount,
{
    proof {
        lemma_release_at_most_locked(v.locked, v.last_update, now);
    }
    drip_vesting(v, now);
    v.locked = v.locked + amount;
}

/// Pays out everything vested by `now`. Only the ledger's owner may withdraw,
/// and only when something is vested; a refused withdrawal leaves the ledger
/// as it was. On success the amount paid is returned and `unlocked` is zero.
pub fn withdraw(v: &mut VestingAccount, signer: &Pubkey, now: i64) -> (r: Result<u64, ErrorCode>)
    requires
        old(v).unlocked + release_spec(old(v).locked, old(v).last_update, now) <= u64::MAX,
    ensures
        signer@ != old(v).miner@ ==> r == Err::<u64, ErrorCode>(ErrorCode::Unauthorized),
        signer@ == old(v).miner@ && drip_spec(*old(v), now).unlocked == 0 ==> r == Err::<u64, ErrorCode>(ErrorCode::NothingToWithdraw),
        signer@ == old(v).miner@ && drip_spec(*old(v), now).unlocked > 0 ==> r == Ok::<u64, ErrorCode>(drip_spec(*old(v), now).unlocked),
        r.is_ok() ==> *final(v) == after_withdraw_spec(*old(v), now),
        r.is_err() ==> *final(v) == *old(v),
{
    if !same_key(signer, &v.miner) {
        return Err(ErrorCode::Unauthorized);
    }
    let mut d = *v;
    drip_vesting(&mut d, now);
    let amount = d.unlocked;
    if amount == 0 {
        return Err(ErrorCode::NothingToWithdraw);
    }
    d.unlocked = 0;
    *v = d;
    Ok(amount)
}

/// A reward credited to a fresh ledger at time `t` vests linearly: half a
/// vesting period later a drip has released half of it (rounded down) and
/// left the rest locked; a drip one whole period after `t` releases all of
/// it; and after a withdrawal at the half-way point, a drip one whole period
/// after that withdrawal releases the remainder.
pub proof fn lemma_vesting_round_trip(miner: Pubkey, bump: u8, reward: u64, t: i64)
    requires
        t + 2 * VESTING_DURATION <= i64::MAX,
    ensures
        ({
            let v1 = credit_spec(new_ledger_spec(miner, t, bump), t, reward);
            let half = (t + VESTING_DURATION / 2) as i64;
            let v2 = drip_spec(v1, half);
            &&& v2.unlocked == reward / 2
            &&& v2.locked == reward - reward / 2
            &&& drip_spec(v1, (t + VESTING_DURATION) as i64).unlocked == reward
            &&& drip_spec(after_withdraw_spec(v1, half), (half + VESTING_DURATION) as i64).unlocked
                == reward - reward / 2
        }),
{
    let h: int = VESTING_DURATION / 2;
    lemma_div_multiples_vanish_quotient(h, reward as int, 2);
    assert(reward * h == h * reward);
}

/// A drip a whole vesting period or more after the last one releases every
/// locked unit: nothing stays locked and all the ledger holds is withdrawable.
pub proof fn lemma_full_period_releases_all(v: VestingAccount, now: i64)
    requires
        now - v.last_update >= VESTING_DURATION,
        v.locked + v.unlocked <= u64::MAX,
    ensures
        drip_spec(v, now).locked == 0,
        drip_spec(v, now).unlocked == v.locked + v.unlocked,
{
}

} // verus!
