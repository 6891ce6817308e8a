use vstd::prelude::*;

use crate::ops::{spec_claim, spec_stake};
use crate::state::{UserInfo, accrual_ok, spec_pending_reward, spec_unstaked};

verus! {

/// Settlement idempotence: a claim at tick `now` settles the whole pending
/// reward, so a second claim at the same tick, with no stake or unstake in
/// between, finds nothing left to mint.
pub proof fn lemma_claim_settlement_idempotent(u: UserInfo, now: u64)
    requires
        accrual_ok(u, now),
    ensures
        accrual_ok(spec_claim(u, now), now),
        spec_pending_reward(spec_claim(u, now), now) == 0,
{
}

/// Reward conservation on restake: a deposit of `extra` more units at tick
/// `now`, on an active record with nothing yet settled, mints exactly the
/// ticks elapsed since the deposit began, and leaves the combined principal
/// with its baseline restarted at `now` and nothing settled.
pub proof fn lemma_restake_conserves_reward(u: UserInfo, extra: u64, now: u64)
    requires
        u.reward_debt == 0,
        u.deposit_slot <= now,
        u.amount + extra <= u64::MAX,
    ensures
        spec_pending_reward(u, now) == now - u.deposit_slot,
        spec_stake(u, extra, now) == (UserInfo {
            amount: (u.amount + extra) as u64,
            reward_debt: 0,
            deposit_slot: now,
        }),
{
}

/// The unguarded zero state: a claim on a record with no active deposit
/// (all fields zero) at tick `now` computes a pending reward of `now`
/// itself, as if the deposit had begun at tick 0. The formula does not
/// prevent this; it is a known gap of the accrual rule, kept as it
/// stands rather than silently guarded.
pub proof fn lemma_unstaked_claim_accrues_whole_clock(now: u64)
    ensures
        spec_pending_reward(spec_unstaked(), now) == now,
{
}

/// The clock never decreases, so the accrual bound is an invariant: a record
/// written by any operation at tick `now` satisfies the bound at every tick
/// `later` at or after it — a stake (of any further amount within the
/// machine limit), a claim, and the zeroed record an unstake leaves.
pub proof fn lemma_operations_preserve_accrual(u: UserInfo, extra: u64, now: u64, later: u64)
    requires
        accrual_ok(u, now),
        now <= later,
        u.amount + extra <= u64::MAX,
    ensures
        accrual_ok(spec_stake(u, extra, now), later),
        accrual_ok(spec_claim(u, now), later),
        accrual_ok(spec_unstaked(), later),
{
}

} // verus!
