use vstd::prelude::*;

verus! {

/// A 32-byte account identity (a public key, a token mint, a token wallet),
/// held as four 64-bit words; word `w0` covers the first eight bytes in
/// little-endian order, and so on.
#[derive(Clone, Copy, PartialEq, Eq, Structural, Debug)]
pub struct AccountId {
    pub w0: u64,
    pub w1: u64,
    pub w2: u64,
    pub w3: u64,
}

/// Global, singleton-per-pool configuration: the administrator authorized to
/// custody principal and mint rewards, the active staking window, and the
/// staked token. Immutable after creation.
#[derive(Clone, Copy, PartialEq, Eq, Structural, Debug)]
pub struct PoolInfo {
    pub admin: AccountId,
    pub start_slot: u64,
    pub end_slot: u64,
    pub token: AccountId,
}

/// One record per participant: current staked principal (`amount`, 0 when not
/// staked), the tick at which the current deposit began (`deposit_slot`), and
/// the reward already settled against this deposit period (`reward_debt`).
#[derive(Clone, Copy, PartialEq, Eq, Structural, Debug)]
pub struct UserInfo {
    pub amount: u64,
    pub reward_debt: u64,
    pub deposit_slot: u64,
}

/// The reward owed to a participant at tick `now`: one unit per tick since
/// the current deposit began, less what has already been settled.
pub open spec fn spec_pending_reward(u: UserInfo, now: u64) -> int {
    now - u.deposit_slot - u.reward_debt
}

/// The record's bookkeeping is consistent with the clock reading `now`: the
/// deposit began no later than `now`, and no more reward has been settled
/// than has accrued. Every operation writes a record satisfying this at the
/// tick of the write, and the clock never decreases, so every stored record
/// satisfies it at every later reading too (`lemma_operations_preserve_accrual`).
pub open spec fn accrual_ok(u: UserInfo, now: u64) -> bool {
    u.deposit_slot + u.reward_debt <= now
}

/// The record of a participant with no active deposit: all fields zero.
pub open spec fn spec_unstaked() -> UserInfo {
    UserInfo { amount: 0, reward_debt: 0, deposit_slot: 0 }
}

} // verus!
