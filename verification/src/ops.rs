use vstd::prelude::*;

use crate::state::{AccountId, PoolInfo, UserInfo, accrual_ok, spec_pending_reward, spec_unstaked};

verus! {

/// A request to the token-ledger collaborator. The operations compute the
/// requests; the host performs them, in order, within the same atomic
/// transaction as the record update, and commits nothing if one fails.
#[derive(Clone, Copy, PartialEq, Eq, Structural, Debug)]
pub enum LedgerRequest {
    /// Mint `amount` units of `token` to the wallet `to`, authorized by
    /// `authority` (always the pool administrator here).
    Mint { token: AccountId, to: AccountId, amount: u64, authority: AccountId },
    /// Move `amount` units of `token` from the wallet `from` to the wallet
    /// `to`, authorized by `authority`.
    Transfer {
        token: AccountId,
        from: AccountId,
        to: AccountId,
        amount: u64,
        authority: AccountId,
    },
}

/// Why an operation, or a ledger request issued for it, failed. Every failure
/// aborts the whole operation: no record field is left partially updated.
#[derive(Clone, Copy, PartialEq, Eq, Structural, Debug)]
pub enum StakingError {
    /// The clock oracle was unreachable.
    ClockUnavailable,
    /// A record could not be allocated (it already exists, or funding fell short).
    Allocation,
    /// A mint or transfer source lacked the balance for the request.
    InsufficientFunds,
    /// The presented identity does not match the authority the operation needs.
    Unauthorized,
}

/// The record after a deposit of `amount` more units at tick `now`: principal
/// grows, and the accrual baseline restarts at `now` with nothing settled.
pub open spec fn spec_stake(u: UserInfo, amount: u64, now: u64) -> UserInfo {
    UserInfo { amount: (u.amount + amount) as u64, reward_debt: 0, deposit_slot: now }
}

/// The record after a claim at tick `now`: principal and baseline stand, and
/// the settled offset advances by the reward just minted, so it now equals
/// the whole accrual `now - deposit_slot`.
pub open spec fn spec_claim(u: UserInfo, now: u64) -> UserInfo {
    UserInfo {
        amount: u.amount,
        reward_debt: (now - u.deposit_slot) as u64,
        deposit_slot: u.deposit_slot,
    }
}

/// The request that settles a reward of `amount` into the wallet `to`:
/// a mint of the pool's token, authorized by the pool administrator.
pub open spec fn spec_mint_reward(pool: PoolInfo, to: AccountId, amount: u64) -> LedgerRequest {
    LedgerRequest::Mint { token: pool.token, to, amount, authority: pool.admin }
}

/// Creates the pool record, populated verbatim from the inputs. No ordering
/// of `start_slot` against `end_slot` is checked, and no operation later
/// holds the clock against the window: both are known gaps, kept.
/// Allocation of the record, and its failure, belong to the host.
pub fn initialize(admin: AccountId, start_slot: u64, end_slot: u64, token: AccountId) -> (pool:
    PoolInfo)
    ensures
        pool == (PoolInfo { admin, start_slot, end_slot, token }),
{
    PoolInfo { admin, start_slot, end_slot, token }
}

/// A participant deposits `amount` more units. If a deposit is already
/// active, the pending reward is settled first, so nothing accrued so far is
/// lost when the baseline restarts; then the principal moves from the
/// participant's wallet into the administrator's custody wallet, authorized
/// by the participant. A zero `amount` is not rejected: a known gap.
///
/// The caller supplies the clock reading `now`; the bounds required of the
/// record hold of every stored record at every tick at or after its last
/// write (`accrual_ok`), and the sum bound is the machine limit of the
/// 64-bit principal.
pub fn stake(
    pool: &PoolInfo,
    user: AccountId,
    user_wallet: AccountId,
    custody_wallet: AccountId,
    info: &mut UserInfo,
    amount: u64,
    now: u64,
) -> (reqs: Vec<LedgerRequest>)
    requires
        accrual_ok(*old(info), now),
        old(info).amount + amount <= u64::MAX,
    ensures
        *final(info) == spec_stake(*old(info), amount, now),
        old(info).amount > 0 ==> reqs@ =~= seq![
            spec_mint_reward(*pool, user_wallet, spec_pending_reward(*old(info), now) as u64),
            (LedgerRequest::Transfer {
                token: pool.token,
                from: user_wallet,
                to: custody_wallet,
                amount,
                authority: user,
            }),
        ],
        old(info).amount == 0 ==> reqs@ =~= seq![
            (LedgerRequest::Transfer {
                token: pool.token,
                from: user_wallet,
                to: custody_wallet,
                amount,
                authority: user,
            }),
        ],
{
    let mut reqs: Vec<LedgerRequest> = Vec::new();
    if info.amount > 0 {
        let reward: u64 = (now - info.deposit_slot) - info.reward_debt;
        reqs.push(
            LedgerRequest::Mint {
                token: pool.token,
                to: user_wallet,
                amount: reward,
                authority: pool.admin,
            },
        );
    }
    reqs.push(
        LedgerRequest::Transfer {
            token: pool.token,
            from: user_wallet,
            to: custody_wallet,
            amount,
            authority: user,
        },
    );
    info.amount = info.amount + amount;
    info.deposit_slot = now;
    info.reward_debt = 0;
    reqs
}

/// A participant withdraws everything: the pending reward is settled, the
/// full principal returns from the administrator's custody wallet to the
/// participant's wallet, and the record is zeroed. Both requests are
/// authorized by the administrator, whose presented identity must match the
/// pool's stored one; on a mismatch nothing changes. No guard stops a call
/// on a record with `amount == 0`: the formula then mints `now`, a
/// known gap, kept.
pub fn unstake(
    pool: &PoolInfo,
    admin: AccountId,
    user_wallet: AccountId,
    custody_wallet: AccountId,
    info: &mut UserInfo,
    now: u64,
) -> (r: Result<Vec<LedgerRequest>, StakingError>)
    requires
        accrual_ok(*old(info), now),
    ensures
        admin == pool.admin <==> r is Ok,
        r is Err ==> r == Result::<Vec<LedgerRequest>, StakingError>::Err(
            StakingError::Unauthorized,
        ) && *final(info) == *old(info),
        r matches Ok(reqs) ==> *final(info) == spec_unstaked() && reqs@ =~= seq![
            spec_mint_reward(*pool, user_wallet, spec_pending_reward(*old(info), now) as u64),
            (LedgerRequest::Transfer {
                token: pool.token,
                from: custody_wallet,
                to: user_wallet,
                amount: old(info).amount,
                authority: pool.admin,
            }),
        ],
{
    if !(admin == pool.admin) {
        return Err(StakingError::Unauthorized);
    }
    let reward: u64 = (now - info.deposit_slot) - info.reward_debt;
    let mut reqs: Vec<LedgerRequest> = Vec::new();
    reqs.push(
        LedgerRequest::Mint {
            token: pool.token,
            to: user_wallet,
            amount: reward,
            authority: pool.admin,
        },
    );
    reqs.push(
        LedgerRequest::Transfer {
            token: pool.token,
            from: custody_wallet,
            to: user_wallet,
            amount: info.amount,
            authority: pool.admin,
        },
    );
    info.amount = 0;
    info.deposit_slot = 0;
    info.reward_debt = 0;
    Ok(reqs)
}

/// A participant settles the pending reward without touching principal: one
/// mint, authorized by the administrator, whose presented identity must
/// match the pool's stored one; on a mismatch nothing changes. The settled
/// offset advances by the reward; `amount` and `deposit_slot` stand, so a
/// second claim at the same tick mints nothing.
pub fn claim_reward(
    pool: &PoolInfo,
    admin: AccountId,
    user_wallet: AccountId,
    info: &mut UserInfo,
    now: u64,
) -> (r: Result<Vec<LedgerRequest>, StakingError>)
    requires
        accrual_ok(*old(info), now),
    ensures
        admin == pool.admin <==> r is Ok,
        r is Err ==> r == Result::<Vec<LedgerRequest>, StakingError>::Err(
            StakingError::Unauthorized,
        ) && *final(info) == *old(info),
        r matches Ok(reqs) ==> *final(info) == spec_claim(*old(info), now) && reqs@ =~= seq![
            spec_mint_reward(*pool, user_wallet, spec_pending_reward(*old(info), now) as u64),
        ],
        final(info).amount == old(info).amount,
        final(info).deposit_slot == old(info).deposit_slot,
{
    if !(admin == pool.admin) {
        return Err(StakingError::Unauthorized);
    }
    let reward: u64 = (now - info.deposit_slot) - info.reward_debt;
    let mut reqs: Vec<LedgerRequest> = Vec::new();
    reqs.push(
        LedgerRequest::Mint {
            token: pool.token,
            to: user_wallet,
            amount: reward,
            authority: pool.admin,
        },
    );
    info.reward_debt = info.reward_debt + reward;
    Ok(reqs)
}

} // verus!
