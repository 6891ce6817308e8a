use staking_ledger::codec::{
    pool_info_from_bytes, pool_info_to_bytes, user_info_from_bytes, user_info_to_bytes,
};
use staking_ledger::ops::{claim_reward, initialize, stake, unstake, LedgerRequest, StakingError};
use staking_ledger::state::{AccountId, PoolInfo, UserInfo};

fn id(n: u64) -> AccountId {
    AccountId { w0: n, w1: n.wrapping_mul(3), w2: n ^ 0xabcd, w3: !n }
}

#[test]
fn initialize_populates_verbatim() {
    let pool = initialize(id(1), 5, 500, id(2));
    assert_eq!(pool.admin, id(1));
    assert_eq!(pool.start_slot, 5);
    assert_eq!(pool.end_slot, 500);
    assert_eq!(pool.token, id(2));
}

#[test]
fn first_stake_issues_one_transfer() {
    let pool = initialize(id(1), 0, 100, id(2));
    let mut info = UserInfo { amount: 0, reward_debt: 0, deposit_slot: 0 };
    let reqs = stake(&pool, id(3), id(4), id(5), &mut info, 100, 10);
    assert_eq!(info, UserInfo { amount: 100, reward_debt: 0, deposit_slot: 10 });
    assert_eq!(
        reqs,
        vec![LedgerRequest::Transfer {
            token: id(2),
            from: id(4),
            to: id(5),
            amount: 100,
            authority: id(3),
        }]
    );
}

#[test]
fn restake_settles_elapsed_ticks_then_resets_baseline() {
    // amount = 100 staked at tick 10 with nothing settled; staking 50 more at
    // tick 30 must mint exactly 30 - 10 = 20, then hold 150 from tick 30.
    let pool = initialize(id(1), 0, 100, id(2));
    let mut info = UserInfo { amount: 100, reward_debt: 0, deposit_slot: 10 };
    let reqs = stake(&pool, id(3), id(4), id(5), &mut info, 50, 30);
    assert_eq!(reqs.len(), 2);
    assert_eq!(
        reqs[0],
        LedgerRequest::Mint { token: id(2), to: id(4), amount: 20, authority: id(1) }
    );
    assert_eq!(
        reqs[1],
        LedgerRequest::Transfer {
            token: id(2),
            from: id(4),
            to: id(5),
            amount: 50,
            authority: id(3),
        }
    );
    assert_eq!(info, UserInfo { amount: 150, reward_debt: 0, deposit_slot: 30 });
}

#[test]
fn full_unwind_returns_principal_and_zeroes_record() {
    // Stake 100 at tick 10, unstake at tick 50: mints 50 - 10 - 0 = 40,
    // transfers the 100 back, and zeroes the record.
    let pool = initialize(id(1), 0, 100, id(2));
    let mut info = UserInfo { amount: 0, reward_debt: 0, deposit_slot: 0 };
    stake(&pool, id(3), id(4), id(5), &mut info, 100, 10);
    let reqs = unstake(&pool, id(1), id(4), id(5), &mut info, 50).unwrap();
    assert_eq!(reqs.len(), 2);
    assert_eq!(
        reqs[0],
        LedgerRequest::Mint { token: id(2), to: id(4), amount: 40, authority: id(1) }
    );
    assert_eq!(
        reqs[1],
        LedgerRequest::Transfer {
            token: id(2),
            from: id(5),
            to: id(4),
            amount: 100,
            authority: id(1),
        }
    );
    assert_eq!(info, UserInfo { amount: 0, reward_debt: 0, deposit_slot: 0 });
}

#[test]
fn second_claim_at_same_tick_mints_nothing() {
    let pool = initialize(id(1), 0, 100, id(2));
    let mut info = UserInfo { amount: 100, reward_debt: 0, deposit_slot: 10 };
    let first = claim_reward(&pool, id(1), id(4), &mut info, 40).unwrap();
    assert_eq!(
        first,
        vec![LedgerRequest::Mint { token: id(2), to: id(4), amount: 30, authority: id(1) }]
    );
    let second = claim_reward(&pool, id(1), id(4), &mut info, 40).unwrap();
    assert_eq!(
        second,
        vec![LedgerRequest::Mint { token: id(2), to: id(4), amount: 0, authority: id(1) }]
    );
}

#[test]
fn claim_touches_only_the_settled_offset() {
    let pool = initialize(id(1), 0, 100, id(2));
    let mut info = UserInfo { amount: 75, reward_debt: 3, deposit_slot: 12 };
    claim_reward(&pool, id(1), id(4), &mut info, 20).unwrap();
    assert_eq!(info.amount, 75);
    assert_eq!(info.deposit_slot, 12);
    assert_eq!(info.reward_debt, 8);
}

#[test]
fn claim_on_unstaked_record_mints_the_whole_clock() {
    // Known gap: with all fields zero the formula reads
    // (now - 0) - 0 = now, so a claim at tick 77 mints 77.
    let pool = initialize(id(1), 0, 100, id(2));
    let mut info = UserInfo { amount: 0, reward_debt: 0, deposit_slot: 0 };
    let reqs = claim_reward(&pool, id(1), id(4), &mut info, 77).unwrap();
    assert_eq!(
        reqs,
        vec![LedgerRequest::Mint { token: id(2), to: id(4), amount: 77, authority: id(1) }]
    );
    assert_eq!(info, UserInfo { amount: 0, reward_debt: 77, deposit_slot: 0 });
}

#[test]
fn wrong_admin_is_rejected_without_state_change() {
    let pool = initialize(id(1), 0, 100, id(2));
    let mut info = UserInfo { amount: 100, reward_debt: 0, deposit_slot: 10 };
    let r = unstake(&pool, id(9), id(4), id(5), &mut info, 50);
    assert_eq!(r, Err(StakingError::Unauthorized));
    assert_eq!(info, UserInfo { amount: 100, reward_debt: 0, deposit_slot: 10 });
    let r = claim_reward(&pool, id(9), id(4), &mut info, 50);
    assert_eq!(r, Err(StakingError::Unauthorized));
    assert_eq!(info, UserInfo { amount: 100, reward_debt: 0, deposit_slot: 10 });
}

#[test]
fn user_info_byte_layout_is_exact() {
    let u = UserInfo { amount: 1, reward_debt: 0x0203, deposit_slot: u64::MAX };
    let bytes = user_info_to_bytes(&u);
    let mut expected: Vec<u8> = vec![0x53, 0x86, 0xc8, 0x38, 0x90, 0x38, 0x0a, 0x3e];
    expected.extend_from_slice(&[1, 0, 0, 0, 0, 0, 0, 0]);
    expected.extend_from_slice(&[0x03, 0x02, 0, 0, 0, 0, 0, 0]);
    expected.extend_from_slice(&[0xff; 8]);
    assert_eq!(bytes, expected);
}

#[test]
fn pool_info_round_trips_through_bytes() {
    let pool = PoolInfo { admin: id(11), start_slot: 0, end_slot: u64::MAX, token: id(12) };
    let bytes = pool_info_to_bytes(&pool);
    assert_eq!(bytes.len(), 88);
    assert_eq!(pool_info_from_bytes(&bytes), Some(pool));
}

#[test]
fn user_info_round_trips_through_bytes() {
    let u = UserInfo { amount: u64::MAX, reward_debt: 12345, deposit_slot: 0 };
    let bytes = user_info_to_bytes(&u);
    assert_eq!(bytes.len(), 32);
    assert_eq!(user_info_from_bytes(&bytes), Some(u));
}

#[test]
fn malformed_bytes_decode_to_nothing() {
    let u = UserInfo { amount: 7, reward_debt: 0, deposit_slot: 3 };
    let mut bytes = user_info_to_bytes(&u);
    bytes.pop();
    assert_eq!(user_info_from_bytes(&bytes), None);

    let mut tagged_wrong = user_info_to_bytes(&u);
    tagged_wrong[0] ^= 1;
    assert_eq!(user_info_from_bytes(&tagged_wrong), None);

    let pool = PoolInfo { admin: id(1), start_slot: 2, end_slot: 3, token: id(4) };
    let mut pool_bytes = pool_info_to_bytes(&pool);
    assert_eq!(pool_info_from_bytes(&pool_bytes[..87]), None);
    pool_bytes[7] ^= 0x80;
    assert_eq!(pool_info_from_bytes(&pool_bytes), None);
}
