use vstd::prelude::*;

use vstd::bytes::{
    lemma_auto_spec_u64_to_from_le_bytes, spec_u64_from_le_bytes, spec_u64_to_le_bytes,
    u64_from_le_bytes, u64_to_le_bytes,
};
use vstd::slice::slice_subrange;

use crate::state::{AccountId, PoolInfo, UserInfo};

verus! {

/// The 8-byte tag that prefixes a stored `PoolInfo` record, read as a
/// little-endian word: the first eight bytes of the SHA-256 digest of
/// `"account:PoolInfo"`, the host ledger's convention for naming a record
/// type on the wire.
pub const POOL_INFO_TAG: u64 = 0xebb18bf43cbf1312;

/// The 8-byte tag that prefixes a stored `UserInfo` record, read as a
/// little-endian word: the first eight bytes of the SHA-256 digest of
/// `"account:UserInfo"`.
pub const USER_INFO_TAG: u64 = 0x3e0a389038c88653;

/// The 32-byte form of an identity: its four words, each little-endian.
pub open spec fn spec_account_id_bytes(a: AccountId) -> Seq<u8> {
    spec_u64_to_le_bytes(a.w0) + spec_u64_to_le_bytes(a.w1) + spec_u64_to_le_bytes(a.w2)
        + spec_u64_to_le_bytes(a.w3)
}

/// The identity whose 32-byte form is `s`.
pub open spec fn spec_account_id_of_bytes(s: Seq<u8>) -> AccountId
    recommends
        s.len() == 32,
{
    AccountId {
        w0: spec_u64_from_le_bytes(s.subrange(0, 8)),
        w1: spec_u64_from_le_bytes(s.subrange(8, 16)),
        w2: spec_u64_from_le_bytes(s.subrange(16, 24)),
        w3: spec_u64_from_le_bytes(s.subrange(24, 32)),
    }
}

/// The stored form of a pool record: its tag, then `admin`, `start_slot`,
/// `end_slot` and `token` in order, integers little-endian. 88 bytes.
pub open spec fn spec_pool_info_bytes(p: PoolInfo) -> Seq<u8> {
    spec_u64_to_le_bytes(POOL_INFO_TAG) + spec_account_id_bytes(p.admin) + spec_u64_to_le_bytes(
        p.start_slot,
    ) + spec_u64_to_le_bytes(p.end_slot) + spec_account_id_bytes(p.token)
}

/// The pool record stored as `s`: `Some` exactly when `s` is 88 bytes long
/// and opens with the pool tag, and then the fields read back in layout
/// order.
pub open spec fn spec_pool_info_of_bytes(s: Seq<u8>) -> Option<PoolInfo> {
    if s.len() == 88 && s.subrange(0, 8) == spec_u64_to_le_bytes(POOL_INFO_TAG) {
        Some(
            PoolInfo {
                admin: spec_account_id_of_bytes(s.subrange(8, 40)),
                start_slot: spec_u64_from_le_bytes(s.subrange(40, 48)),
                end_slot: spec_u64_from_le_bytes(s.subrange(48, 56)),
                token: spec_account_id_of_bytes(s.subrange(56, 88)),
            },
        )
    } else {
        None
    }
}

/// The stored form of a participant record: its tag, then `amount`,
/// `reward_debt` and `deposit_slot` in order, little-endian. 32 bytes.
pub open spec fn spec_user_info_bytes(u: UserInfo) -> Seq<u8> {
    spec_u64_to_le_bytes(USER_INFO_TAG) + spec_u64_to_le_bytes(u.amount) + spec_u64_to_le_bytes(
        u.reward_debt,
    ) + spec_u64_to_le_bytes(u.deposit_slot)
}

/// The participant record stored as `s`: `Some` exactly when `s` is 32 bytes
/// long and opens with the participant tag.
pub open spec fn spec_user_info_of_bytes(s: Seq<u8>) -> Option<UserInfo> {
    if s.len() == 32 && s.subrange(0, 8) == spec_u64_to_le_bytes(USER_INFO_TAG) {
        Some(
            UserInfo {
                amount: spec_u64_from_le_bytes(s.subrange(8, 16)),
                reward_debt: spec_u64_from_le_bytes(s.subrange(16, 24)),
                deposit_slot: spec_u64_from_le_bytes(s.subrange(24, 32)),
            },
        )
    } else {
        None
    }
}

fn push_u64(out: &mut Vec<u8>, x: u64)
    ensures
        final(out)@ == old(out)@ + spec_u64_to_le_bytes(x),
{
    let mut bytes = u64_to_le_bytes(x);
    out.append(&mut bytes);
}

fn push_account_id(out: &mut Vec<u8>, a: AccountId)
    ensures
        final(out)@ == old(out)@ + spec_account_id_bytes(a),
{
    push_u64(out, a.w0);
    push_u64(out, a.w1);
    push_u64(out, a.w2);
    push_u64(out, a.w3);
    proof {
        assert(out@ =~= old(out)@ + spec_account_id_bytes(a));
    }
}

fn read_u64_at(bytes: &[u8], i: usize) -> (x: u64)
    requires
        i + 8 <= bytes@.len(),
    ensures
        x == spec_u64_from_le_bytes(bytes@.subrange(i as int, i + 8)),
{
    let n: usize = bytes.len();
    assert(i + 8 <= n);
    u64_from_le_bytes(slice_subrange(bytes, i, i + 8))
}

fn read_account_id_at(bytes: &[u8], i: usize) -> (a: AccountId)
    requires
        i + 32 <= bytes@.len(),
    ensures
        a == spec_account_id_of_bytes(bytes@.subrange(i as int, i + 32)),
{
    let n: usize = bytes.len();
    assert(i + 32 <= n);
    let a = AccountId {
        w0: read_u64_at(bytes, i),
        w1: read_u64_at(bytes, i + 8),
        w2: read_u64_at(bytes, i + 16),
        w3: read_u64_at(bytes, i + 24),
    };
    proof {
        let s = bytes@.subrange(i as int, i + 32);
        assert(bytes@.subrange(i as int, i + 8) =~= s.subrange(0, 8));
        assert(bytes@.subrange(i + 8, i + 16) =~= s.subrange(8, 16));
        assert(bytes@.subrange(i + 16, i + 24) =~= s.subrange(16, 24));
        assert(bytes@.subrange(i + 24, i + 32) =~= s.subrange(24, 32));
    }
    a
}

/// Serializes a pool record into its fixed 88-byte stored form.
pub fn pool_info_to_bytes(p: &PoolInfo) -> (r: Vec<u8>)
    ensures
        r@ == spec_pool_info_bytes(*p),
        r@.len() == 88,
{
    let mut out: Vec<u8> = Vec::new();
    push_u64(&mut out, POOL_INFO_TAG);
    push_account_id(&mut out, p.admin);
    push_u64(&mut out, p.start_slot);
    push_u64(&mut out, p.end_slot);
    push_account_id(&mut out, p.token);
    proof {
        lemma_auto_spec_u64_to_from_le_bytes();
        assert(out@ =~= spec_pool_info_bytes(*p));
    }
    out
}

/// Deserializes a pool record from its stored form; `None` exactly on bytes
/// that no pool record serializes to (wrong length, or wrong leading tag).
pub fn pool_info_from_bytes(bytes: &[u8]) -> (r: Option<PoolInfo>)
    ensures
        r == spec_pool_info_of_bytes(bytes@),
{
    proof {
        lemma_auto_spec_u64_to_from_le_bytes();
    }
    if bytes.len() != 88 {
        return None;
    }
    let tag = read_u64_at(bytes, 0);
    if tag != POOL_INFO_TAG {
        proof {
            assert(bytes@.subrange(0, 8) != spec_u64_to_le_bytes(POOL_INFO_TAG));
        }
        return None;
    }
    proof {
        assert(bytes@.subrange(0, 8) =~= spec_u64_to_le_bytes(
            spec_u64_from_le_bytes(bytes@.subrange(0, 8)),
        ));
    }
    Some(
        PoolInfo {
            admin: read_account_id_at(bytes, 8),
            start_slot: read_u64_at(bytes, 40),
            end_slot: read_u64_at(bytes, 48),
            token: read_account_id_at(bytes, 56),
        },
    )
}

/// Serializes a participant record into its fixed 32-byte stored form.
pub fn user_info_to_bytes(u: &UserInfo) -> (r: Vec<u8>)
    ensures
        r@ == spec_user_info_bytes(*u),
        r@.len() == 32,
{
    let mut out: Vec<u8> = Vec::new();
    push_u64(&mut out, USER_INFO_TAG);
    push_u64(&mut out, u.amount);
    push_u64(&mut out, u.reward_debt);
    push_u64(&mut out, u.deposit_slot);
    proof {
        lemma_auto_spec_u64_to_from_le_bytes();
        assert(out@ =~= spec_user_info_bytes(*u));
    }
    out
}

/// Deserializes a participant record from its stored form; `None` exactly on
/// bytes that no participant record serializes to.
pub fn user_info_from_bytes(bytes: &[u8]) -> (r: Option<UserInfo>)
    ensures
        r == spec_user_info_of_bytes(bytes@),
{
    proof {
        lemma_auto_spec_u64_to_from_le_bytes();
    }
    if bytes.len() != 32 {
        return None;
    }
    let tag = read_u64_at(bytes, 0);
    if tag != USER_INFO_TAG {
        proof {
            assert(bytes@.subrange(0, 8) != spec_u64_to_le_bytes(USER_INFO_TAG));
        }
        return None;
    }
    proof {
        assert(bytes@.subrange(0, 8) =~= spec_u64_to_le_bytes(
            spec_u64_from_le_bytes(bytes@.subrange(0, 8)),
        ));
    }
    Some(
        UserInfo {
            amount: read_u64_at(bytes, 8),
            reward_debt: read_u64_at(bytes, 16),
            deposit_slot: read_u64_at(bytes, 24),
        },
    )
}

proof fn lemma_account_id_round_trip(a: AccountId)
    ensures
        spec_account_id_bytes(a).len() == 32,
        spec_account_id_of_bytes(spec_account_id_bytes(a)) == a,
{
    lemma_auto_spec_u64_to_from_le_bytes();
    let s = spec_account_id_bytes(a);
    assert(s.subrange(0, 8) =~= spec_u64_to_le_bytes(a.w0));
    assert(s.subrange(8, 16) =~= spec_u64_to_le_bytes(a.w1));
    assert(s.subrange(16, 24) =~= spec_u64_to_le_bytes(a.w2));
    assert(s.subrange(24, 32) =~= spec_u64_to_le_bytes(a.w3));
}

/// Round trip for the pool record: its stored form deserializes back to the
/// record itself, for every combination of field values.
pub proof fn lemma_pool_info_round_trip(p: PoolInfo)
    ensures
        spec_pool_info_of_bytes(spec_pool_info_bytes(p)) == Some(p),
{
    lemma_auto_spec_u64_to_from_le_bytes();
    lemma_account_id_round_trip(p.admin);
    lemma_account_id_round_trip(p.token);
    let s = spec_pool_info_bytes(p);
    assert(s.subrange(0, 8) =~= spec_u64_to_le_bytes(POOL_INFO_TAG));
    assert(s.subrange(8, 40) =~= spec_account_id_bytes(p.admin));
    assert(s.subrange(40, 48) =~= spec_u64_to_le_bytes(p.start_slot));
    assert(s.subrange(48, 56) =~= spec_u64_to_le_bytes(p.end_slot));
    assert(s.subrange(56, 88) =~= spec_account_id_bytes(p.token));
}

/// Round trip for the participant record: its stored form deserializes back
/// to the record itself, for every combination of field values.
pub proof fn lemma_user_info_round_trip(u: UserInfo)
    ensures
        spec_user_info_of_bytes(spec_user_info_bytes(u)) == Some(u),
{
    lemma_auto_spec_u64_to_from_le_bytes();
    let s = spec_user_info_bytes(u);
    assert(s.subrange(0, 8) =~= spec_u64_to_le_bytes(USER_INFO_TAG));
    assert(s.subrange(8, 16) =~= spec_u64_to_le_bytes(u.amount));
    assert(s.subrange(16, 24) =~= spec_u64_to_le_bytes(u.reward_debt));
    assert(s.subrange(24, 32) =~= spec_u64_to_le_bytes(u.deposit_slot));
}

} // verus!
