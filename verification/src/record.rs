//! The pool registry's byte layout: fixed-offset fields around one
//! variable-length name.  The mint slot's offset is computable from the
//! name length alone, which is what lets `Initialize` patch the mint in
//! after the record already sits in its account.

use vstd::prelude::*;

use vstd::bytes::{
    spec_u32_from_le_bytes, spec_u32_to_le_bytes, spec_u64_from_le_bytes, spec_u64_to_le_bytes,
    lemma_auto_spec_u32_to_from_le_bytes, lemma_auto_spec_u64_to_from_le_bytes,
};
use vstd::pervasive::VecAdditionalExecFns;
use vstd::utf8::valid_utf8;

use crate::addr::Address;
use crate::codec::{bytes_of_range, is_valid_utf8, push_address, push_bytes, push_u32_le, push_u64_le, read_u32_le, read_u64_le};
use crate::error::PoolError;
use crate::state::{PoolView, StakePool};

verus! {

/// The byte a flag serializes to.
pub open spec fn bool_byte(b: bool) -> u8 {
    if b {
        1
    } else {
        0
    }
}

/// The record bytes before the mint slot: version, the three authorities,
/// the length-prefixed name, the fee byte and the two totals.
pub open spec fn pool_bytes_pre_mint(p: PoolView) -> Seq<u8> {
    seq![p.version] + p.authority + p.stake_authority + p.withdraw_authority
        + spec_u32_to_le_bytes(p.name.len() as u32) + p.name + seq![p.fee_percentage]
        + spec_u64_to_le_bytes(p.total_staked) + spec_u64_to_le_bytes(p.total_shares)
}

/// The record bytes after the mint slot: the remaining addresses, the
/// pause flag, the epoch marker, the bounds, the two disambiguators and
/// the padding.
pub open spec fn pool_bytes_post_mint(p: PoolView) -> Seq<u8> {
    p.reserve + p.helius_validator_vote + p.manager_fee_account + p.treasury_fee_account
        + seq![bool_byte(p.paused)] + spec_u64_to_le_bytes(p.last_update_epoch)
        + spec_u64_to_le_bytes(p.min_stake) + spec_u64_to_le_bytes(p.max_stake)
        + seq![p.stake_authority_bump_seed, p.withdraw_authority_bump_seed] + p.reserved
}

/// The full record layout.
pub open spec fn pool_bytes(p: PoolView) -> Seq<u8> {
    pool_bytes_pre_mint(p) + p.mint + pool_bytes_post_mint(p)
}

/// Where the mint slot starts, for a given name length.
pub open spec fn mint_offset_spec(name_len: int) -> int {
    118 + name_len
}

/// The serialized size of a record, for a given name length.
pub open spec fn pool_record_size_spec(name_len: int) -> int {
    367 + name_len
}

/// Where the mint slot starts in a record whose name has `name_len` bytes.
pub fn mint_offset(name_len: usize) -> (r: usize)
    requires
        name_len + 118 <= usize::MAX,
    ensures
        r == mint_offset_spec(name_len as int),
{
    118 + name_len
}

/// Serializes a record to its exact byte layout.
pub fn serialize_pool(p: &StakePool) -> (r: Vec<u8>)
    requires
        p.name@.len() <= 0xFFFF_FFFF,
    ensures
        r@ == pool_bytes(p@),
        r@.len() == pool_record_size_spec(p.name@.len() as int),
{
    proof {
        lemma_auto_spec_u32_to_from_le_bytes();
        lemma_auto_spec_u64_to_from_le_bytes();
    }
    let mut out: Vec<u8> = Vec::new();
    out.push(p.version);
    push_address(&mut out, &p.authority);
    push_address(&mut out, &p.stake_authority);
    push_address(&mut out, &p.withdraw_authority);
    push_u32_le(&mut out, p.name.len() as u32);
    push_bytes(&mut out, &p.name);
    out.push(p.fee_percentage);
    push_u64_le(&mut out, p.total_staked);
    push_u64_le(&mut out, p.total_shares);
    push_address(&mut out, &p.mint);
    push_address(&mut out, &p.reserve);
    push_address(&mut out, &p.helius_validator_vote);
    push_address(&mut out, &p.manager_fee_account);
    push_address(&mut out, &p.treasury_fee_account);
    out.push(if p.paused { 1 } else { 0 });
    push_u64_le(&mut out, p.last_update_epoch);
    push_u64_le(&mut out, p.min_stake);
    push_u64_le(&mut out, p.max_stake);
    out.push(p.stake_authority_bump_seed);
    out.push(p.withdraw_authority_bump_seed);
    let mut i: usize = 0;
    let before_reserved: Ghost<Seq<u8>> = Ghost(out@);
    while i < 62
        invariant
            i <= 62,
            out@ == before_reserved@ + p.reserved@.take(i as int),
        decreases 62 - i,
    {
        out.push(p.reserved[i]);
        proof {
            assert(out@ =~= before_reserved@ + p.reserved@.take(i + 1));
        }
        i += 1;
    }
    proof {
        assert(p.reserved@.take(62) =~= p.reserved@);
        assert(out@ =~= pool_bytes(p@));
    }
    out
}

/// The record grammar, the inverse of [`pool_bytes`]: fixed offsets up to
/// the four-byte name length, then everything shifted by it; the name must
/// be UTF-8, the pause byte zero or one, and the buffer consumed exactly.
pub open spec fn parse_pool_bytes(bytes: Seq<u8>) -> Option<PoolView> {
    if bytes.len() < 101 {
        None
    } else {
        let n = spec_u32_from_le_bytes(bytes.subrange(97, 101)) as int;
        if bytes.len() == 367 + n && valid_utf8(bytes.subrange(101, 101 + n)) && (bytes[278 + n]
            == 0 || bytes[278 + n] == 1) {
            Some(
                PoolView {
                    version: bytes[0],
                    authority: bytes.subrange(1, 33),
                    stake_authority: bytes.subrange(33, 65),
                    withdraw_authority: bytes.subrange(65, 97),
                    name: bytes.subrange(101, 101 + n),
                    fee_percentage: bytes[101 + n],
                    total_staked: spec_u64_from_le_bytes(bytes.subrange(102 + n, 110 + n)),
                    total_shares: spec_u64_from_le_bytes(bytes.subrange(110 + n, 118 + n)),
                    mint: bytes.subrange(118 + n, 150 + n),
                    reserve: bytes.subrange(150 + n, 182 + n),
                    helius_validator_vote: bytes.subrange(182 + n, 214 + n),
                    manager_fee_account: bytes.subrange(214 + n, 246 + n),
                    treasury_fee_account: bytes.subrange(246 + n, 278 + n),
                    paused: bytes[278 + n] == 1,
                    last_update_epoch: spec_u64_from_le_bytes(bytes.subrange(279 + n, 287 + n)),
                    min_stake: spec_u64_from_le_bytes(bytes.subrange(287 + n, 295 + n)),
                    max_stake: spec_u64_from_le_bytes(bytes.subrange(295 + n, 303 + n)),
                    stake_authority_bump_seed: bytes[303 + n],
                    withdraw_authority_bump_seed: bytes[304 + n],
                    reserved: bytes.subrange(305 + n, 367 + n),
                },
            )
        } else {
            None
        }
    }
}

/// Parses a record from an account's bytes, failing exactly where the
/// record grammar refuses them.
pub fn parse_pool(data: &Vec<u8>) -> (r: Result<StakePool, PoolError>)
    ensures
        r matches Ok(p) ==> parse_pool_bytes(data@) == Some(p@),
        r is Err ==> parse_pool_bytes(data@) is None && r == Err::<StakePool, PoolError>(
            PoolError::InvalidAccountData,
        ),
{
    let total = data.len();
    if total < 101 {
        return Err(PoolError::InvalidAccountData);
    }
    let nlen32 = read_u32_le(data, 97);
    if (total as u64) != 367u64 + (nlen32 as u64) {
        return Err(PoolError::InvalidAccountData);
    }
    let n: usize = nlen32 as usize;
    let name = bytes_of_range(data, 101, 101 + n);
    if !is_valid_utf8(&name) {
        return Err(PoolError::InvalidAccountData);
    }
    let paused_byte = data[278 + n];
    if paused_byte != 0 && paused_byte != 1 {
        return Err(PoolError::InvalidAccountData);
    }
    let mut reserved = [0u8; 62];
    let mut i: usize = 0;
    while i < 62
        invariant
            i <= 62,
            total == data@.len(),
            n + 367 == total,
            forall|j: int| 0 <= j < i ==> reserved@[j] == data@[305 + n + j],
        decreases 62 - i,
    {
        reserved[i] = data[305 + n + i];
        i += 1;
    }
    proof {
        assert(reserved@ =~= data@.subrange(305 + n, 367 + n));
    }
    let p = StakePool {
        version: data[0],
        authority: Address::from_slice_at(data, 1),
        stake_authority: Address::from_slice_at(data, 33),
        withdraw_authority: Address::from_slice_at(data, 65),
        name,
        fee_percentage: data[101 + n],
        total_staked: read_u64_le(data, 102 + n),
        total_shares: read_u64_le(data, 110 + n),
        mint: Address::from_slice_at(data, 118 + n),
        reserve: Address::from_slice_at(data, 150 + n),
        helius_validator_vote: Address::from_slice_at(data, 182 + n),
        manager_fee_account: Address::from_slice_at(data, 214 + n),
        treasury_fee_account: Address::from_slice_at(data, 246 + n),
        paused: paused_byte == 1,
        last_update_epoch: read_u64_le(data, 279 + n),
        min_stake: read_u64_le(data, 287 + n),
        max_stake: read_u64_le(data, 295 + n),
        stake_authority_bump_seed: data[303 + n],
        withdraw_authority_bump_seed: data[304 + n],
        reserved,
    };
    Ok(p)
}

/// Overwrites the 32 bytes at `off` with an address, the in-place patch
/// `Initialize` applies at the mint slot.  A buffer too short for the
/// write is left unchanged.
pub fn write_address_at(data: &mut Vec<u8>, off: usize, a: &Address) -> (r: Result<(), PoolError>)
    ensures
        off + 32 <= old(data)@.len() ==> r == Ok::<(), PoolError>(()) && final(data)@ == old(
            data,
        )@.subrange(0, off as int) + a@ + old(data)@.subrange(off + 32, old(data)@.len() as int),
        off + 32 > old(data)@.len() ==> r == Err::<(), PoolError>(PoolError::AccountDataTooSmall)
            && final(data)@ == old(data)@,
{
    let total = data.len();
    if total < 32 || off > total - 32 {
        return Err(PoolError::AccountDataTooSmall);
    }
    let mut i: usize = 0;
    while i < 32
        invariant
            i <= 32,
            total == old(data)@.len(),
            off + 32 <= total,
            data@.len() == old(data)@.len(),
            forall|j: int| 0 <= j < data@.len() && !(off <= j < off + i) ==> data@[j] == old(
                data,
            )@[j],
            forall|j: int| 0 <= j < i ==> data@[off + j] == a.bytes@[j],
        decreases 32 - i,
    {
        data.set(off + i, a.bytes[i]);
        i += 1;
    }
    proof {
        assert(data@ =~= old(data)@.subrange(0, off as int) + a@ + old(data)@.subrange(
            off + 32,
            old(data)@.len() as int,
        ));
    }
    Ok(())
}

/// The in-place mint patch agrees with serializing the patched record: the
/// bytes of a record around its mint slot do not depend on the mint, so
/// splicing a new mint into the old bytes yields exactly the new record's
/// serialization.
pub proof fn lemma_patch_mint(p: PoolView, m: Seq<u8>)
    requires
        p.wf(),
        m.len() == 32,
        p.name.len() <= 0xFFFF_FFFF,
    ensures
        pool_bytes(p).subrange(0, mint_offset_spec(p.name.len() as int)) + m + pool_bytes(
            p,
        ).subrange(
            mint_offset_spec(p.name.len() as int) + 32,
            pool_record_size_spec(p.name.len() as int),
        ) == pool_bytes(PoolView { mint: m, ..p }),
{
    lemma_auto_spec_u32_to_from_le_bytes();
    lemma_auto_spec_u64_to_from_le_bytes();
    let q = PoolView { mint: m, ..p };
    assert(pool_bytes_pre_mint(q) == pool_bytes_pre_mint(p));
    assert(pool_bytes_post_mint(q) == pool_bytes_post_mint(p));
    assert(pool_bytes_pre_mint(p).len() == mint_offset_spec(p.name.len() as int));
    assert(pool_bytes_post_mint(p).len() == 217);
    assert(pool_bytes(p).subrange(0, mint_offset_spec(p.name.len() as int)) =~= pool_bytes_pre_mint(
        p,
    ));
    assert(pool_bytes(p).subrange(
        mint_offset_spec(p.name.len() as int) + 32,
        pool_record_size_spec(p.name.len() as int),
    ) =~= pool_bytes_post_mint(p));
    assert(pool_bytes(p).subrange(0, mint_offset_spec(p.name.len() as int)) + m + pool_bytes(
        p,
    ).subrange(
        mint_offset_spec(p.name.len() as int) + 32,
        pool_record_size_spec(p.name.len() as int),
    ) =~= pool_bytes(q));
}

/// Parsing inverts serialization: any well-formed record with a UTF-8 name
/// comes back from its own bytes unchanged.
pub proof fn lemma_pool_round_trip(p: PoolView)
    requires
        p.wf(),
        p.name.len() <= 0xFFFF_FFFF,
        valid_utf8(p.name),
    ensures
        parse_pool_bytes(pool_bytes(p)) == Some(p),
{
    lemma_auto_spec_u32_to_from_le_bytes();
    lemma_auto_spec_u64_to_from_le_bytes();
    let b = pool_bytes(p);
    let n = p.name.len() as int;
    assert(b.len() == 367 + n);
    assert(b.subrange(97, 101) =~= spec_u32_to_le_bytes(p.name.len() as u32));
    assert(spec_u32_from_le_bytes(b.subrange(97, 101)) as int == n);
    assert(b.subrange(101, 101 + n) =~= p.name);
    assert(b[278 + n] == bool_byte(p.paused));
    let q = parse_pool_bytes(b).unwrap();
    assert(b[0] == p.version);
    assert(b.subrange(1, 33) =~= p.authority);
    assert(b.subrange(33, 65) =~= p.stake_authority);
    assert(b.subrange(65, 97) =~= p.withdraw_authority);
    assert(b[101 + n] == p.fee_percentage);
    assert(b.subrange(102 + n, 110 + n) =~= spec_u64_to_le_bytes(p.total_staked));
    assert(b.subrange(110 + n, 118 + n) =~= spec_u64_to_le_bytes(p.total_shares));
    assert(b.subrange(118 + n, 150 + n) =~= p.mint);
    assert(b.subrange(150 + n, 182 + n) =~= p.reserve);
    assert(b.subrange(182 + n, 214 + n) =~= p.helius_validator_vote);
    assert(b.subrange(214 + n, 246 + n) =~= p.manager_fee_account);
    assert(b.subrange(246 + n, 278 + n) =~= p.treasury_fee_account);
    assert(b.subrange(279 + n, 287 + n) =~= spec_u64_to_le_bytes(p.last_update_epoch));
    assert(b.subrange(287 + n, 295 + n) =~= spec_u64_to_le_bytes(p.min_stake));
    assert(b.subrange(295 + n, 303 + n) =~= spec_u64_to_le_bytes(p.max_stake));
    assert(b[303 + n] == p.stake_authority_bump_seed);
    assert(b[304 + n] == p.withdraw_authority_bump_seed);
    assert(b.subrange(305 + n, 367 + n) =~= p.reserved);
}

} // verus!
