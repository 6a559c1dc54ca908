//! The authority derivation scheme: deterministic, collision-avoiding
//! mappings from seed lists to capability addresses with no private key.
//! The derivation itself is the ledger's, reached through trusted wrappers;
//! the five seed layouts the pool uses are built and checked here.

use vstd::prelude::*;

use crate::addr::Address;

verus! {

/// The derived address and disambiguator for a seed list and controller id,
/// or nothing in the statistically improbable event that no disambiguator
/// works (also when the seed list itself is over the ledger's limits).
pub uninterp spec fn find_pda(seeds: Seq<Seq<u8>>, program_id: Seq<u8>) -> Option<(Seq<u8>, u8)>;

/// The address derived from an exact seed list (disambiguator included), or
/// nothing when the seed list is over limits or the derivation falls into
/// the reachable key space.
pub uninterp spec fn create_pda(seeds: Seq<Seq<u8>>, program_id: Seq<u8>) -> Option<Seq<u8>>;

/// A seed list as the sequence of its byte sequences.
pub open spec fn seeds_view(seeds: Seq<Vec<u8>>) -> Seq<Seq<u8>> {
    seeds.map_values(|v: Vec<u8>| v@)
}

/// Relies on `Pubkey::try_find_program_address`: a deterministic search
/// over disambiguators, returning the first off-curve derivation, or `None`
/// when the seed list is over limits or no disambiguator works.
#[verifier::external_body]
pub(crate) fn try_find_pda_raw(seeds: &Vec<Vec<u8>>, program_id: &Address) -> (r: Option<
    (Address, u8),
>)
    ensures
        r matches Some(p) ==> find_pda(seeds_view(seeds@), program_id@) == Some((p.0@, p.1)),
        r is None ==> find_pda(seeds_view(seeds@), program_id@) is None,
{
    let refs: Vec<&[u8]> = seeds.iter().map(|s| s.as_slice()).collect();
    let pid = solana_program::pubkey::Pubkey::new_from_array(program_id.bytes);
    match solana_program::pubkey::Pubkey::try_find_program_address(&refs, &pid) {
        Some((pk, bump)) => Some((Address { bytes: pk.to_bytes() }, bump)),
        None => None,
    }
}

/// Relies on `Pubkey::create_program_address`: the deterministic derivation
/// for an exact seed list, `Err` when the seed list is over limits or the
/// derivation lands on the curve.
#[verifier::external_body]
pub(crate) fn create_pda_raw(seeds: &Vec<Vec<u8>>, program_id: &Address) -> (r: Option<Address>)
    ensures
        r matches Some(a) ==> create_pda(seeds_view(seeds@), program_id@) == Some(a@),
        r is None ==> create_pda(seeds_view(seeds@), program_id@) is None,
{
    let refs: Vec<&[u8]> = seeds.iter().map(|s| s.as_slice()).collect();
    let pid = solana_program::pubkey::Pubkey::new_from_array(program_id.bytes);
    match solana_program::pubkey::Pubkey::create_program_address(&refs, &pid) {
        Ok(pk) => Some(Address { bytes: pk.to_bytes() }),
        Err(_) => None,
    }
}

/// The constant tag that seeds a pool's own address.
pub open spec fn pool_seed_tag() -> Seq<u8> {
    seq![
        111u8,
        98u8,
        101u8,
        108u8,
        105u8,
        115u8,
        107u8,
        95u8,
        112u8,
        111u8,
        111u8,
        108u8,
        95u8,
        48u8,
        52u8,
    ]
}

/// The constant tag that seeds a pool's stake authority.
pub open spec fn stake_authority_tag() -> Seq<u8> {
    seq![
        115u8,
        116u8,
        97u8,
        107u8,
        101u8,
        95u8,
        97u8,
        117u8,
        116u8,
        104u8,
        111u8,
        114u8,
        105u8,
        116u8,
        121u8,
    ]
}

/// The constant tag that seeds a pool's withdraw authority.
pub open spec fn withdraw_authority_tag() -> Seq<u8> {
    seq![
        119u8,
        105u8,
        116u8,
        104u8,
        100u8,
        114u8,
        97u8,
        119u8,
        95u8,
        97u8,
        117u8,
        116u8,
        104u8,
        111u8,
        114u8,
        105u8,
        116u8,
        121u8,
    ]
}

/// The constant tag that seeds a pool's claim-token mint.
pub open spec fn mint_tag() -> Seq<u8> {
    seq![109u8, 105u8, 110u8, 116u8]
}

/// The constant tag that seeds a user's stake record.
pub open spec fn stake_account_tag() -> Seq<u8> {
    seq![115u8, 116u8, 97u8, 107u8, 101u8, 95u8, 97u8, 99u8, 99u8, 111u8, 117u8, 110u8, 116u8]
}

fn pool_seed_tag_bytes() -> (r: Vec<u8>)
    ensures
        r@ == pool_seed_tag(),
{
    let v: Vec<u8> = vec![111, 98, 101, 108, 105, 115, 107, 95, 112, 111, 111, 108, 95, 48, 52];
    proof {
        assert(v@ =~= pool_seed_tag());
    }
    v
}

fn stake_authority_tag_bytes() -> (r: Vec<u8>)
    ensures
        r@ == stake_authority_tag(),
{
    let v: Vec<u8> = vec![115, 116, 97, 107, 101, 95, 97, 117, 116, 104, 111, 114, 105, 116, 121];
    proof {
        assert(v@ =~= stake_authority_tag());
    }
    v
}

fn withdraw_authority_tag_bytes() -> (r: Vec<u8>)
    ensures
        r@ == withdraw_authority_tag(),
{
    let v: Vec<u8> = vec![
        119,
        105,
        116,
        104,
        100,
        114,
        97,
        119,
        95,
        97,
        117,
        116,
        104,
        111,
        114,
        105,
        116,
        121,
    ];
    proof {
        assert(v@ =~= withdraw_authority_tag());
    }
    v
}

fn mint_tag_bytes() -> (r: Vec<u8>)
    ensures
        r@ == mint_tag(),
{
    let v: Vec<u8> = vec![109, 105, 110, 116];
    proof {
        assert(v@ =~= mint_tag());
    }
    v
}

fn stake_account_tag_bytes() -> (r: Vec<u8>)
    ensures
        r@ == stake_account_tag(),
{
    let v: Vec<u8> = vec![115, 116, 97, 107, 101, 95, 97, 99, 99, 111, 117, 110, 116];
    proof {
        assert(v@ =~= stake_account_tag());
    }
    v
}

/// The derivation of a pool's own address from its creator.
pub open spec fn pool_pda(authority: Seq<u8>, program_id: Seq<u8>) -> Option<(Seq<u8>, u8)> {
    find_pda(seq![authority, pool_seed_tag()], program_id)
}

/// The derivation of a pool's stake authority from the pool's address.
pub open spec fn stake_authority_pda(pool: Seq<u8>, program_id: Seq<u8>) -> Option<(Seq<u8>, u8)> {
    find_pda(seq![stake_authority_tag(), pool], program_id)
}

/// The derivation of a pool's withdraw authority from the pool's address.
pub open spec fn withdraw_authority_pda(pool: Seq<u8>, program_id: Seq<u8>) -> Option<
    (Seq<u8>, u8),
> {
    find_pda(seq![withdraw_authority_tag(), pool], program_id)
}

/// The derivation of a pool's claim-token mint from the pool's address.
pub open spec fn mint_pda(pool: Seq<u8>, program_id: Seq<u8>) -> Option<(Seq<u8>, u8)> {
    find_pda(seq![pool, mint_tag()], program_id)
}

/// The derivation of a user's stake record from the pool, the user and the
/// pool's stake authority.
pub open spec fn user_stake_account_pda(
    pool: Seq<u8>,
    user: Seq<u8>,
    stake_authority: Seq<u8>,
    program_id: Seq<u8>,
) -> Option<(Seq<u8>, u8)> {
    find_pda(seq![stake_account_tag(), pool, user, stake_authority], program_id)
}

/// Derives a pool's own address and disambiguator from its creator.
pub fn derive_pool_address(authority: &Address, program_id: &Address) -> (r: Option<(Address, u8)>)
    ensures
        r matches Some(p) ==> pool_pda(authority@, program_id@) == Some((p.0@, p.1)),
        r is None ==> pool_pda(authority@, program_id@) is None,
{
    let mut seeds: Vec<Vec<u8>> = Vec::new();
    seeds.push(authority.to_vec());
    seeds.push(pool_seed_tag_bytes());
    proof {
        assert(seeds_view(seeds@) =~= seq![authority@, pool_seed_tag()]);
    }
    try_find_pda_raw(&seeds, program_id)
}

/// Derives a pool's stake authority from the pool's address.
pub fn derive_stake_authority(pool: &Address, program_id: &Address) -> (r: Option<(Address, u8)>)
    ensures
        r matches Some(p) ==> stake_authority_pda(pool@, program_id@) == Some((p.0@, p.1)),
        r is None ==> stake_authority_pda(pool@, program_id@) is None,
{
    let mut seeds: Vec<Vec<u8>> = Vec::new();
    seeds.push(stake_authority_tag_bytes());
    seeds.push(pool.to_vec());
    proof {
        assert(seeds_view(seeds@) =~= seq![stake_authority_tag(), pool@]);
    }
    try_find_pda_raw(&seeds, program_id)
}

/// Derives a pool's withdraw authority from the pool's address.
pub fn derive_withdraw_authority(pool: &Address, program_id: &Address) -> (r: Option<
    (Address, u8),
>)
    ensures
        r matches Some(p) ==> withdraw_authority_pda(pool@, program_id@) == Some((p.0@, p.1)),
        r is None ==> withdraw_authority_pda(pool@, program_id@) is None,
{
    let mut seeds: Vec<Vec<u8>> = Vec::new();
    seeds.push(withdraw_authority_tag_bytes());
    seeds.push(pool.to_vec());
    proof {
        assert(seeds_view(seeds@) =~= seq![withdraw_authority_tag(), pool@]);
    }
    try_find_pda_raw(&seeds, program_id)
}

/// Derives a pool's claim-token mint from the pool's address.
pub fn derive_mint_address(pool: &Address, program_id: &Address) -> (r: Option<(Address, u8)>)
    ensures
        r matches Some(p) ==> mint_pda(pool@, program_id@) == Some((p.0@, p.1)),
        r is None ==> mint_pda(pool@, program_id@) is None,
{
    let mut seeds: Vec<Vec<u8>> = Vec::new();
    seeds.push(pool.to_vec());
    seeds.push(mint_tag_bytes());
    proof {
        assert(seeds_view(seeds@) =~= seq![pool@, mint_tag()]);
    }
    try_find_pda_raw(&seeds, program_id)
}

/// Derives a user's stake record address from the pool, the user and the
/// pool's stake authority.
pub fn derive_user_stake_account(
    pool: &Address,
    user: &Address,
    stake_authority: &Address,
    program_id: &Address,
) -> (r: Option<(Address, u8)>)
    ensures
        r matches Some(p) ==> user_stake_account_pda(pool@, user@, stake_authority@, program_id@)
            == Some((p.0@, p.1)),
        r is None ==> user_stake_account_pda(pool@, user@, stake_authority@, program_id@) is None,
{
    let mut seeds: Vec<Vec<u8>> = Vec::new();
    seeds.push(stake_account_tag_bytes());
    seeds.push(pool.to_vec());
    seeds.push(user.to_vec());
    seeds.push(stake_authority.to_vec());
    proof {
        assert(seeds_view(seeds@) =~= seq![
            stake_account_tag(),
            pool@,
            user@,
            stake_authority@,
        ]);
    }
    try_find_pda_raw(&seeds, program_id)
}

} // verus!
