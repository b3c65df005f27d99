//! Deterministic, collision-avoiding derivation of storage addresses.
//!
//! An address is computed from an ordered list of byte-string seeds plus a
//! trailing one-byte nonce (the "bump"), starting at 255 and decrementing,
//! stopping at the first nonce whose candidate is acceptable — that is, not
//! a valid externally-controllable identity key. The nonce search must be
//! reproduced identically by every side that computes addresses.

use vstd::prelude::*;
use crate::error::AddressDerivationError;

verus! {

/// The candidate address for one seed list, nonce and program id, or `None`
/// where the underlying scheme rejects the nonce (the candidate would be a
/// valid externally-controllable key) or the seeds (too many, or one too
/// long). The result is a function of the arguments alone.
pub uninterp spec fn pda_candidate(seeds: Seq<Seq<u8>>, bump: u8, program_id: Seq<u8>) -> Option<
    Seq<u8>,
>;

/// Relies on `solana_sdk::pubkey::Pubkey::create_program_address`: it hashes
/// the seeds, the nonce and the program id, returns `Err` exactly when a
/// seed is over-long, there are too many seeds, or the hash lands on the
/// ed25519 curve, and otherwise returns the 32-byte hash; the result depends
/// on the arguments alone.
#[verifier::external_body]
fn pda_candidate_exec(seeds: &Vec<Vec<u8>>, bump: u8, program_id: &Vec<u8>) -> (r: Option<Vec<u8>>)
    requires
        program_id@.len() == 32,
    ensures
        match r {
            Some(a) => pda_candidate(seeds.deep_view(), bump, program_id@) == Some(a@)
                && a@.len() == 32,
            None => pda_candidate(seeds.deep_view(), bump, program_id@) is None,
        },
{
    let pid = solana_sdk::pubkey::Pubkey::new_from_array(program_id.as_slice().try_into().unwrap());
    let mut refs: Vec<&[u8]> = seeds.iter().map(|s| s.as_slice()).collect();
    let bump_arr = [bump];
    refs.push(&bump_arr);
    match solana_sdk::pubkey::Pubkey::create_program_address(&refs, &pid) {
        Ok(pk) => Some(pk.to_bytes().to_vec()),
        Err(_) => None,
    }
}

/// The first acceptable candidate at nonce `bump` or below.
pub open spec fn spec_derive_from(seeds: Seq<Seq<u8>>, program_id: Seq<u8>, bump: int) -> Option<
    (Seq<u8>, u8),
>
    decreases bump + 1,
{
    if bump < 0 {
        None
    } else {
        match pda_candidate(seeds, bump as u8, program_id) {
            Some(a) => Some((a, bump as u8)),
            None => spec_derive_from(seeds, program_id, bump - 1),
        }
    }
}

/// Address and bump for a seed list: the first nonce from 255 downward with
/// an acceptable candidate, or `None` when the whole nonce space fails.
pub open spec fn spec_derive(seeds: Seq<Seq<u8>>, program_id: Seq<u8>) -> Option<(Seq<u8>, u8)> {
    spec_derive_from(seeds, program_id, 255)
}

/// Derives the storage address for a seed list, returning the address and
/// the bump that produced it. Fails only when no nonce in the byte range
/// yields an acceptable candidate — effectively unreachable in practice,
/// but a defined, reported failure.
pub fn derive(seeds: &Vec<Vec<u8>>, program_id: &Vec<u8>) -> (r: Result<
    (Vec<u8>, u8),
    AddressDerivationError,
>)
    requires
        program_id@.len() == 32,
    ensures
        match r {
            Ok(p) => spec_derive(seeds.deep_view(), program_id@) == Some((p.0@, p.1)) && p.0@.len()
                == 32,
            Err(_) => spec_derive(seeds.deep_view(), program_id@) is None,
        },
{
    let mut bump: u8 = 255;
    loop
        invariant
            program_id@.len() == 32,
            spec_derive(seeds.deep_view(), program_id@) == spec_derive_from(
                seeds.deep_view(),
                program_id@,
                bump as int,
            ),
        decreases bump,
    {
        match pda_candidate_exec(seeds, bump, program_id) {
            Some(a) => {
                return Ok((a, bump));
            },
            None => {
                if bump == 0 {
                    proof {
                        assert(spec_derive_from(seeds.deep_view(), program_id@, -1) is None);
                        assert(spec_derive_from(seeds.deep_view(), program_id@, 0) is None);
                    }
                    return Err(AddressDerivationError);
                }
                bump = bump - 1;
            },
        }
    }
}

/// Determinism of derivation: the result is a function of the seeds and the
/// program id alone, so any two derivations from equal inputs agree on both
/// the address and the bump.
pub proof fn lemma_derive_deterministic(
    seeds: Seq<Seq<u8>>,
    program_id: Seq<u8>,
    r1: Option<(Seq<u8>, u8)>,
    r2: Option<(Seq<u8>, u8)>,
)
    requires
        r1 == spec_derive(seeds, program_id),
        r2 == spec_derive(seeds, program_id),
    ensures
        r1 == r2,
{
}

/// Seed prefix of asset records: the ASCII bytes of "asset".
pub open spec fn asset_seed_prefix() -> Seq<u8> {
    seq![97u8, 115u8, 115u8, 101u8, 116u8]
}

/// Seed prefix of loan records: the ASCII bytes of "loan".
pub open spec fn loan_seed_prefix() -> Seq<u8> {
    seq![108u8, 111u8, 97u8, 110u8]
}

/// Seed list of the asset record named by `asset_id`.
pub open spec fn asset_seeds(asset_id: Seq<u8>) -> Seq<Seq<u8>> {
    seq![asset_seed_prefix(), asset_id]
}

/// Seed list of the loan record for a collateral asset and a borrower.
pub open spec fn loan_seeds(asset_address: Seq<u8>, borrower: Seq<u8>) -> Seq<Seq<u8>> {
    seq![loan_seed_prefix(), asset_address, borrower]
}

/// Builds the seed list of an asset record.
pub fn asset_seed_list(asset_id: &Vec<u8>) -> (r: Vec<Vec<u8>>)
    ensures
        r.deep_view() == asset_seeds(asset_id@),
{
    let mut prefix: Vec<u8> = Vec::new();
    prefix.push(97);
    prefix.push(115);
    prefix.push(115);
    prefix.push(101);
    prefix.push(116);
    let mut seeds: Vec<Vec<u8>> = Vec::new();
    seeds.push(prefix);
    seeds.push(vstd::slice::slice_to_vec(asset_id.as_slice()));
    proof {
        assert(seeds.deep_view() =~~= asset_seeds(asset_id@));
    }
    seeds
}

/// Builds the seed list of a loan record.
pub fn loan_seed_list(asset_address: &Vec<u8>, borrower: &Vec<u8>) -> (r: Vec<Vec<u8>>)
    ensures
        r.deep_view() == loan_seeds(asset_address@, borrower@),
{
    let mut prefix: Vec<u8> = Vec::new();
    prefix.push(108);
    prefix.push(111);
    prefix.push(97);
    prefix.push(110);
    let mut seeds: Vec<Vec<u8>> = Vec::new();
    seeds.push(prefix);
    seeds.push(vstd::slice::slice_to_vec(asset_address.as_slice()));
    seeds.push(vstd::slice::slice_to_vec(borrower.as_slice()));
    proof {
        assert(seeds.deep_view() =~~= loan_seeds(asset_address@, borrower@));
    }
    seeds
}

} // verus!
