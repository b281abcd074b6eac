//! Deterministic record addresses.
//!
//! No record's storage location is ever chosen by a caller: each is derived
//! from a fixed textual salt and the identities it belongs to, so two
//! records cannot collide and a caller cannot spoof another's address. The
//! derivation itself — a bump-seed search over a cryptographic hash — is the
//! ledger crate's; these functions fix the exact seeds each record uses.

use vstd::prelude::*;
use vstd::slice::slice_to_vec;

verus! {

/// The address and bump seed that the ledger derives for `seeds` under
/// `program_id`, or `None` where no address exists for them: a function of
/// the inputs alone.
pub uninterp spec fn derived_address_of(seeds: Seq<Seq<u8>>, program_id: Seq<u8>) -> Option<
    (Seq<u8>, u8),
>;

/// Relies on `Pubkey::try_find_program_address`: the bump-seed search is
/// computed inline from the seeds and the program id alone, an address is
/// 32 bytes, and on failure the call returns `None` instead of panicking.
#[verifier::external_body]
fn derive_address(seeds: &Vec<Vec<u8>>, program_id: &Vec<u8>) -> (r: Option<(Vec<u8>, u8)>)
    requires
        program_id@.len() == 32,
    ensures
        match r {
            Option::Some(pair) => derived_address_of(seeds.deep_view(), program_id@)
                == Some((pair.0@, pair.1)) && pair.0@.len() == 32,
            Option::None => derived_address_of(seeds.deep_view(), program_id@) is None,
        },
{
    let seed_refs: Vec<&[u8]> = seeds.iter().map(|s| s.as_slice()).collect();
    let program = solana_program::pubkey::Pubkey::new_from_array(
        program_id.as_slice().try_into().unwrap(),
    );
    solana_program::pubkey::Pubkey::try_find_program_address(&seed_refs, &program)
        .map(|(address, bump)| (address.to_bytes().to_vec(), bump))
}

/// The bytes of the salt "treasury".
pub open spec fn spec_treasury_salt() -> Seq<u8> {
    seq![116u8, 114u8, 101u8, 97u8, 115u8, 117u8, 114u8, 121u8]
}

/// The bytes of the salt "config".
pub open spec fn spec_config_salt() -> Seq<u8> {
    seq![99u8, 111u8, 110u8, 102u8, 105u8, 103u8]
}

/// The bytes of the salt "raffle".
pub open spec fn spec_raffle_salt() -> Seq<u8> {
    seq![114u8, 97u8, 102u8, 102u8, 108u8, 101u8]
}

/// The bytes of the salt "vault".
pub open spec fn spec_vault_salt() -> Seq<u8> {
    seq![118u8, 97u8, 117u8, 108u8, 116u8]
}

fn treasury_salt() -> (r: Vec<u8>)
    ensures
        r@ == spec_treasury_salt(),
{
    let mut v: Vec<u8> = Vec::new();
    v.push(116);
    v.push(114);
    v.push(101);
    v.push(97);
    v.push(115);
    v.push(117);
    v.push(114);
    v.push(121);
    proof {
        assert(v@ =~= spec_treasury_salt());
    }
    v
}

fn config_salt() -> (r: Vec<u8>)
    ensures
        r@ == spec_config_salt(),
{
    let mut v: Vec<u8> = Vec::new();
    v.push(99);
    v.push(111);
    v.push(110);
    v.push(102);
    v.push(105);
    v.push(103);
    proof {
        assert(v@ =~= spec_config_salt());
    }
    v
}

fn raffle_salt() -> (r: Vec<u8>)
    ensures
        r@ == spec_raffle_salt(),
{
    let mut v: Vec<u8> = Vec::new();
    v.push(114);
    v.push(97);
    v.push(102);
    v.push(102);
    v.push(108);
    v.push(101);
    proof {
        assert(v@ =~= spec_raffle_salt());
    }
    v
}

fn vault_salt() -> (r: Vec<u8>)
    ensures
        r@ == spec_vault_salt(),
{
    let mut v: Vec<u8> = Vec::new();
    v.push(118);
    v.push(97);
    v.push(117);
    v.push(108);
    v.push(116);
    proof {
        assert(v@ =~= spec_vault_salt());
    }
    v
}

/// Whether a derivation result matches what the ledger derives for `seeds`.
pub open spec fn spec_derived(
    r: Option<(Vec<u8>, u8)>,
    seeds: Seq<Seq<u8>>,
    program_id: Seq<u8>,
) -> bool {
    match r {
        Option::Some(pair) => derived_address_of(seeds, program_id) == Some((pair.0@, pair.1))
            && pair.0@.len() == 32,
        Option::None => derived_address_of(seeds, program_id) is None,
    }
}

/// The house treasury's address: salt "treasury" and the house identity.
pub fn treasury_address(house: &Vec<u8>, program_id: &Vec<u8>) -> (r: Option<(Vec<u8>, u8)>)
    requires
        house@.len() == 32,
        program_id@.len() == 32,
    ensures
        spec_derived(r, seq![spec_treasury_salt(), house@], program_id@),
{
    let mut seeds: Vec<Vec<u8>> = Vec::new();
    seeds.push(treasury_salt());
    seeds.push(slice_to_vec(house.as_slice()));
    proof {
        assert(seeds.deep_view() =~~= seq![spec_treasury_salt(), house@]);
    }
    derive_address(&seeds, program_id)
}

/// The config record's address: salt "config" and the treasury address.
pub fn config_address(treasury: &Vec<u8>, program_id: &Vec<u8>) -> (r: Option<(Vec<u8>, u8)>)
    requires
        treasury@.len() == 32,
        program_id@.len() == 32,
    ensures
        spec_derived(r, seq![spec_config_salt(), treasury@], program_id@),
{
    let mut seeds: Vec<Vec<u8>> = Vec::new();
    seeds.push(config_salt());
    seeds.push(slice_to_vec(treasury.as_slice()));
    proof {
        assert(seeds.deep_view() =~~= seq![spec_config_salt(), treasury@]);
    }
    derive_address(&seeds, program_id)
}

/// A raffle record's address: salt "raffle", the house identity, and the
/// collection handle — so a maker can host several raffles without any two
/// records colliding.
pub fn raffle_address(house: &Vec<u8>, collection: &Vec<u8>, program_id: &Vec<u8>) -> (r: Option<
    (Vec<u8>, u8),
>)
    requires
        house@.len() == 32,
        collection@.len() == 32,
        program_id@.len() == 32,
    ensures
        spec_derived(r, seq![spec_raffle_salt(), house@, collection@], program_id@),
{
    let mut seeds: Vec<Vec<u8>> = Vec::new();
    seeds.push(raffle_salt());
    seeds.push(slice_to_vec(house.as_slice()));
    seeds.push(slice_to_vec(collection.as_slice()));
    proof {
        assert(seeds.deep_view() =~~= seq![spec_raffle_salt(), house@, collection@]);
    }
    derive_address(&seeds, program_id)
}

/// A raffle vault's address: salt "vault" and the maker identity.
pub fn vault_address(maker: &Vec<u8>, program_id: &Vec<u8>) -> (r: Option<(Vec<u8>, u8)>)
    requires
        maker@.len() == 32,
        program_id@.len() == 32,
    ensures
        spec_derived(r, seq![spec_vault_salt(), maker@], program_id@),
{
    let mut seeds: Vec<Vec<u8>> = Vec::new();
    seeds.push(vault_salt());
    seeds.push(slice_to_vec(maker.as_slice()));
    proof {
        assert(seeds.deep_view() =~~= seq![spec_vault_salt(), maker@]);
    }
    derive_address(&seeds, program_id)
}

} // verus!
