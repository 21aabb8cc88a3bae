//! Deriving the address of a vault from its owner.
//!
//! A vault lives at an address computed from a fixed tag, the owner's
//! identity and a one-byte bump. The computation itself (a hash and a curve
//! test) is done by `anchor_lang`; this module fixes the seeds and names the
//! results so that the rest of the library can speak of them.

use vstd::prelude::*;
use anchor_lang::prelude::Pubkey;
use anchor_lang::solana_program::pubkey::PubkeyError;
use crate::address::{Address, address_view, derivation_view};

verus! {

/// The error of `Pubkey::create_program_address`. Nothing is known of a value
/// of it but that it is an error.
#[verifier::external_type_specification]
#[verifier::external_body]
pub struct ExPubkeyError(PubkeyError);

/// What `Pubkey::try_find_program_address` returns for the seeds and the
/// program: the derived address and the bump it was found with, or `None`
/// where no bump yields an address.
pub uninterp spec fn found_program_address(seeds: Seq<Seq<u8>>, program_id: Seq<u8>) -> Option<(Seq<u8>, u8)>;

/// What `Pubkey::create_program_address` returns for the seeds and the
/// program: the address they hash to, or `None` where it reports an error.
pub uninterp spec fn created_program_address(seeds: Seq<Seq<u8>>, program_id: Seq<u8>) -> Option<Seq<u8>>;

/// Trusted: `Pubkey::try_find_program_address`.
///
/// The result is a function of the seeds and the program alone, named by
/// `found_program_address`. When an address is found, it is the one that
/// `Pubkey::create_program_address` gives for the same seeds followed by the
/// one-byte seed holding the bump: the search returns exactly what that call
/// produced.
#[verifier::external_body]
fn try_find_program_address(seeds: &Vec<Vec<u8>>, program_id: &Address) -> (found: Option<(Address, u8)>)
    ensures
        derivation_view(found) == found_program_address(seeds.deep_view(), program_id@),
        found matches Some((address, bump)) ==> created_program_address(
            seeds.deep_view().push(seq![bump]),
            program_id@,
        ) == Some(address@),
{
    let slices: Vec<&[u8]> = seeds.iter().map(|seed| seed.as_slice()).collect();
    match Pubkey::try_find_program_address(&slices, &Pubkey::new_from_array(program_id.bytes)) {
        Some((key, bump)) => Some((Address { bytes: key.to_bytes() }, bump)),
        None => None,
    }
}

/// Trusted: `Pubkey::create_program_address`.
///
/// The result is a function of the seeds and the program alone, named by
/// `created_program_address`: the address on success, nothing on an error.
#[verifier::external_body]
fn create_program_address(seeds: &Vec<Vec<u8>>, program_id: &Address) -> (created: Result<Address, PubkeyError>)
    ensures
        created matches Ok(address) ==> created_program_address(seeds.deep_view(), program_id@)
            == Some(address@),
        created is Err ==> created_program_address(seeds.deep_view(), program_id@) is None,
{
    let slices: Vec<&[u8]> = seeds.iter().map(|seed| seed.as_slice()).collect();
    match Pubkey::create_program_address(&slices, &Pubkey::new_from_array(program_id.bytes)) {
        Ok(key) => Ok(Address { bytes: key.to_bytes() }),
        Err(e) => Err(e),
    }
}

/// The tag that separates vault addresses from every other derived address:
/// the ASCII bytes of `vault`.
pub open spec fn vault_tag() -> Seq<u8> {
    seq![118u8, 97u8, 117u8, 108u8, 116u8]
}

/// The seeds from which an owner's vault address is searched.
pub open spec fn vault_seeds(owner: Seq<u8>) -> Seq<Seq<u8>> {
    seq![vault_tag(), owner]
}

/// The seeds from which a vault address is recomputed once its bump is known.
pub open spec fn vault_seeds_with_bump(owner: Seq<u8>, bump: u8) -> Seq<Seq<u8>> {
    vault_seeds(owner).push(seq![bump])
}

/// The address and bump of the vault that belongs to `owner` under
/// `program_id`, if the search finds one.
pub open spec fn derived_vault_address(owner: Seq<u8>, program_id: Seq<u8>) -> Option<(Seq<u8>, u8)> {
    found_program_address(vault_seeds(owner), program_id)
}

/// The address that `owner` and `bump` recompute to under `program_id`, if
/// they give one.
pub open spec fn rederived_vault_address(owner: Seq<u8>, bump: u8, program_id: Seq<u8>) -> Option<Seq<u8>> {
    created_program_address(vault_seeds_with_bump(owner, bump), program_id)
}

/// The tag as a seed.
fn tag_seed() -> (tag: Vec<u8>)
    ensures
        tag@ == vault_tag(),
{
    let mut tag: Vec<u8> = Vec::new();
    tag.push(118u8);
    tag.push(97u8);
    tag.push(117u8);
    tag.push(108u8);
    tag.push(116u8);
    assert(tag@ =~= vault_tag());
    tag
}

/// The seeds handed to the search for `owner`'s vault address.
fn seeds_for(owner: &Address) -> (seeds: Vec<Vec<u8>>)
    ensures
        seeds.deep_view() == vault_seeds(owner@),
{
    let mut seeds: Vec<Vec<u8>> = Vec::new();
    seeds.push(tag_seed());
    seeds.push(owner.to_vec());
    assert(seeds.deep_view() =~~= vault_seeds(owner@));
    seeds
}

/// The seeds handed to the recomputation of a vault address.
fn seeds_with_bump_for(owner: &Address, bump: u8) -> (seeds: Vec<Vec<u8>>)
    ensures
        seeds.deep_view() == vault_seeds_with_bump(owner@, bump),
{
    let mut seeds: Vec<Vec<u8>> = Vec::new();
    seeds.push(tag_seed());
    seeds.push(owner.to_vec());
    let mut last: Vec<u8> = Vec::new();
    last.push(bump);
    seeds.push(last);
    assert(seeds.deep_view() =~~= vault_seeds_with_bump(owner@, bump));
    seeds
}

/// Searches the address of the vault that belongs to `owner` under
/// `program_id`. Returns the address with the bump it was found with. An
/// address that is found is also the one that `owner` and that bump recompute
/// to.
pub fn derive_vault_address(owner: &Address, program_id: &Address) -> (derived: Option<(Address, u8)>)
    ensures
        derivation_view(derived) == derived_vault_address(owner@, program_id@),
        derived matches Some((address, bump)) ==> rederived_vault_address(owner@, bump, program_id@)
            == Some(address@),
{
    let seeds = seeds_for(owner);
    try_find_program_address(&seeds, program_id)
}

/// Recomputes a vault address from its owner and a known bump. Returns `None`
/// where the two give no address.
pub fn rederive_vault_address(owner: &Address, bump: u8, program_id: &Address) -> (rederived: Option<Address>)
    ensures
        address_view(rederived) == rederived_vault_address(owner@, bump, program_id@),
{
    let seeds = seeds_with_bump_for(owner, bump);
    match create_program_address(&seeds, program_id) {
        Ok(address) => Some(address),
        Err(_) => None,
    }
}

} // verus!
