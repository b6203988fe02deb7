//! Deterministic addresses: the records that belong to a mint live at addresses
//! derived from seeds and the identity of the subsystem that owns them.

use vstd::prelude::*;
use anchor_lang::solana_program::pubkey::Pubkey;
use crate::accounts::InitNFT;
use crate::address::{
    lemma_address_by_bytes, Address, ASSOCIATED_TOKEN_PROGRAM_ID, TOKEN_METADATA_PROGRAM_ID,
    TOKEN_PROGRAM_ID,
};

verus! {

/// What `Pubkey::try_find_program_address` returns for the given seeds and owning
/// program: the derived address with its bump seed, or `None` where the search
/// finds none.
pub uninterp spec fn program_address(seeds: Seq<Seq<u8>>, program: Seq<u8>) -> Option<(Seq<u8>, u8)>;

/// Calls `Pubkey::try_find_program_address` of `solana_program`, which tries the
/// bump seeds from 255 down and returns `None`, without a panic, where none of
/// them gives an address. Nothing here proves what it computes: the contract
/// only names the result, as the function's value on these seeds and this
/// program.
#[verifier::external_body]
fn try_find_program_address(seeds: &Vec<Vec<u8>>, program: &Address) -> (r: Option<(Address, u8)>)
    ensures
        found_view(r) == program_address(seeds.deep_view(), program@),
{
    let parts: Vec<&[u8]> = seeds.iter().map(|s| s.as_slice()).collect();
    match Pubkey::try_find_program_address(&parts, &Pubkey::new_from_array(program.bytes)) {
        Some((key, bump)) => Some((Address { bytes: key.to_bytes() }, bump)),
        None => None,
    }
}

/// A derivation result with the address taken by its bytes.
pub open spec fn found_view(r: Option<(Address, u8)>) -> Option<(Seq<u8>, u8)> {
    match r {
        Some((a, bump)) => Some((a@, bump)),
        None => None,
    }
}

/// The namespace tag of metadata records: the bytes of `metadata`.
pub open spec fn metadata_tag() -> Seq<u8> {
    seq![109u8, 101u8, 116u8, 97u8, 100u8, 97u8, 116u8, 97u8]
}

/// The namespace tag of edition records: the bytes of `edition`.
pub open spec fn edition_tag() -> Seq<u8> {
    seq![101u8, 100u8, 105u8, 116u8, 105u8, 111u8, 110u8]
}

/// The seeds of the metadata record of a mint.
pub open spec fn metadata_seeds(mint: Seq<u8>) -> Seq<Seq<u8>> {
    seq![metadata_tag(), TOKEN_METADATA_PROGRAM_ID@, mint]
}

/// The seeds of the edition record of a mint.
pub open spec fn edition_seeds(mint: Seq<u8>) -> Seq<Seq<u8>> {
    seq![metadata_tag(), TOKEN_METADATA_PROGRAM_ID@, mint, edition_tag()]
}

/// The seeds of the holding account of an owner for a mint.
pub open spec fn holding_seeds(owner: Seq<u8>, mint: Seq<u8>) -> Seq<Seq<u8>> {
    seq![owner, TOKEN_PROGRAM_ID@, mint]
}

/// Address and bump seed of the metadata record of `mint`.
pub open spec fn metadata_address_of(mint: Address) -> Option<(Seq<u8>, u8)> {
    program_address(metadata_seeds(mint@), TOKEN_METADATA_PROGRAM_ID@)
}

/// Address and bump seed of the edition record of `mint`.
pub open spec fn edition_address_of(mint: Address) -> Option<(Seq<u8>, u8)> {
    program_address(edition_seeds(mint@), TOKEN_METADATA_PROGRAM_ID@)
}

/// Address and bump seed of the holding account of `owner` for `mint`.
pub open spec fn holding_address_of(owner: Address, mint: Address) -> Option<(Seq<u8>, u8)> {
    program_address(holding_seeds(owner@, mint@), ASSOCIATED_TOKEN_PROGRAM_ID@)
}

/// The address that holds the given bytes.
pub open spec fn address_with(bytes: Seq<u8>) -> Address {
    choose|a: Address| a@ == bytes
}

/// The address of a derivation result: the one with the derived bytes.
pub open spec fn address_at(found: Option<(Seq<u8>, u8)>) -> Option<Address> {
    match found {
        Some((bytes, _)) => Some(address_with(bytes)),
        None => None,
    }
}

/// The address at which the metadata record of `mint` lives.
pub open spec fn metadata_slot(mint: Address) -> Option<Address> {
    address_at(metadata_address_of(mint))
}

/// The address at which the edition record of `mint` lives.
pub open spec fn edition_slot(mint: Address) -> Option<Address> {
    address_at(edition_address_of(mint))
}

/// The address at which the holding account of `owner` for `mint` lives.
pub open spec fn holding_slot(owner: Address, mint: Address) -> Option<Address> {
    address_at(holding_address_of(owner, mint))
}

/// The address of an executable derivation result.
pub open spec fn found_address(r: Option<(Address, u8)>) -> Option<Address> {
    match r {
        Some((a, _)) => Some(a),
        None => None,
    }
}

/// A derivation result is the address of its own view.
pub proof fn lemma_found_address(r: Option<(Address, u8)>)
    ensures
        address_at(found_view(r)) == found_address(r),
{
    if let Some((a, bump)) = r {
        assert(a.view() == a@);
        lemma_address_by_bytes(a, address_with(a@));
    }
}

fn metadata_tag_bytes() -> (v: Vec<u8>)
    ensures
        v@ == metadata_tag(),
{
    let v: Vec<u8> = vec![109u8, 101u8, 116u8, 97u8, 100u8, 97u8, 116u8, 97u8];
    assert(v@ =~= metadata_tag());
    v
}

fn edition_tag_bytes() -> (v: Vec<u8>)
    ensures
        v@ == edition_tag(),
{
    let v: Vec<u8> = vec![101u8, 100u8, 105u8, 116u8, 105u8, 111u8, 110u8];
    assert(v@ =~= edition_tag());
    v
}

/// Derives the address of the metadata record of `mint`, with its bump seed.
pub fn find_metadata_account(mint: &Address) -> (r: Option<(Address, u8)>)
    ensures
        found_view(r) == metadata_address_of(*mint),
        found_address(r) == metadata_slot(*mint),
{
    let registry = Address::new(TOKEN_METADATA_PROGRAM_ID);
    let mut seeds: Vec<Vec<u8>> = Vec::new();
    seeds.push(metadata_tag_bytes());
    seeds.push(registry.to_vec());
    seeds.push(mint.to_vec());
    assert(seeds.deep_view() =~~= metadata_seeds(mint@));
    let r = try_find_program_address(&seeds, &registry);
    proof {
        lemma_found_address(r);
    }
    r
}

/// Derives the address of the edition record of `mint`, with its bump seed.
pub fn find_master_edition_account(mint: &Address) -> (r: Option<(Address, u8)>)
    ensures
        found_view(r) == edition_address_of(*mint),
        found_address(r) == edition_slot(*mint),
{
    let registry = Address::new(TOKEN_METADATA_PROGRAM_ID);
    let mut seeds: Vec<Vec<u8>> = Vec::new();
    seeds.push(metadata_tag_bytes());
    seeds.push(registry.to_vec());
    seeds.push(mint.to_vec());
    seeds.push(edition_tag_bytes());
    assert(seeds.deep_view() =~~= edition_seeds(mint@));
    let r = try_find_program_address(&seeds, &registry);
    proof {
        lemma_found_address(r);
    }
    r
}

/// Derives the address of the holding account of `owner` for `mint`, with its
/// bump seed.
pub fn find_associated_token_account(owner: &Address, mint: &Address) -> (r: Option<(Address, u8)>)
    ensures
        found_view(r) == holding_address_of(*owner, *mint),
        found_address(r) == holding_slot(*owner, *mint),
{
    let tokens = Address::new(TOKEN_PROGRAM_ID);
    let allocator = Address::new(ASSOCIATED_TOKEN_PROGRAM_ID);
    let mut seeds: Vec<Vec<u8>> = Vec::new();
    seeds.push(owner.to_vec());
    seeds.push(tokens.to_vec());
    seeds.push(mint.to_vec());
    assert(seeds.deep_view() =~~= holding_seeds(owner@, mint@));
    let r = try_find_program_address(&seeds, &allocator);
    proof {
        lemma_found_address(r);
    }
    r
}

/// The addresses that a request's accounts are checked against.
#[derive(Clone, Copy, Debug, PartialEq, Eq)]
pub struct Derived {
    /// The holding account of the requesting identity for the mint.
    pub holding: Option<Address>,
    /// The metadata record of the mint.
    pub metadata: Option<Address>,
    /// The edition record of the mint.
    pub edition: Option<Address>,
}

/// The addresses derived from the identity and the mint of a request.
pub open spec fn derived_for(accounts: InitNFT) -> Derived {
    Derived {
        holding: holding_slot(accounts.signer.address, accounts.mint.address),
        metadata: metadata_slot(accounts.mint.address),
        edition: edition_slot(accounts.mint.address),
    }
}

fn address_only(found: Option<(Address, u8)>) -> (r: Option<Address>)
    ensures
        r == found_address(found),
{
    match found {
        Some((a, _)) => Some(a),
        None => None,
    }
}

/// Derives the addresses that the accounts of a request are checked against.
pub fn derive_addresses(accounts: &InitNFT) -> (d: Derived)
    ensures
        d == derived_for(*accounts),
{
    let mint = accounts.mint.address;
    Derived {
        holding: address_only(find_associated_token_account(&accounts.signer.address, &mint)),
        metadata: address_only(find_metadata_account(&mint)),
        edition: address_only(find_master_edition_account(&mint)),
    }
}

} // verus!
