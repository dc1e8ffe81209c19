//! Addresses, and how the accounts of the protocol are derived from seeds.
//!
//! Every account that an operation depends on, other than the accounts that
//! the parties bring themselves, lives at an address that is a function of a
//! list of seeds and of the program that owns the name space. An operation
//! never believes an address that it was given: it derives the address again
//! and compares.

use vstd::prelude::*;
use vstd::slice::slice_to_vec;
use solana_program::pubkey::Pubkey;

verus! {

/// The identity of an account, a mint, a party or a program.
#[derive(Clone, Copy, Debug)]
pub struct Address {
    pub bytes: [u8; 32],
}

impl View for Address {
    type V = Seq<u8>;

    open spec fn view(&self) -> Seq<u8> {
        self.bytes@
    }
}

impl PartialEq for Address {
    fn eq(&self, other: &Self) -> (r: bool) {
        let mut i: usize = 0;
        while i < 32
            invariant
                i <= 32,
                forall|j: int| 0 <= j < i ==> self.bytes[j] == other.bytes[j],
            decreases 32 - i,
        {
            if self.bytes[i] != other.bytes[i] {
                return false;
            }
            i = i + 1;
        }
        assert(self.bytes =~= other.bytes);
        true
    }
}

impl Eq for Address {

}

impl vstd::std_specs::cmp::PartialEqSpecImpl for Address {
    open spec fn obeys_eq_spec() -> bool {
        true
    }

    open spec fn eq_spec(&self, other: &Self) -> bool {
        *self == *other
    }
}

impl Address {
    /// The address made of the given bytes.
    pub fn new(bytes: [u8; 32]) -> (a: Address)
        ensures
            a.bytes == bytes,
    {
        Address { bytes }
    }

    /// The bytes of the address, as a seed.
    pub fn to_seed(&self) -> (seed: Vec<u8>)
        ensures
            seed@ == self@,
    {
        slice_to_vec(self.bytes.as_slice())
    }
}

/// The identity of this protocol: the program that owns the escrow records.
pub const ID: [u8; 32] = [
    22, 43, 64, 138, 210, 146, 241, 6, 179, 104, 207, 55, 150, 76, 0, 205,
    41, 48, 24, 176, 54, 4, 173, 210, 102, 252, 1, 170, 241, 246, 49, 128,
];

/// The program that keeps the token holdings.
pub const TOKEN_PROGRAM_ID: [u8; 32] = [
    6, 221, 246, 225, 215, 101, 161, 147, 217, 203, 225, 70, 206, 235, 121, 172,
    28, 180, 133, 237, 95, 91, 55, 145, 58, 140, 245, 133, 126, 255, 0, 169,
];

/// The program in whose name space the associated holdings live.
pub const ASSOCIATED_TOKEN_PROGRAM_ID: [u8; 32] = [
    140, 151, 37, 143, 78, 36, 137, 241, 187, 61, 16, 41, 20, 142, 13, 131,
    11, 90, 19, 153, 218, 255, 16, 132, 4, 142, 123, 216, 219, 233, 248, 89,
];

/// The seed `metadata`.
pub const METADATA_TAG: [u8; 8] = [109, 101, 116, 97, 100, 97, 116, 97];

/// The seed `edition`.
pub const EDITION_TAG: [u8; 7] = [101, 100, 105, 116, 105, 111, 110];

/// The seed `token_record`.
pub const TOKEN_RECORD_TAG: [u8; 12] = [116, 111, 107, 101, 110, 95, 114, 101, 99, 111, 114, 100];

/// The seed `escrow`.
pub const ESCROW_TAG: [u8; 6] = [101, 115, 99, 114, 111, 119];

pub open spec fn spec_program_id() -> Address {
    Address { bytes: ID }
}

/// The identity of this protocol as an address.
#[verifier::when_used_as_spec(spec_program_id)]
pub fn program_id() -> (a: Address)
    ensures
        a == spec_program_id(),
{
    Address { bytes: ID }
}

pub open spec fn spec_associated_token_program_id() -> Address {
    Address { bytes: ASSOCIATED_TOKEN_PROGRAM_ID }
}

/// The associated token program as an address.
#[verifier::when_used_as_spec(spec_associated_token_program_id)]
pub fn associated_token_program_id() -> (a: Address)
    ensures
        a == spec_associated_token_program_id(),
{
    Address { bytes: ASSOCIATED_TOKEN_PROGRAM_ID }
}

/// The seeds as the derivation sees them: each one a string of bytes.
pub open spec fn seeds_view(seeds: Seq<Vec<u8>>) -> Seq<Seq<u8>> {
    Seq::new(seeds.len(), |i: int| seeds[i]@)
}

/// The address, and the bump seed that goes with it, that the seeds derive in
/// the name space of a program; `None` where the seeds derive no address.
pub uninterp spec fn program_address(seeds: Seq<Seq<u8>>, namespace: Address) -> Option<(Address, u8)>;

/// `Pubkey::try_find_program_address` of `solana_program`: the search for the
/// highest bump seed with which the seeds, hashed together with the program's
/// identity, give an address off the curve. The contract only names what the
/// search returns; it depends on the seeds and on the program alone.
#[verifier::external_body]
fn try_find_program_address(seeds: &Vec<Vec<u8>>, namespace: &Address) -> (found: Option<(Address, u8)>)
    ensures
        found == program_address(seeds_view(seeds@), *namespace),
{
    let parts: Vec<&[u8]> = seeds.iter().map(|seed| seed.as_slice()).collect();
    Pubkey::try_find_program_address(&parts, &Pubkey::new_from_array(namespace.bytes))
        .map(|(key, bump)| (Address { bytes: key.to_bytes() }, bump))
}

/// Whether a derivation found the candidate.
pub open spec fn is_derived(candidate: Address, found: Option<(Address, u8)>) -> bool {
    found matches Some((address, _)) && address == candidate
}

/// The address of a derivation, without its bump seed.
pub open spec fn address_of(found: Option<(Address, u8)>) -> Option<Address> {
    match found {
        Some((address, _)) => Some(address),
        None => None,
    }
}

/// The bump seed of a derivation that found an address.
pub open spec fn bump_of(found: Option<(Address, u8)>) -> u8
    recommends
        found is Some,
{
    match found {
        Some((_, bump)) => bump,
        None => 0,
    }
}

/// Derives the address that the seeds give in the name space of a program.
pub fn derive(seeds: &Vec<Vec<u8>>, namespace: &Address) -> (found: Option<(Address, u8)>)
    ensures
        found == program_address(seeds_view(seeds@), *namespace),
{
    try_find_program_address(seeds, namespace)
}

/// Whether the candidate is the address that a derivation found.
pub fn check_derived(candidate: &Address, found: &Option<(Address, u8)>) -> (ok: bool)
    ensures
        ok == is_derived(*candidate, *found),
{
    match found {
        Some((address, _)) => *address == *candidate,
        None => false,
    }
}

/// Whether the candidate is the address that a derivation gave, bump seed aside.
pub fn check_address(candidate: &Address, expected: &Option<Address>) -> (ok: bool)
    ensures
        ok == (*expected == Some(*candidate)),
{
    match expected {
        Some(address) => *address == *candidate,
        None => false,
    }
}

/// Whether the candidate is the address that the seeds derive in the name
/// space of a program.
pub fn verify(candidate: &Address, seeds: &Vec<Vec<u8>>, namespace: &Address) -> (ok: bool)
    ensures
        ok == is_derived(*candidate, program_address(seeds_view(seeds@), *namespace)),
{
    let found = derive(seeds, namespace);
    check_derived(candidate, &found)
}

/// The seeds of the metadata record of a mint.
pub open spec fn metadata_seeds(metadata_program: Address, mint: Address) -> Seq<Seq<u8>> {
    seq![METADATA_TAG@, metadata_program@, mint@]
}

/// The seeds of the edition record of a mint.
pub open spec fn edition_seeds(metadata_program: Address, mint: Address) -> Seq<Seq<u8>> {
    seq![METADATA_TAG@, metadata_program@, mint@, EDITION_TAG@]
}

/// The seeds of the token record of a mint in a holding.
pub open spec fn token_record_seeds(
    metadata_program: Address,
    mint: Address,
    holding: Address,
) -> Seq<Seq<u8>> {
    seq![METADATA_TAG@, metadata_program@, mint@, TOKEN_RECORD_TAG@, holding@]
}

/// The seeds of the escrow record of a maker and two mints.
pub open spec fn escrow_seeds(maker: Address, mint_a: Address, mint_b: Address) -> Seq<Seq<u8>> {
    seq![ESCROW_TAG@, maker@, mint_a@, mint_b@]
}

/// The seeds of the associated holding of an owner for a mint.
pub open spec fn associated_token_seeds(owner: Address, mint: Address) -> Seq<Seq<u8>> {
    seq![owner@, TOKEN_PROGRAM_ID@, mint@]
}

/// The address of the metadata record of a mint.
pub open spec fn metadata_address(metadata_program: Address, mint: Address) -> Option<Address> {
    address_of(program_address(metadata_seeds(metadata_program, mint), metadata_program))
}

/// The address of the edition record of a mint.
pub open spec fn edition_address(metadata_program: Address, mint: Address) -> Option<Address> {
    address_of(program_address(edition_seeds(metadata_program, mint), metadata_program))
}

/// The address of the token record of a mint in a holding.
pub open spec fn token_record_address(
    metadata_program: Address,
    mint: Address,
    holding: Address,
) -> Option<Address> {
    address_of(program_address(token_record_seeds(metadata_program, mint, holding), metadata_program))
}

/// The address of the escrow record of a maker and two mints, with its bump seed.
pub open spec fn escrow_address(
    maker: Address,
    mint_a: Address,
    mint_b: Address,
) -> Option<(Address, u8)> {
    program_address(escrow_seeds(maker, mint_a, mint_b), spec_program_id())
}

/// The address of the associated holding of an owner for a mint.
pub open spec fn associated_token_address(owner: Address, mint: Address) -> Option<Address> {
    address_of(program_address(associated_token_seeds(owner, mint), spec_associated_token_program_id()))
}

/// Drops the bump seed of a derivation.
pub fn without_bump(found: Option<(Address, u8)>) -> (address: Option<Address>)
    ensures
        address == address_of(found),
{
    match found {
        Some((address, _)) => Some(address),
        None => None,
    }
}

/// Derives the address of the metadata record of a mint.
pub fn find_metadata_address(metadata_program: &Address, mint: &Address) -> (found: Option<Address>)
    ensures
        found == metadata_address(*metadata_program, *mint),
{
    let mut seeds: Vec<Vec<u8>> = Vec::new();
    seeds.push(slice_to_vec(METADATA_TAG.as_slice()));
    seeds.push(metadata_program.to_seed());
    seeds.push(mint.to_seed());
    assert(seeds_view(seeds@) =~= metadata_seeds(*metadata_program, *mint));
    without_bump(derive(&seeds, metadata_program))
}

/// Derives the address of the edition record of a mint.
pub fn find_edition_address(metadata_program: &Address, mint: &Address) -> (found: Option<Address>)
    ensures
        found == edition_address(*metadata_program, *mint),
{
    let mut seeds: Vec<Vec<u8>> = Vec::new();
    seeds.push(slice_to_vec(METADATA_TAG.as_slice()));
    seeds.push(metadata_program.to_seed());
    seeds.push(mint.to_seed());
    seeds.push(slice_to_vec(EDITION_TAG.as_slice()));
    assert(seeds_view(seeds@) =~= edition_seeds(*metadata_program, *mint));
    without_bump(derive(&seeds, metadata_program))
}

/// Derives the address of the token record of a mint in a holding.
pub fn find_token_record_address(
    metadata_program: &Address,
    mint: &Address,
    holding: &Address,
) -> (found: Option<Address>)
    ensures
        found == token_record_address(*metadata_program, *mint, *holding),
{
    let mut seeds: Vec<Vec<u8>> = Vec::new();
    seeds.push(slice_to_vec(METADATA_TAG.as_slice()));
    seeds.push(metadata_program.to_seed());
    seeds.push(mint.to_seed());
    seeds.push(slice_to_vec(TOKEN_RECORD_TAG.as_slice()));
    seeds.push(holding.to_seed());
    assert(seeds_view(seeds@) =~= token_record_seeds(*metadata_program, *mint, *holding));
    without_bump(derive(&seeds, metadata_program))
}

/// Derives the address of the escrow record of a maker and two mints, and
/// the bump seed with which the escrow signs.
pub fn find_escrow_address(maker: &Address, mint_a: &Address, mint_b: &Address) -> (found: Option<
    (Address, u8),
>)
    ensures
        found == escrow_address(*maker, *mint_a, *mint_b),
{
    let mut seeds: Vec<Vec<u8>> = Vec::new();
    seeds.push(slice_to_vec(ESCROW_TAG.as_slice()));
    seeds.push(maker.to_seed());
    seeds.push(mint_a.to_seed());
    seeds.push(mint_b.to_seed());
    assert(seeds_view(seeds@) =~= escrow_seeds(*maker, *mint_a, *mint_b));
    derive(&seeds, &program_id())
}

/// Derives the address of the associated holding of an owner for a mint.
pub fn find_associated_token_address(owner: &Address, mint: &Address) -> (found: Option<Address>)
    ensures
        found == associated_token_address(*owner, *mint),
{
    let mut seeds: Vec<Vec<u8>> = Vec::new();
    seeds.push(owner.to_seed());
    seeds.push(slice_to_vec(TOKEN_PROGRAM_ID.as_slice()));
    seeds.push(mint.to_seed());
    assert(seeds_view(seeds@) =~= associated_token_seeds(*owner, *mint));
    without_bump(derive(&seeds, &associated_token_program_id()))
}

} // verus!
