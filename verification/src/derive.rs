//! Derived storage addresses.
//!
//! A record's address is computed from a list of seeds and the identity of the
//! program that owns the record. The computation itself (a hash of the seeds,
//! the program identity and a domain tag, rejected while it lands on the
//! ed25519 curve) is done by `anchor_lang`'s `Pubkey`; this module names its
//! results and builds the seed lists of the two derived record kinds.

use crate::address::Address;
use anchor_lang::prelude::Pubkey;
use vstd::prelude::*;

verus! {

/// What `Pubkey::try_find_program_address` returns for the given seeds and
/// program identity: the derived address and the bump seed that led to it, or
/// `None` when no bump seed gives a valid address.
pub uninterp spec fn program_address_search(seeds: Seq<Seq<u8>>, program_id: Seq<u8>) -> Option<
    (Seq<u8>, u8),
>;

/// What `Pubkey::create_program_address` returns for the given seeds and
/// program identity: the derived address, or `None` when the seeds are
/// refused or the hash lands on the curve.
pub uninterp spec fn program_address_of(seeds: Seq<Seq<u8>>, program_id: Seq<u8>) -> Option<
    Seq<u8>,
>;

/// The byte sequences held by a list of seeds.
pub open spec fn seeds_view(seeds: Seq<Vec<u8>>) -> Seq<Seq<u8>> {
    Seq::new(seeds.len(), |i: int| seeds[i]@)
}

/// The domain tag that opens the seed list of a stock record: the bytes of
/// `Stock Account`.
pub open spec fn stock_tag() -> Seq<u8> {
    seq![83u8, 116u8, 111u8, 99u8, 107u8, 32u8, 65u8, 99u8, 99u8, 111u8, 117u8, 110u8, 116u8]
}

/// The seed list of a holder record: the stock record's address, then the
/// holder's identity.
pub open spec fn holder_seeds(stock_address: Seq<u8>, holder: Seq<u8>) -> Seq<Seq<u8>> {
    seq![stock_address, holder]
}

/// The seed list of a stock record: the domain tag, the issuer's identity and
/// the record's bump seed.
pub open spec fn stock_seeds(issuer: Seq<u8>, bump: u8) -> Seq<Seq<u8>> {
    seq![stock_tag(), issuer, seq![bump]]
}

/// A derived address, if there is one, by its bytes.
pub open spec fn address_view(made: Option<Address>) -> Option<Seq<u8>> {
    match made {
        Some(address) => Some(address@),
        None => None,
    }
}

/// A derived address and its bump seed, if there are any, with the address by
/// its bytes.
pub open spec fn search_view(found: Option<(Address, u8)>) -> Option<(Seq<u8>, u8)> {
    match found {
        Some((address, bump)) => Some((address@, bump)),
        None => None,
    }
}

/// The address and bump seed of the holder record of a (stock, holder) pair.
pub open spec fn holder_address_spec(
    stock_address: Address,
    holder: Address,
    program_id: Address,
) -> Option<(Seq<u8>, u8)> {
    program_address_search(holder_seeds(stock_address@, holder@), program_id@)
}

/// The address of the stock record of an issuer under a given bump seed.
pub open spec fn stock_address_spec(issuer: Address, bump: u8, program_id: Address) -> Option<
    Seq<u8>,
> {
    program_address_of(stock_seeds(issuer@, bump), program_id@)
}

/// Calls `Pubkey::try_find_program_address`. The contract names the result:
/// the call is a function of the seeds' bytes and the program identity's
/// bytes alone. Nothing is claimed about which address comes out.
#[verifier::external_body]
fn search_program_address(seeds: &Vec<Vec<u8>>, program_id: &Address) -> (found: Option<
    (Address, u8),
>)
    ensures
        search_view(found) == program_address_search(seeds_view(seeds@), program_id@),
{
    let parts: Vec<&[u8]> = seeds.iter().map(|seed| seed.as_slice()).collect();
    let program = Pubkey::new_from_array(program_id.bytes);
    match Pubkey::try_find_program_address(&parts, &program) {
        Some((key, bump)) => Some((Address { bytes: key.to_bytes() }, bump)),
        None => None,
    }
}

/// Calls `Pubkey::create_program_address`. The contract names the result:
/// the call is a function of the seeds' bytes and the program identity's
/// bytes alone. Every error of the call is reported as `None`.
#[verifier::external_body]
fn create_program_address(seeds: &Vec<Vec<u8>>, program_id: &Address) -> (made: Option<Address>)
    ensures
        address_view(made) == program_address_of(seeds_view(seeds@), program_id@),
{
    let parts: Vec<&[u8]> = seeds.iter().map(|seed| seed.as_slice()).collect();
    let program = Pubkey::new_from_array(program_id.bytes);
    match Pubkey::create_program_address(&parts, &program) {
        Ok(key) => Some(Address { bytes: key.to_bytes() }),
        Err(_) => None,
    }
}

/// The domain tag of a stock record as bytes.
fn stock_tag_bytes() -> (tag: Vec<u8>)
    ensures
        tag@ == stock_tag(),
{
    let mut tag: Vec<u8> = Vec::new();
    tag.push(83u8);
    tag.push(116u8);
    tag.push(111u8);
    tag.push(99u8);
    tag.push(107u8);
    tag.push(32u8);
    tag.push(65u8);
    tag.push(99u8);
    tag.push(99u8);
    tag.push(111u8);
    tag.push(117u8);
    tag.push(110u8);
    tag.push(116u8);
    assert(tag@ =~= stock_tag());
    tag
}

/// Derives the address and bump seed of the holder record of a
/// (stock, holder) pair. `None` means that the search for a bump seed was
/// exhausted.
pub fn find_holder_address(
    stock_address: &Address,
    holder: &Address,
    program_id: &Address,
) -> (found: Option<(Address, u8)>)
    ensures
        search_view(found) == holder_address_spec(*stock_address, *holder, *program_id),
{
    let mut seeds: Vec<Vec<u8>> = Vec::new();
    seeds.push(stock_address.to_vec());
    seeds.push(holder.to_vec());
    assert(seeds_view(seeds@) =~= holder_seeds(stock_address@, holder@));
    search_program_address(&seeds, program_id)
}

/// Derives the address of the stock record of an issuer under the bump seed
/// that the record holds. `None` means that the bump seed gives no valid
/// address.
pub fn stock_address_for(issuer: &Address, bump: u8, program_id: &Address) -> (made: Option<
    Address,
>)
    ensures
        address_view(made) == stock_address_spec(*issuer, bump, *program_id),
{
    let mut bump_seed: Vec<u8> = Vec::new();
    bump_seed.push(bump);
    let mut seeds: Vec<Vec<u8>> = Vec::new();
    seeds.push(stock_tag_bytes());
    seeds.push(issuer.to_vec());
    seeds.push(bump_seed);
    assert(seeds@[2]@ =~= seq![bump]);
    assert(seeds_view(seeds@) =~= stock_seeds(issuer@, bump));
    create_program_address(&seeds, program_id)
}

} // verus!
