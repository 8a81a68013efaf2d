//! Derived addresses. A record is stored at the address derived from its
//! owner and its id, and the protocol's authority is the address derived from
//! a fixed label. The derivation itself is `solana_program`'s; this module
//! builds the seeds and names the results.

use crate::address::Address;
use anchor_lang::solana_program::pubkey::Pubkey;
use vstd::bytes::{spec_u64_to_le_bytes, u64_to_le_bytes};
use vstd::prelude::*;

verus! {

/// What `Pubkey::create_program_address` returns for the given seeds and
/// program id, as bytes; `None` where it returns an error.
pub uninterp spec fn program_address(seeds: Seq<Seq<u8>>, program_id: Seq<u8>) -> Option<Seq<u8>>;

/// What `Pubkey::try_find_program_address` returns for the given seeds and
/// program id: the address as bytes, and the derivation tag it was found with.
pub uninterp spec fn canonical_program_address(seeds: Seq<Seq<u8>>, program_id: Seq<u8>) -> Option<
    (Seq<u8>, u8),
>;

/// The seeds as sequences of bytes.
pub open spec fn seeds_view(seeds: Seq<Vec<u8>>) -> Seq<Seq<u8>> {
    Seq::new(seeds.len(), |i: int| seeds[i]@)
}

/// The bytes of an address, if there is one.
pub open spec fn bytes_of(address: Option<Address>) -> Option<Seq<u8>> {
    match address {
        Some(a) => Some(a@),
        None => None,
    }
}

/// The bytes of an address and its tag, if there is one.
pub open spec fn tagged_bytes_of(found: Option<(Address, u8)>) -> Option<(Seq<u8>, u8)> {
    match found {
        Some((a, tag)) => Some((a@, tag)),
        None => None,
    }
}

/// Calls `Pubkey::create_program_address`. Not verified: the result is taken
/// to be a function of the seeds and the program id alone, and an error of
/// the outside function is handed on as `None`.
#[verifier::external_body]
fn create_program_address(seeds: &Vec<Vec<u8>>, program_id: &Address) -> (r: Option<Address>)
    ensures
        bytes_of(r) == program_address(seeds_view(seeds@), program_id@),
{
    let parts: Vec<&[u8]> = seeds.iter().map(|s| s.as_slice()).collect();
    let id = Pubkey::new_from_array(program_id.bytes);
    match Pubkey::create_program_address(&parts, &id) {
        Ok(key) => Some(Address { bytes: key.to_bytes() }),
        Err(_) => None,
    }
}

/// Calls `Pubkey::try_find_program_address`. Not verified: the result is
/// taken to be a function of the seeds and the program id alone, and an
/// address that it finds is the one that `Pubkey::create_program_address`
/// gives for the same seeds followed by the one-byte seed holding the tag.
#[verifier::external_body]
fn try_find_program_address(seeds: &Vec<Vec<u8>>, program_id: &Address) -> (r: Option<
    (Address, u8),
>)
    ensures
        tagged_bytes_of(r) == canonical_program_address(seeds_view(seeds@), program_id@),
        r matches Some((a, tag)) ==> program_address(
            seeds_view(seeds@).push(seq![tag]),
            program_id@,
        ) == Some(a@),
{
    let parts: Vec<&[u8]> = seeds.iter().map(|s| s.as_slice()).collect();
    let id = Pubkey::new_from_array(program_id.bytes);
    match Pubkey::try_find_program_address(&parts, &id) {
        Some((key, tag)) => Some((Address { bytes: key.to_bytes() }, tag)),
        None => None,
    }
}

/// The label under which intent records are addressed: the ASCII text `intent`.
pub open spec fn intent_label() -> Seq<u8> {
    seq![105u8, 110u8, 116u8, 101u8, 110u8, 116u8]
}

/// The label from which the protocol's authority is derived: the ASCII text
/// `intent_authority`.
pub open spec fn authority_label() -> Seq<u8> {
    seq![
        105u8, 110u8, 116u8, 101u8, 110u8, 116u8, 95u8, 97u8, 117u8, 116u8, 104u8, 111u8, 114u8,
        105u8, 116u8, 121u8,
    ]
}

/// The seeds of the record of `owner` with id `intent_id`: the label, the
/// owner's bytes, and the id in little-endian order.
pub open spec fn intent_seeds(owner: Address, intent_id: u64) -> Seq<Seq<u8>> {
    seq![intent_label(), owner@, spec_u64_to_le_bytes(intent_id)]
}

/// The seeds of the protocol's authority: the label alone.
pub open spec fn authority_seeds() -> Seq<Seq<u8>> {
    seq![authority_label()]
}

/// The address with the given bytes.
pub open spec fn address_of(bytes: Seq<u8>) -> Address {
    choose|a: Address| a@ == bytes
}

/// The address of a derivation result, if there is one.
pub open spec fn derived(result: Option<Seq<u8>>) -> Option<Address> {
    match result {
        Some(bytes) => Some(address_of(bytes)),
        None => None,
    }
}

/// The address and tag of a derivation result, if there is one.
pub open spec fn derived_with_tag(result: Option<(Seq<u8>, u8)>) -> Option<(Address, u8)> {
    match result {
        Some((bytes, tag)) => Some((address_of(bytes), tag)),
        None => None,
    }
}

/// The canonical address of the record of `owner` with id `intent_id` in the
/// deployment `program_id`, and the derivation tag that goes with it.
pub open spec fn intent_address(program_id: Address, owner: Address, intent_id: u64) -> Option<
    (Address, u8),
> {
    derived_with_tag(canonical_program_address(intent_seeds(owner, intent_id), program_id@))
}

/// The address that the record's seeds give together with the tag `bump`.
pub open spec fn intent_address_with(
    program_id: Address,
    owner: Address,
    intent_id: u64,
    bump: u8,
) -> Option<Address> {
    derived(program_address(intent_seeds(owner, intent_id).push(seq![bump]), program_id@))
}

/// The canonical address of the protocol's authority in the deployment
/// `program_id`, and its derivation tag.
pub open spec fn authority_address(program_id: Address) -> Option<(Address, u8)> {
    derived_with_tag(canonical_program_address(authority_seeds(), program_id@))
}

/// An address is the address of its own bytes.
pub proof fn lemma_address_of(a: Address)
    ensures
        address_of(a@) == a,
{
    Address::lemma_view_injective(address_of(a@), a);
}

fn intent_label_bytes() -> (r: Vec<u8>)
    ensures
        r@ == intent_label(),
{
    let r: Vec<u8> = vec![105u8, 110u8, 116u8, 101u8, 110u8, 116u8];
    assert(r@ =~= intent_label());
    r
}

fn authority_label_bytes() -> (r: Vec<u8>)
    ensures
        r@ == authority_label(),
{
    let r: Vec<u8> = vec![
        105u8, 110u8, 116u8, 101u8, 110u8, 116u8, 95u8, 97u8, 117u8, 116u8, 104u8, 111u8, 114u8,
        105u8, 116u8, 121u8,
    ];
    assert(r@ =~= authority_label());
    r
}

fn address_bytes(address: &Address) -> (r: Vec<u8>)
    ensures
        r@ == address@,
{
    let mut r: Vec<u8> = Vec::new();
    let mut i: usize = 0;
    while i < 32
        invariant
            i <= 32,
            r@.len() == i,
            forall|j: int| 0 <= j < i ==> r@[j] == address.bytes[j],
        decreases 32 - i,
    {
        r.push(address.bytes[i]);
        i += 1;
    }
    assert(r@ =~= address@);
    r
}

fn intent_seed_bytes(owner: &Address, intent_id: u64) -> (r: Vec<Vec<u8>>)
    ensures
        seeds_view(r@) == intent_seeds(*owner, intent_id),
{
    let mut r: Vec<Vec<u8>> = Vec::new();
    r.push(intent_label_bytes());
    r.push(address_bytes(owner));
    r.push(u64_to_le_bytes(intent_id));
    assert(seeds_view(r@) =~= intent_seeds(*owner, intent_id));
    r
}

/// Derives the canonical address of the record of `owner` with id
/// `intent_id`, and the tag that goes with it. The address found is the one
/// that the same seeds give together with that tag.
pub fn find_intent_address(program_id: &Address, owner: &Address, intent_id: u64) -> (r: Option<
    (Address, u8),
>)
    ensures
        r == intent_address(*program_id, *owner, intent_id),
        r matches Some((a, tag)) ==> intent_address_with(*program_id, *owner, intent_id, tag)
            == Some(a),
{
    let seeds = intent_seed_bytes(owner, intent_id);
    let r = try_find_program_address(&seeds, program_id);
    proof {
        if let Some((a, _)) = r {
            lemma_address_of(a);
        }
    }
    r
}

/// Derives the address that the seeds of the record of `owner` with id
/// `intent_id` give together with the stored tag `bump`.
pub fn intent_address_with_bump(
    program_id: &Address,
    owner: &Address,
    intent_id: u64,
    bump: u8,
) -> (r: Option<Address>)
    ensures
        r == intent_address_with(*program_id, *owner, intent_id, bump),
{
    let mut seeds = intent_seed_bytes(owner, intent_id);
    let ghost before = seeds@;
    let mut tag: Vec<u8> = Vec::new();
    tag.push(bump);
    seeds.push(tag);
    assert(tag@ =~= seq![bump]);
    assert(seeds_view(seeds@) =~= seeds_view(before).push(seq![bump]));
    let r = create_program_address(&seeds, program_id);
    proof {
        if let Some(a) = r {
            lemma_address_of(a);
        }
    }
    r
}

/// Derives the protocol's authority: its address and its tag.
pub fn find_authority(program_id: &Address) -> (r: Option<(Address, u8)>)
    ensures
        r == authority_address(*program_id),
{
    let mut seeds: Vec<Vec<u8>> = Vec::new();
    seeds.push(authority_label_bytes());
    assert(seeds_view(seeds@) =~= authority_seeds());
    let r = try_find_program_address(&seeds, program_id);
    proof {
        if let Some((a, _)) = r {
            lemma_address_of(a);
        }
    }
    r
}

} // verus!
