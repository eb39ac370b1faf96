//! Program-derived addresses: keyless addresses that the program alone can
//! authorize as, found again from their seeds whenever they are needed.

use anchor_lang::prelude::Pubkey;
use vstd::prelude::*;

use crate::address::Address;

verus! {

/// A derived address with the bump seed that made it keyless.
#[derive(Clone, Copy, Debug, PartialEq, Eq)]
pub struct Pda {
    pub address: Address,
    pub bump: u8,
}

impl View for Pda {
    type V = (Seq<u8>, u8);

    open spec fn view(&self) -> (Seq<u8>, u8) {
        (self.address@, self.bump)
    }
}

/// The address and bump seed derived from `seeds` under `program_id`, or
/// `None` where no bump seed gives a keyless address.
pub uninterp spec fn program_address(seeds: Seq<Seq<u8>>, program_id: Seq<u8>) -> Option<(Seq<u8>, u8)>;

/// Whether `address` is a point of the curve on which key pairs lie. An
/// address on the curve may have a private key; an address off it has none.
pub uninterp spec fn on_curve(address: Seq<u8>) -> bool;

/// The seeds of a derivation as sequences of bytes.
pub open spec fn seeds_view(seeds: Seq<Vec<u8>>) -> Seq<Seq<u8>> {
    seeds.map_values(|seed: Vec<u8>| seed@)
}

/// The outcome of a derivation as plain values.
pub open spec fn found_view(found: Option<Pda>) -> Option<(Seq<u8>, u8)> {
    match found {
        Some(pda) => Some(pda@),
        None => None,
    }
}

/// The derived address alone, without its bump seed.
pub open spec fn address_of(found: Option<(Seq<u8>, u8)>) -> Option<Seq<u8>> {
    match found {
        Some((address, _)) => Some(address),
        None => None,
    }
}

/// Whether a derivation, where it gave an address, gave one off the curve.
pub open spec fn keyless(found: Option<Pda>) -> bool {
    found matches Some(pda) ==> !on_curve(pda.address@)
}

/// Calls `Pubkey::is_on_curve`, which tells whether the bytes decompress to
/// a point of the curve. The contract claims only that the answer is a
/// function of the bytes.
#[verifier::external_body]
fn pubkey_is_on_curve(address: &Address) -> (on: bool)
    ensures
        on == on_curve(address@),
{
    Pubkey::new_from_array(address.bytes).is_on_curve()
}

/// Calls `Pubkey::try_find_program_address`, which searches the bump seeds
/// from 255 downwards for the first one whose hash with `seeds` and
/// `program_id` is not a point of the curve, and gives `None` where there
/// is none, or where the seeds are too many or too long. The contract
/// claims that the outcome is a function of the seeds and the program id,
/// and that an address that comes out is off the curve.
#[verifier::external_body]
fn try_find_program_address(seeds: &Vec<Vec<u8>>, program_id: &Address) -> (found: Option<Pda>)
    ensures
        found_view(found) == program_address(seeds_view(seeds@), program_id@),
        keyless(found),
{
    let parts: Vec<&[u8]> = seeds.iter().map(|seed| seed.as_slice()).collect();
    let found = Pubkey::try_find_program_address(&parts, &Pubkey::new_from_array(program_id.bytes));
    found.map(|(key, bump)| Pda { address: Address { bytes: key.to_bytes() }, bump })
}

/// Whether `address` lies on the curve, and so may have a private key.
pub fn is_on_curve(address: &Address) -> (on: bool)
    ensures
        on == on_curve(address@),
{
    pubkey_is_on_curve(address)
}

/// Derives the address for `seeds` under `program_id`.
pub fn find_program_address(seeds: &Vec<Vec<u8>>, program_id: &Address) -> (found: Option<Pda>)
    ensures
        found_view(found) == program_address(seeds_view(seeds@), program_id@),
        keyless(found),
{
    try_find_program_address(seeds, program_id)
}

/// The address of the sale program.
pub open spec fn program_id() -> Seq<u8> {
    seq![
        246u8, 56u8, 212u8, 149u8, 37u8, 128u8, 198u8, 41u8, 142u8, 60u8, 251u8, 32u8, 250u8, 18u8,
        87u8, 185u8, 25u8, 6u8, 3u8, 46u8, 116u8, 203u8, 219u8, 88u8, 241u8, 115u8, 254u8, 152u8,
        10u8, 86u8, 140u8, 112u8,
    ]
}

/// The address of the sale program.
pub fn id() -> (id: Address)
    ensures
        id@ == program_id(),
{
    let id = Address::new(
        [
            246u8, 56u8, 212u8, 149u8, 37u8, 128u8, 198u8, 41u8, 142u8, 60u8, 251u8, 32u8, 250u8,
            18u8, 87u8, 185u8, 25u8, 6u8, 3u8, 46u8, 116u8, 203u8, 219u8, 88u8, 241u8, 115u8, 254u8,
            152u8, 10u8, 86u8, 140u8, 112u8,
        ],
    );
    assert(id@ =~= program_id());
    id
}

/// Whether `id` is the address of the sale program.
pub fn check_id(id: &Address) -> (same: bool)
    ensures
        same == (id@ == program_id()),
{
    *id == self::id()
}

/// The label of sale records, `token_sale` in ASCII.
pub open spec fn sale_label() -> Seq<u8> {
    seq![116u8, 111u8, 107u8, 101u8, 110u8, 95u8, 115u8, 97u8, 108u8, 101u8]
}

/// The label of escrow authorities, `authority` in ASCII.
pub open spec fn authority_label() -> Seq<u8> {
    seq![97u8, 117u8, 116u8, 104u8, 111u8, 114u8, 105u8, 116u8, 121u8]
}

/// The label of whitelist entries, `buyer_whitelist` in ASCII.
pub open spec fn whitelist_label() -> Seq<u8> {
    seq![
        98u8, 117u8, 121u8, 101u8, 114u8, 95u8, 119u8, 104u8, 105u8, 116u8, 101u8, 108u8, 105u8,
        115u8, 116u8,
    ]
}

/// Where the sale record of `seller` lives.
pub open spec fn sale_pda(seller: Seq<u8>, program_id: Seq<u8>) -> Option<(Seq<u8>, u8)> {
    program_address(seq![sale_label(), seller], program_id)
}

/// The delegated authority over the escrow of the sale recorded at `sale`.
pub open spec fn authority_pda(sale: Seq<u8>, program_id: Seq<u8>) -> Option<(Seq<u8>, u8)> {
    program_address(seq![authority_label(), sale], program_id)
}

/// Where the whitelist entry of `buyer` for the sale recorded at `sale` lives.
pub open spec fn whitelist_pda(sale: Seq<u8>, buyer: Seq<u8>, program_id: Seq<u8>) -> Option<
    (Seq<u8>, u8),
> {
    program_address(seq![whitelist_label(), sale, buyer], program_id)
}

fn sale_label_bytes() -> (label: Vec<u8>)
    ensures
        label@ == sale_label(),
{
    vec![116u8, 111u8, 107u8, 101u8, 110u8, 95u8, 115u8, 97u8, 108u8, 101u8]
}

fn authority_label_bytes() -> (label: Vec<u8>)
    ensures
        label@ == authority_label(),
{
    vec![97u8, 117u8, 116u8, 104u8, 111u8, 114u8, 105u8, 116u8, 121u8]
}

fn whitelist_label_bytes() -> (label: Vec<u8>)
    ensures
        label@ == whitelist_label(),
{
    vec![
        98u8, 117u8, 121u8, 101u8, 114u8, 95u8, 119u8, 104u8, 105u8, 116u8, 101u8, 108u8, 105u8,
        115u8, 116u8,
    ]
}

/// Derives the address of the sale record of `seller`.
pub fn find_sale_address(seller: &Address, program_id: &Address) -> (found: Option<Pda>)
    ensures
        found_view(found) == sale_pda(seller@, program_id@),
        keyless(found),
{
    let mut seeds: Vec<Vec<u8>> = Vec::new();
    seeds.push(sale_label_bytes());
    seeds.push(seller.to_vec());
    assert(seeds_view(seeds@) =~= seq![sale_label(), seller@]);
    try_find_program_address(&seeds, program_id)
}

/// Derives the delegated authority of the sale recorded at `sale`.
pub fn find_sale_authority(sale: &Address, program_id: &Address) -> (found: Option<Pda>)
    ensures
        found_view(found) == authority_pda(sale@, program_id@),
        keyless(found),
{
    let mut seeds: Vec<Vec<u8>> = Vec::new();
    seeds.push(authority_label_bytes());
    seeds.push(sale.to_vec());
    assert(seeds_view(seeds@) =~= seq![authority_label(), sale@]);
    try_find_program_address(&seeds, program_id)
}

/// Derives the address of the whitelist entry of `buyer` for the sale
/// recorded at `sale`.
pub fn find_whitelist_address(sale: &Address, buyer: &Address, program_id: &Address) -> (found:
    Option<Pda>)
    ensures
        found_view(found) == whitelist_pda(sale@, buyer@, program_id@),
        keyless(found),
{
    let mut seeds: Vec<Vec<u8>> = Vec::new();
    seeds.push(whitelist_label_bytes());
    seeds.push(sale.to_vec());
    seeds.push(buyer.to_vec());
    assert(seeds_view(seeds@) =~= seq![whitelist_label(), sale@, buyer@]);
    try_find_program_address(&seeds, program_id)
}

} // verus!
