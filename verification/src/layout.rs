//! How the records of a sale are stored: a tag of eight bytes that tells
//! the kind of record, then the fields in order, addresses as their
//! thirty-two bytes and integers as eight bytes with the lowest first.

use vstd::bytes::{
    lemma_auto_spec_u64_to_from_le_bytes, spec_u64_from_le_bytes, spec_u64_to_le_bytes,
    u64_from_le_bytes, u64_to_le_bytes,
};
use vstd::prelude::*;
use vstd::slice::slice_subrange;

use crate::address::Address;
use crate::state::{SaleRecord, TokenSale, WhitelistData};

verus! {

/// The tag of stored sale records: the first eight bytes of the SHA-256
/// digest of `account:TokenSale`.
pub open spec fn sale_tag() -> Seq<u8> {
    seq![124u8, 108u8, 99u8, 6u8, 247u8, 132u8, 120u8, 233u8]
}

/// The tag of stored whitelist entries: the first eight bytes of the
/// SHA-256 digest of `account:WhitelistData`.
pub open spec fn grant_tag() -> Seq<u8> {
    seq![207u8, 148u8, 73u8, 52u8, 7u8, 221u8, 40u8, 3u8]
}

/// The stored form of a sale record.
pub open spec fn encode_sale(sale: TokenSale) -> Seq<u8> {
    sale_tag() + sale.seller_pubkey@ + sale.temp_token_account_pubkey@ + spec_u64_to_le_bytes(
        sale.per_token_price,
    ) + spec_u64_to_le_bytes(sale.purchase_limit)
}

/// The sale record that `bytes` store, if they store one: they must be
/// eighty-eight and begin with the tag of sale records.
pub open spec fn decode_sale(bytes: Seq<u8>) -> Option<SaleRecord> {
    if bytes.len() == 88 && bytes.subrange(0, 8) == sale_tag() {
        Some(
            SaleRecord {
                seller: bytes.subrange(8, 40),
                escrow: bytes.subrange(40, 72),
                unit_price: spec_u64_from_le_bytes(bytes.subrange(72, 80)) as nat,
                purchase_limit: spec_u64_from_le_bytes(bytes.subrange(80, 88)) as nat,
            },
        )
    } else {
        None
    }
}

/// The stored form of a whitelist entry.
pub open spec fn encode_grant(entry: WhitelistData) -> Seq<u8> {
    grant_tag().push(
        if entry@ {
            1u8
        } else {
            0u8
        },
    )
}

/// The flag of the whitelist entry that `bytes` store, if they store one:
/// they must be nine, begin with the tag of whitelist entries and end in
/// zero or one.
pub open spec fn decode_grant(bytes: Seq<u8>) -> Option<bool> {
    if bytes.len() == 9 && bytes.subrange(0, 8) == grant_tag() && bytes[8] <= 1 {
        Some(bytes[8] == 1)
    } else {
        None
    }
}

/// A stored sale record reads back as the record that was stored.
pub proof fn lemma_sale_reads_back(sale: TokenSale)
    ensures
        encode_sale(sale).len() == TokenSale::LEN,
        decode_sale(encode_sale(sale)) == Some(sale@),
{
    lemma_auto_spec_u64_to_from_le_bytes();
    let bytes = encode_sale(sale);
    assert(bytes.subrange(0, 8) =~= sale_tag());
    assert(bytes.subrange(8, 40) =~= sale.seller_pubkey@);
    assert(bytes.subrange(40, 72) =~= sale.temp_token_account_pubkey@);
    assert(bytes.subrange(72, 80) =~= spec_u64_to_le_bytes(sale.per_token_price));
    assert(bytes.subrange(80, 88) =~= spec_u64_to_le_bytes(sale.purchase_limit));
}

/// Bytes that store a sale record are the stored form of that record.
pub proof fn lemma_sale_is_stored_one_way(bytes: Seq<u8>, sale: TokenSale)
    requires
        decode_sale(bytes) == Some(sale@),
    ensures
        encode_sale(sale) == bytes,
{
    lemma_auto_spec_u64_to_from_le_bytes();
    let price = bytes.subrange(72, 80);
    let limit = bytes.subrange(80, 88);
    assert(spec_u64_to_le_bytes(spec_u64_from_le_bytes(price)) == price);
    assert(spec_u64_to_le_bytes(spec_u64_from_le_bytes(limit)) == limit);
    assert(encode_sale(sale) =~= bytes.subrange(0, 8) + bytes.subrange(8, 40) + bytes.subrange(40, 72)
        + price + limit);
    assert(bytes =~= bytes.subrange(0, 8) + bytes.subrange(8, 40) + bytes.subrange(40, 72) + price
        + limit);
}

/// A stored whitelist entry reads back with its flag.
pub proof fn lemma_grant_reads_back(entry: WhitelistData)
    ensures
        encode_grant(entry).len() == WhitelistData::LEN,
        decode_grant(encode_grant(entry)) == Some(entry@),
{
    assert(encode_grant(entry).subrange(0, 8) =~= grant_tag());
}

/// Whether `bytes` begin with `tag`.
fn begins_with(bytes: &[u8], tag: &Vec<u8>) -> (begins: bool)
    ensures
        begins == (bytes@.len() >= tag@.len() && bytes@.subrange(0, tag@.len() as int) == tag@),
{
    if bytes.len() < tag.len() {
        return false;
    }
    let mut i: usize = 0;
    while i < tag.len()
        invariant
            i <= tag@.len() <= bytes@.len(),
            forall|j: int| 0 <= j < i ==> bytes@[j] == tag@[j],
        decreases tag.len() - i,
    {
        if bytes[i] != tag[i] {
            assert(bytes@.subrange(0, tag@.len() as int)[i as int] != tag@[i as int]);
            return false;
        }
        i += 1;
    }
    assert(bytes@.subrange(0, tag@.len() as int) =~= tag@);
    true
}

fn sale_tag_bytes() -> (tag: Vec<u8>)
    ensures
        tag@ == sale_tag(),
{
    vec![124u8, 108u8, 99u8, 6u8, 247u8, 132u8, 120u8, 233u8]
}

fn grant_tag_bytes() -> (tag: Vec<u8>)
    ensures
        tag@ == grant_tag(),
{
    vec![207u8, 148u8, 73u8, 52u8, 7u8, 221u8, 40u8, 3u8]
}

impl TokenSale {
    /// The stored form of the record.
    pub fn to_bytes(&self) -> (bytes: Vec<u8>)
        ensures
            bytes@ == encode_sale(*self),
            bytes@.len() == TokenSale::LEN,
    {
        let mut bytes = sale_tag_bytes();
        let mut seller = self.seller_pubkey.to_vec();
        let mut escrow = self.temp_token_account_pubkey.to_vec();
        let mut price = u64_to_le_bytes(self.per_token_price);
        let mut limit = u64_to_le_bytes(self.purchase_limit);
        bytes.append(&mut seller);
        bytes.append(&mut escrow);
        bytes.append(&mut price);
        bytes.append(&mut limit);
        bytes
    }

    /// The record that `bytes` store, if they store one.
    pub fn from_bytes(bytes: &[u8]) -> (sale: Option<TokenSale>)
        ensures
            match sale {
                Some(found) => decode_sale(bytes@) == Some(found@),
                None => decode_sale(bytes@) is None,
            },
    {
        if bytes.len() != 88 || !begins_with(bytes, &sale_tag_bytes()) {
            return None;
        }
        let seller = Address::from_slice(slice_subrange(bytes, 8, 40));
        let escrow = Address::from_slice(slice_subrange(bytes, 40, 72));
        match (seller, escrow) {
            (Some(seller), Some(escrow)) => Some(
                TokenSale {
                    seller_pubkey: seller,
                    temp_token_account_pubkey: escrow,
                    per_token_price: u64_from_le_bytes(slice_subrange(bytes, 72, 80)),
                    purchase_limit: u64_from_le_bytes(slice_subrange(bytes, 80, 88)),
                },
            ),
            _ => None,
        }
    }
}

impl WhitelistData {
    /// The stored form of the entry.
    pub fn to_bytes(&self) -> (bytes: Vec<u8>)
        ensures
            bytes@ == encode_grant(*self),
            bytes@.len() == WhitelistData::LEN,
    {
        let mut bytes = grant_tag_bytes();
        bytes.push(if self.is_whitelisted() { 1 } else { 0 });
        bytes
    }

    /// The entry that `bytes` store, if they store one.
    pub fn from_bytes(bytes: &[u8]) -> (entry: Option<WhitelistData>)
        ensures
            match entry {
                Some(found) => decode_grant(bytes@) == Some(found@),
                None => decode_grant(bytes@) is None,
            },
    {
        if bytes.len() != 9 || !begins_with(bytes, &grant_tag_bytes()) || bytes[8] > 1 {
            return None;
        }
        Some(WhitelistData::with_flag(bytes[8] == 1))
    }
}

} // verus!
