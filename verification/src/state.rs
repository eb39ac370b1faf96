//! The records of a sale: the sale record, the whitelist entry and the
//! token account that holds the escrow.

use vstd::prelude::*;

use crate::address::Address;
use crate::error::ErrorCode;

verus! {

/// What a sale record says, as plain values.
pub struct SaleRecord {
    /// The seller's address.
    pub seller: Seq<u8>,
    /// The address of the token account that holds the tokens on sale.
    pub escrow: Seq<u8>,
    /// The price of one token, in native currency.
    pub unit_price: nat,
    /// The most tokens that one purchase may take.
    pub purchase_limit: nat,
}

impl SaleRecord {
    /// Only the seller named in the record may act for the sale.
    pub open spec fn authorize(self, caller: Seq<u8>) -> Result<(), ErrorCode> {
        if caller == self.seller {
            Ok(())
        } else {
            Err(ErrorCode::InvalidSellerAccount)
        }
    }

    /// The price of `number_of_tokens` tokens: refused above the purchase
    /// limit, and where the product does not fit in sixty-four bits.
    pub open spec fn quote(self, number_of_tokens: nat) -> Result<nat, ErrorCode> {
        if number_of_tokens > self.purchase_limit {
            Err(ErrorCode::PurchaseLimitExceeded)
        } else if self.unit_price * number_of_tokens > u64::MAX {
            Err(ErrorCode::ArithmeticOverflow)
        } else {
            Ok(self.unit_price * number_of_tokens)
        }
    }
}

/// The record of one seller's sale. It is written once, when the sale is
/// initialized, and never changed.
#[derive(Clone, Copy, Debug, PartialEq, Eq)]
pub struct TokenSale {
    pub seller_pubkey: Address,
    pub temp_token_account_pubkey: Address,
    pub per_token_price: u64,
    pub purchase_limit: u64,
}

impl View for TokenSale {
    type V = SaleRecord;

    open spec fn view(&self) -> SaleRecord {
        SaleRecord {
            seller: self.seller_pubkey@,
            escrow: self.temp_token_account_pubkey@,
            unit_price: self.per_token_price as nat,
            purchase_limit: self.purchase_limit as nat,
        }
    }
}

impl TokenSale {
    /// Bytes that a stored sale record takes: a tag of eight bytes, two
    /// addresses and two integers of eight bytes.
    pub const LEN: usize = 8 + 32 + 32 + 8 + 8;

    /// The record of a sale by `seller` of the tokens held at `escrow`.
    pub fn new(seller: Address, escrow: Address, per_token_price: u64, purchase_limit: u64) -> (sale:
        TokenSale)
        ensures
            sale@ == (SaleRecord {
                seller: seller@,
                escrow: escrow@,
                unit_price: per_token_price as nat,
                purchase_limit: purchase_limit as nat,
            }),
    {
        TokenSale {
            seller_pubkey: seller,
            temp_token_account_pubkey: escrow,
            per_token_price,
            purchase_limit,
        }
    }

    /// Checks that `caller` is the seller of this sale.
    pub fn authorize(&self, caller: &Address) -> (checked: Result<(), ErrorCode>)
        ensures
            checked == self@.authorize(caller@),
    {
        if *caller == self.seller_pubkey {
            Ok(())
        } else {
            Err(ErrorCode::InvalidSellerAccount)
        }
    }

    /// The price of `number_of_tokens` tokens.
    pub fn quote(&self, number_of_tokens: u64) -> (price: Result<u64, ErrorCode>)
        ensures
            match price {
                Ok(due) => self@.quote(number_of_tokens as nat) == Ok::<nat, ErrorCode>(due as nat),
                Err(error) => self@.quote(number_of_tokens as nat) == Err::<nat, ErrorCode>(error),
            },
    {
        if number_of_tokens > self.purchase_limit {
            return Err(ErrorCode::PurchaseLimitExceeded);
        }
        match self.per_token_price.checked_mul(number_of_tokens) {
            Some(due) => Ok(due),
            None => Err(ErrorCode::ArithmeticOverflow),
        }
    }
}

/// The grant that lets one buyer purchase from one sale. That the entry
/// exists is the grant; the flag it carries is always set.
#[derive(Clone, Copy, Debug, PartialEq, Eq)]
pub struct WhitelistData {
    is_whitelisted: bool,
}

impl View for WhitelistData {
    type V = bool;

    closed spec fn view(&self) -> bool {
        self.is_whitelisted
    }
}

impl WhitelistData {
    /// Bytes that a stored whitelist entry takes: a tag of eight bytes and
    /// the flag.
    pub const LEN: usize = 8 + 1;

    /// A grant.
    pub fn new() -> (entry: WhitelistData)
        ensures
            entry@,
    {
        WhitelistData { is_whitelisted: true }
    }

    /// An entry with the flag as it was stored.
    pub(crate) fn with_flag(flag: bool) -> (entry: WhitelistData)
        ensures
            entry@ == flag,
    {
        WhitelistData { is_whitelisted: flag }
    }

    /// The flag of the entry.
    pub fn is_whitelisted(&self) -> (flag: bool)
        ensures
            flag == self@,
    {
        self.is_whitelisted
    }
}

/// What a token account holds, as plain values.
pub struct Holding {
    /// The address that controls the account.
    pub authority: Seq<u8>,
    /// The tokens in the account.
    pub amount: nat,
    /// The native currency that backs the account's storage.
    pub deposit: nat,
}

/// A token account: a balance of tokens under one controlling authority,
/// with the deposit that pays for its storage.
#[derive(Clone, Copy, Debug, PartialEq, Eq)]
pub struct TokenAccount {
    pub authority: Address,
    pub amount: u64,
    pub deposit: u64,
}

impl View for TokenAccount {
    type V = Holding;

    open spec fn view(&self) -> Holding {
        Holding {
            authority: self.authority@,
            amount: self.amount as nat,
            deposit: self.deposit as nat,
        }
    }
}

} // verus!
