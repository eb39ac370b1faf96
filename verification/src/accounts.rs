//! The accounts that each operation of the sale is handed. Each names the
//! caller and the addresses that the operation is to work on; the operation
//! checks every one of them against the ledger before it changes anything.

use vstd::prelude::*;

use crate::address::Address;

verus! {

/// The accounts of `initialize`.
#[derive(Clone, Copy, Debug)]
pub struct InitializeTokenSale {
    /// The caller, who becomes the seller.
    pub seller: Address,
    /// The token account that holds the tokens on sale.
    pub temp_token_account: Address,
    /// Where the sale record is to be written.
    pub token_sale_account: Address,
    /// The delegated authority that is to control the escrow.
    pub token_sale_token_acct_authority: Address,
}

/// The accounts of `whitelist`.
#[derive(Clone, Copy, Debug)]
pub struct Whitelist {
    /// The caller.
    pub seller: Address,
    /// The buyer to admit.
    pub buyer: Address,
    /// The sale record.
    pub token_sale_account: Address,
    /// Where the whitelist entry is to be written.
    pub buyer_whitelist_account: Address,
}

/// The accounts of `buy_token`.
#[derive(Clone, Copy, Debug)]
pub struct BuyToken {
    /// The caller, who pays.
    pub buyer: Address,
    /// The seller, who is paid.
    pub seller: Address,
    /// The whitelist entry of the buyer.
    pub buyer_whitelist_account: Address,
    /// The escrow of the sale.
    pub temp_token_account: Address,
    /// The token account of the buyer, which receives the tokens.
    pub buyer_token_account: Address,
    /// The sale record.
    pub token_sale_account: Address,
    /// The delegated authority that controls the escrow.
    pub token_sale_token_acct_authority: Address,
}

/// The accounts of `end_sale`.
#[derive(Clone, Copy, Debug)]
pub struct EndSale {
    /// The caller.
    pub seller: Address,
    /// The token account of the seller, which receives what is left.
    pub seller_token_account: Address,
    /// The escrow of the sale.
    pub temp_token_account: Address,
    /// The sale record.
    pub token_sale_account: Address,
    /// The delegated authority that controls the escrow.
    pub token_sale_token_acct_authority: Address,
}

} // verus!
