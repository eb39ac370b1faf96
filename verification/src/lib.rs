//! A fixed-price token sale held in escrow, with a seller-managed whitelist.
//!
//! A seller puts tokens into an escrow account and hands control of it to a
//! keyless authority derived from the sale itself. Buyers whom the seller
//! has whitelisted pay the seller in native currency and receive tokens
//! from the escrow in the same step. In the end the seller takes back what
//! is left and closes the escrow.
//!
//! * [`address`]: ledger addresses.
//! * [`pda`]: the derived addresses of a sale: its record, its authority
//!   and its whitelist entries.
//! * [`state`]: the records of a sale and the rules they carry.
//! * [`error`]: the errors and their classes.
//! * [`table`]: tables of records keyed by address.
//! * [`layout`]: how the records are stored.
//! * [`ledger`]: the ledger, as mathematics and in memory.
//! * [`accounts`]: the accounts handed to each operation.
//! * [`program`]: the operations `initialize`, `whitelist`, `buy_token`
//!   and `end_sale`.
//! * [`instruction`]: the instructions as they arrive.
//! * [`laws`]: what holds of every sale.

pub mod accounts;
pub mod address;
pub mod error;
pub mod instruction;
pub mod laws;
pub mod layout;
pub mod ledger;
pub mod pda;
pub mod program;
pub mod state;
pub mod table;
