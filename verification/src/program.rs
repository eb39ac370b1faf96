//! The four operations of a sale. Each one resolves its accounts against
//! the ledger, and only when every check has passed does it change the
//! ledger; an operation that fails has changed nothing.
//!
//! Every operation comes in two layers. The function that takes the derived
//! addresses as arguments says exactly what happens for every outcome of
//! the derivations; the function without them derives the addresses and
//! hands them on.

use vstd::prelude::*;

use crate::accounts::{BuyToken, EndSale, InitializeTokenSale, Whitelist};
use crate::address::Address;
use crate::error::ErrorCode;
use crate::ledger::{carried_out, Ledger, LedgerState};
use crate::pda::{
    address_of, authority_pda, find_sale_address, find_sale_authority, find_whitelist_address,
    found_view, on_curve, sale_pda, whitelist_pda, Pda,
};
use crate::state::{Holding, SaleRecord, TokenAccount, TokenSale};

verus! {

/// The address that a derivation gave, if it gave one.
pub open spec fn derived(found: Option<Pda>) -> Option<Seq<u8>> {
    address_of(found_view(found))
}

/// The escrow of a sale that is still running: the token account named in
/// `record`, which must exist and be controlled by `authority`.
pub open spec fn active_escrow(state: LedgerState, record: SaleRecord, authority: Option<Seq<u8>>) -> Result<
    Holding,
    ErrorCode,
> {
    if !state.holdings.contains_key(record.escrow) {
        Err(ErrorCode::SaleEnded)
    } else if authority is None {
        Err(ErrorCode::DerivationFailed)
    } else if state.holdings[record.escrow].authority != authority->0 {
        Err(ErrorCode::InvalidAuthority)
    } else {
        Ok(state.holdings[record.escrow])
    }
}

/// Where a sale stands in its life.
#[derive(Clone, Copy, Debug, PartialEq, Eq, Structural)]
pub enum Phase {
    /// No sale record has been written.
    Uninitialized,
    /// The sale is running: the delegated authority controls the escrow.
    Active,
    /// The sale is over: the escrow is closed, or out of the delegated
    /// authority's hands.
    Ended,
}

/// The phase of the sale recorded at `sale`, given its derived authority.
pub open spec fn phase_step(state: LedgerState, sale: Seq<u8>, authority: Option<Seq<u8>>) -> Phase {
    if !state.sales.contains_key(sale) {
        Phase::Uninitialized
    } else if active_escrow(state, state.sales[sale], authority) is Ok {
        Phase::Active
    } else {
        Phase::Ended
    }
}

/// The phase of the sale recorded at `sale`.
pub open spec fn phase_spec(state: LedgerState, sale: Seq<u8>) -> Phase {
    phase_step(state, sale, address_of(authority_pda(sale, state.program_id)))
}

/// What `initialize` does, given the derived address of the seller's sale
/// record and the derived authority of that sale.
pub open spec fn initialize_step(
    state: LedgerState,
    ctx: InitializeTokenSale,
    per_token_price: u64,
    purchase_limit: u64,
    sale: Option<Seq<u8>>,
    authority: Option<Seq<u8>>,
) -> Result<LedgerState, ErrorCode> {
    if sale is None {
        Err(ErrorCode::DerivationFailed)
    } else if state.sales.contains_key(sale->0) {
        Err(ErrorCode::AlreadyInitialized)
    } else if ctx.token_sale_account@ != sale->0 {
        Err(ErrorCode::AddressMismatch)
    } else if authority is None {
        Err(ErrorCode::DerivationFailed)
    } else if ctx.token_sale_token_acct_authority@ != authority->0 {
        Err(ErrorCode::AddressMismatch)
    } else {
        state.record_sale(
            sale->0,
            SaleRecord {
                seller: ctx.seller@,
                escrow: ctx.temp_token_account@,
                unit_price: per_token_price as nat,
                purchase_limit: purchase_limit as nat,
            },
        ).set_authority(ctx.temp_token_account@, ctx.seller@, authority->0)
    }
}

/// What `whitelist` does, given the derived authority of the sale and the
/// derived address of the buyer's entry.
pub open spec fn whitelist_step(
    state: LedgerState,
    ctx: Whitelist,
    authority: Option<Seq<u8>>,
    entry: Option<Seq<u8>>,
) -> Result<LedgerState, ErrorCode> {
    if !state.sales.contains_key(ctx.token_sale_account@) {
        Err(ErrorCode::SaleNotInitialized)
    } else {
        let record = state.sales[ctx.token_sale_account@];
        if record.authorize(ctx.seller@) is Err {
            Err(ErrorCode::InvalidSellerAccount)
        } else if active_escrow(state, record, authority) is Err {
            Err(active_escrow(state, record, authority)->Err_0)
        } else if entry is None {
            Err(ErrorCode::DerivationFailed)
        } else if ctx.buyer_whitelist_account@ != entry->0 {
            Err(ErrorCode::AddressMismatch)
        } else if state.whitelist.contains_key(entry->0) {
            Err(ErrorCode::AlreadyWhitelisted)
        } else {
            Ok(state.record_grant(entry->0))
        }
    }
}

/// What `buy_token` does, given the derived address of the buyer's entry
/// and the derived authority of the sale.
pub open spec fn buy_token_step(
    state: LedgerState,
    ctx: BuyToken,
    number_of_tokens: u64,
    entry: Option<Seq<u8>>,
    authority: Option<Seq<u8>>,
) -> Result<LedgerState, ErrorCode> {
    if !state.sales.contains_key(ctx.token_sale_account@) {
        Err(ErrorCode::SaleNotInitialized)
    } else {
        let record = state.sales[ctx.token_sale_account@];
        if entry is None {
            Err(ErrorCode::DerivationFailed)
        } else if ctx.buyer_whitelist_account@ != entry->0 {
            Err(ErrorCode::AddressMismatch)
        } else if !state.whitelist.contains_key(entry->0) {
            Err(ErrorCode::NotWhitelisted)
        } else if record.authorize(ctx.seller@) is Err {
            Err(ErrorCode::InvalidSellerAccount)
        } else if record.quote(number_of_tokens as nat) is Err {
            Err(record.quote(number_of_tokens as nat)->Err_0)
        } else if ctx.temp_token_account@ != record.escrow {
            Err(ErrorCode::AddressMismatch)
        } else if active_escrow(state, record, authority) is Err {
            Err(active_escrow(state, record, authority)->Err_0)
        } else if ctx.token_sale_token_acct_authority@ != authority->0 {
            Err(ErrorCode::AddressMismatch)
        } else if !state.holdings.contains_key(ctx.buyer_token_account@) {
            Err(ErrorCode::AccountNotFound)
        } else if state.holdings[ctx.buyer_token_account@].authority != ctx.buyer@ {
            Err(ErrorCode::InvalidAuthority)
        } else {
            match state.transfer_currency(
                ctx.buyer@,
                ctx.seller@,
                record.quote(number_of_tokens as nat)->Ok_0,
            ) {
                Err(error) => Err(error),
                Ok(paid) => paid.transfer_tokens(
                    record.escrow,
                    ctx.buyer_token_account@,
                    number_of_tokens as nat,
                    authority->0,
                ),
            }
        }
    }
}

/// What `end_sale` does, given the derived authority of the sale.
pub open spec fn end_sale_step(state: LedgerState, ctx: EndSale, authority: Option<Seq<u8>>) -> Result<
    LedgerState,
    ErrorCode,
> {
    if !state.sales.contains_key(ctx.token_sale_account@) {
        Err(ErrorCode::SaleNotInitialized)
    } else {
        let record = state.sales[ctx.token_sale_account@];
        if record.authorize(ctx.seller@) is Err {
            Err(ErrorCode::InvalidSellerAccount)
        } else if ctx.temp_token_account@ != record.escrow {
            Err(ErrorCode::AddressMismatch)
        } else if active_escrow(state, record, authority) is Err {
            Err(active_escrow(state, record, authority)->Err_0)
        } else if ctx.token_sale_token_acct_authority@ != authority->0 {
            Err(ErrorCode::AddressMismatch)
        } else if !state.holdings.contains_key(ctx.seller_token_account@) {
            Err(ErrorCode::AccountNotFound)
        } else if state.holdings[ctx.seller_token_account@].authority != ctx.seller@ {
            Err(ErrorCode::InvalidAuthority)
        } else {
            match state.transfer_tokens(
                record.escrow,
                ctx.seller_token_account@,
                state.holdings[record.escrow].amount,
                authority->0,
            ) {
                Err(error) => Err(error),
                Ok(drained) => drained.close_account(record.escrow, ctx.seller@, authority->0),
            }
        }
    }
}

/// What `initialize` does.
pub open spec fn initialize_spec(
    state: LedgerState,
    ctx: InitializeTokenSale,
    per_token_price: u64,
    purchase_limit: u64,
) -> Result<LedgerState, ErrorCode> {
    initialize_step(
        state,
        ctx,
        per_token_price,
        purchase_limit,
        address_of(sale_pda(ctx.seller@, state.program_id)),
        address_of(authority_pda(ctx.token_sale_account@, state.program_id)),
    )
}

/// What `whitelist` does.
pub open spec fn whitelist_spec(state: LedgerState, ctx: Whitelist) -> Result<LedgerState, ErrorCode> {
    whitelist_step(
        state,
        ctx,
        address_of(authority_pda(ctx.token_sale_account@, state.program_id)),
        address_of(whitelist_pda(ctx.token_sale_account@, ctx.buyer@, state.program_id)),
    )
}

/// What `buy_token` does.
pub open spec fn buy_token_spec(state: LedgerState, ctx: BuyToken, number_of_tokens: u64) -> Result<
    LedgerState,
    ErrorCode,
> {
    buy_token_step(
        state,
        ctx,
        number_of_tokens,
        address_of(whitelist_pda(ctx.token_sale_account@, ctx.buyer@, state.program_id)),
        address_of(authority_pda(ctx.token_sale_account@, state.program_id)),
    )
}

/// What `end_sale` does.
pub open spec fn end_sale_spec(state: LedgerState, ctx: EndSale) -> Result<LedgerState, ErrorCode> {
    end_sale_step(state, ctx, address_of(authority_pda(ctx.token_sale_account@, state.program_id)))
}

/// Finds the escrow of a running sale and the authority that controls it.
fn resolve_escrow(ledger: &Ledger, sale: &TokenSale, authority: Option<Pda>) -> (resolved: Result<
    (TokenAccount, Address),
    ErrorCode,
>)
    ensures
        match resolved {
            Ok((escrow, controller)) => active_escrow(ledger@, sale@, derived(authority)) == Ok::<
                Holding,
                ErrorCode,
            >(escrow@) && derived(authority) == Some(controller@),
            Err(error) => active_escrow(ledger@, sale@, derived(authority)) == Err::<
                Holding,
                ErrorCode,
            >(error),
        },
{
    let escrow = match ledger.token_account(&sale.temp_token_account_pubkey) {
        Some(account) => account,
        None => { return Err(ErrorCode::SaleEnded); },
    };
    let controller = match authority {
        Some(pda) => pda.address,
        None => { return Err(ErrorCode::DerivationFailed); },
    };
    if escrow.authority != controller {
        return Err(ErrorCode::InvalidAuthority);
    }
    Ok((escrow, controller))
}

/// The phase of the sale recorded at `sale`, given the outcome of the
/// derivation of its authority.
pub fn phase_with(ledger: &Ledger, sale: &Address, authority: Option<Pda>) -> (phase: Phase)
    ensures
        phase == phase_step(ledger@, sale@, derived(authority)),
{
    match ledger.sale(sale) {
        None => Phase::Uninitialized,
        Some(record) => match resolve_escrow(ledger, &record, authority) {
            Ok(_) => Phase::Active,
            Err(_) => Phase::Ended,
        },
    }
}

/// The phase of the sale recorded at `sale`.
pub fn phase(ledger: &Ledger, sale: &Address) -> (phase: Phase)
    ensures
        phase == phase_spec(ledger@, sale@),
{
    let program_id = ledger.program_id();
    let authority = find_sale_authority(sale, &program_id);
    phase_with(ledger, sale, authority)
}

/// Opens the sale of `ctx.seller`, given the outcome of the two
/// derivations: writes the sale record at the derived address and hands the
/// escrow from the seller to the derived authority.
pub fn initialize_with(
    ledger: &mut Ledger,
    ctx: &InitializeTokenSale,
    per_token_price: u64,
    purchase_limit: u64,
    sale: Option<Pda>,
    authority: Option<Pda>,
) -> (result: Result<(), ErrorCode>)
    ensures
        carried_out(
            old(ledger)@,
            final(ledger)@,
            result,
            initialize_step(
                old(ledger)@,
                *ctx,
                per_token_price,
                purchase_limit,
                derived(sale),
                derived(authority),
            ),
        ),
{
    let sale_address = match sale {
        Some(pda) => pda.address,
        None => { return Err(ErrorCode::DerivationFailed); },
    };
    if ledger.sale(&sale_address).is_some() {
        return Err(ErrorCode::AlreadyInitialized);
    }
    if ctx.token_sale_account != sale_address {
        return Err(ErrorCode::AddressMismatch);
    }
    let controller = match authority {
        Some(pda) => pda.address,
        None => { return Err(ErrorCode::DerivationFailed); },
    };
    if ctx.token_sale_token_acct_authority != controller {
        return Err(ErrorCode::AddressMismatch);
    }
    ledger.check_set_authority(&ctx.temp_token_account, &ctx.seller, &controller)?;
    ledger.record_sale(
        &sale_address,
        TokenSale::new(ctx.seller, ctx.temp_token_account, per_token_price, purchase_limit),
    );
    ledger.set_authority(&ctx.temp_token_account, &ctx.seller, &controller)
}

/// Admits `ctx.buyer` to the sale, given the outcome of the two
/// derivations: writes the buyer's whitelist entry at the derived address.
pub fn whitelist_with(ledger: &mut Ledger, ctx: &Whitelist, authority: Option<Pda>, entry: Option<Pda>) -> (result:
    Result<(), ErrorCode>)
    ensures
        carried_out(
            old(ledger)@,
            final(ledger)@,
            result,
            whitelist_step(old(ledger)@, *ctx, derived(authority), derived(entry)),
        ),
{
    let sale = match ledger.sale(&ctx.token_sale_account) {
        Some(record) => record,
        None => { return Err(ErrorCode::SaleNotInitialized); },
    };
    sale.authorize(&ctx.seller)?;
    resolve_escrow(ledger, &sale, authority)?;
    let entry_address = match entry {
        Some(pda) => pda.address,
        None => { return Err(ErrorCode::DerivationFailed); },
    };
    if ctx.buyer_whitelist_account != entry_address {
        return Err(ErrorCode::AddressMismatch);
    }
    if ledger.whitelist_entry(&entry_address).is_some() {
        return Err(ErrorCode::AlreadyWhitelisted);
    }
    ledger.record_grant(&entry_address);
    Ok(())
}

/// Sells `number_of_tokens` tokens to `ctx.buyer`, given the outcome of the
/// two derivations: the buyer pays the seller the unit price times the
/// number of tokens, and the escrow hands the buyer the tokens.
pub fn buy_token_with(
    ledger: &mut Ledger,
    ctx: &BuyToken,
    number_of_tokens: u64,
    entry: Option<Pda>,
    authority: Option<Pda>,
) -> (result: Result<(), ErrorCode>)
    ensures
        carried_out(
            old(ledger)@,
            final(ledger)@,
            result,
            buy_token_step(old(ledger)@, *ctx, number_of_tokens, derived(entry), derived(authority)),
        ),
{
    let sale = match ledger.sale(&ctx.token_sale_account) {
        Some(record) => record,
        None => { return Err(ErrorCode::SaleNotInitialized); },
    };
    let entry_address = match entry {
        Some(pda) => pda.address,
        None => { return Err(ErrorCode::DerivationFailed); },
    };
    if ctx.buyer_whitelist_account != entry_address {
        return Err(ErrorCode::AddressMismatch);
    }
    if ledger.whitelist_entry(&entry_address).is_none() {
        return Err(ErrorCode::NotWhitelisted);
    }
    sale.authorize(&ctx.seller)?;
    let due = sale.quote(number_of_tokens)?;
    if ctx.temp_token_account != sale.temp_token_account_pubkey {
        return Err(ErrorCode::AddressMismatch);
    }
    let (_, controller) = resolve_escrow(ledger, &sale, authority)?;
    if ctx.token_sale_token_acct_authority != controller {
        return Err(ErrorCode::AddressMismatch);
    }
    let receiving = match ledger.token_account(&ctx.buyer_token_account) {
        Some(account) => account,
        None => { return Err(ErrorCode::AccountNotFound); },
    };
    if receiving.authority != ctx.buyer {
        return Err(ErrorCode::InvalidAuthority);
    }
    ledger.check_transfer_currency(&ctx.buyer, &ctx.seller, due)?;
    ledger.check_transfer_tokens(
        &ctx.temp_token_account,
        &ctx.buyer_token_account,
        number_of_tokens,
        &controller,
    )?;
    ledger.transfer_currency(&ctx.buyer, &ctx.seller, due)?;
    ledger.transfer_tokens(
        &ctx.temp_token_account,
        &ctx.buyer_token_account,
        number_of_tokens,
        &controller,
    )
}

/// Ends the sale of `ctx.seller`, given the outcome of the derivation: the
/// escrow hands the seller all the tokens it still holds and is closed, its
/// deposit going to the seller.
pub fn end_sale_with(ledger: &mut Ledger, ctx: &EndSale, authority: Option<Pda>) -> (result: Result<
    (),
    ErrorCode,
>)
    ensures
        carried_out(
            old(ledger)@,
            final(ledger)@,
            result,
            end_sale_step(old(ledger)@, *ctx, derived(authority)),
        ),
{
    let sale = match ledger.sale(&ctx.token_sale_account) {
        Some(record) => record,
        None => { return Err(ErrorCode::SaleNotInitialized); },
    };
    sale.authorize(&ctx.seller)?;
    if ctx.temp_token_account != sale.temp_token_account_pubkey {
        return Err(ErrorCode::AddressMismatch);
    }
    let (escrow, controller) = resolve_escrow(ledger, &sale, authority)?;
    if ctx.token_sale_token_acct_authority != controller {
        return Err(ErrorCode::AddressMismatch);
    }
    let receiving = match ledger.token_account(&ctx.seller_token_account) {
        Some(account) => account,
        None => { return Err(ErrorCode::AccountNotFound); },
    };
    if receiving.authority != ctx.seller {
        return Err(ErrorCode::InvalidAuthority);
    }
    ledger.check_transfer_tokens(
        &ctx.temp_token_account,
        &ctx.seller_token_account,
        escrow.amount,
        &controller,
    )?;
    ledger.check_close_account(&ctx.temp_token_account, &ctx.seller, &controller)?;
    ledger.transfer_tokens(
        &ctx.temp_token_account,
        &ctx.seller_token_account,
        escrow.amount,
        &controller,
    )?;
    ledger.close_account(&ctx.temp_token_account, &ctx.seller, &controller)
}

/// Opens the sale of `ctx.seller`: writes the sale record and hands the
/// escrow from the seller to the delegated authority of the sale, an
/// address that has no private key.
pub fn initialize(
    ledger: &mut Ledger,
    ctx: &InitializeTokenSale,
    per_token_price: u64,
    purchase_limit: u64,
) -> (result: Result<(), ErrorCode>)
    ensures
        carried_out(
            old(ledger)@,
            final(ledger)@,
            result,
            initialize_spec(old(ledger)@, *ctx, per_token_price, purchase_limit),
        ),
        result is Ok ==> !on_curve(final(ledger)@.holdings[ctx.temp_token_account@].authority),
{
    let program_id = ledger.program_id();
    let sale = find_sale_address(&ctx.seller, &program_id);
    let authority = find_sale_authority(&ctx.token_sale_account, &program_id);
    initialize_with(ledger, ctx, per_token_price, purchase_limit, sale, authority)
}

/// Admits `ctx.buyer` to the sale of `ctx.seller`.
pub fn whitelist(ledger: &mut Ledger, ctx: &Whitelist) -> (result: Result<(), ErrorCode>)
    ensures
        carried_out(old(ledger)@, final(ledger)@, result, whitelist_spec(old(ledger)@, *ctx)),
{
    let program_id = ledger.program_id();
    let authority = find_sale_authority(&ctx.token_sale_account, &program_id);
    let entry = find_whitelist_address(&ctx.token_sale_account, &ctx.buyer, &program_id);
    whitelist_with(ledger, ctx, authority, entry)
}

/// Sells `number_of_tokens` tokens to `ctx.buyer`.
pub fn buy_token(ledger: &mut Ledger, ctx: &BuyToken, number_of_tokens: u64) -> (result: Result<
    (),
    ErrorCode,
>)
    ensures
        carried_out(
            old(ledger)@,
            final(ledger)@,
            result,
            buy_token_spec(old(ledger)@, *ctx, number_of_tokens),
        ),
{
    let program_id = ledger.program_id();
    let entry = find_whitelist_address(&ctx.token_sale_account, &ctx.buyer, &program_id);
    let authority = find_sale_authority(&ctx.token_sale_account, &program_id);
    buy_token_with(ledger, ctx, number_of_tokens, entry, authority)
}

/// Ends the sale of `ctx.seller`.
pub fn end_sale(ledger: &mut Ledger, ctx: &EndSale) -> (result: Result<(), ErrorCode>)
    ensures
        carried_out(old(ledger)@, final(ledger)@, result, end_sale_spec(old(ledger)@, *ctx)),
{
    let program_id = ledger.program_id();
    let authority = find_sale_authority(&ctx.token_sale_account, &program_id);
    end_sale_with(ledger, ctx, authority)
}

} // verus!
