//! What holds of every sale, proved from what the operations are specified
//! to do.

use vstd::prelude::*;

use crate::accounts::{BuyToken, EndSale, InitializeTokenSale, Whitelist};
use crate::error::{ErrorCode, ErrorKind};
use crate::ledger::LedgerState;
use crate::pda::{address_of, authority_pda, sale_pda, whitelist_pda};
use crate::program::{
    buy_token_spec, end_sale_spec, initialize_spec, phase_spec, whitelist_spec, Phase,
};
use crate::state::SaleRecord;

verus! {

/// A successful `initialize` writes the seller's sale record, with the
/// values given, at the address derived from the seller, where no record
/// stood before; it leaves every other sale record as it was; and it puts
/// the escrow under the authority derived from the address of the new
/// record, with its tokens and deposit untouched.
pub proof fn lemma_initialize_establishes_sale(
    state: LedgerState,
    ctx: InitializeTokenSale,
    per_token_price: u64,
    purchase_limit: u64,
    next: LedgerState,
)
    requires
        initialize_spec(state, ctx, per_token_price, purchase_limit) == Ok::<LedgerState, ErrorCode>(
            next,
        ),
    ensures
        address_of(sale_pda(ctx.seller@, state.program_id)) == Some(ctx.token_sale_account@),
        address_of(authority_pda(ctx.token_sale_account@, state.program_id)) == Some(
            ctx.token_sale_token_acct_authority@,
        ),
        !state.sales.contains_key(ctx.token_sale_account@),
        next.sales == state.sales.insert(
            ctx.token_sale_account@,
            SaleRecord {
                seller: ctx.seller@,
                escrow: ctx.temp_token_account@,
                unit_price: per_token_price as nat,
                purchase_limit: purchase_limit as nat,
            },
        ),
        state.holdings.contains_key(ctx.temp_token_account@),
        state.holdings[ctx.temp_token_account@].authority == ctx.seller@,
        next.holdings.contains_key(ctx.temp_token_account@),
        next.holdings[ctx.temp_token_account@].authority == ctx.token_sale_token_acct_authority@,
        next.holdings[ctx.temp_token_account@].amount == state.holdings[ctx.temp_token_account@].amount,
        next.holdings[ctx.temp_token_account@].deposit
            == state.holdings[ctx.temp_token_account@].deposit,
        next.balances == state.balances,
        next.whitelist == state.whitelist,
        next.program_id == state.program_id,
{
}

/// After a successful `initialize` the seller no longer controls the
/// escrow, provided the seller's own address is not the derived authority.
/// (It never is for a seller who holds a key: `initialize` leaves the
/// escrow under an address off the curve.)
pub proof fn lemma_initialize_takes_escrow_from_seller(
    state: LedgerState,
    ctx: InitializeTokenSale,
    per_token_price: u64,
    purchase_limit: u64,
    next: LedgerState,
)
    requires
        initialize_spec(state, ctx, per_token_price, purchase_limit) == Ok::<LedgerState, ErrorCode>(
            next,
        ),
        address_of(authority_pda(ctx.token_sale_account@, state.program_id)) != Some(ctx.seller@),
    ensures
        next.holdings[ctx.temp_token_account@].authority != ctx.seller@,
{
}

/// Once a seller has a sale, every further `initialize` by that seller is
/// refused as a duplicate, whatever accounts, price and limit it names.
pub proof fn lemma_initialize_twice_fails(
    state: LedgerState,
    first: InitializeTokenSale,
    first_price: u64,
    first_limit: u64,
    next: LedgerState,
    second: InitializeTokenSale,
    second_price: u64,
    second_limit: u64,
)
    requires
        initialize_spec(state, first, first_price, first_limit) == Ok::<LedgerState, ErrorCode>(next),
        second.seller@ == first.seller@,
    ensures
        initialize_spec(next, second, second_price, second_limit) == Err::<LedgerState, ErrorCode>(
            ErrorCode::AlreadyInitialized,
        ),
        ErrorCode::AlreadyInitialized.spec_kind() == ErrorKind::State,
{
}

/// `whitelist` on a sale whose record names another seller than the caller
/// is refused as unauthorized.
pub proof fn lemma_whitelist_rejects_non_seller(state: LedgerState, ctx: Whitelist)
    requires
        state.sales.contains_key(ctx.token_sale_account@),
        state.sales[ctx.token_sale_account@].seller != ctx.seller@,
    ensures
        whitelist_spec(state, ctx) == Err::<LedgerState, ErrorCode>(ErrorCode::InvalidSellerAccount),
        ErrorCode::InvalidSellerAccount.spec_kind() == ErrorKind::Authorization,
{
}

/// A successful `whitelist` writes the buyer's entry at the address derived
/// from the sale and the buyer, where none stood before, and changes
/// nothing else.
pub proof fn lemma_whitelist_admits_buyer(state: LedgerState, ctx: Whitelist, next: LedgerState)
    requires
        whitelist_spec(state, ctx) == Ok::<LedgerState, ErrorCode>(next),
    ensures
        address_of(whitelist_pda(ctx.token_sale_account@, ctx.buyer@, state.program_id)) == Some(
            ctx.buyer_whitelist_account@,
        ),
        !state.whitelist.contains_key(ctx.buyer_whitelist_account@),
        next == state.record_grant(ctx.buyer_whitelist_account@),
        next.whitelist.contains_key(ctx.buyer_whitelist_account@),
{
}

/// `buy_token` for more tokens than the sale's purchase limit is refused;
/// where the buyer is whitelisted and the seller is the one of the record,
/// it is refused as a breach of the limit.
pub proof fn lemma_buy_over_limit_rejected(state: LedgerState, ctx: BuyToken, number_of_tokens: u64)
    requires
        state.sales.contains_key(ctx.token_sale_account@),
        number_of_tokens > state.sales[ctx.token_sale_account@].purchase_limit,
    ensures
        buy_token_spec(state, ctx, number_of_tokens) is Err,
        ({
            let entry = address_of(
                whitelist_pda(ctx.token_sale_account@, ctx.buyer@, state.program_id),
            );
            &&& entry == Some(ctx.buyer_whitelist_account@)
            &&& state.whitelist.contains_key(ctx.buyer_whitelist_account@)
            &&& state.sales[ctx.token_sale_account@].seller == ctx.seller@
        }) ==> buy_token_spec(state, ctx, number_of_tokens) == Err::<LedgerState, ErrorCode>(
            ErrorCode::PurchaseLimitExceeded,
        ),
        ErrorCode::PurchaseLimitExceeded.spec_kind() == ErrorKind::Policy,
{
}

/// A successful `buy_token` takes the unit price times the number of tokens
/// from the buyer's currency and adds it to the seller's, takes the tokens
/// from the escrow and adds them to the buyer's token account, and changes
/// nothing else. It is stated for a buyer other than the seller, and a
/// receiving account other than the escrow.
pub proof fn lemma_buy_moves_exact_amounts(
    state: LedgerState,
    ctx: BuyToken,
    number_of_tokens: u64,
    next: LedgerState,
)
    requires
        buy_token_spec(state, ctx, number_of_tokens) == Ok::<LedgerState, ErrorCode>(next),
        ctx.buyer@ != ctx.seller@,
        ctx.buyer_token_account@ != ctx.temp_token_account@,
    ensures
        number_of_tokens <= state.sales[ctx.token_sale_account@].purchase_limit,
        next.balances[ctx.seller@] == state.balances[ctx.seller@]
            + state.sales[ctx.token_sale_account@].unit_price * number_of_tokens,
        next.balances[ctx.buyer@] == state.balances[ctx.buyer@]
            - state.sales[ctx.token_sale_account@].unit_price * number_of_tokens,
        next.holdings[ctx.buyer_token_account@].amount
            == state.holdings[ctx.buyer_token_account@].amount + number_of_tokens,
        next.holdings[ctx.temp_token_account@].amount
            == state.holdings[ctx.temp_token_account@].amount - number_of_tokens,
        forall|address: Seq<u8>|
            address != ctx.seller@ && address != ctx.buyer@ ==> #[trigger] next.balances[address]
                == state.balances[address],
        forall|address: Seq<u8>|
            address != ctx.buyer_token_account@ && address != ctx.temp_token_account@ ==> (
            #[trigger] next.holdings.contains_key(address) == state.holdings.contains_key(address))
                && next.holdings[address] == state.holdings[address],
        next.holdings[ctx.buyer_token_account@].authority
            == state.holdings[ctx.buyer_token_account@].authority,
        next.holdings[ctx.temp_token_account@].authority
            == state.holdings[ctx.temp_token_account@].authority,
        next.sales == state.sales,
        next.whitelist == state.whitelist,
{
}

/// A buyer who pays himself as the seller keeps his currency, and a
/// purchase into the escrow itself leaves its tokens where they were.
pub proof fn lemma_buy_between_one_account(
    state: LedgerState,
    ctx: BuyToken,
    number_of_tokens: u64,
    next: LedgerState,
)
    requires
        buy_token_spec(state, ctx, number_of_tokens) == Ok::<LedgerState, ErrorCode>(next),
    ensures
        ctx.buyer@ == ctx.seller@ ==> next.balances == state.balances,
        ctx.buyer_token_account@ == ctx.temp_token_account@ ==> next.holdings == state.holdings,
{
}

/// A purchase of no tokens is not refused for its quantity, and where it
/// goes through it leaves the ledger as it was.
pub proof fn lemma_buy_of_nothing_changes_nothing(state: LedgerState, ctx: BuyToken, next: LedgerState)
    requires
        state.well_formed(),
        buy_token_spec(state, ctx, 0) == Ok::<LedgerState, ErrorCode>(next),
    ensures
        next == state,
{
    assert(state.balances.contains_key(ctx.buyer@) && state.balances.contains_key(ctx.seller@));
    assert(next.balances =~= state.balances);
    assert(next.holdings =~= state.holdings);
}

/// `buy_token` by a buyer who has no whitelist entry for the sale is
/// refused; where the sale exists and the entry's address is the one the
/// call names, it is refused as unauthorized.
pub proof fn lemma_buy_requires_whitelist_entry(state: LedgerState, ctx: BuyToken, number_of_tokens: u64)
    requires
        ({
            let entry = address_of(
                whitelist_pda(ctx.token_sale_account@, ctx.buyer@, state.program_id),
            );
            entry is Some ==> !state.whitelist.contains_key(entry->0)
        }),
    ensures
        buy_token_spec(state, ctx, number_of_tokens) is Err,
        ({
            &&& state.sales.contains_key(ctx.token_sale_account@)
            &&& address_of(whitelist_pda(ctx.token_sale_account@, ctx.buyer@, state.program_id))
                == Some(ctx.buyer_whitelist_account@)
        }) ==> buy_token_spec(state, ctx, number_of_tokens) == Err::<LedgerState, ErrorCode>(
            ErrorCode::NotWhitelisted,
        ),
        ErrorCode::NotWhitelisted.spec_kind() == ErrorKind::Authorization,
{
}

/// A successful `end_sale` closes the escrow and pays its deposit to the
/// seller; the seller's token account, where it is another account than the
/// escrow, receives every token that the escrow held.
pub proof fn lemma_end_sale_drains_and_closes(state: LedgerState, ctx: EndSale, next: LedgerState)
    requires
        end_sale_spec(state, ctx) == Ok::<LedgerState, ErrorCode>(next),
    ensures
        state.holdings.contains_key(ctx.temp_token_account@),
        !next.holdings.contains_key(ctx.temp_token_account@),
        next.balances[ctx.seller@] == state.balances[ctx.seller@]
            + state.holdings[ctx.temp_token_account@].deposit,
        forall|address: Seq<u8>|
            address != ctx.seller@ ==> #[trigger] next.balances[address] == state.balances[address],
        ctx.seller_token_account@ != ctx.temp_token_account@ ==> {
            &&& next.holdings.contains_key(ctx.seller_token_account@)
            &&& next.holdings[ctx.seller_token_account@].amount
                == state.holdings[ctx.seller_token_account@].amount
                + state.holdings[ctx.temp_token_account@].amount
        },
        forall|address: Seq<u8>|
            address != ctx.seller_token_account@ && address != ctx.temp_token_account@ ==> (
            #[trigger] next.holdings.contains_key(address) == state.holdings.contains_key(address))
                && next.holdings[address] == state.holdings[address],
        next.sales == state.sales,
        next.whitelist == state.whitelist,
{
}

/// Once a sale has ended, `end_sale` on it is refused, whoever calls it and
/// whatever accounts the call names.
pub proof fn lemma_end_sale_twice_fails(
    state: LedgerState,
    first: EndSale,
    next: LedgerState,
    second: EndSale,
)
    requires
        end_sale_spec(state, first) == Ok::<LedgerState, ErrorCode>(next),
        second.token_sale_account@ == first.token_sale_account@,
    ensures
        end_sale_spec(next, second) is Err,
        second.seller@ == first.seller@ && second.temp_token_account@ == first.temp_token_account@
            ==> end_sale_spec(next, second) == Err::<LedgerState, ErrorCode>(ErrorCode::SaleEnded),
        ErrorCode::SaleEnded.spec_kind() == ErrorKind::State,
{
}

/// `initialize` takes a sale from uninitialized to active.
pub proof fn lemma_initialize_activates(
    state: LedgerState,
    ctx: InitializeTokenSale,
    per_token_price: u64,
    purchase_limit: u64,
    next: LedgerState,
)
    requires
        initialize_spec(state, ctx, per_token_price, purchase_limit) == Ok::<LedgerState, ErrorCode>(
            next,
        ),
    ensures
        phase_spec(state, ctx.token_sale_account@) == Phase::Uninitialized,
        phase_spec(next, ctx.token_sale_account@) == Phase::Active,
{
}

/// `whitelist` and `buy_token` go through on an active sale only, and leave
/// it active.
pub proof fn lemma_trade_needs_active_sale(
    state: LedgerState,
    grant: Whitelist,
    purchase: BuyToken,
    number_of_tokens: u64,
)
    ensures
        whitelist_spec(state, grant) matches Ok(next) ==> {
            &&& phase_spec(state, grant.token_sale_account@) == Phase::Active
            &&& phase_spec(next, grant.token_sale_account@) == Phase::Active
        },
        buy_token_spec(state, purchase, number_of_tokens) matches Ok(next) ==> {
            &&& phase_spec(state, purchase.token_sale_account@) == Phase::Active
            &&& phase_spec(next, purchase.token_sale_account@) == Phase::Active
        },
{
}

/// `end_sale` takes a sale from active to ended.
pub proof fn lemma_end_sale_ends(state: LedgerState, ctx: EndSale, next: LedgerState)
    requires
        end_sale_spec(state, ctx) == Ok::<LedgerState, ErrorCode>(next),
    ensures
        phase_spec(state, ctx.token_sale_account@) == Phase::Active,
        phase_spec(next, ctx.token_sale_account@) == Phase::Ended,
{
}

/// Every operation takes a well-formed ledger to a well-formed ledger: no
/// balance, amount or deposit ever outgrows sixty-four bits.
pub proof fn lemma_operations_keep_ledger_well_formed(
    state: LedgerState,
    opening: InitializeTokenSale,
    per_token_price: u64,
    purchase_limit: u64,
    grant: Whitelist,
    purchase: BuyToken,
    number_of_tokens: u64,
    end: EndSale,
    next: LedgerState,
)
    requires
        state.well_formed(),
        initialize_spec(state, opening, per_token_price, purchase_limit) == Ok::<
            LedgerState,
            ErrorCode,
        >(next) || whitelist_spec(state, grant) == Ok::<LedgerState, ErrorCode>(next)
            || buy_token_spec(state, purchase, number_of_tokens) == Ok::<LedgerState, ErrorCode>(
            next,
        ) || end_sale_spec(state, end) == Ok::<LedgerState, ErrorCode>(next),
    ensures
        next.well_formed(),
{
    if initialize_spec(state, opening, per_token_price, purchase_limit) == Ok::<LedgerState, ErrorCode>(
        next,
    ) {
        let record = SaleRecord {
            seller: opening.seller@,
            escrow: opening.temp_token_account@,
            unit_price: per_token_price as nat,
            purchase_limit: purchase_limit as nat,
        };
        let recorded = state.record_sale(opening.token_sale_account@, record);
        assert forall|address: Seq<u8>| #[trigger]
            recorded.sales.contains_key(address) implies recorded.sales[address].unit_price
            <= u64::MAX && recorded.sales[address].purchase_limit <= u64::MAX by {
            if address != opening.token_sale_account@ {
                assert(state.sales.contains_key(address));
            }
        }
        recorded.lemma_transfers_keep_well_formed(
            opening.temp_token_account@,
            opening.token_sale_token_acct_authority@,
            0,
            opening.seller@,
        );
    } else if whitelist_spec(state, grant) == Ok::<LedgerState, ErrorCode>(next) {
        assert(next == state.record_grant(grant.buyer_whitelist_account@));
    } else if buy_token_spec(state, purchase, number_of_tokens) == Ok::<LedgerState, ErrorCode>(next) {
        let record = state.sales[purchase.token_sale_account@];
        let due = record.quote(number_of_tokens as nat)->Ok_0;
        let authority = state.holdings[record.escrow].authority;
        state.lemma_transfers_keep_well_formed(purchase.buyer@, purchase.seller@, due, authority);
        let paid = state.transfer_currency(purchase.buyer@, purchase.seller@, due)->Ok_0;
        paid.lemma_transfers_keep_well_formed(
            record.escrow,
            purchase.buyer_token_account@,
            number_of_tokens as nat,
            authority,
        );
    } else {
        let record = state.sales[end.token_sale_account@];
        let authority = state.holdings[record.escrow].authority;
        state.lemma_transfers_keep_well_formed(
            record.escrow,
            end.seller_token_account@,
            state.holdings[record.escrow].amount,
            authority,
        );
        let drained = state.transfer_tokens(
            record.escrow,
            end.seller_token_account@,
            state.holdings[record.escrow].amount,
            authority,
        )->Ok_0;
        drained.lemma_transfers_keep_well_formed(record.escrow, end.seller@, 0, authority);
    }
}

/// Sale records and whitelist entries are written once: whatever an
/// operation does, every record and every entry that stood before stands
/// after it, unchanged.
pub proof fn lemma_records_are_kept(
    state: LedgerState,
    opening: InitializeTokenSale,
    per_token_price: u64,
    purchase_limit: u64,
    grant: Whitelist,
    purchase: BuyToken,
    number_of_tokens: u64,
    end: EndSale,
    next: LedgerState,
)
    requires
        initialize_spec(state, opening, per_token_price, purchase_limit) == Ok::<
            LedgerState,
            ErrorCode,
        >(next) || whitelist_spec(state, grant) == Ok::<LedgerState, ErrorCode>(next)
            || buy_token_spec(state, purchase, number_of_tokens) == Ok::<LedgerState, ErrorCode>(
            next,
        ) || end_sale_spec(state, end) == Ok::<LedgerState, ErrorCode>(next),
    ensures
        forall|address: Seq<u8>| #[trigger]
            state.sales.contains_key(address) ==> next.sales.contains_key(address)
                && next.sales[address] == state.sales[address],
        forall|address: Seq<u8>| #[trigger]
            state.whitelist.contains_key(address) ==> next.whitelist.contains_key(address)
                && next.whitelist[address] == state.whitelist[address],
        next.program_id == state.program_id,
{
}

/// A running sale keeps running through every `whitelist` and `buy_token`,
/// and through the `end_sale` of every sale that has another escrow.
pub proof fn lemma_active_sale_stays_active(
    state: LedgerState,
    sale: Seq<u8>,
    grant: Whitelist,
    purchase: BuyToken,
    number_of_tokens: u64,
    end: EndSale,
)
    requires
        phase_spec(state, sale) == Phase::Active,
    ensures
        whitelist_spec(state, grant) matches Ok(next) ==> phase_spec(next, sale) == Phase::Active,
        buy_token_spec(state, purchase, number_of_tokens) matches Ok(next) ==> phase_spec(next, sale)
            == Phase::Active,
        end_sale_spec(state, end) matches Ok(next) ==> end.temp_token_account@
            != state.sales[sale].escrow ==> phase_spec(next, sale) == Phase::Active,
{
}

/// A sale that has ended stays ended through every `whitelist`, `buy_token`
/// and `end_sale`, on whatever sale they are called.
pub proof fn lemma_ended_sale_stays_ended(
    state: LedgerState,
    sale: Seq<u8>,
    grant: Whitelist,
    purchase: BuyToken,
    number_of_tokens: u64,
    end: EndSale,
)
    requires
        phase_spec(state, sale) == Phase::Ended,
    ensures
        whitelist_spec(state, grant) matches Ok(next) ==> phase_spec(next, sale) == Phase::Ended,
        buy_token_spec(state, purchase, number_of_tokens) matches Ok(next) ==> phase_spec(next, sale)
            == Phase::Ended,
        end_sale_spec(state, end) matches Ok(next) ==> phase_spec(next, sale) == Phase::Ended,
{
}

/// Once a sale has ended, nobody can buy from it and nobody can be
/// whitelisted for it.
pub proof fn lemma_ended_sale_is_closed(
    state: LedgerState,
    ctx: EndSale,
    next: LedgerState,
    purchase: BuyToken,
    number_of_tokens: u64,
    grant: Whitelist,
)
    requires
        end_sale_spec(state, ctx) == Ok::<LedgerState, ErrorCode>(next),
        purchase.token_sale_account@ == ctx.token_sale_account@,
        grant.token_sale_account@ == ctx.token_sale_account@,
    ensures
        buy_token_spec(next, purchase, number_of_tokens) is Err,
        whitelist_spec(next, grant) is Err,
{
}

} // verus!
