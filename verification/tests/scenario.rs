use token_sale::accounts::{BuyToken, EndSale, InitializeTokenSale, Whitelist};
use token_sale::address::Address;
use token_sale::error::{ErrorCode, ErrorKind};
use token_sale::ledger::Ledger;
use token_sale::pda::{
    find_sale_address, find_sale_authority, find_whitelist_address, id, is_on_curve,
};
use token_sale::program::{buy_token, end_sale, initialize, phase, whitelist, Phase};
use token_sale::state::{TokenAccount, TokenSale};

const DEPOSIT: u64 = 2_039_280;

fn key(byte: u8) -> Address {
    Address::new([byte; 32])
}

struct Parties {
    seller: Address,
    buyer: Address,
    escrow: Address,
    seller_tokens: Address,
    buyer_tokens: Address,
    sale: Address,
    authority: Address,
    entry: Address,
}

impl Parties {
    fn new(seller: Address, buyer: Address, first: u8) -> Parties {
        let sale = find_sale_address(&seller, &id()).unwrap().address;
        Parties {
            seller,
            buyer,
            escrow: key(first),
            seller_tokens: key(first + 1),
            buyer_tokens: key(first + 2),
            sale,
            authority: find_sale_authority(&sale, &id()).unwrap().address,
            entry: find_whitelist_address(&sale, &buyer, &id()).unwrap().address,
        }
    }

    fn initialize(&self) -> InitializeTokenSale {
        InitializeTokenSale {
            seller: self.seller,
            temp_token_account: self.escrow,
            token_sale_account: self.sale,
            token_sale_token_acct_authority: self.authority,
        }
    }

    fn whitelist(&self) -> Whitelist {
        Whitelist {
            seller: self.seller,
            buyer: self.buyer,
            token_sale_account: self.sale,
            buyer_whitelist_account: self.entry,
        }
    }

    fn buy(&self) -> BuyToken {
        BuyToken {
            buyer: self.buyer,
            seller: self.seller,
            buyer_whitelist_account: self.entry,
            temp_token_account: self.escrow,
            buyer_token_account: self.buyer_tokens,
            token_sale_account: self.sale,
            token_sale_token_acct_authority: self.authority,
        }
    }

    fn end(&self) -> EndSale {
        EndSale {
            seller: self.seller,
            seller_token_account: self.seller_tokens,
            temp_token_account: self.escrow,
            token_sale_account: self.sale,
            token_sale_token_acct_authority: self.authority,
        }
    }
}

fn funded(parties: &Parties, tokens: u64, currency: u64) -> Ledger {
    let mut ledger = Ledger::new(id());
    ledger.fund(&parties.buyer, currency).unwrap();
    ledger.open_token_account(&parties.escrow, &parties.seller, tokens, DEPOSIT).unwrap();
    ledger.open_token_account(&parties.seller_tokens, &parties.seller, 0, DEPOSIT).unwrap();
    ledger.open_token_account(&parties.buyer_tokens, &parties.buyer, 0, DEPOSIT).unwrap();
    ledger
}

fn amount(ledger: &Ledger, address: &Address) -> u64 {
    ledger.token_account(address).unwrap().amount
}

#[test]
fn sale_runs_from_initialize_to_end() {
    let p = Parties::new(key(1), key(3), 10);
    let mut ledger = funded(&p, 1000, 10_000);
    assert_eq!(phase(&ledger, &p.sale), Phase::Uninitialized);

    assert_eq!(initialize(&mut ledger, &p.initialize(), 5, 100), Ok(()));
    assert_eq!(ledger.sale(&p.sale), Some(TokenSale::new(p.seller, p.escrow, 5, 100)));
    assert_eq!(
        ledger.token_account(&p.escrow),
        Some(TokenAccount { authority: p.authority, amount: 1000, deposit: DEPOSIT })
    );
    assert_eq!(phase(&ledger, &p.sale), Phase::Active);

    assert_eq!(whitelist(&mut ledger, &p.whitelist()), Ok(()));
    assert!(ledger.whitelist_entry(&p.entry).unwrap().is_whitelisted());

    assert_eq!(buy_token(&mut ledger, &p.buy(), 50), Ok(()));
    assert_eq!(ledger.balance(&p.seller), 250);
    assert_eq!(ledger.balance(&p.buyer), 9_750);
    assert_eq!(amount(&ledger, &p.buyer_tokens), 50);
    assert_eq!(amount(&ledger, &p.escrow), 950);

    assert_eq!(buy_token(&mut ledger, &p.buy(), 150), Err(ErrorCode::PurchaseLimitExceeded));
    assert_eq!(amount(&ledger, &p.escrow), 950);
    assert_eq!(amount(&ledger, &p.buyer_tokens), 50);
    assert_eq!(ledger.balance(&p.seller), 250);
    assert_eq!(ledger.balance(&p.buyer), 9_750);

    assert_eq!(end_sale(&mut ledger, &p.end()), Ok(()));
    assert_eq!(amount(&ledger, &p.seller_tokens), 950);
    assert_eq!(ledger.token_account(&p.escrow), None);
    assert_eq!(ledger.balance(&p.seller), 250 + DEPOSIT);
    assert_eq!(phase(&ledger, &p.sale), Phase::Ended);
}

#[test]
fn initialize_writes_the_record_and_hands_over_the_escrow() {
    let p = Parties::new(key(1), key(3), 10);
    let mut ledger = funded(&p, 1000, 0);
    assert_eq!(ledger.sale(&p.sale), None);
    assert_eq!(ledger.token_account(&p.escrow).unwrap().authority, p.seller);

    assert_eq!(initialize(&mut ledger, &p.initialize(), 7, 9), Ok(()));

    let record = ledger.sale(&p.sale).unwrap();
    assert_eq!(record.seller_pubkey, p.seller);
    assert_eq!(record.temp_token_account_pubkey, p.escrow);
    assert_eq!(record.per_token_price, 7);
    assert_eq!(record.purchase_limit, 9);
    let escrow = ledger.token_account(&p.escrow).unwrap();
    assert_eq!(escrow.authority, p.authority);
    assert_ne!(escrow.authority, p.seller);
    assert!(!is_on_curve(&escrow.authority));
    assert_eq!(escrow.amount, 1000);
    assert_eq!(ledger.balance(&p.seller), 0);
}

#[test]
fn initialize_twice_fails_and_changes_nothing() {
    let p = Parties::new(key(1), key(3), 10);
    let mut ledger = funded(&p, 1000, 0);
    assert_eq!(initialize(&mut ledger, &p.initialize(), 5, 100), Ok(()));

    let mut again = p.initialize();
    again.temp_token_account = p.seller_tokens;
    let result = initialize(&mut ledger, &again, 6, 200);
    assert_eq!(result, Err(ErrorCode::AlreadyInitialized));
    assert_eq!(result.unwrap_err().kind(), ErrorKind::State);
    assert_eq!(initialize(&mut ledger, &p.initialize(), 5, 100), Err(ErrorCode::AlreadyInitialized));

    assert_eq!(ledger.sale(&p.sale), Some(TokenSale::new(p.seller, p.escrow, 5, 100)));
    assert_eq!(ledger.token_account(&p.escrow).unwrap().authority, p.authority);
    assert_eq!(ledger.token_account(&p.seller_tokens).unwrap().authority, p.seller);
}

#[test]
fn whitelist_by_another_than_the_seller_fails() {
    let p = Parties::new(key(1), key(3), 10);
    let mut ledger = funded(&p, 1000, 0);
    initialize(&mut ledger, &p.initialize(), 5, 100).unwrap();

    let mut intruder = p.whitelist();
    intruder.seller = key(4);
    let result = whitelist(&mut ledger, &intruder);
    assert_eq!(result, Err(ErrorCode::InvalidSellerAccount));
    assert_eq!(result.unwrap_err().kind(), ErrorKind::Authorization);
    assert_eq!(ledger.whitelist_entry(&p.entry), None);

    intruder.buyer = key(4);
    intruder.buyer_whitelist_account = find_whitelist_address(&p.sale, &key(4), &id()).unwrap().address;
    assert_eq!(whitelist(&mut ledger, &intruder), Err(ErrorCode::InvalidSellerAccount));
    assert_eq!(ledger.whitelist_entry(&intruder.buyer_whitelist_account), None);
}

#[test]
fn buy_over_the_limit_moves_nothing() {
    let p = Parties::new(key(1), key(3), 10);
    let mut ledger = funded(&p, 1000, 10_000);
    initialize(&mut ledger, &p.initialize(), 5, 100).unwrap();
    whitelist(&mut ledger, &p.whitelist()).unwrap();

    let result = buy_token(&mut ledger, &p.buy(), 101);
    assert_eq!(result, Err(ErrorCode::PurchaseLimitExceeded));
    assert_eq!(result.unwrap_err().kind(), ErrorKind::Policy);
    assert_eq!(ledger.balance(&p.buyer), 10_000);
    assert_eq!(ledger.balance(&p.seller), 0);
    assert_eq!(amount(&ledger, &p.buyer_tokens), 0);
    assert_eq!(amount(&ledger, &p.escrow), 1000);

    assert_eq!(buy_token(&mut ledger, &p.buy(), 100), Ok(()));
    assert_eq!(amount(&ledger, &p.buyer_tokens), 100);
}

#[test]
fn buy_moves_price_times_quantity_and_the_tokens() {
    let p = Parties::new(key(1), key(3), 10);
    let mut ledger = funded(&p, 1000, 10_000);
    ledger.fund(&p.seller, 17).unwrap();
    initialize(&mut ledger, &p.initialize(), 13, 100).unwrap();
    whitelist(&mut ledger, &p.whitelist()).unwrap();

    assert_eq!(buy_token(&mut ledger, &p.buy(), 7), Ok(()));
    assert_eq!(ledger.balance(&p.seller), 17 + 91);
    assert_eq!(ledger.balance(&p.buyer), 10_000 - 91);
    assert_eq!(amount(&ledger, &p.buyer_tokens), 7);
    assert_eq!(amount(&ledger, &p.escrow), 993);
    assert_eq!(amount(&ledger, &p.seller_tokens), 0);

    assert_eq!(buy_token(&mut ledger, &p.buy(), 100), Ok(()));
    assert_eq!(ledger.balance(&p.seller), 17 + 91 + 1300);
    assert_eq!(ledger.balance(&p.buyer), 10_000 - 91 - 1300);
    assert_eq!(amount(&ledger, &p.buyer_tokens), 107);
    assert_eq!(amount(&ledger, &p.escrow), 893);
}

#[test]
fn buy_of_no_tokens_is_allowed_and_moves_nothing() {
    let p = Parties::new(key(1), key(3), 10);
    let mut ledger = funded(&p, 1000, 10);
    initialize(&mut ledger, &p.initialize(), 5, 100).unwrap();
    whitelist(&mut ledger, &p.whitelist()).unwrap();

    assert_eq!(buy_token(&mut ledger, &p.buy(), 0), Ok(()));
    assert_eq!(ledger.balance(&p.buyer), 10);
    assert_eq!(ledger.balance(&p.seller), 0);
    assert_eq!(amount(&ledger, &p.escrow), 1000);
    assert_eq!(amount(&ledger, &p.buyer_tokens), 0);
}

#[test]
fn buy_without_a_whitelist_entry_fails() {
    let p = Parties::new(key(1), key(3), 10);
    let mut ledger = funded(&p, 1000, 10_000);
    initialize(&mut ledger, &p.initialize(), 5, 100).unwrap();

    let result = buy_token(&mut ledger, &p.buy(), 1);
    assert_eq!(result, Err(ErrorCode::NotWhitelisted));
    assert_eq!(result.unwrap_err().kind(), ErrorKind::Authorization);
    assert_eq!(ledger.balance(&p.buyer), 10_000);
    assert_eq!(ledger.balance(&p.seller), 0);
    assert_eq!(amount(&ledger, &p.escrow), 1000);
    assert_eq!(amount(&ledger, &p.buyer_tokens), 0);
}

#[test]
fn buy_with_the_entry_of_another_buyer_fails() {
    let p = Parties::new(key(1), key(3), 10);
    let mut ledger = funded(&p, 1000, 10_000);
    ledger.fund(&key(4), 500).unwrap();
    ledger.open_token_account(&key(20), &key(4), 0, DEPOSIT).unwrap();
    initialize(&mut ledger, &p.initialize(), 5, 100).unwrap();
    whitelist(&mut ledger, &p.whitelist()).unwrap();

    let mut other = p.buy();
    other.buyer = key(4);
    other.buyer_token_account = key(20);
    assert_eq!(buy_token(&mut ledger, &other, 1), Err(ErrorCode::AddressMismatch));
    other.buyer_whitelist_account = find_whitelist_address(&p.sale, &key(4), &id()).unwrap().address;
    assert_eq!(buy_token(&mut ledger, &other, 1), Err(ErrorCode::NotWhitelisted));
    assert_eq!(ledger.balance(&key(4)), 500);
    assert_eq!(amount(&ledger, &key(20)), 0);
    assert_eq!(amount(&ledger, &p.escrow), 1000);
}

#[test]
fn end_sale_drains_the_escrow_and_cannot_be_repeated() {
    let p = Parties::new(key(1), key(3), 10);
    let mut ledger = funded(&p, 1000, 10_000);
    initialize(&mut ledger, &p.initialize(), 5, 100).unwrap();
    whitelist(&mut ledger, &p.whitelist()).unwrap();
    buy_token(&mut ledger, &p.buy(), 40).unwrap();

    assert_eq!(end_sale(&mut ledger, &p.end()), Ok(()));
    assert_eq!(amount(&ledger, &p.seller_tokens), 960);
    assert_eq!(ledger.token_account(&p.escrow), None);
    assert_eq!(ledger.balance(&p.seller), 200 + DEPOSIT);

    let result = end_sale(&mut ledger, &p.end());
    assert_eq!(result, Err(ErrorCode::SaleEnded));
    assert_eq!(result.unwrap_err().kind(), ErrorKind::State);
    assert_eq!(amount(&ledger, &p.seller_tokens), 960);
    assert_eq!(ledger.balance(&p.seller), 200 + DEPOSIT);
}

#[test]
fn ended_sale_takes_no_buyers_and_no_purchases() {
    let p = Parties::new(key(1), key(3), 10);
    let mut ledger = funded(&p, 1000, 10_000);
    initialize(&mut ledger, &p.initialize(), 5, 100).unwrap();
    whitelist(&mut ledger, &p.whitelist()).unwrap();
    end_sale(&mut ledger, &p.end()).unwrap();

    assert_eq!(buy_token(&mut ledger, &p.buy(), 1), Err(ErrorCode::SaleEnded));
    let mut late = p.whitelist();
    late.buyer = key(4);
    late.buyer_whitelist_account = find_whitelist_address(&p.sale, &key(4), &id()).unwrap().address;
    assert_eq!(whitelist(&mut ledger, &late), Err(ErrorCode::SaleEnded));
    assert_eq!(ledger.whitelist_entry(&late.buyer_whitelist_account), None);
    assert_eq!(ledger.balance(&p.buyer), 10_000);
    assert_eq!(phase(&ledger, &p.sale), Phase::Ended);
}

#[test]
fn two_sellers_run_separate_sales() {
    let first = Parties::new(key(1), key(3), 10);
    let second = Parties::new(key(2), key(3), 20);
    assert_ne!(first.sale, second.sale);
    assert_ne!(first.authority, second.authority);
    assert_ne!(first.entry, second.entry);
    let mut ledger = funded(&first, 1000, 10_000);
    ledger.open_token_account(&second.escrow, &second.seller, 300, DEPOSIT).unwrap();
    ledger.open_token_account(&second.seller_tokens, &second.seller, 0, DEPOSIT).unwrap();
    ledger.open_token_account(&second.buyer_tokens, &second.buyer, 0, DEPOSIT).unwrap();
    initialize(&mut ledger, &first.initialize(), 5, 100).unwrap();
    initialize(&mut ledger, &second.initialize(), 2, 10).unwrap();
    whitelist(&mut ledger, &first.whitelist()).unwrap();

    assert_eq!(buy_token(&mut ledger, &second.buy(), 1), Err(ErrorCode::NotWhitelisted));
    let mut crossed = first.buy();
    crossed.temp_token_account = second.escrow;
    assert_eq!(buy_token(&mut ledger, &crossed, 1), Err(ErrorCode::AddressMismatch));
    let mut theft = second.end();
    theft.temp_token_account = first.escrow;
    assert_eq!(end_sale(&mut ledger, &theft), Err(ErrorCode::AddressMismatch));
    theft.token_sale_account = first.sale;
    assert_eq!(end_sale(&mut ledger, &theft), Err(ErrorCode::InvalidSellerAccount));

    whitelist(&mut ledger, &second.whitelist()).unwrap();
    assert_eq!(buy_token(&mut ledger, &second.buy(), 10), Ok(()));
    assert_eq!(ledger.balance(&second.seller), 20);
    assert_eq!(ledger.balance(&first.seller), 0);
    assert_eq!(amount(&ledger, &first.escrow), 1000);
    assert_eq!(amount(&ledger, &second.escrow), 290);
}
