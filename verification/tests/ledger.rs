use token_sale::address::Address;
use token_sale::error::ErrorCode;
use token_sale::ledger::Ledger;
use token_sale::state::TokenAccount;

fn key(byte: u8) -> Address {
    Address::new([byte; 32])
}

fn ledger() -> Ledger {
    let mut ledger = Ledger::new(key(9));
    ledger.fund(&key(1), 100).unwrap();
    ledger.open_token_account(&key(10), &key(1), 50, 7).unwrap();
    ledger.open_token_account(&key(11), &key(2), 5, 8).unwrap();
    ledger
}

#[test]
fn new_ledger_is_empty() {
    let ledger = Ledger::new(key(9));
    assert_eq!(ledger.program_id(), key(9));
    assert_eq!(ledger.balance(&key(1)), 0);
    assert_eq!(ledger.token_account(&key(1)), None);
    assert_eq!(ledger.sale(&key(1)), None);
    assert_eq!(ledger.whitelist_entry(&key(1)), None);
}

#[test]
fn fund_adds_to_a_balance() {
    let mut ledger = Ledger::new(key(9));
    assert_eq!(ledger.fund(&key(1), 30), Ok(()));
    assert_eq!(ledger.fund(&key(1), 12), Ok(()));
    assert_eq!(ledger.balance(&key(1)), 42);
    assert_eq!(ledger.balance(&key(2)), 0);
    assert_eq!(ledger.fund(&key(1), u64::MAX - 41), Err(ErrorCode::BalanceOverflow));
    assert_eq!(ledger.balance(&key(1)), 42);
    assert_eq!(ledger.fund(&key(1), u64::MAX - 42), Ok(()));
    assert_eq!(ledger.balance(&key(1)), u64::MAX);
}

#[test]
fn open_token_account_refuses_an_address_in_use() {
    let mut ledger = ledger();
    assert_eq!(
        ledger.token_account(&key(10)),
        Some(TokenAccount { authority: key(1), amount: 50, deposit: 7 })
    );
    assert_eq!(ledger.open_token_account(&key(10), &key(3), 1, 1), Err(ErrorCode::AccountInUse));
    assert_eq!(
        ledger.token_account(&key(10)),
        Some(TokenAccount { authority: key(1), amount: 50, deposit: 7 })
    );
}

#[test]
fn currency_transfer_moves_the_amount() {
    let mut ledger = ledger();
    assert_eq!(ledger.check_transfer_currency(&key(1), &key(2), 30), Ok(()));
    assert_eq!(ledger.balance(&key(1)), 100);
    assert_eq!(ledger.transfer_currency(&key(1), &key(2), 30), Ok(()));
    assert_eq!(ledger.balance(&key(1)), 70);
    assert_eq!(ledger.balance(&key(2)), 30);
    assert_eq!(ledger.transfer_currency(&key(1), &key(2), 70), Ok(()));
    assert_eq!(ledger.balance(&key(1)), 0);
    assert_eq!(ledger.balance(&key(2)), 100);
}

#[test]
fn currency_transfer_refuses_more_than_is_held() {
    let mut ledger = ledger();
    assert_eq!(ledger.check_transfer_currency(&key(1), &key(2), 101), Err(ErrorCode::InsufficientFunds));
    assert_eq!(ledger.transfer_currency(&key(1), &key(2), 101), Err(ErrorCode::InsufficientFunds));
    assert_eq!(ledger.transfer_currency(&key(3), &key(2), 1), Err(ErrorCode::InsufficientFunds));
    assert_eq!(ledger.transfer_currency(&key(1), &key(1), 101), Err(ErrorCode::InsufficientFunds));
    assert_eq!(ledger.balance(&key(1)), 100);
    assert_eq!(ledger.balance(&key(2)), 0);
}

#[test]
fn currency_transfer_refuses_an_overflowing_balance() {
    let mut ledger = ledger();
    ledger.fund(&key(2), u64::MAX - 10).unwrap();
    assert_eq!(ledger.transfer_currency(&key(1), &key(2), 11), Err(ErrorCode::BalanceOverflow));
    assert_eq!(ledger.balance(&key(1)), 100);
    assert_eq!(ledger.balance(&key(2)), u64::MAX - 10);
    assert_eq!(ledger.transfer_currency(&key(1), &key(2), 10), Ok(()));
    assert_eq!(ledger.balance(&key(2)), u64::MAX);
}

#[test]
fn currency_transfer_to_oneself_changes_nothing() {
    let mut ledger = ledger();
    assert_eq!(ledger.transfer_currency(&key(1), &key(1), 100), Ok(()));
    assert_eq!(ledger.balance(&key(1)), 100);
}

#[test]
fn token_transfer_moves_the_amount() {
    let mut ledger = ledger();
    assert_eq!(ledger.check_transfer_tokens(&key(10), &key(11), 20, &key(1)), Ok(()));
    assert_eq!(ledger.transfer_tokens(&key(10), &key(11), 20, &key(1)), Ok(()));
    assert_eq!(
        ledger.token_account(&key(10)),
        Some(TokenAccount { authority: key(1), amount: 30, deposit: 7 })
    );
    assert_eq!(
        ledger.token_account(&key(11)),
        Some(TokenAccount { authority: key(2), amount: 25, deposit: 8 })
    );
    assert_eq!(ledger.transfer_tokens(&key(10), &key(10), 30, &key(1)), Ok(()));
    assert_eq!(ledger.token_account(&key(10)).unwrap().amount, 30);
}

#[test]
fn token_transfer_needs_the_controlling_authority() {
    let mut ledger = ledger();
    assert_eq!(
        ledger.check_transfer_tokens(&key(10), &key(11), 20, &key(2)),
        Err(ErrorCode::InvalidAuthority)
    );
    assert_eq!(
        ledger.transfer_tokens(&key(10), &key(11), 20, &key(2)),
        Err(ErrorCode::InvalidAuthority)
    );
    assert_eq!(ledger.token_account(&key(10)).unwrap().amount, 50);
    assert_eq!(ledger.token_account(&key(11)).unwrap().amount, 5);
}

#[test]
fn token_transfer_refuses_what_cannot_be_moved() {
    let mut ledger = ledger();
    assert_eq!(
        ledger.transfer_tokens(&key(10), &key(11), 51, &key(1)),
        Err(ErrorCode::InsufficientTokens)
    );
    assert_eq!(
        ledger.transfer_tokens(&key(12), &key(11), 1, &key(1)),
        Err(ErrorCode::AccountNotFound)
    );
    assert_eq!(
        ledger.transfer_tokens(&key(10), &key(12), 1, &key(1)),
        Err(ErrorCode::AccountNotFound)
    );
    ledger.open_token_account(&key(13), &key(3), u64::MAX - 1, 0).unwrap();
    assert_eq!(
        ledger.transfer_tokens(&key(10), &key(13), 2, &key(1)),
        Err(ErrorCode::BalanceOverflow)
    );
    assert_eq!(ledger.transfer_tokens(&key(10), &key(13), 1, &key(1)), Ok(()));
    assert_eq!(ledger.token_account(&key(13)).unwrap().amount, u64::MAX);
    assert_eq!(ledger.token_account(&key(10)).unwrap().amount, 49);
}

#[test]
fn set_authority_hands_over_control() {
    let mut ledger = ledger();
    assert_eq!(ledger.check_set_authority(&key(10), &key(1), &key(3)), Ok(()));
    assert_eq!(ledger.token_account(&key(10)).unwrap().authority, key(1));
    assert_eq!(ledger.set_authority(&key(10), &key(1), &key(3)), Ok(()));
    assert_eq!(
        ledger.token_account(&key(10)),
        Some(TokenAccount { authority: key(3), amount: 50, deposit: 7 })
    );
    assert_eq!(ledger.set_authority(&key(10), &key(1), &key(4)), Err(ErrorCode::InvalidAuthority));
    assert_eq!(ledger.check_set_authority(&key(10), &key(1), &key(4)), Err(ErrorCode::InvalidAuthority));
    assert_eq!(ledger.set_authority(&key(12), &key(1), &key(4)), Err(ErrorCode::AccountNotFound));
    assert_eq!(ledger.token_account(&key(10)).unwrap().authority, key(3));
    assert_eq!(ledger.transfer_tokens(&key(10), &key(11), 1, &key(1)), Err(ErrorCode::InvalidAuthority));
    assert_eq!(ledger.transfer_tokens(&key(10), &key(11), 1, &key(3)), Ok(()));
}

#[test]
fn close_account_pays_the_deposit_out() {
    let mut ledger = ledger();
    assert_eq!(ledger.check_close_account(&key(10), &key(1), &key(1)), Ok(()));
    assert_eq!(ledger.close_account(&key(10), &key(1), &key(1)), Ok(()));
    assert_eq!(ledger.token_account(&key(10)), None);
    assert_eq!(ledger.balance(&key(1)), 107);
    assert_eq!(ledger.close_account(&key(10), &key(1), &key(1)), Err(ErrorCode::AccountNotFound));
    assert_eq!(ledger.balance(&key(1)), 107);
    assert_eq!(ledger.token_account(&key(11)).unwrap().amount, 5);
}

#[test]
fn close_account_needs_the_controlling_authority() {
    let mut ledger = ledger();
    assert_eq!(ledger.check_close_account(&key(10), &key(2), &key(2)), Err(ErrorCode::InvalidAuthority));
    assert_eq!(ledger.close_account(&key(10), &key(2), &key(2)), Err(ErrorCode::InvalidAuthority));
    assert!(ledger.token_account(&key(10)).is_some());
    assert_eq!(ledger.balance(&key(2)), 0);
    ledger.fund(&key(3), u64::MAX - 6).unwrap();
    assert_eq!(ledger.close_account(&key(10), &key(3), &key(1)), Err(ErrorCode::BalanceOverflow));
    assert!(ledger.token_account(&key(10)).is_some());
    assert_eq!(ledger.balance(&key(3)), u64::MAX - 6);
}

#[test]
fn records_are_read_back_into_a_ledger() {
    let mut ledger = Ledger::new(key(9));
    let sale = token_sale::state::TokenSale::new(key(1), key(10), 5, 100);
    ledger.record_sale(&key(20), sale);
    ledger.record_grant(&key(22));
    assert_eq!(ledger.sale(&key(20)), Some(sale));
    assert_eq!(ledger.sale(&key(22)), None);
    assert!(ledger.whitelist_entry(&key(22)).unwrap().is_whitelisted());
    assert_eq!(ledger.whitelist_entry(&key(20)), None);
    ledger.record_sale(&key(20), token_sale::state::TokenSale::new(key(2), key(11), 6, 7));
    assert_eq!(ledger.sale(&key(20)).unwrap().per_token_price, 6);
}
