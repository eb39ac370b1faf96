//! The ledger on which a sale lives: balances of native currency, token
//! accounts, sale records and whitelist entries, each found by address.
//!
//! [`LedgerState`] is the ledger as mathematics; its operations say what the
//! currency and token subsystems do and when they refuse. [`Ledger`] is the
//! ledger in memory, and each of its methods does what the operation of the
//! same name on its view says.

use vstd::prelude::*;

use crate::address::Address;
use crate::error::ErrorCode;
use crate::state::{Holding, SaleRecord, TokenAccount, TokenSale, WhitelistData};
use crate::table::Table;

verus! {

/// The state of the ledger, as plain values.
#[verifier::ext_equal]
pub struct LedgerState {
    /// The address of the sale program, under which addresses are derived.
    pub program_id: Seq<u8>,
    /// The native currency held at each address; zero where none was ever
    /// received.
    pub balances: Map<Seq<u8>, nat>,
    /// The token accounts that exist.
    pub holdings: Map<Seq<u8>, Holding>,
    /// The sale records that exist.
    pub sales: Map<Seq<u8>, SaleRecord>,
    /// The whitelist entries that exist, each with its flag.
    pub whitelist: Map<Seq<u8>, bool>,
}

impl LedgerState {
    /// The ledger of a program on which nothing has happened yet.
    pub open spec fn empty(program_id: Seq<u8>) -> LedgerState {
        LedgerState {
            program_id,
            balances: Map::total(|address: Seq<u8>| 0nat),
            holdings: Map::empty(),
            sales: Map::empty(),
            whitelist: Map::empty(),
        }
    }

    /// What holds of every ledger in memory: every address has a balance,
    /// and every balance, amount and deposit fits in sixty-four bits.
    pub open spec fn well_formed(self) -> bool {
        &&& forall|address: Seq<u8>| #[trigger]
            self.balances.contains_key(address) && self.balances[address] <= u64::MAX
        &&& forall|address: Seq<u8>| #[trigger]
            self.holdings.contains_key(address) ==> self.holdings[address].amount <= u64::MAX
                && self.holdings[address].deposit <= u64::MAX
        &&& forall|address: Seq<u8>| #[trigger]
            self.sales.contains_key(address) ==> self.sales[address].unit_price <= u64::MAX
                && self.sales[address].purchase_limit <= u64::MAX
    }

    /// Adds `amount` of native currency at `address`.
    pub open spec fn fund(self, address: Seq<u8>, amount: nat) -> Result<LedgerState, ErrorCode> {
        if self.balances[address] + amount > u64::MAX {
            Err(ErrorCode::BalanceOverflow)
        } else {
            Ok(LedgerState { balances: self.balances.insert(address, self.balances[address] + amount), ..self })
        }
    }

    /// Creates the token account `holding` at `address`.
    pub open spec fn open_token_account(self, address: Seq<u8>, holding: Holding) -> Result<
        LedgerState,
        ErrorCode,
    > {
        if self.holdings.contains_key(address) {
            Err(ErrorCode::AccountInUse)
        } else {
            Ok(LedgerState { holdings: self.holdings.insert(address, holding), ..self })
        }
    }

    /// Moves `amount` of native currency from `from` to `to`.
    pub open spec fn transfer_currency(self, from: Seq<u8>, to: Seq<u8>, amount: nat) -> Result<
        LedgerState,
        ErrorCode,
    > {
        if self.balances[from] < amount {
            Err(ErrorCode::InsufficientFunds)
        } else if from == to {
            Ok(self)
        } else if self.balances[to] + amount > u64::MAX {
            Err(ErrorCode::BalanceOverflow)
        } else {
            Ok(
                LedgerState {
                    balances: self.balances.insert(from, (self.balances[from] - amount) as nat).insert(
                        to,
                        self.balances[to] + amount,
                    ),
                    ..self
                },
            )
        }
    }

    /// Moves `amount` tokens from the account at `from` to the account at
    /// `to`, on the word of `authority`, which must control `from`.
    pub open spec fn transfer_tokens(
        self,
        from: Seq<u8>,
        to: Seq<u8>,
        amount: nat,
        authority: Seq<u8>,
    ) -> Result<LedgerState, ErrorCode> {
        if !self.holdings.contains_key(from) || !self.holdings.contains_key(to) {
            Err(ErrorCode::AccountNotFound)
        } else if self.holdings[from].authority != authority {
            Err(ErrorCode::InvalidAuthority)
        } else if self.holdings[from].amount < amount {
            Err(ErrorCode::InsufficientTokens)
        } else if from == to {
            Ok(self)
        } else if self.holdings[to].amount + amount > u64::MAX {
            Err(ErrorCode::BalanceOverflow)
        } else {
            Ok(
                LedgerState {
                    holdings: self.holdings.insert(
                        from,
                        Holding { amount: (self.holdings[from].amount - amount) as nat, ..self.holdings[from] },
                    ).insert(to, Holding { amount: self.holdings[to].amount + amount, ..self.holdings[to] }),
                    ..self
                },
            )
        }
    }

    /// Hands control of the account at `account` from `current` to `next`.
    pub open spec fn set_authority(self, account: Seq<u8>, current: Seq<u8>, next: Seq<u8>) -> Result<
        LedgerState,
        ErrorCode,
    > {
        if !self.holdings.contains_key(account) {
            Err(ErrorCode::AccountNotFound)
        } else if self.holdings[account].authority != current {
            Err(ErrorCode::InvalidAuthority)
        } else {
            Ok(
                LedgerState {
                    holdings: self.holdings.insert(
                        account,
                        Holding { authority: next, ..self.holdings[account] },
                    ),
                    ..self
                },
            )
        }
    }

    /// Closes the account at `account` on the word of `authority`, which
    /// must control it, and pays its deposit to `destination`. What tokens
    /// the account still held are gone with it.
    pub open spec fn close_account(
        self,
        account: Seq<u8>,
        destination: Seq<u8>,
        authority: Seq<u8>,
    ) -> Result<LedgerState, ErrorCode> {
        if !self.holdings.contains_key(account) {
            Err(ErrorCode::AccountNotFound)
        } else if self.holdings[account].authority != authority {
            Err(ErrorCode::InvalidAuthority)
        } else if self.balances[destination] + self.holdings[account].deposit > u64::MAX {
            Err(ErrorCode::BalanceOverflow)
        } else {
            Ok(
                LedgerState {
                    holdings: self.holdings.remove(account),
                    balances: self.balances.insert(
                        destination,
                        self.balances[destination] + self.holdings[account].deposit,
                    ),
                    ..self
                },
            )
        }
    }

    /// Moving currency and tokens, handing over and closing accounts keep a
    /// well-formed ledger well formed.
    pub proof fn lemma_transfers_keep_well_formed(
        self,
        from: Seq<u8>,
        to: Seq<u8>,
        amount: nat,
        authority: Seq<u8>,
    )
        requires
            self.well_formed(),
        ensures
            self.transfer_currency(from, to, amount) matches Ok(next) ==> next.well_formed(),
            self.transfer_tokens(from, to, amount, authority) matches Ok(next) ==> next.well_formed(),
            self.set_authority(from, authority, to) matches Ok(next) ==> next.well_formed(),
            self.close_account(from, to, authority) matches Ok(next) ==> next.well_formed(),
    {
        assert(self.balances.contains_key(from) && self.balances.contains_key(to));
        if let Ok(next) = self.transfer_currency(from, to, amount) {
            assert forall|address: Seq<u8>| #[trigger]
                next.balances.contains_key(address) && next.balances[address] <= u64::MAX by {
                assert(self.balances.contains_key(address));
            }
        }
        if let Ok(next) = self.transfer_tokens(from, to, amount, authority) {
            assert forall|address: Seq<u8>| #[trigger]
                next.holdings.contains_key(address) implies next.holdings[address].amount
                <= u64::MAX && next.holdings[address].deposit <= u64::MAX by {
                assert(self.holdings.contains_key(address));
            }
        }
        if let Ok(next) = self.set_authority(from, authority, to) {
            assert forall|address: Seq<u8>| #[trigger]
                next.holdings.contains_key(address) implies next.holdings[address].amount
                <= u64::MAX && next.holdings[address].deposit <= u64::MAX by {
                assert(self.holdings.contains_key(address));
            }
        }
        if let Ok(next) = self.close_account(from, to, authority) {
            assert(self.holdings.contains_key(from));
            assert forall|address: Seq<u8>| #[trigger]
                next.balances.contains_key(address) && next.balances[address] <= u64::MAX by {
                assert(self.balances.contains_key(address));
            }
            assert forall|address: Seq<u8>| #[trigger]
                next.holdings.contains_key(address) implies next.holdings[address].amount
                <= u64::MAX && next.holdings[address].deposit <= u64::MAX by {
                assert(self.holdings.contains_key(address));
            }
        }
    }

    /// Writes the sale record `record` at `address`.
    pub open spec fn record_sale(self, address: Seq<u8>, record: SaleRecord) -> LedgerState {
        LedgerState { sales: self.sales.insert(address, record), ..self }
    }

    /// Writes a whitelist entry at `address`.
    pub open spec fn record_grant(self, address: Seq<u8>) -> LedgerState {
        LedgerState { whitelist: self.whitelist.insert(address, true), ..self }
    }
}

/// Whether `result`, with the ledger going from `before` to `after`, is
/// what `expected` asks for: on success the expected state, on failure the
/// expected error and a ledger left as it was.
pub open spec fn carried_out(
    before: LedgerState,
    after: LedgerState,
    result: Result<(), ErrorCode>,
    expected: Result<LedgerState, ErrorCode>,
) -> bool {
    match result {
        Ok(()) => expected == Ok::<LedgerState, ErrorCode>(after),
        Err(error) => expected == Err::<LedgerState, ErrorCode>(error) && after == before,
    }
}

/// Whether `result` tells what `expected` would come to, without the
/// ledger being touched.
pub open spec fn foretold(result: Result<(), ErrorCode>, expected: Result<LedgerState, ErrorCode>) -> bool {
    match result {
        Ok(()) => expected is Ok,
        Err(error) => expected == Err::<LedgerState, ErrorCode>(error),
    }
}

/// The ledger, in memory.
pub struct Ledger {
    program_id: Address,
    balances: Table<u64>,
    token_accounts: Table<TokenAccount>,
    sales: Table<TokenSale>,
    whitelist: Table<WhitelistData>,
}

impl View for Ledger {
    type V = LedgerState;

    closed spec fn view(&self) -> LedgerState {
        LedgerState {
            program_id: self.program_id@,
            balances: Map::total(
                |address: Seq<u8>|
                    if self.balances@.contains_key(address) {
                        self.balances@[address] as nat
                    } else {
                        0nat
                    },
            ),
            holdings: self.token_accounts@.map_values(|account: TokenAccount| account@),
            sales: self.sales@.map_values(|sale: TokenSale| sale@),
            whitelist: self.whitelist@.map_values(|entry: WhitelistData| entry@),
        }
    }
}

impl Ledger {
    /// The empty ledger of the program at `program_id`.
    pub fn new(program_id: Address) -> (ledger: Ledger)
        ensures
            ledger@ == LedgerState::empty(program_id@),
    {
        let ledger = Ledger {
            program_id,
            balances: Table::new(),
            token_accounts: Table::new(),
            sales: Table::new(),
            whitelist: Table::new(),
        };
        assert(ledger@ =~= LedgerState::empty(program_id@));
        ledger
    }

    /// The view of a ledger in memory is well formed.
    pub proof fn lemma_well_formed(&self)
        ensures
            self@.well_formed(),
    {
    }

    /// The address of the sale program.
    pub fn program_id(&self) -> (id: Address)
        ensures
            id@ == self@.program_id,
    {
        self.program_id
    }

    /// The native currency held at `address`.
    pub fn balance(&self, address: &Address) -> (amount: u64)
        ensures
            amount == self@.balances[address@],
    {
        match self.balances.get(address) {
            Some(amount) => *amount,
            None => 0,
        }
    }

    /// The token account at `address`, if there is one.
    pub fn token_account(&self, address: &Address) -> (account: Option<TokenAccount>)
        ensures
            match account {
                Some(found) => self@.holdings.contains_key(address@) && found@
                    == self@.holdings[address@],
                None => !self@.holdings.contains_key(address@),
            },
    {
        match self.token_accounts.get(address) {
            Some(found) => Some(*found),
            None => None,
        }
    }

    /// The sale record at `address`, if there is one.
    pub fn sale(&self, address: &Address) -> (sale: Option<TokenSale>)
        ensures
            match sale {
                Some(found) => self@.sales.contains_key(address@) && found@ == self@.sales[address@],
                None => !self@.sales.contains_key(address@),
            },
    {
        match self.sales.get(address) {
            Some(found) => Some(*found),
            None => None,
        }
    }

    /// The whitelist entry at `address`, if there is one.
    pub fn whitelist_entry(&self, address: &Address) -> (entry: Option<WhitelistData>)
        ensures
            match entry {
                Some(found) => self@.whitelist.contains_key(address@) && found@
                    == self@.whitelist[address@],
                None => !self@.whitelist.contains_key(address@),
            },
    {
        match self.whitelist.get(address) {
            Some(found) => Some(*found),
            None => None,
        }
    }

    /// Adds `amount` of native currency at `address`. It stands for
    /// currency that reaches the address from outside the sale.
    pub fn fund(&mut self, address: &Address, amount: u64) -> (result: Result<(), ErrorCode>)
        ensures
            carried_out(old(self)@, final(self)@, result, old(self)@.fund(address@, amount as nat)),
    {
        let held = self.balance(address);
        match held.checked_add(amount) {
            Some(sum) => {
                self.balances.insert(*address, sum);
                assert(self@ =~= old(self)@.fund(address@, amount as nat)->Ok_0);
                Ok(())
            },
            None => Err(ErrorCode::BalanceOverflow),
        }
    }

    /// Creates a token account at `address`, controlled by `authority`,
    /// holding `amount` tokens and backed by `deposit`. It stands for an
    /// account that its owner created and filled outside the sale.
    pub fn open_token_account(
        &mut self,
        address: &Address,
        authority: &Address,
        amount: u64,
        deposit: u64,
    ) -> (result: Result<(), ErrorCode>)
        ensures
            carried_out(
                old(self)@,
                final(self)@,
                result,
                old(self)@.open_token_account(
                    address@,
                    Holding { authority: authority@, amount: amount as nat, deposit: deposit as nat },
                ),
            ),
    {
        if self.token_accounts.contains(address) {
            return Err(ErrorCode::AccountInUse);
        }
        let account = TokenAccount { authority: *authority, amount, deposit };
        self.token_accounts.insert(*address, account);
        assert(self@ =~= old(self)@.open_token_account(address@, account@)->Ok_0);
        Ok(())
    }

    /// Whether a transfer of native currency would go through.
    pub fn check_transfer_currency(&self, from: &Address, to: &Address, amount: u64) -> (result: Result<
        (),
        ErrorCode,
    >)
        ensures
            foretold(result, self@.transfer_currency(from@, to@, amount as nat)),
    {
        if self.balance(from) < amount {
            Err(ErrorCode::InsufficientFunds)
        } else if *from == *to {
            Ok(())
        } else if self.balance(to).checked_add(amount).is_none() {
            Err(ErrorCode::BalanceOverflow)
        } else {
            Ok(())
        }
    }

    /// Moves `amount` of native currency from `from` to `to`. The caller
    /// answers for `from` having agreed to it.
    pub fn transfer_currency(&mut self, from: &Address, to: &Address, amount: u64) -> (result: Result<
        (),
        ErrorCode,
    >)
        ensures
            carried_out(
                old(self)@,
                final(self)@,
                result,
                old(self)@.transfer_currency(from@, to@, amount as nat),
            ),
    {
        self.check_transfer_currency(from, to, amount)?;
        if *from == *to {
            return Ok(());
        }
        let paid = self.balance(from) - amount;
        let received = self.balance(to) + amount;
        self.balances.insert(*from, paid);
        self.balances.insert(*to, received);
        assert(self@ =~= old(self)@.transfer_currency(from@, to@, amount as nat)->Ok_0);
        Ok(())
    }

    /// Whether a transfer of tokens would go through.
    pub fn check_transfer_tokens(
        &self,
        from: &Address,
        to: &Address,
        amount: u64,
        authority: &Address,
    ) -> (result: Result<(), ErrorCode>)
        ensures
            foretold(result, self@.transfer_tokens(from@, to@, amount as nat, authority@)),
    {
        let source = match self.token_account(from) {
            Some(account) => account,
            None => { return Err(ErrorCode::AccountNotFound); },
        };
        let target = match self.token_account(to) {
            Some(account) => account,
            None => { return Err(ErrorCode::AccountNotFound); },
        };
        if source.authority != *authority {
            Err(ErrorCode::InvalidAuthority)
        } else if source.amount < amount {
            Err(ErrorCode::InsufficientTokens)
        } else if *from == *to {
            Ok(())
        } else if target.amount.checked_add(amount).is_none() {
            Err(ErrorCode::BalanceOverflow)
        } else {
            Ok(())
        }
    }

    /// Moves `amount` tokens from the account at `from` to the account at
    /// `to`, on the word of `authority`.
    pub fn transfer_tokens(
        &mut self,
        from: &Address,
        to: &Address,
        amount: u64,
        authority: &Address,
    ) -> (result: Result<(), ErrorCode>)
        ensures
            carried_out(
                old(self)@,
                final(self)@,
                result,
                old(self)@.transfer_tokens(from@, to@, amount as nat, authority@),
            ),
    {
        self.check_transfer_tokens(from, to, amount, authority)?;
        if *from == *to {
            return Ok(());
        }
        let source = match self.token_account(from) {
            Some(account) => account,
            None => { return Err(ErrorCode::AccountNotFound); },
        };
        let target = match self.token_account(to) {
            Some(account) => account,
            None => { return Err(ErrorCode::AccountNotFound); },
        };
        self.token_accounts.insert(*from, TokenAccount { amount: source.amount - amount, ..source });
        self.token_accounts.insert(*to, TokenAccount { amount: target.amount + amount, ..target });
        assert(self@ =~= old(self)@.transfer_tokens(from@, to@, amount as nat, authority@)->Ok_0);
        Ok(())
    }

    /// Whether a change of authority would go through.
    pub fn check_set_authority(&self, account: &Address, current: &Address, next: &Address) -> (result:
        Result<(), ErrorCode>)
        ensures
            foretold(result, self@.set_authority(account@, current@, next@)),
    {
        match self.token_account(account) {
            None => Err(ErrorCode::AccountNotFound),
            Some(found) => if found.authority != *current {
                Err(ErrorCode::InvalidAuthority)
            } else {
                Ok(())
            },
        }
    }

    /// Hands control of the account at `account` from `current` to `next`.
    pub fn set_authority(&mut self, account: &Address, current: &Address, next: &Address) -> (result:
        Result<(), ErrorCode>)
        ensures
            carried_out(
                old(self)@,
                final(self)@,
                result,
                old(self)@.set_authority(account@, current@, next@),
            ),
    {
        match self.token_account(account) {
            None => Err(ErrorCode::AccountNotFound),
            Some(found) => {
                if found.authority != *current {
                    return Err(ErrorCode::InvalidAuthority);
                }
                self.token_accounts.insert(*account, TokenAccount { authority: *next, ..found });
                assert(self@ =~= old(self)@.set_authority(account@, current@, next@)->Ok_0);
                Ok(())
            },
        }
    }

    /// Whether closing an account would go through.
    pub fn check_close_account(&self, account: &Address, destination: &Address, authority: &Address) -> (result:
        Result<(), ErrorCode>)
        ensures
            foretold(result, self@.close_account(account@, destination@, authority@)),
    {
        match self.token_account(account) {
            None => Err(ErrorCode::AccountNotFound),
            Some(found) => if found.authority != *authority {
                Err(ErrorCode::InvalidAuthority)
            } else if self.balance(destination).checked_add(found.deposit).is_none() {
                Err(ErrorCode::BalanceOverflow)
            } else {
                Ok(())
            },
        }
    }

    /// Closes the account at `account` on the word of `authority` and pays
    /// its deposit to `destination`.
    pub fn close_account(&mut self, account: &Address, destination: &Address, authority: &Address) -> (result:
        Result<(), ErrorCode>)
        ensures
            carried_out(
                old(self)@,
                final(self)@,
                result,
                old(self)@.close_account(account@, destination@, authority@),
            ),
    {
        self.check_close_account(account, destination, authority)?;
        let closed = match self.token_accounts.remove(account) {
            Some(found) => found,
            None => { return Err(ErrorCode::AccountNotFound); },
        };
        let refunded = self.balance(destination) + closed.deposit;
        self.balances.insert(*destination, refunded);
        assert(self@ =~= old(self)@.close_account(account@, destination@, authority@)->Ok_0);
        Ok(())
    }

    /// Writes the sale record `sale` at `address`. It stands for a record
    /// read back from where it was stored; a sale is opened by `initialize`.
    pub fn record_sale(&mut self, address: &Address, sale: TokenSale)
        ensures
            final(self)@ == old(self)@.record_sale(address@, sale@),
    {
        self.sales.insert(*address, sale);
        assert(self@ =~= old(self)@.record_sale(address@, sale@));
    }

    /// Writes a whitelist entry at `address`. It stands for an entry read
    /// back from where it was stored; a buyer is admitted by `whitelist`.
    pub fn record_grant(&mut self, address: &Address)
        ensures
            final(self)@ == old(self)@.record_grant(address@),
    {
        self.whitelist.insert(*address, WhitelistData::new());
        assert(self@ =~= old(self)@.record_grant(address@));
    }
}

} // verus!
