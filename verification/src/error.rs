//! The errors of the sale protocol and the classes they fall into.

use vstd::prelude::*;

verus! {

/// The class of an error: what went wrong, at the level a caller acts on.
#[derive(Clone, Copy, Debug, PartialEq, Eq, Structural)]
pub enum ErrorKind {
    /// The caller is not who the operation requires, or an account that was
    /// handed in is not the one the sale is bound to.
    Authorization,
    /// The request breaks a rule that the seller configured.
    Policy,
    /// An amount does not fit in sixty-four bits.
    Arithmetic,
    /// An account holds too little.
    Resource,
    /// The sale or an account is not in the state that the operation needs.
    State,
    /// No keyless address could be derived.
    Configuration,
}

/// Why an operation was refused. Every error ends the operation, and an
/// operation that ends in an error has changed nothing.
#[derive(Clone, Copy, Debug, PartialEq, Eq, Structural)]
pub enum ErrorCode {
    /// The caller is not the seller named in the sale record.
    InvalidSellerAccount,
    /// More tokens were asked for than one purchase may take.
    PurchaseLimitExceeded,
    /// The buyer has no whitelist entry for the sale.
    NotWhitelisted,
    /// A token account is not controlled by the authority that was declared.
    InvalidAuthority,
    /// An account that was handed in is not at the address the sale binds it to.
    AddressMismatch,
    /// The price of the purchase does not fit in sixty-four bits.
    ArithmeticOverflow,
    /// The receiving balance would not fit in sixty-four bits.
    BalanceOverflow,
    /// The payer holds less currency than is to be moved.
    InsufficientFunds,
    /// The token account holds fewer tokens than are to be moved.
    InsufficientTokens,
    /// The seller already has a sale record.
    AlreadyInitialized,
    /// The buyer already has a whitelist entry for the sale.
    AlreadyWhitelisted,
    /// There is no sale record at the address.
    SaleNotInitialized,
    /// The escrow of the sale has been closed.
    SaleEnded,
    /// There is no token account at the address.
    AccountNotFound,
    /// There already is a token account at the address.
    AccountInUse,
    /// No bump seed gives a keyless address for the seeds.
    DerivationFailed,
}

impl ErrorCode {
    /// The class of the error.
    pub open spec fn spec_kind(self) -> ErrorKind {
        match self {
            ErrorCode::InvalidSellerAccount => ErrorKind::Authorization,
            ErrorCode::PurchaseLimitExceeded => ErrorKind::Policy,
            ErrorCode::NotWhitelisted => ErrorKind::Authorization,
            ErrorCode::InvalidAuthority => ErrorKind::Authorization,
            ErrorCode::AddressMismatch => ErrorKind::Authorization,
            ErrorCode::ArithmeticOverflow => ErrorKind::Arithmetic,
            ErrorCode::BalanceOverflow => ErrorKind::Arithmetic,
            ErrorCode::InsufficientFunds => ErrorKind::Resource,
            ErrorCode::InsufficientTokens => ErrorKind::Resource,
            ErrorCode::AlreadyInitialized => ErrorKind::State,
            ErrorCode::AlreadyWhitelisted => ErrorKind::State,
            ErrorCode::SaleNotInitialized => ErrorKind::State,
            ErrorCode::SaleEnded => ErrorKind::State,
            ErrorCode::AccountNotFound => ErrorKind::State,
            ErrorCode::AccountInUse => ErrorKind::State,
            ErrorCode::DerivationFailed => ErrorKind::Configuration,
        }
    }

    /// The number under which the error is reported.
    pub open spec fn spec_code(self) -> u32 {
        match self {
            ErrorCode::InvalidSellerAccount => 6000,
            ErrorCode::PurchaseLimitExceeded => 6001,
            ErrorCode::NotWhitelisted => 6002,
            ErrorCode::InvalidAuthority => 6003,
            ErrorCode::AddressMismatch => 6004,
            ErrorCode::ArithmeticOverflow => 6005,
            ErrorCode::BalanceOverflow => 6006,
            ErrorCode::InsufficientFunds => 6007,
            ErrorCode::InsufficientTokens => 6008,
            ErrorCode::AlreadyInitialized => 6009,
            ErrorCode::AlreadyWhitelisted => 6010,
            ErrorCode::SaleNotInitialized => 6011,
            ErrorCode::SaleEnded => 6012,
            ErrorCode::AccountNotFound => 6013,
            ErrorCode::AccountInUse => 6014,
            ErrorCode::DerivationFailed => 6015,
        }
    }

    /// The class of the error.
    #[verifier::when_used_as_spec(spec_kind)]
    pub fn kind(self) -> (kind: ErrorKind)
        ensures
            kind == self.spec_kind(),
    {
        match self {
            ErrorCode::InvalidSellerAccount => ErrorKind::Authorization,
            ErrorCode::PurchaseLimitExceeded => ErrorKind::Policy,
            ErrorCode::NotWhitelisted => ErrorKind::Authorization,
            ErrorCode::InvalidAuthority => ErrorKind::Authorization,
            ErrorCode::AddressMismatch => ErrorKind::Authorization,
            ErrorCode::ArithmeticOverflow => ErrorKind::Arithmetic,
            ErrorCode::BalanceOverflow => ErrorKind::Arithmetic,
            ErrorCode::InsufficientFunds => ErrorKind::Resource,
            ErrorCode::InsufficientTokens => ErrorKind::Resource,
            ErrorCode::AlreadyInitialized => ErrorKind::State,
            ErrorCode::AlreadyWhitelisted => ErrorKind::State,
            ErrorCode::SaleNotInitialized => ErrorKind::State,
            ErrorCode::SaleEnded => ErrorKind::State,
            ErrorCode::AccountNotFound => ErrorKind::State,
            ErrorCode::AccountInUse => ErrorKind::State,
            ErrorCode::DerivationFailed => ErrorKind::Configuration,
        }
    }

    /// The number under which the error is reported: 6000 for the first
    /// variant, and one more for each that follows.
    #[verifier::when_used_as_spec(spec_code)]
    pub fn code(self) -> (code: u32)
        ensures
            code == self.spec_code(),
            6000 <= code <= 6015,
    {
        match self {
            ErrorCode::InvalidSellerAccount => 6000,
            ErrorCode::PurchaseLimitExceeded => 6001,
            ErrorCode::NotWhitelisted => 6002,
            ErrorCode::InvalidAuthority => 6003,
            ErrorCode::AddressMismatch => 6004,
            ErrorCode::ArithmeticOverflow => 6005,
            ErrorCode::BalanceOverflow => 6006,
            ErrorCode::InsufficientFunds => 6007,
            ErrorCode::InsufficientTokens => 6008,
            ErrorCode::AlreadyInitialized => 6009,
            ErrorCode::AlreadyWhitelisted => 6010,
            ErrorCode::SaleNotInitialized => 6011,
            ErrorCode::SaleEnded => 6012,
            ErrorCode::AccountNotFound => 6013,
            ErrorCode::AccountInUse => 6014,
            ErrorCode::DerivationFailed => 6015,
        }
    }

    /// A short description of the error.
    pub open spec fn spec_message(self) -> Seq<char> {
        match self {
            ErrorCode::InvalidSellerAccount => "Invalid Seller"@,
            ErrorCode::PurchaseLimitExceeded => "Purchase Limit Exceeded"@,
            ErrorCode::NotWhitelisted => "Buyer Not Whitelisted"@,
            ErrorCode::InvalidAuthority => "Invalid Token Account Authority"@,
            ErrorCode::AddressMismatch => "Account Address Mismatch"@,
            ErrorCode::ArithmeticOverflow => "Price Overflow"@,
            ErrorCode::BalanceOverflow => "Balance Overflow"@,
            ErrorCode::InsufficientFunds => "Insufficient Funds"@,
            ErrorCode::InsufficientTokens => "Insufficient Tokens"@,
            ErrorCode::AlreadyInitialized => "Sale Already Initialized"@,
            ErrorCode::AlreadyWhitelisted => "Buyer Already Whitelisted"@,
            ErrorCode::SaleNotInitialized => "Sale Not Initialized"@,
            ErrorCode::SaleEnded => "Sale Ended"@,
            ErrorCode::AccountNotFound => "Token Account Not Found"@,
            ErrorCode::AccountInUse => "Token Account In Use"@,
            ErrorCode::DerivationFailed => "No Viable Bump Seed"@,
        }
    }

    /// A short description of the error.
    pub fn message(self) -> (text: &'static str)
        ensures
            text@ == self.spec_message(),
    {
        match self {
            ErrorCode::InvalidSellerAccount => "Invalid Seller",
            ErrorCode::PurchaseLimitExceeded => "Purchase Limit Exceeded",
            ErrorCode::NotWhitelisted => "Buyer Not Whitelisted",
            ErrorCode::InvalidAuthority => "Invalid Token Account Authority",
            ErrorCode::AddressMismatch => "Account Address Mismatch",
            ErrorCode::ArithmeticOverflow => "Price Overflow",
            ErrorCode::BalanceOverflow => "Balance Overflow",
            ErrorCode::InsufficientFunds => "Insufficient Funds",
            ErrorCode::InsufficientTokens => "Insufficient Tokens",
            ErrorCode::AlreadyInitialized => "Sale Already Initialized",
            ErrorCode::AlreadyWhitelisted => "Buyer Already Whitelisted",
            ErrorCode::SaleNotInitialized => "Sale Not Initialized",
            ErrorCode::SaleEnded => "Sale Ended",
            ErrorCode::AccountNotFound => "Token Account Not Found",
            ErrorCode::AccountInUse => "Token Account In Use",
            ErrorCode::DerivationFailed => "No Viable Bump Seed",
        }
    }

    /// Different errors are reported under different numbers.
    pub proof fn lemma_code_distinguishes(self, other: ErrorCode)
        requires
            self.spec_code() == other.spec_code(),
        ensures
            self == other,
    {
    }
}

} // verus!
