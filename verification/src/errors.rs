use vstd::prelude::*;

verus! {

/// Every failure condition a settlement operation can report.
///
/// All failures are synchronous and typed; an operation that fails leaves the
/// records it was handed unchanged. The taxonomy: validation errors
/// (`TitleTooLong` through `BetTooLarge`, `InvalidTokenMint`, the `Missing*`
/// variants) are caller-correctable; state-machine errors (`MarketNotActive`
/// through `UnauthorizedResolver`, `InvalidPosition`) require the caller to
/// reread state; arithmetic errors (`MathOverflow`, `DivisionByZero`) mean a
/// counter has reached an unsafe magnitude; settlement errors
/// (`NoWinningShares`, `NoWinningsAvailable`, `NoRefundAvailable`,
/// `AlreadyClaimed`, `InsufficientFunds`) are terminal for that claim attempt.
#[derive(Clone, Copy, Debug, PartialEq, Eq, Structural)]
pub enum CryptoBetError {
    TitleTooLong,
    DescriptionTooLong,
    CategoryTooLong,
    InvalidResolutionTime,
    InvalidAmount,
    BetTooSmall,
    BetTooLarge,
    MarketNotActive,
    MarketExpired,
    MarketNotExpired,
    MarketNotResolved,
    MarketNotCancelled,
    MathOverflow,
    DivisionByZero,
    UnauthorizedResolver,
    InvalidPosition,
    NoWinningShares,
    NoWinningsAvailable,
    NoRefundAvailable,
    InsufficientFunds,
    AlreadyClaimed,
    MissingTokenAccount,
    MissingVault,
    MissingTokenProgram,
    InvalidTokenMint,
}

impl CryptoBetError {
    /// A short description of the condition, for hosts that log failures.
    pub fn message(&self) -> &'static str {
        match self {
            CryptoBetError::TitleTooLong => "Title is too long (max 100 characters)",
            CryptoBetError::DescriptionTooLong => "Description is too long (max 500 characters)",
            CryptoBetError::CategoryTooLong => "Category is too long (max 50 characters)",
            CryptoBetError::InvalidResolutionTime => "Resolution time must be in the future",
            CryptoBetError::InvalidAmount => "Invalid bet amount",
            CryptoBetError::BetTooSmall => "Bet amount is too small",
            CryptoBetError::BetTooLarge => "Bet amount is too large",
            CryptoBetError::MarketNotActive => "Market is not active",
            CryptoBetError::MarketExpired => "Market has expired",
            CryptoBetError::MarketNotExpired => "Market has not expired yet",
            CryptoBetError::MarketNotResolved => "Market is not resolved",
            CryptoBetError::MarketNotCancelled => "Market is not cancelled",
            CryptoBetError::MathOverflow => "Math overflow",
            CryptoBetError::DivisionByZero => "Division by zero",
            CryptoBetError::UnauthorizedResolver => "Unauthorized resolver",
            CryptoBetError::InvalidPosition => "Invalid position",
            CryptoBetError::NoWinningShares => "No winning shares",
            CryptoBetError::NoWinningsAvailable => "No winnings available",
            CryptoBetError::NoRefundAvailable => "No refund available",
            CryptoBetError::InsufficientFunds => "Insufficient funds",
            CryptoBetError::AlreadyClaimed => "Winnings already claimed",
            CryptoBetError::MissingTokenAccount => "Missing token account",
            CryptoBetError::MissingVault => "Missing market vault",
            CryptoBetError::MissingTokenProgram => "Missing token program",
            CryptoBetError::InvalidTokenMint => "Invalid token mint",
        }
    }
}

} // verus!
