use vstd::prelude::*;

verus! {

/// The errors that the vault's rules raise.
#[derive(Debug, Clone, Copy, PartialEq, Eq, Structural)]
pub enum K1Error {
    VaultPaused,
    MathOverflow,
    DivisionByZero,
    InvalidFeeBps,
    InsufficientLiquidity,
    StrategyInactive,
    UnauthorizedReporter,
    InvalidMint,
    InvariantViolation,
}

impl K1Error {
    /// The human-readable message of the error.
    pub fn message(&self) -> (m: &'static str)
        ensures
            m@ == error_message(*self)@,
    {
        match self {
            K1Error::VaultPaused => "Vault paused",
            K1Error::MathOverflow => "Math overflow",
            K1Error::DivisionByZero => "Division by zero",
            K1Error::InvalidFeeBps => "Invalid fee bps",
            K1Error::InsufficientLiquidity => "Insufficient liquidity",
            K1Error::StrategyInactive => "Strategy inactive",
            K1Error::UnauthorizedReporter => "Unauthorized reporter",
            K1Error::InvalidMint => "Invalid mint",
            K1Error::InvariantViolation => "Invariant violation",
        }
    }
}

/// The message that goes with each error.
pub open spec fn error_message(e: K1Error) -> &'static str {
    match e {
        K1Error::VaultPaused => "Vault paused",
        K1Error::MathOverflow => "Math overflow",
        K1Error::DivisionByZero => "Division by zero",
        K1Error::InvalidFeeBps => "Invalid fee bps",
        K1Error::InsufficientLiquidity => "Insufficient liquidity",
        K1Error::StrategyInactive => "Strategy inactive",
        K1Error::UnauthorizedReporter => "Unauthorized reporter",
        K1Error::InvalidMint => "Invalid mint",
        K1Error::InvariantViolation => "Invariant violation",
    }
}

} // verus!
