//! The failures that an operation can report.

use vstd::prelude::*;

verus! {

/// Why an operation was refused. Every refusal leaves all state as it was.
#[derive(Clone, Copy, Debug, PartialEq, Eq, Structural)]
pub enum CurveLaunchpadError {
    /// The global configuration has already been initialized.
    AlreadyInitialized,
    /// The global configuration has not been initialized yet.
    NotInitialized,
    /// The caller is not the authority that the operation is reserved for.
    InvalidAuthority,
    /// Trading is paused.
    ProgramIsPaused,
    /// The curve is complete and takes no further trades.
    BondingCurveComplete,
    /// The trader or the curve holds fewer tokens than the trade moves.
    InsufficientTokens,
    /// The trader or the curve holds less currency than the trade moves.
    InsufficientSOL,
    /// The fee recipient named by the caller is not the configured one.
    InvalidFeeRecipient,
    /// The traded amount is zero.
    MinTradeViolation,
    /// The trade would settle outside the bound that the caller declared.
    SlippageExceeded,
    /// A quantity would leave the range it has to be held in.
    ArithmeticOverflow,
    /// A quantity would go below zero.
    ArithmeticUnderflow,
    /// The asset already has a curve, and a curve is created once.
    BondingCurveAlreadyCreated,
    /// The curve is not complete, and only a complete curve is swept.
    BondingCurveNotComplete,
    /// The fee rate is above ten thousand basis points.
    InvalidFeeBasisPoints,
}

} // verus!
