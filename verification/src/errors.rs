//! Error taxonomy.
//!
//! Every failed operation reports a specific kind and leaves all state
//! exactly as it was before the call; no error is silently swallowed or
//! downgraded.
use vstd::prelude::*;

verus! {

/// Administrative failures: rejected before any state mutation.
#[derive(Clone, Copy, Debug, PartialEq, Eq, Structural)]
pub enum AdminError {
    /// The fee vault holds no more than the reserved minimum balance.
    NotEnoughLamports,
    /// The program is paused; the requested operation is disabled.
    ProgramPaused,
    /// A supplied configuration value violates its validity rule.
    InvalidConfigParam,
}

/// Checked-arithmetic failures: the whole operation aborts with no
/// partial state change.
#[derive(Clone, Copy, Debug, PartialEq, Eq, Structural)]
pub enum MathError {
    /// An intermediate or final value does not fit its integer type.
    Overflow,
    /// A divisor was zero.
    DivisionByZero,
    /// Narrowing a wide intermediate back to 64 bits would lose precision.
    CastOverflow,
}

/// Trade rejections: the trade has no effect.
#[derive(Clone, Copy, Debug, PartialEq, Eq, Structural)]
pub enum TradeError {
    /// The trade would return less than the caller-supplied floor.
    SlippageExceeded,
    /// The curve has graduated; ordinary trading is permanently disabled.
    CurveCompleted,
    /// The traded amount must be greater than zero.
    ZeroAmount,
    /// The program is paused; trades are rejected.
    ProgramPaused,
    /// The curve does not escrow enough base tokens for this buy.
    NotEnoughTokens,
    /// The curve does not hold enough quote collateral for this sell.
    NotEnoughSol,
    /// Paying out would drop the curve's custody below its reserved floor.
    InsufficientRentExemption,
    /// The supplied referral record does not match its derived identity.
    InvalidReferral,
}

/// Any failure an operation can surface, with its specific kind.
#[derive(Clone, Copy, Debug, PartialEq, Eq, Structural)]
pub enum OpError {
    Admin(AdminError),
    Math(MathError),
    Trade(TradeError),
}

} // verus!
