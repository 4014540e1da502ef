//! The failure taxonomy of the exchange.
//!
//! Every failure is detected synchronously, before or during settlement,
//! and rejects the whole operation with zero state change.

use vstd::prelude::*;

verus! {

/// Why an operation was rejected.
#[derive(Clone, Copy, Debug, PartialEq, Eq, Structural)]
pub enum CurveLaunchpadError {
    /// The protocol-wide configuration has not been created yet.
    ProtocolNotInitialized,
    /// The protocol-wide configuration already exists.
    AlreadyInitialized,
    /// The caller, or a caller-supplied identity, does not match the
    /// configured authority, fee recipient or withdraw authority.
    Unauthorized,
    /// The curve has graduated: trading on it is over.
    CurveComplete,
    /// The curve has not graduated yet, so the treasury stays locked.
    CurveNotComplete,
    /// A balance or a reserve is too small for the requested amount.
    InsufficientBalance,
    /// The cost of a buy rose above, or the proceeds of a sell fell below,
    /// the caller's stated bound.
    SlippageExceeded,
    /// The traded amount must be at least one token.
    BelowMinimumTradeSize,
    /// A computation would overflow or make a reserve negative; the
    /// operation fails rather than wrapping.
    ArithmeticFault,
    /// The per-actor transfer quota or cooldown forbids the transfer.
    RateLimited,
}

} // verus!
