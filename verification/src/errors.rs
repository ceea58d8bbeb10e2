//! The closed set of classified failures the swap engine can report.

use vstd::prelude::*;

verus! {

/// Why a quote or a swap was refused. Every failure is returned to the
/// immediate caller; none is fatal to the process.
#[derive(Debug, Clone, Copy, PartialEq, Eq, Structural)]
pub enum SwapError {
    /// No liquidity source lists the requested directed pair (or, at the
    /// aggregator level, no source could satisfy the request at all).
    PairNotSupported,
    /// The pair exists, but the requested amount exceeds the source's
    /// liquidity ceiling.
    InsufficientLiquidity,
    /// The requester's balance of the source token is below the requested
    /// amount.
    InsufficientBalance,
    /// The network declared at onboarding is not the accepted one.
    IncorrectNetwork,
    /// Defensive case for an internal ledger inconsistency; unreachable when
    /// the balance precheck precedes the debit.
    BalanceNotFound,
    /// The wallet address is not present in the user store.
    UserNotFound,
}

} // verus!
