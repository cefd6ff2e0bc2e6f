use vstd::prelude::*;

verus! {

/// Errors raised by the swap pipeline. Each one aborts the enclosing
/// transaction, so no state change made before it is kept.
#[derive(Debug, Clone, Copy, PartialEq, Eq, Structural)]
pub enum ErrorCode {
    /// The swap-progress record is in the wrong phase for the operation.
    InvalidState,
    /// Settlement found a final balance that does not exceed the starting one.
    NoProfit,
    /// The swap-progress record exists already.
    AlreadyInitialized,
    /// The measured account's balance fell across a hop.
    BalanceDecreased,
}

} // verus!
