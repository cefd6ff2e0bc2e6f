use vstd::prelude::*;

verus! {

/// The swap-progress record shared by every hop of one session.
#[derive(Debug, Clone, Copy, PartialEq, Eq, Structural)]
pub struct SwapState {
    /// Balance of the tracked token account when the session began.
    pub start_balance: u64,
    /// Amount that the next hop swaps: the input of the session at first,
    /// then what the previous hop delivered.
    pub swap_input: u64,
    /// True while a session is open.
    pub is_valid: bool,
}

/// The record as it stands right after it is created.
pub open spec fn fresh_record() -> SwapState {
    SwapState { start_balance: 0, swap_input: 0, is_valid: false }
}

/// The storage slot of the record, before and after its one-time creation.
#[derive(Debug, Clone, Copy)]
pub struct InitSwapState {
    /// `None` until the record has been created.
    pub swap_state: Option<SwapState>,
}

/// The slot after an attempt to create the record, and the attempt's result.
pub open spec fn init_outcome(slot: Option<SwapState>) -> (Option<SwapState>, Result<(), crate::error::ErrorCode>) {
    match slot {
        None => (Some(fresh_record()), Ok(())),
        Some(_) => (slot, Err(crate::error::ErrorCode::AlreadyInitialized)),
    }
}

/// What a session-opening or settling call reads: the live balance of the
/// tracked token account, and the record.
#[derive(Debug, Clone, Copy, PartialEq, Eq, Structural)]
pub struct TokenAndSwapState {
    /// Balance of the tracked token account, read from the ledger.
    pub src_balance: u64,
    pub swap_state: SwapState,
}

impl TokenAndSwapState {
    /// What the session has gained so far; negative on a loss.
    pub open spec fn profit(self) -> int {
        self.src_balance - self.swap_state.start_balance
    }
}

/// The record after a hop measured `pre` before and `post` after its swap on
/// the destination account.
pub open spec fn after_hop(s: SwapState, pre: u64, post: u64) -> SwapState {
    SwapState { start_balance: s.start_balance, swap_input: (post - pre) as u64, is_valid: s.is_valid }
}

/// The record after a run of hops, each given as its (before, after)
/// measurement, in order.
pub open spec fn run_hops(s: SwapState, hops: Seq<(u64, u64)>) -> SwapState
    decreases hops.len(),
{
    if hops.len() == 0 {
        s
    } else {
        after_hop(run_hops(s, hops.drop_last()), hops.last().0, hops.last().1)
    }
}

} // verus!
