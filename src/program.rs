use vstd::prelude::*;
use crate::error::ErrorCode;
use crate::instruction::{swap_instruction, PoolAdapter, SwapInstruction};
use crate::raydium_amm_v4::RaydiumAmmV4Swap;
use crate::raydium_clmm::RaydiumClmmSwap;
use crate::state::{
    after_hop, init_outcome, run_hops, InitSwapState, SwapState, TokenAndSwapState,
};

verus! {

/// Creates the record once; a second attempt fails and changes nothing.
pub fn init_program(ctx: &mut InitSwapState) -> (r: Result<(), ErrorCode>)
    ensures
        (final(ctx).swap_state, r) == init_outcome(old(ctx).swap_state),
{
    match ctx.swap_state {
        Some(_) => Err(ErrorCode::AlreadyInitialized),
        None => {
            ctx.swap_state = Some(SwapState { start_balance: 0, swap_input: 0, is_valid: false });
            Ok(())
        },
    }
}

/// Opens a session: remembers the tracked balance and the first hop's input.
pub fn start_swap(ctx: &mut TokenAndSwapState, swap_input: u64) -> (r: Result<(), ErrorCode>)
    ensures
        final(ctx).src_balance == old(ctx).src_balance,
        old(ctx).swap_state.is_valid ==> r == Err::<(), ErrorCode>(ErrorCode::InvalidState)
            && final(ctx).swap_state == old(ctx).swap_state,
        !old(ctx).swap_state.is_valid ==> r is Ok && final(ctx).swap_state == (SwapState {
            start_balance: old(ctx).src_balance,
            swap_input,
            is_valid: true,
        }),
{
    if ctx.swap_state.is_valid {
        return Err(ErrorCode::InvalidState);
    }
    ctx.swap_state = SwapState { start_balance: ctx.src_balance, swap_input, is_valid: true };
    Ok(())
}

/// Closes the session, keeping its effects only if the tracked balance grew.
/// On failure the record is left as it was, as the aborted transaction
/// leaves it.
pub fn profit_or_revert(ctx: &mut TokenAndSwapState) -> (r: Result<(), ErrorCode>)
    ensures
        final(ctx).src_balance == old(ctx).src_balance,
        r is Ok <==> old(ctx).swap_state.is_valid && old(ctx).profit() > 0,
        !old(ctx).swap_state.is_valid ==> r == Err::<(), ErrorCode>(ErrorCode::InvalidState),
        old(ctx).swap_state.is_valid && old(ctx).profit() <= 0 ==> r == Err::<(), ErrorCode>(
            ErrorCode::NoProfit,
        ),
        r is Err ==> final(ctx).swap_state == old(ctx).swap_state,
        r is Ok ==> final(ctx).swap_state == (SwapState {
            is_valid: false,
            ..old(ctx).swap_state
        }),
{
    if !ctx.swap_state.is_valid {
        return Err(ErrorCode::InvalidState);
    }
    if ctx.src_balance <= ctx.swap_state.start_balance {
        return Err(ErrorCode::NoProfit);
    }
    ctx.swap_state.is_valid = false;
    Ok(())
}

/// The amount the next hop swaps, while a session is open.
pub fn prepare_swap(swap_state: &SwapState) -> (r: Result<u64, ErrorCode>)
    ensures
        swap_state.is_valid ==> r == Ok::<u64, ErrorCode>(swap_state.swap_input),
        !swap_state.is_valid ==> r == Err::<u64, ErrorCode>(ErrorCode::InvalidState),
{
    if !swap_state.is_valid {
        return Err(ErrorCode::InvalidState);
    }
    Ok(swap_state.swap_input)
}

/// First half of a hop through any pool: the call that swaps the record's
/// pending amount. The record is only read.
pub fn begin_hop<P: PoolAdapter>(pool: &P, swap_state: &SwapState) -> (r: Result<SwapInstruction, ErrorCode>)
    ensures
        match r {
            Ok(ix) => swap_state.is_valid && ix.accounts@ == pool.spec_accounts() && ix.data@
                == pool.spec_payload(swap_state.swap_input),
            Err(e) => !swap_state.is_valid && e == ErrorCode::InvalidState,
        },
{
    let amount_in = prepare_swap(swap_state)?;
    Ok(swap_instruction(pool, amount_in))
}

/// First half of a hop through a constant-product pool.
pub fn raydium_amm_v4_swap(accounts: &RaydiumAmmV4Swap, swap_state: &SwapState) -> (r: Result<SwapInstruction, ErrorCode>)
    ensures
        match r {
            Ok(ix) => swap_state.is_valid && ix.accounts@ == accounts.spec_accounts() && ix.data@
                == accounts.spec_payload(swap_state.swap_input),
            Err(e) => !swap_state.is_valid && e == ErrorCode::InvalidState,
        },
{
    begin_hop(accounts, swap_state)
}

/// First half of a hop through a concentrated-liquidity pool.
pub fn raydium_clmm_swap(accounts: &RaydiumClmmSwap, swap_state: &SwapState) -> (r: Result<SwapInstruction, ErrorCode>)
    ensures
        match r {
            Ok(ix) => swap_state.is_valid && ix.accounts@ == accounts.spec_accounts() && ix.data@
                == accounts.spec_payload(swap_state.swap_input),
            Err(e) => !swap_state.is_valid && e == ErrorCode::InvalidState,
        },
{
    begin_hop(accounts, swap_state)
}

/// Second half of a hop: what the destination account gained across the
/// swap becomes the next hop's input.
pub fn end_swap(swap_state: &mut SwapState, dst_start_balance: u64, dst_end_balance: u64) -> (r: Result<(), ErrorCode>)
    ensures
        !old(swap_state).is_valid ==> r == Err::<(), ErrorCode>(ErrorCode::InvalidState),
        old(swap_state).is_valid && dst_end_balance < dst_start_balance ==> r == Err::<(), ErrorCode>(
            ErrorCode::BalanceDecreased,
        ),
        r is Ok <==> old(swap_state).is_valid && dst_start_balance <= dst_end_balance,
        r is Err ==> *final(swap_state) == *old(swap_state),
        r is Ok ==> *final(swap_state) == after_hop(*old(swap_state), dst_start_balance, dst_end_balance),
{
    if !swap_state.is_valid {
        return Err(ErrorCode::InvalidState);
    }
    if dst_end_balance < dst_start_balance {
        return Err(ErrorCode::BalanceDecreased);
    }
    swap_state.swap_input = dst_end_balance - dst_start_balance;
    Ok(())
}

/// Creating the record twice leaves it as creating it once does, and the
/// second attempt fails.
pub proof fn lemma_init_program_idempotent(slot: Option<SwapState>)
    ensures
        init_outcome(init_outcome(slot).0).0 == init_outcome(slot).0,
        init_outcome(init_outcome(slot).0).1 == Err::<(), ErrorCode>(ErrorCode::AlreadyInitialized),
{
}

/// Along a run of successful hops in an open session, the session stays
/// open, its starting balance is kept, and after each hop the pending amount
/// is exactly what that hop's destination account gained, whatever the
/// earlier hops did.
pub proof fn lemma_pending_amount_tracks_each_hop(s: SwapState, hops: Seq<(u64, u64)>, i: int)
    requires
        s.is_valid,
        0 <= i < hops.len(),
        forall|j: int| 0 <= j < hops.len() ==> #[trigger] hops[j].0 <= hops[j].1,
    ensures
        run_hops(s, hops.take(i)).is_valid,
        run_hops(s, hops.take(i + 1)).is_valid,
        run_hops(s, hops.take(i + 1)).start_balance == s.start_balance,
        run_hops(s, hops.take(i + 1)).swap_input == hops[i].1 - hops[i].0,
    decreases i,
{
    assert(hops.take(i + 1).drop_last() =~= hops.take(i));
    if i == 0 {
        assert(hops.take(0) =~= Seq::<(u64, u64)>::empty());
    } else {
        lemma_pending_amount_tracks_each_hop(s, hops, i - 1);
    }
}

} // verus!
