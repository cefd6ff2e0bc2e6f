use sol_arbitrage_program::{
    end_swap, init_program, prepare_swap, profit_or_revert, raydium_amm_v4_swap,
    raydium_clmm_swap, start_swap, ErrorCode, InitSwapState, RaydiumAmmV4Swap,
    RaydiumClmmSwap, SwapState, TokenAndSwapState,
};
use anchor_lang::prelude::Pubkey;

fn key(n: u8) -> Pubkey {
    Pubkey::new_from_array([n; 32])
}

fn amm_accounts() -> RaydiumAmmV4Swap {
    RaydiumAmmV4Swap {
        token_program: key(1),
        pair_address: key(2),
        ray_authority: key(3),
        open_orders: key(4),
        target_orders: key(5),
        base_vault: key(6),
        quote_vault: key(7),
        open_book_program: key(8),
        market_id: key(9),
        bids: key(10),
        asks: key(11),
        event_queue: key(12),
        market_base_vault: key(13),
        market_quote_vault: key(14),
        authority: key(15),
        token_account_in: key(16),
        token_account_out: key(17),
        owner: key(18),
    }
}

fn clmm_accounts() -> RaydiumClmmSwap {
    RaydiumClmmSwap {
        owner: key(1),
        amm_config: key(2),
        pair_address: key(3),
        token_account_in: key(4),
        token_account_out: key(5),
        input_vault: key(6),
        output_vault: key(7),
        observation_id: key(8),
        token_program: key(9),
        token_2022_program: key(10),
        memo_program: key(11),
        input_mint: key(12),
        output_mint: key(13),
        current_tick_array: key(14),
        bitmap_extension: key(15),
        next_tick_array_a: key(16),
        next_tick_array_b: key(17),
    }
}

fn fresh() -> SwapState {
    SwapState { start_balance: 0, swap_input: 0, is_valid: false }
}

/// Opens a session with 1000 to swap on a tracked balance of 5000, then hops
/// once through the constant-product pool while the destination goes from
/// 200 to 1150.
fn session_after_one_hop() -> SwapState {
    let mut ctx = TokenAndSwapState { src_balance: 5000, swap_state: fresh() };
    start_swap(&mut ctx, 1000).unwrap();
    let ix = raydium_amm_v4_swap(&amm_accounts(), &ctx.swap_state).unwrap();
    assert_eq!(&ix.data[1..9], &1000u64.to_le_bytes());
    let mut state = ctx.swap_state;
    end_swap(&mut state, 200, 1150).unwrap();
    state
}

#[test]
fn bootstrap_records_balance_and_input() {
    let mut ctx = TokenAndSwapState { src_balance: 5000, swap_state: fresh() };
    assert_eq!(start_swap(&mut ctx, 1000), Ok(()));
    assert_eq!(
        ctx.swap_state,
        SwapState { start_balance: 5000, swap_input: 1000, is_valid: true }
    );
    assert_eq!(ctx.src_balance, 5000);
}

#[test]
fn profitable_session_settles() {
    let state = session_after_one_hop();
    assert_eq!(state, SwapState { start_balance: 5000, swap_input: 950, is_valid: true });
    let mut ctx = TokenAndSwapState { src_balance: 5200, swap_state: state };
    assert_eq!(profit_or_revert(&mut ctx), Ok(()));
    assert!(!ctx.swap_state.is_valid);
    assert_eq!(ctx.swap_state.start_balance, 5000);
    assert_eq!(ctx.swap_state.swap_input, 950);
}

#[test]
fn losing_session_is_rolled_back() {
    let state = session_after_one_hop();
    let mut ctx = TokenAndSwapState { src_balance: 4900, swap_state: state };
    assert_eq!(profit_or_revert(&mut ctx), Err(ErrorCode::NoProfit));
    assert_eq!(ctx.swap_state, state);
    assert!(ctx.swap_state.is_valid);
}

#[test]
fn break_even_session_fails() {
    let mut ctx = TokenAndSwapState { src_balance: 5000, swap_state: fresh() };
    start_swap(&mut ctx, 1000).unwrap();
    let before = ctx.swap_state;
    assert_eq!(profit_or_revert(&mut ctx), Err(ErrorCode::NoProfit));
    assert_eq!(ctx.swap_state, before);
}

#[test]
fn one_unit_of_profit_settles() {
    let mut ctx = TokenAndSwapState { src_balance: 5000, swap_state: fresh() };
    start_swap(&mut ctx, 1000).unwrap();
    ctx.src_balance = 5001;
    assert_eq!(profit_or_revert(&mut ctx), Ok(()));
    assert!(!ctx.swap_state.is_valid);
}

#[test]
fn settle_without_session_fails() {
    let mut ctx = TokenAndSwapState { src_balance: 9000, swap_state: fresh() };
    assert_eq!(profit_or_revert(&mut ctx), Err(ErrorCode::InvalidState));
    assert_eq!(ctx.swap_state, fresh());
}

#[test]
fn hop_on_fresh_record_fails() {
    let state = fresh();
    assert!(matches!(
        raydium_amm_v4_swap(&amm_accounts(), &state),
        Err(ErrorCode::InvalidState)
    ));
    assert!(matches!(
        raydium_clmm_swap(&clmm_accounts(), &state),
        Err(ErrorCode::InvalidState)
    ));
    assert_eq!(prepare_swap(&state), Err(ErrorCode::InvalidState));
    let mut after = state;
    assert_eq!(end_swap(&mut after, 200, 1150), Err(ErrorCode::InvalidState));
    assert_eq!(after, fresh());
}

#[test]
fn second_bootstrap_fails() {
    let mut ctx = TokenAndSwapState { src_balance: 5000, swap_state: fresh() };
    start_swap(&mut ctx, 1000).unwrap();
    ctx.src_balance = 7000;
    assert_eq!(start_swap(&mut ctx, 42), Err(ErrorCode::InvalidState));
    assert_eq!(
        ctx.swap_state,
        SwapState { start_balance: 5000, swap_input: 1000, is_valid: true }
    );
}

#[test]
fn new_session_after_settlement() {
    let state = session_after_one_hop();
    let mut ctx = TokenAndSwapState { src_balance: 5200, swap_state: state };
    profit_or_revert(&mut ctx).unwrap();
    assert_eq!(start_swap(&mut ctx, 300), Ok(()));
    assert_eq!(
        ctx.swap_state,
        SwapState { start_balance: 5200, swap_input: 300, is_valid: true }
    );
}

#[test]
fn init_twice_fails_and_keeps_record() {
    let mut slot = InitSwapState { swap_state: None };
    assert_eq!(init_program(&mut slot), Ok(()));
    assert_eq!(slot.swap_state, Some(fresh()));
    assert_eq!(init_program(&mut slot), Err(ErrorCode::AlreadyInitialized));
    assert_eq!(slot.swap_state, Some(fresh()));
}

#[test]
fn init_leaves_existing_record() {
    let open = SwapState { start_balance: 10, swap_input: 20, is_valid: true };
    let mut slot = InitSwapState { swap_state: Some(open) };
    assert_eq!(init_program(&mut slot), Err(ErrorCode::AlreadyInitialized));
    assert_eq!(slot.swap_state, Some(open));
}

#[test]
fn each_hop_passes_on_its_own_delta() {
    let mut ctx = TokenAndSwapState { src_balance: 5000, swap_state: fresh() };
    start_swap(&mut ctx, 1000).unwrap();
    let mut state = ctx.swap_state;
    let hops: [(u64, u64); 3] = [(200, 1150), (0, 7), (500, 500)];
    for (pre, post) in hops {
        assert_eq!(prepare_swap(&state), Ok(state.swap_input));
        end_swap(&mut state, pre, post).unwrap();
        assert_eq!(state.swap_input, post - pre);
        assert!(state.is_valid);
        assert_eq!(state.start_balance, 5000);
    }
    assert_eq!(prepare_swap(&state), Ok(0));
}

#[test]
fn falling_destination_balance_fails() {
    let mut ctx = TokenAndSwapState { src_balance: 5000, swap_state: fresh() };
    start_swap(&mut ctx, 1000).unwrap();
    let mut state = ctx.swap_state;
    assert_eq!(end_swap(&mut state, 1150, 200), Err(ErrorCode::BalanceDecreased));
    assert_eq!(state, ctx.swap_state);
}

#[test]
fn hop_hands_over_the_largest_amount() {
    let mut ctx = TokenAndSwapState { src_balance: 0, swap_state: fresh() };
    start_swap(&mut ctx, 1).unwrap();
    let mut state = ctx.swap_state;
    end_swap(&mut state, 0, u64::MAX).unwrap();
    assert_eq!(prepare_swap(&state), Ok(u64::MAX));
}
