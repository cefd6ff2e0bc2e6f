//! Atomic settlement of multi-hop swaps: a persistent swap-progress record,
//! the start / hop / settle state machine around it, and the pool adapters
//! that encode each external pool program's swap instruction.

pub mod error;
pub mod instruction;
pub mod raydium_amm_v4;
pub mod raydium_clmm;
pub mod state;
pub mod program;

pub use error::ErrorCode;
pub use instruction::{AccountSpec, PoolAdapter, SwapInstruction};
pub use program::{
    begin_hop, end_swap, init_program, prepare_swap, profit_or_revert, raydium_amm_v4_swap,
    raydium_clmm_swap, start_swap,
};
pub use raydium_amm_v4::{RaydiumAmmV4Swap, RaydiumAmmV4SwapData};
pub use raydium_clmm::{RaydiumClmmSwap, RaydiumClmmSwapData};
pub use state::{InitSwapState, SwapState, TokenAndSwapState};
