use vstd::prelude::*;
use anchor_lang::prelude::Pubkey;
use crate::instruction::{
    le_bytes, push_u64_le, readonly, spec_readonly, spec_writable, writable, AccountSpec,
    PoolAdapter,
};

verus! {

/// Opcode of the constant-product pool's swap-base-in instruction.
pub const AMM_V4_SWAP_OPCODE: u8 = 9;

/// Payload of a constant-product pool swap: opcode, amount in, minimum out.
#[derive(Debug, Clone, Copy, PartialEq, Eq, Structural)]
pub struct RaydiumAmmV4SwapData {
    pub instruction: u8,
    pub amount_in: u64,
    pub minimum_amount_out: u64,
}

impl RaydiumAmmV4SwapData {
    /// The 17-byte wire form: opcode, then both amounts little-endian.
    pub open spec fn spec_bytes(self) -> Seq<u8> {
        seq![self.instruction] + le_bytes(self.amount_in) + le_bytes(self.minimum_amount_out)
    }

    /// A swap of `amount_in` with no floor on the amount out.
    pub fn new(amount_in: u64) -> (r: Self)
        ensures
            r == (RaydiumAmmV4SwapData {
                instruction: AMM_V4_SWAP_OPCODE,
                amount_in,
                minimum_amount_out: 0,
            }),
    {
        RaydiumAmmV4SwapData { instruction: AMM_V4_SWAP_OPCODE, amount_in, minimum_amount_out: 0 }
    }

    pub fn to_bytes(&self) -> (r: Vec<u8>)
        ensures
            r@ == self.spec_bytes(),
            r@.len() == 17,
    {
        let mut out: Vec<u8> = Vec::new();
        out.push(self.instruction);
        push_u64_le(&mut out, self.amount_in);
        push_u64_le(&mut out, self.minimum_amount_out);
        assert(out@ =~= self.spec_bytes());
        out
    }
}

/// The accounts of a constant-product pool swap that also routes through
/// the order book.
#[derive(Clone, Copy)]
pub struct RaydiumAmmV4Swap {
    pub token_program: Pubkey,
    pub pair_address: Pubkey,
    pub ray_authority: Pubkey,
    pub open_orders: Pubkey,
    pub target_orders: Pubkey,
    pub base_vault: Pubkey,
    pub quote_vault: Pubkey,
    pub open_book_program: Pubkey,
    pub market_id: Pubkey,
    pub bids: Pubkey,
    pub asks: Pubkey,
    pub event_queue: Pubkey,
    pub market_base_vault: Pubkey,
    pub market_quote_vault: Pubkey,
    pub authority: Pubkey,
    pub token_account_in: Pubkey,
    pub token_account_out: Pubkey,
    pub owner: Pubkey,
}

impl PoolAdapter for RaydiumAmmV4Swap {
    open spec fn spec_accounts(&self) -> Seq<AccountSpec> {
        seq![
            spec_readonly(self.token_program),
            spec_writable(self.pair_address),
            spec_readonly(self.ray_authority),
            spec_writable(self.open_orders),
            spec_writable(self.target_orders),
            spec_writable(self.base_vault),
            spec_writable(self.quote_vault),
            spec_readonly(self.open_book_program),
            spec_writable(self.market_id),
            spec_writable(self.bids),
            spec_writable(self.asks),
            spec_writable(self.event_queue),
            spec_writable(self.market_base_vault),
            spec_writable(self.market_quote_vault),
            spec_readonly(self.authority),
            spec_writable(self.token_account_in),
            spec_writable(self.token_account_out),
            AccountSpec { pubkey: self.owner, is_signer: true, is_writable: false },
        ]
    }

    open spec fn spec_payload(&self, amount_in: u64) -> Seq<u8> {
        RaydiumAmmV4SwapData {
            instruction: AMM_V4_SWAP_OPCODE,
            amount_in,
            minimum_amount_out: 0,
        }.spec_bytes()
    }

    fn account_list(&self) -> (r: Vec<AccountSpec>) {
        let mut v: Vec<AccountSpec> = Vec::new();
        v.push(readonly(self.token_program));
        v.push(writable(self.pair_address));
        v.push(readonly(self.ray_authority));
        v.push(writable(self.open_orders));
        v.push(writable(self.target_orders));
        v.push(writable(self.base_vault));
        v.push(writable(self.quote_vault));
        v.push(readonly(self.open_book_program));
        v.push(writable(self.market_id));
        v.push(writable(self.bids));
        v.push(writable(self.asks));
        v.push(writable(self.event_queue));
        v.push(writable(self.market_base_vault));
        v.push(writable(self.market_quote_vault));
        v.push(readonly(self.authority));
        v.push(writable(self.token_account_in));
        v.push(writable(self.token_account_out));
        v.push(AccountSpec { pubkey: self.owner, is_signer: true, is_writable: false });
        assert(v@ =~= self.spec_accounts());
        v
    }

    fn encode_payload(&self, amount_in: u64) -> (r: Vec<u8>) {
        RaydiumAmmV4SwapData::new(amount_in).to_bytes()
    }
}

} // verus!
