use vstd::prelude::*;
use anchor_lang::prelude::Pubkey;
use crate::instruction::{
    le_bytes, push_bytes, push_u64_le, readonly, spec_readonly, spec_writable, writable,
    AccountSpec, PoolAdapter,
};

verus! {

/// The eight-byte discriminator of the concentrated-liquidity pool's
/// `swap_v2` instruction (2b04ed0b1ac91e62).
pub open spec fn clmm_swap_discriminator() -> Seq<u8> {
    seq![0x2bu8, 0x04u8, 0xedu8, 0x0bu8, 0x1au8, 0xc9u8, 0x1eu8, 0x62u8]
}

/// Payload of a concentrated-liquidity pool swap.
#[derive(Debug, Clone, Copy)]
pub struct RaydiumClmmSwapData {
    pub instruction: [u8; 8],
    pub amount_in: u64,
    pub minimum_amount_out: u64,
    /// Sixteen reserved bytes, all zero.
    pub extra: [u8; 16],
    pub flag: bool,
}

impl RaydiumClmmSwapData {
    /// The 41-byte wire form: discriminator, both amounts little-endian, the
    /// reserved bytes, and the flag as one byte.
    pub open spec fn spec_bytes(self) -> Seq<u8> {
        self.instruction@ + le_bytes(self.amount_in) + le_bytes(self.minimum_amount_out)
            + self.extra@ + seq![if self.flag { 1u8 } else { 0u8 }]
    }

    /// A swap of `amount_in`, exact input, with no floor on the amount out.
    pub fn new(amount_in: u64) -> (r: Self)
        ensures
            r.instruction@ == clmm_swap_discriminator(),
            r.amount_in == amount_in,
            r.minimum_amount_out == 0,
            r.extra@ == Seq::new(16, |i: int| 0u8),
            r.flag,
    {
        let r = RaydiumClmmSwapData {
            instruction: [0x2b, 0x04, 0xed, 0x0b, 0x1a, 0xc9, 0x1e, 0x62],
            amount_in,
            minimum_amount_out: 0,
            extra: [0u8; 16],
            flag: true,
        };
        assert(r.instruction@ =~= clmm_swap_discriminator());
        assert(r.extra@ =~= Seq::new(16, |i: int| 0u8));
        r
    }

    pub fn to_bytes(&self) -> (r: Vec<u8>)
        ensures
            r@ == self.spec_bytes(),
            r@.len() == 41,
    {
        let mut out: Vec<u8> = Vec::new();
        push_bytes(&mut out, &self.instruction);
        push_u64_le(&mut out, self.amount_in);
        push_u64_le(&mut out, self.minimum_amount_out);
        push_bytes(&mut out, &self.extra);
        out.push(if self.flag { 1u8 } else { 0u8 });
        assert(out@ =~= self.spec_bytes());
        out
    }
}

/// The accounts of a concentrated-liquidity pool swap, tick arrays included.
#[derive(Clone, Copy)]
pub struct RaydiumClmmSwap {
    pub owner: Pubkey,
    pub amm_config: Pubkey,
    pub pair_address: Pubkey,
    pub token_account_in: Pubkey,
    pub token_account_out: Pubkey,
    pub input_vault: Pubkey,
    pub output_vault: Pubkey,
    pub observation_id: Pubkey,
    pub token_program: Pubkey,
    pub token_2022_program: Pubkey,
    pub memo_program: Pubkey,
    pub input_mint: Pubkey,
    pub output_mint: Pubkey,
    pub current_tick_array: Pubkey,
    pub bitmap_extension: Pubkey,
    pub next_tick_array_a: Pubkey,
    pub next_tick_array_b: Pubkey,
}

impl PoolAdapter for RaydiumClmmSwap {
    open spec fn spec_accounts(&self) -> Seq<AccountSpec> {
        seq![
            AccountSpec { pubkey: self.owner, is_signer: true, is_writable: true },
            spec_readonly(self.amm_config),
            spec_writable(self.pair_address),
            spec_writable(self.token_account_in),
            spec_writable(self.token_account_out),
            spec_writable(self.input_vault),
            spec_writable(self.output_vault),
            spec_writable(self.observation_id),
            spec_readonly(self.token_program),
            spec_readonly(self.token_2022_program),
            spec_readonly(self.memo_program),
            spec_readonly(self.input_mint),
            spec_readonly(self.output_mint),
            spec_writable(self.current_tick_array),
            spec_writable(self.bitmap_extension),
            spec_writable(self.next_tick_array_a),
            spec_writable(self.next_tick_array_b),
        ]
    }

    open spec fn spec_payload(&self, amount_in: u64) -> Seq<u8> {
        clmm_swap_discriminator() + le_bytes(amount_in) + le_bytes(0) + Seq::new(16, |i: int| 0u8)
            + seq![1u8]
    }

    fn account_list(&self) -> (r: Vec<AccountSpec>) {
        let mut v: Vec<AccountSpec> = Vec::new();
        v.push(AccountSpec { pubkey: self.owner, is_signer: true, is_writable: true });
        v.push(readonly(self.amm_config));
        v.push(writable(self.pair_address));
        v.push(writable(self.token_account_in));
        v.push(writable(self.token_account_out));
        v.push(writable(self.input_vault));
        v.push(writable(self.output_vault));
        v.push(writable(self.observation_id));
        v.push(readonly(self.token_program));
        v.push(readonly(self.token_2022_program));
        v.push(readonly(self.memo_program));
        v.push(readonly(self.input_mint));
        v.push(readonly(self.output_mint));
        v.push(writable(self.current_tick_array));
        v.push(writable(self.bitmap_extension));
        v.push(writable(self.next_tick_array_a));
        v.push(writable(self.next_tick_array_b));
        assert(v@ =~= self.spec_accounts());
        v
    }

    fn encode_payload(&self, amount_in: u64) -> (r: Vec<u8>) {
        RaydiumClmmSwapData::new(amount_in).to_bytes()
    }
}

} // verus!
