use vstd::prelude::*;

verus! {

/// Relies on anchor_lang's `Pubkey` (solana_program's 32-byte address type)
/// only as a value that is copied and compared, never read.
#[verifier::external_type_specification]
#[verifier::external_body]
pub struct ExPubkey(anchor_lang::prelude::Pubkey);

/// One entry of the ordered account list that a pool program expects.
#[derive(Debug, Clone, Copy)]
pub struct AccountSpec {
    pub pubkey: anchor_lang::prelude::Pubkey,
    pub is_signer: bool,
    pub is_writable: bool,
}

/// A writable account that does not sign.
pub open spec fn spec_writable(pubkey: anchor_lang::prelude::Pubkey) -> AccountSpec {
    AccountSpec { pubkey, is_signer: false, is_writable: true }
}

/// A read-only account that does not sign.
pub open spec fn spec_readonly(pubkey: anchor_lang::prelude::Pubkey) -> AccountSpec {
    AccountSpec { pubkey, is_signer: false, is_writable: false }
}

/// The entry of an account that the pool program may write.
pub fn writable(pubkey: anchor_lang::prelude::Pubkey) -> (r: AccountSpec)
    ensures
        r == spec_writable(pubkey),
{
    AccountSpec { pubkey, is_signer: false, is_writable: true }
}

/// The entry of an account that the pool program only reads.
pub fn readonly(pubkey: anchor_lang::prelude::Pubkey) -> (r: AccountSpec)
    ensures
        r == spec_readonly(pubkey),
{
    AccountSpec { pubkey, is_signer: false, is_writable: false }
}

/// A call into a pool program: the accounts in the order the program reads
/// them, and the encoded payload.
pub struct SwapInstruction {
    pub accounts: Vec<AccountSpec>,
    pub data: Vec<u8>,
}

/// The eight little-endian bytes of `x`.
pub open spec fn le_bytes(x: u64) -> Seq<u8> {
    Seq::new(8, |i: int| (x >> ((8 * i) as u64)) as u8)
}

/// Appends the little-endian bytes of `x` to `out`.
pub fn push_u64_le(out: &mut Vec<u8>, x: u64)
    ensures
        final(out)@ == old(out)@ + le_bytes(x),
{
    let ghost start = out@;
    let mut i: u64 = 0;
    while i < 8
        invariant
            i <= 8,
            out@ == start + le_bytes(x).take(i as int),
        decreases 8 - i,
    {
        out.push((x >> (8 * i)) as u8);
        assert(le_bytes(x).take(i as int + 1) =~= le_bytes(x).take(i as int).push(
            (x >> (8 * i)) as u8,
        ));
        i = i + 1;
    }
    assert(le_bytes(x).take(8) =~= le_bytes(x));
}

/// Appends the bytes of `bytes` to `out`, in order.
pub fn push_bytes(out: &mut Vec<u8>, bytes: &[u8])
    ensures
        final(out)@ == old(out)@ + bytes@,
{
    let ghost start = out@;
    let mut i: usize = 0;
    while i < bytes.len()
        invariant
            i <= bytes@.len(),
            out@ == start + bytes@.take(i as int),
        decreases bytes@.len() - i,
    {
        out.push(bytes[i]);
        assert(bytes@.take(i as int + 1) =~= bytes@.take(i as int).push(bytes@[i as int]));
        i = i + 1;
    }
    assert(bytes@.take(bytes@.len() as int) =~= bytes@);
}

/// What a pool adapter supplies to the hop pipeline: the fixed account list
/// of its pool program and the binary encoding of a swap of `amount_in`.
pub trait PoolAdapter {
    spec fn spec_accounts(&self) -> Seq<AccountSpec>;

    spec fn spec_payload(&self, amount_in: u64) -> Seq<u8>;

    fn account_list(&self) -> (r: Vec<AccountSpec>)
        ensures
            r@ == self.spec_accounts(),
    ;

    fn encode_payload(&self, amount_in: u64) -> (r: Vec<u8>)
        ensures
            r@ == self.spec_payload(amount_in),
    ;
}

/// Builds the call that swaps `amount_in` through `pool`.
pub fn swap_instruction<P: PoolAdapter>(pool: &P, amount_in: u64) -> (r: SwapInstruction)
    ensures
        r.accounts@ == pool.spec_accounts(),
        r.data@ == pool.spec_payload(amount_in),
{
    SwapInstruction { accounts: pool.account_list(), data: pool.encode_payload(amount_in) }
}

} // verus!
