//! Instructions of the native programs that the harness leans on.

use vstd::prelude::*;
use crate::keys::{
    compute_budget_program_id, ed25519_program_id, ix, token_program_id, AccountMeta, Instruction,
    InstructionView, Pubkey,
};
use crate::wire::{le, push_len, push_u16, push_u32, push_u64};

verus! {

/// Sets the compute-unit limit of a transaction.
pub open spec fn compute_budget(units: u32) -> InstructionView {
    ix(compute_budget_program_id(), seq![], seq![2u8] + le(units as int, 4))
}

pub fn compute_budget_ix(units: u32) -> (r: Instruction)
    ensures
        r@ == compute_budget(units),
{
    let mut data: Vec<u8> = vec![2];
    assert(data@ =~= seq![2u8]);
    push_u32(&mut data, units);
    Instruction::new(compute_budget_program_id(), vec![], data)
}

/// Moves tokens between two token accounts.
pub open spec fn spl_transfer(
    source: Pubkey,
    destination: Pubkey,
    authority: Pubkey,
    amount: u64,
) -> InstructionView {
    ix(
        token_program_id(),
        seq![
            AccountMeta::new(source, false),
            AccountMeta::new(destination, false),
            AccountMeta::new_readonly(authority, true),
        ],
        seq![3u8] + le(amount as int, 8),
    )
}

pub fn spl_transfer_ix(source: Pubkey, destination: Pubkey, authority: Pubkey, amount: u64) -> (r:
    Instruction)
    ensures
        r@ == spl_transfer(source, destination, authority, amount),
{
    let mut data: Vec<u8> = vec![3];
    assert(data@ =~= seq![3u8]);
    push_u64(&mut data, amount);
    let accounts = vec![
        AccountMeta::new(source, false),
        AccountMeta::new(destination, false),
        AccountMeta::new_readonly(authority, true),
    ];
    Instruction::new(token_program_id(), accounts, data)
}

/// The data of a signature check on one message whose signature, signer and
/// payload lie in the data of the instruction at `index`: the signature from
/// `base` on, the signer after it, then two bytes of length, then the payload.
pub open spec fn signature_offsets(base: int, index: int, payload_len: int) -> Seq<u8> {
    seq![1u8, 0u8] + le(base, 2) + le(index, 2) + le(base + 64, 2) + le(index, 2) + le(base + 98, 2)
        + le(payload_len, 2) + le(index, 2)
}

/// The instruction that checks the signature on such a message.
pub open spec fn signature_check(base: int, index: int, payload_len: int) -> InstructionView {
    ix(ed25519_program_id(), seq![], signature_offsets(base, index, payload_len))
}

pub fn signature_check_ix(base: u16, index: u16, payload_len: usize) -> (r: Instruction)
    requires
        base + 98 <= u16::MAX,
    ensures
        r@ == signature_check(base as int, index as int, payload_len as int),
{
    let mut data: Vec<u8> = vec![1, 0];
    assert(data@ =~= seq![1u8, 0u8]);
    push_u16(&mut data, base);
    push_u16(&mut data, index);
    push_u16(&mut data, base + 64);
    push_u16(&mut data, index);
    push_u16(&mut data, base + 98);
    push_len(&mut data, payload_len, 2);
    push_u16(&mut data, index);
    Instruction::new(ed25519_program_id(), vec![], data)
}

} // verus!
