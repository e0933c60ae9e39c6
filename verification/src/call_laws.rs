//! What the calls of a scenario may change, whom they bind, and what they say.
//!
//! A call is judged by what the exchange makes of it: the accounts that it may
//! write, the accounts that it only reads, each list in order, the one key that
//! signs it, and the numbers that its arguments spell.

use vstd::prelude::*;
use crate::keys::{AccountMeta, Pubkey, TransactionView};
use crate::wire::{le, le_len, le_round_trip, le_value, pow256};

verus! {

/// The first accounts that may be written, in order.
pub open spec fn written(accounts: Seq<AccountMeta>, n: nat) -> Seq<Pubkey>
    decreases n,
{
    if n == 0 {
        Seq::empty()
    } else if accounts[n - 1].is_writable {
        written(accounts, (n - 1) as nat).push(accounts[n - 1].pubkey)
    } else {
        written(accounts, (n - 1) as nat)
    }
}

/// The first accounts that are only read, in order.
pub open spec fn consulted(accounts: Seq<AccountMeta>, n: nat) -> Seq<Pubkey>
    decreases n,
{
    if n == 0 {
        Seq::empty()
    } else if accounts[n - 1].is_writable {
        consulted(accounts, (n - 1) as nat)
    } else {
        consulted(accounts, (n - 1) as nat).push(accounts[n - 1].pubkey)
    }
}

/// What a call may write.
pub open spec fn writes(t: TransactionView) -> Seq<Pubkey> {
    written(t.instructions[0].accounts, t.instructions[0].accounts.len())
}

/// What a call only reads.
pub open spec fn reads(t: TransactionView) -> Seq<Pubkey> {
    consulted(t.instructions[0].accounts, t.instructions[0].accounts.len())
}

/// One call to a program, which one key signs: no account of another key has to.
pub open spec fn sent_by(t: TransactionView, program: Pubkey, signer: Pubkey) -> bool {
    let accounts = t.instructions[0].accounts;
    &&& t.instructions.len() == 1
    &&& t.instructions[0].program_id == program
    &&& t.signers == seq![signer]
    &&& forall|i: int|
        0 <= i < accounts.len() && (#[trigger] accounts[i]).is_signer ==> accounts[i].pubkey
            == signer
}

/// A call that none of its accounts has to sign: whoever pays may make it.
pub open spec fn nobody_need_sign(t: TransactionView) -> bool {
    forall|i: int|
        0 <= i < t.instructions[0].accounts.len()
            ==> !(#[trigger] t.instructions[0].accounts[i]).is_signer
}

/// The number that some bytes of a call's data spell.
pub open spec fn number(t: TransactionView, from: int, width: int) -> int {
    le_value(t.instructions[0].data.subrange(from, from + width))
}

/// What eight bytes spell for an amount of either sign: a negative one is counted
/// down from two to the sixty-fourth.
pub open spec fn complement(magnitude: u64, negative: bool) -> int {
    if negative && magnitude > 0 {
        0x1_0000_0000_0000_0000 - magnitude
    } else {
        magnitude as int
    }
}

/// The tag that a call's data begins with.
pub open spec fn tag(t: TransactionView) -> Seq<u8> {
    t.instructions[0].data.take(8)
}

/// What so many bytes can spell.
pub proof fn widths()
    ensures
        pow256(1) == 0x100,
        pow256(2) == 0x1_0000,
        pow256(4) == 0x1_0000_0000,
        pow256(8) == 0x1_0000_0000_0000_0000,
        pow256(16) == 0x1_0000_0000_0000_0000_0000_0000_0000_0000,
{
    reveal_with_fuel(pow256, 17);
}

/// A number reads back from between other bytes.
pub proof fn spelled(before: Seq<u8>, value: int, width: nat, after: Seq<u8>)
    requires
        0 <= value < pow256(width),
    ensures
        le_value(
            (before + le(value, width) + after).subrange(
                before.len() as int,
                (before.len() + width) as int,
            ),
        ) == value,
        le(value, width).len() == width,
{
    le_len(value, width);
    le_round_trip(value, width);
    assert((before + le(value, width) + after).subrange(
        before.len() as int,
        (before.len() + width) as int,
    ) =~= le(value, width));
}

} // verus!
