//! What bytes stand for, and what is kept when more are written.

use vstd::prelude::*;
use crate::accounts::{amm_cache_bytes, flattened};
use crate::keys::{
    associated_token_program_id, ata, compute_budget_program_id, ed25519_program_id,
    program_address, token_program_id, AccountMeta, Instruction, Pubkey, Transaction,
};
use crate::programs::{compute_budget_ix, signature_check_ix, spl_transfer_ix};
use crate::swift::{signed_msg_account_data, signed_msg_space};
use crate::trading::join;
use crate::wire::{
    bare, flag_byte, i64_bytes, ix_data, le, le_len, le_round_trip, le_value, pow256, push_i64,
    push_opt, push_opt_u8, push_u128, push_u16, push_u32, push_u64, push_u8, read_le, u16_bytes,
    u32_bytes, u64_bytes,
};

verus! {

proof fn widths()
    ensures
        pow256(1) == 0x100,
        pow256(2) == 0x1_0000,
        pow256(4) == 0x1_0000_0000,
        pow256(8) == 0x1_0000_0000_0000_0000,
        pow256(16) == 0x1_0000_0000_0000_0000_0000_0000_0000_0000,
{
    reveal_with_fuel(pow256, 17);
}

/// The least significant byte comes first: each byte of an encoding counts two
/// hundred and fifty-six times the one before it.
pub proof fn low_bytes_come_first(value: int, width: nat, k: nat)
    requires
        k < width,
        value >= 0,
    ensures
        le(value, width).len() == width,
        le(value, width)[k as int] == (value / pow256(k)) % 256,
    decreases width,
{
    le_len(value, width);
    let rest = le(value / 256, (width - 1) as nat);
    if k == 0 {
        assert(pow256(0) == 1);
        assert(value / 1 == value);
    } else {
        let j = (k - 1) as nat;
        low_bytes_come_first(value / 256, (width - 1) as nat, j);
        assert(le(value, width)[k as int] == rest[j as int]);
        positive(j);
        vstd::arithmetic::div_mod::lemma_div_denominator(value, 256, pow256(j));
    }
}

proof fn positive(n: nat)
    ensures
        pow256(n) > 0,
    decreases n,
{
    if n > 0 {
        positive((n - 1) as nat);
    }
}

/// Two bytes spell a number by its low and its high part.
pub proof fn two_bytes_are_low_and_high(value: u16, r: Vec<u8>)
    requires
        call_ensures(u16_bytes, (value,), r),
    ensures
        r@.len() == 2,
        r@[0] == value % 256,
        r@[1] == value / 256,
{
    widths();
    low_bytes_come_first(value as int, 2, 0);
    low_bytes_come_first(value as int, 2, 1);
    assert(pow256(0) == 1);
}

/// Numbers read back from their encodings; a negative one reads as its complement.
pub proof fn encodings_read_back(
    a: u32,
    b: u64,
    c: i64,
    x: Vec<u8>,
    y: Vec<u8>,
    z: Vec<u8>,
)
    requires
        call_ensures(u32_bytes, (a,), x),
        call_ensures(u64_bytes, (b,), y),
        call_ensures(i64_bytes, (c,), z),
    ensures
        x@.len() == 4 && le_value(x@) == a && x@[0] == a % 256,
        y@.len() == 8 && le_value(y@) == b && y@[0] == b % 256,
        z@.len() == 8,
        c >= 0 ==> le_value(z@) == c,
        c < 0 ==> le_value(z@) == 0x1_0000_0000_0000_0000 + c,
{
    widths();
    le_round_trip(a as int, 4);
    le_round_trip(b as int, 8);
    le_len(a as int, 4);
    le_len(b as int, 8);
    low_bytes_come_first(a as int, 4, 0);
    low_bytes_come_first(b as int, 8, 0);
    assert(pow256(0) == 1);
    let v = if c < 0 {
        c + 0x1_0000_0000_0000_0000
    } else {
        c as int
    };
    le_len(v, 8);
    le_round_trip(v, 8);
}

/// What was in a buffer stays, and what is written comes after it.
pub open spec fn grew_by(before: Seq<u8>, after: Seq<u8>, width: nat) -> bool {
    after.len() == before.len() + width && after.take(before.len() as int) == before
}

/// A number is written after what a buffer holds, in as many bytes as its kind has,
/// and reads back.
pub proof fn numbers_are_appended(buf: &mut Vec<u8>, a: u8, b: u16, c: u32, d: u64, e: u128, s: i64)
    ensures
        call_ensures(push_u8, (buf, a), ()) ==> grew_by(old(buf)@, final(buf)@, 1)
            && final(buf)@.last() == a,
        call_ensures(push_u16, (buf, b), ()) ==> grew_by(old(buf)@, final(buf)@, 2) && le_value(
            final(buf)@.skip(old(buf)@.len() as int),
        ) == b,
        call_ensures(push_u32, (buf, c), ()) ==> grew_by(old(buf)@, final(buf)@, 4) && le_value(
            final(buf)@.skip(old(buf)@.len() as int),
        ) == c,
        call_ensures(push_u64, (buf, d), ()) ==> grew_by(old(buf)@, final(buf)@, 8) && le_value(
            final(buf)@.skip(old(buf)@.len() as int),
        ) == d,
        call_ensures(push_u128, (buf, e), ()) ==> grew_by(old(buf)@, final(buf)@, 16) && le_value(
            final(buf)@.skip(old(buf)@.len() as int),
        ) == e,
        call_ensures(push_i64, (buf, s), ()) ==> grew_by(old(buf)@, final(buf)@, 8) && le_value(
            final(buf)@.skip(old(buf)@.len() as int),
        ) == (if s < 0 {
            s + 0x1_0000_0000_0000_0000
        } else {
            s as int
        }),
{
    widths();
    let o = old(buf)@;
    let f = final(buf)@;
    let v = if s < 0 {
        s + 0x1_0000_0000_0000_0000
    } else {
        s as int
    };
    le_len(b as int, 2);
    le_len(c as int, 4);
    le_len(d as int, 8);
    le_len(e as int, 16);
    le_len(v, 8);
    le_round_trip(b as int, 2);
    le_round_trip(c as int, 4);
    le_round_trip(d as int, 8);
    le_round_trip(e as int, 16);
    le_round_trip(v, 8);
    appended(o, le(b as int, 2));
    appended(o, le(c as int, 4));
    appended(o, le(d as int, 8));
    appended(o, le(e as int, 16));
    appended(o, le(v, 8));
    appended(o, seq![a]);
}

proof fn appended(o: Seq<u8>, x: Seq<u8>)
    ensures
        (o + x).take(o.len() as int) == o,
        (o + x).skip(o.len() as int) == x,
{
    assert((o + x).take(o.len() as int) =~= o);
    assert((o + x).skip(o.len() as int) =~= x);
}

/// An option is a one and what it holds, or a zero and nothing.
pub proof fn options_are_tagged(buf: &mut Vec<u8>, some: bool, payload: &Vec<u8>, value: u8)
    ensures
        call_ensures(push_opt, (buf, some, payload), ()) ==> {
            let after = final(buf)@.skip(old(buf)@.len() as int);
            &&& final(buf)@.take(old(buf)@.len() as int) == old(buf)@
            &&& some ==> after[0] == 1 && after.skip(1) == payload@
            &&& !some ==> after.len() == 1 && after[0] == 0
        },
        call_ensures(push_opt_u8, (buf, some, value), ()) ==> {
            let after = final(buf)@.skip(old(buf)@.len() as int);
            &&& final(buf)@.take(old(buf)@.len() as int) == old(buf)@
            &&& some ==> after.len() == 2 && after[0] == 1 && after[1] == value
            &&& !some ==> after.len() == 1 && after[0] == 0
        },
{
    let o = old(buf)@;
    appended(o, seq![1u8] + payload@);
    appended(o, seq![0u8]);
    appended(o, seq![1u8] + seq![value]);
    assert((seq![1u8] + payload@).skip(1) =~= payload@);
}

/// A flag is one or zero.
pub proof fn flags_are_one_or_zero(b: bool, r: u8)
    requires
        call_ensures(flag_byte, (b,), r),
    ensures
        b ==> r == 1,
        !b ==> r == 0,
{
}

/// A number is read from the bytes that were asked for.
pub proof fn reads_undo_writes(bytes: &Vec<u8>, from: usize, to: usize, r: u128, value: int)
    requires
        call_ensures(read_le, (bytes, from, to), r),
        from <= to <= bytes@.len(),
        0 <= value < pow256((to - from) as nat),
        bytes@.subrange(from as int, to as int) == le(value, (to - from) as nat),
    ensures
        r == value,
{
    le_round_trip(value, (to - from) as nat);
}

/// A call's data is its tag and its arguments, and nothing else.
pub proof fn data_is_tag_and_arguments(disc: [u8; 8], args: &Vec<u8>, r: Vec<u8>, q: Vec<u8>)
    requires
        call_ensures(ix_data, (disc, args), r),
        call_ensures(bare, (disc,), q),
    ensures
        r@.take(8) == disc@ && r@.skip(8) == args@,
        q@ == disc@ && q@.len() == 8,
{
    assert(r@.take(8) =~= disc@);
    assert(r@.skip(8) =~= args@);
}

/// A list after another keeps both.
pub proof fn lists_are_joined(a: Vec<AccountMeta>, b: Vec<AccountMeta>, r: Vec<AccountMeta>)
    requires
        call_ensures(join, (a, b), r),
    ensures
        r@.take(a@.len() as int) == a@,
        r@.skip(a@.len() as int) == b@,
{
    assert(r@.take(a@.len() as int) =~= a@);
    assert(r@.skip(a@.len() as int) =~= b@);
}

/// Transactions run the instructions they were given, in order, for the keys that
/// sign; an account is written or read as it was named.
pub proof fn transactions_hold_what_they_were_given(
    a: Instruction,
    b: Instruction,
    c: Instruction,
    key: Pubkey,
    keys: Vec<Pubkey>,
    t: Transaction,
)
    ensures
        call_ensures(Transaction::single, (a, key), t) ==> t@.instructions.len() == 1
            && t@.instructions[0] == a@ && t@.signers.len() == 1 && t@.signers[0] == key,
        call_ensures(Transaction::unsigned, (a,), t) ==> t@.instructions.len() == 1
            && t@.instructions[0] == a@ && t@.signers.len() == 0,
        call_ensures(Transaction::pair, (a, b, keys), t) ==> t@.instructions.len() == 2
            && t@.instructions[0] == a@ && t@.instructions[1] == b@ && t@.signers == keys@,
        call_ensures(Transaction::triple, (a, b, c, keys), t) ==> t@.instructions.len() == 3
            && t@.instructions[0] == a@ && t@.instructions[1] == b@ && t@.instructions[2] == c@
            && t@.signers == keys@,
        AccountMeta::new(key, true).is_writable && AccountMeta::new(key, true).is_signer,
        AccountMeta::new(key, false).is_writable && !AccountMeta::new(key, false).is_signer,
        !AccountMeta::new_readonly(key, true).is_writable && AccountMeta::new_readonly(
            key,
            true,
        ).is_signer,
        !AccountMeta::new_readonly(key, false).is_writable && !AccountMeta::new_readonly(
            key,
            false,
        ).is_signer,
        AccountMeta::new(key, true).pubkey == key && AccountMeta::new_readonly(key, true).pubkey
            == key,
{
}

/// The token account that an owner has for a mint is derived from the owner, the
/// token program and the mint, in that order.
pub proof fn token_accounts_are_derived(owner: &Pubkey, mint: &Pubkey, r: Option<(Pubkey, u8)>)
    requires
        call_ensures(ata, (owner, mint), r),
    ensures
        r == program_address(
            seq![owner.bytes@, token_program_id().bytes@, mint.bytes@],
            associated_token_program_id(),
        ),
{
}

/// A compute limit, a transfer of tokens, and a check of a signature are calls of
/// other programs: the limit touches nothing, the transfer the two accounts, by the
/// word of the owner, and the check nothing. The check names the instruction that
/// holds the message, where its signature begins, where its signer does, sixty-four
/// bytes on, and where its payload does, thirty-four on from there, with its length.
pub proof fn other_programs_are_called(
    units: u32,
    from: Pubkey,
    to: Pubkey,
    owner: Pubkey,
    amount: u64,
    at: u16,
    index: u16,
    len: usize,
    x: Instruction,
    y: Instruction,
    z: Instruction,
)
    requires
        call_ensures(compute_budget_ix, (units,), x),
        call_ensures(spl_transfer_ix, (from, to, owner, amount), y),
        call_ensures(signature_check_ix, (at, index, len), z),
        at + 98 <= u16::MAX,
    ensures
        x@.program_id == compute_budget_program_id() && x@.accounts.len() == 0,
        x@.data[0] == 2 && le_value(x@.data.skip(1)) == units && x@.data.len() == 5,
        y@.program_id == token_program_id() && y@.accounts.len() == 3,
        y@.accounts[0].pubkey == from && y@.accounts[0].is_writable,
        y@.accounts[1].pubkey == to && y@.accounts[1].is_writable,
        y@.accounts[2].pubkey == owner && y@.accounts[2].is_signer,
        y@.data[0] == 3 && le_value(y@.data.skip(1)) == amount && y@.data.len() == 9,
        z@.program_id == ed25519_program_id() && z@.accounts.len() == 0,
        z@.data.len() == 16 && z@.data[0] == 1 && z@.data[1] == 0,
        le_value(z@.data.subrange(2, 4)) == at,
        le_value(z@.data.subrange(4, 6)) == index,
        le_value(z@.data.subrange(6, 8)) == at + 64,
        le_value(z@.data.subrange(8, 10)) == index,
        le_value(z@.data.subrange(10, 12)) == at + 64 + 34,
        len <= u16::MAX ==> le_value(z@.data.subrange(12, 14)) == len,
        le_value(z@.data.subrange(14, 16)) == index,
{
    widths();
    le_round_trip(units as int, 4);
    le_round_trip(amount as int, 8);
    le_len(units as int, 4);
    le_len(amount as int, 8);
    assert(x@.data.skip(1) =~= le(units as int, 4));
    assert(y@.data.skip(1) =~= le(amount as int, 8));
    le_len(at as int, 2);
    le_len(index as int, 2);
    le_len(at + 64, 2);
    le_len(at + 98, 2);
    le_len(len as int, 2);
    le_round_trip(at as int, 2);
    le_round_trip(index as int, 2);
    le_round_trip(at + 64, 2);
    le_round_trip(at + 98, 2);
    if len <= u16::MAX {
        le_round_trip(len as int, 2);
    }
    assert(z@.data.subrange(2, 4) =~= le(at as int, 2));
    assert(z@.data.subrange(4, 6) =~= le(index as int, 2));
    assert(z@.data.subrange(6, 8) =~= le(at + 64, 2));
    assert(z@.data.subrange(8, 10) =~= le(index as int, 2));
    assert(z@.data.subrange(10, 12) =~= le(at + 98, 2));
    assert(z@.data.subrange(12, 14) =~= le(len as int, 2));
    assert(z@.data.subrange(14, 16) =~= le(index as int, 2));
}

// ---------------------------------------------------------------------------
// Accounts in bytes
// ---------------------------------------------------------------------------

/// A cache of entries of one size holds its tag, four bytes, the number of entries,
/// and then each entry at its place.
pub proof fn caches_hold_their_entries(
    disc: [u8; 8],
    entries: &Vec<Vec<u8>>,
    size: int,
    k: int,
    r: Vec<u8>,
)
    requires
        call_ensures(amm_cache_bytes, (disc, entries), r),
        forall|j: int| 0 <= j < entries@.len() ==> (#[trigger] entries@[j])@.len() == size,
        entries@.len() <= u32::MAX,
        size >= 0,
    ensures
        r@.take(8) == disc@,
        r@.subrange(8, 12) == seq![255u8, 0u8, 0u8, 0u8],
        le_value(r@.subrange(12, 16)) == entries@.len(),
        r@.len() == 16 + size * entries@.len(),
        0 <= k < entries@.len() ==> r@.subrange(16 + size * k, 16 + size * k + size)
            == entries@[k]@,
{
    widths();
    let n = entries@.len() as int;
    let body = flattened(entries@);
    le_len(n, 4);
    le_round_trip(n, 4);
    entries_lie_in_turn(entries@, size, k);
    assert(r@.take(8) =~= disc@);
    assert(r@.subrange(8, 12) =~= seq![255u8, 0u8, 0u8, 0u8]);
    assert(r@.subrange(12, 16) =~= le(n, 4));
    assert(r@.skip(16) =~= body);
    if 0 <= k < n {
        assert(size * k >= 0 && size * k + size <= size * n) by (nonlinear_arith)
            requires
                0 <= k < n,
                size >= 0,
        ;
        assert(r@.subrange(16 + size * k, 16 + size * k + size) =~= body.subrange(
            size * k,
            size * k + size,
        ));
    }
}

proof fn entries_lie_in_turn(entries: Seq<Vec<u8>>, size: int, k: int)
    requires
        forall|j: int| 0 <= j < entries.len() ==> (#[trigger] entries[j])@.len() == size,
        size >= 0,
    ensures
        flattened(entries).len() == size * entries.len(),
        0 <= k < entries.len() ==> flattened(entries).subrange(size * k, size * k + size)
            == entries[k]@,
    decreases entries.len(),
{
    if entries.len() > 0 {
        let front = entries.drop_last();
        let n = entries.len() as int;
        entries_lie_in_turn(front, size, k);
        assert(size * n == size * (n - 1) + size) by (nonlinear_arith);
        if 0 <= k < n - 1 {
            assert(size * k >= 0 && size * k + size <= size * (n - 1)) by (nonlinear_arith)
                requires
                    0 <= k < n - 1,
                    size >= 0,
            ;
            assert(flattened(entries).subrange(size * k, size * k + size) =~= flattened(
                front,
            ).subrange(size * k, size * k + size));
        } else if k == n - 1 {
            assert(flattened(entries).subrange(size * k, size * k + size) =~= entries[k]@);
        }
    } else {
        assert(size * 0 == 0);
    }
}

/// An account for a ring has its space, forty bytes for each slot and seventy-six
/// besides; it holds its owner and the number of its slots, and every slot is blank.
pub proof fn rings_hold_their_slots(
    authority: Pubkey,
    num_orders: u32,
    data: Vec<u8>,
    space: usize,
    k: int,
)
    requires
        call_ensures(signed_msg_account_data, (authority, num_orders), data),
        call_ensures(signed_msg_space, (num_orders as usize,), space),
    ensures
        space == 76 + 40 * num_orders,
        data@.len() == space,
        data@.subrange(8, 40) == authority.bytes@,
        le_value(data@.subrange(44, 48)) == num_orders,
        0 <= k < 40 * num_orders ==> data@[48 + k] == 0,
{
    widths();
    le_len(num_orders as int, 4);
    le_len(0, 4);
    le_round_trip(num_orders as int, 4);
    assert(data@.subrange(8, 40) =~= authority.bytes@);
    assert(data@.subrange(44, 48) =~= le(num_orders as int, 4));
}

} // verus!
