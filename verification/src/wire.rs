//! Little-endian and borsh-style encodings of instruction data.

use vstd::prelude::*;

verus! {

/// The `width` low bytes of `value`, least significant first.
pub open spec fn le(value: int, width: nat) -> Seq<u8>
    decreases width,
{
    if width == 0 {
        Seq::empty()
    } else {
        seq![(value % 256) as u8] + le(value / 256, (width - 1) as nat)
    }
}

/// The number that bytes spell, least significant first.
pub open spec fn le_value(bytes: Seq<u8>) -> int
    decreases bytes.len(),
{
    if bytes.len() == 0 {
        0
    } else {
        bytes[0] + 256 * le_value(bytes.skip(1))
    }
}

/// 256 to the power of `width`.
pub open spec fn pow256(width: nat) -> int
    decreases width,
{
    if width == 0 {
        1
    } else {
        256 * pow256((width - 1) as nat)
    }
}

/// An encoding has exactly its width.
pub proof fn le_len(value: int, width: nat)
    ensures
        le(value, width).len() == width,
    decreases width,
{
    if width > 0 {
        le_len(value / 256, (width - 1) as nat);
    }
}

/// Reading an encoding gives back the number, for every number that fits the
/// width.
pub proof fn le_round_trip(value: int, width: nat)
    requires
        0 <= value < pow256(width),
    ensures
        le_value(le(value, width)) == value,
    decreases width,
{
    if width > 0 {
        let rest = le(value / 256, (width - 1) as nat);
        assert(le(value, width).skip(1) =~= rest);
        le_round_trip(value / 256, (width - 1) as nat);
    }
}

/// Different numbers that fit the width have different encodings.
pub proof fn le_injective(a: int, b: int, width: nat)
    requires
        0 <= a < pow256(width),
        0 <= b < pow256(width),
        le(a, width) == le(b, width),
    ensures
        a == b,
{
    le_round_trip(a, width);
    le_round_trip(b, width);
}

/// The two's-complement image of a signed number in `width` bytes.
pub open spec fn le_signed(value: int, width: nat) -> Seq<u8> {
    le(if value < 0 { value + pow256(width) } else { value }, width)
}

fn push_le(buf: &mut Vec<u8>, value: u128, width: usize)
    ensures
        final(buf)@ == old(buf)@ + le(value as int, width as nat),
{
    let mut rest: u128 = value;
    let mut done: usize = 0;
    while done < width
        invariant
            done <= width,
            buf@ + le(rest as int, (width - done) as nat) == old(buf)@ + le(
                value as int,
                width as nat,
            ),
        decreases width - done,
    {
        let low: u8 = (rest % 256) as u8;
        let ghost tail = le(rest as int / 256, (width - done - 1) as nat);
        let ghost before = buf@;
        buf.push(low);
        assert(le(rest as int, (width - done) as nat) == seq![low] + tail);
        assert(before + (seq![low] + tail) =~= buf@ + tail);
        rest = rest / 256;
        done = done + 1;
    }
    assert(buf@ + le(rest as int, 0) =~= buf@);
}

pub fn push_u8(buf: &mut Vec<u8>, value: u8)
    ensures
        final(buf)@ == old(buf)@ + seq![value],
{
    buf.push(value);
    assert(buf@ =~= old(buf)@ + seq![value]);
}

pub fn push_u16(buf: &mut Vec<u8>, value: u16)
    ensures
        final(buf)@ == old(buf)@ + le(value as int, 2),
{
    push_le(buf, value as u128, 2);
}

pub fn push_u32(buf: &mut Vec<u8>, value: u32)
    ensures
        final(buf)@ == old(buf)@ + le(value as int, 4),
{
    push_le(buf, value as u128, 4);
}

pub fn push_u64(buf: &mut Vec<u8>, value: u64)
    ensures
        final(buf)@ == old(buf)@ + le(value as int, 8),
{
    push_le(buf, value as u128, 8);
}

pub fn push_u128(buf: &mut Vec<u8>, value: u128)
    ensures
        final(buf)@ == old(buf)@ + le(value as int, 16),
{
    push_le(buf, value, 16);
}

pub fn push_i64(buf: &mut Vec<u8>, value: i64)
    ensures
        final(buf)@ == old(buf)@ + le_signed(value as int, 8),
{
    let image: u128 = if value < 0 {
        (value as i128 + 0x1_0000_0000_0000_0000) as u128
    } else {
        value as u128
    };
    assert(pow256(8) == 0x1_0000_0000_0000_0000) by {
        reveal_with_fuel(pow256, 9);
    }
    push_le(buf, image, 8);
}

/// A length, of which the low `width` bytes are sent.
pub fn push_len(buf: &mut Vec<u8>, len: usize, width: usize)
    ensures
        final(buf)@ == old(buf)@ + le(len as int, width as nat),
{
    push_le(buf, len as u128, width);
}

pub fn push_bytes(buf: &mut Vec<u8>, bytes: &[u8])
    ensures
        final(buf)@ == old(buf)@ + bytes@,
{
    buf.extend_from_slice(bytes);
    assert(buf@ =~= old(buf)@ + bytes@);
}

/// The number that the bytes from `from` to `to` spell.
pub fn read_le(bytes: &Vec<u8>, from: usize, to: usize) -> (r: u128)
    requires
        from <= to <= bytes@.len(),
        to - from <= 16,
    ensures
        r == le_value(bytes@.subrange(from as int, to as int)),
        r < pow256((to - from) as nat),
{
    let mut value: u128 = 0;
    let mut i: usize = to;
    assert(bytes@.subrange(to as int, to as int) =~= Seq::<u8>::empty());
    while i > from
        invariant
            from <= i <= to <= bytes@.len(),
            to - from <= 16,
            value == le_value(bytes@.subrange(i as int, to as int)),
            value < pow256((to - i) as nat),
        decreases i,
    {
        let ghost rest = bytes@.subrange(i as int, to as int);
        i = i - 1;
        proof {
            let longer = bytes@.subrange(i as int, to as int);
            assert(longer.skip(1) =~= rest);
            pow256_monotone((to - i) as nat, 16);
            assert(pow256(16) == 0x1_0000_0000_0000_0000_0000_0000_0000_0000) by {
                reveal_with_fuel(pow256, 17);
            }
        }
        value = bytes[i] as u128 + 256 * value;
    }
    value
}

proof fn pow256_monotone(a: nat, b: nat)
    requires
        a <= b,
    ensures
        1 <= pow256(a) <= pow256(b),
    decreases b,
{
    if a < b {
        pow256_monotone(a, (b - 1) as nat);
    } else if a > 0 {
        pow256_monotone((a - 1) as nat, (b - 1) as nat);
    }
}

/// The encoding of a `u16` on its own.
pub fn u16_bytes(value: u16) -> (b: Vec<u8>)
    ensures
        b@ == le(value as int, 2),
{
    let mut b: Vec<u8> = Vec::new();
    push_u16(&mut b, value);
    b
}

/// The encoding of a `u32` on its own.
pub fn u32_bytes(value: u32) -> (b: Vec<u8>)
    ensures
        b@ == le(value as int, 4),
{
    let mut b: Vec<u8> = Vec::new();
    push_u32(&mut b, value);
    b
}

/// The encoding of a `u64` on its own.
pub fn u64_bytes(value: u64) -> (b: Vec<u8>)
    ensures
        b@ == le(value as int, 8),
{
    let mut b: Vec<u8> = Vec::new();
    push_u64(&mut b, value);
    b
}

/// The encoding of an `i64` on its own.
pub fn i64_bytes(value: i64) -> (b: Vec<u8>)
    ensures
        b@ == le_signed(value as int, 8),
{
    let mut b: Vec<u8> = Vec::new();
    push_i64(&mut b, value);
    b
}

/// Instruction data: the discriminator that names the handler, then its
/// arguments.
pub fn ix_data(disc: [u8; 8], args: &Vec<u8>) -> (data: Vec<u8>)
    ensures
        data@ == disc@ + args@,
{
    let mut data: Vec<u8> = Vec::new();
    push_bytes(&mut data, disc.as_slice());
    push_bytes(&mut data, args.as_slice());
    data
}

/// Instruction data of a handler without arguments.
pub fn bare(disc: [u8; 8]) -> (data: Vec<u8>)
    ensures
        data@ == disc@,
{
    let mut data: Vec<u8> = Vec::new();
    push_bytes(&mut data, disc.as_slice());
    assert(data@ =~= disc@);
    data
}

/// An optional value: a one-byte tag, then the payload where there is one.
pub open spec fn opt(some: bool, payload: Seq<u8>) -> Seq<u8> {
    if some {
        seq![1u8] + payload
    } else {
        seq![0u8]
    }
}

pub fn push_opt(buf: &mut Vec<u8>, some: bool, payload: &Vec<u8>)
    ensures
        final(buf)@ == old(buf)@ + opt(some, payload@),
{
    if some {
        push_u8(buf, 1);
        push_bytes(buf, payload.as_slice());
        assert(old(buf)@ + seq![1u8] + payload@ =~= old(buf)@ + (seq![1u8] + payload@));
    } else {
        push_u8(buf, 0);
    }
}

pub fn push_opt_u8(buf: &mut Vec<u8>, some: bool, value: u8)
    ensures
        final(buf)@ == old(buf)@ + opt(some, seq![value]),
{
    let payload: Vec<u8> = vec![value];
    assert(payload@ =~= seq![value]);
    push_opt(buf, some, &payload);
}

/// A flag byte.
pub open spec fn flag(b: bool) -> u8 {
    if b {
        1
    } else {
        0
    }
}

pub fn flag_byte(b: bool) -> (r: u8)
    ensures
        r == flag(b),
{
    if b {
        1
    } else {
        0
    }
}

/// The fields of an order amendment that the harness drives; the others stay
/// absent.
#[derive(Clone, Copy, PartialEq, Eq, Debug)]
pub struct ModifyParams {
    pub direction: Option<u8>,
    pub base_asset_amount: Option<u64>,
    pub price: Option<u64>,
    pub reduce_only: Option<bool>,
    pub policy: Option<u8>,
}

/// An amendment on the wire, field by field in declaration order: direction,
/// base amount, price, reduce-only, then seven absent fields (post-only, bit
/// flags, expiry, trigger price, trigger condition, oracle offset, activation
/// delay), then the policy.
pub open spec fn modify_params_wire(p: ModifyParams) -> Seq<u8> {
    opt(p.direction is Some, seq![p.direction->0]) + opt(
        p.base_asset_amount is Some,
        le(p.base_asset_amount->0 as int, 8),
    ) + opt(p.price is Some, le(p.price->0 as int, 8)) + opt(
        p.reduce_only is Some,
        seq![flag(p.reduce_only->0)],
    ) + seq![0u8] + seq![0u8] + seq![0u8] + seq![0u8] + seq![0u8] + seq![0u8] + seq![0u8] + opt(
        p.policy is Some,
        seq![p.policy->0],
    )
}

pub fn modify_params_bytes(p: ModifyParams) -> (b: Vec<u8>)
    ensures
        b@ == modify_params_wire(p),
{
    let mut b: Vec<u8> = Vec::new();
    match p.direction {
        Some(v) => push_opt_u8(&mut b, true, v),
        None => push_opt_u8(&mut b, false, 0),
    }
    assert(b@ =~= opt(p.direction is Some, seq![p.direction->0]));
    match p.base_asset_amount {
        Some(v) => push_opt(&mut b, true, &u64_bytes(v)),
        None => push_u8(&mut b, 0),
    }
    match p.price {
        Some(v) => push_opt(&mut b, true, &u64_bytes(v)),
        None => push_u8(&mut b, 0),
    }
    match p.reduce_only {
        Some(v) => push_opt_u8(&mut b, true, flag_byte(v)),
        None => push_opt_u8(&mut b, false, 0),
    }
    push_u8(&mut b, 0);
    push_u8(&mut b, 0);
    push_u8(&mut b, 0);
    push_u8(&mut b, 0);
    push_u8(&mut b, 0);
    push_u8(&mut b, 0);
    push_u8(&mut b, 0);
    match p.policy {
        Some(v) => push_opt_u8(&mut b, true, v),
        None => push_opt_u8(&mut b, false, 0),
    }
    b
}

/// An absent value never reads like a present one.
pub proof fn opt_tags_disjoint(a: Seq<u8>, b: Seq<u8>)
    ensures
        opt(true, a)[0] != opt(false, b)[0],
{
}

/// Present values are told apart by their payloads.
pub proof fn opt_injective(a: Seq<u8>, b: Seq<u8>)
    requires
        opt(true, a) == opt(true, b),
    ensures
        a == b,
{
    assert(opt(true, a).skip(1) =~= a);
    assert(opt(true, b).skip(1) =~= b);
}

} // verus!
