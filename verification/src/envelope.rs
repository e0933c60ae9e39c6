//! Signed messages and where a signature check finds their parts.

use vstd::prelude::*;
use crate::keys::{Instruction, Keypair, Pubkey};
use crate::programs::{signature_check, signature_check_ix};
use crate::wire::{le, le_len, push_bytes, push_len};

verus! {

/// The sixteen hexadecimal digits.
pub const HEX_DIGITS: [u8; 16] = [
    48, 49, 50, 51, 52, 53, 54, 55, 56, 57, 97, 98, 99, 100, 101, 102,
];

/// Bytes in hexadecimal, the high digit of each byte first.
pub open spec fn hex(bytes: Seq<u8>) -> Seq<u8> {
    Seq::new(
        2 * bytes.len(),
        |i: int|
            if i % 2 == 0 {
                HEX_DIGITS@[bytes[i / 2] as int / 16]
            } else {
                HEX_DIGITS@[bytes[i / 2] as int % 16]
            },
    )
}

/// The value of a hexadecimal digit.
pub open spec fn hex_value(digit: u8) -> int {
    if digit >= 97 {
        digit - 87
    } else {
        digit - 48
    }
}

/// Writes bytes in hexadecimal.
pub fn hex_encode(bytes: &Vec<u8>) -> (r: Vec<u8>)
    ensures
        r@ == hex(bytes@),
{
    let mut out: Vec<u8> = Vec::new();
    let n = bytes.len();
    let mut i: usize = 0;
    while i < n
        invariant
            i <= n,
            n == bytes@.len(),
            out@ == hex(bytes@.take(i as int)),
        decreases n - i,
    {
        let b: u8 = bytes[i];
        out.push(HEX_DIGITS[(b / 16) as usize]);
        out.push(HEX_DIGITS[(b % 16) as usize]);
        assert(out@ =~= hex(bytes@.take(i + 1)));
        i = i + 1;
    }
    assert(bytes@.take(n as int) =~= bytes@);
    out
}

/// Each pair of digits spells the byte it was written for.
pub proof fn hex_round_trip(bytes: Seq<u8>, i: int)
    requires
        0 <= i < bytes.len(),
    ensures
        hex(bytes).len() == 2 * bytes.len(),
        hex_value(hex(bytes)[2 * i]) * 16 + hex_value(hex(bytes)[2 * i + 1]) == bytes[i],
{
    let hi = bytes[i] as int / 16;
    let lo = bytes[i] as int % 16;
    assert(2 * i % 2 == 0 && 2 * i / 2 == i);
    assert((2 * i + 1) % 2 == 1 && (2 * i + 1) / 2 == i);
    digit_value(hi);
    digit_value(lo);
}

proof fn digit_value(v: int)
    requires
        0 <= v < 16,
    ensures
        hex_value(HEX_DIGITS@[v]) == v,
{
}

/// Different bytes never read the same in hexadecimal.
pub proof fn hex_injective(a: Seq<u8>, b: Seq<u8>)
    requires
        hex(a) == hex(b),
    ensures
        a == b,
{
    assert(hex(a).len() == 2 * a.len());
    assert(hex(b).len() == 2 * b.len());
    assert forall|i: int| 0 <= i < a.len() implies a[i] == b[i] by {
        hex_round_trip(a, i);
        hex_round_trip(b, i);
    }
    assert(a =~= b);
}

/// How many bytes of an instruction's data precede a relayed message: the
/// discriminator and the message's length.
pub const MESSAGE_OFFSET: u16 = 12;

/// How many bytes of an envelope precede its payload.
pub const PAYLOAD_OFFSET: u16 = 98;

/// A message that carries its own proof: the signature over the payload, the
/// signer, the payload's length and the payload.
pub open spec fn framed(signature: Seq<u8>, signer: Pubkey, payload: Seq<u8>) -> Seq<u8> {
    signature + signer.bytes@ + le(payload.len() as int, 2) + payload
}

/// What the signer of an order message signs: eight bytes that nothing reads
/// and the message, in hexadecimal.
pub open spec fn order_payload(message: Seq<u8>) -> Seq<u8> {
    hex(seq![0u8, 0u8, 0u8, 0u8, 0u8, 0u8, 0u8, 0u8] + message)
}

/// The envelope of an order message.
pub open spec fn order_envelope(signer: Keypair, message: Seq<u8>) -> Seq<u8> {
    framed(
        crate::keys::ed25519_signature(signer.secret@, order_payload(message)),
        crate::keys::ed25519_address(signer.secret@),
        order_payload(message),
    )
}

/// Signs a message and frames it.
pub fn build_signed_msg_envelope(signer: &Keypair, message: &Vec<u8>) -> (r: Vec<u8>)
    ensures
        r@ == order_envelope(*signer, message@),
        r@.len() == PAYLOAD_OFFSET + order_payload(message@).len(),
{
    let mut payload: Vec<u8> = vec![0, 0, 0, 0, 0, 0, 0, 0];
    assert(payload@ =~= seq![0u8, 0u8, 0u8, 0u8, 0u8, 0u8, 0u8, 0u8]);
    push_bytes(&mut payload, message.as_slice());
    let hex_payload = hex_encode(&payload);
    let signature = signer.sign_message(&hex_payload);
    let address = signer.pubkey();
    let mut envelope: Vec<u8> = signature;
    push_bytes(&mut envelope, address.bytes.as_slice());
    push_len(&mut envelope, hex_payload.len(), 2);
    push_bytes(&mut envelope, hex_payload.as_slice());
    proof {
        le_len(hex_payload@.len() as int, 2);
    }
    envelope
}

/// The check of the signature on an order message that the instruction at
/// `index` relays.
pub fn ed25519_verify_ix(index: u16, payload_len: usize) -> (r: Instruction)
    ensures
        r@ == signature_check(MESSAGE_OFFSET as int, index as int, payload_len as int),
{
    signature_check_ix(MESSAGE_OFFSET, index, payload_len)
}

/// The data of an instruction that relays a message: discriminator, length and
/// bytes of the message, then the other arguments.
pub open spec fn relayed(disc: Seq<u8>, message: Seq<u8>, rest: Seq<u8>) -> Seq<u8> {
    disc + (le(message.len() as int, 4) + message + rest)
}

/// Where a signature check looks, the relayed data holds the signature, the
/// signer and the whole payload of the envelope.
pub proof fn offsets_find_the_parts(
    disc: Seq<u8>,
    magic: Seq<u8>,
    signature: Seq<u8>,
    signer: Pubkey,
    payload: Seq<u8>,
    rest: Seq<u8>,
)
    requires
        disc.len() == 8,
        signature.len() == 64,
    ensures
        ({
            let data = relayed(disc, magic + framed(signature, signer, payload), rest);
            let base = MESSAGE_OFFSET + magic.len();
            &&& data.subrange(base, base + 64) == signature
            &&& data.subrange(base + 64, base + 96) == signer.bytes@
            &&& data.subrange(base + 96, base + 98) == le(payload.len() as int, 2)
            &&& data.subrange(base + 98, base + 98 + payload.len()) == payload
        }),
{
    let envelope = magic + framed(signature, signer, payload);
    let data = relayed(disc, envelope, rest);
    let base = MESSAGE_OFFSET + magic.len();
    le_len(envelope.len() as int, 4);
    le_len(payload.len() as int, 2);
    assert(data.subrange(base, base + 64) =~= signature);
    assert(data.subrange(base + 64, base + 96) =~= signer.bytes@);
    assert(data.subrange(base + 96, base + 98) =~= le(payload.len() as int, 2));
    assert(data.subrange(base + 98, base + 98 + payload.len()) =~= payload);
}

} // verus!
