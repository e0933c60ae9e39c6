//! Addresses, account lists and instructions, as plain values.

use vstd::prelude::*;
use vstd::string::StringSliceAdditionalSpecFns;

verus! {

/// A 32-byte account address.
#[derive(Clone, Copy, PartialEq, Eq, Debug)]
pub struct Pubkey {
    pub bytes: [u8; 32],
}

impl Pubkey {
    /// Whether the two addresses hold the same bytes.
    pub fn same(&self, other: &Pubkey) -> (r: bool)
        ensures
            r == (*self == *other),
    {
        let mut i: usize = 0;
        while i < 32
            invariant
                i <= 32,
                forall|j: int| 0 <= j < i ==> self.bytes@[j] == other.bytes@[j],
            decreases 32 - i,
        {
            if self.bytes[i] != other.bytes[i] {
                return false;
            }
            i = i + 1;
        }
        assert(self.bytes =~= other.bytes);
        true
    }
}

/// One entry of an instruction's account list.
#[derive(Clone, Copy, PartialEq, Eq, Debug)]
pub struct AccountMeta {
    pub pubkey: Pubkey,
    pub is_signer: bool,
    pub is_writable: bool,
}

impl AccountMeta {
    /// A writable account.
    #[verifier::allow_in_spec]
    pub fn new(pubkey: Pubkey, is_signer: bool) -> AccountMeta
        returns
            (AccountMeta { pubkey, is_signer, is_writable: true }),
    {
        AccountMeta { pubkey, is_signer, is_writable: true }
    }

    /// A read-only account.
    #[verifier::allow_in_spec]
    pub fn new_readonly(pubkey: Pubkey, is_signer: bool) -> AccountMeta
        returns
            (AccountMeta { pubkey, is_signer, is_writable: false }),
    {
        AccountMeta { pubkey, is_signer, is_writable: false }
    }
}

/// A program invocation: the program, the accounts it is handed, its data.
#[derive(Clone, PartialEq, Eq, Debug)]
pub struct Instruction {
    pub program_id: Pubkey,
    pub accounts: Vec<AccountMeta>,
    pub data: Vec<u8>,
}

/// What an [`Instruction`] holds.
#[verifier::ext_equal]
pub struct InstructionView {
    pub program_id: Pubkey,
    pub accounts: Seq<AccountMeta>,
    pub data: Seq<u8>,
}

impl View for Instruction {
    type V = InstructionView;

    open spec fn view(&self) -> InstructionView {
        ix(self.program_id, self.accounts@, self.data@)
    }
}

/// The instruction of the given parts.
pub open spec fn ix(
    program_id: Pubkey,
    accounts: Seq<AccountMeta>,
    data: Seq<u8>,
) -> InstructionView {
    InstructionView { program_id, accounts, data }
}

impl Instruction {
    pub fn new(program_id: Pubkey, accounts: Vec<AccountMeta>, data: Vec<u8>) -> (r: Instruction)
        ensures
            r@ == ix(program_id, accounts@, data@),
    {
        Instruction { program_id, accounts, data }
    }
}

/// Instructions that run together, and the addresses whose keys sign them.
#[derive(Clone, PartialEq, Eq, Debug)]
pub struct Transaction {
    pub instructions: Vec<Instruction>,
    pub signers: Vec<Pubkey>,
}

/// What a [`Transaction`] holds.
#[verifier::ext_equal]
pub struct TransactionView {
    pub instructions: Seq<InstructionView>,
    pub signers: Seq<Pubkey>,
}

impl View for Transaction {
    type V = TransactionView;

    open spec fn view(&self) -> TransactionView {
        tx(instruction_views(self.instructions@), self.signers@)
    }
}

pub open spec fn instruction_views(instructions: Seq<Instruction>) -> Seq<InstructionView> {
    instructions.map_values(|i: Instruction| i@)
}

/// The transaction of the given instructions and signers.
pub open spec fn tx(instructions: Seq<InstructionView>, signers: Seq<Pubkey>) -> TransactionView {
    TransactionView { instructions, signers }
}

/// The transaction of one instruction that one key signs.
pub open spec fn call(
    program_id: Pubkey,
    accounts: Seq<AccountMeta>,
    data: Seq<u8>,
    signer: Pubkey,
) -> TransactionView {
    tx(seq![ix(program_id, accounts, data)], seq![signer])
}

impl Transaction {
    /// One instruction, one signer.
    pub fn single(instruction: Instruction, signer: Pubkey) -> (r: Transaction)
        ensures
            r@ == tx(seq![instruction@], seq![signer]),
    {
        let r = Transaction { instructions: vec![instruction], signers: vec![signer] };
        assert(instruction_views(r.instructions@) =~= seq![instruction@]);
        r
    }

    /// One instruction that nobody signs but the payer.
    pub fn unsigned(instruction: Instruction) -> (r: Transaction)
        ensures
            r@ == tx(seq![instruction@], seq![]),
    {
        let r = Transaction { instructions: vec![instruction], signers: Vec::new() };
        assert(instruction_views(r.instructions@) =~= seq![instruction@]);
        r
    }

    /// Two instructions that run together.
    pub fn pair(first: Instruction, second: Instruction, signers: Vec<Pubkey>) -> (r: Transaction)
        ensures
            r@ == tx(seq![first@, second@], signers@),
    {
        let r = Transaction { instructions: vec![first, second], signers };
        assert(instruction_views(r.instructions@) =~= seq![first@, second@]);
        r
    }

    /// Three instructions that run together.
    pub fn triple(
        first: Instruction,
        second: Instruction,
        third: Instruction,
        signers: Vec<Pubkey>,
    ) -> (r: Transaction)
        ensures
            r@ == tx(seq![first@, second@, third@], signers@),
    {
        let r = Transaction { instructions: vec![first, second, third], signers };
        assert(instruction_views(r.instructions@) =~= seq![first@, second@, third@]);
        r
    }
}

/// The transaction of one instruction that one key signs.
pub fn send(
    program_id: Pubkey,
    accounts: Vec<AccountMeta>,
    data: Vec<u8>,
    signer: Pubkey,
) -> (r: Transaction)
    ensures
        r@ == call(program_id, accounts@, data@, signer),
{
    Transaction::single(Instruction::new(program_id, accounts, data), signer)
}

// ---------------------------------------------------------------------------
// Well-known addresses
// ---------------------------------------------------------------------------

/// The bytes of the all-zero address.
pub const ZERO_BYTES: [u8; 32] = [
    0, 0, 0, 0, 0, 0, 0, 0, 0, 0, 0, 0, 0, 0, 0, 0, 0, 0, 0, 0, 0, 0, 0, 0, 0, 0, 0, 0, 0, 0, 0, 0,
];

/// The system program, which is also the address of no account in particular.
#[verifier::allow_in_spec]
pub fn system_program_id() -> Pubkey
    returns
        (Pubkey { bytes: ZERO_BYTES }),
{
    Pubkey { bytes: ZERO_BYTES }
}

/// The address that a base58 text spells.
pub uninterp spec fn base58_key(text: Seq<char>) -> Pubkey;

/// The texts of the addresses that this module names.
pub open spec fn is_known_id(text: Seq<char>) -> bool {
    ||| text == "SysvarRent111111111111111111111111111111111"@
    ||| text == "SysvarC1ock11111111111111111111111111111111"@
    ||| text == "Sysvar1nstructions1111111111111111111111111"@
    ||| text == "ComputeBudget111111111111111111111111111111"@
    ||| text == "Ed25519SigVerify111111111111111111111111111"@
    ||| text == "TokenkegQfeZyiNwAJbNbGKPFXCWuBvf9Ss623VQ5DA"@
    ||| text == "ATokenGPvbdGVxr1b2hvZbsiqW5xWH25efTNsLJA8knL"@
}

/// `solana_pubkey::Pubkey::from_str_const`: the address that a base58 text
/// spells. That function panics on a text that spells no address, so only the
/// texts named here are handed to it; each of them spells one.
#[verifier::external_body]
fn key_from_base58(text: &str) -> (key: Pubkey)
    requires
        is_known_id(text@),
    ensures
        key == base58_key(text@),
{
    Pubkey { bytes: solana_pubkey::Pubkey::from_str_const(text).to_bytes() }
}

#[verifier::allow_in_spec]
pub fn rent_sysvar_id() -> Pubkey
    returns
        base58_key("SysvarRent111111111111111111111111111111111"@),
{
    key_from_base58("SysvarRent111111111111111111111111111111111")
}

#[verifier::allow_in_spec]
pub fn clock_sysvar_id() -> Pubkey
    returns
        base58_key("SysvarC1ock11111111111111111111111111111111"@),
{
    key_from_base58("SysvarC1ock11111111111111111111111111111111")
}

#[verifier::allow_in_spec]
pub fn instructions_sysvar_id() -> Pubkey
    returns
        base58_key("Sysvar1nstructions1111111111111111111111111"@),
{
    key_from_base58("Sysvar1nstructions1111111111111111111111111")
}

#[verifier::allow_in_spec]
pub fn compute_budget_program_id() -> Pubkey
    returns
        base58_key("ComputeBudget111111111111111111111111111111"@),
{
    key_from_base58("ComputeBudget111111111111111111111111111111")
}

#[verifier::allow_in_spec]
pub fn ed25519_program_id() -> Pubkey
    returns
        base58_key("Ed25519SigVerify111111111111111111111111111"@),
{
    key_from_base58("Ed25519SigVerify111111111111111111111111111")
}

#[verifier::allow_in_spec]
pub fn token_program_id() -> Pubkey
    returns
        base58_key("TokenkegQfeZyiNwAJbNbGKPFXCWuBvf9Ss623VQ5DA"@),
{
    key_from_base58("TokenkegQfeZyiNwAJbNbGKPFXCWuBvf9Ss623VQ5DA")
}

#[verifier::allow_in_spec]
pub fn associated_token_program_id() -> Pubkey
    returns
        base58_key("ATokenGPvbdGVxr1b2hvZbsiqW5xWH25efTNsLJA8knL"@),
{
    key_from_base58("ATokenGPvbdGVxr1b2hvZbsiqW5xWH25efTNsLJA8knL")
}

// ---------------------------------------------------------------------------
// Program-derived addresses
// ---------------------------------------------------------------------------

/// The program-derived address of the seeds and its bump, or `None` where no
/// bump gives one.
pub uninterp spec fn program_address(seeds: Seq<Seq<u8>>, program: Pubkey) -> Option<(Pubkey, u8)>;

/// The bytes of each seed.
pub open spec fn seed_views(seeds: Seq<Vec<u8>>) -> Seq<Seq<u8>> {
    seeds.map_values(|s: Vec<u8>| s@)
}

/// The bytes of a seed that is written as text.
pub open spec fn text(tag: &str) -> Seq<u8> {
    tag.spec_bytes()
}

/// `solana_pubkey::Pubkey::try_find_program_address`: searches the bumps from
/// the highest down for an address off the curve. It is a function of the seeds
/// and the program alone, and gives `None` where it finds no such bump, where
/// there are too many seeds or where one of them is too long.
#[verifier::external_body]
fn try_find_program_address(seeds: &Vec<Vec<u8>>, program: Pubkey) -> (r: Option<(Pubkey, u8)>)
    ensures
        r == program_address(seed_views(seeds@), program),
{
    let seeds: Vec<&[u8]> = seeds.iter().map(|s| s.as_slice()).collect();
    let program = solana_pubkey::Pubkey::new_from_array(program.bytes);
    solana_pubkey::Pubkey::try_find_program_address(&seeds, &program)
        .map(|(key, bump)| (Pubkey { bytes: key.to_bytes() }, bump))
}

/// The bytes of a text.
pub fn text_bytes(tag: &str) -> (b: Vec<u8>)
    ensures
        b@ == text(tag),
{
    let mut b: Vec<u8> = Vec::new();
    b.extend_from_slice(tag.as_bytes());
    assert(b@ =~= text(tag));
    b
}

/// The bytes of an address.
pub fn key_bytes(key: &Pubkey) -> (b: Vec<u8>)
    ensures
        b@ == key.bytes@,
{
    let mut b: Vec<u8> = Vec::new();
    b.extend_from_slice(key.bytes.as_slice());
    assert(b@ =~= key.bytes@);
    b
}

/// Appends the bytes of an address.
pub fn push_key(buf: &mut Vec<u8>, key: &Pubkey)
    ensures
        final(buf)@ == old(buf)@ + key.bytes@,
{
    crate::wire::push_bytes(buf, key.bytes.as_slice());
}

/// The address that a tag alone derives.
pub fn pda1(tag: &str, program: Pubkey) -> (r: Option<(Pubkey, u8)>)
    ensures
        r == program_address(seq![text(tag)], program),
{
    let seeds = vec![text_bytes(tag)];
    assert(seed_views(seeds@) =~= seq![text(tag)]);
    try_find_program_address(&seeds, program)
}

/// The address that a tag and one more seed derive.
pub fn pda2(tag: &str, seed: Vec<u8>, program: Pubkey) -> (r: Option<(Pubkey, u8)>)
    ensures
        r == program_address(seq![text(tag), seed@], program),
{
    let seeds = vec![text_bytes(tag), seed];
    assert(seed_views(seeds@) =~= seq![text(tag), seed@]);
    try_find_program_address(&seeds, program)
}

/// The address that a tag and two more seeds derive.
pub fn pda3(tag: &str, first: Vec<u8>, second: Vec<u8>, program: Pubkey) -> (r: Option<
    (Pubkey, u8),
>)
    ensures
        r == program_address(seq![text(tag), first@, second@], program),
{
    let seeds = vec![text_bytes(tag), first, second];
    assert(seed_views(seeds@) =~= seq![text(tag), first@, second@]);
    try_find_program_address(&seeds, program)
}

/// The address that one seed derives.
pub fn pda_of1(seed: Vec<u8>, program: Pubkey) -> (r: Option<(Pubkey, u8)>)
    ensures
        r == program_address(seq![seed@], program),
{
    let seeds = vec![seed];
    assert(seed_views(seeds@) =~= seq![seed@]);
    try_find_program_address(&seeds, program)
}

/// The address that two seeds derive.
pub fn pda_of2(first: Vec<u8>, second: Vec<u8>, program: Pubkey) -> (r: Option<(Pubkey, u8)>)
    ensures
        r == program_address(seq![first@, second@], program),
{
    let seeds = vec![first, second];
    assert(seed_views(seeds@) =~= seq![first@, second@]);
    try_find_program_address(&seeds, program)
}

/// The address of `owner`'s associated token account for `mint`.
pub open spec fn ata_of(owner: Pubkey, mint: Pubkey) -> Option<(Pubkey, u8)> {
    program_address(
        seq![owner.bytes@, token_program_id().bytes@, mint.bytes@],
        associated_token_program_id(),
    )
}

pub fn ata(owner: &Pubkey, mint: &Pubkey) -> (r: Option<(Pubkey, u8)>)
    ensures
        r == ata_of(*owner, *mint),
{
    let token = token_program_id();
    let seeds = vec![key_bytes(owner), key_bytes(&token), key_bytes(mint)];
    assert(seed_views(seeds@) =~= seq![owner.bytes@, token.bytes@, mint.bytes@]);
    try_find_program_address(&seeds, associated_token_program_id())
}

// ---------------------------------------------------------------------------
// Keys and signatures
// ---------------------------------------------------------------------------

/// An ed25519 key pair, held as its secret half.
#[derive(Clone, Copy, PartialEq, Eq, Debug)]
pub struct Keypair {
    pub secret: [u8; 32],
}

/// The address of the key pair with the given secret.
pub uninterp spec fn ed25519_address(secret: Seq<u8>) -> Pubkey;

/// The signature over a message by the key pair with the given secret.
pub uninterp spec fn ed25519_signature(secret: Seq<u8>, message: Seq<u8>) -> Seq<u8>;

/// `solana_signer::Signer::pubkey` of a `solana_keypair::Keypair`: the public
/// half of the key pair, a function of the secret alone.
#[verifier::external_body]
fn keypair_address(secret: &[u8; 32]) -> (key: Pubkey)
    ensures
        key == ed25519_address(secret@),
{
    let keypair = solana_keypair::Keypair::new_from_array(*secret);
    Pubkey { bytes: solana_signer::Signer::pubkey(&keypair).to_bytes() }
}

/// `solana_signer::Signer::sign_message` of a `solana_keypair::Keypair`: an
/// ed25519 signature is 64 bytes and a function of the secret and the message
/// alone.
#[verifier::external_body]
fn keypair_signature(secret: &[u8; 32], message: &Vec<u8>) -> (signature: Vec<u8>)
    ensures
        signature@ == ed25519_signature(secret@, message@),
        signature@.len() == 64,
{
    let keypair = solana_keypair::Keypair::new_from_array(*secret);
    solana_signer::Signer::sign_message(&keypair, message).as_ref().to_vec()
}

impl Keypair {
    /// The address of the key pair.
    pub fn pubkey(&self) -> (key: Pubkey)
        ensures
            key == ed25519_address(self.secret@),
    {
        keypair_address(&self.secret)
    }

    /// The signature over `message`.
    pub fn sign_message(&self, message: &Vec<u8>) -> (signature: Vec<u8>)
        ensures
            signature@ == ed25519_signature(self.secret@, message@),
            signature@.len() == 64,
    {
        keypair_signature(&self.secret, message)
    }
}

} // verus!
