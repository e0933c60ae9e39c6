//! The standard scenario: its addresses, its users, and how it is set up.

use vstd::prelude::*;
use crate::constants::{NUM_FRESH, NUM_USERS};
use crate::discriminators::{D_INITIALIZE_USER, D_INITIALIZE_USER_STATS};
use crate::invariants::History;
use crate::keys::{
    key_bytes, pda1, pda2, pda3, pda_of1, pda_of2, rent_sysvar_id, send, system_program_id,
    AccountMeta, Keypair, Pubkey, Transaction,
};
use crate::wire::{ix_data, push_bytes, u16_bytes, u32_bytes};

verus! {

/// The feed of the perp market's oracle.
pub const PERP_FEED_ID: u32 = 0;

/// The feed of spot market 1's oracle.
pub const SPOT_1_FEED_ID: u32 = 1;

/// What a scenario takes from the exchange: the program's address, the seeds
/// of the addresses it derives, and its defaults.
#[derive(Debug)]
pub struct Protocol {
    pub program_id: Pubkey,
    pub lazer_storage_id: Pubkey,
    pub lazer_oracle_seed: Vec<u8>,
    pub amm_cache_seed: Vec<u8>,
    pub margin_buffer_ratio: u32,
    pub liquidation_duration: u8,
}

/// A funded user of the scenario.
#[derive(Clone, Copy, PartialEq, Eq, Debug)]
pub struct UserAcct {
    pub keypair: Keypair,
    pub user_pda: Pubkey,
    pub stats_pda: Pubkey,
    /// Wallet for the quote token.
    pub token_account: Pubkey,
    /// Wallet for spot market 1's token.
    pub token_account_1: Pubkey,
}

/// The address of a key pair.
pub open spec fn addr(keypair: Keypair) -> Pubkey {
    crate::keys::ed25519_address(keypair.secret@)
}

impl UserAcct {
    /// The address that owns the account.
    pub open spec fn authority(self) -> Pubkey {
        addr(self.keypair)
    }
}

/// A signed-message order that was placed and can still be named.
#[derive(Clone, Copy, PartialEq, Eq, Debug)]
pub struct SignedUuid {
    pub taker_idx: usize,
    pub uuid: u64,
    pub taker_is_long: bool,
}

/// How many placed signed-message orders a scenario remembers.
pub const MAX_SIGNED: usize = 16;

/// The standard scenario.
#[derive(Clone, Debug)]
pub struct Fixture {
    pub program_id: Pubkey,
    pub lazer_storage_id: Pubkey,
    pub state_pda: Pubkey,
    pub signer_pda: Pubkey,
    pub usdc_mint: Pubkey,
    pub spot_market_pda: Pubkey,
    pub spot_vault_pda: Pubkey,
    pub if_vault_pda: Pubkey,
    pub perp_market_pda: Pubkey,
    pub perp_oracle_pda: Pubkey,
    pub sol_mint: Pubkey,
    pub spot_market_1_pda: Pubkey,
    pub spot_vault_1_pda: Pubkey,
    pub if_vault_1_pda: Pubkey,
    pub spot_1_oracle_pda: Pubkey,
    pub pool1_market_a_pda: Pubkey,
    pub pool1_vault_a_pda: Pubkey,
    pub pool1_market_b_pda: Pubkey,
    pub pool1_vault_b_pda: Pubkey,
    pub amm_cache_pda: Pubkey,
    /// Holds every hot role.
    pub crank: Keypair,
    /// The warm admin.
    pub admin: Keypair,
    pub users: Vec<UserAcct>,
    /// Funded authorities that have no accounts on the exchange yet.
    pub fresh: Vec<Keypair>,
    /// Next sequence number of the market maker's oracle.
    pub mm_seq: u64,
    /// Next publish time of a rewritten oracle.
    pub oracle_seq: u64,
    pub history: History,
    /// Next number for a signed-message order.
    pub signed_uuid_seq: u64,
    /// The signed-message orders placed last, newest last.
    pub signed_uuids: Vec<SignedUuid>,
}

impl Fixture {
    /// The scenario has its users and its fresh authorities, and the signed-message
    /// orders it remembers are few and of its users.
    pub open spec fn wf(self) -> bool {
        &&& self.users@.len() == NUM_USERS
        &&& self.fresh@.len() == NUM_FRESH
        &&& self.history.covers(NUM_USERS as nat)
        &&& self.signed_uuids@.len() <= MAX_SIGNED
        &&& forall|i: int|
            0 <= i < self.signed_uuids@.len() ==> (#[trigger] self.signed_uuids@[i]).taker_idx
                < NUM_USERS
    }
}

// ---------------------------------------------------------------------------
// Addresses
// ---------------------------------------------------------------------------

/// `key` is the program-derived address of the seeds.
pub open spec fn is_pda(key: Pubkey, seeds: Seq<Seq<u8>>, program: Pubkey) -> bool {
    crate::keys::program_address(seeds, program) matches Some((k, _)) && k == key
}

/// The program-derived address of seeds that have one.
pub open spec fn pda_key(seeds: Seq<Seq<u8>>, program: Pubkey) -> Pubkey {
    (crate::keys::program_address(seeds, program)->0).0
}

/// The seeds of a market's address, or of a vault's.
pub open spec fn indexed(tag: &str, index: int) -> Seq<Seq<u8>> {
    seq![crate::keys::text(tag), crate::wire::le(index, 2)]
}

pub open spec fn derivable(seeds: Seq<Seq<u8>>, program: Pubkey) -> bool {
    crate::keys::program_address(seeds, program) is Some
}

/// The address of a market or vault by its index.
fn indexed_pda(tag: &str, index: u16, program: Pubkey) -> (r: Option<(Pubkey, u8)>)
    ensures
        r == crate::keys::program_address(indexed(tag, index as int), program),
{
    pda2(tag, u16_bytes(index), program)
}

/// Where one spot market, its vault and its insurance vault live.
#[derive(Clone, Copy, PartialEq, Eq, Debug)]
pub struct SpotAddresses {
    pub market: Pubkey,
    pub vault: Pubkey,
    pub if_vault: Pubkey,
}

impl SpotAddresses {
    pub open spec fn derived_from(self, index: int, program: Pubkey) -> bool {
        &&& is_pda(self.market, indexed("spot_market", index), program)
        &&& is_pda(self.vault, indexed("spot_market_vault", index), program)
        &&& is_pda(self.if_vault, indexed("insurance_fund_vault", index), program)
    }

    pub open spec fn all_derivable(index: int, program: Pubkey) -> bool {
        &&& derivable(indexed("spot_market", index), program)
        &&& derivable(indexed("spot_market_vault", index), program)
        &&& derivable(indexed("insurance_fund_vault", index), program)
    }

    /// Derives the addresses of a spot market.
    pub fn derive(index: u16, program: Pubkey) -> (r: Option<SpotAddresses>)
        ensures
            r is Some <==> SpotAddresses::all_derivable(index as int, program),
            r matches Some(a) ==> a.derived_from(index as int, program),
    {
        let (market, _) = indexed_pda("spot_market", index, program)?;
        let (vault, _) = indexed_pda("spot_market_vault", index, program)?;
        let (if_vault, _) = indexed_pda("insurance_fund_vault", index, program)?;
        Some(SpotAddresses { market, vault, if_vault })
    }
}

/// The addresses of the standard scenario, with the signer's bump.
#[derive(Clone, Copy, PartialEq, Eq, Debug)]
pub struct Addresses {
    pub signer: Pubkey,
    pub signer_nonce: u8,
    pub state: Pubkey,
    pub spot_0: SpotAddresses,
    pub spot_1: SpotAddresses,
    pub pool1_a: SpotAddresses,
    pub pool1_b: SpotAddresses,
    pub perp_market: Pubkey,
    pub perp_oracle: Pubkey,
    pub spot_1_oracle: Pubkey,
    pub amm_cache: Pubkey,
}

/// The seeds of a feed's oracle.
pub open spec fn oracle_seeds(p: Protocol, feed_id: u32) -> Seq<Seq<u8>> {
    seq![p.lazer_oracle_seed@, crate::wire::le(feed_id as int, 4)]
}

impl Addresses {
    pub open spec fn derived_from(self, p: Protocol) -> bool {
        &&& crate::keys::program_address(seq![crate::keys::text("velocity_signer")], p.program_id)
            == Some((self.signer, self.signer_nonce))
        &&& is_pda(self.state, seq![crate::keys::text("velocity_state")], p.program_id)
        &&& self.spot_0.derived_from(0, p.program_id)
        &&& self.spot_1.derived_from(1, p.program_id)
        &&& self.pool1_a.derived_from(2, p.program_id)
        &&& self.pool1_b.derived_from(3, p.program_id)
        &&& is_pda(self.perp_market, indexed("perp_market", 0), p.program_id)
        &&& is_pda(self.perp_oracle, oracle_seeds(p, PERP_FEED_ID), p.program_id)
        &&& is_pda(self.spot_1_oracle, oracle_seeds(p, SPOT_1_FEED_ID), p.program_id)
        &&& is_pda(self.amm_cache, seq![p.amm_cache_seed@], p.program_id)
    }

    pub open spec fn all_derivable(p: Protocol) -> bool {
        &&& derivable(seq![crate::keys::text("velocity_signer")], p.program_id)
        &&& derivable(seq![crate::keys::text("velocity_state")], p.program_id)
        &&& SpotAddresses::all_derivable(0, p.program_id)
        &&& SpotAddresses::all_derivable(1, p.program_id)
        &&& SpotAddresses::all_derivable(2, p.program_id)
        &&& SpotAddresses::all_derivable(3, p.program_id)
        &&& derivable(indexed("perp_market", 0), p.program_id)
        &&& derivable(oracle_seeds(p, PERP_FEED_ID), p.program_id)
        &&& derivable(oracle_seeds(p, SPOT_1_FEED_ID), p.program_id)
        &&& derivable(seq![p.amm_cache_seed@], p.program_id)
    }

    /// Derives every address of the scenario; `None` where one of them has no
    /// derivation.
    pub fn derive(p: &Protocol) -> (r: Option<Addresses>)
        ensures
            r is Some <==> Addresses::all_derivable(*p),
            r matches Some(a) ==> a.derived_from(*p),
    {
        let (signer, signer_nonce) = pda1("velocity_signer", p.program_id)?;
        let (state, _) = pda1("velocity_state", p.program_id)?;
        let spot_0 = SpotAddresses::derive(0, p.program_id)?;
        let spot_1 = SpotAddresses::derive(1, p.program_id)?;
        let pool1_a = SpotAddresses::derive(2, p.program_id)?;
        let pool1_b = SpotAddresses::derive(3, p.program_id)?;
        let (perp_market, _) = indexed_pda("perp_market", 0, p.program_id)?;
        let (perp_oracle, _) = pda_of2(
            copy_bytes(&p.lazer_oracle_seed),
            u32_bytes(PERP_FEED_ID),
            p.program_id,
        )?;
        let (spot_1_oracle, _) = pda_of2(
            copy_bytes(&p.lazer_oracle_seed),
            u32_bytes(SPOT_1_FEED_ID),
            p.program_id,
        )?;
        let (amm_cache, _) = pda_of1(copy_bytes(&p.amm_cache_seed), p.program_id)?;
        Some(
            Addresses {
                signer,
                signer_nonce,
                state,
                spot_0,
                spot_1,
                pool1_a,
                pool1_b,
                perp_market,
                perp_oracle,
                spot_1_oracle,
                amm_cache,
            },
        )
    }
}

fn copy_bytes(bytes: &Vec<u8>) -> (r: Vec<u8>)
    ensures
        r@ == bytes@,
{
    let mut r: Vec<u8> = Vec::new();
    push_bytes(&mut r, bytes.as_slice());
    r
}

/// The seeds of an authority's stats account.
pub open spec fn stats_seeds(authority: Pubkey) -> Seq<Seq<u8>> {
    seq![crate::keys::text("user_stats"), authority.bytes@]
}

/// The seeds of an authority's sub-account.
pub open spec fn user_seeds(authority: Pubkey, sub_account_id: u16) -> Seq<Seq<u8>> {
    seq![crate::keys::text("user"), authority.bytes@, crate::wire::le(sub_account_id as int, 2)]
}

/// The seeds of the account that watches over a user.
pub open spec fn conditions_seeds(user_pda: Pubkey) -> Seq<Seq<u8>> {
    seq![crate::keys::text("user_conditions"), user_pda.bytes@]
}

/// The address of an authority's stats account.
pub fn stats_pda(authority: &Pubkey, program: Pubkey) -> (r: Option<(Pubkey, u8)>)
    ensures
        r == crate::keys::program_address(stats_seeds(*authority), program),
{
    pda2("user_stats", key_bytes(authority), program)
}

/// The address of an authority's sub-account.
pub fn user_pda(authority: &Pubkey, sub_account_id: u16, program: Pubkey) -> (r: Option<
    (Pubkey, u8),
>)
    ensures
        r == crate::keys::program_address(user_seeds(*authority, sub_account_id), program),
{
    pda3("user", key_bytes(authority), u16_bytes(sub_account_id), program)
}

/// The address of the account that watches over a user.
pub fn conditions_pda(user_pda: &Pubkey, program: Pubkey) -> (r: Option<(Pubkey, u8)>)
    ensures
        r == crate::keys::program_address(conditions_seeds(*user_pda), program),
{
    pda2("user_conditions", key_bytes(user_pda), program)
}

// ---------------------------------------------------------------------------
// Opening accounts
// ---------------------------------------------------------------------------

/// Thirty-two zero bytes: an empty name.
pub open spec fn empty_name() -> Seq<u8> {
    crate::keys::ZERO_BYTES@
}

/// Opens an authority's stats account.
pub open spec fn init_stats_call(
    program_id: Pubkey,
    state: Pubkey,
    authority: Pubkey,
    stats: Pubkey,
) -> crate::keys::TransactionView {
    crate::keys::call(
        program_id,
        seq![
            AccountMeta::new(stats, false),
            AccountMeta::new(state, false),
            AccountMeta::new_readonly(authority, false),
            AccountMeta::new(authority, true),
            AccountMeta::new_readonly(rent_sysvar_id(), false),
            AccountMeta::new_readonly(system_program_id(), false),
        ],
        D_INITIALIZE_USER_STATS@,
        authority,
    )
}

pub fn init_stats(
    program_id: Pubkey,
    state: Pubkey,
    authority: Pubkey,
    stats: Pubkey,
) -> (r: Transaction)
    ensures
        r@ == init_stats_call(program_id, state, authority, stats),
{
    let args: Vec<u8> = Vec::new();
    let data = ix_data(D_INITIALIZE_USER_STATS, &args);
    assert(data@ =~= D_INITIALIZE_USER_STATS@);
    send(
        program_id,
        vec![
            AccountMeta::new(stats, false),
            AccountMeta::new(state, false),
            AccountMeta::new_readonly(authority, false),
            AccountMeta::new(authority, true),
            AccountMeta::new_readonly(rent_sysvar_id(), false),
            AccountMeta::new_readonly(system_program_id(), false),
        ],
        data,
        authority,
    )
}

/// Opens a sub-account with an empty name.
pub open spec fn init_user_call(
    program_id: Pubkey,
    state: Pubkey,
    authority: Pubkey,
    stats: Pubkey,
    user: Pubkey,
    conditions: Pubkey,
    sub_account_id: u16,
) -> crate::keys::TransactionView {
    crate::keys::call(
        program_id,
        seq![
            AccountMeta::new(user, false),
            AccountMeta::new(conditions, false),
            AccountMeta::new(stats, false),
            AccountMeta::new(state, false),
            AccountMeta::new_readonly(authority, false),
            AccountMeta::new(authority, true),
            AccountMeta::new_readonly(rent_sysvar_id(), false),
            AccountMeta::new_readonly(system_program_id(), false),
        ],
        D_INITIALIZE_USER@ + (crate::wire::le(sub_account_id as int, 2) + empty_name()),
        authority,
    )
}

/// The arguments that open a sub-account with an empty name.
pub fn init_user_args(sub_account_id: u16) -> (r: Vec<u8>)
    ensures
        r@ == crate::wire::le(sub_account_id as int, 2) + empty_name(),
{
    let mut args = u16_bytes(sub_account_id);
    let name = system_program_id().bytes;
    push_bytes(&mut args, name.as_slice());
    args
}

pub fn init_user(
    program_id: Pubkey,
    state: Pubkey,
    authority: Pubkey,
    stats: Pubkey,
    user: Pubkey,
    conditions: Pubkey,
    sub_account_id: u16,
) -> (r: Transaction)
    ensures
        r@ == init_user_call(
            program_id,
            state,
            authority,
            stats,
            user,
            conditions,
            sub_account_id,
        ),
{
    send(
        program_id,
        vec![
            AccountMeta::new(user, false),
            AccountMeta::new(conditions, false),
            AccountMeta::new(stats, false),
            AccountMeta::new(state, false),
            AccountMeta::new_readonly(authority, false),
            AccountMeta::new(authority, true),
            AccountMeta::new_readonly(rent_sysvar_id(), false),
            AccountMeta::new_readonly(system_program_id(), false),
        ],
        ix_data(D_INITIALIZE_USER, &init_user_args(sub_account_id)),
        authority,
    )
}

} // verus!
