//! What the small scenarios share: one quote market, one perp market, and the
//! accounts of a user.

use vstd::prelude::*;
use crate::discriminators::{D_DEPOSIT, D_INITIALIZE_USER};
use crate::fixture::{derivable, empty_name, indexed, init_user_args, pda_key, SpotAddresses};
use crate::keys::{
    call, pda1, pda2, rent_sysvar_id, send, system_program_id, token_program_id, AccountMeta,
    Pubkey, Transaction, TransactionView,
};
use crate::wire::{ix_data, le, push_u64, push_u8, u16_bytes};

verus! {

/// The exchange's signer and its state.
#[derive(Clone, Copy, PartialEq, Eq, Debug)]
pub struct Core {
    pub signer: Pubkey,
    pub signer_nonce: u8,
    pub state: Pubkey,
}

pub open spec fn signer_seeds() -> Seq<Seq<u8>> {
    seq![crate::keys::text("velocity_signer")]
}

pub open spec fn state_seeds() -> Seq<Seq<u8>> {
    seq![crate::keys::text("velocity_state")]
}

/// Where the exchange's signer and state live.
pub open spec fn core_at(program: Pubkey) -> Core {
    Core {
        signer: pda_key(signer_seeds(), program),
        signer_nonce: (crate::keys::program_address(signer_seeds(), program)->0).1,
        state: pda_key(state_seeds(), program),
    }
}

pub open spec fn core_derivable(program: Pubkey) -> bool {
    derivable(signer_seeds(), program) && derivable(state_seeds(), program)
}

pub fn derive_core(program: Pubkey) -> (r: Option<Core>)
    ensures
        r is Some <==> core_derivable(program),
        r matches Some(c) ==> c == core_at(program),
{
    let (signer, signer_nonce) = pda1("velocity_signer", program)?;
    let (state, _) = pda1("velocity_state", program)?;
    Some(Core { signer, signer_nonce, state })
}

/// Where a spot market and its vaults live.
pub open spec fn spot_at(index: int, program: Pubkey) -> SpotAddresses {
    SpotAddresses {
        market: pda_key(indexed("spot_market", index), program),
        vault: pda_key(indexed("spot_market_vault", index), program),
        if_vault: pda_key(indexed("insurance_fund_vault", index), program),
    }
}

pub fn quote_market(program: Pubkey) -> (r: Option<SpotAddresses>)
    ensures
        r is Some <==> SpotAddresses::all_derivable(0, program),
        r matches Some(a) ==> a == spot_at(0, program),
{
    SpotAddresses::derive(0, program)
}

/// Where the perp market lives.
pub open spec fn perp_at(program: Pubkey) -> Pubkey {
    pda_key(indexed("perp_market", 0), program)
}

pub fn perp_market(program: Pubkey) -> (r: Option<Pubkey>)
    ensures
        r is Some <==> derivable(indexed("perp_market", 0), program),
        r matches Some(a) ==> a == perp_at(program),
{
    let (key, _) = pda2("perp_market", u16_bytes(0), program)?;
    Some(key)
}

/// Opens sub-account zero of an authority on an exchange that watches over
/// nobody: the account that would has no place in the list.
pub open spec fn open_user_call(
    program: Pubkey,
    state: Pubkey,
    authority: Pubkey,
    stats: Pubkey,
    user: Pubkey,
) -> TransactionView {
    call(
        program,
        seq![
            AccountMeta::new(user, false),
            AccountMeta::new(stats, false),
            AccountMeta::new(state, false),
            AccountMeta::new_readonly(authority, false),
            AccountMeta::new(authority, true),
            AccountMeta::new_readonly(rent_sysvar_id(), false),
            AccountMeta::new_readonly(system_program_id(), false),
        ],
        D_INITIALIZE_USER@ + (le(0, 2) + empty_name()),
        authority,
    )
}

pub fn open_user(
    program: Pubkey,
    state: Pubkey,
    authority: Pubkey,
    stats: Pubkey,
    user: Pubkey,
) -> (r: Transaction)
    ensures
        r@ == open_user_call(program, state, authority, stats, user),
{
    let accounts = vec![
        AccountMeta::new(user, false),
        AccountMeta::new(stats, false),
        AccountMeta::new(state, false),
        AccountMeta::new_readonly(authority, false),
        AccountMeta::new(authority, true),
        AccountMeta::new_readonly(rent_sysvar_id(), false),
        AccountMeta::new_readonly(system_program_id(), false),
    ];
    send(program, accounts, ix_data(D_INITIALIZE_USER, &init_user_args(0)), authority)
}

/// The accounts of a deposit into the quote market.
#[derive(Clone, Copy, PartialEq, Eq, Debug)]
pub struct Depositor {
    pub state: Pubkey,
    pub user: Pubkey,
    pub stats: Pubkey,
    pub authority: Pubkey,
    pub vault: Pubkey,
    pub wallet: Pubkey,
    pub market: Pubkey,
}

/// A deposit into the quote market.
pub open spec fn quote_deposit_call(program: Pubkey, d: Depositor, amount: u64) -> TransactionView {
    call(
        program,
        seq![
            AccountMeta::new_readonly(d.state, false),
            AccountMeta::new(d.user, false),
            AccountMeta::new(d.stats, false),
            AccountMeta::new_readonly(d.authority, true),
            AccountMeta::new(d.vault, false),
            AccountMeta::new(d.wallet, false),
            AccountMeta::new_readonly(token_program_id(), false),
            AccountMeta::new(d.market, false),
        ],
        D_DEPOSIT@ + (le(0, 2) + le(amount as int, 8) + seq![0u8]),
        d.authority,
    )
}

pub fn quote_deposit(program: Pubkey, d: &Depositor, amount: u64) -> (r: Transaction)
    ensures
        r@ == quote_deposit_call(program, *d, amount),
{
    let mut args = u16_bytes(0);
    push_u64(&mut args, amount);
    push_u8(&mut args, 0);
    let accounts = vec![
        AccountMeta::new_readonly(d.state, false),
        AccountMeta::new(d.user, false),
        AccountMeta::new(d.stats, false),
        AccountMeta::new_readonly(d.authority, true),
        AccountMeta::new(d.vault, false),
        AccountMeta::new(d.wallet, false),
        AccountMeta::new_readonly(token_program_id(), false),
        AccountMeta::new(d.market, false),
    ];
    send(program, accounts, ix_data(D_DEPOSIT, &args), d.authority)
}

} // verus!
