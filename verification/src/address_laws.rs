//! Where the accounts of a scenario live.

use vstd::prelude::*;
use crate::fixture::{conditions_pda, stats_pda, user_pda, Fixture, Protocol};
use crate::insurance::if_stake_pda;
use crate::keys::{program_address, text, Pubkey};
use crate::scenario::{derive_core, perp_market, quote_market, Core};
use crate::setup::{ScenarioKeys, Setup};
use crate::signed_msg::{
    revenue_escrow_pda, revenue_share_pda, signed_msg_orders_pda, signed_msg_ws_pda,
};
use crate::wire::{le, le_injective, pow256};

verus! {

/// `key` is what seeds derive.
pub open spec fn lives_at(key: Pubkey, seeds: Seq<Seq<u8>>, program: Pubkey) -> bool {
    program_address(seeds, program) matches Some(found) && found.0 == key
}

/// The accounts of an authority are derived from a word of their own and the
/// authority's address; a sub-account from its number too.
pub proof fn accounts_derive_from_their_owner(
    authority: &Pubkey,
    sub_account_id: u16,
    program: Pubkey,
    r: Option<(Pubkey, u8)>,
)
    ensures
        call_ensures(stats_pda, (authority, program), r) ==> r == program_address(
            seq![text("user_stats"), authority.bytes@],
            program,
        ),
        call_ensures(user_pda, (authority, sub_account_id, program), r) ==> r == program_address(
            seq![text("user"), authority.bytes@, le(sub_account_id as int, 2)],
            program,
        ),
        call_ensures(conditions_pda, (authority, program), r) ==> r == program_address(
            seq![text("user_conditions"), authority.bytes@],
            program,
        ),
        call_ensures(if_stake_pda, (authority, program), r) ==> r == program_address(
            seq![text("insurance_fund_stake"), authority.bytes@, le(0, 2)],
            program,
        ),
        call_ensures(signed_msg_orders_pda, (authority, program), r) ==> r == program_address(
            seq![text("SIGNED_MSG"), authority.bytes@],
            program,
        ),
        call_ensures(signed_msg_ws_pda, (authority, program), r) ==> r == program_address(
            seq![text("SIGNED_MSG_WS"), authority.bytes@],
            program,
        ),
        call_ensures(revenue_share_pda, (authority, program), r) ==> r == program_address(
            seq![text("REV_SHARE"), authority.bytes@],
            program,
        ),
        call_ensures(revenue_escrow_pda, (authority, program), r) ==> r == program_address(
            seq![text("REV_ESCROW"), authority.bytes@],
            program,
        ),
{
}

/// The seeds of two sub-accounts of one authority differ in the number.
pub proof fn sub_accounts_have_seeds_of_their_own(authority: Pubkey, a: u16, b: u16)
    requires
        a != b,
    ensures
        seq![text("user"), authority.bytes@, le(a as int, 2)] != seq![
            text("user"),
            authority.bytes@,
            le(b as int, 2),
        ],
{
    reveal_with_fuel(pow256, 3);
    if le(a as int, 2) == le(b as int, 2) {
        le_injective(a as int, b as int, 2);
    }
    assert(seq![text("user"), authority.bytes@, le(a as int, 2)][2] == le(a as int, 2));
    assert(seq![text("user"), authority.bytes@, le(b as int, 2)][2] == le(b as int, 2));
}

/// The exchange's signer and state, with the signer's bump.
pub proof fn the_exchange_derives_from_its_name(program: Pubkey, r: Option<Core>)
    requires
        call_ensures(derive_core, (program,), r),
    ensures
        r is Some <==> program_address(seq![text("velocity_signer")], program) is Some
            && program_address(seq![text("velocity_state")], program) is Some,
        r matches Some(c) ==> program_address(seq![text("velocity_signer")], program) == Some(
            (c.signer, c.signer_nonce),
        ) && lives_at(c.state, seq![text("velocity_state")], program),
{
}

/// A market and its two vaults are derived from the market's number, each under a
/// word of its own: here those of the quote market and of the perp market, whose
/// numbers are zero.
pub proof fn markets_derive_from_their_number(
    program: Pubkey,
    spot: Option<crate::fixture::SpotAddresses>,
    perp: Option<Pubkey>,
)
    requires
        call_ensures(quote_market, (program,), spot),
        call_ensures(perp_market, (program,), perp),
    ensures
        spot matches Some(a) ==> {
            &&& lives_at(a.market, seq![text("spot_market"), le(0, 2)], program)
            &&& lives_at(a.vault, seq![text("spot_market_vault"), le(0, 2)], program)
            &&& lives_at(a.if_vault, seq![text("insurance_fund_vault"), le(0, 2)], program)
        },
        spot is None ==> program_address(seq![text("spot_market"), le(0, 2)], program) is None
            || program_address(seq![text("spot_market_vault"), le(0, 2)], program) is None
            || program_address(seq![text("insurance_fund_vault"), le(0, 2)], program) is None,
        perp is Some <==> program_address(seq![text("perp_market"), le(0, 2)], program) is Some,
        perp matches Some(m) ==> lives_at(m, seq![text("perp_market"), le(0, 2)], program),
{
}

/// Every address of the standard scenario is derived from its own seeds: the two
/// pools' markets and vaults from the numbers zero to three, the oracles from the
/// exchange's seed and their feeds, zero for the perp market's and one for spot
/// market 1's.
pub proof fn the_standard_scenario_is_derived(p: &Protocol, k: ScenarioKeys, slot: u64, r: Option<Setup>)
    requires
        call_ensures(Fixture::setup, (p, k, slot), r),
    ensures
        r matches Some(s) ==> {
            let f = s.fixture;
            let at = p.program_id;
            &&& f.program_id == at && f.lazer_storage_id == p.lazer_storage_id
            &&& f.usdc_mint == k.usdc_mint && f.sol_mint == k.sol_mint
            &&& lives_at(f.signer_pda, seq![text("velocity_signer")], at)
            &&& lives_at(f.state_pda, seq![text("velocity_state")], at)
            &&& lives_at(f.spot_market_pda, seq![text("spot_market"), le(0, 2)], at)
            &&& lives_at(f.spot_vault_pda, seq![text("spot_market_vault"), le(0, 2)], at)
            &&& lives_at(f.if_vault_pda, seq![text("insurance_fund_vault"), le(0, 2)], at)
            &&& lives_at(f.spot_market_1_pda, seq![text("spot_market"), le(1, 2)], at)
            &&& lives_at(f.spot_vault_1_pda, seq![text("spot_market_vault"), le(1, 2)], at)
            &&& lives_at(f.if_vault_1_pda, seq![text("insurance_fund_vault"), le(1, 2)], at)
            &&& lives_at(f.pool1_market_a_pda, seq![text("spot_market"), le(2, 2)], at)
            &&& lives_at(f.pool1_vault_a_pda, seq![text("spot_market_vault"), le(2, 2)], at)
            &&& lives_at(f.pool1_market_b_pda, seq![text("spot_market"), le(3, 2)], at)
            &&& lives_at(f.pool1_vault_b_pda, seq![text("spot_market_vault"), le(3, 2)], at)
            &&& lives_at(f.perp_market_pda, seq![text("perp_market"), le(0, 2)], at)
            &&& lives_at(f.perp_oracle_pda, seq![p.lazer_oracle_seed@, le(0, 4)], at)
            &&& lives_at(f.spot_1_oracle_pda, seq![p.lazer_oracle_seed@, le(1, 4)], at)
            &&& lives_at(f.amm_cache_pda, seq![p.amm_cache_seed@], at)
        },
{
}

/// A user of the standard scenario has the key and wallets that were drawn for it,
/// and accounts that are derived from its address.
pub proof fn users_are_derived_from_their_keys(
    p: &Protocol,
    k: ScenarioKeys,
    slot: u64,
    r: Option<Setup>,
    i: int,
)
    requires
        call_ensures(Fixture::setup, (p, k, slot), r),
        0 <= i < k.users@.len(),
    ensures
        r matches Some(s) ==> {
            let u = s.fixture.users@[i];
            &&& u.keypair == k.users@[i].keypair
            &&& u.token_account == k.users@[i].token_account
            &&& u.token_account_1 == k.users@[i].token_account_1
            &&& lives_at(
                u.stats_pda,
                seq![text("user_stats"), u.authority().bytes@],
                p.program_id,
            )
            &&& lives_at(
                u.user_pda,
                seq![text("user"), u.authority().bytes@, le(0, 2)],
                p.program_id,
            )
        },
{
}

} // verus!
