//! Whether the accounts that a setup creates fit together.

use vstd::prelude::*;
use crate::address_laws::lives_at;
use crate::fixture::{addr, pda_key, Addresses, Fixture, Protocol, SpotAddresses, UserAcct};
use crate::keys::{text, Keypair, Pubkey};
use crate::liq;
use crate::pause::bid_ask_twap;
use crate::pause::revenue_deposit;
use crate::pause::settle_revenue;
use crate::pause::spot_interest;
use crate::revshare::{Keys256, Keys273, Regr256, Regr273, Setup256, Setup273};
use crate::scenario::Core;
use crate::settlement;
use crate::setup::{market_steps_of, user_steps, SetupStep};
use crate::signed_msg::SignedMessage;
use crate::spot_actions::following_index;
use crate::swift::{
    message_to_sign, pause_steps, Regr271Pause, Regr271Resize, SetupPause, SetupResize, TakerAt,
};
use crate::user_actions::signed_amount;
use crate::wire::le;

verus! {

// ---------------------------------------------------------------------------
// The standard scenario
// ---------------------------------------------------------------------------

/// A step that creates an account for tokens.
pub open spec fn holds(step: SetupStep, key: Pubkey, mint: Pubkey, owner: Pubkey) -> bool {
    step matches SetupStep::TokenAccount { key: k, mint: m, owner: o, .. } && k == key && m == mint
        && o == owner
}

/// A spot market is created where it says it lives, and both of its vaults are
/// created right after it, in its own token and owned by the exchange's signer.
pub open spec fn market_fits(steps: Seq<SetupStep>, k: int, signer: Pubkey) -> bool {
    steps[k] matches SetupStep::InjectSpotMarket { at, market } && {
        &&& at == market.pubkey
        &&& holds(steps[k + 1], market.vault, market.mint, signer)
        &&& holds(steps[k + 2], market.if_vault, market.mint, signer)
        &&& steps[k + 2]->TokenAccount_amount == 0
    }
}

/// The markets of the standard scenario fit together: every spot market lies at its
/// address with vaults of its own, its number, token, decimals and oracle are those
/// that were created, the markets of the second pool hold what their books say, and
/// the perp market is quoted in market 0.
pub proof fn markets_fit_their_vaults(
    p: &Protocol,
    a: &Addresses,
    crank: Pubkey,
    admin: Pubkey,
    usdc_mint: Pubkey,
    sol_mint: Pubkey,
    slot: u64,
    r: Vec<SetupStep>,
)
    requires
        call_ensures(market_steps_of, (p, a, crank, admin, usdc_mint, sol_mint, slot), r),
    ensures
        r@.len() == 22,
        r@[0] == (SetupStep::Fund { key: crank, lamports: 10_000_000_000 }),
        r@[1] == (SetupStep::Fund { key: admin, lamports: 10_000_000_000 }),
        r@[2] is InjectState && r@[2]->InjectState_at == a.state && r@[2]->state.signer == a.signer
            && r@[2]->state.signer_nonce == a.signer_nonce && r@[2]->state.warm_admin == admin
            && r@[2]->state.hot_roles.amm_crank == crank,
        r@[3] == (SetupStep::Mint { key: usdc_mint, authority: a.signer, decimals: 6 }),
        r@[7] == (SetupStep::Mint { key: sol_mint, authority: a.signer, decimals: 9 }),
        market_fits(r@, 4, a.signer) && market_fits(r@, 9, a.signer),
        market_fits(r@, 12, a.signer) && market_fits(r@, 15, a.signer),
        ({
            let m = r@[4]->InjectSpotMarket_market;
            &&& m.pubkey == a.spot_0.market && m.vault == a.spot_0.vault
            &&& m.market_index == 0 && m.mint == usdc_mint && m.decimals == 6
        }),
        ({
            let m = r@[9]->InjectSpotMarket_market;
            &&& m.pubkey == a.spot_1.market && m.vault == a.spot_1.vault
            &&& m.market_index == 1 && m.mint == sol_mint && m.decimals == 9
            &&& m.oracle == a.spot_1_oracle
        }),
        ({
            let m = r@[12]->InjectSpotMarket_market;
            &&& m.pubkey == a.pool1_a.market && m.vault == a.pool1_a.vault
            &&& m.market_index == 2 && m.mint == usdc_mint && m.decimals == 6 && m.pool_id == 1
            &&& m.deposit_balance == 1_000 * r@[13]->TokenAccount_amount
        }),
        ({
            let m = r@[15]->InjectSpotMarket_market;
            &&& m.pubkey == a.pool1_b.market && m.vault == a.pool1_b.vault
            &&& m.market_index == 3 && m.mint == sol_mint && m.decimals == 9 && m.pool_id == 1
            &&& m.deposit_balance == r@[16]->TokenAccount_amount
        }),
        r@[5]->TokenAccount_amount == 1_000_000_000 && r@[10]->TokenAccount_amount == 0,
        r@[8] is InjectOracle && r@[8]->InjectOracle_at == a.spot_1_oracle
            && r@[8]->InjectOracle_oracle == r@[18]->InjectOracle_oracle,
        r@[18] is InjectOracle && r@[18]->InjectOracle_at == a.perp_oracle
            && r@[18]->InjectOracle_oracle.price == 1_000_000
            && r@[18]->InjectOracle_oracle.conf == 0 && r@[18]->InjectOracle_oracle.posted_slot
            == slot,
        r@[19] is InjectPerpMarket && r@[19]->InjectPerpMarket_at == a.perp_market
            && r@[19]->InjectPerpMarket_market.pubkey == a.perp_market
            && r@[19]->InjectPerpMarket_market.oracle == a.perp_oracle
            && r@[19]->InjectPerpMarket_market.quote_spot_market_index == 0,
        r@[20] == (SetupStep::InjectAmmCache { at: a.amm_cache, oracle: a.perp_oracle }),
        r@[21] == (SetupStep::InjectLazerStorage { trusted_signer: crank, expires_at: i64::MAX }),
{
    crate::setup::seed_is_a_thousand_units(6);
    crate::setup::seed_is_a_thousand_units(9);
}

/// A user is funded, then has its wallets, one in each token, then its stats, then
/// its account with the account that watches over it, and last of all lamports above
/// its rent.
pub proof fn users_are_set_up_in_order(
    u: UserAcct,
    usdc_mint: Pubkey,
    sol_mint: Pubkey,
    program: Pubkey,
)
    ensures
        ({
            let steps = user_steps(u, usdc_mint, sol_mint, program);
            &&& steps.len() == 6
            &&& steps[0] == (SetupStep::Fund { key: u.authority(), lamports: 10_000_000_000 })
            &&& holds(steps[1], u.token_account, usdc_mint, u.authority())
            &&& holds(steps[2], u.token_account_1, sol_mint, u.authority())
            &&& steps[1]->TokenAccount_amount == 1_000_000_000_000
            &&& steps[2]->TokenAccount_amount == 1_000_000_000_000
            &&& steps[3] == (SetupStep::InitStats { authority: u.authority(), stats: u.stats_pda })
            &&& steps[4] == (SetupStep::InitUser {
                authority: u.authority(),
                stats: u.stats_pda,
                user: u.user_pda,
                conditions: pda_key(seq![text("user_conditions"), u.user_pda.bytes@], program),
            })
            &&& steps[5] == (SetupStep::Airdrop { key: u.user_pda, lamports: 100_000_000 })
        }),
{
}

// ---------------------------------------------------------------------------
// The liquidation scenario
// ---------------------------------------------------------------------------

/// The vault holds what the books say was deposited, the insurance vault is funded,
/// and both belong to the exchange's signer.
pub proof fn liquidation_markets_fit(
    c: Core,
    m: SpotAddresses,
    perp: Pubkey,
    mint: Pubkey,
    duration: u8,
)
    ensures
        ({
            let steps = liq::market_steps(c, m, perp, mint, duration);
            let spot = steps[4]->InjectSpotMarket_market;
            &&& steps.len() == 6
            &&& steps[0] is InjectState && steps[0]->InjectState_at == c.state
                && steps[0]->state.signer == c.signer && steps[0]->state.liquidation_duration
                == duration
            &&& steps[1] == (SetupStep::Mint { key: mint, authority: c.signer, decimals: 6 })
            &&& steps[4] is InjectSpotMarket && steps[4]->InjectSpotMarket_at == spot.pubkey
            &&& holds(steps[2], spot.vault, spot.mint, c.signer) && spot.mint == mint
            &&& holds(steps[3], spot.if_vault, spot.mint, c.signer)
            &&& spot.vault == m.vault && spot.if_vault == m.if_vault && spot.pubkey == m.market
            &&& 1_000 * steps[2]->TokenAccount_amount == spot.deposit_balance
            &&& steps[3]->TokenAccount_amount == 1_000_000_000
            &&& steps[5] is InjectPerpMarket && steps[5]->InjectPerpMarket_at == perp
                && steps[5]->InjectPerpMarket_market.pubkey == perp
        }),
{
}

/// Three users are set up alike, then the third is written over as the victim, and
/// the first opens its stake.
pub proof fn the_third_becomes_the_victim(
    program_id: Pubkey,
    mint: Pubkey,
    keys: &Vec<liq::UserKeys>,
    duration: u8,
    status: u8,
    r: Option<liq::Setup>,
    i: int,
)
    requires
        call_ensures(liq::Fixture::setup, (program_id, mint, keys, duration, status), r),
        keys@.len() == 3,
        0 <= i < 3,
    ensures
        r matches Some(s) ==> {
            let f = s.fixture;
            let n = s.steps@.len() as int;
            let u = f.users@[i];
            let at = 6 + 4 * i;
            &&& n == 6 + 4 * 3 + 2
            &&& u.keypair == keys@[i].keypair && u.token_account == keys@[i].token_account
            &&& lives_at(u.user_pda, seq![text("user"), u.authority().bytes@, le(0, 2)], program_id)
            &&& lives_at(u.stats_pda, seq![text("user_stats"), u.authority().bytes@], program_id)
            &&& s.steps@[at] == (SetupStep::Fund { key: u.authority(), lamports: 10_000_000_000 })
            &&& holds(s.steps@[at + 1], u.token_account, mint, u.authority())
            &&& s.steps@[at + 1]->TokenAccount_amount == 1_000_000_000_000
            &&& s.steps@[at + 2] == (SetupStep::InitStats {
                authority: u.authority(),
                stats: u.stats_pda,
            })
            &&& s.steps@[at + 3] == (SetupStep::OpenUser {
                authority: u.authority(),
                stats: u.stats_pda,
                user: u.user_pda,
            })
            &&& s.steps@[n - 2] is WriteUser && s.steps@[n - 2]->WriteUser_at == f.users@[2].user_pda
                && s.steps@[n - 2]->WriteUser_user.authority == f.users@[2].authority()
                && s.steps@[n - 2]->WriteUser_user.status == status
                && s.steps@[n - 2]->WriteUser_user.perp_quote < 0
            &&& s.steps@[n - 1] == (SetupStep::OpenStake {
                authority: f.users@[0].authority(),
                stats: f.users@[0].stats_pda,
                stake: f.if_stake_pda,
            })
            &&& f.program_id == program_id && f.usdc_mint == mint
            &&& lives_at(f.state_pda, seq![text("velocity_state")], program_id)
            &&& lives_at(f.signer_pda, seq![text("velocity_signer")], program_id)
            &&& lives_at(f.spot_market_pda, seq![text("spot_market"), le(0, 2)], program_id)
            &&& lives_at(f.spot_vault_pda, seq![text("spot_market_vault"), le(0, 2)], program_id)
            &&& lives_at(f.if_vault_pda, seq![text("insurance_fund_vault"), le(0, 2)], program_id)
            &&& lives_at(f.perp_market_pda, seq![text("perp_market"), le(0, 2)], program_id)
            &&& lives_at(
                f.if_stake_pda,
                seq![
                    text("insurance_fund_stake"),
                    f.users@[0].authority().bytes@,
                    le(0, 2),
                ],
                program_id,
            )
        },
{
    reveal_with_fuel(liq::all_user_steps, 4);
}

// ---------------------------------------------------------------------------
// The small scenarios
// ---------------------------------------------------------------------------

/// The addresses of the small scenarios are derived as everywhere: the state and the
/// signer from the exchange's name, the markets and vaults from their numbers, and
/// accounts from their owner.
pub proof fn expired_settlements_are_derived(
    program_id: Pubkey,
    mint: Pubkey,
    user_kp: Keypair,
    r: Option<settlement::Setup>,
)
    requires
        call_ensures(settlement::Regr270::setup, (program_id, mint, user_kp), r),
    ensures
        r matches Some(s) ==> {
            let f = s.fixture;
            &&& f.program_id == program_id && f.user_kp == user_kp
            &&& lives_at(f.state_pda, seq![text("velocity_state")], program_id)
            &&& lives_at(f.spot_market_pda, seq![text("spot_market"), le(0, 2)], program_id)
            &&& lives_at(f.spot_vault_pda, seq![text("spot_market_vault"), le(0, 2)], program_id)
            &&& lives_at(f.perp_market_pda, seq![text("perp_market"), le(0, 2)], program_id)
            &&& lives_at(
                f.user_pda,
                seq![text("user"), addr(user_kp).bytes@, le(0, 2)],
                program_id,
            )
            &&& s.steps@.contains(
                SetupStep::Fund { key: addr(user_kp), lamports: 10_000_000_000 },
            )
        },
{
    if let Some(s) = r {
        assert(s.steps@[5] == (SetupStep::Fund {
            key: addr(user_kp),
            lamports: 10_000_000_000,
        }));
    }
}

/// So are those of the builders' scenarios, whose other accounts are as they were
/// drawn.
pub proof fn builders_scenarios_are_derived(
    program_id: Pubkey,
    k: Keys273,
    q: Keys256,
    slot: u64,
    r: Option<Setup273>,
    t: Option<Setup256>,
)
    requires
        call_ensures(Regr273::setup, (program_id, k), r),
        call_ensures(Regr256::setup, (program_id, q, slot), t),
    ensures
        r matches Some(s) ==> {
            let f = s.fixture;
            &&& f.program_id == program_id && f.trader_kp == k.trader_kp
            &&& lives_at(f.state_pda, seq![text("velocity_state")], program_id)
            &&& lives_at(f.spot_market_pda, seq![text("spot_market"), le(0, 2)], program_id)
            &&& lives_at(f.spot_vault_pda, seq![text("spot_market_vault"), le(0, 2)], program_id)
            &&& lives_at(f.perp_market_pda, seq![text("perp_market"), le(0, 2)], program_id)
            &&& f.trader_pda == k.trader_pda && f.escrow_pda == k.escrow_pda
            &&& f.sibling_builder_pda == k.sibling_builder_pda
            &&& f.builder_rev_share_pda == k.builder_rev_share_pda
        },
        t matches Some(s) ==> {
            let f = s.fixture;
            let owner = addr(q.trader_kp);
            &&& f.program_id == program_id && f.trader_kp == q.trader_kp
            &&& f.usdc_mint == q.usdc_mint && f.trader_token == q.trader_token
            &&& f.escrow_pda == q.escrow_pda && f.builder_authority == q.builder_authority
            &&& lives_at(f.state_pda, seq![text("velocity_state")], program_id)
            &&& lives_at(f.signer_pda, seq![text("velocity_signer")], program_id)
            &&& lives_at(f.spot_market_pda, seq![text("spot_market"), le(0, 2)], program_id)
            &&& lives_at(f.spot_vault_pda, seq![text("spot_market_vault"), le(0, 2)], program_id)
            &&& lives_at(f.perp_market_pda, seq![text("perp_market"), le(0, 2)], program_id)
            &&& lives_at(f.trader_pda, seq![text("user"), owner.bytes@, le(0, 2)], program_id)
            &&& lives_at(f.trader_stats_pda, seq![text("user_stats"), owner.bytes@], program_id)
        },
{
}

/// So are those of the paused scenarios.
pub proof fn paused_scenarios_are_derived(
    program_id: Pubkey,
    mint: Pubkey,
    authority: Keypair,
    wallet: Pubkey,
    bit: u8,
    a: Option<bid_ask_twap::Setup>,
    b: Option<revenue_deposit::Setup>,
    c: Option<settle_revenue::Setup>,
    d: Option<spot_interest::Setup>,
)
    requires
        call_ensures(bid_ask_twap::Fx::setup, (program_id, authority, bit), a),
        call_ensures(revenue_deposit::Fx::setup, (program_id, mint, authority, wallet, bit), b),
        call_ensures(settle_revenue::Fx::setup, (program_id, mint, bit), c),
        call_ensures(spot_interest::Fx::setup, (program_id, mint, authority, wallet), d),
    ensures
        a matches Some(s) ==> {
            let f = s.fixture;
            &&& f.program_id == program_id && f.authority == authority
            &&& lives_at(f.state_pda, seq![text("velocity_state")], program_id)
            &&& lives_at(f.perp_market_pda, seq![text("perp_market"), le(0, 2)], program_id)
            &&& lives_at(
                f.keeper_stats_pda,
                seq![text("user_stats"), addr(authority).bytes@],
                program_id,
            )
            &&& f.oracle == crate::keys::system_program_id()
        },
        b matches Some(s) ==> {
            let f = s.fixture;
            &&& f.program_id == program_id && f.authority == authority
            &&& f.user_token_account == wallet
            &&& lives_at(f.state_pda, seq![text("velocity_state")], program_id)
            &&& lives_at(f.spot_market_pda, seq![text("spot_market"), le(0, 2)], program_id)
            &&& lives_at(f.spot_vault_pda, seq![text("spot_market_vault"), le(0, 2)], program_id)
        },
        c matches Some(s) ==> {
            let f = s.fixture;
            &&& f.program_id == program_id
            &&& lives_at(f.state_pda, seq![text("velocity_state")], program_id)
            &&& lives_at(f.signer_pda, seq![text("velocity_signer")], program_id)
            &&& lives_at(f.spot_market_pda, seq![text("spot_market"), le(0, 2)], program_id)
            &&& lives_at(f.spot_vault_pda, seq![text("spot_market_vault"), le(0, 2)], program_id)
            &&& lives_at(f.if_vault_pda, seq![text("insurance_fund_vault"), le(0, 2)], program_id)
        },
        d matches Some(s) ==> {
            let f = s.fixture;
            let owner = addr(authority);
            &&& f.program_id == program_id && f.authority == authority
            &&& f.user_token_account == wallet
            &&& lives_at(f.state_pda, seq![text("velocity_state")], program_id)
            &&& lives_at(f.spot_market_pda, seq![text("spot_market"), le(0, 2)], program_id)
            &&& lives_at(f.spot_vault_pda, seq![text("spot_market_vault"), le(0, 2)], program_id)
            &&& lives_at(f.user_pda, seq![text("user"), owner.bytes@, le(0, 2)], program_id)
            &&& lives_at(f.stats_pda, seq![text("user_stats"), owner.bytes@], program_id)
        },
{
}

/// So are those of the messages' scenarios. The ring has eight slots, more than the
/// delegate would leave it, and the account names the delegate.
pub proof fn message_scenarios_are_derived(
    program_id: Pubkey,
    mint: Pubkey,
    owner: Pubkey,
    delegate: Keypair,
    taker: Keypair,
    clob: Pubkey,
    r: Option<SetupResize>,
    t: Option<SetupPause>,
)
    requires
        call_ensures(Regr271Resize::setup, (program_id, owner, delegate), r),
        call_ensures(Regr271Pause::setup, (program_id, mint, taker, clob), t),
    ensures
        r matches Some(s) ==> {
            let f = s.fixture;
            &&& f.program_id == program_id && f.authority == owner && f.delegate == delegate
            &&& lives_at(f.signed_msg_pda, seq![text("SIGNED_MSG"), owner.bytes@], program_id)
            &&& lives_at(f.user_pda, seq![text("user"), owner.bytes@, le(0, 2)], program_id)
            &&& s.steps@.len() == 3
            &&& s.steps@[0] == (SetupStep::Fund { key: addr(delegate), lamports: 10_000_000_000 })
            &&& s.steps@[1] == (SetupStep::InjectSignedOrders {
                at: f.signed_msg_pda,
                authority: owner,
                slots: 8,
            })
            &&& s.steps@[2] is InjectUser && s.steps@[2]->InjectUser_at == f.user_pda
                && s.steps@[2]->InjectUser_user.authority == owner
                && s.steps@[2]->InjectUser_user.delegate == addr(delegate)
        },
        t matches Some(s) ==> {
            let f = s.fixture;
            let key = addr(taker);
            &&& f.program_id == program_id && f.authority == taker && f.clob_program_id == clob
            &&& lives_at(f.state_pda, seq![text("velocity_state")], program_id)
            &&& lives_at(f.spot_market_pda, seq![text("spot_market"), le(0, 2)], program_id)
            &&& lives_at(f.perp_market_pda, seq![text("perp_market"), le(0, 2)], program_id)
            &&& lives_at(f.signed_msg_pda, seq![text("SIGNED_MSG"), key.bytes@], program_id)
            &&& lives_at(f.user_pda, seq![text("user"), key.bytes@, le(0, 2)], program_id)
            &&& lives_at(f.user_stats_pda, seq![text("user_stats"), key.bytes@], program_id)
            &&& lives_at(f.quoter_slab_pda, seq![text("quoter_slab"), le(0, 2)], program_id)
        },
{
}

/// An exchange that has paused everything, whose taker has collateral that its books
/// hold, a ring of its own and an order number to give, and whose market names the
/// slab and the book that are there.
pub proof fn a_taker_waits_on_a_paused_exchange(
    c: Core,
    m: SpotAddresses,
    perp: Pubkey,
    t: TakerAt,
    mint: Pubkey,
    clob: Pubkey,
)
    ensures
        ({
            let steps = pause_steps(c, m, perp, t, mint, clob);
            let market = steps[4]->InjectPerpMarket_market;
            let user = steps[7]->InjectUser_user;
            &&& steps.len() == 11
            &&& steps[0] is InjectState && steps[0]->state.exchange_status == 255
                && steps[0]->InjectState_at == c.state
            &&& steps[2] is InjectSpotMarket && steps[2]->InjectSpotMarket_market.paused_operations
                == 0
            &&& holds(steps[3], m.vault, mint, c.signer) && steps[3]->TokenAccount_amount
                == 1_000_000_000
            &&& steps[4] is InjectPerpMarket && market.quoter_slab == t.quoter_slab
                && market.pubkey == perp && market.paused_operations == 0
            &&& steps[5] is Fund && steps[5]->Fund_key == t.authority
            &&& steps[6] == (SetupStep::InjectStats { at: t.stats, authority: t.authority })
            &&& steps[7] is InjectUser && steps[7]->InjectUser_at == t.user && user.authority
                == t.authority && user.next_order_id == 1 && user.spot_side is Deposit
                && user.spot_balance == 1_000_000_000_000_000
            &&& steps[8] == (SetupStep::InjectSignedOrders {
                at: t.ring,
                authority: t.authority,
                slots: 8,
            })
            &&& steps[9] is InjectQuoterSlab && steps[9]->InjectQuoterSlab_at == t.quoter_slab
                && steps[9]->InjectQuoterSlab_clob_market == market.clob_market
            &&& steps[10] == (SetupStep::EmptyAccount { at: market.clob_market, owner: clob })
        }),
{
}

/// What the taker signs there: a market buy of one unit whose short auction rises
/// from the mark by a hundredth, with nothing attached, under a number that reads
/// `regr0271`.
pub proof fn the_taker_signs_a_short_auction(sub: u16, slot: u64, m: SignedMessage)
    requires
        call_ensures(message_to_sign, (sub, slot), m),
    ensures
        m.sub_account_id == sub && m.slot == slot,
        m.uuid == 0x3137_3230_7267_6572,
        m.take_profit is None && m.stop_loss is None && m.max_margin_ratio is None,
        m.params.direction is Long && m.params.order_type is Market,
        m.params.base_asset_amount == 1_000_000_000 && m.params.price == 0,
        m.params.auction_duration == Some(10u8),
        m.params.auction_start_price == Some(1_000_000i64),
        m.params.auction_end_price == Some(1_010_000i64),
        m.params.market_type is Perp && m.params.market_index == 0,
        !m.params.reduce_only && m.params.post_only is NotPostOnly,
{
}

// ---------------------------------------------------------------------------
// Small helpers
// ---------------------------------------------------------------------------

/// Counting on comes round among the two users.
pub proof fn counting_comes_round(i: usize, by: usize, r: usize)
    requires
        call_ensures(following_index, (i, by), r),
    ensures
        r < 2,
        (r + i + by) % 2 == 0,
{
}

/// A signed amount has the magnitude and the sign that were asked for.
pub proof fn signs_are_as_asked(magnitude: u64, negative: bool, r: i64)
    requires
        call_ensures(signed_amount, (magnitude, negative), r),
    ensures
        negative ==> r == -magnitude,
        !negative ==> r == magnitude,
{
}

} // verus!
