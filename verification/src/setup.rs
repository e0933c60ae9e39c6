//! Setting up the standard scenario, as a list of steps to perform in order.

use vstd::prelude::*;
use crate::accounts::{
    build_perp_market, build_pyth_lazer_oracle, build_spot_market_sol, build_spot_market_usdc,
    build_state, EscrowAccount, LazerOracle, PerpMarketAccount, SpotMarketAccount, StateAccount, UserAccount,
};
use crate::constants::{
    INITIAL_SOL, INITIAL_USDC, NUM_FRESH, NUM_USERS, SEED_PER_VAULT_SOL, SEED_PER_VAULT_USDC,
    SPOT_CUMULATIVE_INTEREST_PRECISION,
};
use crate::fixture::{
    addr, conditions_pda, conditions_seeds, derivable, is_pda, pda_key, stats_pda, stats_seeds, user_pda,
    user_seeds, Addresses, Fixture, Protocol, SpotAddresses, UserAcct,
};
use crate::invariants::History;
use crate::keys::{Keypair, Pubkey};

verus! {

/// Lamports that a funded authority starts with.
pub const FUNDED_LAMPORTS: u64 = 10_000_000_000;

/// Lamports credited to each user account beyond its rent.
pub const EXCESS_LAMPORTS: u64 = 100_000_000;

/// One step of a setup. Injected accounts belong to the exchange.
#[derive(Clone, Copy, PartialEq, Eq, Debug)]
pub enum SetupStep {
    /// A system account with lamports.
    Fund { key: Pubkey, lamports: u64 },
    Mint { key: Pubkey, authority: Pubkey, decimals: u8 },
    TokenAccount { key: Pubkey, mint: Pubkey, owner: Pubkey, amount: u64 },
    InjectState { at: Pubkey, state: StateAccount },
    InjectSpotMarket { at: Pubkey, market: SpotMarketAccount },
    InjectPerpMarket { at: Pubkey, market: PerpMarketAccount },
    InjectOracle { at: Pubkey, oracle: LazerOracle },
    InjectUser { at: Pubkey, user: UserAccount },
    /// A stats account of an authority, otherwise blank.
    InjectStats { at: Pubkey, authority: Pubkey },
    /// The AMM cache with one entry for perp market 0.
    InjectAmmCache { at: Pubkey, oracle: Pubkey },
    /// The price feed's storage with one trusted signer.
    InjectLazerStorage { trusted_signer: Pubkey, expires_at: i64 },
    /// The transaction that opens a stats account.
    InitStats { authority: Pubkey, stats: Pubkey },
    /// The transaction that opens sub-account zero.
    InitUser { authority: Pubkey, stats: Pubkey, user: Pubkey, conditions: Pubkey },
    /// The transaction that opens sub-account zero where no account watches over
    /// users.
    OpenUser { authority: Pubkey, stats: Pubkey, user: Pubkey },
    /// The transaction that opens an insurance stake.
    OpenStake { authority: Pubkey, stats: Pubkey, stake: Pubkey },
    /// The transaction that deposits quote tokens from a wallet.
    DepositQuote { authority: Pubkey, stats: Pubkey, user: Pubkey, wallet: Pubkey, amount: u64 },
    Airdrop { key: Pubkey, lamports: u64 },
    /// Overwrites a user account that exists.
    WriteUser { at: Pubkey, user: UserAccount },
    /// A builder's share of revenue, otherwise blank.
    InjectRevenueShare { at: Pubkey, authority: Pubkey },
    InjectEscrow { at: Pubkey, escrow: EscrowAccount },
    /// A ring of signed-message orders with a number of blank slots.
    InjectSignedOrders { at: Pubkey, authority: Pubkey, slots: u32 },
    /// A slab of one vacant quoter slot.
    InjectQuoterSlab { at: Pubkey, bump: u8, clob_market: Pubkey },
    /// An account without data.
    EmptyAccount { at: Pubkey, owner: Pubkey },
    /// The market's book, which the admin installs.
    InstallBook { admin: Pubkey, market: Pubkey, operator: Pubkey },
    SetClock { unix_timestamp: i64, slot: u64 },
}

/// A user's key pair and wallets, before it has accounts.
#[derive(Clone, Copy, PartialEq, Eq, Debug)]
pub struct UserKeys {
    pub keypair: Keypair,
    pub token_account: Pubkey,
    pub token_account_1: Pubkey,
}

/// The freshly drawn keys of a scenario.
#[derive(Debug)]
pub struct ScenarioKeys {
    pub crank: Keypair,
    pub admin: Keypair,
    pub usdc_mint: Pubkey,
    pub sol_mint: Pubkey,
    pub users: Vec<UserKeys>,
    pub fresh: Vec<Keypair>,
}

/// A scenario that is ready to be performed.
#[derive(Debug)]
pub struct Setup {
    pub addresses: Addresses,
    pub fixture: Fixture,
    pub steps: Vec<SetupStep>,
}

// ---------------------------------------------------------------------------
// Liquidity of the second pool
// ---------------------------------------------------------------------------

/// Ten to the power of `n`.
pub open spec fn pow10(n: nat) -> int
    decreases n,
{
    if n == 0 {
        1
    } else {
        10 * pow10((n - 1) as nat)
    }
}

proof fn pow10_positive(n: nat)
    ensures
        pow10(n) >= 1,
    decreases n,
{
    if n > 0 {
        pow10_positive((n - 1) as nat);
    }
}

proof fn pow10_monotone(a: nat, b: nat)
    requires
        a <= b,
    ensures
        pow10(a) <= pow10(b),
    decreases b - a,
{
    if a < b {
        pow10_monotone(a, (b - 1) as nat);
        pow10_positive((b - 1) as nat);
    }
}

proof fn pow10_add(a: nat, b: nat)
    ensures
        pow10(a) * pow10(b) == pow10(a + b),
    decreases a,
{
    if a > 0 {
        pow10_add((a - 1) as nat, b);
        let x = pow10((a - 1) as nat);
        let y = pow10(b);
        assert((10 * x) * y == 10 * (x * y)) by (nonlinear_arith);
    } else {
        assert(1 * pow10(b) == pow10(b)) by (nonlinear_arith);
    }
}

fn ten_to(n: u32) -> (r: u128)
    requires
        n <= 19,
    ensures
        r == pow10(n as nat),
{
    let mut r: u128 = 1;
    let mut i: u32 = 0;
    assert(pow10(19) == 10_000_000_000_000_000_000) by {
        reveal_with_fuel(pow10, 20);
    }
    while i < n
        invariant
            i <= n <= 19,
            r == pow10(i as nat),
            pow10(19) == 10_000_000_000_000_000_000,
        decreases n - i,
    {
        proof {
            pow10_monotone(i as nat, 19);
        }
        r = 10 * r;
        i = i + 1;
    }
    r
}

/// A thousand whole tokens.
pub open spec fn seed_tokens(decimals: u8) -> int {
    1_000 * pow10(decimals as nat)
}

/// The scaled balance of the seed at unit interest: nineteen decimals less
/// those of the token, over the interest index.
pub open spec fn seed_balance(decimals: u8) -> int {
    seed_tokens(decimals) * pow10((19 - decimals) as nat) / SPOT_CUMULATIVE_INTEREST_PRECISION
        as int
}

/// Whatever the token's decimals, the seed's scaled balance is a thousand
/// units: the books and the vault agree.
pub proof fn seed_is_a_thousand_units(decimals: u8)
    requires
        decimals <= 16,
    ensures
        seed_balance(decimals) == 1_000 * crate::constants::SPOT_BALANCE_PRECISION,
{
    let d = decimals as nat;
    pow10_add(d, (19 - d) as nat);
    nineteen_tens();
    seed_scales(pow10(d), pow10((19 - d) as nat));
}

proof fn nineteen_tens()
    ensures
        pow10(19) == 10_000_000_000_000_000_000,
{
    reveal_with_fuel(pow10, 20);
}

proof fn seed_scales(x: int, y: int)
    requires
        x * y == 10_000_000_000_000_000_000,
    ensures
        (1_000 * x) * y / 10_000_000_000 == 1_000_000_000_000,
{
    assert((1_000 * x) * y == 1_000 * (x * y)) by (nonlinear_arith);
}

/// A market of the second pool: a mirror of a market of the first, seeded with
/// a thousand tokens.
pub open spec fn pool1_market_of(
    a: SpotAddresses,
    mint: Pubkey,
    market_index: u16,
    decimals: u8,
) -> SpotMarketAccount {
    SpotMarketAccount {
        market_index,
        pool_id: 1,
        decimals: decimals as u32,
        deposit_balance: seed_balance(decimals) as u128,
        ..build_spot_market_usdc(a.market, mint, a.vault, a.if_vault)
    }
}

pub fn pool1_market(
    a: SpotAddresses,
    mint: Pubkey,
    market_index: u16,
    decimals: u8,
) -> (r: SpotMarketAccount)
    requires
        decimals <= 16,
    ensures
        r == pool1_market_of(a, mint, market_index, decimals),
{
    proof {
        let x = pow10(decimals as nat);
        let y = pow10((19 - decimals) as nat);
        pow10_add(decimals as nat, (19 - decimals) as nat);
        pow10_monotone(decimals as nat, 16);
        pow10_positive(decimals as nat);
        pow10_positive((19 - decimals) as nat);
        assert(pow10(19) == 10_000_000_000_000_000_000 && pow10(16) == 10_000_000_000_000_000)
            by {
            reveal_with_fuel(pow10, 20);
        }
        assert((1_000 * x) * y == 1_000 * (x * y)) by (nonlinear_arith);
        seed_is_a_thousand_units(decimals);
    }
    let tokens: u128 = 1_000 * ten_to(decimals as u32);
    let scale: u128 = ten_to(19 - decimals as u32);
    let balance: u128 = tokens * scale / SPOT_CUMULATIVE_INTEREST_PRECISION;
    SpotMarketAccount {
        market_index,
        pool_id: 1,
        decimals: decimals as u32,
        deposit_balance: balance,
        ..build_spot_market_usdc(a.market, mint, a.vault, a.if_vault)
    }
}

// ---------------------------------------------------------------------------
// The steps
// ---------------------------------------------------------------------------

/// The steps that create the markets.
pub open spec fn market_steps(
    p: Protocol,
    a: Addresses,
    crank: Pubkey,
    admin: Pubkey,
    usdc_mint: Pubkey,
    sol_mint: Pubkey,
    slot: u64,
) -> Seq<SetupStep> {
    seq![
        SetupStep::Fund { key: crank, lamports: FUNDED_LAMPORTS },
        SetupStep::Fund { key: admin, lamports: FUNDED_LAMPORTS },
        SetupStep::InjectState {
            at: a.state,
            state: build_state(
                a.signer,
                a.signer_nonce,
                crank,
                admin,
                p.margin_buffer_ratio,
                p.liquidation_duration,
            ),
        },
        SetupStep::Mint { key: usdc_mint, authority: a.signer, decimals: 6 },
        SetupStep::InjectSpotMarket {
            at: a.spot_0.market,
            market: build_spot_market_usdc(
                a.spot_0.market,
                usdc_mint,
                a.spot_0.vault,
                a.spot_0.if_vault,
            ),
        },
        SetupStep::TokenAccount {
            key: a.spot_0.vault,
            mint: usdc_mint,
            owner: a.signer,
            amount: SEED_PER_VAULT_USDC,
        },
        SetupStep::TokenAccount {
            key: a.spot_0.if_vault,
            mint: usdc_mint,
            owner: a.signer,
            amount: 0,
        },
        SetupStep::Mint { key: sol_mint, authority: a.signer, decimals: 9 },
        SetupStep::InjectOracle {
            at: a.spot_1_oracle,
            oracle: build_pyth_lazer_oracle(1_000_000, 0, slot, 1),
        },
        SetupStep::InjectSpotMarket {
            at: a.spot_1.market,
            market: build_spot_market_sol(
                a.spot_1.market,
                sol_mint,
                a.spot_1.vault,
                a.spot_1.if_vault,
                a.spot_1_oracle,
            ),
        },
        SetupStep::TokenAccount {
            key: a.spot_1.vault,
            mint: sol_mint,
            owner: a.signer,
            amount: 0,
        },
        SetupStep::TokenAccount {
            key: a.spot_1.if_vault,
            mint: sol_mint,
            owner: a.signer,
            amount: 0,
        },
        SetupStep::InjectSpotMarket {
            at: a.pool1_a.market,
            market: pool1_market_of(a.pool1_a, usdc_mint, 2, 6),
        },
        SetupStep::TokenAccount {
            key: a.pool1_a.vault,
            mint: usdc_mint,
            owner: a.signer,
            amount: SEED_PER_VAULT_USDC,
        },
        SetupStep::TokenAccount {
            key: a.pool1_a.if_vault,
            mint: usdc_mint,
            owner: a.signer,
            amount: 0,
        },
        SetupStep::InjectSpotMarket {
            at: a.pool1_b.market,
            market: pool1_market_of(a.pool1_b, sol_mint, 3, 9),
        },
        SetupStep::TokenAccount {
            key: a.pool1_b.vault,
            mint: sol_mint,
            owner: a.signer,
            amount: SEED_PER_VAULT_SOL,
        },
        SetupStep::TokenAccount {
            key: a.pool1_b.if_vault,
            mint: sol_mint,
            owner: a.signer,
            amount: 0,
        },
        SetupStep::InjectOracle {
            at: a.perp_oracle,
            oracle: build_pyth_lazer_oracle(1_000_000, 0, slot, 1),
        },
        SetupStep::InjectPerpMarket {
            at: a.perp_market,
            market: build_perp_market(a.perp_market, 0, a.perp_oracle),
        },
        SetupStep::InjectAmmCache { at: a.amm_cache, oracle: a.perp_oracle },
        SetupStep::InjectLazerStorage { trusted_signer: crank, expires_at: i64::MAX },
    ]
}

pub fn market_steps_of(
    p: &Protocol,
    a: &Addresses,
    crank: Pubkey,
    admin: Pubkey,
    usdc_mint: Pubkey,
    sol_mint: Pubkey,
    slot: u64,
) -> (r: Vec<SetupStep>)
    ensures
        r@ == market_steps(*p, *a, crank, admin, usdc_mint, sol_mint, slot),
{
    vec![
        SetupStep::Fund { key: crank, lamports: FUNDED_LAMPORTS },
        SetupStep::Fund { key: admin, lamports: FUNDED_LAMPORTS },
        SetupStep::InjectState {
            at: a.state,
            state: build_state(
                a.signer,
                a.signer_nonce,
                crank,
                admin,
                p.margin_buffer_ratio,
                p.liquidation_duration,
            ),
        },
        SetupStep::Mint { key: usdc_mint, authority: a.signer, decimals: 6 },
        SetupStep::InjectSpotMarket {
            at: a.spot_0.market,
            market: build_spot_market_usdc(
                a.spot_0.market,
                usdc_mint,
                a.spot_0.vault,
                a.spot_0.if_vault,
            ),
        },
        SetupStep::TokenAccount {
            key: a.spot_0.vault,
            mint: usdc_mint,
            owner: a.signer,
            amount: SEED_PER_VAULT_USDC,
        },
        SetupStep::TokenAccount {
            key: a.spot_0.if_vault,
            mint: usdc_mint,
            owner: a.signer,
            amount: 0,
        },
        SetupStep::Mint { key: sol_mint, authority: a.signer, decimals: 9 },
        SetupStep::InjectOracle {
            at: a.spot_1_oracle,
            oracle: build_pyth_lazer_oracle(1_000_000, 0, slot, 1),
        },
        SetupStep::InjectSpotMarket {
            at: a.spot_1.market,
            market: build_spot_market_sol(
                a.spot_1.market,
                sol_mint,
                a.spot_1.vault,
                a.spot_1.if_vault,
                a.spot_1_oracle,
            ),
        },
        SetupStep::TokenAccount {
            key: a.spot_1.vault,
            mint: sol_mint,
            owner: a.signer,
            amount: 0,
        },
        SetupStep::TokenAccount {
            key: a.spot_1.if_vault,
            mint: sol_mint,
            owner: a.signer,
            amount: 0,
        },
        SetupStep::InjectSpotMarket {
            at: a.pool1_a.market,
            market: pool1_market(a.pool1_a, usdc_mint, 2, 6),
        },
        SetupStep::TokenAccount {
            key: a.pool1_a.vault,
            mint: usdc_mint,
            owner: a.signer,
            amount: SEED_PER_VAULT_USDC,
        },
        SetupStep::TokenAccount {
            key: a.pool1_a.if_vault,
            mint: usdc_mint,
            owner: a.signer,
            amount: 0,
        },
        SetupStep::InjectSpotMarket {
            at: a.pool1_b.market,
            market: pool1_market(a.pool1_b, sol_mint, 3, 9),
        },
        SetupStep::TokenAccount {
            key: a.pool1_b.vault,
            mint: sol_mint,
            owner: a.signer,
            amount: SEED_PER_VAULT_SOL,
        },
        SetupStep::TokenAccount {
            key: a.pool1_b.if_vault,
            mint: sol_mint,
            owner: a.signer,
            amount: 0,
        },
        SetupStep::InjectOracle {
            at: a.perp_oracle,
            oracle: build_pyth_lazer_oracle(1_000_000, 0, slot, 1),
        },
        SetupStep::InjectPerpMarket {
            at: a.perp_market,
            market: build_perp_market(a.perp_market, 0, a.perp_oracle),
        },
        SetupStep::InjectAmmCache { at: a.amm_cache, oracle: a.perp_oracle },
        SetupStep::InjectLazerStorage { trusted_signer: crank, expires_at: i64::MAX },
    ]
}

/// The account addresses of a user.
pub open spec fn is_user(u: UserAcct, k: UserKeys, program: Pubkey) -> bool {
    &&& u.keypair == k.keypair
    &&& u.token_account == k.token_account
    &&& u.token_account_1 == k.token_account_1
    &&& is_pda(u.stats_pda, stats_seeds(addr(k.keypair)), program)
    &&& is_pda(u.user_pda, user_seeds(addr(k.keypair), 0), program)
}

/// The addresses that a user's accounts need can be derived.
pub open spec fn user_derivable(k: UserKeys, program: Pubkey) -> bool {
    let authority = addr(k.keypair);
    &&& derivable(stats_seeds(authority), program)
    &&& crate::keys::program_address(user_seeds(authority, 0), program) matches Some((user, _))
        && derivable(conditions_seeds(user), program)
}

/// The steps that create a user: an authority, two wallets, a stats account, a
/// user account, and lamports above its rent.
pub open spec fn user_steps(
    u: UserAcct,
    usdc_mint: Pubkey,
    sol_mint: Pubkey,
    program: Pubkey,
) -> Seq<SetupStep> {
    let authority = u.authority();
    seq![
        SetupStep::Fund { key: authority, lamports: FUNDED_LAMPORTS },
        SetupStep::TokenAccount {
            key: u.token_account,
            mint: usdc_mint,
            owner: authority,
            amount: INITIAL_USDC,
        },
        SetupStep::TokenAccount {
            key: u.token_account_1,
            mint: sol_mint,
            owner: authority,
            amount: INITIAL_SOL,
        },
        SetupStep::InitStats { authority, stats: u.stats_pda },
        SetupStep::InitUser {
            authority,
            stats: u.stats_pda,
            user: u.user_pda,
            conditions: pda_key(conditions_seeds(u.user_pda), program),
        },
        SetupStep::Airdrop { key: u.user_pda, lamports: EXCESS_LAMPORTS },
    ]
}

/// The steps of the first `n` users.
pub open spec fn all_user_steps(
    users: Seq<UserAcct>,
    usdc_mint: Pubkey,
    sol_mint: Pubkey,
    program: Pubkey,
    n: nat,
) -> Seq<SetupStep>
    decreases n,
{
    if n == 0 {
        Seq::empty()
    } else {
        all_user_steps(users, usdc_mint, sol_mint, program, (n - 1) as nat) + user_steps(
            users[n - 1],
            usdc_mint,
            sol_mint,
            program,
        )
    }
}

/// The steps that fund the first `n` fresh authorities.
pub open spec fn fresh_steps(fresh: Seq<Keypair>, n: nat) -> Seq<SetupStep>
    decreases n,
{
    if n == 0 {
        Seq::empty()
    } else {
        fresh_steps(fresh, (n - 1) as nat).push(
            SetupStep::Fund { key: addr(fresh[n - 1]), lamports: FUNDED_LAMPORTS },
        )
    }
}

/// Every step of the setup.
pub open spec fn setup_steps(
    p: Protocol,
    a: Addresses,
    k: ScenarioKeys,
    users: Seq<UserAcct>,
    slot: u64,
) -> Seq<SetupStep> {
    market_steps(p, a, addr(k.crank), addr(k.admin), k.usdc_mint, k.sol_mint, slot)
        + all_user_steps(users, k.usdc_mint, k.sol_mint, p.program_id, users.len()) + fresh_steps(
        k.fresh@,
        k.fresh@.len(),
    )
}

/// The scenario of the given addresses and keys, before anything happened.
pub open spec fn is_fixture(f: Fixture, p: Protocol, a: Addresses, k: ScenarioKeys) -> bool {
    &&& f.program_id == p.program_id && f.lazer_storage_id == p.lazer_storage_id
    &&& f.state_pda == a.state && f.signer_pda == a.signer
    &&& f.usdc_mint == k.usdc_mint && f.sol_mint == k.sol_mint
    &&& f.spot_market_pda == a.spot_0.market && f.spot_vault_pda == a.spot_0.vault
        && f.if_vault_pda == a.spot_0.if_vault
    &&& f.spot_market_1_pda == a.spot_1.market && f.spot_vault_1_pda == a.spot_1.vault
        && f.if_vault_1_pda == a.spot_1.if_vault
    &&& f.pool1_market_a_pda == a.pool1_a.market && f.pool1_vault_a_pda == a.pool1_a.vault
    &&& f.pool1_market_b_pda == a.pool1_b.market && f.pool1_vault_b_pda == a.pool1_b.vault
    &&& f.perp_market_pda == a.perp_market && f.perp_oracle_pda == a.perp_oracle
        && f.spot_1_oracle_pda == a.spot_1_oracle && f.amm_cache_pda == a.amm_cache
    &&& f.crank == k.crank && f.admin == k.admin && f.fresh@ == k.fresh@
    &&& f.users@.len() == k.users@.len() && forall|i: int|
        0 <= i < k.users@.len() ==> is_user(#[trigger] f.users@[i], k.users@[i], p.program_id)
    &&& f.mm_seq == 1 && f.oracle_seq == 2 && f.signed_uuid_seq == 0
    &&& f.signed_uuids@.len() == 0
    &&& f.history.is_fresh(k.users@.len())
}

/// Every address of the setup can be derived.
pub open spec fn setup_derivable(p: Protocol, k: ScenarioKeys) -> bool {
    &&& Addresses::all_derivable(p)
    &&& forall|i: int| 0 <= i < k.users@.len() ==> user_derivable(#[trigger] k.users@[i], p.program_id)
}

/// Adds a user's steps.
fn add_user(
    steps: &mut Vec<SetupStep>,
    k: &UserKeys,
    usdc_mint: Pubkey,
    sol_mint: Pubkey,
    program: Pubkey,
) -> (r: Option<UserAcct>)
    ensures
        r is Some <==> user_derivable(*k, program),
        r matches Some(u) ==> is_user(u, *k, program) && final(steps)@ == old(steps)@ + user_steps(
            u,
            usdc_mint,
            sol_mint,
            program,
        ),
{
    let authority = k.keypair.pubkey();
    let (stats, _) = stats_pda(&authority, program)?;
    let (user, _) = user_pda(&authority, 0, program)?;
    let (conditions, _) = conditions_pda(&user, program)?;
    let u = UserAcct {
        keypair: k.keypair,
        user_pda: user,
        stats_pda: stats,
        token_account: k.token_account,
        token_account_1: k.token_account_1,
    };
    steps.push(SetupStep::Fund { key: authority, lamports: FUNDED_LAMPORTS });
    steps.push(
        SetupStep::TokenAccount {
            key: k.token_account,
            mint: usdc_mint,
            owner: authority,
            amount: INITIAL_USDC,
        },
    );
    steps.push(
        SetupStep::TokenAccount {
            key: k.token_account_1,
            mint: sol_mint,
            owner: authority,
            amount: INITIAL_SOL,
        },
    );
    steps.push(SetupStep::InitStats { authority, stats });
    steps.push(SetupStep::InitUser { authority, stats, user, conditions });
    steps.push(SetupStep::Airdrop { key: user, lamports: EXCESS_LAMPORTS });
    assert(steps@ =~= old(steps)@ + user_steps(u, usdc_mint, sol_mint, program));
    Some(u)
}

impl Fixture {
    /// The standard scenario at the given slot: where everything lives, and the
    /// steps that create it. `None` where an address has no derivation.
    pub fn setup(p: &Protocol, k: ScenarioKeys, slot: u64) -> (r: Option<Setup>)
        requires
            k.users@.len() == NUM_USERS,
            k.fresh@.len() == NUM_FRESH,
        ensures
            r is Some <==> setup_derivable(*p, k),
            r matches Some(s) ==> {
                &&& s.addresses.derived_from(*p)
                &&& is_fixture(s.fixture, *p, s.addresses, k)
                &&& s.fixture.wf()
                &&& s.steps@ == setup_steps(*p, s.addresses, k, s.fixture.users@, slot)
            },
    {
        let a = Addresses::derive(p)?;
        let crank = k.crank.pubkey();
        let admin = k.admin.pubkey();
        let mut steps = market_steps_of(p, &a, crank, admin, k.usdc_mint, k.sol_mint, slot);
        let ghost first = steps@;
        let mut users: Vec<UserAcct> = Vec::new();
        let mut i: usize = 0;
        assert(first + all_user_steps(users@, k.usdc_mint, k.sol_mint, p.program_id, 0) =~= first);
        while i < k.users.len()
            invariant
                i <= k.users@.len(),
                users@.len() == i,
                Addresses::all_derivable(*p),
                forall|j: int|
                    0 <= j < i ==> is_user(#[trigger] users@[j], k.users@[j], p.program_id),
                forall|j: int| 0 <= j < i ==> user_derivable(#[trigger] k.users@[j], p.program_id),
                steps@ == first + all_user_steps(
                    users@,
                    k.usdc_mint,
                    k.sol_mint,
                    p.program_id,
                    i as nat,
                ),
            decreases k.users@.len() - i,
        {
            let ghost before = users@;
            let ghost steps_before = steps@;
            let added = add_user(&mut steps, &k.users[i], k.usdc_mint, k.sol_mint, p.program_id);
            match added {
                Some(u) => {
                    users.push(u);
                    proof {
                        user_steps_prefix(
                            before,
                            users@,
                            k.usdc_mint,
                            k.sol_mint,
                            p.program_id,
                            i as nat,
                        );
                        let done = all_user_steps(
                            before,
                            k.usdc_mint,
                            k.sol_mint,
                            p.program_id,
                            i as nat,
                        );
                        let one = user_steps(u, k.usdc_mint, k.sol_mint, p.program_id);
                        assert(first + done + one =~= first + (done + one));
                    }
                },
                None => {
                    assert(!user_derivable(k.users@[i as int], p.program_id));
                    return None;
                },
            }
            i = i + 1;
        }
        let ghost with_users = steps@;
        let mut j: usize = 0;
        assert(with_users + fresh_steps(k.fresh@, 0) =~= with_users);
        while j < k.fresh.len()
            invariant
                j <= k.fresh@.len(),
                steps@ == with_users + fresh_steps(k.fresh@, j as nat),
            decreases k.fresh@.len() - j,
        {
            let key = k.fresh[j].pubkey();
            steps.push(SetupStep::Fund { key, lamports: FUNDED_LAMPORTS });
            j = j + 1;
            assert(steps@ =~= with_users + fresh_steps(k.fresh@, j as nat));
        }
        let fixture = Fixture {
            program_id: p.program_id,
            lazer_storage_id: p.lazer_storage_id,
            state_pda: a.state,
            signer_pda: a.signer,
            usdc_mint: k.usdc_mint,
            spot_market_pda: a.spot_0.market,
            spot_vault_pda: a.spot_0.vault,
            if_vault_pda: a.spot_0.if_vault,
            perp_market_pda: a.perp_market,
            perp_oracle_pda: a.perp_oracle,
            sol_mint: k.sol_mint,
            spot_market_1_pda: a.spot_1.market,
            spot_vault_1_pda: a.spot_1.vault,
            if_vault_1_pda: a.spot_1.if_vault,
            spot_1_oracle_pda: a.spot_1_oracle,
            pool1_market_a_pda: a.pool1_a.market,
            pool1_vault_a_pda: a.pool1_a.vault,
            pool1_market_b_pda: a.pool1_b.market,
            pool1_vault_b_pda: a.pool1_b.vault,
            amm_cache_pda: a.amm_cache,
            crank: k.crank,
            admin: k.admin,
            users,
            fresh: k.fresh,
            mm_seq: 1,
            oracle_seq: 2,
            history: History::new(NUM_USERS),
            signed_uuid_seq: 0,
            signed_uuids: Vec::new(),
        };
        Some(Setup { addresses: a, fixture, steps })
    }
}

/// Steps of the first users do not depend on later ones.
proof fn user_steps_prefix(
    a: Seq<UserAcct>,
    b: Seq<UserAcct>,
    usdc_mint: Pubkey,
    sol_mint: Pubkey,
    program: Pubkey,
    n: nat,
)
    requires
        n <= a.len(),
        n <= b.len(),
        forall|i: int| 0 <= i < n ==> a[i] == b[i],
    ensures
        all_user_steps(a, usdc_mint, sol_mint, program, n) == all_user_steps(
            b,
            usdc_mint,
            sol_mint,
            program,
            n,
        ),
    decreases n,
{
    if n > 0 {
        user_steps_prefix(a, b, usdc_mint, sol_mint, program, (n - 1) as nat);
    }
}

// ---------------------------------------------------------------------------
// What the setup issues
// ---------------------------------------------------------------------------

/// Tokens of a mint that a step puts into an account.
pub open spec fn tokens_in(step: SetupStep, mint: Pubkey) -> int {
    match step {
        SetupStep::TokenAccount { mint: m, amount, .. } => if m == mint {
            amount as int
        } else {
            0
        },
        _ => 0,
    }
}

/// Tokens of a mint that steps put into accounts.
pub open spec fn issued_by(steps: Seq<SetupStep>, mint: Pubkey) -> int
    decreases steps.len(),
{
    if steps.len() == 0 {
        0
    } else {
        issued_by(steps.drop_last(), mint) + tokens_in(steps.last(), mint)
    }
}

proof fn issued_by_concat(a: Seq<SetupStep>, b: Seq<SetupStep>, mint: Pubkey)
    ensures
        issued_by(a + b, mint) == issued_by(a, mint) + issued_by(b, mint),
    decreases b.len(),
{
    if b.len() == 0 {
        assert(a + b =~= a);
    } else {
        assert((a + b).drop_last() =~= a + b.drop_last());
        issued_by_concat(a, b.drop_last(), mint);
    }
}

proof fn issued_to_users(
    users: Seq<UserAcct>,
    usdc_mint: Pubkey,
    sol_mint: Pubkey,
    program: Pubkey,
    n: nat,
)
    requires
        n <= users.len(),
        usdc_mint != sol_mint,
    ensures
        issued_by(all_user_steps(users, usdc_mint, sol_mint, program, n), usdc_mint) == n
            * INITIAL_USDC,
        issued_by(all_user_steps(users, usdc_mint, sol_mint, program, n), sol_mint) == n
            * INITIAL_SOL,
    decreases n,
{
    if n > 0 {
        let prev = all_user_steps(users, usdc_mint, sol_mint, program, (n - 1) as nat);
        let one = user_steps(users[n - 1], usdc_mint, sol_mint, program);
        issued_to_users(users, usdc_mint, sol_mint, program, (n - 1) as nat);
        issued_by_concat(prev, one, usdc_mint);
        issued_by_concat(prev, one, sol_mint);
        issued_by_six(one, usdc_mint);
        issued_by_six(one, sol_mint);
    }
}

proof fn issued_by_six(s: Seq<SetupStep>, mint: Pubkey)
    requires
        s.len() == 6,
    ensures
        issued_by(s, mint) == tokens_in(s[0], mint) + tokens_in(s[1], mint) + tokens_in(s[2], mint)
            + tokens_in(s[3], mint) + tokens_in(s[4], mint) + tokens_in(s[5], mint),
{
    let s5 = s.drop_last();
    let s4 = s5.drop_last();
    let s3 = s4.drop_last();
    let s2 = s3.drop_last();
    let s1 = s2.drop_last();
    assert(s1.drop_last() =~= Seq::empty());
    assert(issued_by(s1.drop_last(), mint) == 0);
    assert(issued_by(s1, mint) == tokens_in(s[0], mint));
    assert(issued_by(s2, mint) == issued_by(s1, mint) + tokens_in(s[1], mint));
    assert(issued_by(s3, mint) == issued_by(s2, mint) + tokens_in(s[2], mint));
    assert(issued_by(s4, mint) == issued_by(s3, mint) + tokens_in(s[3], mint));
    assert(issued_by(s5, mint) == issued_by(s4, mint) + tokens_in(s[4], mint));
}

proof fn no_tokens_for_fresh(fresh: Seq<Keypair>, n: nat, mint: Pubkey)
    ensures
        issued_by(fresh_steps(fresh, n), mint) == 0,
    decreases n,
{
    if n > 0 {
        no_tokens_for_fresh(fresh, (n - 1) as nat, mint);
        assert(fresh_steps(fresh, n).drop_last() =~= fresh_steps(fresh, (n - 1) as nat));
    }
}

/// Steps add up in runs of six, with four that issue nothing at the end.
proof fn issued_by_runs(s: Seq<SetupStep>, mint: Pubkey)
    requires
        s.len() == 22,
        forall|i: int| 18 <= i < 22 ==> tokens_in(#[trigger] s[i], mint) == 0,
    ensures
        issued_by(s, mint) == issued_by(s.subrange(0, 6), mint) + issued_by(
            s.subrange(6, 12),
            mint,
        ) + issued_by(s.subrange(12, 18), mint),
{
    let first = s.subrange(0, 6);
    let second = s.subrange(6, 12);
    let third = s.subrange(12, 18);
    let last = s.subrange(18, 22);
    assert(issued_by(last, mint) == 0) by {
        assert forall|i: int| 0 <= i < 4 implies tokens_in(#[trigger] last[i], mint) == 0 by {
            assert(last[i] == s[18 + i]);
        }
        no_tokens_in_four(last, mint);
    }
    assert(issued_by(first + second, mint) == issued_by(first, mint) + issued_by(second, mint)) by {
        issued_by_concat(first, second, mint);
    }
    assert(issued_by(first + second + third, mint) == issued_by(first + second, mint) + issued_by(
        third,
        mint,
    )) by {
        issued_by_concat(first + second, third, mint);
    }
    assert(issued_by(s, mint) == issued_by(first + second + third, mint) + issued_by(last, mint)) by {
        assert(s =~= first + second + third + last);
        issued_by_concat(first + second + third, last, mint);
    }
}

/// What each run of the market steps issues of a mint.
proof fn issued_by_run(s: Seq<SetupStep>, from: int, mint: Pubkey)
    requires
        0 <= from,
        from + 6 <= s.len(),
    ensures
        issued_by(s.subrange(from, from + 6), mint) == tokens_in(s[from], mint) + tokens_in(
            s[from + 1],
            mint,
        ) + tokens_in(s[from + 2], mint) + tokens_in(s[from + 3], mint) + tokens_in(
            s[from + 4],
            mint,
        ) + tokens_in(s[from + 5], mint),
{
    issued_by_six(s.subrange(from, from + 6), mint);
}

proof fn usdc_issued_by_markets(
    p: Protocol,
    a: Addresses,
    crank: Pubkey,
    admin: Pubkey,
    usdc_mint: Pubkey,
    sol_mint: Pubkey,
    slot: u64,
)
    requires
        usdc_mint != sol_mint,
    ensures
        issued_by(market_steps(p, a, crank, admin, usdc_mint, sol_mint, slot), usdc_mint) == 2
            * SEED_PER_VAULT_USDC,
{
    let s = market_steps(p, a, crank, admin, usdc_mint, sol_mint, slot);
    issued_by_runs(s, usdc_mint);
    issued_by_run(s, 0, usdc_mint);
    issued_by_run(s, 6, usdc_mint);
    issued_by_run(s, 12, usdc_mint);
}

proof fn sol_issued_by_markets(
    p: Protocol,
    a: Addresses,
    crank: Pubkey,
    admin: Pubkey,
    usdc_mint: Pubkey,
    sol_mint: Pubkey,
    slot: u64,
)
    requires
        usdc_mint != sol_mint,
    ensures
        issued_by(market_steps(p, a, crank, admin, usdc_mint, sol_mint, slot), sol_mint)
            == SEED_PER_VAULT_SOL,
{
    let s = market_steps(p, a, crank, admin, usdc_mint, sol_mint, slot);
    issued_by_runs(s, sol_mint);
    issued_by_run(s, 0, sol_mint);
    issued_by_run(s, 6, sol_mint);
    issued_by_run(s, 12, sol_mint);
}

proof fn no_tokens_in_four(s: Seq<SetupStep>, mint: Pubkey)
    requires
        s.len() == 4,
        forall|i: int| 0 <= i < 4 ==> tokens_in(#[trigger] s[i], mint) == 0,
    ensures
        issued_by(s, mint) == 0,
{
    let s3 = s.drop_last();
    let s2 = s3.drop_last();
    let s1 = s2.drop_last();
    assert(s1.drop_last() =~= Seq::empty());
    assert(s3.last() == s[2] && s2.last() == s[1] && s1.last() == s[0]);
    assert(issued_by(s1.drop_last(), mint) == 0);
    assert(issued_by(s1, mint) == 0);
    assert(issued_by(s2, mint) == 0);
    assert(issued_by(s3, mint) == 0);
}

/// The setup issues exactly the tokens that the invariants take as issued.
pub proof fn setup_issues_what_is_counted(
    p: Protocol,
    a: Addresses,
    k: ScenarioKeys,
    users: Seq<UserAcct>,
    slot: u64,
)
    requires
        users.len() == NUM_USERS,
        k.usdc_mint != k.sol_mint,
    ensures
        issued_by(setup_steps(p, a, k, users, slot), k.usdc_mint)
            == crate::invariants::issued_usdc(),
        issued_by(setup_steps(p, a, k, users, slot), k.sol_mint)
            == crate::invariants::issued_sol(),
{
    let m = market_steps(p, a, addr(k.crank), addr(k.admin), k.usdc_mint, k.sol_mint, slot);
    let u = all_user_steps(users, k.usdc_mint, k.sol_mint, p.program_id, users.len());
    let f = fresh_steps(k.fresh@, k.fresh@.len());
    issued_by_concat(m + u, f, k.usdc_mint);
    issued_by_concat(m + u, f, k.sol_mint);
    issued_by_concat(m, u, k.usdc_mint);
    issued_by_concat(m, u, k.sol_mint);
    usdc_issued_by_markets(p, a, addr(k.crank), addr(k.admin), k.usdc_mint, k.sol_mint, slot);
    sol_issued_by_markets(p, a, addr(k.crank), addr(k.admin), k.usdc_mint, k.sol_mint, slot);
    issued_to_users(users, k.usdc_mint, k.sol_mint, p.program_id, users.len());
    no_tokens_for_fresh(k.fresh@, k.fresh@.len(), k.usdc_mint);
    no_tokens_for_fresh(k.fresh@, k.fresh@.len(), k.sol_mint);
}

} // verus!
