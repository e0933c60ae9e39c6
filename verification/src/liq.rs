//! Liquidation, bankruptcy and the insurance fund.
//!
//! The scenario starts with a bankrupt victim and standing fees, so that every
//! path of a liquidation can be walked.

use vstd::prelude::*;
use crate::accounts::{
    AmmAccount, OracleHistory, PerpMarketAccount, SpotMarketAccount, StateAccount, UserAccount,
};
use crate::constants::{INITIAL_USDC, PRICE_PRECISION, QUOTE_PRECISION, SPOT_BALANCE_PRECISION};
use crate::discriminators::{
    D_ADD_IF_STAKE, D_INITIALIZE_IF_STAKE, D_LIQUIDATE_PERP, D_LIQUIDATE_PERP_PNL_FOR_DEPOSIT,
    D_LIQUIDATE_SPOT, D_REMOVE_IF_STAKE, D_REQUEST_REMOVE_IF_STAKE, D_RESOLVE_PERP_BANKRUPTCY,
    D_RESOLVE_PERP_PNL_DEFICIT, D_RESOLVE_SPOT_BANKRUPTCY, D_SET_USER_STATUS_BEING_LIQUIDATED,
};
use crate::fixture::{
    addr, derivable, indexed, is_pda, pda_key, stats_pda, stats_seeds, user_pda, user_seeds,
    SpotAddresses,
};
use crate::insurance::{if_stake_pda, stake_seeds};
use crate::keys::{
    call, rent_sysvar_id, send, system_program_id, token_program_id, AccountMeta, Keypair, Pubkey,
    Transaction,
};
use crate::margin::capped;
use crate::model::{
    net_user_tokens, net_user_tokens_of, users_fit, BalanceType, PerpMarket, SpotMarket,
    SpotPosition, User,
};
use crate::scenario::{
    core_at, core_derivable, derive_core, perp_at, perp_market, quote_deposit, quote_deposit_call,
    quote_market, spot_at, Core, Depositor,
};
use crate::setup::{SetupStep, FUNDED_LAMPORTS};
use crate::wire::{bare, ix_data, le, push_u128, push_u16, push_u64, push_u8};

verus! {

/// A liquidator, a healthy bystander and a victim.
pub const NUM_USERS: usize = 3;

pub const LIQUIDATOR_IDX: usize = 0;

pub const VICTIM_IDX: usize = 2;

/// Tokens that back the perp market's profits.
pub const PNL_POOL_TOKENS: u64 = 1_000_000_000;

/// The protocol's standing fees: more than the profits' backing.
pub const PENDING_PROTOCOL_FEE: u128 = 5_000_000_000;

/// The insurance fund's standing fees, the first to bear a loss.
pub const PENDING_IF_FEE: u128 = 500_000_000;

/// The part of open interest that the insurance tranche stands behind.
pub const BANKRUPTCY_IF_FLOOR_PCT: u32 = 300_000;

/// Open interest on either side.
pub const OI_BASE: i128 = 10_000_000_000;

/// What the victim has borrowed.
pub const VICTIM_BORROW_TOKENS: u64 = 1_000_000;

/// The victim's loss on the perp market.
pub const VICTIM_PERP_QUOTE: i64 = -1_000_000;

/// The insurance vault at the start.
pub const IF_VAULT_FUNDING: u64 = 1_000_000_000;

/// Tokens as a scaled balance at unit interest.
pub open spec fn scaled(tokens: u128) -> int {
    capped(tokens * SPOT_BALANCE_PRECISION) / QUOTE_PRECISION as int
}

pub fn tokens_to_scaled(tokens: u128) -> (r: u128)
    ensures
        r == scaled(tokens),
{
    let product: u128 = match tokens.checked_mul(SPOT_BALANCE_PRECISION) {
        Some(product) => product,
        None => u128::MAX,
    };
    product / QUOTE_PRECISION as u128
}

/// A scaled balance is a thousand times the tokens it stands for, wherever the
/// product fits.
pub proof fn scaling_keeps_value(tokens: u128)
    requires
        tokens * SPOT_BALANCE_PRECISION <= u128::MAX,
    ensures
        scaled(tokens) == 1000 * tokens,
{
}

// ---------------------------------------------------------------------------
// The scenario
// ---------------------------------------------------------------------------

/// A user of the scenario.
#[derive(Clone, Copy, PartialEq, Eq, Debug)]
pub struct UserAcct {
    pub keypair: Keypair,
    pub user_pda: Pubkey,
    pub stats_pda: Pubkey,
    pub token_account: Pubkey,
}

impl UserAcct {
    pub open spec fn authority(self) -> Pubkey {
        addr(self.keypair)
    }
}

/// The scenario.
#[derive(Clone, Debug)]
pub struct Fixture {
    pub program_id: Pubkey,
    pub state_pda: Pubkey,
    pub signer_pda: Pubkey,
    pub usdc_mint: Pubkey,
    pub spot_market_pda: Pubkey,
    pub spot_vault_pda: Pubkey,
    pub if_vault_pda: Pubkey,
    pub perp_market_pda: Pubkey,
    pub users: Vec<UserAcct>,
    /// The liquidator's stake.
    pub if_stake_pda: Pubkey,
}

/// A scenario that is ready to be performed.
#[derive(Debug)]
pub struct Setup {
    pub fixture: Fixture,
    pub steps: Vec<SetupStep>,
}

/// A user before it has accounts.
#[derive(Clone, Copy, PartialEq, Eq, Debug)]
pub struct UserKeys {
    pub keypair: Keypair,
    pub token_account: Pubkey,
}

/// The exchange: active, one market of each kind, a half-percent liquidation
/// buffer and a tenth of a position liquidated at first.
#[verifier::allow_in_spec]
pub fn build_state(signer: Pubkey, signer_nonce: u8, liquidation_duration: u8) -> StateAccount
    returns
        (StateAccount {
            liquidation_margin_buffer_ratio: 50,
            initial_pct_to_liquidate: 1_000,
            liquidation_duration,
            ..StateAccount::one_market(signer, signer_nonce, 0)
        }),
{
    StateAccount {
        liquidation_margin_buffer_ratio: 50,
        initial_pct_to_liquidate: 1_000,
        liquidation_duration,
        ..StateAccount::one_market(signer, signer_nonce, 0)
    }
}

/// The quote market: the perp market's backing deposited, the victim's loan
/// lent.
#[verifier::allow_in_spec]
pub fn build_spot_market_usdc(m: SpotAddresses, mint: Pubkey) -> SpotMarketAccount
    returns
        (SpotMarketAccount {
            deposit_balance: 1_000_000_000_000,
            borrow_balance: 1_000_000_000,
            if_fee_factor: 10_000,
            oracle_history: OracleHistory::Blank,
            ..SpotMarketAccount::quote(m.market, mint, m.vault, m.if_vault)
        }),
{
    SpotMarketAccount {
        deposit_balance: 1_000_000_000_000,
        borrow_balance: 1_000_000_000,
        if_fee_factor: 10_000,
        oracle_history: OracleHistory::Blank,
        ..SpotMarketAccount::quote(m.market, mint, m.vault, m.if_vault)
    }
}

/// The perp market: a curve at par, standing fees, a floored insurance tranche,
/// matched open interest, and profits backed.
#[verifier::allow_in_spec]
pub fn build_perp_market(pubkey: Pubkey) -> PerpMarketAccount
    returns
        (PerpMarketAccount {
            amm: AmmAccount::at_par(10_000_000_000_000),
            pending_protocol_fee: PENDING_PROTOCOL_FEE,
            pending_if_fee: PENDING_IF_FEE,
            bankruptcy_if_floor_pct: BANKRUPTCY_IF_FLOOR_PCT,
            base_asset_amount_long: OI_BASE,
            base_asset_amount_short: (-10_000_000_000) as i128,
            pnl_pool_scaled_balance: 1_000_000_000_000,
            oracle_history: OracleHistory::Flat { price: 1_000_000 },
            last_mark_price_twap: PRICE_PRECISION,
            last_mark_price_twap_5min: PRICE_PRECISION,
            ..PerpMarketAccount::quoted(pubkey, 0)
        }),
{
    PerpMarketAccount {
        amm: AmmAccount::at_par(10_000_000_000_000),
        pending_protocol_fee: PENDING_PROTOCOL_FEE,
        pending_if_fee: PENDING_IF_FEE,
        bankruptcy_if_floor_pct: BANKRUPTCY_IF_FLOOR_PCT,
        base_asset_amount_long: OI_BASE,
        base_asset_amount_short: (-10_000_000_000) as i128,
        pnl_pool_scaled_balance: 1_000_000_000_000,
        oracle_history: OracleHistory::Flat { price: 1_000_000 },
        last_mark_price_twap: PRICE_PRECISION,
        last_mark_price_twap_5min: PRICE_PRECISION,
        ..PerpMarketAccount::quoted(pubkey, 0)
    }
}

/// The victim: flagged with the given status, owing on the perp market without
/// a base, and with a loan.
#[verifier::allow_in_spec]
pub fn build_victim_user(authority: Pubkey, bankrupt_status: u8) -> UserAccount
    returns
        (UserAccount {
            status: bankrupt_status,
            next_liquidation_id: 1,
            perp_quote: VICTIM_PERP_QUOTE,
            spot_side: BalanceType::Borrow,
            spot_balance: 1_000_000_000,
            ..UserAccount::fresh(authority, 0)
        }),
{
    UserAccount {
        status: bankrupt_status,
        next_liquidation_id: 1,
        perp_quote: VICTIM_PERP_QUOTE,
        spot_side: BalanceType::Borrow,
        spot_balance: 1_000_000_000,
        ..UserAccount::fresh(authority, 0)
    }
}

/// The balances of the quote market are those of the perp market's backing and of
/// the victim's loan, and what the victim owes is what its account says.
pub proof fn setup_is_coherent(m: SpotAddresses, mint: Pubkey, perp: Pubkey, authority: Pubkey)
    ensures
        build_spot_market_usdc(m, mint).deposit_balance == scaled(PNL_POOL_TOKENS as u128),
        build_spot_market_usdc(m, mint).borrow_balance == scaled(VICTIM_BORROW_TOKENS as u128),
        build_perp_market(perp).pnl_pool_scaled_balance == scaled(PNL_POOL_TOKENS as u128),
        build_perp_market(perp).base_asset_amount_long + build_perp_market(
            perp,
        ).base_asset_amount_short == 0,
        build_victim_user(authority, 0).spot_balance == scaled(VICTIM_BORROW_TOKENS as u128),
        build_victim_user(authority, 0).perp_quote == VICTIM_PERP_QUOTE,
{
}

/// The steps that create the markets.
pub open spec fn market_steps(
    c: Core,
    m: SpotAddresses,
    perp: Pubkey,
    usdc_mint: Pubkey,
    liquidation_duration: u8,
) -> Seq<SetupStep> {
    seq![
        SetupStep::InjectState {
            at: c.state,
            state: build_state(c.signer, c.signer_nonce, liquidation_duration),
        },
        SetupStep::Mint { key: usdc_mint, authority: c.signer, decimals: 6 },
        SetupStep::TokenAccount {
            key: m.vault,
            mint: usdc_mint,
            owner: c.signer,
            amount: PNL_POOL_TOKENS,
        },
        SetupStep::TokenAccount {
            key: m.if_vault,
            mint: usdc_mint,
            owner: c.signer,
            amount: IF_VAULT_FUNDING,
        },
        SetupStep::InjectSpotMarket { at: m.market, market: build_spot_market_usdc(m, usdc_mint) },
        SetupStep::InjectPerpMarket { at: perp, market: build_perp_market(perp) },
    ]
}

fn market_steps_of(
    c: Core,
    m: SpotAddresses,
    perp: Pubkey,
    usdc_mint: Pubkey,
    liquidation_duration: u8,
) -> (r: Vec<SetupStep>)
    ensures
        r@ == market_steps(c, m, perp, usdc_mint, liquidation_duration),
{
    vec![
        SetupStep::InjectState {
            at: c.state,
            state: build_state(c.signer, c.signer_nonce, liquidation_duration),
        },
        SetupStep::Mint { key: usdc_mint, authority: c.signer, decimals: 6 },
        SetupStep::TokenAccount {
            key: m.vault,
            mint: usdc_mint,
            owner: c.signer,
            amount: PNL_POOL_TOKENS,
        },
        SetupStep::TokenAccount {
            key: m.if_vault,
            mint: usdc_mint,
            owner: c.signer,
            amount: IF_VAULT_FUNDING,
        },
        SetupStep::InjectSpotMarket { at: m.market, market: build_spot_market_usdc(m, usdc_mint) },
        SetupStep::InjectPerpMarket { at: perp, market: build_perp_market(perp) },
    ]
}

/// The steps that create a user.
pub open spec fn user_steps(
    u: UserAcct,
    authority: Pubkey,
    usdc_mint: Pubkey,
) -> Seq<SetupStep> {
    seq![
        SetupStep::Fund { key: authority, lamports: FUNDED_LAMPORTS },
        SetupStep::TokenAccount {
            key: u.token_account,
            mint: usdc_mint,
            owner: authority,
            amount: INITIAL_USDC,
        },
        SetupStep::InitStats { authority, stats: u.stats_pda },
        SetupStep::OpenUser { authority, stats: u.stats_pda, user: u.user_pda },
    ]
}

fn user_steps_of(
    u: UserAcct,
    authority: Pubkey,
    usdc_mint: Pubkey,
) -> (r: Vec<SetupStep>)
    ensures
        r@ == user_steps(u, authority, usdc_mint),
{
    vec![
        SetupStep::Fund { key: authority, lamports: FUNDED_LAMPORTS },
        SetupStep::TokenAccount {
            key: u.token_account,
            mint: usdc_mint,
            owner: authority,
            amount: INITIAL_USDC,
        },
        SetupStep::InitStats { authority, stats: u.stats_pda },
        SetupStep::OpenUser { authority, stats: u.stats_pda, user: u.user_pda },
    ]
}

/// The steps of the first `n` users.
pub open spec fn all_user_steps(users: Seq<UserAcct>, usdc_mint: Pubkey, n: nat) -> Seq<SetupStep>
    decreases n,
{
    if n == 0 {
        Seq::empty()
    } else {
        all_user_steps(users, usdc_mint, (n - 1) as nat) + user_steps(
            users[n - 1],
            users[n - 1].authority(),
            usdc_mint,
        )
    }
}

/// Every step of the setup: the markets, the users, the victim's state written
/// over its account, and the liquidator's stake.
pub open spec fn setup_steps(
    c: Core,
    m: SpotAddresses,
    perp: Pubkey,
    users: Seq<UserAcct>,
    stake: Pubkey,
    usdc_mint: Pubkey,
    liquidation_duration: u8,
    bankrupt_status: u8,
) -> Seq<SetupStep> {
    let victim = users[VICTIM_IDX as int];
    let staker = users[LIQUIDATOR_IDX as int];
    market_steps(c, m, perp, usdc_mint, liquidation_duration) + all_user_steps(
        users,
        usdc_mint,
        users.len(),
    ) + seq![
        SetupStep::WriteUser {
            at: victim.user_pda,
            user: build_victim_user(victim.authority(), bankrupt_status),
        },
        SetupStep::OpenStake {
            authority: staker.authority(),
            stats: staker.stats_pda,
            stake,
        },
    ]
}

pub open spec fn is_user(u: UserAcct, k: UserKeys, program: Pubkey) -> bool {
    &&& u.keypair == k.keypair && u.token_account == k.token_account
    &&& is_pda(u.stats_pda, stats_seeds(addr(k.keypair)), program)
    &&& is_pda(u.user_pda, user_seeds(addr(k.keypair), 0), program)
}

pub open spec fn user_derivable(k: UserKeys, program: Pubkey) -> bool {
    derivable(stats_seeds(addr(k.keypair)), program) && derivable(
        user_seeds(addr(k.keypair), 0),
        program,
    )
}

fn make_user(k: &UserKeys, program: Pubkey) -> (r: Option<UserAcct>)
    ensures
        r is Some <==> user_derivable(*k, program),
        r matches Some(u) ==> is_user(u, *k, program),
{
    let authority = k.keypair.pubkey();
    let (stats, _) = stats_pda(&authority, program)?;
    let (user, _) = user_pda(&authority, 0, program)?;
    Some(
        UserAcct {
            keypair: k.keypair,
            user_pda: user,
            stats_pda: stats,
            token_account: k.token_account,
        },
    )
}

impl Fixture {
    pub open spec fn wf(self) -> bool {
        self.users@.len() == NUM_USERS
    }

    /// The scenario of the given addresses, before anything happened.
    pub open spec fn is_fresh(self, program: Pubkey, usdc_mint: Pubkey, keys: Seq<UserKeys>) -> bool {
        let c = core_at(program);
        let m = spot_at(0, program);
        &&& self.program_id == program && self.usdc_mint == usdc_mint
        &&& self.state_pda == c.state && self.signer_pda == c.signer
        &&& self.spot_market_pda == m.market && self.spot_vault_pda == m.vault
            && self.if_vault_pda == m.if_vault
        &&& self.perp_market_pda == perp_at(program)
        &&& self.users@.len() == keys.len() && forall|i: int|
            0 <= i < keys.len() ==> is_user(#[trigger] self.users@[i], keys[i], program)
        &&& self.if_stake_pda == pda_key(
            stake_seeds(addr(keys[LIQUIDATOR_IDX as int].keypair)),
            program,
        )
    }

    /// Sets the scenario up; `bankrupt_status` flags a bankrupt account. `None`
    /// where an address has no derivation.
    pub fn setup(
        program_id: Pubkey,
        usdc_mint: Pubkey,
        keys: &Vec<UserKeys>,
        liquidation_duration: u8,
        bankrupt_status: u8,
    ) -> (r: Option<Setup>)
        requires
            keys@.len() == NUM_USERS,
        ensures
            r is Some <==> {
                &&& core_derivable(program_id)
                &&& SpotAddresses::all_derivable(0, program_id)
                &&& derivable(indexed("perp_market", 0), program_id)
                &&& forall|i: int|
                    0 <= i < keys@.len() ==> user_derivable(#[trigger] keys@[i], program_id)
                &&& derivable(
                    stake_seeds(addr(keys@[LIQUIDATOR_IDX as int].keypair)),
                    program_id,
                )
            },
            r matches Some(s) ==> {
                &&& s.fixture.wf()
                &&& s.fixture.is_fresh(program_id, usdc_mint, keys@)
                &&& s.steps@ == setup_steps(
                    core_at(program_id),
                    spot_at(0, program_id),
                    perp_at(program_id),
                    s.fixture.users@,
                    s.fixture.if_stake_pda,
                    usdc_mint,
                    liquidation_duration,
                    bankrupt_status,
                )
            },
    {
        let c = derive_core(program_id)?;
        let m = quote_market(program_id)?;
        let perp = perp_market(program_id)?;
        let mut steps = market_steps_of(c, m, perp, usdc_mint, liquidation_duration);
        let ghost first = steps@;
        let mut users: Vec<UserAcct> = Vec::new();
        let mut i: usize = 0;
        assert(first + all_user_steps(users@, usdc_mint, 0) =~= first);
        while i < keys.len()
            invariant
                i <= keys@.len(),
                users@.len() == i,
                core_derivable(program_id),
                SpotAddresses::all_derivable(0, program_id),
                derivable(indexed("perp_market", 0), program_id),
                forall|j: int| 0 <= j < i ==> is_user(#[trigger] users@[j], keys@[j], program_id),
                forall|j: int| 0 <= j < i ==> user_derivable(#[trigger] keys@[j], program_id),
                steps@ == first + all_user_steps(users@, usdc_mint, i as nat),
            decreases keys@.len() - i,
        {
            let ghost before = users@;
            let made = make_user(&keys[i], program_id);
            if made.is_none() {
                assert(!user_derivable(keys@[i as int], program_id));
                return None;
            }
            let u = made.unwrap();
            let mut more = user_steps_of(u, u.keypair.pubkey(), usdc_mint);
            steps.append(&mut more);
            users.push(u);
            proof {
                same_steps(before, users@, usdc_mint, i as nat);
                assert(first + all_user_steps(before, usdc_mint, i as nat) + user_steps(
                    u,
                    u.authority(),
                    usdc_mint,
                ) =~= first + all_user_steps(users@, usdc_mint, (i + 1) as nat));
            }
            i = i + 1;
        }
        let staker = users[LIQUIDATOR_IDX];
        let victim = users[VICTIM_IDX];
        let (stake, _) = if_stake_pda(&staker.keypair.pubkey(), program_id)?;
        let ghost so_far = steps@;
        steps.push(
            SetupStep::WriteUser {
                at: victim.user_pda,
                user: build_victim_user(victim.keypair.pubkey(), bankrupt_status),
            },
        );
        steps.push(
            SetupStep::OpenStake {
                authority: staker.keypair.pubkey(),
                stats: staker.stats_pda,
                stake,
            },
        );
        assert(steps@ =~= so_far + seq![
            SetupStep::WriteUser {
                at: users@[VICTIM_IDX as int].user_pda,
                user: build_victim_user(users@[VICTIM_IDX as int].authority(), bankrupt_status),
            },
            SetupStep::OpenStake {
                authority: users@[LIQUIDATOR_IDX as int].authority(),
                stats: users@[LIQUIDATOR_IDX as int].stats_pda,
                stake,
            },
        ]);
        Some(
            Setup {
                fixture: Fixture {
                    program_id,
                    state_pda: c.state,
                    signer_pda: c.signer,
                    usdc_mint,
                    spot_market_pda: m.market,
                    spot_vault_pda: m.vault,
                    if_vault_pda: m.if_vault,
                    perp_market_pda: perp,
                    users,
                    if_stake_pda: stake,
                },
                steps,
            },
        )
    }
}

proof fn same_steps(shorter: Seq<UserAcct>, longer: Seq<UserAcct>, usdc_mint: Pubkey, n: nat)
    requires
        n <= shorter.len() <= longer.len(),
        forall|j: int| 0 <= j < shorter.len() ==> shorter[j] == longer[j],
    ensures
        all_user_steps(shorter, usdc_mint, n) == all_user_steps(longer, usdc_mint, n),
    decreases n,
{
    if n > 0 {
        same_steps(shorter, longer, usdc_mint, (n - 1) as nat);
    }
}

// ---------------------------------------------------------------------------
// Actions
// ---------------------------------------------------------------------------

/// As much of an amount as a wallet holds.
pub open spec fn affordable(amount: u64, balance: u64) -> u64 {
    if amount <= balance {
        amount
    } else {
        balance
    }
}

fn afford(amount: u64, balance: u64) -> (r: u64)
    ensures
        r == affordable(amount, balance),
{
    if amount <= balance {
        amount
    } else {
        balance
    }
}

impl Fixture {
    pub open spec fn depositor(self, user: UserAcct) -> Depositor {
        Depositor {
            state: self.state_pda,
            user: user.user_pda,
            stats: user.stats_pda,
            authority: user.authority(),
            vault: self.spot_vault_pda,
            wallet: user.token_account,
            market: self.spot_market_pda,
        }
    }

    /// Deposits what a user can afford; `None` where that is nothing.
    pub fn action_deposit(&self, user_idx: usize, amount: u64, balance: u64) -> (r: Option<Transaction>)
        requires
            self.wf(),
            user_idx < NUM_USERS,
        ensures
            r is Some <==> affordable(amount, balance) != 0,
            r matches Some(t) ==> t@ == quote_deposit_call(
                self.program_id,
                self.depositor(self.users@[user_idx as int]),
                affordable(amount, balance),
            ),
    {
        let user = self.users[user_idx];
        let amount = afford(amount, balance);
        if amount == 0 {
            return None;
        }
        let d = Depositor {
            state: self.state_pda,
            user: user.user_pda,
            stats: user.stats_pda,
            authority: user.keypair.pubkey(),
            vault: self.spot_vault_pda,
            wallet: user.token_account,
            market: self.spot_market_pda,
        };
        Some(quote_deposit(self.program_id, &d, amount))
    }

    pub open spec fn liquidator(self) -> UserAcct {
        self.users@[LIQUIDATOR_IDX as int]
    }

    pub open spec fn victim(self) -> UserAcct {
        self.users@[VICTIM_IDX as int]
    }

    /// The liquidator and the victim.
    pub fn liquidator_meta(&self) -> (r: (UserAcct, UserAcct))
        requires
            self.wf(),
        ensures
            r == (self.liquidator(), self.victim()),
    {
        (self.users[LIQUIDATOR_IDX], self.users[VICTIM_IDX])
    }

    /// Flags a user for liquidation.
    pub fn action_set_being_liquidated(&self, user_idx: usize) -> (r: Transaction)
        requires
            self.wf(),
            user_idx < NUM_USERS,
        ensures
            ({
                let user = self.users@[user_idx as int];
                let liq = self.liquidator();
                r@ == call(
                    self.program_id,
                    seq![
                        AccountMeta::new_readonly(self.state_pda, false),
                        AccountMeta::new(user.user_pda, false),
                        AccountMeta::new_readonly(liq.authority(), true),
                        AccountMeta::new_readonly(self.spot_market_pda, false),
                        AccountMeta::new_readonly(self.perp_market_pda, false),
                    ],
                    D_SET_USER_STATUS_BEING_LIQUIDATED@,
                    liq.authority(),
                )
            }),
    {
        let user = self.users[user_idx];
        let liq = self.users[LIQUIDATOR_IDX];
        let accounts = vec![
            AccountMeta::new_readonly(self.state_pda, false),
            AccountMeta::new(user.user_pda, false),
            AccountMeta::new_readonly(liq.keypair.pubkey(), true),
            AccountMeta::new_readonly(self.spot_market_pda, false),
            AccountMeta::new_readonly(self.perp_market_pda, false),
        ];
        let data = bare(D_SET_USER_STATUS_BEING_LIQUIDATED);
        send(self.program_id, accounts, data, liq.keypair.pubkey())
    }

    /// Liquidates the victim's perp position.
    pub fn action_liquidate_perp(&self, max_base: u64) -> (r: Transaction)
        requires
            self.wf(),
        ensures
            ({
                let liq = self.liquidator();
                let victim = self.victim();
                r@ == call(
                    self.program_id,
                    seq![
                        AccountMeta::new_readonly(self.state_pda, false),
                        AccountMeta::new_readonly(liq.authority(), true),
                        AccountMeta::new(liq.user_pda, false),
                        AccountMeta::new(liq.stats_pda, false),
                        AccountMeta::new(victim.user_pda, false),
                        AccountMeta::new(victim.stats_pda, false),
                        AccountMeta::new_readonly(self.spot_market_pda, false),
                        AccountMeta::new(self.perp_market_pda, false),
                    ],
                    D_LIQUIDATE_PERP@ + (le(0, 2) + le(max_base as int, 8) + seq![0u8]),
                    liq.authority(),
                )
            }),
    {
        let liq = self.users[LIQUIDATOR_IDX];
        let victim = self.users[VICTIM_IDX];
        let mut args: Vec<u8> = Vec::new();
        push_u16(&mut args, 0);
        assert(args@ =~= le(0, 2));
        push_u64(&mut args, max_base);
        push_u8(&mut args, 0);
        let accounts = vec![
            AccountMeta::new_readonly(self.state_pda, false),
            AccountMeta::new_readonly(liq.keypair.pubkey(), true),
            AccountMeta::new(liq.user_pda, false),
            AccountMeta::new(liq.stats_pda, false),
            AccountMeta::new(victim.user_pda, false),
            AccountMeta::new(victim.stats_pda, false),
            AccountMeta::new_readonly(self.spot_market_pda, false),
            AccountMeta::new(self.perp_market_pda, false),
        ];
        send(self.program_id, accounts, ix_data(D_LIQUIDATE_PERP, &args), liq.keypair.pubkey())
    }

    /// Liquidates the victim's loan against a deposit in the same market, which
    /// the exchange rejects.
    pub fn action_liquidate_spot(&self, max_liab: u64) -> (r: Transaction)
        requires
            self.wf(),
        ensures
            ({
                let liq = self.liquidator();
                let victim = self.victim();
                r@ == call(
                    self.program_id,
                    seq![
                        AccountMeta::new_readonly(self.state_pda, false),
                        AccountMeta::new_readonly(liq.authority(), true),
                        AccountMeta::new(liq.user_pda, false),
                        AccountMeta::new(victim.user_pda, false),
                        AccountMeta::new(self.spot_market_pda, false),
                        AccountMeta::new(self.perp_market_pda, false),
                    ],
                    D_LIQUIDATE_SPOT@ + (le(0, 2) + le(0, 2) + le(max_liab as int, 16) + seq![0u8]),
                    liq.authority(),
                )
            }),
    {
        let liq = self.users[LIQUIDATOR_IDX];
        let victim = self.users[VICTIM_IDX];
        let mut args: Vec<u8> = Vec::new();
        push_u16(&mut args, 0);
        assert(args@ =~= le(0, 2));
        push_u16(&mut args, 0);
        push_u128(&mut args, max_liab as u128);
        push_u8(&mut args, 0);
        let accounts = vec![
            AccountMeta::new_readonly(self.state_pda, false),
            AccountMeta::new_readonly(liq.keypair.pubkey(), true),
            AccountMeta::new(liq.user_pda, false),
            AccountMeta::new(victim.user_pda, false),
            AccountMeta::new(self.spot_market_pda, false),
            AccountMeta::new(self.perp_market_pda, false),
        ];
        send(self.program_id, accounts, ix_data(D_LIQUIDATE_SPOT, &args), liq.keypair.pubkey())
    }

    /// Takes over the victim's loss on the perp market for its deposit.
    pub fn action_liquidate_pnl_for_deposit(&self, max_pnl: u64) -> (r: Transaction)
        requires
            self.wf(),
        ensures
            ({
                let liq = self.liquidator();
                let victim = self.victim();
                r@ == call(
                    self.program_id,
                    seq![
                        AccountMeta::new_readonly(self.state_pda, false),
                        AccountMeta::new_readonly(liq.authority(), true),
                        AccountMeta::new(liq.user_pda, false),
                        AccountMeta::new(liq.stats_pda, false),
                        AccountMeta::new(victim.user_pda, false),
                        AccountMeta::new(victim.stats_pda, false),
                        AccountMeta::new(self.spot_market_pda, false),
                        AccountMeta::new_readonly(self.perp_market_pda, false),
                    ],
                    D_LIQUIDATE_PERP_PNL_FOR_DEPOSIT@ + (le(0, 2) + le(0, 2)
                        + le(max_pnl as int, 16) + seq![0u8]),
                    liq.authority(),
                )
            }),
    {
        let liq = self.users[LIQUIDATOR_IDX];
        let victim = self.users[VICTIM_IDX];
        let mut args: Vec<u8> = Vec::new();
        push_u16(&mut args, 0);
        assert(args@ =~= le(0, 2));
        push_u16(&mut args, 0);
        push_u128(&mut args, max_pnl as u128);
        push_u8(&mut args, 0);
        let accounts = vec![
            AccountMeta::new_readonly(self.state_pda, false),
            AccountMeta::new_readonly(liq.keypair.pubkey(), true),
            AccountMeta::new(liq.user_pda, false),
            AccountMeta::new(liq.stats_pda, false),
            AccountMeta::new(victim.user_pda, false),
            AccountMeta::new(victim.stats_pda, false),
            AccountMeta::new(self.spot_market_pda, false),
            AccountMeta::new_readonly(self.perp_market_pda, false),
        ];
        send(
            self.program_id,
            accounts,
            ix_data(D_LIQUIDATE_PERP_PNL_FOR_DEPOSIT, &args),
            liq.keypair.pubkey(),
        )
    }

    /// The accounts of a bankruptcy.
    pub open spec fn resolution(self, liq: UserAcct, victim: UserAcct) -> Seq<AccountMeta> {
        seq![
            AccountMeta::new_readonly(self.state_pda, false),
            AccountMeta::new_readonly(liq.authority(), true),
            AccountMeta::new(liq.user_pda, false),
            AccountMeta::new(liq.stats_pda, false),
            AccountMeta::new(victim.user_pda, false),
            AccountMeta::new(victim.stats_pda, false),
            AccountMeta::new(self.spot_vault_pda, false),
            AccountMeta::new(self.if_vault_pda, false),
            AccountMeta::new_readonly(self.signer_pda, false),
            AccountMeta::new_readonly(token_program_id(), false),
            AccountMeta::new(self.spot_market_pda, false),
            AccountMeta::new(self.perp_market_pda, false),
            AccountMeta::new_readonly(self.usdc_mint, false),
        ]
    }

    pub fn resolve_accounts(&self, liq: &UserAcct, victim: &UserAcct) -> (r: Vec<AccountMeta>)
        ensures
            r@ == self.resolution(*liq, *victim),
    {
        vec![
            AccountMeta::new_readonly(self.state_pda, false),
            AccountMeta::new_readonly(liq.keypair.pubkey(), true),
            AccountMeta::new(liq.user_pda, false),
            AccountMeta::new(liq.stats_pda, false),
            AccountMeta::new(victim.user_pda, false),
            AccountMeta::new(victim.stats_pda, false),
            AccountMeta::new(self.spot_vault_pda, false),
            AccountMeta::new(self.if_vault_pda, false),
            AccountMeta::new_readonly(self.signer_pda, false),
            AccountMeta::new_readonly(token_program_id(), false),
            AccountMeta::new(self.spot_market_pda, false),
            AccountMeta::new(self.perp_market_pda, false),
            AccountMeta::new_readonly(self.usdc_mint, false),
        ]
    }

    /// Resolves the victim's loss on the perp market.
    pub fn action_resolve_perp_bankruptcy(&self) -> (r: Transaction)
        requires
            self.wf(),
        ensures
            r@ == call(
                self.program_id,
                self.resolution(self.liquidator(), self.victim()),
                D_RESOLVE_PERP_BANKRUPTCY@ + (le(0, 2) + le(0, 2)),
                self.liquidator().authority(),
            ),
    {
        let (liq, victim) = self.liquidator_meta();
        let mut args: Vec<u8> = Vec::new();
        push_u16(&mut args, 0);
        assert(args@ =~= le(0, 2));
        push_u16(&mut args, 0);
        send(
            self.program_id,
            self.resolve_accounts(&liq, &victim),
            ix_data(D_RESOLVE_PERP_BANKRUPTCY, &args),
            liq.keypair.pubkey(),
        )
    }

    /// Resolves the victim's loan.
    pub fn action_resolve_spot_bankruptcy(&self) -> (r: Transaction)
        requires
            self.wf(),
        ensures
            r@ == call(
                self.program_id,
                self.resolution(self.liquidator(), self.victim()),
                D_RESOLVE_SPOT_BANKRUPTCY@ + le(0, 2),
                self.liquidator().authority(),
            ),
    {
        let (liq, victim) = self.liquidator_meta();
        let mut args: Vec<u8> = Vec::new();
        push_u16(&mut args, 0);
        assert(args@ =~= le(0, 2));
        send(
            self.program_id,
            self.resolve_accounts(&liq, &victim),
            ix_data(D_RESOLVE_SPOT_BANKRUPTCY, &args),
            liq.keypair.pubkey(),
        )
    }

    /// Covers the perp market's deficit from the insurance vault.
    pub fn action_resolve_perp_pnl_deficit(&self) -> (r: Transaction)
        requires
            self.wf(),
        ensures
            ({
                let liq = self.liquidator();
                r@ == call(
                    self.program_id,
                    seq![
                        AccountMeta::new_readonly(self.state_pda, false),
                        AccountMeta::new_readonly(liq.authority(), true),
                        AccountMeta::new(self.spot_vault_pda, false),
                        AccountMeta::new(self.if_vault_pda, false),
                        AccountMeta::new_readonly(self.signer_pda, false),
                        AccountMeta::new_readonly(token_program_id(), false),
                        AccountMeta::new(self.perp_market_pda, false),
                        AccountMeta::new(self.spot_market_pda, false),
                        AccountMeta::new_readonly(self.usdc_mint, false),
                    ],
                    D_RESOLVE_PERP_PNL_DEFICIT@ + (le(0, 2) + le(0, 2)),
                    liq.authority(),
                )
            }),
    {
        let liq = self.users[LIQUIDATOR_IDX];
        let mut args: Vec<u8> = Vec::new();
        push_u16(&mut args, 0);
        assert(args@ =~= le(0, 2));
        push_u16(&mut args, 0);
        let accounts = vec![
            AccountMeta::new_readonly(self.state_pda, false),
            AccountMeta::new_readonly(liq.keypair.pubkey(), true),
            AccountMeta::new(self.spot_vault_pda, false),
            AccountMeta::new(self.if_vault_pda, false),
            AccountMeta::new_readonly(self.signer_pda, false),
            AccountMeta::new_readonly(token_program_id(), false),
            AccountMeta::new(self.perp_market_pda, false),
            AccountMeta::new(self.spot_market_pda, false),
            AccountMeta::new_readonly(self.usdc_mint, false),
        ];
        send(
            self.program_id,
            accounts,
            ix_data(D_RESOLVE_PERP_PNL_DEFICIT, &args),
            liq.keypair.pubkey(),
        )
    }

    /// Opens the liquidator's stake.
    pub fn init_if_stake(&self) -> (r: Transaction)
        requires
            self.wf(),
        ensures
            ({
                let liq = self.liquidator();
                r@ == call(
                    self.program_id,
                    seq![
                        AccountMeta::new_readonly(self.spot_market_pda, false),
                        AccountMeta::new(self.if_stake_pda, false),
                        AccountMeta::new(liq.stats_pda, false),
                        AccountMeta::new_readonly(self.state_pda, false),
                        AccountMeta::new_readonly(liq.authority(), true),
                        AccountMeta::new(liq.authority(), true),
                        AccountMeta::new_readonly(rent_sysvar_id(), false),
                        AccountMeta::new_readonly(system_program_id(), false),
                    ],
                    D_INITIALIZE_IF_STAKE@ + le(0, 2),
                    liq.authority(),
                )
            }),
    {
        let liq = self.users[LIQUIDATOR_IDX];
        let mut args: Vec<u8> = Vec::new();
        push_u16(&mut args, 0);
        assert(args@ =~= le(0, 2));
        let accounts = vec![
            AccountMeta::new_readonly(self.spot_market_pda, false),
            AccountMeta::new(self.if_stake_pda, false),
            AccountMeta::new(liq.stats_pda, false),
            AccountMeta::new_readonly(self.state_pda, false),
            AccountMeta::new_readonly(liq.keypair.pubkey(), true),
            AccountMeta::new(liq.keypair.pubkey(), true),
            AccountMeta::new_readonly(rent_sysvar_id(), false),
            AccountMeta::new_readonly(system_program_id(), false),
        ];
        send(self.program_id, accounts, ix_data(D_INITIALIZE_IF_STAKE, &args), liq.keypair.pubkey())
    }

    /// The liquidator stakes what it can afford; `None` where that is nothing.
    pub fn action_add_if_stake(&self, amount: u64, balance: u64) -> (r: Option<Transaction>)
        requires
            self.wf(),
        ensures
            r is Some <==> affordable(amount, balance) != 0,
            r matches Some(t) ==> ({
                let liq = self.liquidator();
                t@ == call(
                    self.program_id,
                    seq![
                        AccountMeta::new_readonly(self.state_pda, false),
                        AccountMeta::new(self.spot_market_pda, false),
                        AccountMeta::new(self.if_stake_pda, false),
                        AccountMeta::new(liq.stats_pda, false),
                        AccountMeta::new_readonly(liq.authority(), true),
                        AccountMeta::new(self.spot_vault_pda, false),
                        AccountMeta::new(self.if_vault_pda, false),
                        AccountMeta::new_readonly(self.signer_pda, false),
                        AccountMeta::new(liq.token_account, false),
                        AccountMeta::new_readonly(token_program_id(), false),
                    ],
                    D_ADD_IF_STAKE@ + (le(0, 2) + le(affordable(amount, balance) as int, 8)),
                    liq.authority(),
                )
            }),
    {
        let liq = self.users[LIQUIDATOR_IDX];
        let staked = afford(amount, balance);
        if staked == 0 {
            return None;
        }
        let mut args: Vec<u8> = Vec::new();
        push_u16(&mut args, 0);
        assert(args@ =~= le(0, 2));
        push_u64(&mut args, staked);
        let accounts = vec![
            AccountMeta::new_readonly(self.state_pda, false),
            AccountMeta::new(self.spot_market_pda, false),
            AccountMeta::new(self.if_stake_pda, false),
            AccountMeta::new(liq.stats_pda, false),
            AccountMeta::new_readonly(liq.keypair.pubkey(), true),
            AccountMeta::new(self.spot_vault_pda, false),
            AccountMeta::new(self.if_vault_pda, false),
            AccountMeta::new_readonly(self.signer_pda, false),
            AccountMeta::new(liq.token_account, false),
            AccountMeta::new_readonly(token_program_id(), false),
        ];
        Some(send(self.program_id, accounts, ix_data(D_ADD_IF_STAKE, &args), liq.keypair.pubkey()))
    }

    /// The liquidator asks for some of its stake back.
    pub fn action_request_remove_if_stake(&self, amount: u64) -> (r: Transaction)
        requires
            self.wf(),
        ensures
            ({
                let liq = self.liquidator();
                r@ == call(
                    self.program_id,
                    seq![
                        AccountMeta::new(self.spot_market_pda, false),
                        AccountMeta::new(self.if_stake_pda, false),
                        AccountMeta::new(liq.stats_pda, false),
                        AccountMeta::new_readonly(liq.authority(), true),
                        AccountMeta::new(self.if_vault_pda, false),
                    ],
                    D_REQUEST_REMOVE_IF_STAKE@ + (le(0, 2) + le(amount as int, 8)),
                    liq.authority(),
                )
            }),
    {
        let liq = self.users[LIQUIDATOR_IDX];
        let mut args: Vec<u8> = Vec::new();
        push_u16(&mut args, 0);
        assert(args@ =~= le(0, 2));
        push_u64(&mut args, amount);
        let accounts = vec![
            AccountMeta::new(self.spot_market_pda, false),
            AccountMeta::new(self.if_stake_pda, false),
            AccountMeta::new(liq.stats_pda, false),
            AccountMeta::new_readonly(liq.keypair.pubkey(), true),
            AccountMeta::new(self.if_vault_pda, false),
        ];
        send(
            self.program_id,
            accounts,
            ix_data(D_REQUEST_REMOVE_IF_STAKE, &args),
            liq.keypair.pubkey(),
        )
    }

    /// The liquidator takes back what it asked for.
    pub fn action_remove_if_stake(&self) -> (r: Transaction)
        requires
            self.wf(),
        ensures
            ({
                let liq = self.liquidator();
                r@ == call(
                    self.program_id,
                    seq![
                        AccountMeta::new_readonly(self.state_pda, false),
                        AccountMeta::new(self.spot_market_pda, false),
                        AccountMeta::new(self.if_stake_pda, false),
                        AccountMeta::new(liq.stats_pda, false),
                        AccountMeta::new_readonly(liq.authority(), true),
                        AccountMeta::new(self.if_vault_pda, false),
                        AccountMeta::new_readonly(self.signer_pda, false),
                        AccountMeta::new(liq.token_account, false),
                        AccountMeta::new_readonly(token_program_id(), false),
                    ],
                    D_REMOVE_IF_STAKE@ + le(0, 2),
                    liq.authority(),
                )
            }),
    {
        let liq = self.users[LIQUIDATOR_IDX];
        let mut args: Vec<u8> = Vec::new();
        push_u16(&mut args, 0);
        assert(args@ =~= le(0, 2));
        let accounts = vec![
            AccountMeta::new_readonly(self.state_pda, false),
            AccountMeta::new(self.spot_market_pda, false),
            AccountMeta::new(self.if_stake_pda, false),
            AccountMeta::new(liq.stats_pda, false),
            AccountMeta::new_readonly(liq.keypair.pubkey(), true),
            AccountMeta::new(self.if_vault_pda, false),
            AccountMeta::new_readonly(self.signer_pda, false),
            AccountMeta::new(liq.token_account, false),
            AccountMeta::new_readonly(token_program_id(), false),
        ];
        send(self.program_id, accounts, ix_data(D_REMOVE_IF_STAKE, &args), liq.keypair.pubkey())
    }
}

/// The slot after a warp of so many slots.
pub fn action_warp(slot: u64, slots: u64) -> (r: u64)
    requires
        slot + slots <= u64::MAX,
    ensures
        r == slot + slots,
{
    slot + slots
}

// ---------------------------------------------------------------------------
// Invariants
// ---------------------------------------------------------------------------

/// What a sweep looks at.
#[derive(Debug)]
pub struct Snapshot {
    pub spot: Option<SpotMarket>,
    pub perp: Option<PerpMarket>,
    pub users: Vec<Option<User>>,
    pub vault: u64,
    pub if_vault: u64,
}

impl Snapshot {
    /// The amounts add up within the machine's integers.
    pub open spec fn fits(self) -> bool {
        &&& users_fit(self.users@)
        &&& self.spot matches Some(m) ==> m.fits()
        &&& self.perp matches Some(p) ==> p.fits()
    }

    /// Decides [`Snapshot::fits`].
    pub fn within_limits(&self) -> (r: bool)
        ensures
            r == self.fits(),
    {
        let spot = match &self.spot {
            Some(m) => m.within_limits(),
            None => true,
        };
        let perp = match &self.perp {
            Some(p) => p.within_limits(),
            None => true,
        };
        spot && perp && crate::model::users_within_limits(&self.users)
    }
}

/// Something that must not be.
#[derive(Clone, Copy, PartialEq, Eq, Structural, Debug)]
pub enum Breach {
    /// The exchange rejects the quote vault.
    Insolvent { vault: u64 },
    /// The quote vault does not cover what it backs.
    ConservationBroken { vault: u64, backed: i128 },
    /// Longs, shorts and the AMM's side do not cancel.
    OpenInterest { net_users: i128, amm: i128 },
    /// The floored insurance tranche is not backed by tokens.
    TrancheUnbacked { backing: u128, tranche: u128 },
    /// The insurance vault is empty.
    InsuranceDrained,
    /// A user has a loan and no deposit, and is not flagged.
    BorrowWithoutCollateral { user: usize },
    /// A user is bankrupt and not flagged.
    BankruptUnflagged { user: usize },
    /// More insurance shares are held than there are.
    SharesExceedSupply { user_shares: u128, total_shares: u128 },
    /// Insurance shares are held although there are none.
    SharesWithoutSupply { user_shares: u128 },
}

pub open spec fn breach(found: bool, b: Breach) -> Seq<Breach> {
    if found {
        seq![b]
    } else {
        Seq::empty()
    }
}

fn report(out: &mut Vec<Breach>, found: bool, b: Breach)
    ensures
        final(out)@ == old(out)@ + breach(found, b),
{
    if found {
        out.push(b);
    }
    assert(out@ =~= old(out)@ + breach(found, b));
}

/// What the quote vault has to cover.
pub open spec fn backed(m: SpotMarket, perp: Option<PerpMarket>, users: Seq<Option<User>>) -> int {
    net_user_tokens(users, 0) + m.revenue_pool_tokens + m.revenue_receivable_tokens + match perp {
        Some(p) => p.pnl_pool_tokens + p.fee_pool_tokens,
        None => 0,
    }
}

pub open spec fn solvency_report(s: Snapshot) -> Seq<Breach> {
    match s.spot {
        Some(m) => breach(!m.vault_accepted, Breach::Insolvent { vault: s.vault }) + breach(
            s.vault < backed(m, s.perp, s.users@),
            Breach::ConservationBroken {
                vault: s.vault,
                backed: backed(m, s.perp, s.users@) as i128,
            },
        ),
        None => Seq::empty(),
    }
}

pub fn check_solvency_and_conservation(out: &mut Vec<Breach>, s: &Snapshot)
    requires
        s.fits(),
    ensures
        final(out)@ == old(out)@ + solvency_report(*s),
{
    if let Some(m) = &s.spot {
        report(out, !m.vault_accepted, Breach::Insolvent { vault: s.vault });
        let pools: i128 = match &s.perp {
            Some(p) => p.pnl_pool_tokens as i128 + p.fee_pool_tokens as i128,
            None => 0,
        };
        let net: i128 = net_user_tokens_of(&s.users, 0);
        let backed: i128 = net + m.revenue_pool_tokens as i128 + m.revenue_receivable_tokens as i128
            + pools;
        report(
            out,
            (s.vault as i128) < backed,
            Breach::ConservationBroken { vault: s.vault, backed },
        );
    }
}

pub open spec fn oi_report(s: Snapshot) -> Seq<Breach> {
    match s.perp {
        Some(p) => breach(
            p.base_asset_amount_long + p.base_asset_amount_short != p.base_asset_amount_with_amm,
            Breach::OpenInterest {
                net_users: (p.base_asset_amount_long + p.base_asset_amount_short) as i128,
                amm: p.base_asset_amount_with_amm,
            },
        ),
        None => Seq::empty(),
    }
}

pub fn check_oi_conservation(out: &mut Vec<Breach>, s: &Snapshot)
    requires
        s.fits(),
    ensures
        final(out)@ == old(out)@ + oi_report(*s),
{
    if let Some(p) = &s.perp {
        let net: i128 = p.base_asset_amount_long + p.base_asset_amount_short;
        report(
            out,
            net != p.base_asset_amount_with_amm,
            Breach::OpenInterest { net_users: net, amm: p.base_asset_amount_with_amm },
        );
    }
}

/// The part of the standing fees that bears a loss first: no more than the floor.
pub open spec fn tranche(pending_if_fee: u128, floor: u128) -> u128 {
    if pending_if_fee <= floor {
        pending_if_fee
    } else {
        floor
    }
}

/// The tokens that stand behind the tranche.
pub open spec fn backing(pnl_tokens: u128, fee_tokens: u128) -> int {
    capped(pnl_tokens + fee_tokens)
}

/// Whether the floored tranche is backed by tokens.
pub fn tranche_is_backed(pending_if_fee: u128, floor: u128, pnl_tokens: u128, fee_tokens: u128) -> (r:
    bool)
    ensures
        r == (tranche(pending_if_fee, floor) <= backing(pnl_tokens, fee_tokens)),
{
    let tranche = if pending_if_fee <= floor {
        pending_if_fee
    } else {
        floor
    };
    pnl_tokens.saturating_add(fee_tokens) >= tranche
}

pub open spec fn tranche_report(s: Snapshot) -> Seq<Breach> {
    match (s.perp, s.spot) {
        (Some(p), Some(_)) => breach(
            backing(p.pnl_pool_tokens, p.fee_pool_tokens) < tranche(
                p.pending_if_fee,
                p.bankruptcy_if_floor,
            ),
            Breach::TrancheUnbacked {
                backing: backing(p.pnl_pool_tokens, p.fee_pool_tokens) as u128,
                tranche: tranche(p.pending_if_fee, p.bankruptcy_if_floor),
            },
        ),
        _ => Seq::empty(),
    }
}

pub fn check_if_tranche_backed(out: &mut Vec<Breach>, s: &Snapshot)
    ensures
        final(out)@ == old(out)@ + tranche_report(*s),
{
    if s.spot.is_some() {
        if let Some(p) = &s.perp {
            let tranche = if p.pending_if_fee <= p.bankruptcy_if_floor {
                p.pending_if_fee
            } else {
                p.bankruptcy_if_floor
            };
            let backing = p.pnl_pool_tokens.saturating_add(p.fee_pool_tokens);
            report(out, backing < tranche, Breach::TrancheUnbacked { backing, tranche });
        }
    }
}

/// The insurance vault started with tokens; a resolution that empties it has
/// spent them twice.
pub fn check_if_vault_not_overspent(out: &mut Vec<Breach>, s: &Snapshot)
    ensures
        final(out)@ == old(out)@ + breach(s.if_vault == 0, Breach::InsuranceDrained),
{
    report(out, s.if_vault == 0, Breach::InsuranceDrained);
}

/// A balance on the given side.
pub open spec fn has_side(positions: Seq<SpotPosition>, side: BalanceType) -> bool {
    exists|i: int|
        0 <= i < positions.len() && (#[trigger] positions[i]).scaled_balance != 0
            && positions[i].balance_type == side
}

fn side_in(user: &User, side: BalanceType) -> (r: bool)
    ensures
        r == has_side(user.spot_positions@, side),
{
    let n = user.spot_positions.len();
    let mut i: usize = 0;
    while i < n
        invariant
            i <= n,
            n == user.spot_positions@.len(),
            forall|j: int|
                0 <= j < i ==> !((#[trigger] user.spot_positions@[j]).scaled_balance != 0
                    && user.spot_positions@[j].balance_type == side),
        decreases n - i,
    {
        let p = user.spot_positions[i];
        if p.scaled_balance != 0 && p.balance_type == side {
            assert(user.spot_positions@[i as int].scaled_balance != 0);
            return true;
        }
        i = i + 1;
    }
    false
}

/// Loans need deposits or a flag, and bankruptcy a flag.
pub open spec fn flags_report(user: Option<User>, i: int) -> Seq<Breach> {
    match user {
        Some(u) => breach(
            has_side(u.spot_positions@, BalanceType::Borrow) && !has_side(
                u.spot_positions@,
                BalanceType::Deposit,
            ) && !u.being_liquidated,
            Breach::BorrowWithoutCollateral { user: i as usize },
        ) + breach(
            u.bankrupt && !u.being_liquidated,
            Breach::BankruptUnflagged { user: i as usize },
        ),
        None => Seq::empty(),
    }
}

pub open spec fn all_flags_report(users: Seq<Option<User>>, n: int) -> Seq<Breach>
    decreases n,
{
    if n <= 0 {
        Seq::empty()
    } else {
        all_flags_report(users, n - 1) + flags_report(users[n - 1], n - 1)
    }
}

pub fn check_no_unflagged_underwater(out: &mut Vec<Breach>, s: &Snapshot)
    ensures
        final(out)@ == old(out)@ + all_flags_report(s.users@, s.users@.len() as int),
{
    let mut i: usize = 0;
    assert(out@ =~= out@ + all_flags_report(s.users@, 0));
    while i < s.users.len()
        invariant
            i <= s.users@.len(),
            out@ == old(out)@ + all_flags_report(s.users@, i as int),
        decreases s.users@.len() - i,
    {
        let ghost before = out@;
        if let Some(u) = &s.users[i] {
            let borrows = side_in(u, BalanceType::Borrow);
            let deposits = side_in(u, BalanceType::Deposit);
            report(
                out,
                borrows && !deposits && !u.being_liquidated,
                Breach::BorrowWithoutCollateral { user: i },
            );
            report(
                out,
                u.bankrupt && !u.being_liquidated,
                Breach::BankruptUnflagged { user: i },
            );
        }
        assert(out@ =~= before + flags_report(s.users@[i as int], i as int));
        assert(old(out)@ + all_flags_report(s.users@, i as int) + flags_report(
            s.users@[i as int],
            i as int,
        ) =~= old(out)@ + all_flags_report(s.users@, i + 1));
        i = i + 1;
    }
}

pub open spec fn shares_report(s: Snapshot) -> Seq<Breach> {
    match s.spot {
        Some(m) => breach(
            m.user_shares > m.total_shares,
            Breach::SharesExceedSupply {
                user_shares: m.user_shares,
                total_shares: m.total_shares,
            },
        ) + breach(
            m.total_shares == 0 && m.user_shares > 0,
            Breach::SharesWithoutSupply { user_shares: m.user_shares },
        ),
        None => Seq::empty(),
    }
}

pub fn check_if_share_math(out: &mut Vec<Breach>, s: &Snapshot)
    ensures
        final(out)@ == old(out)@ + shares_report(*s),
{
    if let Some(m) = &s.spot {
        report(
            out,
            m.user_shares > m.total_shares,
            Breach::SharesExceedSupply {
                user_shares: m.user_shares,
                total_shares: m.total_shares,
            },
        );
        report(
            out,
            m.total_shares == 0 && m.user_shares > 0,
            Breach::SharesWithoutSupply { user_shares: m.user_shares },
        );
    }
}

/// Everything a sweep finds, in order.
pub open spec fn full_report(s: Snapshot) -> Seq<Breach> {
    solvency_report(s) + oi_report(s) + tranche_report(s) + breach(
        s.if_vault == 0,
        Breach::InsuranceDrained,
    ) + all_flags_report(s.users@, s.users@.len() as int) + shares_report(s)
}

/// Checks every invariant.
pub fn check_all_invariants(s: &Snapshot) -> (r: Vec<Breach>)
    requires
        s.fits(),
    ensures
        r@ == full_report(*s),
{
    let mut out: Vec<Breach> = Vec::new();
    check_solvency_and_conservation(&mut out, s);
    assert(out@ =~= solvency_report(*s));
    check_oi_conservation(&mut out, s);
    check_if_tranche_backed(&mut out, s);
    check_if_vault_not_overspent(&mut out, s);
    check_no_unflagged_underwater(&mut out, s);
    check_if_share_math(&mut out, s);
    out
}

/// A sweep that finds nothing vouches for every invariant: the vault covers what
/// it backs, open interest cancels, the tranche is backed, the insurance vault is
/// not empty, no loan or bankruptcy goes unflagged, and no share is unissued.
pub proof fn silence_means_sound(s: Snapshot)
    requires
        full_report(s) == Seq::<Breach>::empty(),
    ensures
        s.spot matches Some(m) ==> m.vault_accepted && s.vault >= backed(m, s.perp, s.users@)
            && m.user_shares <= m.total_shares,
        s.perp matches Some(p) ==> p.base_asset_amount_long + p.base_asset_amount_short
            == p.base_asset_amount_with_amm,
        s.spot is Some ==> (s.perp matches Some(p) ==> tranche(
            p.pending_if_fee,
            p.bankruptcy_if_floor,
        ) <= backing(p.pnl_pool_tokens, p.fee_pool_tokens)),
        s.if_vault > 0,
        forall|i: int|
            0 <= i < s.users@.len() ==> (#[trigger] s.users@[i] matches Some(u) ==> {
                &&& has_side(u.spot_positions@, BalanceType::Borrow) ==> has_side(
                    u.spot_positions@,
                    BalanceType::Deposit,
                ) || u.being_liquidated
                &&& u.bankrupt ==> u.being_liquidated
            }),
{
    let r1 = solvency_report(s);
    let r2 = oi_report(s);
    let r3 = tranche_report(s);
    let r4 = breach(s.if_vault == 0, Breach::InsuranceDrained);
    let r5 = all_flags_report(s.users@, s.users@.len() as int);
    let r6 = shares_report(s);
    assert(full_report(s).len() == r1.len() + r2.len() + r3.len() + r4.len() + r5.len()
        + r6.len());
    assert forall|i: int| 0 <= i < s.users@.len() implies (#[trigger] s.users@[i] matches Some(u)
        ==> {
        &&& has_side(u.spot_positions@, BalanceType::Borrow) ==> has_side(
            u.spot_positions@,
            BalanceType::Deposit,
        ) || u.being_liquidated
        &&& u.bankrupt ==> u.being_liquidated
    }) by {
        flags_are_clear(s.users@, s.users@.len() as int, i);
    }
}

proof fn flags_are_clear(users: Seq<Option<User>>, n: int, i: int)
    requires
        0 <= i < n <= users.len(),
        all_flags_report(users, n).len() == 0,
    ensures
        flags_report(users[i], i).len() == 0,
    decreases n,
{
    if i < n - 1 {
        flags_are_clear(users, n - 1, i);
    }
}

// ---------------------------------------------------------------------------
// Regressions
// ---------------------------------------------------------------------------

/// Whether the victim's loan was not resolved before its loss on the perp market.
pub fn regr_267_perp_before_spot(spot_resolution_worked: bool) -> (r: bool)
    ensures
        r == !spot_resolution_worked,
{
    !spot_resolution_worked
}

/// The fees and pools of the perp market, in tokens.
#[derive(Clone, Copy, PartialEq, Eq, Debug)]
pub struct TrancheState {
    pub pending_if_fee: u128,
    pub floor: u128,
    pub pnl_tokens: u128,
    pub fee_tokens: u128,
}

/// Whether a sweep of the fees left the floored tranche backed. A tranche that
/// was empty before has nothing to lose.
pub fn regr_255_floored_if_tranche(before: &TrancheState, after: &TrancheState) -> (r: bool)
    ensures
        r == (tranche(before.pending_if_fee, before.floor) == 0 || tranche(
            after.pending_if_fee,
            after.floor,
        ) <= backing(after.pnl_tokens, after.fee_tokens)),
{
    let empty = before.pending_if_fee == 0 || before.floor == 0;
    empty || tranche_is_backed(after.pending_if_fee, after.floor, after.pnl_tokens, after.fee_tokens)
}

/// Whether a liquidator whose equity breaker has tripped was barred.
pub fn regr_275_equity_floor_liq(liquidation_worked: bool) -> (r: bool)
    ensures
        r == !liquidation_worked,
{
    !liquidation_worked
}

/// A loss that outgrows every cover, so that a resolution must socialize some of
/// it.
pub const UNCOVERED_PERP_QUOTE: i64 = -50_000_000_000;

/// Whether a resolution that socialized a loss left the AMM, which has no side,
/// nothing to be paid. The resolution has to have worked and socialized
/// something, or nothing was shown.
pub fn regr_306_amm_phantom_funding(
    resolution_worked: bool,
    cumulative_funding_before: i128,
    cumulative_funding_after: i128,
    amm_funding_payment: i128,
) -> (r: bool)
    ensures
        r == (resolution_worked && cumulative_funding_after != cumulative_funding_before
            && amm_funding_payment == 0),
{
    resolution_worked && cumulative_funding_after != cumulative_funding_before
        && amm_funding_payment == 0
}

} // verus!
