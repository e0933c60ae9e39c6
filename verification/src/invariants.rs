//! The exchange's global invariants, as checks over a snapshot of its accounts.
//!
//! A check that compares against an earlier snapshot keeps what it needs in a
//! [`History`]. Each check reports what it finds as a [`Violation`]; a report
//! lists them in the order of the checks.

use vstd::prelude::*;
use crate::constants::{INITIAL_SOL, INITIAL_USDC, NUM_USERS, SEED_PER_VAULT_SOL, SEED_PER_VAULT_USDC};
use crate::keys::{pda2, Pubkey};
use crate::model::{
    find_perp_in, net_user_tokens_of, users_within_limits, BalanceType, MarketType, Order,
    OrderStatus, PerpMarket, PerpPosition, SpotMarket, SpotPosition, User, MAX_SLOTS,
};
use crate::wire::u16_bytes;

verus! {

/// A crank that anyone may turn.
#[derive(Clone, Copy, PartialEq, Eq, Structural, Debug)]
pub enum Crank {
    UpdateFundingRate,
    SettleFundingPayment,
}

/// A liquidation that the exchange refused.
#[derive(Clone, Copy, PartialEq, Eq, Structural, Debug)]
pub enum Refusal {
    LiquidateSpot,
}

/// The markets of a scenario.
#[derive(Clone, Copy, PartialEq, Eq, Structural, Debug)]
pub enum Market {
    Spot0,
    Spot1,
    Pool1A,
    Pool1B,
    Perp,
}

/// The tokens of a scenario.
#[derive(Clone, Copy, PartialEq, Eq, Structural, Debug)]
pub enum Mint {
    Usdc,
    Sol,
}

/// A broken invariant. Users are named by their place in the snapshot.
#[derive(Clone, Copy, PartialEq, Eq, Debug)]
pub enum Violation {
    /// The exchange's own check rejects the vault, and not by the dust that
    /// repayments are known to leave.
    MarketInsolvent { market: Market, claim: i64, vault: u64 },
    /// The vault holds less than the claims it backs.
    ConservationBroken { market: Market, vault: u64, backed: i128 },
    /// Users hold more long base than the market records.
    LongsUnderstated { known: i128, recorded: i128 },
    /// Users hold more short base than the market records.
    ShortsUnderstated { known: i128, recorded: i128 },
    /// Stakers hold more insurance shares than exist.
    SharesExceedSupply { user_shares: u128, total_shares: u128 },
    /// The deposit index fell without a socialized loss.
    DepositIndexFell { market: Market, before: u128, now: u128 },
    /// The borrow index fell.
    BorrowIndexFell { market: Market, before: u128, now: u128 },
    /// Cranks failed although their preconditions held.
    CranksReverted { count: usize },
    /// Open interest is not what the AMM carries.
    OpenInterestMismatch { users: i128, amm: i128 },
    /// A borrow with no collateral, not flagged for liquidation.
    UnflaggedBorrow { user: usize },
    /// Freed margin is recorded outside a liquidation.
    StaleMarginFreed { user: usize, freed: u64 },
    /// The pools inside the quote market claim more than is deposited.
    PoolsUnbacked { claims: u128, deposits: u128 },
    /// Borrows exceed deposits.
    BadDebt { market: Market, shortfall: u128 },
    /// Borrows exceed deposits in tokens.
    NegativeClaim { market: Market, claim: i64 },
    /// Insolvent accounts were refused liquidation.
    LiquidationsRefused { count: usize },
    /// More tokens exist than were issued.
    TokensInflated { mint: Mint, counted: u128, issued: u128 },
    /// A reduce-only fill enlarged a position.
    ReduceOnlyGrew { user: usize, before: u64, now: u64 },
    /// Two open orders share an id.
    DuplicateOrderId { user: usize, order_id: u32 },
    /// An open order's id has not been issued yet.
    OrderIdAhead { user: usize, order_id: u32, next_order_id: u32 },
    /// A market's index does not derive its address.
    MarketMisplaced { market: Market },
    /// An account in liquidation grew its exposure.
    AtRiskExposureGrew { user: usize },
    /// The funding clock advanced without funding being applied.
    FundingDiscarded { before: i64, now: i64 },
}

/// Where the markets of a scenario live.
#[derive(Clone, Copy, PartialEq, Eq, Debug)]
pub struct MarketAddresses {
    pub program_id: Pubkey,
    pub spot_0: Pubkey,
    pub spot_1: Pubkey,
    pub pool1_a: Pubkey,
    pub pool1_b: Pubkey,
    pub perp: Pubkey,
}

/// The exchange's accounts at one moment. What could not be read is `None`.
#[derive(Debug)]
pub struct Snapshot {
    pub addresses: MarketAddresses,
    pub spot_0: Option<SpotMarket>,
    pub spot_1: Option<SpotMarket>,
    pub pool1_a: Option<SpotMarket>,
    pub pool1_b: Option<SpotMarket>,
    pub perp: Option<PerpMarket>,
    pub users: Vec<Option<User>>,
    pub vault_0: u64,
    pub vault_1: u64,
    pub if_vault_0: u64,
    pub if_vault_1: u64,
    pub pool1_vault_a: u64,
    pub pool1_vault_b: u64,
    /// Quote tokens in each user's wallet.
    pub usdc_wallets: Vec<u64>,
    /// Tokens of spot market 1 in each user's wallet.
    pub sol_wallets: Vec<u64>,
}

pub open spec fn spot_fits(market: Option<SpotMarket>) -> bool {
    market matches Some(m) ==> m.fits()
}

impl Snapshot {
    /// The accounts are of ordinary size: their amounts add up within the
    /// machine's integers.
    pub open spec fn fits(self) -> bool {
        &&& users_fit_at(self.users@)
        &&& spot_fits(self.spot_0)
        &&& spot_fits(self.spot_1)
        &&& self.perp matches Some(m) ==> m.fits()
        &&& self.usdc_wallets@.len() <= MAX_SLOTS
        &&& self.sol_wallets@.len() <= MAX_SLOTS
    }

    /// Decides [`Snapshot::fits`].
    pub fn within_limits(&self) -> (r: bool)
        ensures
            r == self.fits(),
    {
        let spots = (match &self.spot_0 {
            Some(m) => m.within_limits(),
            None => true,
        }) && (match &self.spot_1 {
            Some(m) => m.within_limits(),
            None => true,
        });
        let perp = match &self.perp {
            Some(m) => m.within_limits(),
            None => true,
        };
        users_within_limits(&self.users) && spots && perp && self.usdc_wallets.len() <= MAX_SLOTS
            && self.sol_wallets.len() <= MAX_SLOTS
    }
}

pub open spec fn users_fit_at(users: Seq<Option<User>>) -> bool {
    crate::model::users_fit(users)
}

/// The interest indices of a market, and the losses socialized so far.
#[derive(Clone, Copy, PartialEq, Eq, Debug)]
pub struct InterestSample {
    pub deposit_index: u128,
    pub borrow_index: u128,
    pub social_loss: u128,
}

/// A user's exposure in the perp market.
#[derive(Clone, Copy, PartialEq, Eq, Debug)]
pub struct Exposure {
    pub bids: i64,
    pub asks: i64,
    pub base: i64,
    pub at_risk: bool,
}

/// The perp market's funding rates and clock.
#[derive(Clone, Copy, PartialEq, Eq, Debug)]
pub struct FundingSample {
    pub long: i128,
    pub short: i128,
    pub ts: i64,
}

/// The size of a user's perp position, and what its reduce-only orders have
/// filled.
#[derive(Clone, Copy, PartialEq, Eq, Debug)]
pub struct ReduceOnlySample {
    pub position: u64,
    pub filled: u128,
}

/// What the checks remember between snapshots, and what the actions recorded
/// since the last one.
#[derive(Clone, Debug)]
pub struct History {
    pub interest_0: Option<InterestSample>,
    pub interest_1: Option<InterestSample>,
    pub exposure: Vec<Option<Exposure>>,
    pub reduce_only: Vec<Option<ReduceOnlySample>>,
    pub funding: Option<FundingSample>,
    pub crank_failures: Vec<Crank>,
    pub liq_refusals: Vec<Refusal>,
}

// ---------------------------------------------------------------------------
// Reporting
// ---------------------------------------------------------------------------

/// The report of a single finding.
pub open spec fn finding(found: bool, violation: Violation) -> Seq<Violation> {
    if found {
        seq![violation]
    } else {
        Seq::empty()
    }
}

fn report(out: &mut Vec<Violation>, found: bool, violation: Violation)
    ensures
        final(out)@ == old(out)@ + finding(found, violation),
{
    if found {
        out.push(violation);
    }
    assert(out@ =~= old(out)@ + finding(found, violation));
}

// ---------------------------------------------------------------------------
// Solvency and conservation of the spot markets
// ---------------------------------------------------------------------------

/// How far a repayment may leave the books behind the vault: each one rounds a
/// unit in the borrower's favour, and a run has fewer actions than this.
pub const REPAY_ROUNDING_SLACK: u8 = 16;

/// Market 1 is insolvent when the exchange rejects its vault by anything but
/// the known dust.
pub open spec fn market_1_insolvent(m: SpotMarket, vault: u64) -> bool {
    !m.vault_accepted && !(0 < m.depositors_claim - vault <= REPAY_ROUNDING_SLACK)
}

/// What market 1's vault has to cover: the net claim of the users and the
/// market's own pools.
pub open spec fn backed_1(m: SpotMarket, users: Seq<Option<User>>) -> int {
    crate::model::net_user_tokens(users, 1) + m.revenue_pool_tokens + m.protocol_fee_pool_tokens
}

pub open spec fn market_1_report(
    market: Option<SpotMarket>,
    vault: u64,
    users: Seq<Option<User>>,
) -> Seq<Violation> {
    match market {
        Some(m) => finding(
            market_1_insolvent(m, vault),
            Violation::MarketInsolvent {
                market: Market::Spot1,
                claim: m.depositors_claim,
                vault,
            },
        ) + finding(
            backed_1(m, users) - vault > REPAY_ROUNDING_SLACK,
            Violation::ConservationBroken {
                market: Market::Spot1,
                vault,
                backed: backed_1(m, users) as i128,
            },
        ),
        None => Seq::empty(),
    }
}

pub fn check_market_1(
    out: &mut Vec<Violation>,
    market: &Option<SpotMarket>,
    vault: u64,
    users: &Vec<Option<User>>,
)
    requires
        users_fit_at(users@),
        spot_fits(*market),
    ensures
        final(out)@ == old(out)@ + market_1_report(*market, vault, users@),
{
    if let Some(m) = market {
        let gap: i128 = m.depositors_claim as i128 - vault as i128;
        let dust = gap > 0 && gap <= REPAY_ROUNDING_SLACK as i128;
        report(
            out,
            !m.vault_accepted && !dust,
            Violation::MarketInsolvent { market: Market::Spot1, claim: m.depositors_claim, vault },
        );
        let net: i128 = net_user_tokens_of(users, 1);
        let backed: i128 = net + m.revenue_pool_tokens as i128 + m.protocol_fee_pool_tokens as i128;
        report(
            out,
            backed - vault as i128 > REPAY_ROUNDING_SLACK as i128,
            Violation::ConservationBroken { market: Market::Spot1, vault, backed },
        );
    }
}

/// What the quote vault has to cover: the net claim of the users, the market's
/// revenue pool and the perp market's pools.
pub open spec fn backed_0(
    m: SpotMarket,
    perp: Option<PerpMarket>,
    users: Seq<Option<User>>,
) -> int {
    crate::model::net_user_tokens(users, 0) + m.revenue_pool_tokens + match perp {
        Some(p) => p.pnl_pool_tokens + p.fee_pool_tokens,
        None => 0,
    }
}

pub open spec fn market_0_report(
    market: Option<SpotMarket>,
    perp: Option<PerpMarket>,
    vault: u64,
    users: Seq<Option<User>>,
) -> Seq<Violation> {
    match market {
        Some(m) => finding(
            !m.vault_accepted,
            Violation::MarketInsolvent {
                market: Market::Spot0,
                claim: m.depositors_claim,
                vault,
            },
        ) + finding(
            vault < backed_0(m, perp, users),
            Violation::ConservationBroken {
                market: Market::Spot0,
                vault,
                backed: backed_0(m, perp, users) as i128,
            },
        ),
        None => Seq::empty(),
    }
}

pub fn check_market_0(
    out: &mut Vec<Violation>,
    market: &Option<SpotMarket>,
    perp: &Option<PerpMarket>,
    vault: u64,
    users: &Vec<Option<User>>,
)
    requires
        users_fit_at(users@),
        spot_fits(*market),
        perp matches Some(p) ==> p.fits(),
    ensures
        final(out)@ == old(out)@ + market_0_report(*market, *perp, vault, users@),
{
    if let Some(m) = market {
        report(
            out,
            !m.vault_accepted,
            Violation::MarketInsolvent { market: Market::Spot0, claim: m.depositors_claim, vault },
        );
        let net: i128 = net_user_tokens_of(users, 0);
        let pools: i128 = match perp {
            Some(p) => p.pnl_pool_tokens as i128 + p.fee_pool_tokens as i128,
            None => 0,
        };
        let backed: i128 = net + m.revenue_pool_tokens as i128 + pools;
        report(
            out,
            (vault as i128) < backed,
            Violation::ConservationBroken { market: Market::Spot0, vault, backed },
        );
    }
}

// ---------------------------------------------------------------------------
// Aggregates against the positions they summarise
// ---------------------------------------------------------------------------

/// The long base of positions in the perp market.
pub open spec fn long_base(positions: Seq<PerpPosition>) -> int
    decreases positions.len(),
{
    if positions.len() == 0 {
        0
    } else {
        let p = positions.last();
        long_base(positions.drop_last()) + if p.market_index == 0 && p.base_asset_amount > 0 {
            p.base_asset_amount as int
        } else {
            0
        }
    }
}

/// The short base of positions in the perp market, never positive.
pub open spec fn short_base(positions: Seq<PerpPosition>) -> int
    decreases positions.len(),
{
    if positions.len() == 0 {
        0
    } else {
        let p = positions.last();
        short_base(positions.drop_last()) + if p.market_index == 0 && p.base_asset_amount <= 0 {
            p.base_asset_amount as int
        } else {
            0
        }
    }
}

/// The long base of the users that could be read.
pub open spec fn known_longs(users: Seq<Option<User>>) -> int
    decreases users.len(),
{
    if users.len() == 0 {
        0
    } else {
        known_longs(users.drop_last()) + match users.last() {
            Some(u) => long_base(u.perp_positions@),
            None => 0,
        }
    }
}

/// The short base of the users that could be read.
pub open spec fn known_shorts(users: Seq<Option<User>>) -> int
    decreases users.len(),
{
    if users.len() == 0 {
        0
    } else {
        known_shorts(users.drop_last()) + match users.last() {
            Some(u) => short_base(u.perp_positions@),
            None => 0,
        }
    }
}

/// No account's base sums leave this range.
const MAX_USER_BASE: i128 = 0x200_0000_0000_0000_0000;

fn user_base(user: &User) -> (r: (i128, i128))
    requires
        user.fits(),
    ensures
        r.0 == long_base(user.perp_positions@),
        r.1 == short_base(user.perp_positions@),
        0 <= r.0 <= MAX_USER_BASE,
        -MAX_USER_BASE <= r.1 <= 0,
{
    let positions = &user.perp_positions;
    let mut long: i128 = 0;
    let mut short: i128 = 0;
    let mut i: usize = 0;
    assert(positions@.take(0) =~= Seq::empty());
    while i < positions.len()
        invariant
            i <= positions@.len() <= MAX_SLOTS,
            long == long_base(positions@.take(i as int)),
            short == short_base(positions@.take(i as int)),
            0 <= long <= i * 0x8000_0000_0000_0000,
            -(i * 0x8000_0000_0000_0000) <= short <= 0,
        decreases positions@.len() - i,
    {
        let p = positions[i];
        assert(positions@.take(i + 1).drop_last() =~= positions@.take(i as int));
        assert(positions@.take(i + 1).last() == p);
        if p.market_index == 0 {
            if p.base_asset_amount > 0 {
                long = long + p.base_asset_amount as i128;
            } else {
                short = short + p.base_asset_amount as i128;
            }
        }
        i = i + 1;
    }
    assert(positions@.take(i as int) =~= positions@);
    (long, short)
}

pub open spec fn perp_aggregate_report(
    perp: Option<PerpMarket>,
    users: Seq<Option<User>>,
) -> Seq<Violation> {
    match perp {
        Some(m) => finding(
            known_longs(users) > m.base_asset_amount_long,
            Violation::LongsUnderstated {
                known: known_longs(users) as i128,
                recorded: m.base_asset_amount_long,
            },
        ) + finding(
            known_shorts(users) < m.base_asset_amount_short,
            Violation::ShortsUnderstated {
                known: known_shorts(users) as i128,
                recorded: m.base_asset_amount_short,
            },
        ),
        None => Seq::empty(),
    }
}

/// The positions of the known users never exceed what the market records. The
/// known users are some of its users, so the comparison is one-sided.
pub fn check_perp_aggregate(
    out: &mut Vec<Violation>,
    perp: &Option<PerpMarket>,
    users: &Vec<Option<User>>,
)
    requires
        users_fit_at(users@),
    ensures
        final(out)@ == old(out)@ + perp_aggregate_report(*perp, users@),
{
    if let Some(m) = perp {
        let mut long: i128 = 0;
        let mut short: i128 = 0;
        let mut i: usize = 0;
        assert(users@.take(0) =~= Seq::empty());
        while i < users.len()
            invariant
                users_fit_at(users@),
                i <= users@.len(),
                long == known_longs(users@.take(i as int)),
                short == known_shorts(users@.take(i as int)),
                0 <= long <= i * MAX_USER_BASE,
                -(i * MAX_USER_BASE) <= short <= 0,
            decreases users@.len() - i,
        {
            assert(users@.take(i + 1).drop_last() =~= users@.take(i as int));
            assert(users@.take(i + 1).last() == users@[i as int]);
            if let Some(u) = &users[i] {
                assert(users@[i as int]->0.fits());
                let (l, s) = user_base(u);
                long = long + l;
                short = short + s;
            }
            i = i + 1;
        }
        assert(users@.take(i as int) =~= users@);
        report(
            out,
            long > m.base_asset_amount_long,
            Violation::LongsUnderstated { known: long, recorded: m.base_asset_amount_long },
        );
        report(
            out,
            short < m.base_asset_amount_short,
            Violation::ShortsUnderstated { known: short, recorded: m.base_asset_amount_short },
        );
    }
}

pub open spec fn if_shares_report(market: Option<SpotMarket>) -> Seq<Violation> {
    match market {
        Some(m) => finding(
            m.user_shares > m.total_shares,
            Violation::SharesExceedSupply {
                user_shares: m.user_shares,
                total_shares: m.total_shares,
            },
        ),
        None => Seq::empty(),
    }
}

/// The insurance shares that are held never exceed the supply.
pub fn check_if_shares(out: &mut Vec<Violation>, market: &Option<SpotMarket>)
    ensures
        final(out)@ == old(out)@ + if_shares_report(*market),
{
    if let Some(m) = market {
        report(
            out,
            m.user_shares > m.total_shares,
            Violation::SharesExceedSupply {
                user_shares: m.user_shares,
                total_shares: m.total_shares,
            },
        );
    }
}

// ---------------------------------------------------------------------------
// Interest indices
// ---------------------------------------------------------------------------

pub open spec fn interest_sample(m: SpotMarket) -> InterestSample {
    InterestSample {
        deposit_index: m.cumulative_deposit_interest,
        borrow_index: m.cumulative_borrow_interest,
        social_loss: m.total_social_loss,
    }
}

/// A deposit index falls lawfully only in a step that socializes a loss.
pub open spec fn deposit_index_fell(prev: InterestSample, now: InterestSample) -> bool {
    now.deposit_index < prev.deposit_index && now.social_loss <= prev.social_loss
}

/// A borrow index never falls.
pub open spec fn borrow_index_fell(prev: InterestSample, now: InterestSample) -> bool {
    now.borrow_index < prev.borrow_index
}

pub open spec fn interest_report(
    prev: Option<InterestSample>,
    id: Market,
    market: Option<SpotMarket>,
) -> Seq<Violation> {
    match (prev, market) {
        (Some(p), Some(m)) => finding(
            deposit_index_fell(p, interest_sample(m)),
            Violation::DepositIndexFell {
                market: id,
                before: p.deposit_index,
                now: m.cumulative_deposit_interest,
            },
        ) + finding(
            borrow_index_fell(p, interest_sample(m)),
            Violation::BorrowIndexFell {
                market: id,
                before: p.borrow_index,
                now: m.cumulative_borrow_interest,
            },
        ),
        _ => Seq::empty(),
    }
}

/// What is remembered after a market was looked at.
pub open spec fn interest_after(
    prev: Option<InterestSample>,
    market: Option<SpotMarket>,
) -> Option<InterestSample> {
    match market {
        Some(m) => Some(interest_sample(m)),
        None => prev,
    }
}

/// Interest only accrues, except that resolving a bankruptcy may take a loss
/// out of the deposit index. The first sample is never compared.
pub fn check_interest(
    out: &mut Vec<Violation>,
    prev: &Option<InterestSample>,
    id: Market,
    market: &Option<SpotMarket>,
) -> (next: Option<InterestSample>)
    ensures
        final(out)@ == old(out)@ + interest_report(*prev, id, *market),
        next == interest_after(*prev, *market),
{
    match market {
        Some(m) => {
            if let Some(p) = prev {
                report(
                    out,
                    m.cumulative_deposit_interest < p.deposit_index && m.total_social_loss
                        <= p.social_loss,
                    Violation::DepositIndexFell {
                        market: id,
                        before: p.deposit_index,
                        now: m.cumulative_deposit_interest,
                    },
                );
                report(
                    out,
                    m.cumulative_borrow_interest < p.borrow_index,
                    Violation::BorrowIndexFell {
                        market: id,
                        before: p.borrow_index,
                        now: m.cumulative_borrow_interest,
                    },
                );
            }
            Some(
                InterestSample {
                    deposit_index: m.cumulative_deposit_interest,
                    borrow_index: m.cumulative_borrow_interest,
                    social_loss: m.total_social_loss,
                },
            )
        },
        None => *prev,
    }
}

// ---------------------------------------------------------------------------
// Open interest
// ---------------------------------------------------------------------------

pub open spec fn open_interest_report(perp: Option<PerpMarket>) -> Seq<Violation> {
    match perp {
        Some(m) => finding(
            m.base_asset_amount_long + m.base_asset_amount_short != m.base_asset_amount_with_amm,
            Violation::OpenInterestMismatch {
                users: (m.base_asset_amount_long + m.base_asset_amount_short) as i128,
                amm: m.base_asset_amount_with_amm,
            },
        ),
        None => Seq::empty(),
    }
}

/// Longs and shorts net out to what the AMM carries.
pub fn check_open_interest(out: &mut Vec<Violation>, perp: &Option<PerpMarket>)
    requires
        perp matches Some(m) ==> m.fits(),
    ensures
        final(out)@ == old(out)@ + open_interest_report(*perp),
{
    if let Some(m) = perp {
        let net: i128 = m.base_asset_amount_long + m.base_asset_amount_short;
        report(
            out,
            net != m.base_asset_amount_with_amm,
            Violation::OpenInterestMismatch { users: net, amm: m.base_asset_amount_with_amm },
        );
    }
}

// ---------------------------------------------------------------------------
// Liquidation flags
// ---------------------------------------------------------------------------

pub open spec fn has_balance(positions: Seq<SpotPosition>, side: BalanceType) -> bool {
    exists|i: int|
        0 <= i < positions.len() && (#[trigger] positions[i]).scaled_balance != 0
            && positions[i].balance_type == side
}

pub open spec fn has_isolated_collateral(positions: Seq<PerpPosition>) -> bool {
    exists|i: int|
        0 <= i < positions.len() && (#[trigger] positions[i]).isolated_position_scaled_balance != 0
}

/// A borrow with no collateral anywhere on an account that is not flagged.
/// Margin inside an isolated position is collateral too.
pub open spec fn unflagged_borrow(u: User) -> bool {
    &&& has_balance(u.spot_positions@, BalanceType::Borrow)
    &&& !has_balance(u.spot_positions@, BalanceType::Deposit)
    &&& !u.being_liquidated
    &&& !has_isolated_collateral(u.perp_positions@)
}

/// Freed margin only means something while a liquidation runs.
pub open spec fn stale_margin_freed(u: User) -> bool {
    u.liquidation_margin_freed > 0 && !u.being_liquidated
}

/// Whether any balance is on the given side.
pub fn any_balance(positions: &Vec<SpotPosition>, side: BalanceType) -> (r: bool)
    ensures
        r == has_balance(positions@, side),
{
    let mut i: usize = 0;
    while i < positions.len()
        invariant
            i <= positions@.len(),
            forall|j: int|
                0 <= j < i ==> !((#[trigger] positions@[j]).scaled_balance != 0
                    && positions@[j].balance_type == side),
        decreases positions@.len() - i,
    {
        if positions[i].scaled_balance != 0 && positions[i].balance_type == side {
            return true;
        }
        i = i + 1;
    }
    false
}

/// Whether any perp position holds margin of its own.
pub fn any_isolated_collateral(positions: &Vec<PerpPosition>) -> (r: bool)
    ensures
        r == has_isolated_collateral(positions@),
{
    let mut i: usize = 0;
    while i < positions.len()
        invariant
            i <= positions@.len(),
            forall|j: int|
                0 <= j < i ==> (#[trigger] positions@[j]).isolated_position_scaled_balance == 0,
        decreases positions@.len() - i,
    {
        if positions[i].isolated_position_scaled_balance != 0 {
            return true;
        }
        i = i + 1;
    }
    false
}

pub open spec fn flags_report_of(user: Option<User>, index: int) -> Seq<Violation> {
    match user {
        Some(u) => finding(unflagged_borrow(u), Violation::UnflaggedBorrow { user: index as usize })
            + finding(
            stale_margin_freed(u),
            Violation::StaleMarginFreed {
                user: index as usize,
                freed: u.liquidation_margin_freed,
            },
        ),
        None => Seq::empty(),
    }
}

pub open spec fn flags_report(users: Seq<Option<User>>, n: nat) -> Seq<Violation>
    decreases n,
{
    if n == 0 {
        Seq::empty()
    } else {
        flags_report(users, (n - 1) as nat) + flags_report_of(users[n - 1], n - 1)
    }
}

/// No account is left with a naked borrow unflagged, and none carries freed
/// margin outside a liquidation.
pub fn check_flags(out: &mut Vec<Violation>, users: &Vec<Option<User>>)
    ensures
        final(out)@ == old(out)@ + flags_report(users@, users@.len()),
{
    let mut i: usize = 0;
    while i < users.len()
        invariant
            i <= users@.len(),
            out@ == old(out)@ + flags_report(users@, i as nat),
        decreases users@.len() - i,
    {
        let ghost before = out@;
        if let Some(u) = &users[i] {
            let naked = any_balance(&u.spot_positions, BalanceType::Borrow) && !any_balance(
                &u.spot_positions,
                BalanceType::Deposit,
            ) && !u.being_liquidated && !any_isolated_collateral(&u.perp_positions);
            report(out, naked, Violation::UnflaggedBorrow { user: i });
            report(
                out,
                u.liquidation_margin_freed > 0 && !u.being_liquidated,
                Violation::StaleMarginFreed { user: i, freed: u.liquidation_margin_freed },
            );
        }
        assert(out@ =~= before + flags_report_of(users@[i as int], i as int));
        i = i + 1;
        assert(out@ =~= old(out)@ + flags_report(users@, i as nat));
    }
}

// ---------------------------------------------------------------------------
// Bad debt
// ---------------------------------------------------------------------------

/// What the pools inside the quote market claim of it.
pub open spec fn pool_claims(m: SpotMarket, p: PerpMarket) -> int {
    m.revenue_pool_tokens + m.protocol_fee_pool_tokens + p.pnl_pool_tokens
        + p.protocol_fee_pool_tokens
}

pub open spec fn pools_report(
    market: Option<SpotMarket>,
    perp: Option<PerpMarket>,
) -> Seq<Violation> {
    match (market, perp) {
        (Some(m), Some(p)) => finding(
            pool_claims(m, p) > m.deposit_tokens,
            Violation::PoolsUnbacked {
                claims: pool_claims(m, p) as u128,
                deposits: m.deposit_tokens,
            },
        ),
        _ => Seq::empty(),
    }
}

/// Every pool inside the quote market is backed by its deposits.
pub fn check_pools(
    out: &mut Vec<Violation>,
    market: &Option<SpotMarket>,
    perp: &Option<PerpMarket>,
)
    requires
        spot_fits(*market),
        perp matches Some(p) ==> p.fits(),
    ensures
        final(out)@ == old(out)@ + pools_report(*market, *perp),
{
    if let (Some(m), Some(p)) = (market, perp) {
        let claims: u128 = m.revenue_pool_tokens.saturating_add(
            m.protocol_fee_pool_tokens,
        ).saturating_add(p.pnl_pool_tokens).saturating_add(p.protocol_fee_pool_tokens);
        report(
            out,
            claims > m.deposit_tokens,
            Violation::PoolsUnbacked { claims, deposits: m.deposit_tokens },
        );
    }
}

/// How far the borrows of a market exceed its deposits.
pub open spec fn debt_shortfall(m: SpotMarket) -> int {
    if m.borrow_balance > m.deposit_balance {
        m.borrow_balance - m.deposit_balance
    } else {
        0
    }
}

pub open spec fn bad_debt_report(
    id: Market,
    market: Option<SpotMarket>,
    check_claim: bool,
) -> Seq<Violation> {
    match market {
        Some(m) => finding(
            debt_shortfall(m) > REPAY_ROUNDING_SLACK,
            Violation::BadDebt { market: id, shortfall: debt_shortfall(m) as u128 },
        ) + finding(
            check_claim && m.depositors_claim < -REPAY_ROUNDING_SLACK,
            Violation::NegativeClaim { market: id, claim: m.depositors_claim },
        ),
        None => Seq::empty(),
    }
}

/// Borrows stay backed by deposits, up to the known dust; where asked, in
/// tokens as well as in scaled balances.
pub fn check_bad_debt(
    out: &mut Vec<Violation>,
    id: Market,
    market: &Option<SpotMarket>,
    check_claim: bool,
)
    ensures
        final(out)@ == old(out)@ + bad_debt_report(id, *market, check_claim),
{
    if let Some(m) = market {
        let shortfall: u128 = m.borrow_balance.saturating_sub(m.deposit_balance);
        report(
            out,
            shortfall > REPAY_ROUNDING_SLACK as u128,
            Violation::BadDebt { market: id, shortfall },
        );
        report(
            out,
            check_claim && m.depositors_claim < -(REPAY_ROUNDING_SLACK as i64),
            Violation::NegativeClaim { market: id, claim: m.depositors_claim },
        );
    }
}

/// The bad-debt check over every spot market. The markets of the second pool
/// have no vault check of their own, so theirs includes the token form.
pub open spec fn all_bad_debt_report(s: Snapshot) -> Seq<Violation> {
    bad_debt_report(Market::Spot0, s.spot_0, false) + bad_debt_report(
        Market::Spot1,
        s.spot_1,
        false,
    ) + bad_debt_report(Market::Pool1A, s.pool1_a, true) + bad_debt_report(
        Market::Pool1B,
        s.pool1_b,
        true,
    )
}

// ---------------------------------------------------------------------------
// Token issuance
// ---------------------------------------------------------------------------

pub open spec fn sum_u64(amounts: Seq<u64>) -> int
    decreases amounts.len(),
{
    if amounts.len() == 0 {
        0
    } else {
        sum_u64(amounts.drop_last()) + amounts.last()
    }
}

fn total(amounts: &Vec<u64>) -> (r: u128)
    requires
        amounts@.len() <= MAX_SLOTS,
    ensures
        r == sum_u64(amounts@),
        r <= 0x40_0000_0000_0000_0000,
{
    let mut sum: u128 = 0;
    let mut i: usize = 0;
    assert(amounts@.take(0) =~= Seq::empty());
    while i < amounts.len()
        invariant
            i <= amounts@.len() <= MAX_SLOTS,
            sum == sum_u64(amounts@.take(i as int)),
            sum <= i * 0x1_0000_0000_0000_0000,
        decreases amounts@.len() - i,
    {
        assert(amounts@.take(i + 1).drop_last() =~= amounts@.take(i as int));
        sum = sum + amounts[i] as u128;
        i = i + 1;
    }
    assert(amounts@.take(i as int) =~= amounts@);
    sum
}

/// Quote tokens issued in a scenario: the wallets, spot vault 0 and its mirror.
pub open spec fn issued_usdc() -> int {
    NUM_USERS * INITIAL_USDC + 2 * SEED_PER_VAULT_USDC
}

/// Tokens of spot market 1 issued in a scenario: the wallets and the mirror of
/// its vault.
pub open spec fn issued_sol() -> int {
    NUM_USERS * INITIAL_SOL + SEED_PER_VAULT_SOL
}

/// Quote tokens in the accounts of a scenario.
pub open spec fn counted_usdc(s: Snapshot) -> int {
    sum_u64(s.usdc_wallets@) + s.vault_0 + s.if_vault_0 + s.pool1_vault_a
}

/// Tokens of spot market 1 in the accounts of a scenario.
pub open spec fn counted_sol(s: Snapshot) -> int {
    sum_u64(s.sol_wallets@) + s.vault_1 + s.if_vault_1 + s.pool1_vault_b
}

pub open spec fn issuance_report(s: Snapshot) -> Seq<Violation> {
    finding(
        counted_usdc(s) > issued_usdc(),
        Violation::TokensInflated {
            mint: Mint::Usdc,
            counted: counted_usdc(s) as u128,
            issued: issued_usdc() as u128,
        },
    ) + finding(
        counted_sol(s) > issued_sol(),
        Violation::TokensInflated {
            mint: Mint::Sol,
            counted: counted_sol(s) as u128,
            issued: issued_sol() as u128,
        },
    )
}

/// No account of the scenario holds tokens that were never issued. Tokens may
/// leave the counted accounts as withdrawn fees, so the check is one-sided.
pub fn check_issuance(out: &mut Vec<Violation>, s: &Snapshot)
    requires
        s.fits(),
    ensures
        final(out)@ == old(out)@ + issuance_report(*s),
{
    let usdc: u128 = total(&s.usdc_wallets) + s.vault_0 as u128 + s.if_vault_0 as u128
        + s.pool1_vault_a as u128;
    let sol: u128 = total(&s.sol_wallets) + s.vault_1 as u128 + s.if_vault_1 as u128
        + s.pool1_vault_b as u128;
    let users: u128 = NUM_USERS as u128;
    assert(users * INITIAL_USDC == 2 * INITIAL_USDC && users * INITIAL_SOL == 2 * INITIAL_SOL)
        by (nonlinear_arith)
        requires
            users == 2,
    ;
    let issued_u: u128 = users * INITIAL_USDC as u128 + 2 * SEED_PER_VAULT_USDC as u128;
    let issued_s: u128 = users * INITIAL_SOL as u128 + SEED_PER_VAULT_SOL as u128;
    report(
        out,
        usdc > issued_u,
        Violation::TokensInflated { mint: Mint::Usdc, counted: usdc, issued: issued_u },
    );
    report(
        out,
        sol > issued_s,
        Violation::TokensInflated { mint: Mint::Sol, counted: sol, issued: issued_s },
    );
}

// ---------------------------------------------------------------------------
// Reduce-only orders
// ---------------------------------------------------------------------------

pub open spec fn magnitude(v: i64) -> int {
    if v < 0 {
        -(v as int)
    } else {
        v as int
    }
}

pub open spec fn is_perp_0(o: Order) -> bool {
    o.market_type == MarketType::Perp && o.market_index == 0
}

/// What reduce-only orders of the perp market have filled.
pub open spec fn reduce_only_filled(orders: Seq<Order>) -> int
    decreases orders.len(),
{
    if orders.len() == 0 {
        0
    } else {
        let o = orders.last();
        reduce_only_filled(orders.drop_last()) + if o.reduce_only && is_perp_0(o) {
            o.base_asset_amount_filled as int
        } else {
            0
        }
    }
}

/// Whether an open order could have grown the position lawfully.
pub open spec fn has_plain_open_order(orders: Seq<Order>) -> bool {
    exists|i: int|
        0 <= i < orders.len() && (#[trigger] orders[i]).status == OrderStatus::Open
            && !orders[i].reduce_only && is_perp_0(orders[i])
}

/// The sample of a user, where it has a position in the perp market.
pub open spec fn reduce_only_sample(user: Option<User>) -> Option<ReduceOnlySample> {
    match user {
        Some(u) => match crate::model::find_perp(u.perp_positions@, 0) {
            Some(p) => Some(
                ReduceOnlySample {
                    position: magnitude(p.base_asset_amount) as u64,
                    filled: reduce_only_filled(u.orders@) as u128,
                },
            ),
            None => None,
        },
        None => None,
    }
}

/// A reduce-only fill coincided with a growing position, and no other open
/// order can have caused it.
pub open spec fn reduce_only_grew(
    prev: ReduceOnlySample,
    now: ReduceOnlySample,
    orders: Seq<Order>,
) -> bool {
    &&& !has_plain_open_order(orders)
    &&& now.filled > prev.filled
    &&& now.position > prev.position
}

pub open spec fn reduce_only_report_of(
    prev: Option<ReduceOnlySample>,
    user: Option<User>,
    index: int,
) -> Seq<Violation> {
    match (prev, reduce_only_sample(user)) {
        (Some(p), Some(n)) => finding(
            reduce_only_grew(p, n, user->0.orders@),
            Violation::ReduceOnlyGrew {
                user: index as usize,
                before: p.position,
                now: n.position,
            },
        ),
        _ => Seq::empty(),
    }
}

pub open spec fn reduce_only_report(
    prev: Seq<Option<ReduceOnlySample>>,
    users: Seq<Option<User>>,
    n: nat,
) -> Seq<Violation>
    decreases n,
{
    if n == 0 {
        Seq::empty()
    } else {
        reduce_only_report(prev, users, (n - 1) as nat) + reduce_only_report_of(
            prev[n - 1],
            users[n - 1],
            n - 1,
        )
    }
}

pub open spec fn reduce_only_samples(users: Seq<Option<User>>) -> Seq<Option<ReduceOnlySample>> {
    users.map_values(|u: Option<User>| reduce_only_sample(u))
}

fn size_of_position(v: i64) -> (r: u64)
    ensures
        r == magnitude(v),
{
    if v < 0 {
        (-(v as i128)) as u64
    } else {
        v as u64
    }
}

fn filled_by_reduce_only(orders: &Vec<Order>) -> (r: u128)
    requires
        orders@.len() <= MAX_SLOTS,
    ensures
        r == reduce_only_filled(orders@),
{
    let mut sum: u128 = 0;
    let mut i: usize = 0;
    assert(orders@.take(0) =~= Seq::empty());
    while i < orders.len()
        invariant
            i <= orders@.len() <= MAX_SLOTS,
            sum == reduce_only_filled(orders@.take(i as int)),
            sum <= i * 0x1_0000_0000_0000_0000,
        decreases orders@.len() - i,
    {
        let o = orders[i];
        assert(orders@.take(i + 1).drop_last() =~= orders@.take(i as int));
        assert(orders@.take(i + 1).last() == o);
        if o.reduce_only && o.market_type == MarketType::Perp && o.market_index == 0 {
            sum = sum + o.base_asset_amount_filled as u128;
        }
        i = i + 1;
    }
    assert(orders@.take(i as int) =~= orders@);
    sum
}

fn any_plain_open_order(orders: &Vec<Order>) -> (r: bool)
    ensures
        r == has_plain_open_order(orders@),
{
    let mut i: usize = 0;
    while i < orders.len()
        invariant
            i <= orders@.len(),
            forall|j: int|
                0 <= j < i ==> !((#[trigger] orders@[j]).status == OrderStatus::Open
                    && !orders@[j].reduce_only && is_perp_0(orders@[j])),
        decreases orders@.len() - i,
    {
        let o = orders[i];
        if o.status == OrderStatus::Open && !o.reduce_only && o.market_type == MarketType::Perp
            && o.market_index == 0 {
            assert(orders@[i as int] == o);
            return true;
        }
        i = i + 1;
    }
    false
}

fn sample_reduce_only(user: &Option<User>) -> (r: Option<ReduceOnlySample>)
    requires
        user matches Some(u) ==> u.fits(),
    ensures
        r == reduce_only_sample(*user),
{
    match user {
        Some(u) => match find_perp_in(&u.perp_positions, 0) {
            Some(p) => Some(
                ReduceOnlySample {
                    position: size_of_position(p.base_asset_amount),
                    filled: filled_by_reduce_only(&u.orders),
                },
            ),
            None => None,
        },
        None => None,
    }
}

/// A reduce-only fill never enlarges the position it reduces.
pub fn check_reduce_only(
    out: &mut Vec<Violation>,
    prev: &mut Vec<Option<ReduceOnlySample>>,
    users: &Vec<Option<User>>,
)
    requires
        users_fit_at(users@),
        old(prev)@.len() == users@.len(),
    ensures
        final(out)@ == old(out)@ + reduce_only_report(old(prev)@, users@, users@.len()),
        final(prev)@ == reduce_only_samples(users@),
{
    let mut i: usize = 0;
    while i < users.len()
        invariant
            users_fit_at(users@),
            i <= users@.len(),
            prev@.len() == users@.len(),
            old(prev)@.len() == users@.len(),
            out@ == old(out)@ + reduce_only_report(old(prev)@, users@, i as nat),
            forall|j: int| 0 <= j < i ==> #[trigger] prev@[j] == reduce_only_sample(users@[j]),
            forall|j: int| i <= j < users@.len() ==> #[trigger] prev@[j] == old(prev)@[j],
        decreases users@.len() - i,
    {
        let ghost before = out@;
        let user = &users[i];
        let now = sample_reduce_only(user);
        let past: Option<ReduceOnlySample> = prev[i];
        if let (Some(p), Some(n), Some(u)) = (past, now, user) {
            let grew = !any_plain_open_order(&u.orders) && n.filled > p.filled && n.position
                > p.position;
            report(
                out,
                grew,
                Violation::ReduceOnlyGrew { user: i, before: p.position, now: n.position },
            );
        }
        assert(past == old(prev)@[i as int]);
        assert(out@ =~= before + reduce_only_report_of(
            old(prev)@[i as int],
            users@[i as int],
            i as int,
        ));
        prev.set(i, now);
        i = i + 1;
        assert(out@ =~= old(out)@ + reduce_only_report(old(prev)@, users@, i as nat));
    }
    assert(prev@ =~= reduce_only_samples(users@));
}

// ---------------------------------------------------------------------------
// Order arrays
// ---------------------------------------------------------------------------

/// A later open order has the same id.
pub open spec fn id_repeats(orders: Seq<Order>, i: int) -> bool {
    exists|j: int|
        i < j < orders.len() && (#[trigger] orders[j]).status == OrderStatus::Open
            && orders[j].order_id == orders[i].order_id
}

pub open spec fn order_report_of(u: User, i: int, index: int) -> Seq<Violation> {
    let o = u.orders@[i];
    if o.status == OrderStatus::Open {
        finding(
            id_repeats(u.orders@, i),
            Violation::DuplicateOrderId { user: index as usize, order_id: o.order_id },
        ) + finding(
            o.order_id >= u.next_order_id,
            Violation::OrderIdAhead {
                user: index as usize,
                order_id: o.order_id,
                next_order_id: u.next_order_id,
            },
        )
    } else {
        Seq::empty()
    }
}

pub open spec fn orders_report_of(u: User, index: int, n: nat) -> Seq<Violation>
    decreases n,
{
    if n == 0 {
        Seq::empty()
    } else {
        orders_report_of(u, index, (n - 1) as nat) + order_report_of(u, n - 1, index)
    }
}

pub open spec fn orders_report(users: Seq<Option<User>>, n: nat) -> Seq<Violation>
    decreases n,
{
    if n == 0 {
        Seq::empty()
    } else {
        orders_report(users, (n - 1) as nat) + match users[n - 1] {
            Some(u) => orders_report_of(u, n - 1, u.orders@.len()),
            None => Seq::empty(),
        }
    }
}

fn repeats_later(orders: &Vec<Order>, i: usize) -> (r: bool)
    requires
        i < orders@.len(),
    ensures
        r == id_repeats(orders@, i as int),
{
    let n: usize = orders.len();
    let mut j: usize = i + 1;
    while j < n
        invariant
            n == orders@.len(),
            i < j <= n,
            forall|k: int|
                i < k < j ==> !((#[trigger] orders@[k]).status == OrderStatus::Open
                    && orders@[k].order_id == orders@[i as int].order_id),
        decreases orders@.len() - j,
    {
        if orders[j].status == OrderStatus::Open && orders[j].order_id == orders[i].order_id {
            return true;
        }
        j = j + 1;
    }
    false
}

fn check_orders_of(out: &mut Vec<Violation>, u: &User, index: usize)
    ensures
        final(out)@ == old(out)@ + orders_report_of(*u, index as int, u.orders@.len()),
{
    let mut i: usize = 0;
    while i < u.orders.len()
        invariant
            i <= u.orders@.len(),
            out@ == old(out)@ + orders_report_of(*u, index as int, i as nat),
        decreases u.orders@.len() - i,
    {
        let ghost before = out@;
        let o = u.orders[i];
        if o.status == OrderStatus::Open {
            report(
                out,
                repeats_later(&u.orders, i),
                Violation::DuplicateOrderId { user: index, order_id: o.order_id },
            );
            report(
                out,
                o.order_id >= u.next_order_id,
                Violation::OrderIdAhead {
                    user: index,
                    order_id: o.order_id,
                    next_order_id: u.next_order_id,
                },
            );
        }
        assert(out@ =~= before + order_report_of(*u, i as int, index as int));
        i = i + 1;
        assert(out@ =~= old(out)@ + orders_report_of(*u, index as int, i as nat));
    }
}

/// Open orders have ids of their own, all below the next one to be issued.
pub fn check_orders(out: &mut Vec<Violation>, users: &Vec<Option<User>>)
    ensures
        final(out)@ == old(out)@ + orders_report(users@, users@.len()),
{
    let mut i: usize = 0;
    while i < users.len()
        invariant
            i <= users@.len(),
            out@ == old(out)@ + orders_report(users@, i as nat),
        decreases users@.len() - i,
    {
        if let Some(u) = &users[i] {
            check_orders_of(out, u, i);
        }
        i = i + 1;
        assert(out@ =~= old(out)@ + orders_report(users@, i as nat));
    }
}

// ---------------------------------------------------------------------------
// Canonical addresses
// ---------------------------------------------------------------------------

/// The derivation gave the address.
pub open spec fn derives(derived: Option<(Pubkey, u8)>, address: Pubkey) -> bool {
    derived matches Some((key, _)) && key == address
}

/// Whether a derivation gave an address.
pub fn derives_address(derived: Option<(Pubkey, u8)>, address: Pubkey) -> (r: bool)
    ensures
        r == derives(derived, address),
{
    match derived {
        Some((key, _)) => key.same(&address),
        None => false,
    }
}

/// The address of a market, from its kind and index.
pub open spec fn market_address(tag: &str, market_index: u16, program_id: Pubkey) -> Option<
    (Pubkey, u8),
> {
    crate::keys::program_address(
        seq![crate::keys::text(tag), crate::wire::le(market_index as int, 2)],
        program_id,
    )
}

pub open spec fn placement_report(
    tag: &str,
    market_index: Option<u16>,
    id: Market,
    address: Pubkey,
    program_id: Pubkey,
) -> Seq<Violation> {
    match market_index {
        Some(index) => finding(
            !derives(market_address(tag, index, program_id), address),
            Violation::MarketMisplaced { market: id },
        ),
        None => Seq::empty(),
    }
}

/// The index that a market carries derives the address it lives at.
pub fn check_placement(
    out: &mut Vec<Violation>,
    tag: &str,
    market_index: Option<u16>,
    id: Market,
    address: Pubkey,
    program_id: Pubkey,
)
    ensures
        final(out)@ == old(out)@ + placement_report(tag, market_index, id, address, program_id),
{
    if let Some(index) = market_index {
        let derived = pda2(tag, u16_bytes(index), program_id);
        report(
            out,
            !derives_address(derived, address),
            Violation::MarketMisplaced { market: id },
        );
    }
}

pub open spec fn spot_index(market: Option<SpotMarket>) -> Option<u16> {
    match market {
        Some(m) => Some(m.market_index),
        None => None,
    }
}

fn index_of_spot(market: &Option<SpotMarket>) -> (r: Option<u16>)
    ensures
        r == spot_index(*market),
{
    match market {
        Some(m) => Some(m.market_index),
        None => None,
    }
}

pub open spec fn all_placement_report(s: Snapshot) -> Seq<Violation> {
    let a = s.addresses;
    placement_report("spot_market", spot_index(s.spot_0), Market::Spot0, a.spot_0, a.program_id)
        + placement_report(
        "spot_market",
        spot_index(s.spot_1),
        Market::Spot1,
        a.spot_1,
        a.program_id,
    ) + placement_report(
        "spot_market",
        spot_index(s.pool1_a),
        Market::Pool1A,
        a.pool1_a,
        a.program_id,
    ) + placement_report(
        "spot_market",
        spot_index(s.pool1_b),
        Market::Pool1B,
        a.pool1_b,
        a.program_id,
    ) + placement_report(
        "perp_market",
        match s.perp {
            Some(m) => Some(m.market_index),
            None => None,
        },
        Market::Perp,
        a.perp,
        a.program_id,
    )
}

fn check_all_placements(out: &mut Vec<Violation>, s: &Snapshot)
    ensures
        final(out)@ == old(out)@ + all_placement_report(*s),
{
    let a = s.addresses;
    let tag = "spot_market";
    check_placement(out, tag, index_of_spot(&s.spot_0), Market::Spot0, a.spot_0, a.program_id);
    check_placement(out, tag, index_of_spot(&s.spot_1), Market::Spot1, a.spot_1, a.program_id);
    check_placement(out, tag, index_of_spot(&s.pool1_a), Market::Pool1A, a.pool1_a, a.program_id);
    check_placement(out, tag, index_of_spot(&s.pool1_b), Market::Pool1B, a.pool1_b, a.program_id);
    let perp_index: Option<u16> = match &s.perp {
        Some(m) => Some(m.market_index),
        None => None,
    };
    check_placement(out, "perp_market", perp_index, Market::Perp, a.perp, a.program_id);
}

// ---------------------------------------------------------------------------
// Exposure of accounts in liquidation
// ---------------------------------------------------------------------------

pub open spec fn exposure_of(user: Option<User>) -> Option<Exposure> {
    match user {
        Some(u) => Some(
            match crate::model::find_perp(u.perp_positions@, 0) {
                Some(p) => Exposure {
                    bids: p.open_bids,
                    asks: p.open_asks,
                    base: p.base_asset_amount,
                    at_risk: u.being_liquidated,
                },
                None => Exposure { bids: 0, asks: 0, base: 0, at_risk: u.being_liquidated },
            },
        ),
        None => None,
    }
}

/// Orders that would enlarge the position grew on an account that was in
/// liquidation before and after. Asks are negative: they grow downwards.
pub open spec fn exposure_grew(prev: Exposure, now: Exposure) -> bool {
    &&& prev.at_risk && now.at_risk
    &&& (prev.base >= 0 && now.bids > prev.bids) || (prev.base <= 0 && now.asks < prev.asks)
}

pub open spec fn exposure_report_of(
    prev: Option<Exposure>,
    user: Option<User>,
    index: int,
) -> Seq<Violation> {
    match (prev, exposure_of(user)) {
        (Some(p), Some(n)) => finding(
            exposure_grew(p, n),
            Violation::AtRiskExposureGrew { user: index as usize },
        ),
        _ => Seq::empty(),
    }
}

pub open spec fn exposure_report(
    prev: Seq<Option<Exposure>>,
    users: Seq<Option<User>>,
    n: nat,
) -> Seq<Violation>
    decreases n,
{
    if n == 0 {
        Seq::empty()
    } else {
        exposure_report(prev, users, (n - 1) as nat) + exposure_report_of(
            prev[n - 1],
            users[n - 1],
            n - 1,
        )
    }
}

pub open spec fn exposures(users: Seq<Option<User>>) -> Seq<Option<Exposure>> {
    users.map_values(|u: Option<User>| exposure_of(u))
}

fn sample_exposure(user: &Option<User>) -> (r: Option<Exposure>)
    ensures
        r == exposure_of(*user),
{
    match user {
        Some(u) => Some(
            match find_perp_in(&u.perp_positions, 0) {
                Some(p) => Exposure {
                    bids: p.open_bids,
                    asks: p.open_asks,
                    base: p.base_asset_amount,
                    at_risk: u.being_liquidated,
                },
                None => Exposure { bids: 0, asks: 0, base: 0, at_risk: u.being_liquidated },
            },
        ),
        None => None,
    }
}

/// An account in liquidation does not add exposure.
pub fn check_exposure(
    out: &mut Vec<Violation>,
    prev: &mut Vec<Option<Exposure>>,
    users: &Vec<Option<User>>,
)
    requires
        old(prev)@.len() == users@.len(),
    ensures
        final(out)@ == old(out)@ + exposure_report(old(prev)@, users@, users@.len()),
        final(prev)@ == exposures(users@),
{
    let mut i: usize = 0;
    while i < users.len()
        invariant
            i <= users@.len(),
            prev@.len() == users@.len(),
            old(prev)@.len() == users@.len(),
            out@ == old(out)@ + exposure_report(old(prev)@, users@, i as nat),
            forall|j: int| 0 <= j < i ==> #[trigger] prev@[j] == exposure_of(users@[j]),
            forall|j: int| i <= j < users@.len() ==> #[trigger] prev@[j] == old(prev)@[j],
        decreases users@.len() - i,
    {
        let ghost before = out@;
        let now = sample_exposure(&users[i]);
        let past: Option<Exposure> = prev[i];
        if let (Some(p), Some(n)) = (past, now) {
            let grew = p.at_risk && n.at_risk && ((p.base >= 0 && n.bids > p.bids) || (p.base <= 0
                && n.asks < p.asks));
            report(out, grew, Violation::AtRiskExposureGrew { user: i });
        }
        assert(past == old(prev)@[i as int]);
        assert(out@ =~= before + exposure_report_of(
            old(prev)@[i as int],
            users@[i as int],
            i as int,
        ));
        prev.set(i, now);
        i = i + 1;
        assert(out@ =~= old(out)@ + exposure_report(old(prev)@, users@, i as nat));
    }
    assert(prev@ =~= exposures(users@));
}

// ---------------------------------------------------------------------------
// Funding
// ---------------------------------------------------------------------------

pub open spec fn funding_sample(m: PerpMarket) -> FundingSample {
    FundingSample {
        long: m.cumulative_funding_rate_long,
        short: m.cumulative_funding_rate_short,
        ts: m.last_funding_rate_ts,
    }
}

/// The clock moved by a period on a market with open interest and a nonzero
/// rate, and neither cumulative rate moved.
pub open spec fn funding_discarded(prev: FundingSample, m: PerpMarket) -> bool {
    let period = if m.funding_period > 1 {
        m.funding_period as int
    } else {
        1
    };
    &&& m.last_funding_rate_ts - prev.ts >= period
    &&& m.base_asset_amount_with_amm != 0 || m.base_asset_amount_long != 0
        || m.base_asset_amount_short != 0
    &&& m.cumulative_funding_rate_long == prev.long
    &&& m.cumulative_funding_rate_short == prev.short
    &&& m.last_funding_rate != 0
}

pub open spec fn funding_report(
    prev: Option<FundingSample>,
    perp: Option<PerpMarket>,
) -> Seq<Violation> {
    match (prev, perp) {
        (Some(p), Some(m)) => finding(
            funding_discarded(p, m),
            Violation::FundingDiscarded { before: p.ts, now: m.last_funding_rate_ts },
        ),
        _ => Seq::empty(),
    }
}

pub open spec fn funding_after(
    prev: Option<FundingSample>,
    perp: Option<PerpMarket>,
) -> Option<FundingSample> {
    match perp {
        Some(m) => Some(funding_sample(m)),
        None => prev,
    }
}

/// Funding is never skipped over.
pub fn check_funding(
    out: &mut Vec<Violation>,
    prev: &Option<FundingSample>,
    perp: &Option<PerpMarket>,
) -> (next: Option<FundingSample>)
    ensures
        final(out)@ == old(out)@ + funding_report(*prev, *perp),
        next == funding_after(*prev, *perp),
{
    match perp {
        Some(m) => {
            if let Some(p) = prev {
                let period: i128 = if m.funding_period > 1 {
                    m.funding_period as i128
                } else {
                    1
                };
                let advanced = m.last_funding_rate_ts as i128 - p.ts as i128 >= period;
                let has_oi = m.base_asset_amount_with_amm != 0 || m.base_asset_amount_long != 0
                    || m.base_asset_amount_short != 0;
                let unchanged = m.cumulative_funding_rate_long == p.long
                    && m.cumulative_funding_rate_short == p.short;
                report(
                    out,
                    advanced && has_oi && unchanged && m.last_funding_rate != 0,
                    Violation::FundingDiscarded { before: p.ts, now: m.last_funding_rate_ts },
                );
            }
            Some(
                FundingSample {
                    long: m.cumulative_funding_rate_long,
                    short: m.cumulative_funding_rate_short,
                    ts: m.last_funding_rate_ts,
                },
            )
        },
        None => *prev,
    }
}

// ---------------------------------------------------------------------------
// The whole sweep
// ---------------------------------------------------------------------------

/// What a sweep over the invariants found.
#[derive(Debug)]
pub struct Report {
    pub violations: Vec<Violation>,
    /// The cranks behind a [`Violation::CranksReverted`].
    pub reverted_cranks: Vec<Crank>,
}

pub open spec fn crank_report(failures: Seq<Crank>) -> Seq<Violation> {
    finding(failures.len() > 0, Violation::CranksReverted { count: failures.len() as usize })
}

pub open spec fn refusal_report(refusals: Seq<Refusal>) -> Seq<Violation> {
    finding(refusals.len() > 0, Violation::LiquidationsRefused { count: refusals.len() as usize })
}

/// Everything that a sweep reports, in the order of the checks.
pub open spec fn full_report(h: History, s: Snapshot) -> Seq<Violation> {
    market_1_report(s.spot_1, s.vault_1, s.users@) + market_0_report(
        s.spot_0,
        s.perp,
        s.vault_0,
        s.users@,
    ) + perp_aggregate_report(s.perp, s.users@) + if_shares_report(s.spot_0) + interest_report(
        h.interest_0,
        Market::Spot0,
        s.spot_0,
    ) + interest_report(h.interest_1, Market::Spot1, s.spot_1) + crank_report(h.crank_failures@)
        + open_interest_report(s.perp) + flags_report(s.users@, s.users@.len()) + pools_report(
        s.spot_0,
        s.perp,
    ) + all_bad_debt_report(s) + refusal_report(h.liq_refusals@) + issuance_report(s)
        + reduce_only_report(h.reduce_only@, s.users@, s.users@.len()) + orders_report(
        s.users@,
        s.users@.len(),
    ) + all_placement_report(s) + exposure_report(h.exposure@, s.users@, s.users@.len())
        + funding_report(h.funding, s.perp)
}

impl History {
    /// Nothing has been observed or recorded yet, of as many users.
    pub open spec fn is_fresh(self, users: nat) -> bool {
        &&& self.interest_0 is None && self.interest_1 is None && self.funding is None
        &&& self.exposure@ == Seq::new(users, |i: int| None::<Exposure>)
        &&& self.reduce_only@ == Seq::new(users, |i: int| None::<ReduceOnlySample>)
        &&& self.crank_failures@.len() == 0 && self.liq_refusals@.len() == 0
    }

    /// The memory keeps one sample per user.
    pub open spec fn covers(self, users: nat) -> bool {
        self.exposure@.len() == users && self.reduce_only@.len() == users
    }

    pub fn new(users: usize) -> (h: History)
        ensures
            h.is_fresh(users as nat),
    {
        let mut exposure: Vec<Option<Exposure>> = Vec::new();
        let mut reduce_only: Vec<Option<ReduceOnlySample>> = Vec::new();
        let mut i: usize = 0;
        while i < users
            invariant
                i <= users,
                exposure@ == Seq::new(i as nat, |k: int| None::<Exposure>),
                reduce_only@ == Seq::new(i as nat, |k: int| None::<ReduceOnlySample>),
            decreases users - i,
        {
            exposure.push(None);
            reduce_only.push(None);
            i = i + 1;
            assert(exposure@ =~= Seq::new(i as nat, |k: int| None::<Exposure>));
            assert(reduce_only@ =~= Seq::new(i as nat, |k: int| None::<ReduceOnlySample>));
        }
        History {
            interest_0: None,
            interest_1: None,
            exposure,
            reduce_only,
            funding: None,
            crank_failures: Vec::new(),
            liq_refusals: Vec::new(),
        }
    }

    /// A crank that failed although it should have worked is remembered until
    /// the next sweep.
    pub fn record_crank(&mut self, crank: Crank, should_work: bool, worked: bool)
        ensures
            final(self).crank_failures@ == if should_work && !worked {
                old(self).crank_failures@.push(crank)
            } else {
                old(self).crank_failures@
            },
            *final(self) == (History { crank_failures: final(self).crank_failures, ..*old(self) }),
    {
        if should_work && !worked {
            self.crank_failures.push(crank);
        }
    }
}

/// Checks every invariant against a snapshot and remembers what the next sweep
/// compares with. Recorded crank failures are reported once; refused
/// liquidations stay recorded.
pub fn invariant_solvency(history: &mut History, s: &Snapshot) -> (r: Report)
    requires
        s.fits(),
        old(history).covers(s.users@.len()),
    ensures
        r.violations@ == full_report(*old(history), *s),
        r.reverted_cranks@ == old(history).crank_failures@,
        final(history).interest_0 == interest_after(old(history).interest_0, s.spot_0),
        final(history).interest_1 == interest_after(old(history).interest_1, s.spot_1),
        final(history).exposure@ == exposures(s.users@),
        final(history).reduce_only@ == reduce_only_samples(s.users@),
        final(history).funding == funding_after(old(history).funding, s.perp),
        final(history).crank_failures@.len() == 0,
        final(history).liq_refusals == old(history).liq_refusals,
{
    let mut out: Vec<Violation> = Vec::new();
    check_market_1(&mut out, &s.spot_1, s.vault_1, &s.users);
    check_market_0(&mut out, &s.spot_0, &s.perp, s.vault_0, &s.users);
    check_perp_aggregate(&mut out, &s.perp, &s.users);
    check_if_shares(&mut out, &s.spot_0);
    history.interest_0 = check_interest(&mut out, &history.interest_0, Market::Spot0, &s.spot_0);
    history.interest_1 = check_interest(&mut out, &history.interest_1, Market::Spot1, &s.spot_1);
    let mut reverted_cranks: Vec<Crank> = Vec::new();
    std::mem::swap(&mut reverted_cranks, &mut history.crank_failures);
    report(
        &mut out,
        reverted_cranks.len() > 0,
        Violation::CranksReverted { count: reverted_cranks.len() },
    );
    check_open_interest(&mut out, &s.perp);
    check_flags(&mut out, &s.users);
    check_pools(&mut out, &s.spot_0, &s.perp);
    let ghost before_debt = out@;
    check_bad_debt(&mut out, Market::Spot0, &s.spot_0, false);
    check_bad_debt(&mut out, Market::Spot1, &s.spot_1, false);
    check_bad_debt(&mut out, Market::Pool1A, &s.pool1_a, true);
    check_bad_debt(&mut out, Market::Pool1B, &s.pool1_b, true);
    assert(out@ =~= before_debt + all_bad_debt_report(*s));
    report(
        &mut out,
        history.liq_refusals.len() > 0,
        Violation::LiquidationsRefused { count: history.liq_refusals.len() },
    );
    check_issuance(&mut out, s);
    check_reduce_only(&mut out, &mut history.reduce_only, &s.users);
    check_orders(&mut out, &s.users);
    check_all_placements(&mut out, s);
    check_exposure(&mut out, &mut history.exposure, &s.users);
    history.funding = check_funding(&mut out, &history.funding, &s.perp);
    Report { violations: out, reverted_cranks }
}

} // verus!
