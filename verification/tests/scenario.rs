use velocity_fuzz::accounts::{AssetTier, LazerOracle, MarketStatus, OracleHistory, OracleSource};
use velocity_fuzz::constants::{INITIAL_SOL, INITIAL_USDC, SEED_PER_VAULT_SOL, SEED_PER_VAULT_USDC};
use velocity_fuzz::fixture::{init_user_args, Fixture, Protocol};
use velocity_fuzz::keys::{Keypair, Pubkey};
use velocity_fuzz::setup::{ScenarioKeys, Setup, SetupStep, UserKeys};

fn key(b: u8) -> Pubkey {
    Pubkey { bytes: [b; 32] }
}

fn protocol() -> Protocol {
    Protocol {
        program_id: key(9),
        lazer_storage_id: key(10),
        lazer_oracle_seed: b"pyth_lazer".to_vec(),
        amm_cache_seed: b"amm_cache".to_vec(),
        margin_buffer_ratio: 200,
        liquidation_duration: 150,
    }
}

fn set_up() -> Setup {
    let keys = ScenarioKeys {
        crank: Keypair { secret: [1; 32] },
        admin: Keypair { secret: [2; 32] },
        usdc_mint: key(20),
        sol_mint: key(21),
        users: vec![
            UserKeys {
                keypair: Keypair { secret: [3; 32] },
                token_account: key(30),
                token_account_1: key(31),
            },
            UserKeys {
                keypair: Keypair { secret: [4; 32] },
                token_account: key(40),
                token_account_1: key(41),
            },
        ],
        fresh: vec![Keypair { secret: [5; 32] }, Keypair { secret: [6; 32] }],
    };
    Fixture::setup(&protocol(), keys, 77).unwrap()
}

fn found(seeds: &[&[u8]]) -> Pubkey {
    let program = solana_pubkey::Pubkey::new_from_array([9; 32]);
    let (key, _) = solana_pubkey::Pubkey::find_program_address(seeds, &program);
    Pubkey { bytes: key.to_bytes() }
}

#[test]
fn scenario_lives_at_derived_addresses() {
    let f = set_up().fixture;
    assert_eq!(f.state_pda, found(&[b"velocity_state"]));
    assert_eq!(f.signer_pda, found(&[b"velocity_signer"]));
    assert_eq!(f.spot_market_pda, found(&[b"spot_market", &[0, 0]]));
    assert_eq!(f.spot_vault_pda, found(&[b"spot_market_vault", &[0, 0]]));
    assert_eq!(f.if_vault_pda, found(&[b"insurance_fund_vault", &[0, 0]]));
    assert_eq!(f.spot_market_1_pda, found(&[b"spot_market", &[1, 0]]));
    assert_eq!(f.pool1_market_a_pda, found(&[b"spot_market", &[2, 0]]));
    assert_eq!(f.pool1_market_b_pda, found(&[b"spot_market", &[3, 0]]));
    assert_eq!(f.perp_market_pda, found(&[b"perp_market", &[0, 0]]));
    assert_eq!(f.perp_oracle_pda, found(&[b"pyth_lazer", &[0, 0, 0, 0]]));
    assert_eq!(f.spot_1_oracle_pda, found(&[b"pyth_lazer", &[1, 0, 0, 0]]));
    assert_eq!(f.amm_cache_pda, found(&[b"amm_cache"]));
    let a = f.users[1].keypair.pubkey().bytes;
    assert_eq!(f.users[1].user_pda, found(&[b"user", &a, &[0, 0]]));
    assert_eq!(f.users[1].stats_pda, found(&[b"user_stats", &a]));
}

#[test]
fn scenario_starts_with_its_markets() {
    let s = set_up();
    let mut spots = Vec::new();
    let mut perps = 0;
    let mut oracles: Vec<LazerOracle> = Vec::new();
    for step in &s.steps {
        match step {
            SetupStep::InjectSpotMarket { market, .. } => spots.push(*market),
            SetupStep::InjectPerpMarket { market, .. } => {
                perps += 1;
                assert_eq!(market.amm.sqrt_k, 10_000_000_000_000);
                assert_eq!(market.pending_protocol_fee, 10_000_000);
                assert_eq!(market.pending_if_fee, 5_000_000);
                assert_eq!(market.funding_period, 3600);
            }
            SetupStep::InjectOracle { oracle, .. } => oracles.push(*oracle),
            SetupStep::InjectState { state, .. } => {
                assert_eq!(state.number_of_spot_markets, 4);
                assert_eq!(state.liquidation_margin_buffer_ratio, 200);
                assert_eq!(state.hot_roles.fee_withdraw, s.fixture.crank.pubkey());
                assert_eq!(state.warm_admin, s.fixture.admin.pubkey());
            }
            _ => {}
        }
    }
    assert_eq!((spots.len(), perps, oracles.len()), (4, 1, 2));
    assert_eq!((spots[0].decimals, spots[1].decimals), (6, 9));
    assert_eq!(spots[1].oracle_source, OracleSource::PythLazer);
    assert_eq!(spots[1].asset_tier, AssetTier::Cross);
    assert_eq!(spots[1].oracle_history, OracleHistory::Flat { price: 1_000_000 });
    assert_eq!((spots[2].pool_id, spots[3].pool_id), (1, 1));
    assert!(spots.iter().all(|m| m.status == MarketStatus::Active));
    assert!(oracles.iter().all(|o| o.price == 1_000_000 && o.exponent == -6 && o.posted_slot == 77));
}

#[test]
fn issued_tokens_are_those_counted() {
    let s = set_up();
    let mut usdc: u64 = 0;
    let mut sol: u64 = 0;
    for step in &s.steps {
        if let SetupStep::TokenAccount { mint, amount, .. } = step {
            if *mint == key(20) {
                usdc += amount;
            } else {
                sol += amount;
            }
        }
    }
    assert_eq!(usdc, 2 * INITIAL_USDC + 2 * SEED_PER_VAULT_USDC);
    assert_eq!(sol, 2 * INITIAL_SOL + SEED_PER_VAULT_SOL);
}

#[test]
fn each_user_is_opened_once() {
    let s = set_up();
    let opened: Vec<Pubkey> = s
        .steps
        .iter()
        .filter_map(|step| match step {
            SetupStep::InitUser { authority, .. } => Some(*authority),
            _ => None,
        })
        .collect();
    assert_eq!(
        opened,
        vec![s.fixture.users[0].keypair.pubkey(), s.fixture.users[1].keypair.pubkey()]
    );
}

#[test]
fn opening_a_user_names_its_sub_account() {
    let mut expected = vec![3u8, 0];
    expected.extend_from_slice(&[0; 32]);
    assert_eq!(init_user_args(3), expected);
}

#[test]
fn a_fresh_scenario_remembers_nothing() {
    let f = set_up().fixture;
    assert!(f.signed_uuids.is_empty());
    assert!(f.history.crank_failures.is_empty() && f.history.liq_refusals.is_empty());
    assert!(f.history.funding.is_none() && f.history.interest_0.is_none());
    assert_eq!(f.history.exposure.len(), 2);
}
