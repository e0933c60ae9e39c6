use velocity_fuzz::constants::NUM_USERS;
use velocity_fuzz::fixture::{Fixture, Protocol};
use velocity_fuzz::keys::{system_program_id, AccountMeta, Keypair, Pubkey, Transaction};
use velocity_fuzz::setup::{ScenarioKeys, UserKeys};
use velocity_fuzz::spot_actions::{following_index, pool_legs_of, PoolLegs};
use velocity_fuzz::user_actions::signed_amount;

fn key(b: u8) -> Pubkey {
    Pubkey { bytes: [b; 32] }
}

fn fixture() -> Fixture {
    let protocol = Protocol {
        program_id: key(9),
        lazer_storage_id: key(10),
        lazer_oracle_seed: b"pyth_lazer".to_vec(),
        amm_cache_seed: b"amm_cache".to_vec(),
        margin_buffer_ratio: 200,
        liquidation_duration: 150,
    };
    let user = |b: u8| UserKeys {
        keypair: Keypair { secret: [b; 32] },
        token_account: key(b + 100),
        token_account_1: key(b + 150),
    };
    let keys = ScenarioKeys {
        crank: Keypair { secret: [1; 32] },
        admin: Keypair { secret: [2; 32] },
        usdc_mint: key(20),
        sol_mint: key(21),
        users: vec![user(3), user(4)],
        fresh: vec![Keypair { secret: [5; 32] }, Keypair { secret: [6; 32] }],
    };
    Fixture::setup(&protocol, keys, 77).unwrap().fixture
}

fn r(k: Pubkey) -> AccountMeta {
    AccountMeta { pubkey: k, is_signer: false, is_writable: false }
}

fn w(k: Pubkey) -> AccountMeta {
    AccountMeta { pubkey: k, is_signer: false, is_writable: true }
}

fn one(t: &Transaction) -> (Vec<AccountMeta>, Vec<u8>) {
    assert_eq!(t.instructions.len(), 1);
    (t.instructions[0].accounts.clone(), t.instructions[0].data.clone())
}

fn found(seeds: &[&[u8]]) -> Pubkey {
    let program = solana_pubkey::Pubkey::new_from_array([9; 32]);
    let (key, _) = solana_pubkey::Pubkey::find_program_address(seeds, &program);
    Pubkey { bytes: key.to_bytes() }
}

#[test]
fn setters_write_the_users_account() {
    let f = fixture();
    let (metas, data) = one(&f.action_update_user_custom_margin_ratio(1, 258));
    assert_eq!(metas[0], w(f.users[1].user_pda));
    assert_eq!(data, vec![21, 221, 140, 187, 32, 129, 11, 123, 0, 0, 2, 1, 0, 0]);
    let (_, data) = one(&f.action_update_user_margin_trading_enabled(0, 1));
    assert_eq!(data[8..], [0, 0, 1]);
    let (_, data) = one(&f.action_update_user_reduce_only(0, 0));
    assert_eq!(data[8..], [0, 0, 0]);
    let (_, data) = one(&f.action_update_user_pool_id(0, 1));
    assert_eq!(data[8..], [0, 0, 1]);
}

#[test]
fn a_delegate_is_the_other_user_or_nobody() {
    let f = fixture();
    let set = f.action_update_user_delegate(0, 0, 0).unwrap();
    let cleared = f.action_update_user_delegate(0, 1, 0).unwrap();
    assert_eq!(one(&set).1[10..], f.users[1].keypair.pubkey().bytes);
    assert_eq!(one(&cleared).1[10..], system_program_id().bytes);
}

#[test]
fn signed_amounts_stay_representable() {
    assert_eq!(signed_amount(5, false), 5);
    assert_eq!(signed_amount(5, true), -5);
    assert_eq!(signed_amount(0, true), 0);
}

#[test]
fn sub_accounts_have_their_own_address() {
    let f = fixture();
    let a = f.users[0].keypair.pubkey().bytes;
    let (metas, _) = one(&f.action_initialize_sub_account(0, 1).unwrap());
    assert_eq!(metas[0], w(found(&[b"user", &a, &[1, 0]])));
    let (metas, data) = one(&f.action_transfer_deposit(0, 1, 50, 0).unwrap());
    let (back, _) = one(&f.action_transfer_deposit(0, 1, 50, 1).unwrap());
    assert_eq!(metas[0], w(f.users[0].user_pda));
    assert_eq!(metas[1], w(found(&[b"user", &a, &[1, 0]])));
    assert_eq!((back[0], back[1]), (metas[1], metas[0]));
    assert_eq!(data[8..], [0, 0, 50, 0, 0, 0, 0, 0, 0, 0]);
}

#[test]
fn fresh_authorities_open_their_accounts() {
    let f = fixture();
    let a = f.fresh[1].pubkey();
    let stats = found(&[b"user_stats", &a.bytes]);
    let t = f.action_initialize_user_stats(1).unwrap();
    assert_eq!(one(&t).0[0], w(stats));
    assert_eq!(t.signers, vec![a]);
    let t = f.action_initialize_fresh_user(1, 2).unwrap();
    assert_eq!(one(&t).0[0], w(found(&[b"user", &a.bytes, &[2, 0]])));
    assert_eq!(one(&t).1[8..10], [2, 0]);
}

#[test]
fn deletions_pick_a_user_or_a_fresh_authority() {
    let f = fixture();
    let (metas, data) = one(&f.action_delete_user(0, 0, 1).unwrap());
    assert_eq!(metas[0], w(f.users[0].user_pda));
    assert_eq!(data, vec![186, 85, 17, 249, 219, 231, 98, 251]);
    let (metas, _) = one(&f.action_delete_user(0, 1, 1).unwrap());
    assert_eq!(metas[0], w(found(&[b"user", &f.fresh[1].pubkey().bytes, &[0, 0]])));
    let t = f.action_force_delete_user(0, 0, 1).unwrap();
    assert_eq!(t.signers, vec![f.crank.pubkey()]);
}

#[test]
fn perp_transfers_may_be_signed() {
    let f = fixture();
    let (_, data) = one(&f.action_transfer_perp_position(0, 1, 1, 7, 1, 0).unwrap());
    let mut expected = vec![0u8, 0, 1];
    expected.extend_from_slice(&(-7i64).to_le_bytes());
    assert_eq!(data[8..], expected[..]);
    let (_, data) = one(&f.action_special_transfer_perp_to_vamm(0, 0, 7, 1));
    assert_eq!(data[8..], [0, 0, 0]);
}

#[test]
fn stakes_live_under_their_staker() {
    let f = fixture();
    let a = f.users[0].keypair.pubkey().bytes;
    let stake = found(&[b"insurance_fund_stake", &a, &[0, 0]]);
    let (metas, data) = one(&f.action_add_if_stake(0, 9).unwrap());
    assert!(metas.contains(&w(stake)));
    assert_eq!(data[8..], [0, 0, 9, 0, 0, 0, 0, 0, 0, 0]);
    let (metas, _) = one(&f.action_request_remove_if_stake(0, 9).unwrap());
    assert!(metas.contains(&w(stake)));
    let (_, data) = one(&f.action_remove_if_stake(0).unwrap());
    assert_eq!(data, vec![128, 166, 142, 9, 254, 187, 143, 174, 0, 0]);
    let (_, data) = one(&f.action_cancel_request_remove_if_stake(0).unwrap());
    assert_eq!(data, vec![97, 235, 78, 62, 212, 42, 241, 127, 0, 0]);
}

#[test]
fn fees_reach_the_cranks_wallet() {
    let f = fixture();
    let crank = f.crank.pubkey();
    let program = solana_pubkey::Pubkey::new_from_array(
        velocity_fuzz::keys::associated_token_program_id().bytes,
    );
    let (wallet, _) = solana_pubkey::Pubkey::find_program_address(
        &[&crank.bytes, &velocity_fuzz::keys::token_program_id().bytes, &[21; 32]],
        &program,
    );
    let t = f.action_withdraw_protocol_fees_spot(1, 77).unwrap();
    let (metas, data) = one(&t);
    assert!(metas.contains(&w(Pubkey { bytes: wallet.to_bytes() })));
    assert!(metas.contains(&w(f.spot_market_1_pda)));
    assert_eq!(data[8..], [1, 0, 77, 0, 0, 0, 0, 0, 0, 0]);
    assert_eq!(f.mint_of(1), f.sol_mint);
    assert_eq!(f.mint_of(0), f.usdc_mint);
}

#[test]
fn liquidators_are_counted_from_the_next_user() {
    for i in 0..NUM_USERS {
        assert_eq!(following_index(i, 1), (i + 1) % NUM_USERS);
        assert_ne!(following_index(i, 1), i);
    }
    let f = fixture();
    let (metas, data) = one(&f.action_liquidate_spot(0, 0, 0, 1, 500, 1, 9));
    assert!(metas.contains(&w(f.users[0].user_pda)) && metas.contains(&w(f.users[1].user_pda)));
    let mut expected = vec![0u8, 0, 1, 0];
    expected.extend_from_slice(&500u128.to_le_bytes());
    expected.push(1);
    expected.extend_from_slice(&9u64.to_le_bytes());
    assert_eq!(data[8..], expected[..]);
}

#[test]
fn swaps_are_bracketed_by_a_transfer() {
    let f = fixture();
    let t = f.action_swap(0, 0, 1, 100, 200, 0, 0, 0).unwrap();
    let tags: Vec<u8> = t.instructions.iter().map(|i| i.data[0]).collect();
    assert_eq!(tags, vec![174, 3, 177]);
    assert_eq!(t.instructions[1].data[1..], 200u64.to_le_bytes());
    assert!(f.action_swap(0, 1, 1, 100, 200, 0, 0, 0).is_none());
}

#[test]
fn pool_migration_uses_four_vaults() {
    for deposit_leg in 0..2u16 {
        for variant in 0..3u8 {
            let l = pool_legs_of(deposit_leg, variant);
            let all = [l.deposit_from, l.deposit_to, l.borrow_from, l.borrow_to];
            for i in 0..4 {
                for j in 0..i {
                    assert_ne!(all[i], all[j]);
                }
            }
        }
    }
    let legs: PoolLegs = pool_legs_of(0, 0);
    assert!(legs.deposit_from < 2 && legs.deposit_to >= 2);
    let f = fixture();
    let t = f.action_transfer_pools(0, 1, 0, 0, 1, 5, 0, 0).unwrap();
    assert_eq!(t.instructions.len(), 2);
    assert_eq!(t.instructions[0].data[0], 2);
    assert_eq!(t.instructions[1].data[..8], [197, 103, 154, 25, 107, 90, 60, 94]);
}

#[test]
fn isolated_transfers_go_either_way() {
    let f = fixture();
    let (_, into) = one(&f.action_transfer_isolated_deposit(0, 0, 0, 6));
    let (_, out) = one(&f.action_transfer_isolated_deposit(0, 0, 1, 6));
    assert_eq!(into[12..], 6i64.to_le_bytes());
    assert_eq!(out[12..], (-6i64).to_le_bytes());
    let (metas, _) = one(&f.action_deposit_into_isolated(0, 1, 6));
    assert!(metas.contains(&w(f.spot_vault_1_pda)));
    let (metas, _) = one(&f.action_withdraw_from_isolated(0, 1, 6));
    assert!(metas.contains(&r(f.signer_pda)));
}

#[test]
fn bankruptcies_name_their_market() {
    let f = fixture();
    let (metas, data) = one(&f.action_resolve_spot_bankruptcy(0, 0, 1).unwrap());
    assert_eq!(data[8..], [1, 0]);
    assert!(metas.contains(&w(f.if_vault_1_pda)));
    let (_, data) = one(&f.action_resolve_perp_bankruptcy(0, 0).unwrap());
    assert_eq!(data[8..], [0, 0, 0, 0]);
    assert!(f.action_resolve_perp_bankruptcy(0, 1).is_none());
    assert!(f.action_resolve_spot_bankruptcy(1, 0, 0).is_none());
}

#[test]
fn the_breaker_needs_a_floor_first() {
    let f = fixture();
    let t = f.set_equity_floor(0, 1);
    assert_eq!(t.signers, vec![f.admin.pubkey()]);
    assert_eq!(one(&t).1[..8], [49, 87, 139, 119, 136, 239, 186, 104]);
    let t = f.action_trip_equity_floor_breaker(0);
    assert_eq!(t.signers, vec![f.crank.pubkey()]);
    assert_eq!(one(&t).1[..8], [133, 184, 25, 80, 193, 52, 162, 249]);
}
