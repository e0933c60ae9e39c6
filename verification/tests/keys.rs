use velocity_fuzz::insurance::if_stake_pda;
use velocity_fuzz::keys::{
    associated_token_program_id, ata, clock_sysvar_id, compute_budget_program_id,
    ed25519_program_id, instructions_sysvar_id, pda1, pda2, pda3, rent_sysvar_id,
    system_program_id, token_program_id, Keypair, Pubkey,
};
use velocity_fuzz::signed_msg::{
    revenue_escrow_pda, revenue_share_pda, signed_msg_orders_pda, signed_msg_ws_pda,
};

fn decoded(text: &str) -> [u8; 32] {
    solana_pubkey::Pubkey::from_str_const(text).to_bytes()
}

fn found(seeds: &[&[u8]], program: [u8; 32]) -> (Pubkey, u8) {
    let (key, bump) = solana_pubkey::Pubkey::find_program_address(
        seeds,
        &solana_pubkey::Pubkey::new_from_array(program),
    );
    (Pubkey { bytes: key.to_bytes() }, bump)
}

#[test]
fn builtin_addresses_are_decoded() {
    assert_eq!(system_program_id().bytes, [0u8; 32]);
    assert_eq!(rent_sysvar_id().bytes, decoded("SysvarRent111111111111111111111111111111111"));
    assert_eq!(clock_sysvar_id().bytes, decoded("SysvarC1ock11111111111111111111111111111111"));
    assert_eq!(
        instructions_sysvar_id().bytes,
        decoded("Sysvar1nstructions1111111111111111111111111")
    );
    assert_eq!(
        compute_budget_program_id().bytes,
        decoded("ComputeBudget111111111111111111111111111111")
    );
    assert_eq!(ed25519_program_id().bytes, decoded("Ed25519SigVerify111111111111111111111111111"));
    assert_eq!(token_program_id().bytes, decoded("TokenkegQfeZyiNwAJbNbGKPFXCWuBvf9Ss623VQ5DA"));
    assert_eq!(
        associated_token_program_id().bytes,
        decoded("ATokenGPvbdGVxr1b2hvZbsiqW5xWH25efTNsLJA8knL")
    );
}

#[test]
fn rent_sysvar_has_its_known_bytes() {
    // The first bytes of the decoded address, written down by hand.
    assert_eq!(rent_sysvar_id().bytes[..4], [6, 167, 213, 23]);
    assert_eq!(clock_sysvar_id().bytes[..4], [6, 167, 213, 23]);
    assert_ne!(rent_sysvar_id().bytes, clock_sysvar_id().bytes);
}

#[test]
fn addresses_are_derived_from_their_seeds() {
    let program = Pubkey { bytes: [9u8; 32] };
    assert_eq!(pda1("velocity_state", program), Some(found(&[b"velocity_state"], [9; 32])));
    assert_eq!(
        pda2("spot_market", vec![1, 0], program),
        Some(found(&[b"spot_market", &[1, 0]], [9; 32]))
    );
    assert_eq!(
        pda3("user", vec![3; 32], vec![0, 0], program),
        Some(found(&[b"user", &[3; 32], &[0, 0]], [9; 32]))
    );
}

#[test]
fn long_seeds_have_no_address() {
    let program = Pubkey { bytes: [9u8; 32] };
    assert_eq!(pda2("user", vec![0; 33], program), None);
}

#[test]
fn owned_accounts_have_their_own_seeds() {
    let program = Pubkey { bytes: [9u8; 32] };
    let a = Pubkey { bytes: [5u8; 32] };
    assert_eq!(
        if_stake_pda(&a, program),
        Some(found(&[b"insurance_fund_stake", &[5; 32], &[0, 0]], [9; 32]))
    );
    assert_eq!(
        signed_msg_orders_pda(&a, program),
        Some(found(&[b"SIGNED_MSG", &[5; 32]], [9; 32]))
    );
    assert_eq!(
        signed_msg_ws_pda(&a, program),
        Some(found(&[b"SIGNED_MSG_WS", &[5; 32]], [9; 32]))
    );
    assert_eq!(revenue_share_pda(&a, program), Some(found(&[b"REV_SHARE", &[5; 32]], [9; 32])));
    assert_eq!(
        revenue_escrow_pda(&a, program),
        Some(found(&[b"REV_ESCROW", &[5; 32]], [9; 32]))
    );
}

#[test]
fn associated_wallets_follow_owner_and_mint() {
    let owner = Pubkey { bytes: [1u8; 32] };
    let mint = Pubkey { bytes: [2u8; 32] };
    let token = token_program_id().bytes;
    assert_eq!(
        ata(&owner, &mint),
        Some(found(&[&[1; 32], &token, &[2; 32]], associated_token_program_id().bytes))
    );
}

#[test]
fn keypair_address_is_ed25519() {
    let k = Keypair { secret: [7u8; 32] };
    let expected = solana_keypair::Keypair::new_from_array([7u8; 32]);
    assert_eq!(k.pubkey().bytes, solana_signer::Signer::pubkey(&expected).to_bytes());
    assert_ne!(k.pubkey().bytes, k.secret);
}

#[test]
fn signatures_verify_under_their_address() {
    let k = Keypair { secret: [8u8; 32] };
    let signature = k.sign_message(&vec![1, 2, 3]);
    let peer = solana_keypair::Keypair::new_from_array([8u8; 32]);
    assert_eq!(signature.len(), 64);
    assert_eq!(
        signature,
        solana_signer::Signer::sign_message(&peer, &[1, 2, 3]).as_ref().to_vec()
    );
    assert_ne!(signature, k.sign_message(&vec![1, 2, 4]));
}
