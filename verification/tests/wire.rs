use velocity_fuzz::keys::{
    compute_budget_program_id, ed25519_program_id, token_program_id, AccountMeta, Pubkey,
};
use velocity_fuzz::programs::{compute_budget_ix, signature_check_ix, spl_transfer_ix};
use velocity_fuzz::wire::{
    bare, flag_byte, i64_bytes, ix_data, modify_params_bytes, push_i64, push_len, push_opt,
    push_opt_u8, push_u128, push_u16, push_u32, push_u64, read_le, u16_bytes, u32_bytes, u64_bytes,
    ModifyParams,
};

#[test]
fn integers_are_little_endian() {
    let mut b: Vec<u8> = Vec::new();
    push_u16(&mut b, 0x0102);
    push_u32(&mut b, 0x0304_0506);
    push_u64(&mut b, 0x0708_090a_0b0c_0d0e);
    push_u128(&mut b, 1 << 120);
    push_i64(&mut b, -2);
    let mut expected: Vec<u8> = Vec::new();
    expected.extend_from_slice(&0x0102u16.to_le_bytes());
    expected.extend_from_slice(&0x0304_0506u32.to_le_bytes());
    expected.extend_from_slice(&0x0708_090a_0b0c_0d0eu64.to_le_bytes());
    expected.extend_from_slice(&(1u128 << 120).to_le_bytes());
    expected.extend_from_slice(&(-2i64).to_le_bytes());
    assert_eq!(b, expected);
    assert_eq!(u16_bytes(513), vec![1, 2]);
    assert_eq!(u32_bytes(1), vec![1, 0, 0, 0]);
    assert_eq!(u64_bytes(256), vec![0, 1, 0, 0, 0, 0, 0, 0]);
    assert_eq!(i64_bytes(i64::MIN), i64::MIN.to_le_bytes().to_vec());
}

#[test]
fn encodings_read_back() {
    let b = u64_bytes(123_456_789_012);
    assert_eq!(read_le(&b, 0, 8), 123_456_789_012);
    assert_eq!(read_le(&b, 0, 1), 123_456_789_012 % 256);
    assert_eq!(read_le(&b, 3, 3), 0);
}

#[test]
fn lengths_keep_the_bytes_that_fit() {
    let mut b: Vec<u8> = Vec::new();
    push_len(&mut b, 0x1_0203, 2);
    assert_eq!(b, vec![0x03, 0x02]);
}

#[test]
fn data_starts_with_the_discriminator() {
    assert_eq!(
        ix_data([1, 2, 3, 4, 5, 6, 7, 8], &vec![9, 10]),
        vec![1, 2, 3, 4, 5, 6, 7, 8, 9, 10]
    );
    assert_eq!(bare([8, 7, 6, 5, 4, 3, 2, 1]), vec![8, 7, 6, 5, 4, 3, 2, 1]);
}

#[test]
fn options_are_tagged() {
    let mut b: Vec<u8> = Vec::new();
    push_opt(&mut b, true, &vec![5, 6]);
    push_opt(&mut b, false, &vec![5, 6]);
    push_opt_u8(&mut b, true, 7);
    push_opt_u8(&mut b, false, 7);
    assert_eq!(b, vec![1, 5, 6, 0, 1, 7, 0]);
    assert_eq!((flag_byte(true), flag_byte(false)), (1, 0));
}

#[test]
fn modify_params_are_twelve_options() {
    let p = ModifyParams {
        direction: Some(1),
        base_asset_amount: Some(2),
        price: None,
        reduce_only: Some(true),
        policy: Some(3),
    };
    let mut expected = vec![1u8, 1, 1];
    expected.extend_from_slice(&2u64.to_le_bytes());
    expected.extend_from_slice(&[0, 1, 1, 0, 0, 0, 0, 0, 0, 0, 1, 3]);
    assert_eq!(modify_params_bytes(p), expected);
}

#[test]
fn compute_limit_is_tag_two() {
    let ix = compute_budget_ix(1_400_000);
    assert_eq!(ix.program_id, compute_budget_program_id());
    assert!(ix.accounts.is_empty());
    assert_eq!(ix.data, vec![2, 0xc0, 0x5c, 0x15, 0]);
}

#[test]
fn token_transfer_is_tag_three() {
    let k = |b: u8| Pubkey { bytes: [b; 32] };
    let ix = spl_transfer_ix(k(1), k(2), k(3), 500);
    assert_eq!(ix.program_id, token_program_id());
    assert_eq!(
        ix.accounts,
        vec![
            AccountMeta { pubkey: k(1), is_signer: false, is_writable: true },
            AccountMeta { pubkey: k(2), is_signer: false, is_writable: true },
            AccountMeta { pubkey: k(3), is_signer: true, is_writable: false },
        ]
    );
    assert_eq!(ix.data, vec![3, 244, 1, 0, 0, 0, 0, 0, 0]);
}

#[test]
fn signature_check_points_into_the_message() {
    let ix = signature_check_ix(12, 1, 300);
    assert_eq!(ix.program_id, ed25519_program_id());
    assert!(ix.accounts.is_empty());
    let mut expected = vec![1u8, 0];
    for v in [12u16, 1, 76, 1, 110, 300, 1] {
        expected.extend_from_slice(&v.to_le_bytes());
    }
    assert_eq!(ix.data, expected);
}
