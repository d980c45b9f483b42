use anchor_lang::prelude::Pubkey;
use anchor_lang::{AnchorDeserialize, AnchorSerialize};
use pumpkin_swap::accounts::{
    BondingCurve, GlobalConfig, BONDING_CURVE_DISCRIMINATOR, BONDING_CURVE_LEN,
    GLOBAL_CONFIG_DISCRIMINATOR, GLOBAL_CONFIG_LEN,
};
use pumpkin_swap::address::Address;
use pumpkin_swap::codec::{read_address, read_u64, starts_with};
use pumpkin_swap::error::DecodeError;
use sha2::{Digest, Sha256};

fn put<T: AnchorSerialize>(out: &mut Vec<u8>, value: &T) {
    value.serialize(out).unwrap();
}

fn key(seed: u8) -> Pubkey {
    let mut bytes = [0u8; 32];
    for (i, byte) in bytes.iter_mut().enumerate() {
        *byte = seed.wrapping_mul(31).wrapping_add(i as u8);
    }
    Pubkey::new_from_array(bytes)
}

fn address(seed: u8) -> Address {
    Address::new_from_array(key(seed).to_bytes())
}

fn bonding_curve_bytes(complete: bool) -> Vec<u8> {
    let mut out = BONDING_CURVE_DISCRIMINATOR.to_vec();
    put(&mut out, &key(1));
    put(&mut out, &key(2));
    put(&mut out, &1_073_000_000_000_000u64);
    put(&mut out, &30_000_000_000u64);
    put(&mut out, &793_100_000_000_000u64);
    put(&mut out, &u64::MAX);
    put(&mut out, &0x0102_0304_0506_0708u64);
    put(&mut out, &42u64);
    put(&mut out, &complete);
    put(&mut out, &254u8);
    out
}

fn global_config_bytes() -> Vec<u8> {
    let mut out = GLOBAL_CONFIG_DISCRIMINATOR.to_vec();
    for seed in 11..16u8 {
        put(&mut out, &key(seed));
    }
    for number in 0..9u64 {
        put(&mut out, &(250 + number * 1_000_000_007));
    }
    put(&mut out, &253u8);
    out
}

#[test]
fn discriminators_are_hashes_of_the_account_names() {
    let curve = Sha256::digest(b"account:BondingCurve");
    assert_eq!(&curve[..8], &BONDING_CURVE_DISCRIMINATOR[..]);
    let config = Sha256::digest(b"account:GlobalConfig");
    assert_eq!(&config[..8], &GLOBAL_CONFIG_DISCRIMINATOR[..]);
}

#[test]
fn account_lengths_match_serialized_accounts() {
    assert_eq!(bonding_curve_bytes(false).len(), BONDING_CURVE_LEN);
    assert_eq!(global_config_bytes().len(), GLOBAL_CONFIG_LEN);
    assert_eq!(BONDING_CURVE_LEN, 122);
    assert_eq!(GLOBAL_CONFIG_LEN, 241);
}

#[test]
fn bonding_curve_is_read_field_by_field() {
    let curve = BondingCurve::try_deserialize(&bonding_curve_bytes(true)).unwrap();
    assert_eq!(
        curve,
        BondingCurve {
            token: address(1),
            creator: address(2),
            virtual_token_reserves: 1_073_000_000_000_000,
            virtual_sol_reserves: 30_000_000_000,
            real_token_reserves: 793_100_000_000_000,
            real_sol_reserves: u64::MAX,
            accrued_creator_sol_fee: 0x0102_0304_0506_0708,
            index_fund_buffer: 42,
            complete: true,
            bump: 254,
        }
    );
    let open = BondingCurve::try_deserialize(&bonding_curve_bytes(false)).unwrap();
    assert!(!open.complete);
}

#[test]
fn global_config_is_read_field_by_field() {
    let config = GlobalConfig::try_deserialize(&global_config_bytes()).unwrap();
    assert_eq!(
        config,
        GlobalConfig {
            admin: address(11),
            protocol_sol_fee_recipient: address(12),
            index_fund_recipient: address(13),
            migrator: address(14),
            authenticator: address(15),
            swap_fee_rate_bps: 250,
            creator_fee_portion_bps: 1_000_000_257,
            pkin_staking_fee_portion_bps: 2_000_000_264,
            staking_reward_period_duration: 3_000_000_271,
            pkin_staking_rewards_threshold: 4_000_000_278,
            index_fund_transfer_threshold: 5_000_000_285,
            bonding_curve_completion_threshold: 6_000_000_292,
            accrued_protocol_sol_fee: 7_000_000_299,
            pkin_staking_rewards: 8_000_000_306,
            bump: 253,
        }
    );
}

#[test]
fn bytes_after_the_account_are_ignored() {
    let mut bytes = bonding_curve_bytes(false);
    let expected = BondingCurve::try_deserialize(&bytes).unwrap();
    bytes.extend_from_slice(&[0xAB; 64]);
    assert_eq!(BondingCurve::try_deserialize(&bytes), Ok(expected));
    let mut bytes = global_config_bytes();
    let expected = GlobalConfig::try_deserialize(&bytes).unwrap();
    bytes.push(1);
    assert_eq!(GlobalConfig::try_deserialize(&bytes), Ok(expected));
}

#[test]
fn data_shorter_than_a_discriminator_is_rejected() {
    assert_eq!(
        BondingCurve::try_deserialize(&[]),
        Err(DecodeError::DiscriminatorNotFound)
    );
    assert_eq!(
        BondingCurve::try_deserialize(&BONDING_CURVE_DISCRIMINATOR[..7]),
        Err(DecodeError::DiscriminatorNotFound)
    );
    assert_eq!(
        GlobalConfig::try_deserialize(&GLOBAL_CONFIG_DISCRIMINATOR[..7]),
        Err(DecodeError::DiscriminatorNotFound)
    );
}

#[test]
fn another_discriminator_is_rejected() {
    assert_eq!(
        BondingCurve::try_deserialize(&global_config_bytes()),
        Err(DecodeError::DiscriminatorMismatch)
    );
    assert_eq!(
        GlobalConfig::try_deserialize(&bonding_curve_bytes(false)),
        Err(DecodeError::DiscriminatorMismatch)
    );
    let mut bytes = bonding_curve_bytes(false);
    bytes[7] ^= 1;
    assert_eq!(
        BondingCurve::try_deserialize(&bytes),
        Err(DecodeError::DiscriminatorMismatch)
    );
    assert_eq!(
        BondingCurve::try_deserialize(&[0u8; 8]),
        Err(DecodeError::DiscriminatorMismatch)
    );
}

#[test]
fn cut_fields_are_rejected() {
    let bytes = bonding_curve_bytes(false);
    for len in 8..BONDING_CURVE_LEN {
        assert_eq!(
            BondingCurve::try_deserialize(&bytes[..len]),
            Err(DecodeError::DidNotDeserialize)
        );
    }
    let bytes = global_config_bytes();
    for len in 8..GLOBAL_CONFIG_LEN {
        assert_eq!(
            GlobalConfig::try_deserialize(&bytes[..len]),
            Err(DecodeError::DidNotDeserialize)
        );
    }
}

#[test]
fn a_flag_that_is_neither_zero_nor_one_is_rejected() {
    for flag in 2..=255u8 {
        let mut bytes = bonding_curve_bytes(false);
        bytes[120] = flag;
        assert_eq!(
            BondingCurve::try_deserialize(&bytes),
            Err(DecodeError::DidNotDeserialize)
        );
    }
}

#[test]
fn numbers_are_read_as_the_serializer_wrote_them() {
    for value in [0u64, 1, 255, 256, 0x0102_0304_0506_0708, u64::MAX - 1, u64::MAX] {
        let mut bytes = vec![0xEE, 0xEE, 0xEE];
        put(&mut bytes, &value);
        bytes.push(0xEE);
        assert_eq!(read_u64(&bytes, 3), value);
        let mut rest = &bytes[3..];
        assert_eq!(u64::deserialize(&mut rest).unwrap(), value);
    }
    assert_eq!(read_u64(&[1, 0, 0, 0, 0, 0, 0, 0], 0), 1);
    assert_eq!(read_u64(&[0, 0, 0, 0, 0, 0, 0, 1], 0), 1 << 56);
}

#[test]
fn addresses_are_read_in_place() {
    let mut bytes = vec![5u8; 4];
    put(&mut bytes, &key(77));
    bytes.extend_from_slice(&[6u8; 4]);
    assert_eq!(read_address(&bytes, 4), address(77));
    assert_ne!(read_address(&bytes, 3), address(77));
}

#[test]
fn prefixes_are_recognised() {
    assert!(starts_with(&[1, 2, 3], &[1, 2]));
    assert!(starts_with(&[1, 2, 3], &[]));
    assert!(starts_with(&[1, 2, 3], &[1, 2, 3]));
    assert!(!starts_with(&[1, 2, 3], &[1, 3]));
    assert!(!starts_with(&[1, 2], &[1, 2, 3]));
}
