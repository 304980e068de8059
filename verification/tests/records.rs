use sha2::{Digest, Sha256};
use solana_token_cli::error::CliError;
use solana_token_cli::instruction::push_u64_le;
use solana_token_cli::mint_record::{decode_token_amount, decode_token_mint, mint_info};

fn record(authority: [u8; 32], supply: u64, decimals: u8) -> Vec<u8> {
    let mut data = Sha256::digest(b"account:TokenMint")[..8].to_vec();
    data.extend_from_slice(&authority);
    data.extend_from_slice(&supply.to_le_bytes());
    data.push(decimals);
    data
}

#[test]
fn decode_mint_record() {
    let authority = [7u8; 32];
    let m = decode_token_mint(&record(authority, 700, 9)).unwrap();
    assert_eq!(m.authority.bytes, authority);
    assert_eq!(m.total_supply, 700);
    assert_eq!(m.decimals, 9);
    let m = decode_token_mint(&record(authority, u64::MAX, 0)).unwrap();
    assert_eq!(m.total_supply, u64::MAX);
}

#[test]
fn decode_mint_record_ignores_trailing_bytes() {
    let mut data = record([1u8; 32], 1000, 6);
    data.extend_from_slice(&[0xAA; 16]);
    let m = decode_token_mint(&data).unwrap();
    assert_eq!(m.total_supply, 1000);
    assert_eq!(m.decimals, 6);
}

#[test]
fn decode_mint_record_errors() {
    let data = record([1u8; 32], 1000, 6);
    assert_eq!(decode_token_mint(&data[..48]).unwrap_err(), CliError::MintRecordTooShort);
    assert_eq!(decode_token_mint(&data[..8]).unwrap_err(), CliError::MintRecordTooShort);
    assert_eq!(decode_token_mint(&data[..7]).unwrap_err(), CliError::NotAMintRecord);
    assert_eq!(decode_token_mint(&[]).unwrap_err(), CliError::NotAMintRecord);
    let mut wrong = data.clone();
    wrong[3] ^= 1;
    assert_eq!(decode_token_mint(&wrong).unwrap_err(), CliError::NotAMintRecord);
    let mut account = Sha256::digest(b"account:TokenAccount")[..8].to_vec();
    account.extend_from_slice(&[0u8; 80]);
    assert_eq!(decode_token_mint(&account).unwrap_err(), CliError::NotAMintRecord);
}

#[test]
fn mint_info_parses_the_address() {
    let k = mint_info("48WQW8ZMQKJhV1FKnGrYVDMEoqc8XutQmvKuqcmRrKux").unwrap();
    assert_eq!(k.bytes, solana_token_cli::address::program_id().bytes);
    assert_eq!(mint_info("nope!").unwrap_err(), CliError::InvalidMintAddress);
}

#[test]
fn u64_little_endian_bytes() {
    let mut out = vec![9u8];
    push_u64_le(&mut out, 0x0102030405060708);
    assert_eq!(out, vec![9, 8, 7, 6, 5, 4, 3, 2, 1]);
    let mut out = Vec::new();
    push_u64_le(&mut out, 1000);
    assert_eq!(out, 1000u64.to_le_bytes().to_vec());
}

fn token_account_record(owner: [u8; 32], mint: [u8; 32], amount: u64) -> Vec<u8> {
    let mut data = Sha256::digest(b"account:TokenAccount")[..8].to_vec();
    data.extend_from_slice(&owner);
    data.extend_from_slice(&mint);
    data.extend_from_slice(&amount.to_le_bytes());
    data
}

#[test]
fn decode_token_account_amount() {
    assert_eq!(decode_token_amount(&token_account_record([1; 32], [2; 32], 500)).unwrap(), 500);
    let mut data = token_account_record([1; 32], [2; 32], 600);
    data.push(255);
    assert_eq!(decode_token_amount(&data).unwrap(), 600);
    assert_eq!(decode_token_amount(&data[..79]).unwrap_err(), CliError::TokenAccountTooShort);
    assert_eq!(decode_token_amount(&data[..5]).unwrap_err(), CliError::NotATokenAccount);
    assert_eq!(decode_token_amount(&record([1u8; 32], 1, 1)).unwrap_err(), CliError::NotATokenAccount);
}
