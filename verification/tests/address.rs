use std::str::FromStr;

use solana_token_cli::address::{
    parse_pubkey, program_id, pubkey_to_string, system_program_id, token_account_address, Pubkey,
};

fn key(n: u8) -> Pubkey {
    let mut bytes = [0u8; 32];
    for (i, b) in bytes.iter_mut().enumerate() {
        *b = n.wrapping_mul(31).wrapping_add(i as u8);
    }
    Pubkey { bytes }
}

#[test]
fn program_id_is_the_declared_address() {
    let declared = solana_pubkey::Pubkey::from_str("48WQW8ZMQKJhV1FKnGrYVDMEoqc8XutQmvKuqcmRrKux").unwrap();
    assert_eq!(program_id().bytes, declared.to_bytes());
    let parsed = parse_pubkey("48WQW8ZMQKJhV1FKnGrYVDMEoqc8XutQmvKuqcmRrKux").unwrap();
    assert_eq!(parsed.bytes, program_id().bytes);
}

#[test]
fn system_program_id_is_all_zero() {
    assert_eq!(system_program_id().bytes, [0u8; 32]);
    assert_eq!(system_program_id().bytes, solana_system_interface::program::ID.to_bytes());
}

#[test]
fn parse_pubkey_refuses_bad_text() {
    // `0` is not a base58 digit.
    assert!(parse_pubkey("0WQW8ZMQKJhV1FKnGrYVDMEoqc8XutQmvKuqcmRrKux").is_none());
    assert!(parse_pubkey("").is_none());
    assert!(parse_pubkey("not an address").is_none());
    let too_long = "48WQW8ZMQKJhV1FKnGrYVDMEoqc8XutQmvKuqcmRrKuxx";
    assert!(parse_pubkey(too_long).is_none());
    // Too few digits for 32 bytes.
    assert!(parse_pubkey("48WQW8").is_none());
}

#[test]
fn pubkey_text_reads_back() {
    let k = key(7);
    let text = pubkey_to_string(&k);
    assert_eq!(text, solana_pubkey::Pubkey::new_from_array(k.bytes).to_string());
    assert_eq!(parse_pubkey(&text).unwrap().bytes, k.bytes);
    assert_eq!(pubkey_to_string(&system_program_id()), "11111111111111111111111111111111");
}

#[test]
fn token_account_is_the_program_derived_address() {
    let owner = key(1);
    let mint = key(2);
    let expected = solana_pubkey::Pubkey::find_program_address(
        &[b"token", &owner.bytes, &mint.bytes],
        &solana_pubkey::Pubkey::new_from_array(program_id().bytes),
    )
    .0;
    let derived = token_account_address(&owner, &mint).unwrap();
    assert_eq!(derived.bytes, expected.to_bytes());
    // Owner and mint are not interchangeable.
    let swapped = token_account_address(&mint, &owner).unwrap();
    assert_ne!(swapped.bytes, derived.bytes);
}
