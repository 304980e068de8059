use sha2::{Digest, Sha256};
use solana_token_cli::address::{parse_pubkey, program_id, pubkey_to_string, system_program_id, Pubkey};
use solana_token_cli::commands::{balance, burn, create_account, init, init_new_mint, mint_tokens, transfer};
use solana_token_cli::keypair::{load_keypair, KeypairBytes};
use solana_token_cli::error::CliError;

fn new_key() -> Pubkey {
    let k = solana_keypair::Keypair::new();
    Pubkey { bytes: k.to_bytes()[32..].try_into().unwrap() }
}

fn text(k: &Pubkey) -> String {
    pubkey_to_string(k)
}

fn pda(owner: &Pubkey, mint: &Pubkey) -> [u8; 32] {
    solana_pubkey::Pubkey::find_program_address(
        &[b"token", &owner.bytes, &mint.bytes],
        &solana_pubkey::Pubkey::new_from_array(program_id().bytes),
    )
    .0
    .to_bytes()
}

fn tag(name: &str) -> Vec<u8> {
    Sha256::digest(format!("global:{}", name).as_bytes())[..8].to_vec()
}

#[test]
fn test_init() {
    let payer = new_key();
    let mint = new_key();
    let ix = init(&payer, &mint, 9);
    assert_eq!(ix.program_id.bytes, program_id().bytes);
    let mut data = tag("initialize");
    data.push(9);
    assert_eq!(ix.data, data);
    assert_eq!(ix.accounts.len(), 3);
    assert_eq!(ix.accounts[0].pubkey.bytes, mint.bytes);
    assert!(ix.accounts[0].is_signer && ix.accounts[0].is_writable);
    assert_eq!(ix.accounts[1].pubkey.bytes, payer.bytes);
    assert!(ix.accounts[1].is_signer && ix.accounts[1].is_writable);
    assert_eq!(ix.accounts[2].pubkey.bytes, system_program_id().bytes);
    assert!(!ix.accounts[2].is_signer && !ix.accounts[2].is_writable);
}

#[test]
fn test_create_account() {
    let payer = new_key();
    let mint = new_key();
    let result = create_account(&payer, &text(&mint), None);
    assert!(result.is_ok(), "create_account failed: {:?}", result.as_ref().err());
    let plan = result.unwrap();
    assert_eq!(plan.token_account.bytes, pda(&payer, &mint));
    assert_eq!(plan.owner.bytes, payer.bytes);
    assert_eq!(plan.mint.bytes, mint.bytes);
    let ix = &plan.instruction;
    assert_eq!(ix.data, tag("create_token_account"));
    let keys: Vec<[u8; 32]> = ix.accounts.iter().map(|m| m.pubkey.bytes).collect();
    assert_eq!(
        keys,
        vec![mint.bytes, pda(&payer, &mint), payer.bytes, payer.bytes, system_program_id().bytes]
    );
    let roles: Vec<(bool, bool)> = ix.accounts.iter().map(|m| (m.is_signer, m.is_writable)).collect();
    assert_eq!(roles, vec![(false, false), (false, true), (false, false), (true, true), (false, false)]);
}

#[test]
fn create_account_for_another_owner() {
    let payer = new_key();
    let mint = new_key();
    let recipient = new_key();
    let plan = create_account(&payer, &text(&mint), Some(&text(&recipient))).unwrap();
    assert_eq!(plan.owner.bytes, recipient.bytes);
    assert_eq!(plan.token_account.bytes, pda(&recipient, &mint));
    assert_eq!(plan.instruction.accounts[2].pubkey.bytes, recipient.bytes);
    assert_eq!(plan.instruction.accounts[3].pubkey.bytes, payer.bytes);
}

#[test]
fn create_account_errors() {
    let payer = new_key();
    let mint = new_key();
    assert_eq!(create_account(&payer, "bad mint", None).unwrap_err(), CliError::InvalidMintAddress);
    assert_eq!(
        create_account(&payer, &text(&mint), Some("bad owner")).unwrap_err(),
        CliError::InvalidOwnerAddress
    );
    // The mint is checked first.
    assert_eq!(
        create_account(&payer, "bad mint", Some("bad owner")).unwrap_err(),
        CliError::InvalidMintAddress
    );
}

#[test]
fn test_mint_tokens() {
    let payer = new_key();
    let mint = new_key();
    let result = mint_tokens(&payer, &text(&mint), &text(&payer), 1000);
    assert!(result.is_ok(), "mint_tokens failed: {:?}", result.as_ref().err());
    let plan = result.unwrap();
    assert_eq!(plan.token_account.bytes, pda(&payer, &mint));
    assert_eq!(plan.owner.bytes, payer.bytes);
    let mut data = tag("mint_tokens");
    data.extend_from_slice(&1000u64.to_le_bytes());
    assert_eq!(plan.instruction.data, data);
    assert_eq!(&plan.instruction.data[8..], &[232, 3, 0, 0, 0, 0, 0, 0]);
    let keys: Vec<[u8; 32]> = plan.instruction.accounts.iter().map(|m| m.pubkey.bytes).collect();
    assert_eq!(keys, vec![mint.bytes, pda(&payer, &mint), payer.bytes]);
    let roles: Vec<(bool, bool)> = plan.instruction.accounts.iter().map(|m| (m.is_signer, m.is_writable)).collect();
    assert_eq!(roles, vec![(false, true), (false, true), (true, false)]);
}

#[test]
fn mint_tokens_errors() {
    let payer = new_key();
    let mint = new_key();
    assert_eq!(mint_tokens(&payer, "x", &text(&payer), 1).unwrap_err(), CliError::InvalidMintAddress);
    assert_eq!(mint_tokens(&payer, &text(&mint), "x", 1).unwrap_err(), CliError::InvalidOwnerAddress);
}

#[test]
fn test_transfer() {
    let payer = new_key();
    let mint = new_key();
    let recipient = new_key();
    let result = transfer(&payer, &text(&mint), &text(&recipient), 400);
    assert!(result.is_ok(), "transfer failed: {:?}", result.as_ref().err());
    let plan = result.unwrap();
    assert_eq!(plan.from_account.bytes, pda(&payer, &mint));
    assert_eq!(plan.to_account.bytes, pda(&recipient, &mint));
    assert_eq!(plan.recipient.bytes, recipient.bytes);
    let mut data = tag("transfer");
    data.extend_from_slice(&400u64.to_le_bytes());
    assert_eq!(plan.instruction.data, data);
    let keys: Vec<[u8; 32]> = plan.instruction.accounts.iter().map(|m| m.pubkey.bytes).collect();
    assert_eq!(keys, vec![pda(&payer, &mint), pda(&recipient, &mint), payer.bytes]);
    let roles: Vec<(bool, bool)> = plan.instruction.accounts.iter().map(|m| (m.is_signer, m.is_writable)).collect();
    assert_eq!(roles, vec![(false, true), (false, true), (true, false)]);
    // The accounts are those that create_account makes for sender and recipient.
    let sender = create_account(&payer, &text(&mint), None).unwrap();
    let receiver = create_account(&payer, &text(&mint), Some(&text(&recipient))).unwrap();
    assert_eq!(plan.from_account.bytes, sender.token_account.bytes);
    assert_eq!(plan.to_account.bytes, receiver.token_account.bytes);
}

#[test]
fn transfer_errors() {
    let payer = new_key();
    let mint = new_key();
    assert_eq!(transfer(&payer, "x", &text(&payer), 1).unwrap_err(), CliError::InvalidMintAddress);
    assert_eq!(transfer(&payer, &text(&mint), "x", 1).unwrap_err(), CliError::InvalidRecipientAddress);
}

#[test]
fn test_burn() {
    let payer = new_key();
    let mint = new_key();
    let result = burn(&payer, &text(&mint), 300);
    assert!(result.is_ok(), "burn failed: {:?}", result.as_ref().err());
    let plan = result.unwrap();
    assert_eq!(plan.token_account.bytes, pda(&payer, &mint));
    assert_eq!(plan.mint.bytes, mint.bytes);
    let mut data = tag("burn");
    data.extend_from_slice(&300u64.to_le_bytes());
    assert_eq!(plan.instruction.data, data);
    let keys: Vec<[u8; 32]> = plan.instruction.accounts.iter().map(|m| m.pubkey.bytes).collect();
    assert_eq!(keys, vec![mint.bytes, pda(&payer, &mint), payer.bytes]);
    assert_eq!(burn(&payer, "x", 300).unwrap_err(), CliError::InvalidMintAddress);
}

#[test]
fn minted_tokens_land_in_created_account() {
    let payer = new_key();
    let authority = new_key();
    let mint = new_key();
    let owner = new_key();
    let created = create_account(&payer, &text(&mint), Some(&text(&owner))).unwrap();
    let minted = mint_tokens(&authority, &text(&mint), &text(&owner), 5).unwrap();
    assert_eq!(created.token_account.bytes, minted.token_account.bytes);
    assert_eq!(created.owner.bytes, minted.owner.bytes);
}

#[test]
fn burn_draws_on_payers_created_account() {
    let payer = new_key();
    let mint = new_key();
    let created = create_account(&payer, &text(&mint), None).unwrap();
    let burned = burn(&payer, &text(&mint), 5).unwrap();
    assert_eq!(created.token_account.bytes, burned.token_account.bytes);
}

#[test]
fn default_owner_matches_explicit_payer() {
    let payer = new_key();
    let mint = new_key();
    let implicit = create_account(&payer, &text(&mint), None).unwrap();
    let explicit = create_account(&payer, &text(&mint), Some(&text(&payer))).unwrap();
    assert_eq!(implicit.token_account.bytes, explicit.token_account.bytes);
    assert_eq!(implicit.owner.bytes, explicit.owner.bytes);
    assert_eq!(implicit.instruction.data, explicit.instruction.data);
    assert_eq!(parse_pubkey(&text(&payer)).unwrap().bytes, payer.bytes);
}

#[test]
fn transfer_to_oneself_names_one_account() {
    let payer = new_key();
    let mint = new_key();
    let plan = transfer(&payer, &text(&mint), &text(&payer), 10).unwrap();
    assert_eq!(plan.from_account.bytes, plan.to_account.bytes);
}

#[test]
fn init_with_a_fresh_mint_keypair() {
    let payer = new_key();
    let keypair = solana_keypair::Keypair::new();
    let bytes = KeypairBytes::from_bytes(keypair.to_bytes().to_vec()).unwrap();
    let plan = init_new_mint(&payer, &bytes, 9);
    let mint_text = solana_pubkey::Pubkey::new_from_array(plan.mint.bytes).to_string();
    assert_eq!(plan.mint.bytes, keypair.to_bytes()[32..]);
    assert_eq!(plan.file_name, format!("mint-{}.json", mint_text));
    assert_eq!(plan.notice, format!("Generated new mint keypair: mint-{}.json", mint_text));
    assert_eq!(plan.file_text, serde_json::to_string(&keypair.to_bytes().to_vec()).unwrap());
    let loaded = load_keypair(&plan.file_text).unwrap();
    assert_eq!(loaded.pubkey().bytes, plan.mint.bytes);
    let direct = init(&payer, &plan.mint, 9);
    assert_eq!(plan.instruction.data, direct.data);
    assert_eq!(plan.instruction.accounts[0].pubkey.bytes, plan.mint.bytes);
    assert_eq!(plan.instruction.data[8], 9);
}

#[test]
fn test_balance() {
    let payer = new_key();
    let mint = new_key();
    let minted = mint_tokens(&payer, &text(&mint), &text(&payer), 500).unwrap();
    let bal = balance(&payer, &text(&mint), None);
    assert!(bal.is_ok(), "balance failed: {:?}", bal.as_ref().err());
    assert_eq!(bal.unwrap().bytes, minted.token_account.bytes);
    let bal_explicit = balance(&payer, &text(&mint), Some(&text(&payer)));
    assert!(bal_explicit.is_ok(), "balance (explicit owner) failed: {:?}", bal_explicit.as_ref().err());
    assert_eq!(bal_explicit.unwrap().bytes, pda(&payer, &mint));
    assert_eq!(balance(&payer, "x", None).unwrap_err(), CliError::InvalidMintAddress);
    assert_eq!(balance(&payer, &text(&mint), Some("x")).unwrap_err(), CliError::InvalidOwnerAddress);
}
