//! Client-side logic of a token program's command line: addresses, keypair
//! files, program-derived token accounts, instruction layouts and the
//! on-chain mint record. Sending transactions and printing stay with the
//! caller; every function here computes what is sent and what is shown.

pub mod address;
pub mod commands;
pub mod error;
pub mod instruction;
pub mod keypair;
pub mod laws;
pub mod mint_record;

pub use address::{program_id, Pubkey};
pub use commands::{balance, burn, create_account, init, init_new_mint, mint_tokens, transfer};
pub use error::CliError;
pub use instruction::{AccountMeta, Instruction};
pub use keypair::{load_keypair, KeypairBytes};
pub use mint_record::mint_info;
