use vstd::prelude::*;

verus! {

/// Why a command could not be planned.
#[derive(Clone, Copy, Debug, PartialEq, Eq, Structural)]
pub enum CliError {
    /// The mint's address is not a base58 address.
    InvalidMintAddress,
    /// The owner's address is not a base58 address.
    InvalidOwnerAddress,
    /// The recipient's address is not a base58 address.
    InvalidRecipientAddress,
    /// No program-derived address exists for the token account's seeds.
    NoTokenAccountAddress,
    /// The keypair file is not a JSON array of bytes.
    KeypairNotJson,
    /// The bytes are not a 64-byte secret-and-public keypair.
    InvalidKeypair,
    /// The account's data is too short for a mint record.
    MintRecordTooShort,
    /// The account's data does not open with the mint record's tag.
    NotAMintRecord,
    /// The account's data is too short for a token-account record.
    TokenAccountTooShort,
    /// The account's data does not open with the token-account record's tag.
    NotATokenAccount,
}

} // verus!
