use vstd::prelude::*;

use crate::address::{parse_pubkey, spec_parse_pubkey, Pubkey};
use crate::error::CliError;
use crate::instruction::{le_u64_of, spec_u64_from_le};

verus! {

/// The on-chain record of a mint.
#[derive(Clone, Copy, Debug)]
pub struct TokenMint {
    pub authority: Pubkey,
    pub total_supply: u64,
    pub decimals: u8,
}

pub struct TokenMintView {
    pub authority: Seq<u8>,
    pub total_supply: u64,
    pub decimals: u8,
}

impl View for TokenMint {
    type V = TokenMintView;

    open spec fn view(&self) -> TokenMintView {
        TokenMintView { authority: self.authority@, total_supply: self.total_supply, decimals: self.decimals }
    }
}

/// The tag that opens a mint record: the first eight bytes of the SHA-256
/// digest of `account:TokenMint`.
pub open spec fn token_mint_tag() -> Seq<u8> {
    seq![78u8, 9, 173, 40, 126, 105, 238, 172]
}

/// Bytes of a mint record: the tag, the authority's 32 bytes, the supply's
/// eight little-endian bytes and the decimals.
pub open spec fn mint_record_len() -> nat {
    49
}

/// What an account's data holds as a mint record; bytes after the record
/// are ignored.
pub open spec fn spec_decode_token_mint(data: Seq<u8>) -> Result<TokenMintView, CliError> {
    if data.len() < 8 || data.subrange(0, 8) != token_mint_tag() {
        Err(CliError::NotAMintRecord)
    } else if data.len() < mint_record_len() {
        Err(CliError::MintRecordTooShort)
    } else {
        Ok(
            TokenMintView {
                authority: data.subrange(8, 40),
                total_supply: spec_u64_from_le(data.subrange(40, 48)),
                decimals: data[48],
            },
        )
    }
}

/// Reads a mint record from an account's data.
pub fn decode_token_mint(data: &[u8]) -> (res: Result<TokenMint, CliError>)
    ensures
        match res {
            Ok(m) => spec_decode_token_mint(data@) == Ok::<TokenMintView, CliError>(m@),
            Err(e) => spec_decode_token_mint(data@) == Err::<TokenMintView, CliError>(e),
        },
{
    let tag: [u8; 8] = [78u8, 9, 173, 40, 126, 105, 238, 172];
    assert(tag@ =~= token_mint_tag());
    if data.len() < 8 {
        return Err(CliError::NotAMintRecord);
    }
    for i in 0..8
        invariant
            data@.len() >= 8,
            tag@ == token_mint_tag(),
            forall|j: int| 0 <= j < i ==> data@[j] == tag@[j],
    {
        if data[i] != tag[i] {
            assert(data@.subrange(0, 8)[i as int] != token_mint_tag()[i as int]);
            return Err(CliError::NotAMintRecord);
        }
    }
    assert(data@.subrange(0, 8) =~= token_mint_tag());
    if data.len() < 49 {
        return Err(CliError::MintRecordTooShort);
    }
    let mut authority = [0u8; 32];
    for i in 0..32
        invariant
            data@.len() >= 49,
            forall|j: int| 0 <= j < i ==> authority@[j] == data@[8 + j],
    {
        authority[i] = data[8 + i];
    }
    let total_supply = (data[40] as u64) | ((data[41] as u64) << 8u64) | ((data[42] as u64) << 16u64)
        | ((data[43] as u64) << 24u64) | ((data[44] as u64) << 32u64) | ((data[45] as u64) << 40u64)
        | ((data[46] as u64) << 48u64) | ((data[47] as u64) << 56u64);
    let m = TokenMint { authority: Pubkey { bytes: authority }, total_supply, decimals: data[48] };
    assert(m.authority@ =~= data@.subrange(8, 40));
    assert(total_supply == le_u64_of(data@[40], data@[41], data@[42], data@[43], data@[44], data@[45], data@[46], data@[47]));
    assert(spec_u64_from_le(data@.subrange(40, 48)) == total_supply);
    Ok(m)
}

/// `mint_info`: the address of the mint whose record is to be read.
pub fn mint_info(mint: &str) -> (res: Result<Pubkey, CliError>)
    ensures
        match res {
            Ok(k) => spec_parse_pubkey(mint@) == Some(k@),
            Err(e) => spec_parse_pubkey(mint@) is None && e == CliError::InvalidMintAddress,
        },
{
    match parse_pubkey(mint) {
        Some(k) => Ok(k),
        None => Err(CliError::InvalidMintAddress),
    }
}

/// The tag that opens a token-account record: the first eight bytes of the
/// SHA-256 digest of `account:TokenAccount`.
pub open spec fn token_account_tag() -> Seq<u8> {
    seq![220u8, 131, 236, 16, 145, 206, 207, 54]
}

/// What an account's data holds as the amount of a token-account record:
/// the tag, the two 32-byte addresses of owner and mint, then the amount's
/// eight little-endian bytes; bytes after the amount are ignored.
pub open spec fn spec_decode_token_amount(data: Seq<u8>) -> Result<u64, CliError> {
    if data.len() < 8 || data.subrange(0, 8) != token_account_tag() {
        Err(CliError::NotATokenAccount)
    } else if data.len() < 80 {
        Err(CliError::TokenAccountTooShort)
    } else {
        Ok(spec_u64_from_le(data.subrange(72, 80)))
    }
}

/// Reads the amount of a token-account record from an account's data.
pub fn decode_token_amount(data: &[u8]) -> (res: Result<u64, CliError>)
    ensures
        match res {
            Ok(a) => spec_decode_token_amount(data@) == Ok::<u64, CliError>(a),
            Err(e) => spec_decode_token_amount(data@) == Err::<u64, CliError>(e),
        },
{
    let tag: [u8; 8] = [220u8, 131, 236, 16, 145, 206, 207, 54];
    assert(tag@ =~= token_account_tag());
    if data.len() < 8 {
        return Err(CliError::NotATokenAccount);
    }
    for i in 0..8
        invariant
            data@.len() >= 8,
            tag@ == token_account_tag(),
            forall|j: int| 0 <= j < i ==> data@[j] == tag@[j],
    {
        if data[i] != tag[i] {
            assert(data@.subrange(0, 8)[i as int] != token_account_tag()[i as int]);
            return Err(CliError::NotATokenAccount);
        }
    }
    assert(data@.subrange(0, 8) =~= token_account_tag());
    if data.len() < 80 {
        return Err(CliError::TokenAccountTooShort);
    }
    let amount = (data[72] as u64) | ((data[73] as u64) << 8u64) | ((data[74] as u64) << 16u64)
        | ((data[75] as u64) << 24u64) | ((data[76] as u64) << 32u64) | ((data[77] as u64) << 40u64)
        | ((data[78] as u64) << 48u64) | ((data[79] as u64) << 56u64);
    assert(amount == le_u64_of(data@[72], data@[73], data@[74], data@[75], data@[76], data@[77], data@[78], data@[79]));
    assert(spec_u64_from_le(data@.subrange(72, 80)) == amount);
    Ok(amount)
}

} // verus!
