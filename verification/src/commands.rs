use vstd::prelude::*;

use crate::address::{parse_pubkey, spec_parse_pubkey, spec_token_account, token_account_address, Pubkey};
use crate::error::CliError;
use crate::keypair::{
    keypair_to_json, mint_keypair_file, spec_json_array, spec_load_keypair, spec_mint_keypair_file, KeypairBytes,
};
use vstd::string::*;
use crate::instruction::{
    burn_instruction, create_token_account_instruction, mint_tokens_instruction, spec_burn_ix,
    spec_create_token_account_ix, spec_initialize_ix, spec_mint_tokens_ix, spec_transfer_ix,
    initialize_instruction, transfer_instruction, Instruction, InstructionView,
};

verus! {

/// The text of an optional argument.
pub open spec fn text_opt(o: Option<&str>) -> Option<Seq<char>> {
    match o {
        Some(t) => Some(t@),
        None => None,
    }
}

/// The owner named by an optional address, the payer where none is given.
pub open spec fn spec_owner_key(payer: Seq<u8>, owner: Option<Seq<char>>) -> Option<Seq<u8>> {
    match owner {
        None => Some(payer),
        Some(t) => spec_parse_pubkey(t),
    }
}

/// `init`: the instruction that creates the mint record at `mint`, paid for
/// by `payer`, who becomes its authority.
pub fn init(payer: &Pubkey, mint: &Pubkey, decimals: u8) -> (ix: Instruction)
    ensures
        ix@ == spec_initialize_ix(mint@, payer@, decimals),
{
    initialize_instruction(*mint, *payer, decimals)
}

/// What `init` does with a mint keypair it has just made: the file it keeps
/// the keypair in, the file's text, the line it prints, the mint's address
/// and the instruction it sends.
#[derive(Debug)]
pub struct NewMintPlan {
    pub file_name: String,
    pub file_text: String,
    pub notice: String,
    pub mint: Pubkey,
    pub instruction: Instruction,
}

pub struct NewMintView {
    pub file_name: Seq<char>,
    pub file_text: Seq<char>,
    pub notice: Seq<char>,
    pub mint: Seq<u8>,
    pub instruction: InstructionView,
}

impl View for NewMintPlan {
    type V = NewMintView;

    open spec fn view(&self) -> NewMintView {
        NewMintView {
            file_name: self.file_name@,
            file_text: self.file_text@,
            notice: self.notice@,
            mint: self.mint@,
            instruction: self.instruction@,
        }
    }
}

pub open spec fn spec_init_new_mint(payer: Seq<u8>, keypair: Seq<u8>, decimals: u8) -> NewMintView {
    let mint = keypair.subrange(32, 64);
    NewMintView {
        file_name: spec_mint_keypair_file(mint),
        file_text: spec_json_array(keypair),
        notice: "Generated new mint keypair: "@ + spec_mint_keypair_file(mint),
        mint,
        instruction: spec_initialize_ix(mint, payer, decimals),
    }
}

/// `init` with a freshly made mint keypair: the keypair is kept in
/// `mint-<address>.json` as the JSON array of its 64 bytes, loading that
/// text gives the same keypair back, whose public key is the mint that the
/// instruction creates with `decimals`.
pub fn init_new_mint(payer: &Pubkey, mint_keypair: &KeypairBytes, decimals: u8) -> (res: NewMintPlan)
    ensures
        res@ == spec_init_new_mint(payer@, mint_keypair@, decimals),
        spec_load_keypair(res.file_text@) == Ok::<Seq<u8>, CliError>(mint_keypair@),
        res.mint@ == mint_keypair@.subrange(32, 64),
{
    let mint = mint_keypair.pubkey();
    let file_name = mint_keypair_file(&mint);
    let file_text = keypair_to_json(mint_keypair);
    let mut notice = String::from_str("Generated new mint keypair: ");
    notice.append(file_name.as_str());
    let instruction = init(payer, &mint, decimals);
    NewMintPlan { file_name, file_text, notice, mint, instruction }
}

/// What `create_account` sends and reports.
#[derive(Debug)]
pub struct CreateAccountPlan {
    pub instruction: Instruction,
    pub token_account: Pubkey,
    pub owner: Pubkey,
    pub mint: Pubkey,
}

pub struct CreateAccountView {
    pub instruction: InstructionView,
    pub token_account: Seq<u8>,
    pub owner: Seq<u8>,
    pub mint: Seq<u8>,
}

impl View for CreateAccountPlan {
    type V = CreateAccountView;

    open spec fn view(&self) -> CreateAccountView {
        CreateAccountView {
            instruction: self.instruction@,
            token_account: self.token_account@,
            owner: self.owner@,
            mint: self.mint@,
        }
    }
}

pub open spec fn spec_create_account(payer: Seq<u8>, mint: Seq<char>, owner: Option<Seq<char>>) -> Result<CreateAccountView, CliError> {
    match spec_parse_pubkey(mint) {
        None => Err(CliError::InvalidMintAddress),
        Some(mint_key) => match spec_owner_key(payer, owner) {
            None => Err(CliError::InvalidOwnerAddress),
            Some(owner_key) => match spec_token_account(owner_key, mint_key) {
                None => Err(CliError::NoTokenAccountAddress),
                Some(account) => Ok(
                    CreateAccountView {
                        instruction: spec_create_token_account_ix(mint_key, account, owner_key, payer),
                        token_account: account,
                        owner: owner_key,
                        mint: mint_key,
                    },
                ),
            },
        },
    }
}

/// `create_account`: the instruction that creates the token account of
/// `owner` (the payer where none is given) for `mint`, paid for by `payer`.
pub fn create_account(payer: &Pubkey, mint: &str, owner: Option<&str>) -> (res: Result<CreateAccountPlan, CliError>)
    ensures
        match res {
            Ok(p) => spec_create_account(payer@, mint@, text_opt(owner)) == Ok::<CreateAccountView, CliError>(p@),
            Err(e) => spec_create_account(payer@, mint@, text_opt(owner)) == Err::<CreateAccountView, CliError>(e),
        },
{
    let mint_key = match parse_pubkey(mint) {
        Some(k) => k,
        None => return Err(CliError::InvalidMintAddress),
    };
    let owner_key = match owner {
        Some(o) => match parse_pubkey(o) {
            Some(k) => k,
            None => return Err(CliError::InvalidOwnerAddress),
        },
        None => *payer,
    };
    let token_account = match token_account_address(&owner_key, &mint_key) {
        Some(k) => k,
        None => return Err(CliError::NoTokenAccountAddress),
    };
    let instruction = create_token_account_instruction(mint_key, token_account, owner_key, *payer);
    Ok(CreateAccountPlan { instruction, token_account, owner: owner_key, mint: mint_key })
}

/// What `mint_tokens` sends and reports.
#[derive(Debug)]
pub struct MintTokensPlan {
    pub instruction: Instruction,
    pub token_account: Pubkey,
    pub owner: Pubkey,
}

pub struct MintTokensView {
    pub instruction: InstructionView,
    pub token_account: Seq<u8>,
    pub owner: Seq<u8>,
}

impl View for MintTokensPlan {
    type V = MintTokensView;

    open spec fn view(&self) -> MintTokensView {
        MintTokensView { instruction: self.instruction@, token_account: self.token_account@, owner: self.owner@ }
    }
}

pub open spec fn spec_mint_tokens(payer: Seq<u8>, mint: Seq<char>, to: Seq<char>, amount: u64) -> Result<MintTokensView, CliError> {
    match spec_parse_pubkey(mint) {
        None => Err(CliError::InvalidMintAddress),
        Some(mint_key) => match spec_parse_pubkey(to) {
            None => Err(CliError::InvalidOwnerAddress),
            Some(owner_key) => match spec_token_account(owner_key, mint_key) {
                None => Err(CliError::NoTokenAccountAddress),
                Some(account) => Ok(
                    MintTokensView {
                        instruction: spec_mint_tokens_ix(mint_key, account, payer, amount),
                        token_account: account,
                        owner: owner_key,
                    },
                ),
            },
        },
    }
}

/// `mint_tokens`: the instruction by which `payer`, the mint's authority,
/// credits `amount` to the token account that the owner `to` holds for `mint`.
pub fn mint_tokens(payer: &Pubkey, mint: &str, to: &str, amount: u64) -> (res: Result<MintTokensPlan, CliError>)
    ensures
        match res {
            Ok(p) => spec_mint_tokens(payer@, mint@, to@, amount) == Ok::<MintTokensView, CliError>(p@),
            Err(e) => spec_mint_tokens(payer@, mint@, to@, amount) == Err::<MintTokensView, CliError>(e),
        },
{
    let mint_key = match parse_pubkey(mint) {
        Some(k) => k,
        None => return Err(CliError::InvalidMintAddress),
    };
    let owner_key = match parse_pubkey(to) {
        Some(k) => k,
        None => return Err(CliError::InvalidOwnerAddress),
    };
    let token_account = match token_account_address(&owner_key, &mint_key) {
        Some(k) => k,
        None => return Err(CliError::NoTokenAccountAddress),
    };
    let instruction = mint_tokens_instruction(mint_key, token_account, *payer, amount);
    Ok(MintTokensPlan { instruction, token_account, owner: owner_key })
}

/// What `transfer` sends and reports.
#[derive(Debug)]
pub struct TransferPlan {
    pub instruction: Instruction,
    pub from_account: Pubkey,
    pub to_account: Pubkey,
    pub recipient: Pubkey,
}

pub struct TransferView {
    pub instruction: InstructionView,
    pub from_account: Seq<u8>,
    pub to_account: Seq<u8>,
    pub recipient: Seq<u8>,
}

impl View for TransferPlan {
    type V = TransferView;

    open spec fn view(&self) -> TransferView {
        TransferView {
            instruction: self.instruction@,
            from_account: self.from_account@,
            to_account: self.to_account@,
            recipient: self.recipient@,
        }
    }
}

pub open spec fn spec_transfer(payer: Seq<u8>, mint: Seq<char>, to: Seq<char>, amount: u64) -> Result<TransferView, CliError> {
    match spec_parse_pubkey(mint) {
        None => Err(CliError::InvalidMintAddress),
        Some(mint_key) => match spec_parse_pubkey(to) {
            None => Err(CliError::InvalidRecipientAddress),
            Some(recipient) => match spec_token_account(payer, mint_key) {
                None => Err(CliError::NoTokenAccountAddress),
                Some(from) => match spec_token_account(recipient, mint_key) {
                    None => Err(CliError::NoTokenAccountAddress),
                    Some(dest) => Ok(
                        TransferView {
                            instruction: spec_transfer_ix(from, dest, payer, amount),
                            from_account: from,
                            to_account: dest,
                            recipient,
                        },
                    ),
                },
            },
        },
    }
}

/// `transfer`: the instruction by which `payer` moves `amount` from its own
/// token account for `mint` to the one that the recipient `to` holds.
pub fn transfer(payer: &Pubkey, mint: &str, to: &str, amount: u64) -> (res: Result<TransferPlan, CliError>)
    ensures
        match res {
            Ok(p) => spec_transfer(payer@, mint@, to@, amount) == Ok::<TransferView, CliError>(p@),
            Err(e) => spec_transfer(payer@, mint@, to@, amount) == Err::<TransferView, CliError>(e),
        },
{
    let mint_key = match parse_pubkey(mint) {
        Some(k) => k,
        None => return Err(CliError::InvalidMintAddress),
    };
    let recipient = match parse_pubkey(to) {
        Some(k) => k,
        None => return Err(CliError::InvalidRecipientAddress),
    };
    let from_account = match token_account_address(payer, &mint_key) {
        Some(k) => k,
        None => return Err(CliError::NoTokenAccountAddress),
    };
    let to_account = match token_account_address(&recipient, &mint_key) {
        Some(k) => k,
        None => return Err(CliError::NoTokenAccountAddress),
    };
    let instruction = transfer_instruction(from_account, to_account, *payer, amount);
    Ok(TransferPlan { instruction, from_account, to_account, recipient })
}

/// What `burn` sends and reports.
#[derive(Debug)]
pub struct BurnPlan {
    pub instruction: Instruction,
    pub token_account: Pubkey,
    pub mint: Pubkey,
}

pub struct BurnView {
    pub instruction: InstructionView,
    pub token_account: Seq<u8>,
    pub mint: Seq<u8>,
}

impl View for BurnPlan {
    type V = BurnView;

    open spec fn view(&self) -> BurnView {
        BurnView { instruction: self.instruction@, token_account: self.token_account@, mint: self.mint@ }
    }
}

pub open spec fn spec_burn(payer: Seq<u8>, mint: Seq<char>, amount: u64) -> Result<BurnView, CliError> {
    match spec_parse_pubkey(mint) {
        None => Err(CliError::InvalidMintAddress),
        Some(mint_key) => match spec_token_account(payer, mint_key) {
            None => Err(CliError::NoTokenAccountAddress),
            Some(account) => Ok(
                BurnView {
                    instruction: spec_burn_ix(mint_key, account, payer, amount),
                    token_account: account,
                    mint: mint_key,
                },
            ),
        },
    }
}

/// `burn`: the instruction by which `payer` destroys `amount` from its own
/// token account for `mint`.
pub fn burn(payer: &Pubkey, mint: &str, amount: u64) -> (res: Result<BurnPlan, CliError>)
    ensures
        match res {
            Ok(p) => spec_burn(payer@, mint@, amount) == Ok::<BurnView, CliError>(p@),
            Err(e) => spec_burn(payer@, mint@, amount) == Err::<BurnView, CliError>(e),
        },
{
    let mint_key = match parse_pubkey(mint) {
        Some(k) => k,
        None => return Err(CliError::InvalidMintAddress),
    };
    let token_account = match token_account_address(payer, &mint_key) {
        Some(k) => k,
        None => return Err(CliError::NoTokenAccountAddress),
    };
    let instruction = burn_instruction(mint_key, token_account, *payer, amount);
    Ok(BurnPlan { instruction, token_account, mint: mint_key })
}

pub open spec fn spec_balance(payer: Seq<u8>, mint: Seq<char>, owner: Option<Seq<char>>) -> Result<Seq<u8>, CliError> {
    match spec_parse_pubkey(mint) {
        None => Err(CliError::InvalidMintAddress),
        Some(mint_key) => match spec_owner_key(payer, owner) {
            None => Err(CliError::InvalidOwnerAddress),
            Some(owner_key) => match spec_token_account(owner_key, mint_key) {
                None => Err(CliError::NoTokenAccountAddress),
                Some(account) => Ok(account),
            },
        },
    }
}

/// `balance`: the token account whose amount is the balance of `owner` (the
/// payer where none is given) in `mint`.
pub fn balance(payer: &Pubkey, mint: &str, owner: Option<&str>) -> (res: Result<Pubkey, CliError>)
    ensures
        match res {
            Ok(k) => spec_balance(payer@, mint@, text_opt(owner)) == Ok::<Seq<u8>, CliError>(k@),
            Err(e) => spec_balance(payer@, mint@, text_opt(owner)) == Err::<Seq<u8>, CliError>(e),
        },
{
    let mint_key = match parse_pubkey(mint) {
        Some(k) => k,
        None => return Err(CliError::InvalidMintAddress),
    };
    let owner_key = match owner {
        Some(o) => match parse_pubkey(o) {
            Some(k) => k,
            None => return Err(CliError::InvalidOwnerAddress),
        },
        None => *payer,
    };
    match token_account_address(&owner_key, &mint_key) {
        Some(k) => Ok(k),
        None => Err(CliError::NoTokenAccountAddress),
    }
}

} // verus!
