use vstd::prelude::*;

use crate::address::{program_id, spec_program_id, spec_system_program_id, system_program_id, Pubkey};

verus! {

/// An account that an instruction reads or writes, with the roles the
/// program expects of it.
#[derive(Clone, Copy, Debug)]
pub struct AccountMeta {
    pub pubkey: Pubkey,
    pub is_signer: bool,
    pub is_writable: bool,
}

pub struct MetaView {
    pub key: Seq<u8>,
    pub is_signer: bool,
    pub is_writable: bool,
}

impl View for AccountMeta {
    type V = MetaView;

    open spec fn view(&self) -> MetaView {
        MetaView { key: self.pubkey@, is_signer: self.is_signer, is_writable: self.is_writable }
    }
}

/// A call of the token program: the program's address, its accounts in the
/// order the program declares them, and the encoded arguments.
#[derive(Debug)]
pub struct Instruction {
    pub program_id: Pubkey,
    pub accounts: Vec<AccountMeta>,
    pub data: Vec<u8>,
}

pub struct InstructionView {
    pub program_id: Seq<u8>,
    pub accounts: Seq<MetaView>,
    pub data: Seq<u8>,
}

impl View for Instruction {
    type V = InstructionView;

    open spec fn view(&self) -> InstructionView {
        InstructionView {
            program_id: self.program_id@,
            accounts: self.accounts@.map_values(|m: AccountMeta| m@),
            data: self.data@,
        }
    }
}

pub open spec fn meta(key: Seq<u8>, is_signer: bool, is_writable: bool) -> MetaView {
    MetaView { key, is_signer, is_writable }
}

// Each instruction's data opens with the first eight bytes of the SHA-256
// digest of "global:" followed by the instruction's name.

/// Tag of `initialize`.
pub open spec fn initialize_tag() -> Seq<u8> {
    seq![175u8, 175, 109, 31, 13, 152, 155, 237]
}

/// Tag of `create_token_account`.
pub open spec fn create_token_account_tag() -> Seq<u8> {
    seq![147u8, 241, 123, 100, 244, 132, 174, 118]
}

/// Tag of `mint_tokens`.
pub open spec fn mint_tokens_tag() -> Seq<u8> {
    seq![59u8, 132, 24, 246, 122, 39, 8, 243]
}

/// Tag of `transfer`.
pub open spec fn transfer_tag() -> Seq<u8> {
    seq![163u8, 52, 200, 231, 140, 3, 69, 186]
}

/// Tag of `burn`.
pub open spec fn burn_tag() -> Seq<u8> {
    seq![116u8, 110, 29, 56, 107, 219, 42, 93]
}

/// The eight little-endian bytes of a `u64`.
pub open spec fn spec_u64_le(v: u64) -> Seq<u8> {
    seq![
        (v & 0xff) as u8,
        ((v >> 8u64) & 0xff) as u8,
        ((v >> 16u64) & 0xff) as u8,
        ((v >> 24u64) & 0xff) as u8,
        ((v >> 32u64) & 0xff) as u8,
        ((v >> 40u64) & 0xff) as u8,
        ((v >> 48u64) & 0xff) as u8,
        ((v >> 56u64) & 0xff) as u8,
    ]
}

/// The `u64` whose little-endian bytes open `b`.
pub open spec fn spec_u64_from_le(b: Seq<u8>) -> u64 {
    le_u64_of(b[0], b[1], b[2], b[3], b[4], b[5], b[6], b[7])
}

pub open spec fn le_u64_of(b0: u8, b1: u8, b2: u8, b3: u8, b4: u8, b5: u8, b6: u8, b7: u8) -> u64 {
    (b0 as u64) | ((b1 as u64) << 8u64) | ((b2 as u64) << 16u64) | ((b3 as u64) << 24u64)
        | ((b4 as u64) << 32u64) | ((b5 as u64) << 40u64) | ((b6 as u64) << 48u64)
        | ((b7 as u64) << 56u64)
}

/// Reading back the little-endian bytes of a value gives the value.
pub proof fn lemma_u64_le_roundtrip(v: u64)
    ensures
        spec_u64_from_le(spec_u64_le(v)) == v,
{
    assert(le_u64_of(
        (v & 0xff) as u8,
        ((v >> 8u64) & 0xff) as u8,
        ((v >> 16u64) & 0xff) as u8,
        ((v >> 24u64) & 0xff) as u8,
        ((v >> 32u64) & 0xff) as u8,
        ((v >> 40u64) & 0xff) as u8,
        ((v >> 48u64) & 0xff) as u8,
        ((v >> 56u64) & 0xff) as u8,
    ) == v) by (bit_vector);
}

/// Appends the little-endian bytes of `v`.
pub fn push_u64_le(out: &mut Vec<u8>, v: u64)
    ensures
        final(out)@ == old(out)@ + spec_u64_le(v),
{
    out.push((v & 0xff) as u8);
    out.push(((v >> 8u64) & 0xff) as u8);
    out.push(((v >> 16u64) & 0xff) as u8);
    out.push(((v >> 24u64) & 0xff) as u8);
    out.push(((v >> 32u64) & 0xff) as u8);
    out.push(((v >> 40u64) & 0xff) as u8);
    out.push(((v >> 48u64) & 0xff) as u8);
    out.push(((v >> 56u64) & 0xff) as u8);
    assert(out@ =~= old(out)@ + spec_u64_le(v));
}

/// `initialize`: creates the mint record at `mint` (a fresh account that
/// signs), paid for and owned by `authority`.
pub open spec fn spec_initialize_ix(mint: Seq<u8>, authority: Seq<u8>, decimals: u8) -> InstructionView {
    InstructionView {
        program_id: spec_program_id(),
        accounts: seq![
            meta(mint, true, true),
            meta(authority, true, true),
            meta(spec_system_program_id(), false, false),
        ],
        data: initialize_tag() + seq![decimals],
    }
}

/// `create_token_account`: creates `token_account` for `owner` and `mint`,
/// paid for by `payer`.
pub open spec fn spec_create_token_account_ix(
    mint: Seq<u8>,
    token_account: Seq<u8>,
    owner: Seq<u8>,
    payer: Seq<u8>,
) -> InstructionView {
    InstructionView {
        program_id: spec_program_id(),
        accounts: seq![
            meta(mint, false, false),
            meta(token_account, false, true),
            meta(owner, false, false),
            meta(payer, true, true),
            meta(spec_system_program_id(), false, false),
        ],
        data: create_token_account_tag(),
    }
}

/// `mint_tokens`: the mint's `authority` credits `amount` to `token_account`
/// and raises the mint's supply.
pub open spec fn spec_mint_tokens_ix(
    mint: Seq<u8>,
    token_account: Seq<u8>,
    authority: Seq<u8>,
    amount: u64,
) -> InstructionView {
    InstructionView {
        program_id: spec_program_id(),
        accounts: seq![
            meta(mint, false, true),
            meta(token_account, false, true),
            meta(authority, true, false),
        ],
        data: mint_tokens_tag() + spec_u64_le(amount),
    }
}

/// `transfer`: `owner` moves `amount` from its account `from` to `to`.
pub open spec fn spec_transfer_ix(from: Seq<u8>, to: Seq<u8>, owner: Seq<u8>, amount: u64) -> InstructionView {
    InstructionView {
        program_id: spec_program_id(),
        accounts: seq![meta(from, false, true), meta(to, false, true), meta(owner, true, false)],
        data: transfer_tag() + spec_u64_le(amount),
    }
}

/// `burn`: `owner` destroys `amount` from its `token_account` and lowers the
/// mint's supply.
pub open spec fn spec_burn_ix(mint: Seq<u8>, token_account: Seq<u8>, owner: Seq<u8>, amount: u64) -> InstructionView {
    InstructionView {
        program_id: spec_program_id(),
        accounts: seq![
            meta(mint, false, true),
            meta(token_account, false, true),
            meta(owner, true, false),
        ],
        data: burn_tag() + spec_u64_le(amount),
    }
}

fn account(pubkey: Pubkey, is_signer: bool, is_writable: bool) -> (res: AccountMeta)
    ensures
        res@ == meta(pubkey@, is_signer, is_writable),
{
    AccountMeta { pubkey, is_signer, is_writable }
}

pub fn initialize_instruction(mint: Pubkey, authority: Pubkey, decimals: u8) -> (ix: Instruction)
    ensures
        ix@ == spec_initialize_ix(mint@, authority@, decimals),
{
    let accounts = vec![
        account(mint, true, true),
        account(authority, true, true),
        account(system_program_id(), false, false),
    ];
    let mut data = vec![175u8, 175, 109, 31, 13, 152, 155, 237];
    data.push(decimals);
    let ix = Instruction { program_id: program_id(), accounts, data };
    assert(ix@.accounts =~= spec_initialize_ix(mint@, authority@, decimals).accounts);
    assert(ix@.data =~= spec_initialize_ix(mint@, authority@, decimals).data);
    ix
}

pub fn create_token_account_instruction(
    mint: Pubkey,
    token_account: Pubkey,
    owner: Pubkey,
    payer: Pubkey,
) -> (ix: Instruction)
    ensures
        ix@ == spec_create_token_account_ix(mint@, token_account@, owner@, payer@),
{
    let accounts = vec![
        account(mint, false, false),
        account(token_account, false, true),
        account(owner, false, false),
        account(payer, true, true),
        account(system_program_id(), false, false),
    ];
    let data = vec![147u8, 241, 123, 100, 244, 132, 174, 118];
    let ix = Instruction { program_id: program_id(), accounts, data };
    assert(ix@.accounts =~= spec_create_token_account_ix(mint@, token_account@, owner@, payer@).accounts);
    assert(ix@.data =~= create_token_account_tag());
    ix
}

pub fn mint_tokens_instruction(mint: Pubkey, token_account: Pubkey, authority: Pubkey, amount: u64) -> (ix: Instruction)
    ensures
        ix@ == spec_mint_tokens_ix(mint@, token_account@, authority@, amount),
{
    let accounts = vec![
        account(mint, false, true),
        account(token_account, false, true),
        account(authority, true, false),
    ];
    let mut data = vec![59u8, 132, 24, 246, 122, 39, 8, 243];
    assert(data@ =~= mint_tokens_tag());
    push_u64_le(&mut data, amount);
    let ix = Instruction { program_id: program_id(), accounts, data };
    assert(ix@.accounts =~= spec_mint_tokens_ix(mint@, token_account@, authority@, amount).accounts);
    ix
}

pub fn transfer_instruction(from: Pubkey, to: Pubkey, owner: Pubkey, amount: u64) -> (ix: Instruction)
    ensures
        ix@ == spec_transfer_ix(from@, to@, owner@, amount),
{
    let accounts = vec![account(from, false, true), account(to, false, true), account(owner, true, false)];
    let mut data = vec![163u8, 52, 200, 231, 140, 3, 69, 186];
    assert(data@ =~= transfer_tag());
    push_u64_le(&mut data, amount);
    let ix = Instruction { program_id: program_id(), accounts, data };
    assert(ix@.accounts =~= spec_transfer_ix(from@, to@, owner@, amount).accounts);
    ix
}

pub fn burn_instruction(mint: Pubkey, token_account: Pubkey, owner: Pubkey, amount: u64) -> (ix: Instruction)
    ensures
        ix@ == spec_burn_ix(mint@, token_account@, owner@, amount),
{
    let accounts = vec![
        account(mint, false, true),
        account(token_account, false, true),
        account(owner, true, false),
    ];
    let mut data = vec![116u8, 110, 29, 56, 107, 219, 42, 93];
    assert(data@ =~= burn_tag());
    push_u64_le(&mut data, amount);
    let ix = Instruction { program_id: program_id(), accounts, data };
    assert(ix@.accounts =~= spec_burn_ix(mint@, token_account@, owner@, amount).accounts);
    ix
}

} // verus!
