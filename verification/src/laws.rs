use vstd::prelude::*;

use crate::address::{spec_parse_pubkey, spec_program_id, spec_system_program_id, spec_token_account};
use crate::mint_record::{
    spec_decode_token_amount, spec_decode_token_mint, token_account_tag, token_mint_tag, TokenMintView,
};
use crate::error::CliError;
use crate::keypair::{spec_json_bytes, spec_keypair_accepts, spec_load_keypair, spec_tilde_outcome};
use crate::commands::{spec_init_new_mint, spec_balance, spec_burn, spec_create_account, spec_mint_tokens, spec_transfer};
use crate::instruction::{
    initialize_tag, meta, spec_initialize_ix, lemma_u64_le_roundtrip, spec_burn_ix, spec_mint_tokens_ix, spec_transfer_ix, spec_u64_from_le,
    spec_u64_le,
};

verus! {

/// Tokens minted to an owner land in the token account that `create_account`
/// makes for that owner and mint, whoever pays: both plans succeed or fail
/// together, with the same error, and name the same account and owner.
pub proof fn law_minted_tokens_land_in_created_account(
    creator: Seq<u8>,
    authority: Seq<u8>,
    mint: Seq<char>,
    owner: Seq<char>,
    amount: u64,
)
    ensures
        match (spec_create_account(creator, mint, Some(owner)), spec_mint_tokens(authority, mint, owner, amount)) {
            (Ok(c), Ok(m)) => c.token_account == m.token_account && c.owner == m.owner
                && m.instruction.accounts[1].key == c.token_account,
            (Err(e1), Err(e2)) => e1 == e2,
            _ => false,
        },
{
}

/// A transfer moves tokens from the account that `create_account` makes for
/// the payer (no owner given) to the one it makes for the recipient: the
/// transfer can be planned exactly when both accounts can, and then its
/// source and destination are those accounts.
pub proof fn law_transfer_links_created_accounts(
    payer: Seq<u8>,
    creator: Seq<u8>,
    mint: Seq<char>,
    recipient: Seq<char>,
    amount: u64,
)
    ensures
        spec_transfer(payer, mint, recipient, amount) is Ok <==> (spec_create_account(payer, mint, None) is Ok
            && spec_create_account(creator, mint, Some(recipient)) is Ok),
        spec_transfer(payer, mint, recipient, amount) matches Ok(t) ==> {
            &&& spec_create_account(payer, mint, None) matches Ok(from)
            &&& spec_create_account(creator, mint, Some(recipient)) matches Ok(to)
            &&& t.from_account == from.token_account
            &&& t.to_account == to.token_account
            &&& t.recipient == to.owner
        },
{
}

/// A burn draws on the account that `create_account` makes for the payer
/// (no owner given): both plans succeed or fail together, with the same
/// error, and name the same account.
pub proof fn law_burn_draws_on_payers_account(payer: Seq<u8>, mint: Seq<char>, amount: u64)
    ensures
        match (spec_create_account(payer, mint, None), spec_burn(payer, mint, amount)) {
            (Ok(c), Ok(b)) => c.token_account == b.token_account && c.mint == b.mint,
            (Err(e1), Err(e2)) => e1 == e2,
            _ => false,
        },
{
}

/// A transfer to oneself draws on and credits the same account.
pub proof fn law_self_transfer_uses_one_account(payer: Seq<u8>, mint: Seq<char>, to: Seq<char>, amount: u64)
    requires
        spec_parse_pubkey(to) == Some(payer),
    ensures
        spec_transfer(payer, mint, to, amount) matches Ok(t) ==> t.from_account == t.to_account,
{
}

/// Leaving out the owner of a new token account is the same as naming the
/// payer: any text that parses to the payer's address gives the same plan.
pub proof fn law_default_owner_is_payer(payer: Seq<u8>, mint: Seq<char>, owner: Seq<char>)
    requires
        spec_parse_pubkey(owner) == Some(payer),
    ensures
        spec_create_account(payer, mint, None) == spec_create_account(payer, mint, Some(owner)),
{
}

/// The data of `mint_tokens`, `transfer` and `burn` is an eight-byte tag
/// followed by the amount, which reads back as the amount given.
pub proof fn law_amount_reads_back(
    mint: Seq<u8>,
    account: Seq<u8>,
    other: Seq<u8>,
    signer: Seq<u8>,
    amount: u64,
)
    ensures
        spec_mint_tokens_ix(mint, account, signer, amount).data.len() == 16,
        spec_u64_from_le(spec_mint_tokens_ix(mint, account, signer, amount).data.subrange(8, 16)) == amount,
        spec_transfer_ix(account, other, signer, amount).data.len() == 16,
        spec_u64_from_le(spec_transfer_ix(account, other, signer, amount).data.subrange(8, 16)) == amount,
        spec_burn_ix(mint, account, signer, amount).data.len() == 16,
        spec_u64_from_le(spec_burn_ix(mint, account, signer, amount).data.subrange(8, 16)) == amount,
{
    lemma_u64_le_roundtrip(amount);
    let le = spec_u64_le(amount);
    assert(spec_mint_tokens_ix(mint, account, signer, amount).data.subrange(8, 16) =~= le);
    assert(spec_transfer_ix(account, other, signer, amount).data.subrange(8, 16) =~= le);
    assert(spec_burn_ix(mint, account, signer, amount).data.subrange(8, 16) =~= le);
}

/// A balance is read from the account that `create_account` makes for the
/// same owner (the payer where none is given), and that `mint_tokens`
/// credits: the plans succeed or fail together, with the same error, and
/// name the same account.
pub proof fn law_balance_reads_created_account(
    payer: Seq<u8>,
    authority: Seq<u8>,
    mint: Seq<char>,
    owner: Option<Seq<char>>,
    amount: u64,
)
    ensures
        match (spec_balance(payer, mint, owner), spec_create_account(payer, mint, owner)) {
            (Ok(b), Ok(c)) => b == c.token_account,
            (Err(e1), Err(e2)) => e1 == e2,
            _ => false,
        },
        owner matches Some(o) ==> match (spec_balance(payer, mint, owner), spec_mint_tokens(authority, mint, o, amount)) {
            (Ok(b), Ok(m)) => b == m.token_account,
            (Err(e1), Err(e2)) => e1 == e2,
            _ => false,
        },
{
}

/// A keypair path written under `~/` and the same path written under the
/// home directory name the same file: with the same home directory, both
/// expand to `<home>/<rel>`. This fails only where the home directory itself
/// opens with `~/` or `~\`, so that the spelled-out path is expanded once
/// more.
pub proof fn law_tilde_path_is_home_path(
    home: Seq<char>,
    rel: Seq<char>,
    via_tilde: Seq<char>,
    spelled_out: Seq<char>,
)
    requires
        !(home.len() > 1 && home[0] == '~' && (home[1] == '/' || home[1] == '\\')),
        spec_tilde_outcome(seq!['~', '/'] + rel, Some(home), via_tilde),
        spec_tilde_outcome(home + seq!['/'] + rel, Some(home), spelled_out),
    ensures
        via_tilde == spelled_out,
        via_tilde == home + seq!['/'] + rel,
{
    let tilde_path = seq!['~', '/'] + rel;
    let home_path = home + seq!['/'] + rel;
    assert(tilde_path[0] == '~' && tilde_path[1] == '/');
    assert(tilde_path.skip(1) =~= seq!['/'] + rel);
    assert(home + (seq!['/'] + rel) =~= home_path);
    if home.len() == 0 {
        assert(home_path[0] == '/');
    } else if home.len() == 1 {
        assert(home_path[0] == home[0]);
        assert(home_path[1] == '/');
        if home[0] == '~' {
            assert(home_path.skip(1) =~= seq!['/'] + rel);
        }
    } else {
        assert(home_path[0] == home[0]);
        assert(home_path[1] == home[1]);
    }
}

/// The bytes of an amount are little-endian: byte `i` is the `i`-th digit of
/// the amount in base 256.
pub proof fn law_amount_bytes_are_little_endian(v: u64)
    ensures
        spec_u64_le(v).len() == 8,
        spec_u64_le(v)[0] == v % 256,
        spec_u64_le(v)[1] == (v / 256) % 256,
        spec_u64_le(v)[2] == (v / 65536) % 256,
        spec_u64_le(v)[3] == (v / 16777216) % 256,
        spec_u64_le(v)[4] == (v / 4294967296) % 256,
        spec_u64_le(v)[5] == (v / 1099511627776) % 256,
        spec_u64_le(v)[6] == (v / 281474976710656) % 256,
        spec_u64_le(v)[7] == (v / 72057594037927936) % 256,
{
    assert((v & 0xff) as u8 == v % 256) by (bit_vector);
    assert(((v >> 8u64) & 0xff) as u8 == (v / 256) % 256) by (bit_vector);
    assert(((v >> 16u64) & 0xff) as u8 == (v / 65536) % 256) by (bit_vector);
    assert(((v >> 24u64) & 0xff) as u8 == (v / 16777216) % 256) by (bit_vector);
    assert(((v >> 32u64) & 0xff) as u8 == (v / 4294967296) % 256) by (bit_vector);
    assert(((v >> 40u64) & 0xff) as u8 == (v / 1099511627776) % 256) by (bit_vector);
    assert(((v >> 48u64) & 0xff) as u8 == (v / 281474976710656) % 256) by (bit_vector);
    assert(((v >> 56u64) & 0xff) as u8 == (v / 72057594037927936) % 256) by (bit_vector);
}

/// `init` creates the mint at `mint`, which signs and is written, paid for
/// by `authority`, which signs and is written, through the system program;
/// its data is the `initialize` tag followed by the decimals given.
pub proof fn law_init_carries_its_arguments(mint: Seq<u8>, authority: Seq<u8>, decimals: u8)
    ensures
        spec_initialize_ix(mint, authority, decimals).program_id == spec_program_id(),
        spec_initialize_ix(mint, authority, decimals).accounts.len() == 3,
        spec_initialize_ix(mint, authority, decimals).accounts[0] == meta(mint, true, true),
        spec_initialize_ix(mint, authority, decimals).accounts[1] == meta(authority, true, true),
        spec_initialize_ix(mint, authority, decimals).accounts[2] == meta(spec_system_program_id(), false, false),
        spec_initialize_ix(mint, authority, decimals).data.len() == 9,
        spec_initialize_ix(mint, authority, decimals).data.subrange(0, 8) == initialize_tag(),
        spec_initialize_ix(mint, authority, decimals).data[8] == decimals,
{
    assert(spec_initialize_ix(mint, authority, decimals).data.subrange(0, 8) =~= initialize_tag());
}

/// `create_account` names the mint (read), the owner's derived token account
/// (written), the owner (read), the payer (signs and pays, written) and the
/// system program, with the owner the one given or else the payer.
pub proof fn law_create_account_roles(payer: Seq<u8>, mint: Seq<char>, owner: Option<Seq<char>>)
    ensures
        spec_create_account(payer, mint, owner) matches Ok(c) ==> {
            &&& spec_parse_pubkey(mint) == Some(c.mint)
            &&& (owner matches Some(t) ==> spec_parse_pubkey(t) == Some(c.owner))
            &&& (owner is None ==> c.owner == payer)
            &&& spec_token_account(c.owner, c.mint) == Some(c.token_account)
            &&& c.instruction.program_id == spec_program_id()
            &&& c.instruction.accounts.len() == 5
            &&& c.instruction.accounts[0] == meta(c.mint, false, false)
            &&& c.instruction.accounts[1] == meta(c.token_account, false, true)
            &&& c.instruction.accounts[2] == meta(c.owner, false, false)
            &&& c.instruction.accounts[3] == meta(payer, true, true)
            &&& c.instruction.accounts[4] == meta(spec_system_program_id(), false, false)
            &&& c.instruction.data.len() == 8
        },
{
}

/// `mint_tokens` credits the derived token account of the owner `to`, and the
/// payer signs as the mint's authority whoever the owner is; the mint is
/// written (its supply grows), and the data carries the amount.
pub proof fn law_mint_tokens_roles(payer: Seq<u8>, mint: Seq<char>, to: Seq<char>, amount: u64)
    ensures
        spec_mint_tokens(payer, mint, to, amount) matches Ok(m) ==> {
            &&& spec_parse_pubkey(mint) matches Some(mint_key)
            &&& spec_parse_pubkey(to) == Some(m.owner)
            &&& spec_token_account(m.owner, mint_key) == Some(m.token_account)
            &&& m.instruction.program_id == spec_program_id()
            &&& m.instruction.accounts.len() == 3
            &&& m.instruction.accounts[0] == meta(mint_key, false, true)
            &&& m.instruction.accounts[1] == meta(m.token_account, false, true)
            &&& m.instruction.accounts[2] == meta(payer, true, false)
            &&& m.instruction.data.len() == 16
            &&& spec_u64_from_le(m.instruction.data.subrange(8, 16)) == amount
        },
{
    lemma_u64_le_roundtrip(amount);
    if spec_mint_tokens(payer, mint, to, amount) is Ok {
        let m = spec_mint_tokens(payer, mint, to, amount)->Ok_0;
        assert(m.instruction.data.subrange(8, 16) =~= spec_u64_le(amount));
    }
}

/// `transfer` draws on the payer's derived token account and credits the
/// recipient's, both written; the payer signs as owner; the data carries the
/// amount.
pub proof fn law_transfer_roles(payer: Seq<u8>, mint: Seq<char>, to: Seq<char>, amount: u64)
    ensures
        spec_transfer(payer, mint, to, amount) matches Ok(t) ==> {
            &&& spec_parse_pubkey(mint) matches Some(mint_key)
            &&& spec_parse_pubkey(to) == Some(t.recipient)
            &&& spec_token_account(payer, mint_key) == Some(t.from_account)
            &&& spec_token_account(t.recipient, mint_key) == Some(t.to_account)
            &&& t.instruction.program_id == spec_program_id()
            &&& t.instruction.accounts.len() == 3
            &&& t.instruction.accounts[0] == meta(t.from_account, false, true)
            &&& t.instruction.accounts[1] == meta(t.to_account, false, true)
            &&& t.instruction.accounts[2] == meta(payer, true, false)
            &&& t.instruction.data.len() == 16
            &&& spec_u64_from_le(t.instruction.data.subrange(8, 16)) == amount
        },
{
    lemma_u64_le_roundtrip(amount);
    if spec_transfer(payer, mint, to, amount) is Ok {
        let t = spec_transfer(payer, mint, to, amount)->Ok_0;
        assert(t.instruction.data.subrange(8, 16) =~= spec_u64_le(amount));
    }
}

/// `burn` draws on the payer's derived token account; the mint is written
/// (its supply shrinks), the account is written, the payer signs as owner;
/// the data carries the amount.
pub proof fn law_burn_roles(payer: Seq<u8>, mint: Seq<char>, amount: u64)
    ensures
        spec_burn(payer, mint, amount) matches Ok(b) ==> {
            &&& spec_parse_pubkey(mint) == Some(b.mint)
            &&& spec_token_account(payer, b.mint) == Some(b.token_account)
            &&& b.instruction.program_id == spec_program_id()
            &&& b.instruction.accounts.len() == 3
            &&& b.instruction.accounts[0] == meta(b.mint, false, true)
            &&& b.instruction.accounts[1] == meta(b.token_account, false, true)
            &&& b.instruction.accounts[2] == meta(payer, true, false)
            &&& b.instruction.data.len() == 16
            &&& spec_u64_from_le(b.instruction.data.subrange(8, 16)) == amount
        },
{
    lemma_u64_le_roundtrip(amount);
    if spec_burn(payer, mint, amount) is Ok {
        let b = spec_burn(payer, mint, amount)->Ok_0;
        assert(b.instruction.data.subrange(8, 16) =~= spec_u64_le(amount));
    }
}

/// A mint record written as the tag, a 32-byte authority, the supply's
/// little-endian bytes and the decimals (with anything after it) reads back
/// as that authority, supply and decimals.
pub proof fn law_mint_record_reads_back(authority: Seq<u8>, supply: u64, decimals: u8, rest: Seq<u8>)
    requires
        authority.len() == 32,
    ensures
        spec_decode_token_mint(token_mint_tag() + authority + spec_u64_le(supply) + seq![decimals] + rest)
            == Ok::<TokenMintView, CliError>(
            TokenMintView { authority, total_supply: supply, decimals },
        ),
{
    lemma_u64_le_roundtrip(supply);
    let data = token_mint_tag() + authority + spec_u64_le(supply) + seq![decimals] + rest;
    assert(data.len() >= 49);
    assert(data.subrange(0, 8) =~= token_mint_tag());
    assert(data.subrange(8, 40) =~= authority);
    assert(data.subrange(40, 48) =~= spec_u64_le(supply));
    assert(data[48] == decimals);
}

/// A token-account record written as the tag, two 32-byte addresses and the
/// amount's little-endian bytes (with anything after it) reads back as that
/// amount, over the whole range of `u64`.
pub proof fn law_token_amount_reads_back(owner: Seq<u8>, mint: Seq<u8>, amount: u64, rest: Seq<u8>)
    requires
        owner.len() == 32,
        mint.len() == 32,
    ensures
        spec_decode_token_amount(token_account_tag() + owner + mint + spec_u64_le(amount) + rest)
            == Ok::<u64, CliError>(amount),
{
    lemma_u64_le_roundtrip(amount);
    let data = token_account_tag() + owner + mint + spec_u64_le(amount) + rest;
    assert(data.len() >= 80);
    assert(data.subrange(0, 8) =~= token_account_tag());
    assert(data.subrange(72, 80) =~= spec_u64_le(amount));
}

/// A freshly made mint keypair: the mint is its public half, the instruction
/// creates that mint (signing and written) paid for by the payer (signing and
/// written) with the decimals given, and the printed line names the file the
/// keypair is kept in.
pub proof fn law_new_mint_plan(payer: Seq<u8>, keypair: Seq<u8>, decimals: u8)
    ensures
        spec_init_new_mint(payer, keypair, decimals).mint == keypair.subrange(32, 64),
        spec_init_new_mint(payer, keypair, decimals).instruction.accounts[0]
            == meta(keypair.subrange(32, 64), true, true),
        spec_init_new_mint(payer, keypair, decimals).instruction.accounts[1] == meta(payer, true, true),
        spec_init_new_mint(payer, keypair, decimals).instruction.data.len() == 9,
        spec_init_new_mint(payer, keypair, decimals).instruction.data[8] == decimals,
        spec_init_new_mint(payer, keypair, decimals).notice
            == "Generated new mint keypair: "@ + spec_init_new_mint(payer, keypair, decimals).file_name,
{
}

/// A balance is read from the derived token account of the owner given, or
/// of the payer where none is given.
pub proof fn law_balance_account(payer: Seq<u8>, mint: Seq<char>, owner: Option<Seq<char>>)
    ensures
        spec_balance(payer, mint, owner) matches Ok(account) ==> {
            &&& spec_parse_pubkey(mint) matches Some(mint_key)
            &&& match owner {
                Some(t) => spec_parse_pubkey(t) matches Some(owner_key)
                    && spec_token_account(owner_key, mint_key) == Some(account),
                None => spec_token_account(payer, mint_key) == Some(account),
            }
        },
{
}

/// A mint address that does not parse refuses every command with
/// `InvalidMintAddress`, before any other argument is looked at.
pub proof fn law_bad_mint_refused_first(
    payer: Seq<u8>,
    mint: Seq<char>,
    other: Seq<char>,
    owner: Option<Seq<char>>,
    amount: u64,
)
    requires
        spec_parse_pubkey(mint) is None,
    ensures
        spec_create_account(payer, mint, owner) is Err && spec_create_account(payer, mint, owner)->Err_0
            == CliError::InvalidMintAddress,
        spec_mint_tokens(payer, mint, other, amount) is Err && spec_mint_tokens(payer, mint, other, amount)->Err_0
            == CliError::InvalidMintAddress,
        spec_transfer(payer, mint, other, amount) is Err && spec_transfer(payer, mint, other, amount)->Err_0
            == CliError::InvalidMintAddress,
        spec_burn(payer, mint, amount) is Err && spec_burn(payer, mint, amount)->Err_0
            == CliError::InvalidMintAddress,
        spec_balance(payer, mint, owner) == Err::<Seq<u8>, CliError>(CliError::InvalidMintAddress),
{
}

/// A loaded keypair is exactly the byte array the file lists, and only an
/// array that `solana-keypair` accepts loads.
pub proof fn law_loaded_keypair_is_the_listed_bytes(text: Seq<char>)
    ensures
        spec_load_keypair(text) matches Ok(k) ==> spec_json_bytes(text) == Some(k) && spec_keypair_accepts(k),
        spec_json_bytes(text) is None ==> spec_load_keypair(text) == Err::<Seq<u8>, CliError>(CliError::KeypairNotJson),
        spec_json_bytes(text) matches Some(b) && !spec_keypair_accepts(b) ==> spec_load_keypair(text)
            == Err::<Seq<u8>, CliError>(CliError::InvalidKeypair),
{
}

/// Data that does not open with a record's tag is refused as not being that
/// record, whatever its length.
pub proof fn law_records_check_their_tag(data: Seq<u8>)
    ensures
        (data.len() < 8 || data.subrange(0, 8) != token_mint_tag()) ==> spec_decode_token_mint(data)
            == Err::<TokenMintView, CliError>(CliError::NotAMintRecord),
        (data.len() < 8 || data.subrange(0, 8) != token_account_tag()) ==> spec_decode_token_amount(data)
            == Err::<u64, CliError>(CliError::NotATokenAccount),
{
}

} // verus!
