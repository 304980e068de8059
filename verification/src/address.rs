use vstd::prelude::*;

verus! {

/// A 32-byte account address.
#[derive(Clone, Copy, Debug)]
pub struct Pubkey {
    pub bytes: [u8; 32],
}

impl View for Pubkey {
    type V = Seq<u8>;

    open spec fn view(&self) -> Seq<u8> {
        self.bytes@
    }
}

/// What `Pubkey::from_str` of `solana-pubkey` yields on a text: the 32
/// bytes that its base58 form decodes to, or `None`.
pub uninterp spec fn spec_parse_pubkey(text: Seq<char>) -> Option<Seq<u8>>;

/// What the `Display` impl of `solana-pubkey`'s `Pubkey` writes: the base58
/// text of the 32 bytes.
pub uninterp spec fn spec_base58(bytes: Seq<u8>) -> Seq<char>;

/// What `Pubkey::try_find_program_address` of `solana-pubkey` yields for the
/// seeds and the program: the derived address and its bump seed, or `None`
/// where the seeds break its limits or no bump gives an address off the curve.
pub uninterp spec fn spec_find_program_address(seeds: Seq<Seq<u8>>, program: Seq<u8>) -> Option<(Seq<u8>, u8)>;

/// Calls `<solana_pubkey::Pubkey as FromStr>::from_str`. Claims that the
/// result is the named decoding of the text, and, as the source shows, that
/// a text longer than 44 characters is refused.
#[verifier::external_body]
fn parse_base58(text: &str) -> (res: Option<Pubkey>)
    ensures
        match res {
            Some(k) => spec_parse_pubkey(text@) == Some(k@),
            None => spec_parse_pubkey(text@) is None,
        },
        text@.len() > 44 ==> res is None,
{
    match <solana_pubkey::Pubkey as std::str::FromStr>::from_str(text) {
        Ok(k) => Some(Pubkey { bytes: k.to_bytes() }),
        Err(_) => None,
    }
}

/// Calls `ToString::to_string` on a `solana_pubkey::Pubkey`, which writes its
/// base58 form. Claims that the text is the named encoding, and that
/// `from_str` decodes it back to the same bytes, as the crate's own test
/// `pubkey_fromstr` checks of an encoded key.
#[verifier::external_body]
fn base58_text(key: &Pubkey) -> (res: String)
    ensures
        res@ == spec_base58(key@),
        spec_parse_pubkey(res@) == Some(key@),
{
    solana_pubkey::Pubkey::new_from_array(key.bytes).to_string()
}

/// Calls `solana_pubkey::Pubkey::try_find_program_address`. Claims that the
/// result is the named derivation of the seeds and the program address.
#[verifier::external_body]
fn try_find_program_address(seeds: &Vec<Vec<u8>>, program: &Pubkey) -> (res: Option<(Pubkey, u8)>)
    ensures
        match res {
            Some((k, bump)) => spec_find_program_address(seeds.deep_view(), program@) == Some((k@, bump)),
            None => spec_find_program_address(seeds.deep_view(), program@) is None,
        },
{
    let slices: Vec<&[u8]> = seeds.iter().map(|s| s.as_slice()).collect();
    let program_key = solana_pubkey::Pubkey::new_from_array(program.bytes);
    match solana_pubkey::Pubkey::try_find_program_address(&slices, &program_key) {
        Some((k, bump)) => Some((Pubkey { bytes: k.to_bytes() }, bump)),
        None => None,
    }
}

/// Reads `solana_system_interface::program::ID`, declared from the base58
/// text of thirty-two `1` characters. Claims that its bytes are all zero,
/// which is what that text decodes to.
#[verifier::external_body]
fn system_program_key() -> (res: Pubkey)
    ensures
        res@ == Seq::new(32, |i: int| 0u8),
{
    Pubkey { bytes: solana_system_interface::program::ID.to_bytes() }
}

/// Parses a base58 address.
pub fn parse_pubkey(text: &str) -> (res: Option<Pubkey>)
    ensures
        match res {
            Some(k) => spec_parse_pubkey(text@) == Some(k@),
            None => spec_parse_pubkey(text@) is None,
        },
{
    parse_base58(text)
}

/// Writes an address as base58 text.
pub fn pubkey_to_string(key: &Pubkey) -> (res: String)
    ensures
        res@ == spec_base58(key@),
        spec_parse_pubkey(res@) == Some(key@),
{
    base58_text(key)
}

/// The address of the system program.
pub open spec fn spec_system_program_id() -> Seq<u8> {
    Seq::new(32, |i: int| 0u8)
}

pub fn system_program_id() -> (res: Pubkey)
    ensures
        res@ == spec_system_program_id(),
{
    system_program_key()
}

/// The address of the token program, whose base58 form is
/// `48WQW8ZMQKJhV1FKnGrYVDMEoqc8XutQmvKuqcmRrKux`.
pub open spec fn spec_program_id() -> Seq<u8> {
    seq![
        46u8, 127, 96, 1, 93, 108, 130, 28, 81, 159, 3, 98, 198, 10, 32, 10,
        45, 18, 192, 173, 48, 111, 180, 163, 106, 0, 194, 112, 164, 162, 233, 239,
    ]
}

pub fn program_id() -> (res: Pubkey)
    ensures
        res@ == spec_program_id(),
{
    let res = Pubkey {
        bytes: [
            46u8, 127, 96, 1, 93, 108, 130, 28, 81, 159, 3, 98, 198, 10, 32, 10,
            45, 18, 192, 173, 48, 111, 180, 163, 106, 0, 194, 112, 164, 162, 233, 239,
        ],
    };
    assert(res@ =~= spec_program_id());
    res
}

/// The bytes of an address, in a vector.
pub fn key_bytes(key: &Pubkey) -> (res: Vec<u8>)
    ensures
        res@ == key@,
{
    let mut res: Vec<u8> = Vec::new();
    for i in 0..32
        invariant
            res@ == key@.take(i as int),
            key@.len() == 32,
    {
        res.push(key.bytes[i]);
        assert(res@ =~= key@.take(i + 1));
    }
    assert(key@.take(32) =~= key@);
    res
}

/// The seed that opens the derivation of every token account: the bytes of
/// the text `token`.
pub open spec fn token_seed() -> Seq<u8> {
    seq![116u8, 111, 107, 101, 110]
}

/// The seeds of the token account that `owner` holds for `mint`.
pub open spec fn token_account_seeds(owner: Seq<u8>, mint: Seq<u8>) -> Seq<Seq<u8>> {
    seq![token_seed(), owner, mint]
}

/// The program-derived address of the token account that `owner` holds for
/// `mint`, or `None` where the derivation finds no address.
pub open spec fn spec_token_account(owner: Seq<u8>, mint: Seq<u8>) -> Option<Seq<u8>> {
    match spec_find_program_address(token_account_seeds(owner, mint), spec_program_id()) {
        Some((k, _)) => Some(k),
        None => None,
    }
}

/// Derives the token account of `owner` for `mint` under the token program.
pub fn token_account_address(owner: &Pubkey, mint: &Pubkey) -> (res: Option<Pubkey>)
    ensures
        match res {
            Some(k) => spec_token_account(owner@, mint@) == Some(k@),
            None => spec_token_account(owner@, mint@) is None,
        },
{
    let tag = vec![116u8, 111, 107, 101, 110];
    let owner_bytes = key_bytes(owner);
    let mint_bytes = key_bytes(mint);
    assert(tag.deep_view() =~= token_seed());
    assert(owner_bytes.deep_view() =~= owner@);
    assert(mint_bytes.deep_view() =~= mint@);
    let seeds = vec![tag, owner_bytes, mint_bytes];
    assert(seeds.deep_view() =~= token_account_seeds(owner@, mint@));
    let program = program_id();
    match try_find_program_address(&seeds, &program) {
        Some((k, _bump)) => Some(k),
        None => None,
    }
}

} // verus!
