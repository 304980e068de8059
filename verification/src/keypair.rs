use vstd::prelude::*;
use vstd::string::*;

use crate::address::{pubkey_to_string, spec_base58, Pubkey};
use crate::commands::text_opt;
use crate::error::CliError;

verus! {

/// What `serde_json::from_str::<Vec<u8>>` yields on a text: the bytes of a
/// JSON array of integers from 0 to 255, or `None`.
pub uninterp spec fn spec_json_bytes(text: Seq<char>) -> Option<Seq<u8>>;

/// The decimal digits of a byte, without leading zeros.
pub open spec fn spec_decimal(b: u8) -> Seq<char> {
    if b >= 100 {
        seq![digit(b / 100), digit((b / 10) % 10), digit(b % 10)]
    } else if b >= 10 {
        seq![digit(b / 10), digit(b % 10)]
    } else {
        seq![digit(b)]
    }
}

pub open spec fn digit(d: u8) -> char {
    (d + 48) as char
}

/// The decimals of the bytes, separated by commas.
pub open spec fn spec_decimal_list(bytes: Seq<u8>) -> Seq<char>
    decreases bytes.len(),
{
    if bytes.len() == 0 {
        seq![]
    } else if bytes.len() == 1 {
        spec_decimal(bytes[0])
    } else {
        spec_decimal_list(bytes.drop_last()) + seq![','] + spec_decimal(bytes.last())
    }
}

/// A byte vector written as a JSON array: `[`, the decimals joined by `,`,
/// `]`, with no spaces.
pub open spec fn spec_json_array(bytes: Seq<u8>) -> Seq<char> {
    seq!['['] + spec_decimal_list(bytes) + seq![']']
}

/// Whether `solana_keypair::Keypair::from_bytes` accepts the bytes: 32 secret
/// bytes followed by the 32 bytes of the public key that the secret yields.
pub uninterp spec fn spec_keypair_accepts(bytes: Seq<u8>) -> bool;

/// Calls `serde_json::from_str::<Vec<u8>>`. Claims that the result is the
/// named reading of the text.
#[verifier::external_body]
fn json_byte_array(text: &str) -> (res: Option<Vec<u8>>)
    ensures
        match res {
            Some(b) => spec_json_bytes(text@) == Some(b@),
            None => spec_json_bytes(text@) is None,
        },
{
    serde_json::from_str::<Vec<u8>>(text).ok()
}

/// Calls `serde_json::to_string` on a byte vector. Claims, as the source
/// shows, that it succeeds (the output goes to a vector, and writing a byte
/// cannot fail) and writes the compact array: `[`, each byte in decimal
/// (`itoa`), separated by `,`, then `]`; and that `from_str` reads that text
/// back into the same bytes.
#[verifier::external_body]
fn byte_array_json(bytes: &Vec<u8>) -> (res: Option<String>)
    ensures
        res is Some,
        res.unwrap()@ == spec_json_array(bytes@),
        spec_json_bytes(res.unwrap()@) == Some(bytes@),
{
    serde_json::to_string(bytes).ok()
}

/// Calls `solana_keypair::Keypair::from_bytes` and reports whether it
/// succeeded. Claims that the answer is the named acceptance, and, as the
/// source shows (fewer than 64 bytes are refused, and the public half must be
/// exactly 32 bytes), that accepted bytes number 64.
#[verifier::external_body]
fn keypair_bytes_accepted(bytes: &[u8]) -> (ok: bool)
    ensures
        ok == spec_keypair_accepts(bytes@),
        ok ==> bytes@.len() == 64,
{
    #[allow(deprecated)]
    let parsed = solana_keypair::Keypair::from_bytes(bytes);
    parsed.is_ok()
}

/// Whether `path` opens with a `~` that stands for the home directory: a
/// lone `~`, or `~` followed by `/`.
pub open spec fn opens_with_home_tilde(path: Seq<char>) -> bool {
    path.len() > 0 && path[0] == '~' && (path.len() == 1 || path[1] == '/')
}

/// What expanding a leading `~` of `path` with the home directory `home`
/// may give: the home directory in place of the `~` where the path opens
/// with `~` or `~/` and a home directory is known; the path unchanged where
/// it does not open with `~`, where `~` is followed by a character other
/// than a separator, or where no home directory is known. After `~\` the
/// platform decides whether `\` is a separator, so either outcome may come.
pub open spec fn spec_tilde_outcome(path: Seq<char>, home: Option<Seq<char>>, res: Seq<char>) -> bool {
    if path.len() > 1 && path[0] == '~' && path[1] == '\\' {
        res == path || (home matches Some(h) && res == h + path.skip(1))
    } else if opens_with_home_tilde(path) {
        match home {
            Some(h) => res == h + path.skip(1),
            None => res == path,
        }
    } else {
        res == path
    }
}

/// Calls `shellexpand::tilde_with_context` with the home directory given.
/// Claims what its source shows: the home directory replaces a `~` that
/// stands alone or before `/` (on Windows also before `\`), and the path is
/// otherwise returned unchanged.
#[verifier::external_body]
fn expand_tilde_with(path: &str, home: Option<&str>) -> (res: String)
    ensures
        spec_tilde_outcome(path@, text_opt(home), res@),
{
    shellexpand::tilde_with_context(path, || home).into_owned()
}

/// Calls `dirs::home_dir`, as `shellexpand::tilde` does, and keeps the
/// directory where it is Unicode text. The directory comes from the
/// environment (`HOME`, else the user database), so nothing is stated of it.
#[verifier::external_body]
fn home_directory() -> (res: Option<String>)
{
    dirs::home_dir().and_then(|p| p.into_os_string().into_string().ok())
}

/// The 64 bytes of a keypair that `solana_keypair` accepts: the secret key,
/// then the public key.
pub struct KeypairBytes {
    bytes: Vec<u8>,
}

impl View for KeypairBytes {
    type V = Seq<u8>;

    closed spec fn view(&self) -> Seq<u8> {
        self.bytes@
    }
}

impl KeypairBytes {
    #[verifier::type_invariant]
    spec fn accepted(self) -> bool {
        self.bytes@.len() == 64 && spec_keypair_accepts(self.bytes@)
    }

    /// Takes the bytes where they form a keypair.
    pub fn from_bytes(bytes: Vec<u8>) -> (res: Option<KeypairBytes>)
        ensures
            match res {
                Some(k) => spec_keypair_accepts(bytes@) && k@ == bytes@,
                None => !spec_keypair_accepts(bytes@),
            },
    {
        if keypair_bytes_accepted(bytes.as_slice()) {
            Some(KeypairBytes { bytes })
        } else {
            None
        }
    }

    /// The bytes, which a keypair of `solana_keypair` accepts.
    pub fn to_bytes(&self) -> (res: Vec<u8>)
        ensures
            res@ == self@,
            spec_keypair_accepts(res@),
            res@.len() == 64,
    {
        proof {
            use_type_invariant(self);
        }
        self.bytes.clone()
    }

    /// The public key: the second half of the bytes.
    pub fn pubkey(&self) -> (res: Pubkey)
        ensures
            res@ == self@.subrange(32, 64),
            self@.len() == 64,
    {
        proof {
            use_type_invariant(self);
        }
        let mut key = [0u8; 32];
        for i in 0..32
            invariant
                self.bytes@.len() == 64,
                forall|j: int| 0 <= j < i ==> key@[j] == self.bytes@[32 + j],
        {
            key[i] = self.bytes[32 + i];
        }
        let res = Pubkey { bytes: key };
        assert(res@ =~= self@.subrange(32, 64));
        res
    }
}

/// What a keypair file holding `text` yields: the keypair whose bytes the
/// JSON array lists, or why there is none.
pub open spec fn spec_load_keypair(text: Seq<char>) -> Result<Seq<u8>, CliError> {
    match spec_json_bytes(text) {
        None => Err(CliError::KeypairNotJson),
        Some(b) => if spec_keypair_accepts(b) {
            Ok(b)
        } else {
            Err(CliError::InvalidKeypair)
        },
    }
}

/// `load_keypair`: builds the keypair that a keypair file lists as a JSON
/// array of its 64 bytes; `text` is the file's contents.
pub fn load_keypair(text: &str) -> (res: Result<KeypairBytes, CliError>)
    ensures
        match res {
            Ok(k) => spec_load_keypair(text@) == Ok::<Seq<u8>, CliError>(k@),
            Err(e) => spec_load_keypair(text@) == Err::<Seq<u8>, CliError>(e),
        },
{
    let bytes = match json_byte_array(text) {
        Some(b) => b,
        None => return Err(CliError::KeypairNotJson),
    };
    match KeypairBytes::from_bytes(bytes) {
        Some(k) => Ok(k),
        None => Err(CliError::InvalidKeypair),
    }
}

/// The text of a keypair file for `keypair`: its bytes as a JSON array.
/// Loading that text gives the same keypair back.
pub fn keypair_to_json(keypair: &KeypairBytes) -> (res: String)
    ensures
        res@ == spec_json_array(keypair@),
        spec_load_keypair(res@) == Ok::<Seq<u8>, CliError>(keypair@),
{
    let bytes = keypair.to_bytes();
    match byte_array_json(&bytes) {
        Some(t) => t,
        None => String::new(),
    }
}

/// A path with a leading `~` replaced by the home directory `home`.
pub fn expand_home(path: &str, home: Option<&str>) -> (res: String)
    ensures
        spec_tilde_outcome(path@, text_opt(home), res@),
{
    expand_tilde_with(path, home)
}

/// The path of a keypair file, with a leading `~` replaced by the home
/// directory that the environment names, where there is one.
pub fn keypair_path(path: &str) -> (res: String)
    ensures
        exists|home: Option<Seq<char>>| spec_tilde_outcome(path@, home, res@),
{
    let home = home_directory();
    let res = match &home {
        Some(h) => expand_home(path, Some(h.as_str())),
        None => expand_home(path, None),
    };
    proof {
        let h = match home {
            Some(h) => Some(h@),
            None => None,
        };
        assert(spec_tilde_outcome(path@, h, res@));
    }
    res
}

/// The name of the file in which a freshly made mint keypair is kept.
pub open spec fn spec_mint_keypair_file(mint: Seq<u8>) -> Seq<char> {
    "mint-"@ + spec_base58(mint) + ".json"@
}

/// `mint-<address>.json`, the file in which `init` keeps a mint keypair that
/// it made.
pub fn mint_keypair_file(mint: &Pubkey) -> (res: String)
    ensures
        res@ == spec_mint_keypair_file(mint@),
{
    let mut res = String::from_str("mint-");
    let text = pubkey_to_string(mint);
    res.append(text.as_str());
    res.append(".json");
    res
}

} // verus!
