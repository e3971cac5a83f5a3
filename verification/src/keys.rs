//! Credential generation: a random mnemonic phrase, and the account-zero
//! key pair deterministically derived from a phrase along the fixed
//! hierarchical path `m/44'/60'/0'/0/0` with an empty passphrase.

use vstd::prelude::*;
use vstd::string::StrSliceExecFns;
use crate::config::WordCount;

verus! {

/// Index `i` starts a word of `s`: a non-space character standing at the
/// beginning or right after a space.
pub open spec fn is_word_start(s: Seq<char>, i: int) -> bool {
    s[i] != ' ' && (i == 0 || s[i - 1] == ' ')
}

/// Number of word starts at or after index `i`.
pub open spec fn word_starts_from(s: Seq<char>, i: int) -> nat
    decreases s.len() - i when 0 <= i <= s.len()
{
    if i >= s.len() {
        0
    } else {
        (if is_word_start(s, i) {
            1nat
        } else {
            0nat
        }) + word_starts_from(s, i + 1)
    }
}

/// Number of words of a phrase: its maximal runs of non-space characters.
pub open spec fn phrase_words(s: Seq<char>) -> nat {
    word_starts_from(s, 0)
}

/// Counts the words of a phrase at run time, one word per maximal run of
/// non-space characters.
pub fn count_words(s: &str) -> (r: usize)
    ensures
        r == phrase_words(s@),
{
    let len = s.unicode_len();
    let mut i: usize = 0;
    let mut count: usize = 0;
    let mut prev_space: bool = true;
    while i < len
        invariant
            len == s@.len(),
            0 <= i <= len,
            count <= i,
            prev_space == (i == 0 || s@[i - 1] == ' '),
            count + word_starts_from(s@, i as int) == phrase_words(s@),
        decreases len - i,
    {
        let c = s.get_char(i);
        proof {
            assert(word_starts_from(s@, i as int) == (if is_word_start(s@, i as int) {
                1nat
            } else {
                0nat
            }) + word_starts_from(s@, i as int + 1));
        }
        if c != ' ' && prev_space {
            count = count + 1;
        }
        prev_space = c == ' ';
        i = i + 1;
    }
    count
}

/// The 64-byte master seed that the mnemonic standard derives (with an
/// empty passphrase) from a phrase, or nothing when the phrase is not a
/// valid mnemonic; a function of the phrase text alone.
pub uninterp spec fn seed_of_phrase(phrase: Seq<char>) -> Option<Seq<u8>>;

/// The account-zero secret scalar that the hierarchical path
/// `m/44'/60'/0'/0/0` yields from a master seed, or nothing when a
/// derivation step leaves the valid scalar range; a function of the seed
/// alone.
pub uninterp spec fn hd_secret_of_seed(seed: Seq<u8>) -> Option<Seq<u8>>;

/// The uncompressed 65-byte serialization of the public key belonging to a
/// 32-byte secret scalar, or nothing when the scalar is not a valid private
/// key; a function of the scalar alone.
pub uninterp spec fn pubkey_of_secret(secret: Seq<u8>) -> Option<Seq<u8>>;

/// The public key a mnemonic phrase re-derives to, through the master seed
/// and the fixed account-zero path.
pub open spec fn pubkey_from_phrase(phrase: Seq<char>) -> Option<Seq<u8>> {
    match seed_of_phrase(phrase) {
        Option::None => Option::None,
        Option::Some(seed) => match hd_secret_of_seed(seed) {
            Option::None => Option::None,
            Option::Some(secret) => pubkey_of_secret(secret),
        },
    }
}

/// Relies on bip0039's `Mnemonic::generate` and `into_phrase`: a freshly
/// drawn English phrase of exactly the requested number of words joined by
/// single spaces, and always a valid mnemonic (the encoder builds the
/// checksum in), so phrase validation accepts it again.
#[verifier::external_body]
fn generate_phrase(wc: WordCount) -> (r: String)
    ensures
        phrase_words(r@) == wc.spec_count(),
        seed_of_phrase(r@) is Some,
{
    let count = match wc {
        WordCount::Words12 => bip0039::Count::Words12,
        WordCount::Words24 => bip0039::Count::Words24,
    };
    <bip0039::Mnemonic>::generate(count).into_phrase()
}

/// Relies on bip0039's `Mnemonic::from_phrase` and `to_seed`: phrase
/// validation and the PBKDF2 seed stretch (empty passphrase) are functions
/// of the phrase text alone, and the seed is always 64 bytes.
#[verifier::external_body]
fn phrase_to_seed(phrase: &str) -> (r: Option<Vec<u8>>)
    ensures
        match r {
            Option::Some(s) => seed_of_phrase(phrase@) == Option::Some(s@) && s@.len() == 64,
            Option::None => seed_of_phrase(phrase@) is None,
        },
{
    match <bip0039::Mnemonic>::from_phrase(phrase) {
        Ok(m) => Some(m.to_seed("").to_vec()),
        Err(_) => None,
    }
}

/// Relies on tiny_hderive's `ExtendedPrivKey::derive` and `child`: the
/// HMAC-SHA512 key tree is a function of the seed alone, and the
/// account-zero child along `m/44'/60'/0'/0/0` carries a 32-byte secret.
#[verifier::external_body]
fn seed_to_account_secret(seed: &Vec<u8>) -> (r: Option<Vec<u8>>)
    ensures
        match r {
            Option::Some(s) => hd_secret_of_seed(seed@) == Option::Some(s@) && s@.len() == 32,
            Option::None => hd_secret_of_seed(seed@) is None,
        },
{
    let ext = match tiny_hderive::bip32::ExtendedPrivKey::derive(seed.as_slice(), "m/44'/60'/0'/0") {
        Ok(e) => e,
        Err(_) => return None,
    };
    let child = match ext.child(tiny_hderive::bip44::ChildNumber::non_hardened_from_u32(0)) {
        Ok(c) => c,
        Err(_) => return None,
    };
    Some(child.secret().to_vec())
}

/// Relies on libsecp256k1's `SecretKey::parse`, `PublicKey::from_secret_key`
/// and `serialize`: parsing accepts exactly the canonical scalars that are
/// valid private keys, the public key is a function of the secret alone,
/// and its serialization is 65 bytes starting with the 0x04 tag.
#[verifier::external_body]
fn secret_to_public(secret: &Vec<u8>) -> (r: Option<Vec<u8>>)
    requires
        secret@.len() == 32,
    ensures
        match r {
            Option::Some(p) => pubkey_of_secret(secret@) == Option::Some(p@) && p@.len() == 65
                && p@[0] == 4,
            Option::None => pubkey_of_secret(secret@) is None,
        },
{
    let mut buf = [0u8; 32];
    buf.copy_from_slice(secret.as_slice());
    let sk = match libsecp256k1::SecretKey::parse(&buf) {
        Ok(k) => k,
        Err(_) => return None,
    };
    let pk = libsecp256k1::PublicKey::from_secret_key(&sk);
    Some(pk.serialize().to_vec())
}

/// Why key derivation failed.
#[derive(Clone, Copy, Debug, PartialEq, Eq, Structural)]
pub enum KeyError {
    /// The phrase is not a valid mnemonic.
    InvalidPhrase,
    /// A derived scalar is not a valid private key.  Practically
    /// unreachable, but it must be checked: it signals a broken primitive,
    /// never a condition to retry silently.
    InvalidDerivedKey,
}

/// A generated credential pair: the mnemonic phrase (the recoverable
/// artifact of value) and the public key derived from it.  The private key
/// is never retained or exposed; the phrase re-derives it.
pub struct Credentials {
    /// The mnemonic phrase.
    pub mnemonic: String,
    /// The 65-byte uncompressed serialization of the derived public key.
    pub public_key: Vec<u8>,
}

impl Credentials {
    /// The public key is exactly what the phrase re-derives to.
    pub open spec fn wf(self) -> bool {
        &&& pubkey_from_phrase(self.mnemonic@) == Option::Some(self.public_key@)
        &&& self.public_key@.len() == 65
        &&& self.public_key@[0] == 4
    }
}

/// Re-derives the account-zero public key of a mnemonic phrase.  Succeeds
/// exactly when the phrase is a valid mnemonic whose seed yields valid
/// scalars along the fixed path; each error names the step that refused.
pub fn derive_public_key(phrase: &str) -> (r: Result<Vec<u8>, KeyError>)
    ensures
        r is Ok <==> pubkey_from_phrase(phrase@) is Some,
        r matches Ok(pk) ==> pubkey_from_phrase(phrase@) == Option::Some(pk@) && pk@.len() == 65
            && pk@[0] == 4,
        r matches Err(e) ==> (e == KeyError::InvalidPhrase <==> seed_of_phrase(phrase@) is None),
{
    let seed = match phrase_to_seed(phrase) {
        Some(s) => s,
        None => {
            return Err(KeyError::InvalidPhrase);
        },
    };
    let secret = match seed_to_account_secret(&seed) {
        Some(s) => s,
        None => {
            return Err(KeyError::InvalidDerivedKey);
        },
    };
    match secret_to_public(&secret) {
        Some(p) => Ok(p),
        None => Err(KeyError::InvalidDerivedKey),
    }
}

/// Draws a fresh random mnemonic of the requested word count and derives
/// its key pair.  On success the phrase has exactly the requested number of
/// words and the returned public key is exactly what the phrase re-derives
/// to.  Failure means a derived scalar was invalid (a broken-primitive
/// signal the caller must treat as fatal); the generated phrase is always a
/// valid mnemonic, so no other error can come back.
pub fn generate(wc: WordCount) -> (r: Result<Credentials, KeyError>)
    ensures
        r matches Ok(c) ==> c.wf() && phrase_words(c.mnemonic@) == wc.spec_count(),
        r matches Err(e) ==> e == KeyError::InvalidDerivedKey,
{
    let mnemonic = generate_phrase(wc);
    match derive_public_key(mnemonic.as_str()) {
        Ok(pk) => Ok(Credentials { mnemonic, public_key: pk }),
        Err(_) => Err(KeyError::InvalidDerivedKey),
    }
}

} // verus!
