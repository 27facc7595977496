//! Key and address handling around the metadata core: mnemonic phrases,
//! seed derivation, sr25519 keypairs, ss58 addresses and signing.  The
//! cryptography itself is outside work behind trusted wrappers; the
//! byte-level assembly around it is verified.

use vstd::prelude::*;
use vstd::string::StringSliceAdditionalSpecFns;

verus! {

/// How signing and derivation can fail.
#[derive(Clone, Copy, PartialEq, Eq, Structural, Debug)]
pub enum AccountError {
    /// The mnemonic phrase does not validate.
    InvalidPhrase,
    /// A key is rejected by the signing backend.
    InvalidKey,
}

/// The number of words a new phrase may have.
#[derive(Clone, Copy, PartialEq, Eq, Structural, Debug)]
pub enum PhraseSize {
    Words12,
    Words15,
    Words18,
    Words21,
    Words24,
}

/// The word count a [`PhraseSize`] stands for.
pub open spec fn phrase_words(size: PhraseSize) -> nat {
    match size {
        PhraseSize::Words12 => 12,
        PhraseSize::Words15 => 15,
        PhraseSize::Words18 => 18,
        PhraseSize::Words21 => 21,
        PhraseSize::Words24 => 24,
    }
}

/// How often a character occurs in a string.
pub open spec fn count_char(s: Seq<char>, c: char) -> nat
    decreases s.len(),
{
    if s.len() == 0 {
        0
    } else {
        (if s[0] == c {
            1nat
        } else {
            0nat
        }) + count_char(s.drop_first(), c)
    }
}

/// Relies on bip39's `Mnemonic::generate_in` with the English word list
/// and its display form: the phrase is the chosen words joined by single
/// spaces, and generation cannot fail for these word counts.  The words
/// are drawn from fresh randomness, so nothing more is promised.
#[verifier::external_body]
fn generate_phrase(size: &PhraseSize) -> (r: String)
    ensures
        count_char(r@, ' ') + 1 == phrase_words(*size),
        r@.len() > 0,
{
    let count = match size {
        PhraseSize::Words12 => bip39::WordCount::Words12,
        PhraseSize::Words15 => bip39::WordCount::Words15,
        PhraseSize::Words18 => bip39::WordCount::Words18,
        PhraseSize::Words21 => bip39::WordCount::Words21,
        PhraseSize::Words24 => bip39::WordCount::Words24,
    };
    match bip39::Mnemonic::generate_in(bip39::Language::English, count) {
        Ok(m) => format!("{}", m),
        Err(_) => String::new(),
    }
}

/// Creates a new mnemonic phrase with the requested number of words.
pub fn new_phrase(size: PhraseSize) -> (r: String)
    ensures
        count_char(r@, ' ') + 1 == phrase_words(size),
        r@.len() > 0,
{
    generate_phrase(&size)
}

/// The entropy a mnemonic phrase encodes, when the phrase validates
/// against the English word list; validation is a function of the
/// phrase alone.
pub uninterp spec fn entropy_of(phrase: Seq<char>) -> Option<Seq<u8>>;

/// Relies on bip39's `Mnemonic::parse_in_normalized` (English) and
/// `to_entropy`: a deterministic parse that yields the encoded entropy
/// exactly when the phrase validates.
#[verifier::external_body]
fn mnemonic_entropy(phrase: &str) -> (r: Option<Vec<u8>>)
    ensures
        r.deep_view() == entropy_of(phrase@),
{
    match bip39::Mnemonic::parse_in_normalized(bip39::Language::English, phrase) {
        Ok(m) => Some(m.to_entropy()),
        Err(_) => None,
    }
}

/// The 64-byte PBKDF2-HMAC-SHA-512 derivation: a function of password,
/// salt and round count alone.
pub uninterp spec fn pbkdf2_sha512_of(password: Seq<u8>, salt: Seq<u8>, rounds: u32) -> Seq<u8>;

/// Relies on pbkdf2's `pbkdf2_hmac` with SHA-512 filling a 64-byte
/// output block; HMAC accepts keys of any length, so the call cannot
/// fail.
#[verifier::external_body]
fn pbkdf2_sha512(password: &[u8], salt: &[u8], rounds: u32) -> (r: Vec<u8>)
    ensures
        r@ == pbkdf2_sha512_of(password@, salt@, rounds),
        r@.len() == 64,
{
    let mut res = [0u8; 64];
    pbkdf2::pbkdf2_hmac::<sha2::Sha512>(password, salt, rounds, &mut res);
    res.to_vec()
}

/// The PBKDF2 round count used for seed derivation.
pub const PBKDF2_ROUNDS: u32 = 2048;

/// The salt for seed derivation: the fixed prefix `mnemonic` followed
/// by the password bytes.
pub open spec fn mnemonic_salt(password: Seq<u8>) -> Seq<u8> {
    seq![0x6du8, 0x6eu8, 0x65u8, 0x6du8, 0x6fu8, 0x6eu8, 0x69u8, 0x63u8] + password
}

/// Builds the derivation salt for a password.
fn build_salt(password: &str) -> (r: Vec<u8>)
    ensures
        r@ == mnemonic_salt(password.spec_bytes()),
{
    // The bytes of "mnemonic".
    let mut salt: Vec<u8> = vec![0x6d, 0x6e, 0x65, 0x6d, 0x6f, 0x6e, 0x69, 0x63];
    let bytes = password.as_bytes();
    let n = bytes.len();
    for i in 0..n
        invariant
            n == bytes.len(),
            salt@ =~= mnemonic_salt(bytes@.take(i as int)),
    {
        salt.push(bytes[i]);
        proof {
            assert(salt@ =~= mnemonic_salt(bytes@.take(i + 1)));
        }
    }
    proof {
        assert(bytes@.take(n as int) =~= bytes@);
    }
    salt
}

/// Derives the 32-byte secret a phrase and password encode: the first
/// half of the 64-byte PBKDF2-HMAC-SHA-512 derivation of the phrase's
/// entropy with the `mnemonic`-prefixed salt.  Fails exactly when the
/// phrase does not validate.
pub fn secret_from_phrase(phrase: &str, password: &str) -> (r: Result<Vec<u8>, AccountError>)
    ensures
        r is Err <==> entropy_of(phrase@) is None,
        r is Err ==> r == Err::<Vec<u8>, AccountError>(AccountError::InvalidPhrase),
        r matches Ok(v) ==> v@ == pbkdf2_sha512_of(
            entropy_of(phrase@)->Some_0,
            mnemonic_salt(phrase_password_bytes(password)),
            PBKDF2_ROUNDS,
        ).take(32),
{
    let entropy = match mnemonic_entropy(phrase) {
        None => {
            return Err(AccountError::InvalidPhrase);
        },
        Some(e) => e,
    };
    proof {
        assert(entropy@ =~= entropy.deep_view());
    }
    let salt = build_salt(password);
    let derived = pbkdf2_sha512(entropy.as_slice(), salt.as_slice(), PBKDF2_ROUNDS);
    let mut secret: Vec<u8> = Vec::new();
    for i in 0..32usize
        invariant
            derived@.len() == 64,
            derived@ == pbkdf2_sha512_of(
                entropy_of(phrase@)->Some_0,
                mnemonic_salt(phrase_password_bytes(password)),
                PBKDF2_ROUNDS,
            ),
            secret@ =~= derived@.take(i as int),
    {
        secret.push(derived[i]);
        proof {
            assert(secret@ =~= derived@.take(i + 1));
        }
    }
    Ok(secret)
}

/// The UTF-8 bytes of the password string, as the derivation salt sees
/// them.
pub open spec fn phrase_password_bytes(password: &str) -> Seq<u8> {
    password.spec_bytes()
}

/// The 96-byte half-ed25519 encoding of the sr25519 keypair a 32-byte
/// seed expands to: the 64-byte expanded secret key followed by the
/// 32-byte public key.  Expansion is a function of the seed alone.
pub uninterp spec fn keypair_of(secret: Seq<u8>) -> Seq<u8>;

/// Relies on schnorrkel's `MiniSecretKey::from_bytes` (which accepts
/// exactly 32 bytes), `expand_to_keypair` in Ed25519 mode and
/// `to_half_ed25519_bytes`: a deterministic 96-byte expansion.
#[verifier::external_body]
pub fn keypair_from_secret(secret: &[u8]) -> (r: Vec<u8>)
    requires
        secret@.len() == 32,
    ensures
        r@ == keypair_of(secret@),
        r@.len() == 96,
{
    match schnorrkel::MiniSecretKey::from_bytes(secret) {
        Ok(s) => s.expand_to_keypair(schnorrkel::ExpansionMode::Ed25519)
            .to_half_ed25519_bytes()
            .to_vec(),
        Err(_) => Vec::new(),
    }
}

/// Relies on schnorrkel's `SecretKey::from_ed25519_bytes`,
/// `PublicKey::from_bytes` and `sign_simple` under the `substrate`
/// signing context.  Signing draws fresh randomness, so of a success
/// only the 64-byte signature length is promised; the keys are rejected
/// exactly when the backend rejects them (wrong length, non-canonical
/// scalar or invalid curve point).
#[verifier::external_body]
pub fn sign(pubkey: &[u8], privkey: &[u8], message: &[u8]) -> (r: Result<Vec<u8>, AccountError>)
    ensures
        r matches Ok(v) ==> v@.len() == 64,
{
    match (
        schnorrkel::SecretKey::from_ed25519_bytes(privkey),
        schnorrkel::PublicKey::from_bytes(pubkey),
    ) {
        (Ok(s), Ok(k)) => Ok(s.sign_simple(b"substrate", message, &k).to_bytes().to_vec()),
        _ => Err(AccountError::InvalidKey),
    }
}

// ---------------------------------------------------------------------------
// Ss58 addresses
// ---------------------------------------------------------------------------

/// The 64-byte blake2b digest used for the address checksum: a function
/// of the data alone.
pub uninterp spec fn blake2b512_of(data: Seq<u8>) -> Seq<u8>;

/// Relies on blake2-rfc's `Blake2b` with a 64-byte output: a
/// deterministic digest of the input.
#[verifier::external_body]
fn blake2b512(data: &[u8]) -> (r: Vec<u8>)
    ensures
        r@ == blake2b512_of(data@),
        r@.len() == 64,
{
    let mut context = blake2_rfc::blake2b::Blake2b::new(64);
    context.update(data);
    context.finalize().as_bytes().to_vec()
}

/// The base58 rendering of a byte string: a function of the bytes alone.
pub uninterp spec fn base58_of(data: Seq<u8>) -> Seq<char>;

/// Relies on base58's `ToBase58` for byte slices: a deterministic
/// rendering of the bytes in the Bitcoin alphabet.
#[verifier::external_body]
fn to_base58(data: &[u8]) -> (r: String)
    ensures
        r@ == base58_of(data@),
{
    base58::ToBase58::to_base58(data)
}

/// Relies on ss58-registry's `Ss58AddressFormat: From<u8>` and
/// `u16: From<Ss58AddressFormat>`: every byte names a format and the
/// round trip yields the byte's value.
#[verifier::external_body]
fn ss58_prefix(format: u8) -> (r: u16)
    ensures
        r == format as u16,
{
    let network = ss58_registry::Ss58AddressFormat::from(format);
    u16::from(network)
}

/// The one- or two-byte encoding of an address format prefix.  A prefix
/// up to 63 is a single byte; larger prefixes spread over two bytes
/// with the leading bit pattern `01`.
pub open spec fn ss58_prefix_bytes(format: u8) -> Seq<u8> {
    let prefix = format as u16;
    if prefix <= 63 {
        seq![prefix as u8]
    } else {
        seq![
            (((prefix & 0x00fcu16) as u8) >> 2u8) | 0x40u8,
            ((prefix >> 8u16) as u8) | (((prefix & 0x0003u16) as u8) << 6u8),
        ]
    }
}

/// The bytes the address checksum is computed over: the fixed `SS58PRE`
/// tag, the prefix bytes, then the public key.
pub open spec fn ss58_checksum_input(format: u8, public_key: Seq<u8>) -> Seq<u8> {
    seq![0x53u8, 0x53u8, 0x35u8, 0x38u8, 0x50u8, 0x52u8, 0x45u8] + ss58_prefix_bytes(format)
        + public_key
}

/// The bytes an address encodes: prefix, public key, then the first two
/// checksum bytes.
pub open spec fn ss58_payload(format: u8, public_key: Seq<u8>) -> Seq<u8> {
    ss58_prefix_bytes(format) + public_key + blake2b512_of(
        ss58_checksum_input(format, public_key),
    ).take(2)
}

/// Appends a byte slice to a vector.
fn extend_bytes(out: &mut Vec<u8>, data: &[u8])
    ensures
        final(out)@ == old(out)@ + data@,
{
    let n = data.len();
    for i in 0..n
        invariant
            n == data.len(),
            out@ =~= old(out)@ + data@.take(i as int),
    {
        out.push(data[i]);
        proof {
            assert(out@ =~= old(out)@ + data@.take(i + 1));
        }
    }
    proof {
        assert(old(out)@ + data@.take(n as int) =~= old(out)@ + data@);
    }
}

/// Renders the ss58 address of a public key under a format: the encoded
/// prefix, the key bytes and a two-byte blake2b checksum over the
/// `SS58PRE`-tagged payload, all in base58.
pub fn address_from_public_key(public_key: &[u8], format: u8) -> (r: String)
    ensures
        r@ == base58_of(ss58_payload(format, public_key@)),
{
    let prefix = ss58_prefix(format);
    let mut bytes: Vec<u8> = Vec::new();
    if prefix <= 63 {
        bytes.push(prefix as u8);
    } else {
        proof {
            assert((prefix & 0x00fcu16) <= 0xffu16) by (bit_vector);
        }
        bytes.push((((prefix & 0x00fc) as u8) >> 2) | 0x40);
        bytes.push(((prefix >> 8) as u8) | (((prefix & 0x0003) as u8) << 6));
    }
    proof {
        assert(bytes@ =~= ss58_prefix_bytes(format));
    }
    extend_bytes(&mut bytes, public_key);
    // The bytes of "SS58PRE", then the payload so far.
    let mut hash_input: Vec<u8> = vec![0x53, 0x53, 0x35, 0x38, 0x50, 0x52, 0x45];
    extend_bytes(&mut hash_input, bytes.as_slice());
    proof {
        assert(hash_input@ =~= ss58_checksum_input(format, public_key@));
    }
    let checksum = blake2b512(hash_input.as_slice());
    bytes.push(checksum[0]);
    bytes.push(checksum[1]);
    proof {
        assert(bytes@ =~= ss58_payload(format, public_key@));
    }
    to_base58(bytes.as_slice())
}

} // verus!
