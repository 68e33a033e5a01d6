//! The boundary to the cryptographic crates: every call into an outside crate that the
//! library makes goes through one of the functions of this module, and the contract of each
//! one is what Verus believes of that crate.
use vstd::prelude::*;
use argon2::password_hash::rand_core::{OsRng, RngCore};
use chacha20poly1305::aead::{Aead, KeyInit};
use ml_dsa::{KeyExport, Keypair};
use sha3::Digest;
use zeroize::Zeroize;

verus! {

// ---------------------------------------------------------------------------------------------
// Error types of the outside crates, carried through the library's own error enums.
// ---------------------------------------------------------------------------------------------

/// `argon2::Error`: why Argon2 refused its parameters or inputs.
#[verifier::external_type_specification]
#[verifier::external_body]
pub struct ExArgon2Error(argon2::Error);

/// `chacha20poly1305::Error` (the `aead` crate's opaque error): encryption or authentication
/// failed.
#[verifier::external_type_specification]
#[verifier::external_body]
pub struct ExAeadError(chacha20poly1305::Error);

/// `bip39::Error`: a word count or an entropy length that BIP-39 does not allow.
#[verifier::external_type_specification]
#[verifier::external_body]
pub struct ExBip39Error(bip39::Error);

/// `bip39::Language`: the word list of a mnemonic.
#[verifier::external_type_specification]
#[verifier::external_body]
pub struct ExBip39Language(bip39::Language);

/// `hex::FromHexError`: an odd length or a character that is not a hexadecimal digit.
#[verifier::external_type_specification]
#[verifier::external_body]
pub struct ExFromHexError(hex::FromHexError);

/// `serde_json::Error`: a JSON document that could not be written or read.
#[verifier::external_type_specification]
#[verifier::external_body]
pub struct ExJsonError(serde_json::Error);

/// `std::io::Error`: a failed file system operation.
#[verifier::external_type_specification]
#[verifier::external_body]
pub struct ExIoError(std::io::Error);

// ---------------------------------------------------------------------------------------------
// Randomness
// ---------------------------------------------------------------------------------------------

/// `N` bytes drawn from the operating system's random source with `OsRng::fill_bytes`.
/// Nothing is stated of the bytes: they come from chance.
#[verifier::external_body]
pub(crate) fn os_random_bytes<const N: usize>() -> (bytes: [u8; N]) {
    let mut bytes = [0u8; N];
    OsRng.fill_bytes(&mut bytes);
    bytes
}

// ---------------------------------------------------------------------------------------------
// SHA3-256 and HKDF-SHA3-256
// ---------------------------------------------------------------------------------------------

/// The SHA3-256 digest of `data`.
pub uninterp spec fn sha3_256(data: Seq<u8>) -> Seq<u8>;

/// Feeds `first` and then `second` to a `sha3::Sha3_256` hasher and returns `finalize()`.
/// Claims: the digest is SHA3-256 of the concatenation of the two inputs (feeding a hasher
/// in pieces hashes their concatenation) and has 32 bytes.
#[verifier::external_body]
pub(crate) fn sha3_256_of_concat(first: &[u8], second: &[u8]) -> (digest: [u8; 32])
    ensures
        digest@ == sha3_256(first@ + second@),
{
    let mut hasher = sha3::Sha3_256::new();
    hasher.update(first);
    hasher.update(second);
    hasher.finalize().into()
}

/// The first `len` bytes of HKDF-SHA3-256 output keying material for the given salt, input
/// keying material and info.
pub uninterp spec fn hkdf_sha3_256(salt: Seq<u8>, ikm: Seq<u8>, info: Seq<u8>, len: nat) -> Seq<u8>;

/// Runs `hkdf::Hkdf::<sha3::Sha3_256>::new(Some(salt), ikm)` and `expand(info, ..)` into an
/// `N`-byte buffer. `expand` fails only for more than 255 blocks of 32 bytes, which
/// `requires` rules out. Claims: the output is the named HKDF result, and a shorter output
/// is a prefix of it (`expand` fills the buffer block by block, each block independent of
/// the total length).
#[verifier::external_body]
pub(crate) fn hkdf_sha3_256_expand<const N: usize>(salt: &[u8], ikm: &[u8], info: &[u8]) -> (okm: [u8; N])
    requires
        N <= 255 * 32,
    ensures
        okm@ == hkdf_sha3_256(salt@, ikm@, info@, N as nat),
        forall|m: nat| m <= N ==> #[trigger] hkdf_sha3_256(salt@, ikm@, info@, m) == okm@.take(m as int),
{
    let hk = hkdf::Hkdf::<sha3::Sha3_256>::new(Some(salt), ikm);
    let mut okm = [0u8; N];
    hk.expand(info, &mut okm).expect("output length is at most 255 hash lengths");
    okm
}

// ---------------------------------------------------------------------------------------------
// XChaCha20-Poly1305
// ---------------------------------------------------------------------------------------------

/// The XChaCha20-Poly1305 ciphertext (with its 16-byte tag appended) of `plaintext` under
/// `key` and `nonce`, with empty associated data.
pub uninterp spec fn xchacha20poly1305_seal(key: Seq<u8>, nonce: Seq<u8>, plaintext: Seq<u8>) -> Seq<u8>;

/// The XChaCha20-Poly1305 decryption of `ciphertext` under `key` and `nonce`, with empty
/// associated data: `None` when the tag does not authenticate it.
pub uninterp spec fn xchacha20poly1305_open(key: Seq<u8>, nonce: Seq<u8>, ciphertext: Seq<u8>) -> Option<Seq<u8>>;

/// The largest number of 64-byte blocks that the cipher accepts, `u32::MAX`: `encrypt`
/// refuses a plaintext of that many blocks or more.
pub open spec fn xchacha20poly1305_max_blocks() -> int {
    0xFFFF_FFFF
}

/// `XChaCha20Poly1305::new(Key::from_slice(key)).encrypt(XNonce::from_slice(nonce), plaintext)`.
/// Claims, from the crate's source: it fails exactly when the plaintext holds
/// `u32::MAX` blocks of 64 bytes or more; the ciphertext is the named seal, 16 bytes longer
/// than the plaintext; and decrypting it under the same key and nonce gives the plaintext
/// back (the correctness of the AEAD).
#[verifier::external_body]
pub(crate) fn xchacha20poly1305_encrypt(key: &[u8; 32], nonce: &[u8; 24], plaintext: &[u8]) -> (r: Result<Vec<u8>, chacha20poly1305::Error>)
    ensures
        r is Ok <==> plaintext@.len() / 64 < xchacha20poly1305_max_blocks(),
        r matches Ok(c) ==> {
            &&& c@ == xchacha20poly1305_seal(key@, nonce@, plaintext@)
            &&& c@.len() == plaintext@.len() + 16
            &&& xchacha20poly1305_open(key@, nonce@, c@) == Some(plaintext@)
        },
{
    let cipher = chacha20poly1305::XChaCha20Poly1305::new(chacha20poly1305::Key::from_slice(key));
    cipher.encrypt(chacha20poly1305::XNonce::from_slice(nonce), plaintext)
}

/// `XChaCha20Poly1305::new(Key::from_slice(key)).decrypt(XNonce::from_slice(nonce), ciphertext)`.
/// Claims: it succeeds exactly when the named decryption is defined, returns it, and the
/// plaintext is 16 bytes shorter than the ciphertext (the tag is stripped).
#[verifier::external_body]
pub(crate) fn xchacha20poly1305_decrypt(key: &[u8; 32], nonce: &[u8; 24], ciphertext: &[u8]) -> (r: Result<Vec<u8>, chacha20poly1305::Error>)
    ensures
        match r {
            Ok(p) => xchacha20poly1305_open(key@, nonce@, ciphertext@) == Some(p@),
            Err(_) => xchacha20poly1305_open(key@, nonce@, ciphertext@) is None,
        },
        r matches Ok(p) ==> p@.len() + 16 == ciphertext@.len(),
{
    let cipher = chacha20poly1305::XChaCha20Poly1305::new(chacha20poly1305::Key::from_slice(key));
    cipher.decrypt(chacha20poly1305::XNonce::from_slice(nonce), ciphertext)
}

// ---------------------------------------------------------------------------------------------
// Argon2id
// ---------------------------------------------------------------------------------------------

/// The 32-byte Argon2id (version 0x13) hash of `password` with `salt`, memory cost
/// `memory_kib`, `iterations` passes and `parallelism` lanes.
pub uninterp spec fn argon2id_32(password: Seq<u8>, salt: Seq<u8>, memory_kib: u32, iterations: u32, parallelism: u32) -> Seq<u8>;

/// What `argon2::Params::new(m, t, p, Some(32))` accepts: at least 8 KiB of memory and 8 KiB
/// per lane, at least one pass, and between 1 and `0xFF_FFFF` lanes.
pub open spec fn argon2_params_accepted(memory_kib: u32, iterations: u32, parallelism: u32) -> bool {
    &&& memory_kib >= 8
    &&& memory_kib >= parallelism * 8
    &&& iterations >= 1
    &&& 1 <= parallelism <= 0xFF_FFFF
}

/// Builds `argon2::Params::new(memory_kib, iterations, parallelism, Some(32))` and
/// `Argon2::new(Algorithm::Argon2id, Version::V0x13, params)`, then runs
/// `hash_password_into(password, salt, &mut key)` on a 32-byte key. `Params::new` refuses a
/// memory cost below 8 first, and only then computes `parallelism * 8` in `u32`, which
/// `requires` keeps from overflowing. Claims, from the
/// crate's source: it succeeds exactly when the parameters are accepted and the password is
/// at most `0xFFFF_FFFF` bytes long (the salt's 16 bytes and the 32-byte output are always
/// accepted), and the key is the named hash. Not stated: the call allocates `memory_kib`
/// KiB, which is assumed to succeed.
#[verifier::external_body]
pub(crate) fn argon2id_hash_32(password: &[u8], salt: &[u8; 16], memory_kib: u32, iterations: u32, parallelism: u32) -> (r: Result<[u8; 32], argon2::Error>)
    requires
        memory_kib < 8 || parallelism <= 0x1FFF_FFFF,
    ensures
        r is Ok <==> (argon2_params_accepted(memory_kib, iterations, parallelism) && password@.len() <= 0xFFFF_FFFF),
        r matches Ok(key) ==> key@ == argon2id_32(password@, salt@, memory_kib, iterations, parallelism),
{
    let params = argon2::Params::new(memory_kib, iterations, parallelism, Some(32))?;
    let argon2 = argon2::Argon2::new(argon2::Algorithm::Argon2id, argon2::Version::V0x13, params);
    let mut key = [0u8; 32];
    argon2.hash_password_into(password, salt, &mut key)?;
    Ok(key)
}

// ---------------------------------------------------------------------------------------------
// ML-DSA-65
// ---------------------------------------------------------------------------------------------

/// The encoded ML-DSA-65 verifying key of the key pair that `ML-DSA.KeyGen_internal`
/// derives from the 32-byte `seed`.
pub uninterp spec fn ml_dsa_65_verifying_key(seed: Seq<u8>) -> Seq<u8>;

/// `SigningKey::<MlDsa65>::from_seed(seed).verifying_key().to_bytes()`. Claims: the bytes are
/// the named verifying key of the seed and are 1952 bytes long (the encoded size of an
/// ML-DSA-65 verifying key).
#[verifier::external_body]
pub(crate) fn ml_dsa_65_verifying_key_from_seed(seed: &[u8; 32]) -> (key: Vec<u8>)
    ensures
        key@ == ml_dsa_65_verifying_key(seed@),
        key@.len() == 1952,
{
    let signing_key = ml_dsa::SigningKey::<ml_dsa::MlDsa65>::from_seed(&ml_dsa::Seed::from(*seed));
    signing_key.verifying_key().to_bytes().to_vec()
}

// ---------------------------------------------------------------------------------------------
// BIP-39 (English word list)
// ---------------------------------------------------------------------------------------------

/// The word counts that BIP-39 allows: 12, 15, 18, 21 and 24.
pub open spec fn bip39_word_count_allowed(word_count: int) -> bool {
    12 <= word_count <= 24 && word_count % 3 == 0
}

/// The entropy lengths that BIP-39 allows: 16, 20, 24, 28 and 32 bytes.
pub open spec fn bip39_entropy_len_allowed(len: int) -> bool {
    16 <= len <= 32 && len % 4 == 0
}

/// The 64-byte BIP-39 seed (PBKDF2-HMAC-SHA512 over the mnemonic sentence) of the English
/// mnemonic encoding `entropy`, with `passphrase`.
pub uninterp spec fn bip39_seed(entropy: Seq<u8>, passphrase: Seq<char>) -> Seq<u8>;

/// The English mnemonic sentence (words separated by single spaces) that encodes `entropy`.
pub uninterp spec fn bip39_english_sentence(entropy: Seq<u8>) -> Seq<char>;

/// `bip39::Language::English`, the word list of every mnemonic of the library. Nothing is
/// stated of the value, which Verus does not see.
#[verifier::external_body]
pub(crate) fn bip39_english() -> bip39::Language {
    bip39::Language::English
}

/// `Mnemonic::generate_in(Language::English, word_count)` followed by `to_entropy()`.
/// Claims, from the crate's source: it fails exactly on a word count BIP-39 does not allow,
/// and otherwise draws `word_count / 3 * 4` bytes of entropy. Nothing is stated of the
/// bytes: they come from chance.
#[verifier::external_body]
pub(crate) fn bip39_generate_english_entropy(word_count: usize) -> (r: Result<Vec<u8>, bip39::Error>)
    ensures
        r is Ok <==> bip39_word_count_allowed(word_count as int),
        r matches Ok(entropy) ==> entropy@.len() == word_count / 3 * 4,
{
    bip39::Mnemonic::generate_in(bip39::Language::English, word_count).map(|m| m.to_entropy())
}

/// `Mnemonic::from_entropy(entropy)`, keeping only whether it succeeded. Claims, from the
/// crate's source: it fails exactly on an entropy length BIP-39 does not allow.
#[verifier::external_body]
pub(crate) fn bip39_check_entropy(entropy: &[u8]) -> (r: Result<(), bip39::Error>)
    ensures
        r is Ok <==> bip39_entropy_len_allowed(entropy@.len() as int),
{
    bip39::Mnemonic::from_entropy(entropy).map(|_| ())
}

/// `Mnemonic::from_entropy(entropy)` followed by `to_seed(passphrase)`. `requires` keeps
/// `from_entropy` from failing. Claims: the result is the named BIP-39 seed.
#[verifier::external_body]
pub(crate) fn bip39_seed_from_entropy(entropy: &[u8], passphrase: &str) -> (seed: [u8; 64])
    requires
        bip39_entropy_len_allowed(entropy@.len() as int),
    ensures
        seed@ == bip39_seed(entropy@, passphrase@),
{
    bip39::Mnemonic::from_entropy(entropy).expect("entropy length is allowed").to_seed(passphrase)
}

/// Whether `sentence` is `count` words of lower-case letters `a` to `z`, separated by single
/// spaces, with no space at either end.
pub open spec fn is_sentence_of_words(sentence: Seq<char>, count: nat) -> bool {
    &&& count >= 1
    &&& sentence.len() > 0
    &&& sentence[0] != ' '
    &&& sentence.last() != ' '
    &&& forall|i: int| 0 <= i < sentence.len() ==> #[trigger] sentence[i] == ' ' || ('a' <= sentence[i] <= 'z')
    &&& forall|i: int| 0 <= i < sentence.len() - 1 ==> !(#[trigger] sentence[i] == ' ' && sentence[i + 1] == ' ')
    &&& sentence.filter(|c: char| c == ' ').len() + 1 == count
}

/// `Mnemonic::from_entropy(entropy)` followed by `to_string()`. `requires` keeps
/// `from_entropy` from failing. Claims: the result is the named English sentence, and, as
/// `Display` for `Mnemonic` writes the words with one space between each two and the English
/// word list holds only non-empty words of lower-case letters, it is `entropy.len() * 3 / 4`
/// such words separated by single spaces.
#[verifier::external_body]
pub(crate) fn bip39_english_sentence_of(entropy: &[u8]) -> (sentence: String)
    requires
        bip39_entropy_len_allowed(entropy@.len() as int),
    ensures
        sentence@ == bip39_english_sentence(entropy@),
        is_sentence_of_words(sentence@, entropy@.len() * 3 / 4),
{
    bip39::Mnemonic::from_entropy(entropy).expect("entropy length is allowed").to_string()
}

// ---------------------------------------------------------------------------------------------
// Zeroization
// ---------------------------------------------------------------------------------------------

/// `Zeroize::zeroize` on a byte vector: overwrites its elements and spare capacity with
/// zeroes and then clears it. Claims: the vector is empty afterwards.
#[verifier::external_body]
pub(crate) fn zeroize_bytes(bytes: &mut Vec<u8>)
    ensures
        final(bytes)@.len() == 0,
{
    bytes.zeroize();
}

// ---------------------------------------------------------------------------------------------
// Hexadecimal and decimal text
// ---------------------------------------------------------------------------------------------

/// The lower-case hexadecimal digit of a value below 16.
pub open spec fn hex_digit_lower(value: int) -> char {
    if value < 10 {
        (48 + value) as char
    } else {
        (87 + value) as char
    }
}

/// The lower-case hexadecimal text of `bytes`: two digits per byte, the high nibble first.
pub open spec fn hex_lower(bytes: Seq<u8>) -> Seq<char> {
    Seq::new(
        2 * bytes.len(),
        |i: int|
            if i % 2 == 0 {
                hex_digit_lower((bytes[i / 2] / 16) as int)
            } else {
                hex_digit_lower((bytes[i / 2] % 16) as int)
            },
    )
}

/// The value of one hexadecimal digit byte, upper or lower case.
pub open spec fn hex_value(c: u8) -> Option<u8> {
    if 48 <= c <= 57 {
        Some((c - 48) as u8)
    } else if 97 <= c <= 102 {
        Some((c - 87) as u8)
    } else if 65 <= c <= 70 {
        Some((c - 55) as u8)
    } else {
        None
    }
}

/// The bytes that hexadecimal text (given as its bytes) stands for: `None` for an odd length
/// or a byte that is not a hexadecimal digit.
pub open spec fn hex_decode_spec(text: Seq<u8>) -> Option<Seq<u8>> {
    if text.len() % 2 == 0 && forall|i: int| 0 <= i < text.len() ==> (#[trigger] hex_value(text[i])) is Some {
        Some(Seq::new(
            text.len() / 2,
            |i: int| (hex_value(text[2 * i]).unwrap() * 16 + hex_value(text[2 * i + 1]).unwrap()) as u8,
        ))
    } else {
        None
    }
}

/// `hex::encode(bytes)`. Claims, from the crate's source: two lower-case digits per byte,
/// the high nibble first.
#[verifier::external_body]
pub(crate) fn hex_encode(bytes: &[u8]) -> (text: String)
    ensures
        text@ == hex_lower(bytes@),
{
    hex::encode(bytes)
}

/// `hex::decode(text)`. Claims, from the crate's source: it fails exactly on an odd length or
/// a byte that is not a hexadecimal digit of either case, and otherwise returns the bytes
/// that each pair of digits stands for.
#[verifier::external_body]
pub(crate) fn hex_decode(text: &[u8]) -> (r: Result<Vec<u8>, hex::FromHexError>)
    ensures
        match r {
            Ok(bytes) => hex_decode_spec(text@) == Some(bytes@),
            Err(_) => hex_decode_spec(text@) is None,
        },
{
    hex::decode(text)
}

/// The `Display` text of an `argon2::Error`: a fixed message for each kind of error.
pub uninterp spec fn argon2_error_message(err: argon2::Error) -> Seq<char>;

/// `argon2::Error`'s `Display` text. Claims: the text is the named message of the error,
/// which the crate's `Display` impl computes from the error value alone.
#[verifier::external_body]
pub(crate) fn argon2_error_text(err: &argon2::Error) -> (text: String)
    ensures
        text@ == argon2_error_message(*err),
{
    format!("{err}")
}

/// `serde_json::Error`'s `Display` text. Not stated: the text, which depends on the error
/// value that Verus does not see.
#[verifier::external_body]
pub(crate) fn json_error_text(err: &serde_json::Error) -> String {
    format!("{err}")
}

/// `std::io::Error`'s `Display` text. Not stated: the text, which depends on the error value
/// that Verus does not see.
#[verifier::external_body]
pub(crate) fn io_error_text(err: &std::io::Error) -> String {
    format!("{err}")
}

} // verus!
