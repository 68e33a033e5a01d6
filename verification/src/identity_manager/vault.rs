//! The identity vault: its content, its encryption under the vault key, and the hexadecimal
//! text by which the master seed is stored in it.
use vstd::prelude::*;
use vstd::string::StringSliceAdditionalSpecFns;
use super::vault_key::VaultKey;
use crate::identity::{MasterSeed, IDENTITY_DERIVATION_VERSION};
use crate::primitives::{
    hex_decode, hex_decode_spec, hex_encode, hex_lower, hex_value, xchacha20poly1305_decrypt,
    xchacha20poly1305_open, xchacha20poly1305_seal,
};
use crate::sealing::{seal_with_fresh_nonce, sealable_len};

verus! {

/// The length of the nonce under which a vault is encrypted.
pub const VAULT_NONCE_LEN: usize = 24;

/// The length of a master seed.
pub const MASTER_SEED_LEN: usize = 64;

/// The serialized content of a vault, before encryption or after decryption.
pub struct VaultPlaintext {
    pub data: Vec<u8>,
}

/// What a vault holds: the master seed and the derivation version it is used with.
pub struct IdentityVault {
    pub identity_derivation_version: u32,
    pub master_seed: MasterSeed,
}

/// A vault encrypted under a vault key.
pub struct VaultCiphertext {
    pub nonce: [u8; 24],
    pub ciphertext: Vec<u8>,
}

/// Why stored text is not a master seed.
#[derive(Debug)]
pub enum MasterSeedHexError {
    /// The text is not hexadecimal: an odd length or a character that is not a digit.
    Hex(hex::FromHexError),
    /// The text decodes to this many bytes instead of 64.
    InvalidLength(usize),
}

impl IdentityVault {
    /// A vault holding `master_seed` for the current derivation version.
    pub fn from_master_seed(master_seed: MasterSeed) -> (vault: Self)
        ensures
            vault.identity_derivation_version == IDENTITY_DERIVATION_VERSION,
            vault.master_seed == master_seed,
    {
        Self { identity_derivation_version: IDENTITY_DERIVATION_VERSION, master_seed }
    }
}

/// Encrypts a vault under a vault key with a fresh nonce. It fails only when the plaintext is
/// too long for the cipher, and the ciphertext decrypts under the same key to the plaintext.
pub fn encrypt_vault(plaintext: &VaultPlaintext, vault_key: &VaultKey) -> (r: Result<VaultCiphertext, chacha20poly1305::Error>)
    ensures
        r is Ok <==> sealable_len(plaintext.data@.len()),
        r matches Ok(c) ==> {
            &&& c.ciphertext@ == xchacha20poly1305_seal(vault_key@, c.nonce@, plaintext.data@)
            &&& c.ciphertext@.len() == plaintext.data@.len() + 16
            &&& xchacha20poly1305_open(vault_key@, c.nonce@, c.ciphertext@) == Some(plaintext.data@)
        },
{
    match seal_with_fresh_nonce(vault_key.as_bytes(), plaintext.data.as_slice()) {
        Ok((nonce, ciphertext)) => Ok(VaultCiphertext { nonce, ciphertext }),
        Err(e) => Err(e),
    }
}

/// What decrypting `ciphertext` under a vault key with bytes `vault_key` gives: the
/// plaintext, or an error exactly when the ciphertext does not authenticate.
pub open spec fn vault_decrypted(ciphertext: VaultCiphertext, vault_key: Seq<u8>, r: Result<VaultPlaintext, chacha20poly1305::Error>) -> bool {
    match xchacha20poly1305_open(vault_key, ciphertext.nonce@, ciphertext.ciphertext@) {
        Some(data) => r matches Ok(p) && p.data@ == data,
        None => r is Err,
    }
}

/// Decrypts a vault: it fails exactly when the ciphertext does not authenticate under the
/// vault key.
pub fn decrypt_vault(ciphertext: &VaultCiphertext, vault_key: &VaultKey) -> (r: Result<VaultPlaintext, chacha20poly1305::Error>)
    ensures
        vault_decrypted(*ciphertext, vault_key@, r),
{
    match xchacha20poly1305_decrypt(vault_key.as_bytes(), &ciphertext.nonce, ciphertext.ciphertext.as_slice()) {
        Ok(data) => Ok(VaultPlaintext { data }),
        Err(e) => Err(e),
    }
}

/// A vault encrypted under a vault key decrypts under that key to its plaintext.
pub proof fn lemma_decrypt_inverts_encrypt(ciphertext: VaultCiphertext, vault_key: Seq<u8>, data: Seq<u8>, r: Result<VaultPlaintext, chacha20poly1305::Error>)
    requires
        xchacha20poly1305_open(vault_key, ciphertext.nonce@, ciphertext.ciphertext@) == Some(data),
        vault_decrypted(ciphertext, vault_key, r),
    ensures
        r matches Ok(p) && p.data@ == data,
{
}

/// The stored text of a master seed: lower-case hexadecimal, two digits per byte.
pub fn master_seed_to_hex(master_seed: &MasterSeed) -> (text: String)
    ensures
        text@ == hex_lower(master_seed@),
{
    hex_encode(master_seed.as_slice())
}

/// What reading the stored text `text` (as UTF-8 bytes) as a master seed gives: the seed, or
/// the error that says why there is none.
pub open spec fn master_seed_read(text: Seq<u8>, r: Result<MasterSeed, MasterSeedHexError>) -> bool {
    match hex_decode_spec(text) {
        None => r matches Err(MasterSeedHexError::Hex(_)),
        Some(bytes) => if bytes.len() == MASTER_SEED_LEN {
            r matches Ok(seed) && seed@ == bytes
        } else {
            r matches Err(MasterSeedHexError::InvalidLength(len)) && len == bytes.len()
        },
    }
}

/// Reads a master seed from its stored text: hexadecimal of either case that decodes to
/// exactly 64 bytes.
pub fn master_seed_from_hex(text: &str) -> (r: Result<MasterSeed, MasterSeedHexError>)
    ensures
        master_seed_read(text.spec_bytes(), r),
{
    match hex_decode(text.as_bytes()) {
        Err(e) => Err(MasterSeedHexError::Hex(e)),
        Ok(bytes) => {
            if bytes.len() != MASTER_SEED_LEN {
                Err(MasterSeedHexError::InvalidLength(bytes.len()))
            } else {
                Ok(master_seed_array_from_bytes(&bytes))
            }
        },
    }
}

/// The 64-byte array holding the 64 bytes of `bytes`.
fn master_seed_array_from_bytes(bytes: &Vec<u8>) -> (seed: [u8; 64])
    requires
        bytes@.len() == 64,
    ensures
        seed@ == bytes@,
{
    let mut seed = [0u8; 64];
    let mut i: usize = 0;
    while i < 64
        invariant
            i <= 64,
            bytes@.len() == 64,
            seed@.len() == 64,
            forall|j: int| 0 <= j < i ==> seed@[j] == bytes@[j],
        decreases 64 - i,
    {
        seed[i] = bytes[i];
        i = i + 1;
    }
    assert(seed@ =~= bytes@);
    seed
}

/// The bytes of hexadecimal text decode to the bytes it was made from.
pub proof fn lemma_hex_round_trip(bytes: Seq<u8>)
    ensures
        hex_decode_spec(hex_lower(bytes).map_values(|c: char| c as u8)) == Some(bytes),
{
    let text = hex_lower(bytes).map_values(|c: char| c as u8);
    assert forall|i: int| 0 <= i < text.len() implies (#[trigger] hex_value(text[i])) is Some by {
        let v: int = if i % 2 == 0 { (bytes[i / 2] / 16) as int } else { (bytes[i / 2] % 16) as int };
        assert(0 <= v < 16);
    }
    let decoded = hex_decode_spec(text).unwrap();
    assert forall|i: int| 0 <= i < bytes.len() implies decoded[i] == bytes[i] by {
        let hi = (bytes[i] / 16) as int;
        let lo = (bytes[i] % 16) as int;
        assert(text[2 * i] as int == if hi < 10 { 48 + hi } else { 87 + hi });
        assert(text[2 * i + 1] as int == if lo < 10 { 48 + lo } else { 87 + lo });
        assert(hex_value(text[2 * i]).unwrap() as int == hi);
        assert(hex_value(text[2 * i + 1]).unwrap() as int == lo);
    }
    assert(decoded =~= bytes);
}

/// Reading back the stored text of a master seed gives the master seed.
pub proof fn lemma_master_seed_hex_round_trip(master_seed: MasterSeed, text: &str, r: Result<MasterSeed, MasterSeedHexError>)
    requires
        text@ == hex_lower(master_seed@),
        master_seed_read(text.spec_bytes(), r),
    ensures
        r matches Ok(seed) && seed == master_seed,
{
    let chars = hex_lower(master_seed@);
    assert(vstd::utf8::is_ascii_chars(chars)) by {
        assert forall|i: int| 0 <= i < chars.len() implies '\0' <= #[trigger] chars[i] <= '\u{7f}' by {
            let v: int = if i % 2 == 0 { (master_seed@[i / 2] / 16) as int } else { (master_seed@[i / 2] % 16) as int };
            assert(0 <= v < 16);
        }
    }
    vstd::utf8::is_ascii_chars_encode_utf8(chars);
    assert(text.spec_bytes() =~= chars.map_values(|c: char| c as u8));
    lemma_hex_round_trip(master_seed@);
    assert(r matches Ok(seed) && seed@ == master_seed@);
    let seed = r.unwrap();
    assert(seed@ =~= master_seed@);
}

} // verus!
