//! The random vault key, and its wrapping under a password key.
use vstd::prelude::*;
use vstd::string::StringExecFns;
use super::password_kdf::PasswordKey;
use crate::decimal::{decimal, decimal_text};
use crate::primitives::{
    os_random_bytes, xchacha20poly1305_decrypt, xchacha20poly1305_open,
    xchacha20poly1305_seal,
};
use crate::sealing::{key_array_from_bytes, seal_with_fresh_nonce};

verus! {

/// The length of a vault key.
pub const VAULT_KEY_LEN: usize = 32;

/// The length of the nonce under which a vault key is wrapped.
pub const VAULT_KEY_WRAP_NONCE_LEN: usize = 24;

/// The random key that encrypts an identity vault.
pub struct VaultKey {
    key: [u8; 32],
}

/// A vault key encrypted under a password key.
pub struct WrappedVaultKey {
    pub nonce: [u8; 24],
    pub ciphertext: Vec<u8>,
}

/// Why a wrapped vault key could not be unwrapped.
#[derive(Debug)]
pub enum VaultKeyError {
    /// The ciphertext did not authenticate under the password key.
    Aead(chacha20poly1305::Error),
    /// The ciphertext authenticated but did not hold 32 bytes; the length it held.
    InvalidVaultKeyLength(usize),
}

impl View for VaultKey {
    type V = Seq<u8>;

    closed spec fn view(&self) -> Seq<u8> {
        self.key@
    }
}

impl VaultKey {
    /// The key bytes.
    pub fn as_bytes(&self) -> (bytes: &[u8; 32])
        ensures
            bytes@ == self@,
    {
        &self.key
    }
}

/// A fresh vault key: 32 bytes drawn from the operating system's random source. Any 32 bytes
/// may come out, so nothing more than their number is stated.
pub fn create_vault_key() -> (vault_key: VaultKey)
    ensures
        vault_key@.len() == VAULT_KEY_LEN,
{
    VaultKey { key: os_random_bytes::<VAULT_KEY_LEN>() }
}

/// Wraps a vault key under a password key with a fresh nonce. It always succeeds, and the
/// wrapped key opens under the password key to the vault key.
pub fn wrap_vault_key(vault_key: &VaultKey, password_key: &PasswordKey) -> (r: Result<WrappedVaultKey, VaultKeyError>)
    ensures
        r is Ok,
        r matches Ok(w) ==> {
            &&& w.ciphertext@ == xchacha20poly1305_seal(password_key@, w.nonce@, vault_key@)
            &&& w.ciphertext@.len() == VAULT_KEY_LEN + 16
            &&& xchacha20poly1305_open(password_key@, w.nonce@, w.ciphertext@) == Some(vault_key@)
        },
{
    match seal_with_fresh_nonce(password_key.as_bytes(), vault_key.as_bytes().as_slice()) {
        Ok((nonce, ciphertext)) => Ok(WrappedVaultKey { nonce, ciphertext }),
        Err(e) => Err(VaultKeyError::Aead(e)),
    }
}

/// What unwrapping `wrapped` under a password key with bytes `password_key` gives: the vault
/// key bytes, or the error that says why there are none.
pub open spec fn vault_key_unwrapped(wrapped: WrappedVaultKey, password_key: Seq<u8>, r: Result<VaultKey, VaultKeyError>) -> bool {
    match xchacha20poly1305_open(password_key, wrapped.nonce@, wrapped.ciphertext@) {
        None => r matches Err(VaultKeyError::Aead(_)),
        Some(bytes) => if bytes.len() == VAULT_KEY_LEN {
            r matches Ok(k) && k@ == bytes
        } else {
            r matches Err(VaultKeyError::InvalidVaultKeyLength(len)) && len == bytes.len()
        },
    }
}

/// Unwraps a vault key: it fails with `Aead` when the ciphertext does not authenticate under
/// the password key, and with `InvalidVaultKeyLength` when what it holds is not 32 bytes.
pub fn unwrap_vault_key(wrapped_vault_key: &WrappedVaultKey, password_key: &PasswordKey) -> (r: Result<VaultKey, VaultKeyError>)
    ensures
        vault_key_unwrapped(*wrapped_vault_key, password_key@, r),
{
    let plaintext = xchacha20poly1305_decrypt(
        password_key.as_bytes(),
        &wrapped_vault_key.nonce,
        wrapped_vault_key.ciphertext.as_slice(),
    );
    match plaintext {
        Err(e) => Err(VaultKeyError::Aead(e)),
        Ok(plaintext) => {
            if plaintext.len() != VAULT_KEY_LEN {
                Err(VaultKeyError::InvalidVaultKeyLength(plaintext.len()))
            } else {
                Ok(VaultKey { key: key_array_from_bytes(&plaintext) })
            }
        },
    }
}

/// A vault key wrapped under a password key unwraps under that password key to the same
/// vault key.
pub proof fn lemma_unwrap_inverts_wrap(wrapped: WrappedVaultKey, password_key: Seq<u8>, vault_key: Seq<u8>, r: Result<VaultKey, VaultKeyError>)
    requires
        vault_key.len() == VAULT_KEY_LEN,
        xchacha20poly1305_open(password_key, wrapped.nonce@, wrapped.ciphertext@) == Some(vault_key),
        vault_key_unwrapped(wrapped, password_key, r),
    ensures
        r matches Ok(k) && k@ == vault_key,
{
}

impl VaultKeyError {
    /// The message of the error.
    pub open spec fn text(self) -> Seq<char> {
        match self {
            VaultKeyError::Aead(_) => "vault key authentication failed"@,
            VaultKeyError::InvalidVaultKeyLength(len) => "invalid vault key length: "@ + decimal(len as nat),
        }
    }

    /// The message of the error, as `Display` would write it.
    pub fn to_display_string(&self) -> (text: String)
        ensures
            text@ == self.text(),
    {
        match self {
            VaultKeyError::Aead(_) => String::from_str("vault key authentication failed"),
            VaultKeyError::InvalidVaultKeyLength(len) => {
                let mut text = String::from_str("invalid vault key length: ");
                let digits = decimal_text(*len);
                text.append(digits.as_str());
                text
            },
        }
    }
}

} // verus!
