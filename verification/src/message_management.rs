//! Local message storage: a random message storage key, wrapped under a key derived from the
//! master seed, encrypts each stored message.
use vstd::prelude::*;
use vstd::string::StringExecFns;
use crate::identity::LocalStorageWrappingKey;
use crate::decimal::{decimal, decimal_text};
use crate::primitives::{
    os_random_bytes, xchacha20poly1305_decrypt, xchacha20poly1305_open,
    xchacha20poly1305_seal, zeroize_bytes,
};
use crate::sealing::{key_array_from_bytes, seal_with_fresh_nonce, sealable_len};

verus! {

/// The length of a message storage key.
pub const MESSAGE_STORAGE_KEY_LEN: usize = 32;

/// The length of the nonce under which a message storage key is wrapped.
pub const MESSAGE_STORAGE_KEY_WRAP_NONCE_LEN: usize = 24;

/// The length of the nonce under which a stored message is encrypted.
pub const STORED_MESSAGE_NONCE_LEN: usize = 24;

/// The random key that encrypts stored messages.
pub struct MessageStorageKey {
    key: [u8; 32],
}

/// A message storage key encrypted under a local storage wrapping key.
pub struct WrappedMessageStorageKey {
    pub nonce: [u8; 24],
    pub ciphertext: Vec<u8>,
}

/// Why a wrapped message storage key could not be unwrapped.
#[derive(Debug)]
pub enum MessageStorageKeyError {
    /// The ciphertext did not authenticate under the wrapping key.
    Aead(chacha20poly1305::Error),
    /// The ciphertext authenticated but did not hold 32 bytes; the length it held.
    InvalidMessageStorageKeyLength(usize),
}

/// A message in the clear.
pub struct PlaintextMessage {
    pub data: Vec<u8>,
}

/// A message encrypted under a message storage key.
pub struct EncryptedMessage {
    pub nonce: [u8; 24],
    pub ciphertext: Vec<u8>,
}

impl View for MessageStorageKey {
    type V = Seq<u8>;

    closed spec fn view(&self) -> Seq<u8> {
        self.key@
    }
}

impl MessageStorageKey {
    /// The key bytes.
    pub fn as_bytes(&self) -> (bytes: &[u8; 32])
        ensures
            bytes@ == self@,
    {
        &self.key
    }
}

impl Drop for MessageStorageKey {
    /// Zeroizes the key bytes (`Zeroize::zeroize` on the array) when the key is dropped.
    #[verifier::external_body]
    fn drop(&mut self)
        opens_invariants none
        no_unwind
    {
        zeroize::Zeroize::zeroize(&mut self.key);
    }
}

/// A fresh message storage key: 32 bytes drawn from the operating system's random source.
/// Any 32 bytes may come out, so nothing more than their number is stated.
pub fn create_message_storage_key() -> (key: MessageStorageKey)
    ensures
        key@.len() == MESSAGE_STORAGE_KEY_LEN,
{
    MessageStorageKey { key: os_random_bytes::<MESSAGE_STORAGE_KEY_LEN>() }
}

/// Wraps a message storage key under a wrapping key with a fresh nonce. It always succeeds,
/// and the wrapped key opens under the wrapping key to the message storage key.
pub fn wrap_message_storage_key(message_storage_key: &MessageStorageKey, wrapping_key: &LocalStorageWrappingKey) -> (r: Result<WrappedMessageStorageKey, MessageStorageKeyError>)
    ensures
        r is Ok,
        r matches Ok(w) ==> {
            &&& w.ciphertext@ == xchacha20poly1305_seal(wrapping_key@, w.nonce@, message_storage_key@)
            &&& w.ciphertext@.len() == MESSAGE_STORAGE_KEY_LEN + 16
            &&& xchacha20poly1305_open(wrapping_key@, w.nonce@, w.ciphertext@) == Some(message_storage_key@)
        },
{
    match seal_with_fresh_nonce(wrapping_key, message_storage_key.as_bytes().as_slice()) {
        Ok((nonce, ciphertext)) => Ok(WrappedMessageStorageKey { nonce, ciphertext }),
        Err(e) => Err(MessageStorageKeyError::Aead(e)),
    }
}

/// What unwrapping `wrapped` under a wrapping key with bytes `wrapping_key` gives: the message
/// storage key bytes, or the error that says why there are none.
pub open spec fn message_storage_key_unwrapped(wrapped: WrappedMessageStorageKey, wrapping_key: Seq<u8>, r: Result<MessageStorageKey, MessageStorageKeyError>) -> bool {
    match xchacha20poly1305_open(wrapping_key, wrapped.nonce@, wrapped.ciphertext@) {
        None => r matches Err(MessageStorageKeyError::Aead(_)),
        Some(bytes) => if bytes.len() == MESSAGE_STORAGE_KEY_LEN {
            r matches Ok(k) && k@ == bytes
        } else {
            r matches Err(MessageStorageKeyError::InvalidMessageStorageKeyLength(len)) && len == bytes.len()
        },
    }
}

/// Unwraps a message storage key: it fails with `Aead` when the ciphertext does not
/// authenticate under the wrapping key, and with `InvalidMessageStorageKeyLength` when what
/// it holds is not 32 bytes. The decrypted bytes are zeroized before they are dropped.
pub fn unwrap_message_storage_key(wrapped_message_storage_key: &WrappedMessageStorageKey, wrapping_key: &LocalStorageWrappingKey) -> (r: Result<MessageStorageKey, MessageStorageKeyError>)
    ensures
        message_storage_key_unwrapped(*wrapped_message_storage_key, wrapping_key@, r),
{
    let plaintext = xchacha20poly1305_decrypt(
        wrapping_key,
        &wrapped_message_storage_key.nonce,
        wrapped_message_storage_key.ciphertext.as_slice(),
    );
    match plaintext {
        Err(e) => Err(MessageStorageKeyError::Aead(e)),
        Ok(mut plaintext) => {
            if plaintext.len() != MESSAGE_STORAGE_KEY_LEN {
                let len = plaintext.len();
                zeroize_bytes(&mut plaintext);
                return Err(MessageStorageKeyError::InvalidMessageStorageKeyLength(len));
            }
            let key = key_array_from_bytes(&plaintext);
            zeroize_bytes(&mut plaintext);
            Ok(MessageStorageKey { key })
        },
    }
}

/// A message storage key wrapped under a wrapping key unwraps under that wrapping key to the
/// same message storage key.
pub proof fn lemma_unwrap_inverts_wrap(wrapped: WrappedMessageStorageKey, wrapping_key: Seq<u8>, key: Seq<u8>, r: Result<MessageStorageKey, MessageStorageKeyError>)
    requires
        key.len() == MESSAGE_STORAGE_KEY_LEN,
        xchacha20poly1305_open(wrapping_key, wrapped.nonce@, wrapped.ciphertext@) == Some(key),
        message_storage_key_unwrapped(wrapped, wrapping_key, r),
    ensures
        r matches Ok(k) && k@ == key,
{
}

/// Encrypts a message under a message storage key with a fresh nonce. It fails only when the
/// message is too long for the cipher, and the ciphertext decrypts under the same key to the
/// message.
pub fn encrypt_message(plaintext_message: &PlaintextMessage, message_storage_key: &MessageStorageKey) -> (r: Result<EncryptedMessage, chacha20poly1305::Error>)
    ensures
        r is Ok <==> sealable_len(plaintext_message.data@.len()),
        r matches Ok(m) ==> {
            &&& m.ciphertext@ == xchacha20poly1305_seal(message_storage_key@, m.nonce@, plaintext_message.data@)
            &&& m.ciphertext@.len() == plaintext_message.data@.len() + 16
            &&& xchacha20poly1305_open(message_storage_key@, m.nonce@, m.ciphertext@) == Some(plaintext_message.data@)
        },
{
    match seal_with_fresh_nonce(message_storage_key.as_bytes(), plaintext_message.data.as_slice()) {
        Ok((nonce, ciphertext)) => Ok(EncryptedMessage { nonce, ciphertext }),
        Err(e) => Err(e),
    }
}

/// What decrypting `encrypted` under a message storage key with bytes `key` gives: the
/// message, or an error exactly when the ciphertext does not authenticate.
pub open spec fn message_decrypted(encrypted: EncryptedMessage, key: Seq<u8>, r: Result<PlaintextMessage, chacha20poly1305::Error>) -> bool {
    match xchacha20poly1305_open(key, encrypted.nonce@, encrypted.ciphertext@) {
        Some(data) => r matches Ok(p) && p.data@ == data,
        None => r is Err,
    }
}

/// Decrypts a stored message: it fails exactly when the ciphertext does not authenticate
/// under the message storage key.
pub fn decrypt_message(encrypted_message: &EncryptedMessage, message_storage_key: &MessageStorageKey) -> (r: Result<PlaintextMessage, chacha20poly1305::Error>)
    ensures
        message_decrypted(*encrypted_message, message_storage_key@, r),
{
    match xchacha20poly1305_decrypt(message_storage_key.as_bytes(), &encrypted_message.nonce, encrypted_message.ciphertext.as_slice()) {
        Ok(data) => Ok(PlaintextMessage { data }),
        Err(e) => Err(e),
    }
}

/// A message encrypted under a message storage key decrypts under that key to the message.
pub proof fn lemma_decrypt_inverts_encrypt(encrypted: EncryptedMessage, key: Seq<u8>, data: Seq<u8>, r: Result<PlaintextMessage, chacha20poly1305::Error>)
    requires
        xchacha20poly1305_open(key, encrypted.nonce@, encrypted.ciphertext@) == Some(data),
        message_decrypted(encrypted, key, r),
    ensures
        r matches Ok(p) && p.data@ == data,
{
}

impl MessageStorageKeyError {
    /// The message of the error.
    pub open spec fn text(self) -> Seq<char> {
        match self {
            MessageStorageKeyError::Aead(_) => "message storage key authentication failed"@,
            MessageStorageKeyError::InvalidMessageStorageKeyLength(len) => "invalid message storage key length: "@ + decimal(len as nat),
        }
    }

    /// The message of the error, as `Display` would write it.
    pub fn to_display_string(&self) -> (text: String)
        ensures
            text@ == self.text(),
    {
        match self {
            MessageStorageKeyError::Aead(_) => String::from_str("message storage key authentication failed"),
            MessageStorageKeyError::InvalidMessageStorageKeyLength(len) => {
                let mut text = String::from_str("invalid message storage key length: ");
                let digits = decimal_text(*len);
                text.append(digits.as_str());
                text
            },
        }
    }
}

} // verus!
