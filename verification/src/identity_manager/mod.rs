//! Local storage of identities: a password-derived key wraps a random vault key, which
//! encrypts the vault holding the master seed.
use vstd::prelude::*;
use vstd::string::{StringExecFns, StringSliceAdditionalSpecFns};
use crate::identity::{MasterSeed, IDENTITY_DERIVATION_VERSION};
use crate::decimal::{decimal, decimal_text};
use crate::primitives::{
    argon2_error_message, argon2_error_text, json_error_text, xchacha20poly1305_open, xchacha20poly1305_seal,
};
use crate::sealing::sealable_len;
use file_system::{IdentityRecord, IdentityStorageError, RetrievedIdentityStorage};
use password_kdf::{has_default_costs, password_key_spec, password_len_accepted};
use vault::{IdentityVault, VaultCiphertext, VaultPlaintext};
use vault_key::{VaultKeyError, VAULT_KEY_LEN};

pub mod password_kdf;
pub mod vault_key;
pub mod vault;
pub mod file_system;

verus! {

/// Why creating an identity's storage failed.
#[derive(Debug)]
pub enum CreateIdentityStorageError {
    PasswordKdf(argon2::Error),
    VaultKey(VaultKeyError),
    VaultEncryption(chacha20poly1305::Error),
    VaultSerialization(serde_json::Error),
    Storage(IdentityStorageError),
}

/// What an identity's storage holds once decrypted.
pub struct DecryptedIdentityStorage {
    pub local_hint: String,
    pub master_seed: MasterSeed,
}

/// Why decrypting an identity's storage failed.
#[derive(Debug)]
pub enum DecryptIdentityStorageError {
    Storage(IdentityStorageError),
    PasswordKdf(argon2::Error),
    VaultKey(VaultKeyError),
    VaultDecryption(chacha20poly1305::Error),
    VaultDeserialization(serde_json::Error),
    UnsupportedIdentityDerivationVersion(u32),
}

/// The vault plaintext that `password` (as UTF-8 bytes) opens from a stored record and vault
/// ciphertext: the password key that the record's metadata derives unwraps a 32-byte vault
/// key, which decrypts the vault. `None` when any step fails.
pub open spec fn identity_storage_plaintext(record: IdentityRecord, vault: VaultCiphertext, password: Seq<u8>) -> Option<Seq<u8>> {
    match password_key_spec(password, record.password_kdf) {
        None => None,
        Some(password_key) => match xchacha20poly1305_open(password_key, record.wrapped_vault_key.nonce@, record.wrapped_vault_key.ciphertext@) {
            None => None,
            Some(vault_key) => if vault_key.len() == VAULT_KEY_LEN {
                xchacha20poly1305_open(vault_key, vault.nonce@, vault.ciphertext@)
            } else {
                None
            },
        },
    }
}

/// What decrypting retrieved storage with `password` (as UTF-8 bytes) gives: the vault
/// plaintext, or the error of the first step that fails.
pub open spec fn identity_storage_decrypted(retrieved: RetrievedIdentityStorage, password: Seq<u8>, r: Result<VaultPlaintext, DecryptIdentityStorageError>) -> bool {
    let record = retrieved.identity_record;
    match password_key_spec(password, record.password_kdf) {
        None => r matches Err(DecryptIdentityStorageError::PasswordKdf(_)),
        Some(password_key) => match xchacha20poly1305_open(password_key, record.wrapped_vault_key.nonce@, record.wrapped_vault_key.ciphertext@) {
            None => r matches Err(DecryptIdentityStorageError::VaultKey(VaultKeyError::Aead(_))),
            Some(vault_key) => if vault_key.len() != VAULT_KEY_LEN {
                r matches Err(DecryptIdentityStorageError::VaultKey(VaultKeyError::InvalidVaultKeyLength(len))) && len == vault_key.len()
            } else {
                match xchacha20poly1305_open(vault_key, retrieved.vault_ciphertext.nonce@, retrieved.vault_ciphertext.ciphertext@) {
                    None => r matches Err(DecryptIdentityStorageError::VaultDecryption(_)),
                    Some(data) => r matches Ok(p) && p.data@ == data,
                }
            },
        },
    }
}

/// Creates the storage of an identity from its serialized vault: a fresh vault key encrypts
/// the vault, and a fresh password key wraps the vault key. It fails exactly when the vault
/// is too long for the cipher (`VaultEncryption`) or the password too long for Argon2
/// (`PasswordKdf`); what it creates opens with the same password to the vault plaintext.
pub fn create_identity_storage(local_hint: String, vault_plaintext: &VaultPlaintext, password: &str) -> (r: Result<(IdentityRecord, VaultCiphertext), CreateIdentityStorageError>)
    ensures
        r is Ok <==> sealable_len(vault_plaintext.data@.len()) && password_len_accepted(password),
        !sealable_len(vault_plaintext.data@.len()) ==> r matches Err(CreateIdentityStorageError::VaultEncryption(_)),
        sealable_len(vault_plaintext.data@.len()) && !password_len_accepted(password) ==> r matches Err(CreateIdentityStorageError::PasswordKdf(_)),
        r matches Ok((record, vault)) ==> {
            &&& record.local_hint@ == local_hint@
            &&& has_default_costs(record.password_kdf)
            &&& identity_storage_plaintext(record, vault, password.spec_bytes()) == Some(vault_plaintext.data@)
        },
        r matches Ok((record, vault)) ==> exists|vault_key: Seq<u8>|
            #![trigger xchacha20poly1305_seal(vault_key, vault.nonce@, vault_plaintext.data@)]
            {
                &&& vault_key.len() == VAULT_KEY_LEN
                &&& vault.ciphertext@ == xchacha20poly1305_seal(vault_key, vault.nonce@, vault_plaintext.data@)
                &&& xchacha20poly1305_open(vault_key, vault.nonce@, vault.ciphertext@) == Some(vault_plaintext.data@)
                &&& password_key_spec(password.spec_bytes(), record.password_kdf) is Some
                &&& record.wrapped_vault_key.ciphertext@ == xchacha20poly1305_seal(
                    password_key_spec(password.spec_bytes(), record.password_kdf).unwrap(),
                    record.wrapped_vault_key.nonce@,
                    vault_key,
                )
                &&& xchacha20poly1305_open(
                    password_key_spec(password.spec_bytes(), record.password_kdf).unwrap(),
                    record.wrapped_vault_key.nonce@,
                    record.wrapped_vault_key.ciphertext@,
                ) == Some(vault_key)
            },
{
    let vault_key = vault_key::create_vault_key();
    let vault_ciphertext = match vault::encrypt_vault(vault_plaintext, &vault_key) {
        Ok(c) => c,
        Err(e) => return Err(CreateIdentityStorageError::VaultEncryption(e)),
    };
    let password_key = match password_kdf::create_password_key(password) {
        Ok(k) => k,
        Err(e) => return Err(CreateIdentityStorageError::PasswordKdf(e)),
    };
    let wrapped_vault_key = match vault_key::wrap_vault_key(&vault_key, &password_key) {
        Ok(w) => w,
        Err(e) => return Err(CreateIdentityStorageError::VaultKey(e)),
    };
    let password_kdf = password_key.into_metadata();
    let identity_record = IdentityRecord { local_hint, password_kdf, wrapped_vault_key };
    assert(xchacha20poly1305_seal(vault_key@, vault_ciphertext.nonce@, vault_plaintext.data@) == vault_ciphertext.ciphertext@);
    Ok((identity_record, vault_ciphertext))
}

/// Decrypts retrieved identity storage with a password: recreates the password key from the
/// stored metadata, unwraps the vault key and decrypts the vault.
pub fn decrypt_identity_storage(retrieved: &RetrievedIdentityStorage, password: &str) -> (r: Result<VaultPlaintext, DecryptIdentityStorageError>)
    requires
        retrieved.identity_record.password_kdf.memory_kib < 8
            || retrieved.identity_record.password_kdf.parallelism <= 0x1FFF_FFFF,
    ensures
        identity_storage_decrypted(*retrieved, password.spec_bytes(), r),
        r matches Ok(p) ==> exists|vault_key: Seq<u8>|
            #![trigger xchacha20poly1305_open(vault_key, retrieved.vault_ciphertext.nonce@, retrieved.vault_ciphertext.ciphertext@)]
            {
                &&& vault_key.len() == VAULT_KEY_LEN
                &&& password_key_spec(password.spec_bytes(), retrieved.identity_record.password_kdf) is Some
                &&& xchacha20poly1305_open(
                    password_key_spec(password.spec_bytes(), retrieved.identity_record.password_kdf).unwrap(),
                    retrieved.identity_record.wrapped_vault_key.nonce@,
                    retrieved.identity_record.wrapped_vault_key.ciphertext@,
                ) == Some(vault_key)
                &&& xchacha20poly1305_open(vault_key, retrieved.vault_ciphertext.nonce@, retrieved.vault_ciphertext.ciphertext@) == Some(p.data@)
            },
{
    let record = &retrieved.identity_record;
    let password_key = match password_kdf::recreate_password_key(password, &record.password_kdf) {
        Ok(k) => k,
        Err(e) => return Err(DecryptIdentityStorageError::PasswordKdf(e)),
    };
    let vault_key = match vault_key::unwrap_vault_key(&record.wrapped_vault_key, &password_key) {
        Ok(k) => k,
        Err(e) => return Err(DecryptIdentityStorageError::VaultKey(e)),
    };
    match vault::decrypt_vault(&retrieved.vault_ciphertext, &vault_key) {
        Ok(p) => {
            assert(xchacha20poly1305_open(vault_key@, retrieved.vault_ciphertext.nonce@, retrieved.vault_ciphertext.ciphertext@) == Some(p.data@));
            Ok(p)
        },
        Err(e) => Err(DecryptIdentityStorageError::VaultDecryption(e)),
    }
}

/// A vault is only ever opened with the vault key that the password unwraps: whatever
/// decryption returns is the opening of the vault ciphertext under a 32-byte key that the
/// record's wrapped key opens to under the password key.
pub proof fn lemma_decrypted_vault_opens_under_unwrapped_key(retrieved: RetrievedIdentityStorage, password: Seq<u8>, r: Result<VaultPlaintext, DecryptIdentityStorageError>)
    requires
        identity_storage_decrypted(retrieved, password, r),
        r is Ok,
    ensures
        exists|password_key: Seq<u8>, vault_key: Seq<u8>| {
            &&& password_key_spec(password, retrieved.identity_record.password_kdf) == Some(password_key)
            &&& vault_key.len() == 32
            &&& #[trigger] xchacha20poly1305_open(password_key, retrieved.identity_record.wrapped_vault_key.nonce@, retrieved.identity_record.wrapped_vault_key.ciphertext@) == Some(vault_key)
            &&& #[trigger] xchacha20poly1305_open(vault_key, retrieved.vault_ciphertext.nonce@, retrieved.vault_ciphertext.ciphertext@) == Some(r->Ok_0.data@)
        },
{
    let password_key = password_key_spec(password, retrieved.identity_record.password_kdf).unwrap();
    let vault_key = xchacha20poly1305_open(password_key, retrieved.identity_record.wrapped_vault_key.nonce@, retrieved.identity_record.wrapped_vault_key.ciphertext@).unwrap();
    assert(xchacha20poly1305_open(vault_key, retrieved.vault_ciphertext.nonce@, retrieved.vault_ciphertext.ciphertext@) == Some(r->Ok_0.data@));
}

/// The plaintext that a password opens from stored records is the opening of the vault
/// ciphertext under the 32-byte vault key unwrapped with the password key, never an opening
/// under the password key itself.
pub proof fn lemma_storage_plaintext_uses_unwrapped_key(record: IdentityRecord, vault: VaultCiphertext, password: Seq<u8>, data: Seq<u8>)
    requires
        identity_storage_plaintext(record, vault, password) == Some(data),
    ensures
        exists|password_key: Seq<u8>, vault_key: Seq<u8>| {
            &&& password_key_spec(password, record.password_kdf) == Some(password_key)
            &&& vault_key.len() == 32
            &&& #[trigger] xchacha20poly1305_open(password_key, record.wrapped_vault_key.nonce@, record.wrapped_vault_key.ciphertext@) == Some(vault_key)
            &&& #[trigger] xchacha20poly1305_open(vault_key, vault.nonce@, vault.ciphertext@) == Some(data)
        },
{
    let password_key = password_key_spec(password, record.password_kdf).unwrap();
    let vault_key = xchacha20poly1305_open(password_key, record.wrapped_vault_key.nonce@, record.wrapped_vault_key.ciphertext@).unwrap();
    assert(xchacha20poly1305_open(vault_key, vault.nonce@, vault.ciphertext@) == Some(data));
}

/// Storage laid out as the library writes it (the vault sealed under a 32-byte vault key, that
/// key wrapped under the password key) decrypts with the password to the vault plaintext.
pub proof fn lemma_decrypt_opens_written_layout(retrieved: RetrievedIdentityStorage, password: Seq<u8>, vault_key: Seq<u8>, data: Seq<u8>, r: Result<VaultPlaintext, DecryptIdentityStorageError>)
    requires
        vault_key.len() == 32,
        password_key_spec(password, retrieved.identity_record.password_kdf) is Some,
        xchacha20poly1305_open(
            password_key_spec(password, retrieved.identity_record.password_kdf).unwrap(),
            retrieved.identity_record.wrapped_vault_key.nonce@,
            retrieved.identity_record.wrapped_vault_key.ciphertext@,
        ) == Some(vault_key),
        xchacha20poly1305_open(vault_key, retrieved.vault_ciphertext.nonce@, retrieved.vault_ciphertext.ciphertext@) == Some(data),
        identity_storage_decrypted(retrieved, password, r),
    ensures
        r matches Ok(p) && p.data@ == data,
{
}

/// Storage created for a vault plaintext and a password decrypts, with that password, to the
/// same vault plaintext.
pub proof fn lemma_decrypt_inverts_create(retrieved: RetrievedIdentityStorage, password: Seq<u8>, data: Seq<u8>, r: Result<VaultPlaintext, DecryptIdentityStorageError>)
    requires
        identity_storage_plaintext(retrieved.identity_record, retrieved.vault_ciphertext, password) == Some(data),
        identity_storage_decrypted(retrieved, password, r),
    ensures
        r matches Ok(p) && p.data@ == data,
{
}

/// What checking a decrypted vault gives: the identity's hint and master seed when the
/// vault was made for the current derivation version, and otherwise the version it holds.
pub open spec fn identity_vault_checked(local_hint: Seq<char>, identity_vault: IdentityVault, r: Result<DecryptedIdentityStorage, DecryptIdentityStorageError>) -> bool {
    if identity_vault.identity_derivation_version == IDENTITY_DERIVATION_VERSION {
        r matches Ok(d) && d.local_hint@ == local_hint && d.master_seed == identity_vault.master_seed
    } else {
        r == Err::<DecryptedIdentityStorage, DecryptIdentityStorageError>(
            DecryptIdentityStorageError::UnsupportedIdentityDerivationVersion(identity_vault.identity_derivation_version),
        )
    }
}

/// Accepts a decrypted vault when it was made for the current derivation version, and returns
/// its master seed with the identity's hint; otherwise fails with the version it holds.
pub fn check_identity_vault(local_hint: String, identity_vault: IdentityVault) -> (r: Result<DecryptedIdentityStorage, DecryptIdentityStorageError>)
    ensures
        identity_vault_checked(local_hint@, identity_vault, r),
{
    if identity_vault.identity_derivation_version != IDENTITY_DERIVATION_VERSION {
        return Err(DecryptIdentityStorageError::UnsupportedIdentityDerivationVersion(identity_vault.identity_derivation_version));
    }
    Ok(DecryptedIdentityStorage { local_hint, master_seed: identity_vault.master_seed })
}

/// A vault made from a master seed is accepted, and gives that master seed back.
pub proof fn lemma_fresh_vault_is_accepted(master_seed: MasterSeed, identity_vault: IdentityVault, local_hint: Seq<char>, r: Result<DecryptedIdentityStorage, DecryptIdentityStorageError>)
    requires
        identity_vault.identity_derivation_version == IDENTITY_DERIVATION_VERSION,
        identity_vault.master_seed == master_seed,
        identity_vault_checked(local_hint, identity_vault, r),
    ensures
        r matches Ok(d) && d.master_seed == master_seed && d.local_hint@ == local_hint,
{
}

impl CreateIdentityStorageError {
    /// The error's message as far as it is determined: all of it, except the message of a
    /// JSON or I/O error that follows it.
    pub open spec fn text_prefix(self) -> Seq<char> {
        match self {
            CreateIdentityStorageError::PasswordKdf(err) => "password key creation failed: "@ + argon2_error_message(err),
            CreateIdentityStorageError::VaultKey(err) => "vault key wrapping failed: "@ + err.text(),
            CreateIdentityStorageError::VaultEncryption(_) => "vault encryption failed"@,
            CreateIdentityStorageError::VaultSerialization(_) => "vault serialization failed: "@,
            CreateIdentityStorageError::Storage(err) => "identity storage failed: "@ + err.text_prefix(),
        }
    }

    /// Whether the message is the prefix alone (no JSON or I/O error message follows it).
    pub open spec fn text_is_complete(self) -> bool {
        match self {
            CreateIdentityStorageError::PasswordKdf(_) => true,
            CreateIdentityStorageError::VaultKey(_) => true,
            CreateIdentityStorageError::VaultEncryption(_) => true,
            CreateIdentityStorageError::Storage(err) => err.text_is_complete(),
            _ => false,
        }
    }

    /// The message of the error, as `Display` would write it: the prefix, followed by the
    /// message of the JSON or I/O error where there is one.
    pub fn to_display_string(&self) -> (text: String)
        ensures
            text@.len() >= self.text_prefix().len(),
            text@.take(self.text_prefix().len() as int) == self.text_prefix(),
            self.text_is_complete() ==> text@ == self.text_prefix(),
    {
        let (mut text, tail) = match self {
            CreateIdentityStorageError::PasswordKdf(err) => (String::from_str("password key creation failed: "), argon2_error_text(err)),
            CreateIdentityStorageError::VaultKey(err) => (String::from_str("vault key wrapping failed: "), err.to_display_string()),
            CreateIdentityStorageError::VaultEncryption(_) => (String::from_str("vault encryption failed"), String::new()),
            CreateIdentityStorageError::VaultSerialization(err) => (String::from_str("vault serialization failed: "), json_error_text(err)),
            CreateIdentityStorageError::Storage(err) => (String::from_str("identity storage failed: "), err.to_display_string()),
        };
        let ghost head = text@;
        text.append(tail.as_str());
        proof {
            assert(text@.take(head.len() as int) =~= head);
            assert(text@.take(self.text_prefix().len() as int) =~= self.text_prefix());
            if self.text_is_complete() {
                assert(text@ =~= self.text_prefix());
            }
        }
        text
    }
}

impl DecryptIdentityStorageError {
    /// The error's message as far as it is determined: all of it, except the message of a
    /// JSON or I/O error that follows it.
    pub open spec fn text_prefix(self) -> Seq<char> {
        match self {
            DecryptIdentityStorageError::Storage(err) => "identity storage retrieval failed: "@ + err.text_prefix(),
            DecryptIdentityStorageError::PasswordKdf(err) => "password key recreation failed: "@ + argon2_error_message(err),
            DecryptIdentityStorageError::VaultKey(err) => "vault key unwrapping failed: "@ + err.text(),
            DecryptIdentityStorageError::VaultDecryption(_) => "vault decryption failed"@,
            DecryptIdentityStorageError::VaultDeserialization(_) => "vault deserialization failed: "@,
            DecryptIdentityStorageError::UnsupportedIdentityDerivationVersion(version) =>
                "unsupported identity derivation version: "@ + decimal(version as nat),
        }
    }

    /// Whether the message is the prefix alone (no JSON or I/O error message follows it).
    pub open spec fn text_is_complete(self) -> bool {
        match self {
            DecryptIdentityStorageError::Storage(err) => err.text_is_complete(),
            DecryptIdentityStorageError::PasswordKdf(_) => true,
            DecryptIdentityStorageError::VaultKey(_) => true,
            DecryptIdentityStorageError::VaultDecryption(_) => true,
            DecryptIdentityStorageError::UnsupportedIdentityDerivationVersion(_) => true,
            _ => false,
        }
    }

    /// The message of the error, as `Display` would write it: the prefix, followed by the
    /// message of the JSON or I/O error where there is one.
    pub fn to_display_string(&self) -> (text: String)
        ensures
            text@.len() >= self.text_prefix().len(),
            text@.take(self.text_prefix().len() as int) == self.text_prefix(),
            self.text_is_complete() ==> text@ == self.text_prefix(),
    {
        let (mut text, tail) = match self {
            DecryptIdentityStorageError::Storage(err) => (String::from_str("identity storage retrieval failed: "), err.to_display_string()),
            DecryptIdentityStorageError::PasswordKdf(err) => (String::from_str("password key recreation failed: "), argon2_error_text(err)),
            DecryptIdentityStorageError::VaultKey(err) => (String::from_str("vault key unwrapping failed: "), err.to_display_string()),
            DecryptIdentityStorageError::VaultDecryption(_) => (String::from_str("vault decryption failed"), String::new()),
            DecryptIdentityStorageError::VaultDeserialization(err) => (String::from_str("vault deserialization failed: "), json_error_text(err)),
            DecryptIdentityStorageError::UnsupportedIdentityDerivationVersion(version) =>
                (String::from_str("unsupported identity derivation version: "), decimal_text(*version as usize)),
        };
        let ghost head = text@;
        text.append(tail.as_str());
        proof {
            assert(text@.take(head.len() as int) =~= head);
            assert(text@.take(self.text_prefix().len() as int) =~= self.text_prefix());
            if self.text_is_complete() {
                assert(text@ =~= self.text_prefix());
            }
        }
        text
    }
}

} // verus!
