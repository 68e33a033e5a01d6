//! Argon2id derivation of the password key, and the metadata needed to derive it again.
use vstd::prelude::*;
use vstd::string::StringSliceAdditionalSpecFns;
use crate::primitives::{argon2_params_accepted, argon2id_32, argon2id_hash_32, os_random_bytes};

verus! {

/// The length of a password key.
pub const PASSWORD_KEY_LEN: usize = 32;

/// The length of the random salt of a password key.
pub const PASSWORD_SALT_LEN: usize = 16;

/// The Argon2id memory cost of new password keys, in KiB (64 MiB).
pub const ARGON2_MEMORY_KIB: u32 = 65536;

/// The Argon2id number of passes of new password keys.
pub const ARGON2_ITERATIONS: u32 = 3;

/// The Argon2id number of lanes of new password keys.
pub const ARGON2_PARALLELISM: u32 = 1;

/// A key derived from a password, with the metadata that derives it again.
pub struct PasswordKey {
    key: [u8; 32],
    pub metadata: PasswordKdfMetadata,
}

/// The salt and Argon2id costs with which a password key was derived.
pub struct PasswordKdfMetadata {
    pub salt: [u8; 16],
    pub memory_kib: u32,
    pub iterations: u32,
    pub parallelism: u32,
}

impl View for PasswordKey {
    type V = Seq<u8>;

    closed spec fn view(&self) -> Seq<u8> {
        self.key@
    }
}

impl PasswordKey {
    /// The metadata that derives the key: the public field `metadata`.
    pub closed spec fn kdf_metadata(self) -> PasswordKdfMetadata {
        self.metadata
    }

    /// The public field `metadata`, which the contracts call `kdf_metadata()`.
    pub fn metadata(&self) -> (metadata: &PasswordKdfMetadata)
        ensures
            *metadata == self.kdf_metadata(),
    {
        &self.metadata
    }

    /// The metadata that derives the key, giving up the key.
    pub fn into_metadata(self) -> (metadata: PasswordKdfMetadata)
        ensures
            metadata == self.kdf_metadata(),
    {
        self.metadata
    }

    /// The key bytes.
    pub fn as_bytes(&self) -> (bytes: &[u8; 32])
        ensures
            bytes@ == self@,
    {
        &self.key
    }
}

/// Whether `metadata` holds the costs that new password keys are created with.
pub open spec fn has_default_costs(metadata: PasswordKdfMetadata) -> bool {
    &&& metadata.memory_kib == ARGON2_MEMORY_KIB
    &&& metadata.iterations == ARGON2_ITERATIONS
    &&& metadata.parallelism == ARGON2_PARALLELISM
}

/// The password key that `password` (as UTF-8 bytes) and `metadata` derive: the Argon2id hash
/// of the password with the metadata's salt and costs, or `None` when Argon2 refuses the
/// costs or the password.
pub open spec fn password_key_spec(password: Seq<u8>, metadata: PasswordKdfMetadata) -> Option<Seq<u8>> {
    if argon2_params_accepted(metadata.memory_kib, metadata.iterations, metadata.parallelism)
        && password.len() <= 0xFFFF_FFFF {
        Some(argon2id_32(password, metadata.salt@, metadata.memory_kib, metadata.iterations, metadata.parallelism))
    } else {
        None
    }
}

/// Whether `password` is short enough for Argon2 (at most `0xFFFF_FFFF` bytes).
pub open spec fn password_len_accepted(password: &str) -> bool {
    password.spec_bytes().len() <= 0xFFFF_FFFF
}

/// The default costs are accepted by Argon2.
pub proof fn lemma_default_costs_accepted()
    ensures
        argon2_params_accepted(ARGON2_MEMORY_KIB, ARGON2_ITERATIONS, ARGON2_PARALLELISM),
{
}

/// Derives a fresh password key: a random salt and the default costs.
pub fn create_password_key(password: &str) -> (r: Result<PasswordKey, argon2::Error>)
    ensures
        r is Ok <==> password_len_accepted(password),
        r matches Ok(k) ==> {
            &&& has_default_costs(k.kdf_metadata())
            &&& password_key_spec(password.spec_bytes(), k.kdf_metadata()) == Some(k@)
        },
{
    let salt = os_random_bytes::<PASSWORD_SALT_LEN>();
    let key = derive_password_key(password, &salt, ARGON2_MEMORY_KIB, ARGON2_ITERATIONS, ARGON2_PARALLELISM);
    match key {
        Ok(key) => Ok(PasswordKey {
            key,
            metadata: PasswordKdfMetadata {
                salt,
                memory_kib: ARGON2_MEMORY_KIB,
                iterations: ARGON2_ITERATIONS,
                parallelism: ARGON2_PARALLELISM,
            },
        }),
        Err(e) => Err(e),
    }
}

/// What recreating the password key of `password` (as UTF-8 bytes) from `metadata` gives:
/// the derived key with the same metadata, or an error exactly when Argon2 refuses.
pub open spec fn password_key_recreated(password: Seq<u8>, metadata: PasswordKdfMetadata, r: Result<PasswordKey, argon2::Error>) -> bool {
    match r {
        Ok(k) => password_key_spec(password, metadata) == Some(k@) && k.kdf_metadata() == metadata,
        Err(_) => password_key_spec(password, metadata) is None,
    }
}

/// Derives the password key of `password` again from the stored metadata. It fails exactly
/// when Argon2 refuses the metadata's costs or the password.
pub fn recreate_password_key(password: &str, metadata: &PasswordKdfMetadata) -> (r: Result<PasswordKey, argon2::Error>)
    requires
        metadata.memory_kib < 8 || metadata.parallelism <= 0x1FFF_FFFF,
    ensures
        password_key_recreated(password.spec_bytes(), *metadata, r),
{
    let key = derive_password_key(password, &metadata.salt, metadata.memory_kib, metadata.iterations, metadata.parallelism);
    match key {
        Ok(key) => Ok(PasswordKey {
            key,
            metadata: PasswordKdfMetadata {
                salt: metadata.salt,
                memory_kib: metadata.memory_kib,
                iterations: metadata.iterations,
                parallelism: metadata.parallelism,
            },
        }),
        Err(e) => Err(e),
    }
}

/// The Argon2id (version 0x13) hash of `password` into a 32-byte key.
fn derive_password_key(password: &str, salt: &[u8; 16], memory_kib: u32, iterations: u32, parallelism: u32) -> (r: Result<[u8; 32], argon2::Error>)
    requires
        memory_kib < 8 || parallelism <= 0x1FFF_FFFF,
    ensures
        r is Ok <==> (argon2_params_accepted(memory_kib, iterations, parallelism) && password.spec_bytes().len() <= 0xFFFF_FFFF),
        r matches Ok(key) ==> key@ == argon2id_32(password.spec_bytes(), salt@, memory_kib, iterations, parallelism),
{
    argon2id_hash_32(password.as_bytes(), salt, memory_kib, iterations, parallelism)
}

/// Recreating a password key from the metadata of a key created from the same password gives
/// that key back, with the same metadata.
pub proof fn lemma_recreate_reproduces_created(password: Seq<u8>, created: PasswordKey, r: Result<PasswordKey, argon2::Error>)
    requires
        password_key_spec(password, created.kdf_metadata()) == Some(created@),
        password_key_recreated(password, created.kdf_metadata(), r),
    ensures
        r matches Ok(k) && k@ == created@ && k.kdf_metadata() == created.kdf_metadata(),
{
}

/// Recreating a password key twice from the same password and metadata gives the same key
/// and keeps the metadata: both are the Argon2id hash that the metadata describes.
pub proof fn lemma_recreate_is_deterministic(password: Seq<u8>, metadata: PasswordKdfMetadata, first: Result<PasswordKey, argon2::Error>, second: Result<PasswordKey, argon2::Error>)
    requires
        password_key_recreated(password, metadata, first),
        password_key_recreated(password, metadata, second),
    ensures
        first is Ok <==> second is Ok,
        first matches Ok(a) ==> second matches Ok(b) && a@ == b@ && a.kdf_metadata() == b.kdf_metadata()
            && a.kdf_metadata() == metadata,
        first matches Ok(a) ==> a@ == argon2id_32(password, metadata.salt@, metadata.memory_kib, metadata.iterations, metadata.parallelism),
{
}

/// Recreating a key with another password from the metadata of a created key succeeds whenever
/// Argon2 accepts that password, and keeps the created key's salt and costs. Whether the two
/// keys differ is a property of Argon2 itself.
pub proof fn lemma_recreate_with_other_password(password: Seq<u8>, created: PasswordKey, other_password: Seq<u8>, r: Result<PasswordKey, argon2::Error>)
    requires
        has_default_costs(created.kdf_metadata()),
        password_key_spec(password, created.kdf_metadata()) == Some(created@),
        other_password.len() <= 0xFFFF_FFFF,
        password_key_recreated(other_password, created.kdf_metadata(), r),
    ensures
        r matches Ok(k) && k.kdf_metadata().salt == created.kdf_metadata().salt
            && k.kdf_metadata() == created.kdf_metadata()
            && k@ == argon2id_32(other_password, created.kdf_metadata().salt@, ARGON2_MEMORY_KIB, ARGON2_ITERATIONS, ARGON2_PARALLELISM),
{
}

} // verus!
