//! Sealing of byte strings under 32-byte keys with XChaCha20-Poly1305 and fresh random
//! nonces: the one scheme by which the vault, the vault key, message storage keys and
//! messages are protected.
use vstd::prelude::*;
use crate::primitives::{
    os_random_bytes, xchacha20poly1305_encrypt, xchacha20poly1305_max_blocks,
    xchacha20poly1305_open, xchacha20poly1305_seal,
};

verus! {

/// The length of the random nonce of every sealed byte string.
pub const SEALING_NONCE_LEN: usize = 24;

/// Whether the cipher accepts a plaintext of `len` bytes (fewer than `u32::MAX` blocks of
/// 64 bytes).
pub open spec fn sealable_len(len: nat) -> bool {
    len / 64 < xchacha20poly1305_max_blocks()
}

/// Seals `data` under `key` with a fresh random nonce. It fails only when the data is too
/// long for the cipher; the ciphertext opens under the same key and nonce to the data.
pub(crate) fn seal_with_fresh_nonce(key: &[u8; 32], data: &[u8]) -> (r: Result<([u8; 24], Vec<u8>), chacha20poly1305::Error>)
    ensures
        r is Ok <==> sealable_len(data@.len()),
        r matches Ok((nonce, ciphertext)) ==> {
            &&& ciphertext@ == xchacha20poly1305_seal(key@, nonce@, data@)
            &&& ciphertext@.len() == data@.len() + 16
            &&& xchacha20poly1305_open(key@, nonce@, ciphertext@) == Some(data@)
        },
{
    let nonce = os_random_bytes::<SEALING_NONCE_LEN>();
    match xchacha20poly1305_encrypt(key, &nonce, data) {
        Ok(ciphertext) => Ok((nonce, ciphertext)),
        Err(e) => Err(e),
    }
}

/// The 32-byte array holding the 32 bytes of `bytes`.
pub(crate) fn key_array_from_bytes(bytes: &Vec<u8>) -> (key: [u8; 32])
    requires
        bytes@.len() == 32,
    ensures
        key@ == bytes@,
{
    let mut key = [0u8; 32];
    let mut i: usize = 0;
    while i < 32
        invariant
            i <= 32,
            bytes@.len() == 32,
            key@.len() == 32,
            forall|j: int| 0 <= j < i ==> key@[j] == bytes@[j],
        decreases 32 - i,
    {
        key[i] = bytes[i];
        i = i + 1;
    }
    assert(key@ =~= bytes@);
    key
}

} // verus!
