# resonance

Self-owned identity and local encrypted storage, verified with Verus.

- `src/identity.rs`: BIP-39 mnemonics, HKDF-SHA3-256 derivation of key material under
  domain-separation labels, the ML-DSA-65 root key pair and the `rsn:` identity ID.
- `src/identity_manager/`: the Argon2id password key, the random vault key and its wrapping,
  vault encryption, the records of identity storage, the order in which identities are
  listed, and the creation and opening of an identity's storage.
- `src/message_management.rs`: message storage keys, their wrapping, and message encryption.
- `src/sealing.rs`: XChaCha20-Poly1305 sealing with fresh nonces, shared by all of the above.
- `src/primitives.rs`: the boundary to the cryptographic crates, with the contract that the
  proofs assume of each call.
- `app/`: file system and JSON handling of identity storage around the library.
