//! Seed-based identities: BIP-39 mnemonics, domain-separated HKDF derivation of key material,
//! the ML-DSA-65 root key pair and the identity ID derived from its public key.
use vstd::prelude::*;
use vstd::slice::slice_to_vec;
use vstd::string::{StringExecFns, StringSliceAdditionalSpecFns};
use crate::primitives::{
    bip39_check_entropy, bip39_english, bip39_english_sentence, bip39_english_sentence_of,
    bip39_entropy_len_allowed, bip39_generate_english_entropy, is_sentence_of_words, bip39_seed, bip39_seed_from_entropy,
    hex_digit_lower, hex_encode, hex_lower, hkdf_sha3_256, hkdf_sha3_256_expand,
    ml_dsa_65_verifying_key, ml_dsa_65_verifying_key_from_seed, sha3_256, sha3_256_of_concat,
};

verus! {

/// The 64-byte seed from which an identity is derived.
pub type IdentitySeed = [u8; 64];

/// The 64-byte master seed that an identity vault protects.
pub type MasterSeed = [u8; 64];

/// A 32-byte XChaCha20-Poly1305 key derived from the master seed, used to wrap the keys of
/// local storage.
pub type LocalStorageWrappingKey = [u8; 32];

/// The version of the derivation scheme from master seed to identity that vaults record.
pub const IDENTITY_DERIVATION_VERSION: u32 = 1;

// Domain separation label format: resonance:<layer>:<object>:<purpose>:<algorithm>:<version>

/// The HKDF salt of every derivation from an identity seed.
pub const IDENTITY_HKDF_SALT: &'static str = "resonance:identity:seed:hkdf-salt:hkdf-sha3-256:v1";

/// The HKDF info from which the root ML-DSA-65 seed is derived.
pub const ROOT_ML_DSA_SEED_LABEL: &'static str = "resonance:identity:root-key:seed:ml-dsa-65:v1";

/// The label hashed in front of a public key to form an identity ID.
pub const IDENTITY_ID_LABEL: &'static str = "resonance:identity:public-key:id:sha3-256:v1";

/// The HKDF info from which the wrapping key of message storage keys is derived.
pub const MESSAGES_STORAGE_WRAPPING_KEY_LABEL: &'static str =
    "resonance:storage:messages:wrapping-key:xchacha20poly1305:v1";

/// The number of bytes of the SHA3-256 digest that an identity ID keeps.
pub const IDENTITY_ID_HASH_LEN: usize = 16;

/// The number of words of a generated mnemonic.
pub const MNEMONIC_WORD_COUNT: usize = 24;

/// A recovered identity: the root ML-DSA-65 key pair and the identity ID.
pub struct Identity {
    /// The encoded ML-DSA-65 verifying key (1952 bytes).
    pub root_public_key: Vec<u8>,
    /// The 32-byte ML-DSA-65 seed that determines the signing key; it is what the signing
    /// key exports as its bytes.
    pub root_secret_key: [u8; 32],
    /// The identity ID, `rsn:` followed by 32 lower-case hexadecimal digits.
    pub id: String,
}

/// The part of an identity that may be shared.
pub struct PublicIdentity {
    pub id: String,
    pub root_public_key: Vec<u8>,
}

/// A BIP-39 mnemonic in the English word list, held as the entropy it encodes.
pub struct Mnemonic {
    entropy: Vec<u8>,
}

impl View for Mnemonic {
    type V = Seq<u8>;

    closed spec fn view(&self) -> Seq<u8> {
        self.entropy@
    }
}

impl Mnemonic {
    #[verifier::type_invariant]
    closed spec fn entropy_len_allowed(self) -> bool {
        bip39_entropy_len_allowed(self.entropy@.len() as int)
    }

    /// The number of words of the mnemonic encoding `entropy`: three words per four bytes.
    pub open spec fn spec_word_count(entropy: Seq<u8>) -> nat {
        entropy.len() * 3 / 4
    }

    /// The English mnemonic of `entropy`; fails when BIP-39 does not allow its length
    /// (16, 20, 24, 28 or 32 bytes).
    pub fn from_entropy(entropy: &[u8]) -> (r: Result<Mnemonic, bip39::Error>)
        ensures
            r is Ok <==> bip39_entropy_len_allowed(entropy@.len() as int),
            r matches Ok(m) ==> m@ == entropy@,
    {
        match bip39_check_entropy(entropy) {
            Ok(()) => Ok(Mnemonic { entropy: slice_to_vec(entropy) }),
            Err(e) => Err(e),
        }
    }

    /// The entropy that the mnemonic encodes.
    pub fn to_entropy(&self) -> (entropy: Vec<u8>)
        ensures
            entropy@ == self@,
    {
        slice_to_vec(self.entropy.as_slice())
    }

    /// The number of words of the mnemonic.
    pub fn word_count(&self) -> (count: usize)
        ensures
            count == Self::spec_word_count(self@),
    {
        proof {
            use_type_invariant(self);
        }
        self.entropy.len() * 3 / 4
    }

    /// The word list of the mnemonic: always `bip39::Language::English`. The value is of an
    /// outside type that Verus does not see into, so no clause can name the variant.
    pub fn language(&self) -> bip39::Language {
        bip39_english()
    }

    /// The mnemonic sentence: the English words separated by single spaces.
    pub fn to_sentence(&self) -> (sentence: String)
        ensures
            sentence@ == bip39_english_sentence(self@),
            is_sentence_of_words(sentence@, Self::spec_word_count(self@)),
    {
        proof {
            use_type_invariant(self);
        }
        bip39_english_sentence_of(self.entropy.as_slice())
    }
}

/// What the mnemonic generator gives for what the BIP-39 generator drew: a mnemonic that holds
/// exactly the drawn entropy, or the generator's error unchanged.
pub open spec fn mnemonic_of_drawn_entropy(drawn: Result<Vec<u8>, bip39::Error>, r: Result<Mnemonic, bip39::Error>) -> bool {
    match drawn {
        Ok(entropy) => r matches Ok(m) && m@ == entropy@,
        Err(e) => r == Err::<Mnemonic, bip39::Error>(e),
    }
}

/// The mnemonic of the entropy that the BIP-39 generator drew: it keeps every drawn byte, so the
/// mnemonic is as fresh as the draw.
pub fn mnemonic_from_generated_entropy(drawn: Result<Vec<u8>, bip39::Error>) -> (r: Result<Mnemonic, bip39::Error>)
    requires
        drawn matches Ok(entropy) ==> bip39_entropy_len_allowed(entropy@.len() as int),
    ensures
        mnemonic_of_drawn_entropy(drawn, r),
{
    match drawn {
        Ok(entropy) => Ok(Mnemonic { entropy }),
        Err(e) => Err(e),
    }
}

/// A mnemonic made from drawn entropy holds the drawn bytes one for one: two draws that differ
/// give mnemonics that differ, and the mnemonic's length is the draw's length.
pub proof fn lemma_generated_mnemonic_keeps_draw(
    first_draw: Vec<u8>,
    second_draw: Vec<u8>,
    first: Result<Mnemonic, bip39::Error>,
    second: Result<Mnemonic, bip39::Error>,
)
    requires
        mnemonic_of_drawn_entropy(Ok(first_draw), first),
        mnemonic_of_drawn_entropy(Ok(second_draw), second),
    ensures
        first matches Ok(m) && m@ == first_draw@,
        second matches Ok(m) && m@ == second_draw@,
        first_draw@ != second_draw@ ==> first->Ok_0@ != second->Ok_0@,
{
}

/// A fresh 24-word English mnemonic from random entropy.
pub fn generate_mnemonic() -> (r: Result<Mnemonic, bip39::Error>)
    ensures
        r is Ok,
        r matches Ok(m) ==> m@.len() == 32 && Mnemonic::spec_word_count(m@) == 24,
{
    mnemonic_from_generated_entropy(bip39_generate_english_entropy(MNEMONIC_WORD_COUNT))
}

/// The identity seed of a mnemonic: its BIP-39 seed with the empty passphrase.
pub fn seed_from_mnemonic(mnemonic: &Mnemonic) -> (seed: IdentitySeed)
    ensures
        seed@ == bip39_seed(mnemonic@, Seq::empty()),
{
    proof {
        use_type_invariant(mnemonic);
        reveal_strlit("");
        assert(""@ =~= Seq::<char>::empty());
    }
    bip39_seed_from_entropy(mnemonic.entropy.as_slice(), "")
}

/// The `len` bytes of key material that `label` selects from `seed`: HKDF-SHA3-256 with the
/// identity salt.
pub open spec fn seed_material(seed: Seq<u8>, label: Seq<u8>, len: nat) -> Seq<u8> {
    hkdf_sha3_256(IDENTITY_HKDF_SALT.spec_bytes(), seed, label, len)
}

/// Derives `N` bytes of key material for `label` from `seed`. The same seed and label give
/// the same material, and shorter material is a prefix of longer material.
pub fn derive_seed_material<const N: usize>(seed: &IdentitySeed, label: &[u8]) -> (material: [u8; N])
    requires
        N <= 255 * 32,
    ensures
        material@ == seed_material(seed@, label@, N as nat),
        forall|m: nat| m <= N ==> #[trigger] seed_material(seed@, label@, m) == material@.take(m as int),
{
    hkdf_sha3_256_expand::<N>(IDENTITY_HKDF_SALT.as_bytes(), seed.as_slice(), label)
}

/// The 32-byte root ML-DSA-65 seed of an identity seed.
pub open spec fn root_seed(seed: Seq<u8>) -> Seq<u8> {
    seed_material(seed, ROOT_ML_DSA_SEED_LABEL.spec_bytes(), 32)
}

/// Derives the root ML-DSA-65 seed of an identity seed.
pub fn derive_root_seed(seed: &IdentitySeed) -> (root: [u8; 32])
    ensures
        root@ == root_seed(seed@),
{
    derive_seed_material::<32>(seed, ROOT_ML_DSA_SEED_LABEL.as_bytes())
}

/// The identity ID of a SHA3-256 digest: `rsn:` and the hexadecimal text of its first
/// 16 bytes.
pub open spec fn identity_id_of_digest(digest: Seq<u8>) -> Seq<char> {
    "rsn:"@ + hex_lower(digest.take(IDENTITY_ID_HASH_LEN as int))
}

/// The identity ID of an encoded public key: derived from the SHA3-256 digest of the
/// identity ID label followed by the key.
pub open spec fn identity_id(public_key: Seq<u8>) -> Seq<char> {
    identity_id_of_digest(sha3_256(IDENTITY_ID_LABEL.spec_bytes() + public_key))
}

/// A lower-case hexadecimal digit.
pub open spec fn is_lower_hex_digit(c: char) -> bool {
    ('0' <= c <= '9') || ('a' <= c <= 'f')
}

/// The hexadecimal text of any bytes is made of lower-case digits, two per byte.
pub proof fn lemma_hex_lower_digits(bytes: Seq<u8>)
    ensures
        hex_lower(bytes).len() == 2 * bytes.len(),
        forall|i: int| 0 <= i < hex_lower(bytes).len() ==> is_lower_hex_digit(#[trigger] hex_lower(bytes)[i]),
{
    assert forall|i: int| 0 <= i < hex_lower(bytes).len() implies is_lower_hex_digit(#[trigger] hex_lower(bytes)[i]) by {
        let v: int = if i % 2 == 0 { (bytes[i / 2] / 16) as int } else { (bytes[i / 2] % 16) as int };
        assert(0 <= v < 16);
        assert(hex_lower(bytes)[i] == hex_digit_lower(v));
    }
}

/// Every identity ID of a 32-byte digest is 36 characters long: `rsn:` followed by 32
/// lower-case hexadecimal digits.
pub proof fn lemma_identity_id_format(digest: Seq<u8>)
    requires
        digest.len() == 32,
    ensures
        identity_id_of_digest(digest).len() == 36,
        identity_id_of_digest(digest).take(4) == "rsn:"@,
        forall|i: int| 4 <= i < 36 ==> is_lower_hex_digit(#[trigger] identity_id_of_digest(digest)[i]),
{
    reveal_strlit("rsn:");
    let hex = hex_lower(digest.take(16));
    lemma_hex_lower_digits(digest.take(16));
    assert(identity_id_of_digest(digest).take(4) =~= "rsn:"@);
    assert forall|i: int| 4 <= i < 36 implies is_lower_hex_digit(#[trigger] identity_id_of_digest(digest)[i]) by {
        assert(identity_id_of_digest(digest)[i] == hex[i - 4]);
    }
}

/// The identity ID of an encoded public key.
pub fn identity_id_from_public_key(public_key: &[u8]) -> (id: String)
    ensures
        id@ == identity_id(public_key@),
        id@.len() == 36,
        id@.take(4) == "rsn:"@,
        forall|i: int| 4 <= i < 36 ==> is_lower_hex_digit(#[trigger] id@[i]),
{
    let digest = sha3_256_of_concat(IDENTITY_ID_LABEL.as_bytes(), public_key);
    let mut short_hash: Vec<u8> = Vec::new();
    let mut i: usize = 0;
    while i < IDENTITY_ID_HASH_LEN
        invariant
            i <= IDENTITY_ID_HASH_LEN,
            digest@.len() == 32,
            short_hash@ == digest@.take(i as int),
        decreases IDENTITY_ID_HASH_LEN - i,
    {
        short_hash.push(digest[i]);
        i = i + 1;
        assert(short_hash@ =~= digest@.take(i as int));
    }
    let hex = hex_encode(short_hash.as_slice());
    let mut id = String::from_str("rsn:");
    id.append(hex.as_str());
    proof {
        lemma_identity_id_format(digest@);
    }
    id
}

/// Whether `identity` is the identity of `seed`: the root secret key is the root seed, the
/// root public key is its ML-DSA-65 verifying key, and the ID is derived from that key.
pub open spec fn is_identity_of_seed(identity: Identity, seed: Seq<u8>) -> bool {
    &&& identity.root_secret_key@ == root_seed(seed)
    &&& identity.root_public_key@ == ml_dsa_65_verifying_key(root_seed(seed))
    &&& identity.id@ == identity_id(identity.root_public_key@)
}

/// Recovers the identity of a seed: the root ML-DSA-65 key pair comes from the root seed, and
/// the identity ID from the verifying key. The same seed always gives the same identity.
pub fn identity_from_seed(seed: &IdentitySeed) -> (identity: Identity)
    ensures
        is_identity_of_seed(identity, seed@),
        identity.root_public_key@.len() == 1952,
{
    let root_secret_key = derive_root_seed(seed);
    let root_public_key = ml_dsa_65_verifying_key_from_seed(&root_secret_key);
    let id = identity_id_from_public_key(root_public_key.as_slice());
    Identity { root_public_key, root_secret_key, id }
}

/// Recovery is deterministic: two identities of the same seed have the same keys and ID.
pub proof fn lemma_identity_is_deterministic(first: Identity, second: Identity, seed: Seq<u8>)
    requires
        is_identity_of_seed(first, seed),
        is_identity_of_seed(second, seed),
    ensures
        first.root_secret_key@ == second.root_secret_key@,
        first.root_public_key@ == second.root_public_key@,
        first.id@ == second.id@,
{
}

/// The shareable part of an identity: its ID and encoded public key.
pub fn public_identity(identity: &Identity) -> (public: PublicIdentity)
    ensures
        public.id@ == identity.id@,
        public.root_public_key@ == identity.root_public_key@,
{
    PublicIdentity {
        id: String::from_str(identity.id.as_str()),
        root_public_key: slice_to_vec(identity.root_public_key.as_slice()),
    }
}

/// The wrapping key of message storage keys derived from a master seed.
pub fn messages_storage_wrapping_key_from_seed(seed: &MasterSeed) -> (key: LocalStorageWrappingKey)
    ensures
        key@ == seed_material(seed@, MESSAGES_STORAGE_WRAPPING_KEY_LABEL.spec_bytes(), 32),
{
    derive_seed_material::<32>(seed, MESSAGES_STORAGE_WRAPPING_KEY_LABEL.as_bytes())
}

} // verus!
