use bip39::Language;
use ml_dsa::{MlDsa65, Signer, Verifier};
use resonance::identity::{
    derive_seed_material, generate_mnemonic, identity_from_seed, identity_id_from_public_key,
    messages_storage_wrapping_key_from_seed, public_identity, seed_from_mnemonic, Mnemonic,
    IDENTITY_HKDF_SALT, IDENTITY_ID_LABEL, MESSAGES_STORAGE_WRAPPING_KEY_LABEL,
    ROOT_ML_DSA_SEED_LABEL,
};
use sha3::{Digest, Sha3_256};

#[test]
fn domain_separation_labels_follow_protocol_format() {
    assert_domain_label(IDENTITY_HKDF_SALT.as_bytes());
    assert_domain_label(ROOT_ML_DSA_SEED_LABEL.as_bytes());
    assert_domain_label(IDENTITY_ID_LABEL.as_bytes());
}

#[test]
fn messages_storage_wrapping_key_label_follows_protocol_format() {
    assert_domain_label(MESSAGES_STORAGE_WRAPPING_KEY_LABEL.as_bytes());
}

#[test]
fn generate_mnemonic_creates_twenty_four_english_words() {
    let mnemonic = generate_mnemonic().expect("mnemonic generation should succeed");

    assert_eq!(mnemonic.language(), Language::English);
    assert_eq!(mnemonic.word_count(), 24);
    assert_eq!(mnemonic.to_sentence().split_whitespace().count(), 24);
}

#[test]
fn seed_from_mnemonic_is_deterministic() {
    let mnemonic = fixed_mnemonic();

    let first_seed = seed_from_mnemonic(&mnemonic);
    let second_seed = seed_from_mnemonic(&mnemonic);

    assert_eq!(first_seed, second_seed);
    assert_ne!(first_seed, [0u8; 64]);
}

#[test]
fn seed_from_mnemonic_is_the_bip39_seed_with_empty_passphrase() {
    let mnemonic = fixed_mnemonic();
    let expected = bip39::Mnemonic::from_entropy(&[0u8; 32]).unwrap().to_seed("");

    assert_eq!(seed_from_mnemonic(&mnemonic), expected);
    assert_eq!(
        mnemonic.to_sentence(),
        bip39::Mnemonic::from_entropy(&[0u8; 32]).unwrap().to_string()
    );
}

#[test]
fn mnemonic_rejects_entropy_lengths_outside_bip39() {
    assert!(Mnemonic::from_entropy(&[0u8; 15]).is_err());
    assert!(Mnemonic::from_entropy(&[0u8; 33]).is_err());
    assert!(Mnemonic::from_entropy(&[0u8; 18]).is_err());
    let twelve_words = Mnemonic::from_entropy(&[7u8; 16]).expect("16 bytes is 12 words");
    assert_eq!(twelve_words.word_count(), 12);
    assert_eq!(twelve_words.to_entropy(), vec![7u8; 16]);
}

#[test]
fn derive_seed_material_is_deterministic_and_domain_separated() {
    let seed = [42u8; 64];

    let first_root_seed = derive_seed_material::<32>(&seed, ROOT_ML_DSA_SEED_LABEL.as_bytes());
    let second_root_seed = derive_seed_material::<32>(&seed, ROOT_ML_DSA_SEED_LABEL.as_bytes());
    let other_seed =
        derive_seed_material::<32>(&seed, "resonance:identity:test-key:seed:test:v1".as_bytes());
    let longer_seed = derive_seed_material::<64>(&seed, ROOT_ML_DSA_SEED_LABEL.as_bytes());
    let second_longer_seed = derive_seed_material::<64>(&seed, ROOT_ML_DSA_SEED_LABEL.as_bytes());

    assert_eq!(first_root_seed, second_root_seed);
    assert_ne!(first_root_seed, other_seed);
    assert_eq!(longer_seed, second_longer_seed);
    assert_eq!(longer_seed.len(), 64);
    assert_eq!(first_root_seed.as_slice(), &longer_seed[..32]);
}

#[test]
fn derive_seed_material_is_hkdf_sha3_256_with_the_identity_salt() {
    let seed = [5u8; 64];
    let hk = hkdf::Hkdf::<Sha3_256>::new(Some(IDENTITY_HKDF_SALT.as_bytes()), &seed);
    let mut expected = [0u8; 48];
    hk.expand(b"label", &mut expected).unwrap();

    assert_eq!(derive_seed_material::<48>(&seed, b"label"), expected);
}

#[test]
fn identity_from_seed_recovers_the_same_root_identity() {
    let seed = seed_from_mnemonic(&fixed_mnemonic());

    let first_identity = identity_from_seed(&seed);
    let second_identity = identity_from_seed(&seed);

    assert_eq!(first_identity.id, second_identity.id);
    assert_eq!(first_identity.root_public_key, second_identity.root_public_key);
    assert_eq!(first_identity.root_secret_key, second_identity.root_secret_key);
}

#[test]
fn different_seeds_create_different_root_identities() {
    let first_identity = identity_from_seed(&[1u8; 64]);
    let second_identity = identity_from_seed(&[2u8; 64]);

    assert_ne!(first_identity.id, second_identity.id);
    assert_ne!(first_identity.root_public_key, second_identity.root_public_key);
    assert_ne!(first_identity.root_secret_key, second_identity.root_secret_key);
}

#[test]
fn identity_keys_are_the_ml_dsa_65_keys_of_the_root_seed() {
    let seed = [3u8; 64];
    let identity = identity_from_seed(&seed);
    let root_seed = derive_seed_material::<32>(&seed, ROOT_ML_DSA_SEED_LABEL.as_bytes());
    let signing_key = ml_dsa::SigningKey::<MlDsa65>::from_seed(&ml_dsa::Seed::from(root_seed));

    assert_eq!(identity.root_secret_key, root_seed);
    assert_eq!(identity.root_public_key.len(), 1952);
    assert_eq!(
        identity.root_public_key,
        ml_dsa::KeyExport::to_bytes(&ml_dsa::Keypair::verifying_key(&signing_key)).to_vec()
    );
    assert_eq!(identity.id, identity_id_from_public_key(&identity.root_public_key));
}

#[test]
fn root_key_can_sign_and_verify_messages() {
    let identity = identity_from_seed(&seed_from_mnemonic(&fixed_mnemonic()));
    let message = b"resonance identity test message";
    let signing_key =
        ml_dsa::SigningKey::<MlDsa65>::from_seed(&ml_dsa::Seed::from(identity.root_secret_key));
    let verifying_key = ml_dsa::VerifyingKey::<MlDsa65>::decode(
        &ml_dsa::EncodedVerifyingKey::<MlDsa65>::try_from(identity.root_public_key.as_slice())
            .expect("root public key has the ML-DSA-65 encoded size"),
    );

    let signature = signing_key.sign(message);

    verifying_key
        .verify(message, &signature)
        .expect("root public key should verify root secret key signatures");
}

#[test]
fn public_identity_contains_only_public_identity_material() {
    let identity = identity_from_seed(&seed_from_mnemonic(&fixed_mnemonic()));

    let public = public_identity(&identity);

    assert_eq!(public.id, identity.id);
    assert_eq!(public.root_public_key, identity.root_public_key);
}

#[test]
fn identity_id_is_domain_separated_and_formatted() {
    let public_key = b"public key bytes";
    let id = identity_id_from_public_key(public_key);

    let mut hasher = Sha3_256::new();
    hasher.update(IDENTITY_ID_LABEL.as_bytes());
    hasher.update(public_key);
    let expected_hash = hasher.finalize();
    let expected_id = format!("rsn:{}", hex::encode(&expected_hash[..16]));

    assert_eq!(id, expected_id);
    assert_ne!(id, format!("rsn:{}", hex::encode(&Sha3_256::digest(public_key)[..16])));
    assert_eq!(id.len(), 36);
    assert!(id.starts_with("rsn:"));
    assert!(id[4..].chars().all(|c| c.is_ascii_hexdigit()));
}

#[test]
fn identity_id_uses_lower_case_hex() {
    let id = identity_id_from_public_key(&[0xffu8; 8]);

    assert!(id[4..].chars().all(|c| c.is_ascii_digit() || ('a'..='f').contains(&c)));
}

#[test]
fn messages_storage_wrapping_key_is_derived_from_the_master_seed() {
    let first = messages_storage_wrapping_key_from_seed(&[42u8; 64]);
    let second = messages_storage_wrapping_key_from_seed(&[42u8; 64]);
    let other = messages_storage_wrapping_key_from_seed(&[7u8; 64]);

    assert_eq!(first, second);
    assert_ne!(first, other);
    assert_eq!(
        first,
        derive_seed_material::<32>(&[42u8; 64], MESSAGES_STORAGE_WRAPPING_KEY_LABEL.as_bytes())
    );
}

fn fixed_mnemonic() -> Mnemonic {
    Mnemonic::from_entropy(&[0u8; 32]).expect("zero entropy is a valid 24-word mnemonic")
}

fn assert_domain_label(label: &[u8]) {
    let label = std::str::from_utf8(label).expect("domain label should be UTF-8");
    let parts = label.split(':').collect::<Vec<_>>();

    assert_eq!(parts.len(), 6);
    assert_eq!(parts[0], "resonance");
    assert!(parts[1..5].iter().all(|part| !part.is_empty()));
    assert!(parts[5].starts_with('v'));
    assert!(parts[5][1..].chars().all(|c| c.is_ascii_digit()));
}

#[test]
fn mnemonic_sentence_is_lower_case_words_separated_by_single_spaces() {
    let sentence = fixed_mnemonic().to_sentence();

    assert!(!sentence.starts_with(' ') && !sentence.ends_with(' '));
    assert!(!sentence.contains("  "));
    assert!(sentence.chars().all(|c| c == ' ' || c.is_ascii_lowercase()));
    assert_eq!(sentence.matches(' ').count() + 1, 24);
}
