use chacha20poly1305::aead::{Aead, KeyInit};
use resonance::identity::IDENTITY_DERIVATION_VERSION;
use resonance::identity_manager::file_system::{
    self, CreateDirOutcome, IdentityRecord, ListedIdentityStorage, LocalIdStep,
    RetrievedIdentityStorage,
};
use resonance::identity_manager::{
    check_identity_vault, create_identity_storage, decrypt_identity_storage, password_kdf, vault,
    vault_key, CreateIdentityStorageError, DecryptIdentityStorageError,
};

#[test]
fn recreate_password_key_recreates_the_same_key() {
    let created = password_kdf::create_password_key("correct horse battery staple")
        .expect("password key should be created");

    let recreated =
        password_kdf::recreate_password_key("correct horse battery staple", &created.metadata)
            .expect("password key should be recreated");

    assert_eq!(created.as_bytes(), recreated.as_bytes());
    assert_eq!(created.metadata.salt, recreated.metadata.salt);
    assert_eq!(created.metadata.memory_kib, recreated.metadata.memory_kib);
    assert_eq!(created.metadata.iterations, recreated.metadata.iterations);
    assert_eq!(created.metadata.parallelism, recreated.metadata.parallelism);
}

#[test]
fn recreate_password_key_changes_with_wrong_password() {
    let created = password_kdf::create_password_key("correct horse battery staple")
        .expect("password key should be created");

    let recreated =
        password_kdf::recreate_password_key("wrong horse battery staple", &created.metadata)
            .expect("password key should be recreated");

    assert_ne!(created.as_bytes(), recreated.as_bytes());
    assert_eq!(created.metadata.salt, recreated.metadata.salt);
}

#[test]
fn create_password_key_uses_default_costs_and_argon2id() {
    let created = password_kdf::create_password_key("pw").expect("password key should be created");

    assert_eq!(created.metadata.memory_kib, 64 * 1024);
    assert_eq!(created.metadata.iterations, 3);
    assert_eq!(created.metadata.parallelism, 1);

    let params = argon2::Params::new(64 * 1024, 3, 1, Some(32)).unwrap();
    let argon2 = argon2::Argon2::new(argon2::Algorithm::Argon2id, argon2::Version::V0x13, params);
    let mut expected = [0u8; 32];
    argon2
        .hash_password_into(b"pw", &created.metadata.salt, &mut expected)
        .unwrap();
    assert_eq!(created.as_bytes(), &expected);
}

#[test]
fn recreate_password_key_rejects_costs_argon2_refuses() {
    let metadata = password_kdf::PasswordKdfMetadata {
        salt: [1u8; 16],
        memory_kib: 8,
        iterations: 0,
        parallelism: 1,
    };

    assert!(password_kdf::recreate_password_key("pw", &metadata).is_err());

    let too_little_memory = password_kdf::PasswordKdfMetadata {
        salt: [1u8; 16],
        memory_kib: 15,
        iterations: 1,
        parallelism: 2,
    };
    assert!(password_kdf::recreate_password_key("pw", &too_little_memory).is_err());

    let small_but_accepted = password_kdf::PasswordKdfMetadata {
        salt: [1u8; 16],
        memory_kib: 16,
        iterations: 1,
        parallelism: 2,
    };
    assert!(password_kdf::recreate_password_key("pw", &small_but_accepted).is_ok());
}

#[test]
fn wrapped_vault_key_unwraps_to_original_vault_key() {
    let password_key = password_kdf::create_password_key("correct horse battery staple")
        .expect("password key should be created");
    let vault_key = vault_key::create_vault_key();

    let wrapped =
        vault_key::wrap_vault_key(&vault_key, &password_key).expect("vault key should wrap");
    let unwrapped =
        vault_key::unwrap_vault_key(&wrapped, &password_key).expect("vault key should unwrap");

    assert_eq!(vault_key.as_bytes(), unwrapped.as_bytes());
    assert_ne!(wrapped.nonce, [0u8; 24]);
    assert_ne!(wrapped.ciphertext, vault_key.as_bytes().as_slice());
}

#[test]
fn wrapped_vault_key_rejects_wrong_password_key() {
    let password_key = password_kdf::create_password_key("correct horse battery staple")
        .expect("password key should be created");
    let wrong_password_key = password_kdf::create_password_key("wrong horse battery staple")
        .expect("password key should be created");
    let vault_key = vault_key::create_vault_key();
    let wrapped =
        vault_key::wrap_vault_key(&vault_key, &password_key).expect("vault key should wrap");

    let err = match vault_key::unwrap_vault_key(&wrapped, &wrong_password_key) {
        Ok(_) => panic!("wrong password key should fail authentication"),
        Err(err) => err,
    };

    assert!(matches!(err, vault_key::VaultKeyError::Aead(_)));
}

#[test]
fn unwrap_vault_key_rejects_authenticated_key_of_wrong_length() {
    let password_key = password_kdf::create_password_key("pw").expect("password key should be created");
    let nonce = [9u8; 24];
    let cipher = chacha20poly1305::XChaCha20Poly1305::new(chacha20poly1305::Key::from_slice(
        password_key.as_bytes(),
    ));
    let ciphertext = cipher
        .encrypt(chacha20poly1305::XNonce::from_slice(&nonce), [1u8; 5].as_slice())
        .unwrap();
    let wrapped = vault_key::WrappedVaultKey { nonce, ciphertext };

    let err = match vault_key::unwrap_vault_key(&wrapped, &password_key) {
        Ok(_) => panic!("a 5-byte key should be refused"),
        Err(err) => err,
    };

    assert!(matches!(err, vault_key::VaultKeyError::InvalidVaultKeyLength(5)));
    assert_eq!(err.to_display_string(), "invalid vault key length: 5");
}

#[test]
fn vault_key_error_messages() {
    let password_key = password_kdf::create_password_key("pw").expect("password key should be created");
    let wrapped = vault_key::WrappedVaultKey { nonce: [0u8; 24], ciphertext: vec![1, 2, 3] };
    let err = match vault_key::unwrap_vault_key(&wrapped, &password_key) {
        Ok(_) => panic!("garbage should not authenticate"),
        Err(err) => err,
    };

    assert_eq!(err.to_display_string(), "vault key authentication failed");
    assert_eq!(
        vault_key::VaultKeyError::InvalidVaultKeyLength(1234).to_display_string(),
        "invalid vault key length: 1234"
    );
}

#[test]
fn vault_encrypts_and_decrypts_plaintext() {
    let vault_key = vault_key::create_vault_key();
    let plaintext = vault::VaultPlaintext {
        data: b"master seed and identity metadata eventually go here".to_vec(),
    };

    let ciphertext =
        vault::encrypt_vault(&plaintext, &vault_key).expect("vault should encrypt");
    let decrypted =
        vault::decrypt_vault(&ciphertext, &vault_key).expect("vault should decrypt");

    assert_eq!(decrypted.data, plaintext.data);
    assert_ne!(ciphertext.nonce, [0u8; 24]);
    assert_ne!(ciphertext.ciphertext, plaintext.data);
}

#[test]
fn vault_ciphertext_is_sixteen_bytes_longer() {
    let vault_key = vault_key::create_vault_key();
    let plaintext = vault::VaultPlaintext { data: Vec::new() };

    let ciphertext = vault::encrypt_vault(&plaintext, &vault_key).expect("vault should encrypt");

    assert_eq!(ciphertext.ciphertext.len(), 16);
    let decrypted = vault::decrypt_vault(&ciphertext, &vault_key).expect("vault should decrypt");
    assert!(decrypted.data.is_empty());
}

#[test]
fn vault_decryption_rejects_wrong_vault_key() {
    let vault_key = vault_key::create_vault_key();
    let wrong_vault_key = vault_key::create_vault_key();
    let plaintext = vault::VaultPlaintext {
        data: b"vault plaintext".to_vec(),
    };
    let ciphertext =
        vault::encrypt_vault(&plaintext, &vault_key).expect("vault should encrypt");

    let result = vault::decrypt_vault(&ciphertext, &wrong_vault_key);

    assert!(result.is_err());
}

#[test]
fn vault_decryption_rejects_tampered_ciphertext() {
    let vault_key = vault_key::create_vault_key();
    let plaintext = vault::VaultPlaintext {
        data: b"vault plaintext".to_vec(),
    };
    let mut ciphertext =
        vault::encrypt_vault(&plaintext, &vault_key).expect("vault should encrypt");
    ciphertext.ciphertext[0] ^= 1;

    let result = vault::decrypt_vault(&ciphertext, &vault_key);

    assert!(result.is_err());
}

#[test]
fn identity_vault_from_master_seed_records_derivation_version() {
    let identity_vault = vault::IdentityVault::from_master_seed([42u8; 64]);

    assert_eq!(identity_vault.identity_derivation_version, IDENTITY_DERIVATION_VERSION);
    assert_eq!(identity_vault.master_seed, [42u8; 64]);
}

#[test]
fn master_seed_hex_round_trips() {
    let mut master_seed = [0u8; 64];
    for (i, byte) in master_seed.iter_mut().enumerate() {
        *byte = (i * 37) as u8;
    }

    let text = vault::master_seed_to_hex(&master_seed);

    assert_eq!(text, hex::encode(master_seed));
    assert_eq!(text.len(), 128);
    let restored = vault::master_seed_from_hex(&text).expect("hex of a master seed should read");
    assert_eq!(restored, master_seed);
    let upper = vault::master_seed_from_hex(&text.to_uppercase()).expect("upper case reads too");
    assert_eq!(upper, master_seed);
}

#[test]
fn master_seed_from_hex_rejects_bad_text() {
    assert!(matches!(
        vault::master_seed_from_hex("abc"),
        Err(vault::MasterSeedHexError::Hex(hex::FromHexError::OddLength))
    ));
    assert!(matches!(
        vault::master_seed_from_hex(&"zz".repeat(64)),
        Err(vault::MasterSeedHexError::Hex(_))
    ));
    assert!(matches!(
        vault::master_seed_from_hex(&"ab".repeat(32)),
        Err(vault::MasterSeedHexError::InvalidLength(32))
    ));
}

#[test]
fn generate_random_id_returns_hex_local_storage_id() {
    let id = file_system::generate_random_id();

    assert_eq!(id.len(), 32);
    assert!(id.chars().all(|c| c.is_ascii_hexdigit()));
}

#[test]
fn generate_random_id_is_fresh_lower_case_hex() {
    let first = file_system::generate_random_id();
    let second = file_system::generate_random_id();

    assert_ne!(first, second);
    assert!(first.chars().all(|c| c.is_ascii_digit() || ('a'..='f').contains(&c)));
}

#[test]
fn listed_identities_are_sorted_by_hint_then_local_id() {
    let unsorted = vec![
        listed("b2", "Work"),
        listed("a1", "Personal"),
        listed("c3", "Personal"),
        listed("a0", "Zeta"),
        listed("00", "Personal"),
    ];

    let sorted = file_system::sort_listed_identities(unsorted);

    assert_eq!(
        sorted,
        vec![
            listed("00", "Personal"),
            listed("a1", "Personal"),
            listed("c3", "Personal"),
            listed("b2", "Work"),
            listed("a0", "Zeta"),
        ]
    );
}

#[test]
fn listed_identities_sort_by_bytes() {
    let sorted = file_system::sort_listed_identities(vec![
        listed("x", "personal"),
        listed("y", "Personal"),
        listed("z", "Person"),
        listed("w", "Ärger"),
    ]);

    let hints: Vec<&str> = sorted.iter().map(|l| l.local_hint.as_str()).collect();
    assert_eq!(hints, vec!["Person", "Personal", "personal", "Ärger"]);
    assert!(file_system::sort_listed_identities(Vec::new()).is_empty());
}

#[test]
fn local_id_attempts_retry_collisions_up_to_the_limit() {
    assert_eq!(file_system::next_local_id_step(1, CreateDirOutcome::Created), LocalIdStep::Accept);
    assert_eq!(file_system::next_local_id_step(1, CreateDirOutcome::AlreadyExists), LocalIdStep::Retry);
    assert_eq!(file_system::next_local_id_step(15, CreateDirOutcome::AlreadyExists), LocalIdStep::Retry);
    assert_eq!(file_system::next_local_id_step(16, CreateDirOutcome::AlreadyExists), LocalIdStep::GiveUp);
    assert_eq!(file_system::next_local_id_step(3, CreateDirOutcome::Failed), LocalIdStep::Fail);
    assert_eq!(file_system::next_local_id_step(16, CreateDirOutcome::Created), LocalIdStep::Accept);
}

#[test]
fn identity_storage_error_messages() {
    assert_eq!(
        file_system::IdentityStorageError::LocalIdCollision.to_display_string(),
        "could not create a unique local identity ID"
    );
    let io = std::io::Error::new(std::io::ErrorKind::Other, "disk on fire");
    assert_eq!(
        file_system::IdentityStorageError::Io(io).to_display_string(),
        "identity storage IO failed: disk on fire"
    );
}

#[test]
fn created_identity_storage_decrypts_to_vault_plaintext() {
    let plaintext = vault::VaultPlaintext { data: b"serialized identity vault".to_vec() };

    let (identity_record, vault_ciphertext) =
        create_identity_storage("Personal".to_string(), &plaintext, "correct horse battery staple")
            .expect("identity storage should be created");

    assert_eq!(identity_record.local_hint, "Personal");
    assert_eq!(identity_record.password_kdf.memory_kib, 64 * 1024);
    assert_eq!(identity_record.password_kdf.iterations, 3);
    assert_eq!(identity_record.password_kdf.parallelism, 1);

    let retrieved = RetrievedIdentityStorage { identity_record, vault_ciphertext };
    let decrypted = decrypt_identity_storage(&retrieved, "correct horse battery staple")
        .expect("identity storage should decrypt");
    assert_eq!(decrypted.data, plaintext.data);
}

#[test]
fn created_identity_storage_rejects_wrong_password() {
    let plaintext = vault::VaultPlaintext { data: b"serialized identity vault".to_vec() };
    let (identity_record, vault_ciphertext) =
        create_identity_storage("Personal".to_string(), &plaintext, "correct horse battery staple")
            .expect("identity storage should be created");
    let retrieved = RetrievedIdentityStorage { identity_record, vault_ciphertext };

    let err = match decrypt_identity_storage(&retrieved, "wrong password") {
        Ok(_) => panic!("wrong password should fail decryption"),
        Err(err) => err,
    };

    assert!(matches!(err, DecryptIdentityStorageError::VaultKey(_)));
    assert_eq!(
        err.to_display_string(),
        "vault key unwrapping failed: vault key authentication failed"
    );
}

#[test]
fn decrypt_identity_storage_reports_refused_costs() {
    let record = IdentityRecord {
        local_hint: "Personal".to_string(),
        password_kdf: password_kdf::PasswordKdfMetadata {
            salt: [1u8; 16],
            memory_kib: 64 * 1024,
            iterations: 0,
            parallelism: 1,
        },
        wrapped_vault_key: vault_key::WrappedVaultKey { nonce: [2u8; 24], ciphertext: vec![3, 4, 5] },
    };
    let retrieved = RetrievedIdentityStorage {
        identity_record: record,
        vault_ciphertext: vault::VaultCiphertext { nonce: [6u8; 24], ciphertext: vec![7, 8, 9] },
    };

    let err = match decrypt_identity_storage(&retrieved, "pw") {
        Ok(_) => panic!("zero iterations should be refused"),
        Err(err) => err,
    };

    assert!(matches!(err, DecryptIdentityStorageError::PasswordKdf(_)));
    assert!(err.to_display_string().starts_with("password key recreation failed: "));
}

#[test]
fn check_identity_vault_accepts_current_version_only() {
    let accepted = check_identity_vault(
        "Personal".to_string(),
        vault::IdentityVault::from_master_seed([11u8; 64]),
    )
    .expect("a fresh vault should be accepted");
    assert_eq!(accepted.local_hint, "Personal");
    assert_eq!(accepted.master_seed, [11u8; 64]);

    let old = vault::IdentityVault {
        identity_derivation_version: IDENTITY_DERIVATION_VERSION + 1,
        master_seed: [11u8; 64],
    };
    let err = match check_identity_vault("Personal".to_string(), old) {
        Ok(_) => panic!("another version should be refused"),
        Err(err) => err,
    };
    assert!(matches!(
        err,
        DecryptIdentityStorageError::UnsupportedIdentityDerivationVersion(v) if v == IDENTITY_DERIVATION_VERSION + 1
    ));
    assert_eq!(
        err.to_display_string(),
        format!("unsupported identity derivation version: {}", IDENTITY_DERIVATION_VERSION + 1)
    );
}

#[test]
fn create_identity_storage_error_messages() {
    assert_eq!(
        CreateIdentityStorageError::Storage(file_system::IdentityStorageError::LocalIdCollision)
            .to_display_string(),
        "identity storage failed: could not create a unique local identity ID"
    );
    assert_eq!(
        CreateIdentityStorageError::VaultKey(vault_key::VaultKeyError::InvalidVaultKeyLength(7))
            .to_display_string(),
        "vault key wrapping failed: invalid vault key length: 7"
    );
}

fn listed(local_id: &str, local_hint: &str) -> ListedIdentityStorage {
    ListedIdentityStorage { local_id: local_id.to_string(), local_hint: local_hint.to_string() }
}

#[test]
fn wrapped_vault_key_is_forty_eight_bytes() {
    let password_key = password_kdf::create_password_key("pw").expect("password key should be created");
    let wrapped = vault_key::wrap_vault_key(&vault_key::create_vault_key(), &password_key)
        .expect("vault key should wrap");

    assert_eq!(wrapped.ciphertext.len(), 48);
    assert_eq!(password_key.metadata().salt, password_key.metadata.salt);
}

#[test]
fn small_memory_cost_is_refused_whatever_the_lane_count() {
    let metadata = password_kdf::PasswordKdfMetadata {
        salt: [1u8; 16],
        memory_kib: 7,
        iterations: 1,
        parallelism: u32::MAX,
    };

    assert!(password_kdf::recreate_password_key("pw", &metadata).is_err());
}

#[test]
fn password_key_error_messages_end_with_argon2s_message() {
    let metadata = password_kdf::PasswordKdfMetadata {
        salt: [1u8; 16],
        memory_kib: 64 * 1024,
        iterations: 0,
        parallelism: 1,
    };
    let err = match password_kdf::recreate_password_key("pw", &metadata) {
        Ok(_) => panic!("zero iterations should be refused"),
        Err(err) => err,
    };

    assert_eq!(
        DecryptIdentityStorageError::PasswordKdf(err).to_display_string(),
        "password key recreation failed: time cost is too small"
    );
    assert_eq!(
        CreateIdentityStorageError::PasswordKdf(argon2::Error::PwdTooLong).to_display_string(),
        "password key creation failed: password is too long"
    );
}
