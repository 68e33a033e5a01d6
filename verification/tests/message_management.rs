use resonance::identity::messages_storage_wrapping_key_from_seed;
use resonance::message_management::{
    create_message_storage_key, decrypt_message, encrypt_message, unwrap_message_storage_key,
    wrap_message_storage_key, EncryptedMessage, MessageStorageKey, MessageStorageKeyError,
    PlaintextMessage, WrappedMessageStorageKey,
};

#[test]
fn create_message_storage_key_creates_random_32_byte_key() {
    let first_key: MessageStorageKey = create_message_storage_key();
    let second_key = create_message_storage_key();

    assert_eq!(first_key.as_bytes().len(), 32);
    assert_ne!(first_key.as_bytes(), &[0u8; 32]);
    assert_ne!(first_key.as_bytes(), second_key.as_bytes());
}

#[test]
fn wrapped_message_storage_key_unwraps_to_original_key() {
    let wrapping_key = messages_storage_wrapping_key_from_seed(&[42u8; 64]);
    let message_storage_key = create_message_storage_key();

    let wrapped: WrappedMessageStorageKey =
        wrap_message_storage_key(&message_storage_key, &wrapping_key)
            .expect("message storage key should wrap");
    let unwrapped = unwrap_message_storage_key(&wrapped, &wrapping_key)
        .expect("message storage key should unwrap");

    assert_eq!(message_storage_key.as_bytes(), unwrapped.as_bytes());
    assert_ne!(wrapped.nonce, [0u8; 24]);
    assert_ne!(
        wrapped.ciphertext,
        message_storage_key.as_bytes().as_slice()
    );
}

#[test]
fn wrapped_message_storage_key_rejects_wrong_wrapping_key() {
    let wrapping_key = messages_storage_wrapping_key_from_seed(&[42u8; 64]);
    let wrong_wrapping_key = messages_storage_wrapping_key_from_seed(&[7u8; 64]);
    let message_storage_key = create_message_storage_key();
    let wrapped = wrap_message_storage_key(&message_storage_key, &wrapping_key)
        .expect("message storage key should wrap");

    let err = match unwrap_message_storage_key(&wrapped, &wrong_wrapping_key) {
        Ok(_) => panic!("wrong wrapping key should fail authentication"),
        Err(err) => err,
    };

    assert!(matches!(err, MessageStorageKeyError::Aead(_)));
}

#[test]
fn message_storage_key_error_messages() {
    assert_eq!(
        MessageStorageKeyError::InvalidMessageStorageKeyLength(31).to_display_string(),
        "invalid message storage key length: 31"
    );
    let wrapping_key = messages_storage_wrapping_key_from_seed(&[1u8; 64]);
    let wrapped = WrappedMessageStorageKey { nonce: [0u8; 24], ciphertext: vec![0u8; 48] };
    let err = match unwrap_message_storage_key(&wrapped, &wrapping_key) {
        Ok(_) => panic!("zeroes should not authenticate"),
        Err(err) => err,
    };
    assert_eq!(err.to_display_string(), "message storage key authentication failed");
}

#[test]
fn message_encrypts_and_decrypts_with_storage_key() {
    let message_storage_key = create_message_storage_key();
    let plaintext = PlaintextMessage {
        data: b"local plaintext message".to_vec(),
    };

    let encrypted: EncryptedMessage =
        encrypt_message(&plaintext, &message_storage_key).expect("message should encrypt");
    let decrypted =
        decrypt_message(&encrypted, &message_storage_key).expect("message should decrypt");

    assert_eq!(decrypted.data, plaintext.data);
    assert_ne!(encrypted.nonce, [0u8; 24]);
    assert_ne!(encrypted.ciphertext, plaintext.data);
}

#[test]
fn message_decryption_rejects_wrong_storage_key() {
    let message_storage_key = create_message_storage_key();
    let wrong_message_storage_key = create_message_storage_key();
    let plaintext = PlaintextMessage {
        data: b"local plaintext message".to_vec(),
    };
    let encrypted =
        encrypt_message(&plaintext, &message_storage_key).expect("message should encrypt");

    let result = decrypt_message(&encrypted, &wrong_message_storage_key);

    assert!(result.is_err());
}

#[test]
fn message_decryption_rejects_tampered_ciphertext() {
    let message_storage_key = create_message_storage_key();
    let plaintext = PlaintextMessage {
        data: b"local plaintext message".to_vec(),
    };
    let mut encrypted =
        encrypt_message(&plaintext, &message_storage_key).expect("message should encrypt");
    encrypted.ciphertext[0] ^= 1;

    let result = decrypt_message(&encrypted, &message_storage_key);

    assert!(result.is_err());
}

#[test]
fn wrapped_and_encrypted_lengths_add_the_sixteen_byte_tag() {
    let wrapping_key = messages_storage_wrapping_key_from_seed(&[3u8; 64]);
    let key = create_message_storage_key();
    let wrapped = wrap_message_storage_key(&key, &wrapping_key).expect("message storage key should wrap");
    assert_eq!(wrapped.ciphertext.len(), 48);

    let plaintext = PlaintextMessage { data: vec![5u8; 100] };
    let encrypted = encrypt_message(&plaintext, &key).expect("message should encrypt");
    assert_eq!(encrypted.ciphertext.len(), 116);
}
