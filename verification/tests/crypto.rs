use shipwright::crypto::{decrypt_secret, derive_master_key, encrypt_secret, generate_agent_id, CryptoError};

#[test]
fn test_key_derivation() {
    let key1 = derive_master_key("my-project", "agent-123", None).unwrap();
    let key2 = derive_master_key("my-project", "agent-123", None).unwrap();
    let key3 = derive_master_key("my-project", "agent-456", None).unwrap();
    let key4 = derive_master_key("other-project", "agent-123", None).unwrap();

    assert_eq!(key1, key2);
    assert_ne!(key1, key3);
    assert_ne!(key1, key4);
    assert_eq!(key1.len(), 32);
}

#[test]
fn test_encryption_decryption() {
    let master_key = derive_master_key("test-project", "agent-123", None).unwrap();
    let secret_value = "my-super-secret-password";
    let encrypted = encrypt_secret(secret_value, &master_key).unwrap();
    let decrypted = decrypt_secret(&encrypted, &master_key).unwrap();
    assert_eq!(secret_value, decrypted);
}

#[test]
fn test_wrong_key_fails() {
    let key1 = derive_master_key("project1", "agent-123", None).unwrap();
    let key2 = derive_master_key("project2", "agent-123", None).unwrap();
    let encrypted = encrypt_secret("secret", &key1).unwrap();
    let result = decrypt_secret(&encrypted, &key2);
    assert!(result.is_err());
}

#[test]
fn test_nonce_uniqueness() {
    let master_key = derive_master_key("test", "agent", None).unwrap();
    let enc1 = encrypt_secret("same value", &master_key).unwrap();
    let enc2 = encrypt_secret("same value", &master_key).unwrap();
    assert_ne!(enc1.nonce, enc2.nonce);
    assert_eq!(decrypt_secret(&enc1, &master_key).unwrap(), "same value");
    assert_eq!(decrypt_secret(&enc2, &master_key).unwrap(), "same value");
}

#[test]
fn test_passphrase_changes_key() {
    let key1 = derive_master_key("project", "agent", None).unwrap();
    let key2 = derive_master_key("project", "agent", Some("password")).unwrap();
    assert_ne!(key1, key2);
}

#[test]
fn ciphertext_differs_from_plaintext_and_nonce_has_twelve_bytes() {
    let key = derive_master_key("p", "a", None).unwrap();
    let enc = encrypt_secret("plain text", &key).unwrap();
    assert_eq!(enc.nonce.len(), 12);
    assert_ne!(enc.ciphertext, b"plain text".to_vec());
    // AES-GCM appends a 16-byte tag.
    assert_eq!(enc.ciphertext.len(), "plain text".len() + 16);
}

#[test]
fn short_key_is_refused_with_its_size() {
    let err = encrypt_secret("x", &[1u8, 2, 3]).unwrap_err();
    assert_eq!(err, CryptoError::InvalidKeySize { expected: 32, got: 3 });
    assert_eq!(err.message(), "Invalid key size: expected 32, got 3");
}

#[test]
fn wrong_nonce_size_is_refused() {
    let key = derive_master_key("p", "a", None).unwrap();
    let mut enc = encrypt_secret("v", &key).unwrap();
    enc.nonce.pop();
    let err = decrypt_secret(&enc, &key).unwrap_err();
    assert_eq!(err, CryptoError::InvalidNonceSize { expected: 12, got: 11 });
}

#[test]
fn tampered_ciphertext_fails_to_decrypt() {
    let key = derive_master_key("p", "a", None).unwrap();
    let mut enc = encrypt_secret("value", &key).unwrap();
    enc.ciphertext[0] ^= 1;
    let err = decrypt_secret(&enc, &key).unwrap_err();
    assert_eq!(err, CryptoError::DecryptionFailed);
    assert_eq!(err.message(), "Failed to decrypt secret (wrong key or corrupted data): Error");
}

#[test]
fn agent_ids_are_fresh_uuids() {
    let a = generate_agent_id();
    let b = generate_agent_id();
    assert_eq!(a.len(), 36);
    assert_ne!(a, b);
    assert_eq!(a.chars().filter(|c| *c == '-').count(), 4);
}
