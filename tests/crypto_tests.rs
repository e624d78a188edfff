use base64::{engine::general_purpose::STANDARD as BASE64, Engine as _};
use handsoff::crypto::{
    decrypt_passphrase, decrypt_payload, derive_key, encrypt_passphrase, encrypt_passphrase_with_nonce, CryptoError,
    KEY_SEED,
};

#[test]
fn test_encrypt_decrypt_roundtrip() {
    let original = "my_secret_passphrase_123";
    let encrypted = encrypt_passphrase(original).expect("Encryption failed");
    let decrypted = decrypt_passphrase(&encrypted).expect("Decryption failed");
    assert_eq!(original, decrypted);
}

#[test]
fn test_different_nonces() {
    let plaintext = "same_passphrase";
    let encrypted1 = encrypt_passphrase(plaintext).expect("Encryption 1 failed");
    let encrypted2 = encrypt_passphrase(plaintext).expect("Encryption 2 failed");

    assert_ne!(encrypted1, encrypted2);

    let decrypted1 = decrypt_passphrase(&encrypted1).expect("Decryption 1 failed");
    let decrypted2 = decrypt_passphrase(&encrypted2).expect("Decryption 2 failed");
    assert_eq!(plaintext, decrypted1);
    assert_eq!(plaintext, decrypted2);
}

#[test]
fn test_tampered_ciphertext() {
    let original = "secret";
    let mut encrypted = encrypt_passphrase(original).expect("Encryption failed");

    let mut bytes = BASE64.decode(&encrypted).unwrap();
    if bytes.len() > 15 {
        bytes[15] ^= 0x01;
        encrypted = BASE64.encode(&bytes);

        let result = decrypt_passphrase(&encrypted);
        assert!(result.is_err(), "Tampered data should fail authentication");
    }
}

#[test]
fn test_static_key_consistency() {
    let key1 = derive_key();
    let key2 = derive_key();
    assert_eq!(key1, key2, "Key derivation must be deterministic");
    assert_eq!(key1.len(), 32, "Key must be 32 bytes for AES-256");
}

#[test]
fn test_invalid_base64() {
    let result = decrypt_passphrase("not-valid-base64!!!");
    assert!(result.is_err(), "Invalid base64 should fail");
}

#[test]
fn test_too_short_data() {
    let short_data = BASE64.encode([1u8, 2, 3, 4, 5]);
    let result = decrypt_passphrase(&short_data);
    assert!(result.is_err(), "Data < 12 bytes should fail");
}

#[test]
fn crypto_test_empty_passphrase() {
    let empty = "";
    let encrypted = encrypt_passphrase(empty).expect("Should encrypt empty string");
    let decrypted = decrypt_passphrase(&encrypted).expect("Should decrypt empty string");
    assert_eq!(empty, decrypted);
}

#[test]
fn crypto_test_unicode_passphrase() {
    let unicode = "🔒 Secure パスワード 密码 🔐";
    let encrypted = encrypt_passphrase(unicode).expect("Should encrypt unicode");
    let decrypted = decrypt_passphrase(&encrypted).expect("Should decrypt unicode");
    assert_eq!(unicode, decrypted);
}

#[test]
fn decryption_errors_are_distinguished() {
    assert_eq!(decrypt_passphrase("not-valid-base64!!!"), Err(CryptoError::InvalidEncoding));
    assert_eq!(decrypt_passphrase(&BASE64.encode([1u8, 2, 3, 4, 5])), Err(CryptoError::TooShort));
    assert_eq!(decrypt_passphrase(&BASE64.encode([0u8; 40])), Err(CryptoError::Decryption));
}

#[test]
fn fixed_nonce_layout_is_nonce_then_ciphertext_and_tag() {
    let nonce = [7u8; 12];
    let stored = encrypt_passphrase_with_nonce("abc", &nonce).expect("Encryption failed");
    let again = encrypt_passphrase_with_nonce("abc", &nonce).expect("Encryption failed");
    assert_eq!(stored, again);
    let bytes = BASE64.decode(&stored).unwrap();
    assert_eq!(&bytes[..12], &nonce);
    assert_eq!(bytes.len(), 12 + 3 + 16);
    assert_ne!(&bytes[12..15], b"abc");
    assert_eq!(decrypt_passphrase(&stored), Ok("abc".to_string()));
}

#[test]
fn key_is_not_the_seed_itself() {
    let key = derive_key();
    assert_ne!(&key[..], &KEY_SEED.as_bytes()[..32]);
}

#[test]
fn payload_shorter_than_nonce_is_refused() {
    assert_eq!(decrypt_payload(&[0u8; 11]), Err(CryptoError::TooShort));
    assert_eq!(decrypt_payload(&[0u8; 12]), Err(CryptoError::Decryption));
}
