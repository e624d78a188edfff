use handsoff::auth;
use handsoff::utils::constant_time_eq;

#[test]
fn test_hash_passphrase() {
    let passphrase = "test123";
    let hash = auth::hash_passphrase(passphrase);
    assert_eq!(hash.len(), 64); // SHA-256 hex is 64 chars
    assert!(hash.chars().all(|c| c.is_ascii_hexdigit()));
}

#[test]
fn test_verify_passphrase_correct() {
    let passphrase = "correct_password";
    let hash = auth::hash_passphrase(passphrase);
    assert!(auth::verify_passphrase(passphrase, &hash));
}

#[test]
fn test_verify_passphrase_incorrect() {
    let passphrase = "correct_password";
    let hash = auth::hash_passphrase(passphrase);
    assert!(!auth::verify_passphrase("wrong_password", &hash));
}

#[test]
fn test_hash_deterministic() {
    let passphrase = "same_input";
    let hash1 = auth::hash_passphrase(passphrase);
    let hash2 = auth::hash_passphrase(passphrase);
    assert_eq!(hash1, hash2);
}

#[test]
fn test_hash_different_inputs() {
    let hash1 = auth::hash_passphrase("input1");
    let hash2 = auth::hash_passphrase("input2");
    assert_ne!(hash1, hash2);
}

#[test]
fn auth_tests_test_empty_passphrase() {
    let hash = auth::hash_passphrase("");
    assert_eq!(hash.len(), 64);
    assert!(auth::verify_passphrase("", &hash));
}

#[test]
fn auth_tests_test_unicode_passphrase() {
    let passphrase = "ğŸ”’passwordğŸ”“";
    let hash = auth::hash_passphrase(passphrase);
    assert!(auth::verify_passphrase(passphrase, &hash));
    assert!(!auth::verify_passphrase("password", &hash));
}

#[test]
fn test_long_passphrase() {
    let passphrase = "a".repeat(1000);
    let hash = auth::hash_passphrase(&passphrase);
    assert!(auth::verify_passphrase(&passphrase, &hash));
}

#[test]
fn test_case_sensitivity() {
    let hash = auth::hash_passphrase("Password");
    assert!(auth::verify_passphrase("Password", &hash));
    assert!(!auth::verify_passphrase("password", &hash));
    assert!(!auth::verify_passphrase("PASSWORD", &hash));
}

#[test]
fn hash_of_empty_passphrase_is_sha256_hex() {
    assert_eq!(
        auth::hash_passphrase(""),
        "e3b0c44298fc1c149afbf4c8996fb92427ae41e4649b934ca495991b7852b855"
    );
}

#[test]
fn verify_rejects_digest_of_other_length() {
    let hash = auth::hash_passphrase("abc");
    assert!(!auth::verify_passphrase("abc", &hash[..63]));
    assert!(!auth::verify_passphrase("abc", "abc"));
}

#[test]
fn utils_and_auth_agree() {
    let hash = handsoff::utils::hash_passphrase("same_input");
    assert_eq!(hash, auth::hash_passphrase("same_input"));
    assert!(handsoff::utils::verify_passphrase("same_input", &hash));
}

#[test]
fn digest_comparison_is_exact() {
    assert!(constant_time_eq("abc", "abc"));
    assert!(!constant_time_eq("abc", "abd"));
    assert!(!constant_time_eq("abc", "ab"));
    assert!(constant_time_eq("", ""));
    assert!(!constant_time_eq("é", "e"));
}
