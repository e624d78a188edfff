//! Passphrase encryption at rest with AES-256-GCM under a key derived from a
//! fixed seed. The stored text is base64 of `nonce (12 bytes) || ciphertext || tag`.

use vstd::prelude::*;
use vstd::utf8::{decode_utf8, encode_utf8, valid_utf8};

verus! {

/// Length of the AES-GCM nonce, in bytes.
pub const NONCE_LENGTH_BYTES: usize = 12;

/// Seed of the encryption key, fixed so that stored files stay readable
/// across builds and versions.
pub const KEY_SEED: &'static str = "com.handsoff.inputlock.config.encryption.v1";

/// The SHA-256 digest of a byte string, as computed by `sha2`.
pub uninterp spec fn sha2_digest_of(data: Seq<u8>) -> Seq<u8>;

/// AES-256-GCM encryption of `plaintext` (ciphertext then tag), or `None`
/// when the cipher refuses the input.
pub uninterp spec fn aes_gcm_sealed(key: Seq<u8>, nonce: Seq<u8>, plaintext: Seq<u8>) -> Option<Seq<u8>>;

/// AES-256-GCM decryption of `ciphertext` (ciphertext then tag), or `None`
/// when authentication fails.
pub uninterp spec fn aes_gcm_opened(key: Seq<u8>, nonce: Seq<u8>, ciphertext: Seq<u8>) -> Option<Seq<u8>>;

/// Standard base64 (with padding) of a byte string.
pub uninterp spec fn base64_of(data: Seq<u8>) -> Seq<char>;

/// The bytes a standard base64 text decodes to, or `None` for malformed text.
pub uninterp spec fn base64_decoded(text: Seq<char>) -> Option<Seq<u8>>;

#[verifier::external_type_specification]
#[verifier::external_body]
pub struct ExRandomError(getrandom::Error);

#[verifier::external_type_specification]
#[verifier::external_body]
pub struct ExAeadError(aes_gcm::Error);

#[verifier::external_type_specification]
#[verifier::external_body]
pub struct ExDecodeError(base64::DecodeError);

/// Why a passphrase could not be encrypted or decrypted.
#[derive(Clone, Copy, Debug, PartialEq, Eq)]
pub enum CryptoError {
    /// The operating system's random source failed.
    RandomUnavailable,
    /// The cipher refused to encrypt.
    Encryption,
    /// The stored text is not valid base64.
    InvalidEncoding,
    /// The decoded data is shorter than a nonce.
    TooShort,
    /// Authentication failed: wrong key, or corrupted or tampered data.
    Decryption,
    /// The decrypted bytes are not UTF-8 text.
    InvalidUtf8,
}

/// The AES-256 key: the SHA-256 of the seed's bytes.
pub open spec fn derived_key() -> Seq<u8> {
    sha2_digest_of(encode_utf8(KEY_SEED@))
}

/// What sealing `plaintext` under `nonce` stores, or `None` when the cipher
/// refuses it.
pub open spec fn sealed_text(nonce: Seq<u8>, plaintext: Seq<char>) -> Option<Seq<char>> {
    match aes_gcm_sealed(derived_key(), nonce, encode_utf8(plaintext)) {
        Some(c) => Some(base64_of(nonce + c)),
        None => None,
    }
}

/// Whether `stored` is an encryption of `plaintext` under some nonce.
pub open spec fn is_encryption_of(stored: Seq<char>, plaintext: Seq<char>) -> bool {
    exists|n: Seq<u8>| n.len() == NONCE_LENGTH_BYTES && sealed_text(n, plaintext) == Some(stored)
}

/// The outcome of decrypting decoded stored bytes (nonce, then ciphertext
/// and tag).
pub open spec fn decrypted_payload(data: Seq<u8>) -> Result<Seq<char>, CryptoError> {
    if data.len() < NONCE_LENGTH_BYTES {
        Err(CryptoError::TooShort)
    } else {
        match aes_gcm_opened(
            derived_key(),
            data.subrange(0, NONCE_LENGTH_BYTES as int),
            data.subrange(NONCE_LENGTH_BYTES as int, data.len() as int),
        ) {
            None => Err(CryptoError::Decryption),
            Some(p) => if valid_utf8(p) {
                Ok(decode_utf8(p))
            } else {
                Err(CryptoError::InvalidUtf8)
            },
        }
    }
}

/// The outcome of decrypting a stored text.
pub open spec fn decrypted_text(stored: Seq<char>) -> Result<Seq<char>, CryptoError> {
    match base64_decoded(stored) {
        None => Err(CryptoError::InvalidEncoding),
        Some(data) => decrypted_payload(data),
    }
}

/// Relies on `sha2::Sha256` (`Digest::digest`): the 32-byte digest of `data`.
#[verifier::external_body]
fn sha2_digest(data: &[u8]) -> (r: Vec<u8>)
    ensures
        r@ == sha2_digest_of(data@),
        r@.len() == 32,
{
    <sha2::Sha256 as sha2::Digest>::digest(data).to_vec()
}

/// Relies on `getrandom::getrandom`: fills a 12-byte nonce from the
/// operating system's random source. Nothing is known of the bytes.
#[verifier::external_body]
fn random_nonce() -> (r: Result<Vec<u8>, getrandom::Error>)
    ensures
        r matches Ok(n) ==> n@.len() == NONCE_LENGTH_BYTES,
{
    let mut nonce = [0u8; 12];
    getrandom::getrandom(&mut nonce)?;
    Ok(nonce.to_vec())
}

/// Relies on `aes_gcm::Aes256Gcm` (`KeyInit::new`, `Aead::encrypt`), which is
/// deterministic in key, nonce and plaintext. `from_slice` panics on other
/// lengths, hence the `requires`.
#[verifier::external_body]
fn aes_seal(key: &[u8], nonce: &[u8], plaintext: &[u8]) -> (r: Result<Vec<u8>, aes_gcm::Error>)
    requires
        key@.len() == 32,
        nonce@.len() == NONCE_LENGTH_BYTES,
    ensures
        r is Ok <==> aes_gcm_sealed(key@, nonce@, plaintext@) is Some,
        r matches Ok(c) ==> aes_gcm_sealed(key@, nonce@, plaintext@) == Some(c@),
{
    let cipher = <aes_gcm::Aes256Gcm as aes_gcm::KeyInit>::new(aes_gcm::Key::<aes_gcm::Aes256Gcm>::from_slice(key));
    aes_gcm::aead::Aead::encrypt(&cipher, aes_gcm::Nonce::from_slice(nonce), plaintext)
}

/// Relies on `aes_gcm::Aes256Gcm` (`KeyInit::new`, `Aead::decrypt`), which is
/// deterministic in key, nonce and ciphertext. `from_slice` panics on other
/// lengths, hence the `requires`.
#[verifier::external_body]
fn aes_open(key: &[u8], nonce: &[u8], ciphertext: &[u8]) -> (r: Result<Vec<u8>, aes_gcm::Error>)
    requires
        key@.len() == 32,
        nonce@.len() == NONCE_LENGTH_BYTES,
    ensures
        r is Ok <==> aes_gcm_opened(key@, nonce@, ciphertext@) is Some,
        r matches Ok(p) ==> aes_gcm_opened(key@, nonce@, ciphertext@) == Some(p@),
{
    let cipher = <aes_gcm::Aes256Gcm as aes_gcm::KeyInit>::new(aes_gcm::Key::<aes_gcm::Aes256Gcm>::from_slice(key));
    aes_gcm::aead::Aead::decrypt(&cipher, aes_gcm::Nonce::from_slice(nonce), ciphertext)
}

/// Relies on `base64::Engine::encode` with the `STANDARD` engine.
#[verifier::external_body]
fn base64_encode(data: &[u8]) -> (r: String)
    ensures
        r@ == base64_of(data@),
{
    base64::Engine::encode(&base64::engine::general_purpose::STANDARD, data)
}

/// Relies on `base64::Engine::decode` with the `STANDARD` engine, which is a
/// function of the text alone.
#[verifier::external_body]
fn base64_decode(text: &str) -> (r: Result<Vec<u8>, base64::DecodeError>)
    ensures
        r is Ok <==> base64_decoded(text@) is Some,
        r matches Ok(v) ==> base64_decoded(text@) == Some(v@),
{
    base64::Engine::decode(&base64::engine::general_purpose::STANDARD, text)
}

/// Relies on `String::from_utf8`: succeeds exactly on valid UTF-8 and keeps
/// the text the bytes encode.
#[verifier::external_body]
fn string_from_utf8(bytes: Vec<u8>) -> (r: Option<String>)
    ensures
        r is Some <==> valid_utf8(bytes@),
        r matches Some(s) ==> s@ == decode_utf8(bytes@),
{
    String::from_utf8(bytes).ok()
}

/// The 32-byte AES-256 key derived from the fixed seed.
pub fn derive_key() -> (r: Vec<u8>)
    ensures
        r@ == derived_key(),
        r@.len() == 32,
{
    sha2_digest(KEY_SEED.as_bytes())
}

/// Encrypts `plaintext` under the given nonce and returns the stored text.
pub fn encrypt_passphrase_with_nonce(plaintext: &str, nonce: &[u8]) -> (r: Result<String, CryptoError>)
    requires
        nonce@.len() == NONCE_LENGTH_BYTES,
    ensures
        sealed_text(nonce@, plaintext@) matches Some(s) ==> r matches Ok(t) && t@ == s,
        sealed_text(nonce@, plaintext@) is None ==> r == Err::<String, CryptoError>(
            CryptoError::Encryption,
        ),
{
    let key = derive_key();
    match aes_seal(key.as_slice(), nonce, plaintext.as_bytes()) {
        Ok(ciphertext) => {
            let mut data: Vec<u8> = Vec::new();
            data.extend_from_slice(nonce);
            data.extend_from_slice(ciphertext.as_slice());
            assert(data@ =~= nonce@ + ciphertext@);
            Ok(base64_encode(data.as_slice()))
        },
        Err(_) => Err(CryptoError::Encryption),
    }
}

/// Encrypts `plaintext` under a fresh random nonce and returns the stored text.
pub fn encrypt_passphrase(plaintext: &str) -> (r: Result<String, CryptoError>)
    ensures
        r matches Ok(s) ==> is_encryption_of(s@, plaintext@),
        r matches Err(e) ==> e == CryptoError::RandomUnavailable || e == CryptoError::Encryption,
{
    match random_nonce() {
        Ok(nonce) => {
            let r = encrypt_passphrase_with_nonce(plaintext, nonce.as_slice());
            assert(r matches Ok(s) ==> sealed_text(nonce@, plaintext@) == Some(s@));
            r
        },
        Err(_) => Err(CryptoError::RandomUnavailable),
    }
}

/// Decrypts a stored text back to the passphrase.
pub fn decrypt_passphrase(encrypted: &str) -> (r: Result<String, CryptoError>)
    ensures
        decrypted_text(encrypted@) matches Ok(p) ==> r matches Ok(s) && s@ == p,
        decrypted_text(encrypted@) matches Err(e) ==> r == Err::<String, CryptoError>(e),
{
    match base64_decode(encrypted) {
        Ok(data) => decrypt_payload(data.as_slice()),
        Err(_) => Err(CryptoError::InvalidEncoding),
    }
}

/// Decrypts decoded stored bytes: a 12-byte nonce followed by the
/// ciphertext and its tag.
pub fn decrypt_payload(data: &[u8]) -> (r: Result<String, CryptoError>)
    ensures
        decrypted_payload(data@) matches Ok(p) ==> r matches Ok(s) && s@ == p,
        decrypted_payload(data@) matches Err(e) ==> r == Err::<String, CryptoError>(e),
{
    if data.len() < NONCE_LENGTH_BYTES {
        return Err(CryptoError::TooShort);
    }
    let (nonce, ciphertext) = data.split_at(NONCE_LENGTH_BYTES);
    let key = derive_key();
    let plain = match aes_open(key.as_slice(), nonce, ciphertext) {
        Ok(p) => p,
        Err(_) => return Err(CryptoError::Decryption),
    };
    match string_from_utf8(plain) {
        Some(s) => Ok(s),
        None => Err(CryptoError::InvalidUtf8),
    }
}

} // verus!
