//! Passphrase digests and small text helpers.

pub mod keycode;

use vstd::prelude::*;
use vstd::utf8::encode_utf8;

verus! {

/// The SHA-256 digest of a byte string, as computed by `ring`.
pub uninterp spec fn sha256_of(data: Seq<u8>) -> Seq<u8>;

/// Lower-case hexadecimal digit for a value below 16.
pub open spec fn hex_digit(v: u8) -> char {
    if v < 10 {
        ((v + 48) as u8) as char
    } else {
        ((v + 87) as u8) as char
    }
}

/// Lower-case hexadecimal encoding: two digits per byte, high nibble first.
pub open spec fn hex_of(data: Seq<u8>) -> Seq<char>
    decreases data.len(),
{
    if data.len() == 0 {
        Seq::empty()
    } else {
        seq![hex_digit(data[0] / 16), hex_digit(data[0] % 16)] + hex_of(data.drop_first())
    }
}

/// The stored form of a passphrase: hex of the SHA-256 of its UTF-8 bytes.
pub open spec fn passphrase_digest(passphrase: Seq<char>) -> Seq<char> {
    hex_of(sha256_of(encode_utf8(passphrase)))
}

/// Whether `candidate` is the passphrase stored as `digest`.
pub open spec fn passphrase_matches(candidate: Seq<char>, digest: Seq<char>) -> bool {
    passphrase_digest(candidate) == digest
}

/// Every passphrase verifies against the digest it hashes to.
pub proof fn lemma_verify_own_digest(passphrase: Seq<char>)
    ensures
        passphrase_matches(passphrase, passphrase_digest(passphrase)),
{
}

/// Relies on `ring::digest::digest` with `SHA256`: the digest of `data`, 32 bytes long.
#[verifier::external_body]
fn sha256(data: &[u8]) -> (r: Vec<u8>)
    ensures
        r@ == sha256_of(data@),
        r@.len() == 32,
{
    ring::digest::digest(&ring::digest::SHA256, data).as_ref().to_vec()
}

/// Relies on `hex::encode`: lower-case digits, two per byte, in order.
#[verifier::external_body]
fn hex_encode(data: &[u8]) -> (r: String)
    ensures
        r@ == hex_of(data@),
{
    hex::encode(data)
}

/// Relies on collecting `char`s into a `String` (`FromIterator<char>`): the same characters in order.
#[verifier::external_body]
pub(crate) fn chars_to_string(chars: &Vec<char>) -> (r: String)
    ensures
        r@ == chars@,
{
    chars.iter().collect()
}

/// Hashes a passphrase with SHA-256 and returns the lower-case hex digest.
pub fn hash_passphrase(passphrase: &str) -> (r: String)
    ensures
        r@ == passphrase_digest(passphrase@),
{
    let digest = sha256(passphrase.as_bytes());
    hex_encode(digest.as_slice())
}

/// Whether two strings are equal, comparing their UTF-8 bytes without stopping
/// at the first difference.
pub fn constant_time_eq(a: &str, b: &str) -> (r: bool)
    ensures
        r == (a@ == b@),
{
    let x = a.as_bytes();
    let y = b.as_bytes();
    proof {
        vstd::utf8::encode_utf8_decode_utf8(a@);
        vstd::utf8::encode_utf8_decode_utf8(b@);
    }
    if x.len() != y.len() {
        return false;
    }
    let mut acc: u8 = 0;
    let mut i: usize = 0;
    while i < x.len()
        invariant
            x@.len() == y@.len(),
            i <= x@.len(),
            (acc == 0) == (x@.subrange(0, i as int) =~= y@.subrange(0, i as int)),
        decreases x@.len() - i,
    {
        let a_byte = x[i];
        let b_byte = y[i];
        let next = acc | (a_byte ^ b_byte);
        assert((next == 0) == (acc == 0 && a_byte == b_byte)) by (bit_vector)
            requires
                next == acc | (a_byte ^ b_byte),
        ;
        proof {
            assert(x@.subrange(0, i + 1) =~= x@.subrange(0, i as int).push(a_byte));
            assert(y@.subrange(0, i + 1) =~= y@.subrange(0, i as int).push(b_byte));
            if x@.subrange(0, i + 1) =~= y@.subrange(0, i + 1) {
                assert(x@.subrange(0, i + 1)[i as int] == y@.subrange(0, i + 1)[i as int]);
                assert(x@.subrange(0, i as int) =~= x@.subrange(0, i + 1).drop_last());
                assert(y@.subrange(0, i as int) =~= y@.subrange(0, i + 1).drop_last());
            }
        }
        acc = next;
        i = i + 1;
    }
    assert(x@.subrange(0, x@.len() as int) =~= x@);
    assert(y@.subrange(0, y@.len() as int) =~= y@);
    acc == 0
}

/// Whether `passphrase` hashes to the stored hex digest `hash`.
pub fn verify_passphrase(passphrase: &str, hash: &str) -> (r: bool)
    ensures
        r == passphrase_matches(passphrase@, hash@),
{
    let computed = hash_passphrase(passphrase);
    constant_time_eq(computed.as_str(), hash)
}

} // verus!
