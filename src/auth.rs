//! Passphrase checking as used by the lock session.

use vstd::prelude::*;
use crate::utils::{self, passphrase_digest};

verus! {

/// Whether `input` is the passphrase whose digest is `stored_hash`.
pub fn verify_passphrase(input: &str, stored_hash: &str) -> (r: bool)
    ensures
        r == (passphrase_digest(input@) == stored_hash@),
{
    utils::verify_passphrase(input, stored_hash)
}

/// The digest under which a new passphrase is stored.
pub fn hash_passphrase(passphrase: &str) -> (r: String)
    ensures
        r@ == passphrase_digest(passphrase@),
{
    utils::hash_passphrase(passphrase)
}

} // verus!
