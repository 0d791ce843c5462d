//! SHA-256 content hashing for script identity.

use crate::digest::{hex, hex_string, sha256, sha256_digest};
use vstd::prelude::*;

verus! {

/// Computes the SHA-256 hex digest of a byte slice: 64 lower-case hex
/// digits. Used to bind capability grants to a specific script version.
pub fn hash_bytes(data: &[u8]) -> (r: String)
    ensures
        r@ == hex(sha256(data@), false),
        r@.len() == 64,
{
    let digest = sha256_digest(data);
    hex_string(&digest, false)
}

} // verus!
