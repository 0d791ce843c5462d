//! ROM verification against the expected Pokemon Red dump.

use crate::clawboy::memory_map::EXPECTED_SHA1;
use crate::clawboy::types::RomVerification;
use crate::digest::{hex, hex_string, sha1, sha1_digest};
use vstd::prelude::*;

verus! {

/// Verifies a ROM image: computes its SHA-1 digest, rendered as 40
/// upper-case hex digits, and compares it with the known-good No-Intro
/// dump hash.
pub fn verify_rom(data: &[u8]) -> (r: RomVerification)
    ensures
        r.sha1@ == hex(sha1(data@), true),
        r.valid == (hex(sha1(data@), true) == EXPECTED_SHA1@),
{
    let digest = sha1_digest(data);
    let sha1_hex = hex_string(&digest, true);
    let valid = crate::text::str_eq(sha1_hex.as_str(), EXPECTED_SHA1);
    RomVerification { valid, sha1: sha1_hex }
}

} // verus!
