//! The quotas of script-scoped key-value storage.
//!
//! Each script has its own namespace of keys in a SQLite table; the caller
//! runs the queries and asks this module whether a write fits the quotas.

use crate::text::{concat2, decimal, decimal_string, push_str};
use vstd::prelude::*;
use vstd::string::StringSliceAdditionalSpecFns;

verus! {

/// Maximum number of keys per script namespace.
pub const MAX_KEYS_PER_SCRIPT: usize = 1000;

/// Maximum size of a single value in bytes (64 KiB).
pub const MAX_VALUE_SIZE: usize = 65536;

/// Maximum total storage size per script in bytes (10 MiB).
pub const MAX_TOTAL_SIZE_PER_SCRIPT: usize = 10485760;

/// Why a write is refused, if it is: the value is too large, the script
/// already has the maximum number of other keys, or its other values and
/// the new one together exceed its total quota; checked in that order.
pub open spec fn write_refusal(script: Seq<char>, value_len: nat, other_keys: nat, other_total: nat) -> Option<Seq<char>> {
    if value_len > MAX_VALUE_SIZE {
        Some("value size "@ + decimal(value_len) + " exceeds limit of "@ + decimal(MAX_VALUE_SIZE as nat)
            + " bytes"@)
    } else if other_keys >= MAX_KEYS_PER_SCRIPT {
        Some("script '"@ + script + "' has "@ + decimal(other_keys) + " keys, limit is "@ + decimal(
            MAX_KEYS_PER_SCRIPT as nat,
        ))
    } else if other_total + value_len > MAX_TOTAL_SIZE_PER_SCRIPT {
        Some("script '"@ + script + "' total storage "@ + decimal(other_total) + " + "@ + decimal(value_len)
            + " exceeds limit of "@ + decimal(MAX_TOTAL_SIZE_PER_SCRIPT as nat) + " bytes"@)
    } else {
        None
    }
}

/// Checks a write of `value` under a key of `script`, given the number of
/// the script's other keys and the total size of their values.
pub fn check_write_quota(script: &str, value: &str, other_keys: usize, other_total: usize) -> (r: Result<(), String>)
    ensures
        match write_refusal(script@, value.spec_bytes().len(), other_keys as nat, other_total as nat) {
            None => r is Ok,
            Some(m) => r matches Err(e) && e@ == m,
        },
{
    let n = value.as_bytes().len();
    if n > MAX_VALUE_SIZE {
        let mut e = concat2("value size ", decimal_string(n as u64).as_str());
        push_str(&mut e, " exceeds limit of ");
        push_str(&mut e, decimal_string(MAX_VALUE_SIZE as u64).as_str());
        push_str(&mut e, " bytes");
        return Err(e);
    }
    if other_keys >= MAX_KEYS_PER_SCRIPT {
        let mut e = concat2("script '", script);
        push_str(&mut e, "' has ");
        push_str(&mut e, decimal_string(other_keys as u64).as_str());
        push_str(&mut e, " keys, limit is ");
        push_str(&mut e, decimal_string(MAX_KEYS_PER_SCRIPT as u64).as_str());
        return Err(e);
    }
    if other_total > MAX_TOTAL_SIZE_PER_SCRIPT - n {
        let mut e = concat2("script '", script);
        push_str(&mut e, "' total storage ");
        push_str(&mut e, decimal_string(other_total as u64).as_str());
        push_str(&mut e, " + ");
        push_str(&mut e, decimal_string(n as u64).as_str());
        push_str(&mut e, " exceeds limit of ");
        push_str(&mut e, decimal_string(MAX_TOTAL_SIZE_PER_SCRIPT as u64).as_str());
        push_str(&mut e, " bytes");
        return Err(e);
    }
    Ok(())
}

/// The namespace of data written before scripts were namespaced by name;
/// it is deleted when the storage is opened.
pub const LEGACY_NAMESPACE: &'static str = "anonymous";

} // verus!
