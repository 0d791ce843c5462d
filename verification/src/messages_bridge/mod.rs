//! Google Messages bridge: the Bugle wire-format cryptography and the
//! pairing flow.

pub mod crypto;
pub mod pairing;
pub mod store_rules;
