//! Scripting: manifest model, capability catalogue and inference,
//! execution sessions, audit records and trigger matching.

pub mod manifest;
pub mod capabilities;
pub mod audit;
pub mod discovery;
pub mod triggers;
pub mod validation;
pub mod content_hash;
pub mod url_safety;
pub mod workspace;
pub mod host_gate;
pub mod storage;
