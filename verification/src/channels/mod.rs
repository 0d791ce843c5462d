//! Channel plumbing: buffering of archived Discord messages.

pub mod discord_buffer;
