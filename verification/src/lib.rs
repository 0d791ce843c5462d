//! Verified core of the ZeroAI Android layer.

pub mod text;
pub mod clock;
pub mod error;
pub mod email_cron;
pub mod events;
pub mod capability_grants;
pub mod digest;
pub mod strset;
pub mod messages_bridge;
pub mod clawboy_triggers;
pub mod scripting;
pub mod clawboy;
pub mod eval_script_tool;
pub mod consolidation;
pub mod strmap;
pub mod auth_profiles;
pub mod credentials;
pub mod discord;
pub mod cron;
pub mod health;
pub mod memory_browse;
pub mod channels;
