//! ClawBoy: an agent that plays Pokemon Red in an emulator.
//!
//! The library holds the game-state model read from emulator memory, the
//! prompts built from it, the journal kept across sessions, the rules that
//! decide when the agent is asked for its next move, and the routing of
//! chat commentary.

pub mod types;
pub mod memory_map;
pub mod name_laws;
pub mod prompts;
pub mod bridge;
pub mod chat;
pub mod journal;
pub mod session;
pub mod rom;
pub mod viewer;
