//! Shared types for the ClawBoy subsystem.

use crate::text::{chars_of, concat2, push_str, upper_chars, upper_seq};
use vstd::prelude::*;

verus! {

/// Information about an active ClawBoy session.
#[derive(Debug, Clone)]
pub struct ClawBoySessionInfo {
    /// WebSocket viewer URL (e.g. `"http://192.168.1.5:8432"`).
    pub viewer_url: String,
    /// Port the viewer is bound to.
    pub port: u16,
}

/// Result of ROM SHA-1 verification.
#[derive(Debug, Clone)]
pub struct RomVerification {
    /// Whether the ROM matches the expected Pokemon Red hash.
    pub valid: bool,
    /// Computed SHA-1 hash string for logging.
    pub sha1: String,
}

/// Current state of the ClawBoy emulator.
#[derive(Debug, Clone)]
pub enum ClawBoyStatus {
    /// No session active.
    Idle,
    /// Emulator is running.
    Playing {
        /// WebSocket viewer URL.
        viewer_url: String,
        /// Seconds since session started.
        play_time_seconds: u64,
    },
    /// Emulator is paused (battery saver, LLM timeout).
    Paused {
        /// Reason for pause.
        reason: String,
    },
    /// Session ended with an error.
    Error {
        /// Error description.
        message: String,
    },
}

/// Game Boy button input.
#[derive(Debug, Clone, Copy, PartialEq, Eq, Structural)]
pub enum GbButton {
    /// The A button.
    A,
    /// The B button.
    B,
    /// The Start button.
    Start,
    /// The Select button.
    Select,
    /// D-pad up.
    Up,
    /// D-pad down.
    Down,
    /// D-pad left.
    Left,
    /// D-pad right.
    Right,
}

/// Error returned when a string cannot be parsed into a [`GbButton`].
#[derive(Debug, Clone, PartialEq, Eq)]
pub struct UnknownButton(pub String);

/// The rendered text of an [`UnknownButton`] error.
pub open spec fn unknown_button_text(name: Seq<char>) -> Seq<char> {
    "unknown Game Boy button: \""@ + name + "\""@
}

impl UnknownButton {
    /// Renders the error, e.g. `unknown Game Boy button: "X"`.
    pub fn to_string(&self) -> (s: String)
        ensures
            s@ == unknown_button_text(self.0@),
    {
        let mut s = concat2("unknown Game Boy button: \"", self.0.as_str());
        push_str(&mut s, "\"");
        s
    }
}

/// The button an upper-cased name stands for.
pub open spec fn button_for_upper(u: Seq<char>) -> Option<GbButton> {
    if u == "A"@ {
        Some(GbButton::A)
    } else if u == "B"@ {
        Some(GbButton::B)
    } else if u == "START"@ {
        Some(GbButton::Start)
    } else if u == "SELECT"@ {
        Some(GbButton::Select)
    } else if u == "UP"@ {
        Some(GbButton::Up)
    } else if u == "DOWN"@ {
        Some(GbButton::Down)
    } else if u == "LEFT"@ {
        Some(GbButton::Left)
    } else if u == "RIGHT"@ {
        Some(GbButton::Right)
    } else {
        None
    }
}

/// The button a name stands for, ignoring ASCII case.
pub open spec fn button_named(s: Seq<char>) -> Option<GbButton> {
    button_for_upper(upper_seq(s))
}

impl GbButton {
    /// Parses a button name, ignoring ASCII case (`"start"`, `"Start"` and
    /// `"START"` all give [`GbButton::Start`]).
    pub fn try_from(s: &str) -> (r: Result<GbButton, UnknownButton>)
        ensures
            match r {
                Ok(b) => button_named(s@) == Some(b),
                Err(e) => button_named(s@) is None && e.0@ == s@,
            },
    {
        let u = upper_chars(&chars_of(s));
        if crate::scripting::capabilities::chars_equal_str(&u, "A") {
            Ok(GbButton::A)
        } else if crate::scripting::capabilities::chars_equal_str(&u, "B") {
            Ok(GbButton::B)
        } else if crate::scripting::capabilities::chars_equal_str(&u, "START") {
            Ok(GbButton::Start)
        } else if crate::scripting::capabilities::chars_equal_str(&u, "SELECT") {
            Ok(GbButton::Select)
        } else if crate::scripting::capabilities::chars_equal_str(&u, "UP") {
            Ok(GbButton::Up)
        } else if crate::scripting::capabilities::chars_equal_str(&u, "DOWN") {
            Ok(GbButton::Down)
        } else if crate::scripting::capabilities::chars_equal_str(&u, "LEFT") {
            Ok(GbButton::Left)
        } else if crate::scripting::capabilities::chars_equal_str(&u, "RIGHT") {
            Ok(GbButton::Right)
        } else {
            Err(UnknownButton(s.to_owned()))
        }
    }
}

/// Button names are read without regard to ASCII case: a name and its
/// upper-cased form stand for the same button.
pub proof fn lemma_button_name_case_insensitive(s: Seq<char>)
    ensures
        button_named(s) == button_named(upper_seq(s)),
{
    assert(upper_seq(upper_seq(s)) =~= upper_seq(s));
}

/// A Pokemon in the player's party.
#[derive(Debug, Clone)]
pub struct PartyMember {
    /// Species name (e.g. "PIKACHU").
    pub species: String,
    /// Current level.
    pub level: u8,
    /// Current HP.
    pub hp: u16,
    /// Maximum HP.
    pub max_hp: u16,
    /// Status condition (e.g. "PSN", "SLP", or "OK").
    pub status: String,
}

impl View for PartyMember {
    type V = (Seq<char>, u8, u16, u16, Seq<char>);

    open spec fn view(&self) -> (Seq<char>, u8, u16, u16, Seq<char>) {
        (self.species@, self.level, self.hp, self.max_hp, self.status@)
    }
}

/// An item in the player's bag.
#[derive(Debug, Clone)]
pub struct BagItem {
    /// Item name (e.g. "POTION").
    pub name: String,
    /// Quantity held.
    pub count: u8,
}

impl View for BagItem {
    type V = (Seq<char>, u8);

    open spec fn view(&self) -> (Seq<char>, u8) {
        (self.name@, self.count)
    }
}

/// Special UI states that require different agent behavior.
#[derive(Debug, Clone, Copy, PartialEq, Eq, Structural)]
pub enum SpecialUiState {
    /// No special UI is active.
    NoOverlay,
    /// A text box is being displayed.
    TextBox,
    /// The battle action menu is open.
    BattleMenu,
    /// The item selection menu is open.
    ItemMenu,
    /// The party selection menu is open.
    PartyMenu,
    /// The name input screen is active.
    NameInput,
    /// The move swap prompt is active.
    MoveSwap,
    /// A shop buy/sell interface is open.
    Shopping,
    /// A yes/no confirmation dialog is active.
    YesNo,
    /// The PC storage system is open.
    PcStorage,
}

impl Default for SpecialUiState {
    fn default() -> (r: Self)
        ensures
            r == SpecialUiState::NoOverlay,
    {
        SpecialUiState::NoOverlay
    }
}

/// Snapshot of Pokemon Red game state read from memory.
#[derive(Debug, Clone)]
pub struct GameState {
    /// Map ID byte from the emulator memory.
    pub map_id: u8,
    /// Human-readable map name resolved from `map_id`.
    pub map_name: String,
    /// Player X coordinate on the current map.
    pub player_x: u8,
    /// Player Y coordinate on the current map.
    pub player_y: u8,
    /// Whether the player is currently in a battle.
    pub in_battle: bool,
    /// Current party members.
    pub party: Vec<PartyMember>,
    /// Earned badge names.
    pub badges: Vec<String>,
    /// Total number of badges earned.
    pub badge_count: u8,
    /// Current money amount.
    pub money: u32,
    /// Items currently in the bag.
    pub bag: Vec<BagItem>,
    /// Current special UI overlay, if any.
    pub special_ui: SpecialUiState,
}

impl Default for GameState {
    fn default() -> (r: Self)
        ensures
            r.map_id == 0,
            r.map_name@ == Seq::<char>::empty(),
            r.player_x == 0,
            r.player_y == 0,
            !r.in_battle,
            r.party@.len() == 0,
            r.badges@.len() == 0,
            r.badge_count == 0,
            r.money == 0,
            r.bag@.len() == 0,
            r.special_ui == SpecialUiState::NoOverlay,
    {
        GameState {
            map_id: 0,
            map_name: String::new(),
            player_x: 0,
            player_y: 0,
            in_battle: false,
            party: Vec::new(),
            badges: Vec::new(),
            badge_count: 0,
            money: 0,
            bag: Vec::new(),
            special_ui: SpecialUiState::NoOverlay,
        }
    }
}

/// Lightweight party snapshot for journal entries.
#[derive(Debug, Clone)]
pub struct PartySnapshot {
    /// Species name.
    pub species: String,
    /// Pokemon level.
    pub level: u8,
}

/// A single journal entry for session persistence.
#[derive(Debug, Clone)]
pub struct JournalEntry {
    /// ISO-8601 timestamp when the session started.
    pub started: String,
    /// ISO-8601 timestamp when the session ended.
    pub ended: String,
    /// Summary of what happened during this session, written by the agent.
    pub summary: String,
    /// Snapshot of the party at the end of the session.
    pub party_snapshot: Vec<PartySnapshot>,
    /// Number of badges held at the end of the session.
    pub badges: u8,
    /// Total play time for this session in seconds.
    pub play_time_seconds: u64,
}

/// Persistent game journal across sessions.
#[derive(Debug, Clone)]
pub struct Journal {
    /// All recorded session entries.
    pub sessions: Vec<JournalEntry>,
    /// The current high-level goal the agent is pursuing.
    pub current_goal: String,
    /// Lessons the agent has recorded for future decision-making.
    pub learnings: Vec<String>,
}

impl Default for Journal {
    fn default() -> (r: Self)
        ensures
            r.sessions@.len() == 0,
            r.current_goal@ == Seq::<char>::empty(),
            r.learnings@.len() == 0,
    {
        Journal { sessions: Vec::new(), current_goal: String::new(), learnings: Vec::new() }
    }
}

} // verus!
