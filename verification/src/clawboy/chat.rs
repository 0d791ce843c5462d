//! Chat integration for ClawBoy: commentary routing and user commands.
//!
//! Routes agent commentary to the originating chat channel with a hard
//! 30-second minimum between messages, parses user commands during
//! gameplay (stop, directives, game triggers), and decides how a chat
//! message that may start or stop a game is answered.

use crate::clawboy::types::ClawBoyStatus;
use crate::clawboy_triggers::{regex_search, STOP_TRIGGER_PATTERN, START_TRIGGER_PATTERN};
use crate::clock::{clock_now, millis_since};
use crate::text::{
    to_lowercase, unicode_lower,
    chars_of, concat2, contains_chars, contains_seq, decimal, decimal_string, opt_str_view,
    opt_view, owned, push_str, str_eq, string_of, trim, trim_chars,
};
use std::time::Instant;
use vstd::prelude::*;

verus! {

/// Minimum time between commentary messages, in milliseconds.
pub const MIN_COMMENTARY_INTERVAL_MS: u64 = 30_000;

/// Returns true if the message matches a start-game trigger pattern.
pub fn is_game_trigger(message: &str) -> (r: bool)
    ensures
        r == (regex_search(START_TRIGGER_PATTERN@, message@) == Some(true)),
{
    crate::clawboy_triggers::is_game_trigger(message)
}

/// Whether a stop command may be obeyed for a sender: when both the
/// sender's channel and the channel that started the game are known they
/// must be the same; otherwise it may.
pub open spec fn stop_allowed(sender: Option<Seq<char>>, originating: Option<Seq<char>>) -> bool {
    match (sender, originating) {
        (Some(s), Some(o)) => s == o,
        _ => true,
    }
}

/// Returns true if the message matches a stop-game trigger and was sent
/// from the originating channel (`originating_channel`, the channel that
/// started the running session, if any). Stop triggers are scoped: only
/// the channel that started the game can stop it via chat.
pub fn is_stop_trigger(
    message: &str,
    sender_channel: Option<&str>,
    originating_channel: Option<&str>,
) -> (r: bool)
    ensures
        r == (regex_search(STOP_TRIGGER_PATTERN@, message@) == Some(true) && stop_allowed(
            opt_str_view(sender_channel),
            opt_str_view(originating_channel),
        )),
{
    if !crate::clawboy_triggers::is_stop_trigger(message) {
        return false;
    }
    match (sender_channel, originating_channel) {
        (Some(sender), Some(orig)) => str_eq(sender, orig),
        _ => true,
    }
}

// ── User command parsing ─────────────────────────────────────────────

/// Keywords that suggest a game-related directive for the agent.
pub open spec fn directive_keywords() -> Seq<Seq<char>> {
    seq![
        "catch"@,
        "go to"@,
        "grind"@,
        "level up"@,
        "fight"@,
        "battle"@,
        "heal"@,
        "buy"@,
        "sell"@,
        "use"@,
        "teach"@,
        "learn"@,
        "evolve"@,
        "switch"@,
        "what's your team"@,
        "take a screenshot"@,
        "screenshot"@,
        "where are you"@,
        "status"@,
    ]
}

/// Result of parsing a user message during gameplay.
#[derive(Debug, PartialEq, Eq)]
pub enum UserCommand {
    /// User wants to stop the game.
    Stop,
    /// User gave a directive for the agent (e.g. "catch a Pikachu").
    Directive(String),
    /// Normal conversation: not a game command.
    Chat(String),
}


/// The command a trimmed message stands for, given whether it is a stop
/// command and its lower-cased form: stop commands stop, messages whose
/// lower-cased form holds a directive keyword are directives, the rest is
/// chat. Directives and chat keep the trimmed text.
pub open spec fn command_kind(stop: bool, lower: Seq<char>) -> int {
    if stop {
        0
    } else if exists|k: int| 0 <= k < directive_keywords().len() && contains_seq(
        lower,
        #[trigger] directive_keywords()[k],
    ) {
        1
    } else {
        2
    }
}

/// The view of a command: its kind (0 stop, 1 directive, 2 chat) and text.
pub open spec fn command_view(c: UserCommand) -> (int, Seq<char>) {
    match c {
        UserCommand::Stop => (0, Seq::empty()),
        UserCommand::Directive(d) => (1, d@),
        UserCommand::Chat(c) => (2, c@),
    }
}

/// Classifies a trimmed message, given whether it is a stop command and
/// its lower-cased form.
pub fn classify_command(trimmed: &str, stop: bool, lower: &str) -> (r: UserCommand)
    ensures
        command_view(r) == (if command_kind(stop, lower@) == 0 {
            (0int, Seq::<char>::empty())
        } else {
            (command_kind(stop, lower@), trimmed@)
        }),
{
    if stop {
        return UserCommand::Stop;
    }
    let keywords: [&str; 19] = [
        "catch",
        "go to",
        "grind",
        "level up",
        "fight",
        "battle",
        "heal",
        "buy",
        "sell",
        "use",
        "teach",
        "learn",
        "evolve",
        "switch",
        "what's your team",
        "take a screenshot",
        "screenshot",
        "where are you",
        "status",
    ];
    assert(keywords@.map_values(|k: &str| k@) =~= directive_keywords());
    let l = chars_of(lower);
    let mut i: usize = 0;
    while i < 19
        invariant
            i <= 19,
            !stop,
            keywords@.len() == 19,
            keywords@.map_values(|k: &str| k@) == directive_keywords(),
            l@ == lower@,
            forall|k: int| 0 <= k < i ==> !contains_seq(lower@, #[trigger] directive_keywords()[k]),
        decreases 19 - i,
    {
        let kw = chars_of(keywords[i]);
        assert(directive_keywords()[i as int] == keywords@[i as int]@);
        if contains_chars(&l, &kw) {
            assert(contains_seq(lower@, directive_keywords()[i as int]));
            assert(command_kind(stop, lower@) == 1);
            return UserCommand::Directive(owned(trimmed));
        }
        i = i + 1;
    }
    UserCommand::Chat(owned(trimmed))
}

/// Parses a user message during an active ClawBoy session.
///
/// Checks for stop triggers first (via the stop regex, anchored to the
/// full trimmed message). If any directive keyword appears as a
/// substring of the lower-cased message, it is a [`UserCommand::Directive`].
/// Everything else is normal chat. Directives and chat keep the trimmed
/// message in its original casing.
pub fn parse_user_command(message: &str) -> (r: UserCommand)
    ensures
        ({
            let t = trim(message@);
            let kind = command_kind(
                regex_search(STOP_TRIGGER_PATTERN@, t) == Some(true),
                unicode_lower(t),
            );
            command_view(r) == (if kind == 0 {
                (0int, Seq::<char>::empty())
            } else {
                (kind, t)
            })
        }),
{
    let trimmed = string_of(&trim_chars(&chars_of(message)));
    let stop = crate::clawboy_triggers::is_stop_trigger(trimmed.as_str());
    let lower = to_lowercase(trimmed.as_str());
    classify_command(trimmed.as_str(), stop, lower.as_str())
}

// ── Commentary Router ────────────────────────────────────────────────

/// Whether a commentary message may go out, given the milliseconds since
/// the last message (if one was sent): only when none was sent or at
/// least [`MIN_COMMENTARY_INTERVAL_MS`] have passed.
pub open spec fn commentary_allowed(elapsed_ms: Option<u128>) -> bool {
    match elapsed_ms {
        Some(e) => e >= MIN_COMMENTARY_INTERVAL_MS,
        None => true,
    }
}

/// Decides whether a commentary message may go out; see
/// [`commentary_allowed`].
pub fn commentary_due(elapsed_ms: Option<u128>) -> (r: bool)
    ensures
        r == commentary_allowed(elapsed_ms),
{
    match elapsed_ms {
        Some(e) => e >= MIN_COMMENTARY_INTERVAL_MS as u128,
        None => true,
    }
}

/// Routes ClawBoy commentary to the originating chat channel.
///
/// Enforces a hard 30-second minimum between messages to prevent
/// spamming. Messages that arrive too soon are dropped. Status messages
/// (game started, stopped, crash) bypass the cap. Accepted messages are
/// kept in a pending buffer retrievable via
/// [`CommentaryRouter::drain_pending`].
pub struct CommentaryRouter {
    /// The channel ID where the game was started from.
    pub channel_id: Option<String>,
    /// When the last message was sent.
    pub last_sent: Option<Instant>,
    /// Pending commentary that passed the frequency check.
    pub pending: Vec<String>,
}

impl CommentaryRouter {
    /// The messages waiting to be sent, oldest first.
    pub open spec fn pending_messages(&self) -> Seq<Seq<char>> {
        crate::strset::views(self.pending@)
    }

    /// The originating channel.
    pub open spec fn channel(&self) -> Option<Seq<char>> {
        opt_view(self.channel_id)
    }

    /// Whether a message has been sent (so the interval applies).
    pub open spec fn has_sent(&self) -> bool {
        self.last_sent is Some
    }

    /// Creates a new router for the given channel.
    pub fn new(channel_id: Option<String>) -> (r: Self)
        ensures
            r.channel() == opt_view(channel_id),
            r.pending_messages().len() == 0,
            !r.has_sent(),
    {
        CommentaryRouter { channel_id, last_sent: None, pending: Vec::new() }
    }

    /// Queues commentary if the frequency cap allows.
    ///
    /// Returns `true` if the message was accepted, `false` if dropped
    /// because the last message went out less than 30 seconds ago. The
    /// time elapsed is read from the clock, so only what holds either way
    /// is stated: a first message is always accepted, an accepted message
    /// is appended and restarts the interval, a dropped one changes
    /// nothing.
    pub fn queue_commentary(&mut self, text: String) -> (accepted: bool)
        ensures
            !old(self).has_sent() ==> accepted,
            accepted ==> final(self).pending_messages() == old(self).pending_messages().push(
                text@,
            ) && final(self).has_sent(),
            !accepted ==> final(self).pending_messages() == old(self).pending_messages()
                && final(self).has_sent() == old(self).has_sent(),
            final(self).channel() == old(self).channel(),
    {
        let elapsed: Option<u128> = match &self.last_sent {
            Some(last) => Some(millis_since(last)),
            None => None,
        };
        if !commentary_due(elapsed) {
            return false;
        }
        self.last_sent = Some(clock_now());
        let ghost before = self.pending@;
        self.pending.push(text);
        proof {
            crate::strset::lemma_views_push(before, text);
        }
        true
    }

    /// Sends a status message bypassing the frequency cap.
    ///
    /// Used for critical messages: game started, game stopped, crash. It
    /// restarts the commentary interval.
    pub fn send_status(&mut self, text: String)
        ensures
            final(self).pending_messages() == old(self).pending_messages().push(text@),
            final(self).has_sent(),
            final(self).channel() == old(self).channel(),
    {
        let ghost before = self.pending@;
        self.pending.push(text);
        proof {
            crate::strset::lemma_views_push(before, text);
        }
        self.last_sent = Some(clock_now());
    }

    /// Takes all pending messages, leaving the buffer empty.
    pub fn drain_pending(&mut self) -> (r: Vec<String>)
        ensures
            crate::strset::views(r@) == old(self).pending_messages(),
            final(self).pending_messages().len() == 0,
            final(self).has_sent() == old(self).has_sent(),
            final(self).channel() == old(self).channel(),
    {
        let mut taken: Vec<String> = Vec::new();
        std::mem::swap(&mut taken, &mut self.pending);
        taken
    }

    /// Returns the originating channel ID.
    pub fn channel_id(&self) -> (r: Option<&str>)
        ensures
            opt_str_view(r) == self.channel(),
    {
        match &self.channel_id {
            Some(c) => Some(c.as_str()),
            None => None,
        }
    }
}


// ── Trigger interception ─────────────────────────────────────────────

/// The final answer to a message that was checked for triggers.
#[derive(Debug, PartialEq, Eq)]
pub enum TriggerResult {
    /// Message matched a start trigger.
    StartResponse(String),
    /// Message matched a stop trigger: session stopped.
    StopResponse(String),
    /// No trigger matched: forward to normal agent processing.
    PassThrough,
}

/// What a chat message asks of the session layer.
#[derive(Debug, PartialEq, Eq)]
pub enum TriggerAction {
    /// Forward the message to normal agent processing.
    PassThrough,
    /// Stop the running session, then answer with `reply`.
    Stop { reply: String },
    /// Answer with `reply`.
    Reply { reply: String },
    /// Queue `note` for the agent, then answer with `reply`.
    Relay { note: String, reply: String },
    /// Start a new session for the channel.
    Start,
}

/// The view of an action: its kind (0 pass through, 1 stop, 2 reply,
/// 3 relay, 4 start), the note and the reply.
pub open spec fn action_view(a: TriggerAction) -> (int, Seq<char>, Seq<char>) {
    match a {
        TriggerAction::PassThrough => (0, Seq::empty(), Seq::empty()),
        TriggerAction::Stop { reply } => (1, Seq::empty(), reply@),
        TriggerAction::Reply { reply } => (2, Seq::empty(), reply@),
        TriggerAction::Relay { note, reply } => (3, note@, reply@),
        TriggerAction::Start => (4, Seq::empty(), Seq::empty()),
    }
}

/// Play time and viewer URL of a playing session; zero and `"unknown"`
/// otherwise.
pub open spec fn playing_info(status: ClawBoyStatus) -> (u64, Seq<char>) {
    match status {
        ClawBoyStatus::Playing { viewer_url, play_time_seconds } => (play_time_seconds, viewer_url@),
        _ => (0, "unknown"@),
    }
}

/// A session is active while it plays or is paused.
pub open spec fn is_active(status: ClawBoyStatus) -> bool {
    status is Playing || status is Paused
}

/// The reply to a stop command after `play_time` seconds.
pub open spec fn stop_reply(play_time: u64) -> Seq<char> {
    "Saved and stopped! "@ + decimal((play_time / 60) as nat) + "m "@ + decimal(
        (play_time % 60) as nat,
    ) + "s played this session."@
}

/// The reply to a start command while a session plays.
pub open spec fn already_playing_reply(url: Seq<char>) -> Seq<char> {
    "Already playing! Watch here: "@ + url
}

/// The reply to a start command while the session is paused.
pub open spec fn paused_reply() -> Seq<char> {
    "Game is paused (battery saver). It'll resume when battery saver is off."@
}

/// The reply to a directive.
pub open spec fn directive_reply(status: ClawBoyStatus) -> Seq<char> {
    "Got it! I'll work on that. Playing for "@ + decimal((playing_info(status).0 / 60) as nat)
        + "m. Watch: "@ + playing_info(status).1
}

/// The reply to ordinary chat.
pub open spec fn chat_reply(status: ClawBoyStatus) -> Seq<char> {
    "I'm playing Pokemon Red right now! "@ + decimal((playing_info(status).0 / 60) as nat)
        + "m in. Watch: "@ + playing_info(status).1
}

/// What a message asks of an active session: a stop command from the
/// originating channel stops it; a start command is answered with where
/// to watch (or that the game is paused); any other message that is not a
/// bare stop command is relayed to the agent as coaching or chat.
pub open spec fn active_action(
    message: Seq<char>,
    channel_id: Seq<char>,
    status: ClawBoyStatus,
    originating: Option<Seq<char>>,
) -> (int, Seq<char>, Seq<char>) {
    let t = trim(message);
    if regex_search(STOP_TRIGGER_PATTERN@, message) == Some(true) && stop_allowed(
        Some(channel_id),
        originating,
    ) {
        (1, Seq::empty(), stop_reply(playing_info(status).0))
    } else if regex_search(START_TRIGGER_PATTERN@, message) == Some(true) {
        match status {
            ClawBoyStatus::Playing { viewer_url, .. } => (
                2,
                Seq::empty(),
                already_playing_reply(viewer_url@),
            ),
            ClawBoyStatus::Paused { .. } => (2, Seq::empty(), paused_reply()),
            _ => (0, Seq::empty(), Seq::empty()),
        }
    } else {
        let kind = command_kind(regex_search(STOP_TRIGGER_PATTERN@, t) == Some(true), unicode_lower(t));
        if kind == 0 {
            (0, Seq::empty(), Seq::empty())
        } else if kind == 1 {
            (3, "[User coaching]: "@ + t, directive_reply(status))
        } else {
            (3, "[User says]: "@ + t, chat_reply(status))
        }
    }
}

fn status_info(status: &ClawBoyStatus) -> (r: (u64, &str))
    ensures
        (r.0, r.1@) == playing_info(*status),
{
    match status {
        ClawBoyStatus::Playing { viewer_url, play_time_seconds } => (
            *play_time_seconds,
            viewer_url.as_str(),
        ),
        _ => (0, "unknown"),
    }
}

/// Decides what a message asks of an active session.
pub fn handle_active_trigger(
    message: &str,
    channel_id: &str,
    status: &ClawBoyStatus,
    originating_channel: Option<&str>,
) -> (r: TriggerAction)
    ensures
        action_view(r) == active_action(
            message@,
            channel_id@,
            *status,
            opt_str_view(originating_channel),
        ),
{
    if is_stop_trigger(message, Some(channel_id), originating_channel) {
        let (play_time, _) = status_info(status);
        let mut reply = owned("Saved and stopped! ");
        push_str(&mut reply, decimal_string(play_time / 60).as_str());
        push_str(&mut reply, "m ");
        push_str(&mut reply, decimal_string(play_time % 60).as_str());
        push_str(&mut reply, "s played this session.");
        return TriggerAction::Stop { reply };
    }
    if is_game_trigger(message) {
        return match status {
            ClawBoyStatus::Playing { viewer_url, .. } => TriggerAction::Reply {
                reply: concat2("Already playing! Watch here: ", viewer_url.as_str()),
            },
            ClawBoyStatus::Paused { .. } => TriggerAction::Reply {
                reply: owned(
                    "Game is paused (battery saver). It'll resume when battery saver is off.",
                ),
            },
            _ => TriggerAction::PassThrough,
        };
    }
    let (play_time, viewer_url) = status_info(status);
    match parse_user_command(message) {
        UserCommand::Stop => TriggerAction::PassThrough,
        UserCommand::Directive(d) => {
            let note = concat2("[User coaching]: ", d.as_str());
            let mut reply = owned("Got it! I'll work on that. Playing for ");
            push_str(&mut reply, decimal_string(play_time / 60).as_str());
            push_str(&mut reply, "m. Watch: ");
            push_str(&mut reply, viewer_url);
            TriggerAction::Relay { note, reply }
        },
        UserCommand::Chat(c) => {
            let note = concat2("[User says]: ", c.as_str());
            let mut reply = owned("I'm playing Pokemon Red right now! ");
            push_str(&mut reply, decimal_string(play_time / 60).as_str());
            push_str(&mut reply, "m in. Watch: ");
            push_str(&mut reply, viewer_url);
            TriggerAction::Relay { note, reply }
        },
    }
}

/// What a chat message asks of the session layer: nothing unless a ROM is
/// present; with an active session, what [`active_action`] says; without
/// one, a start command starts a session.
pub open spec fn trigger_action(
    message: Seq<char>,
    channel_id: Seq<char>,
    rom_present: bool,
    status: ClawBoyStatus,
    originating: Option<Seq<char>>,
) -> (int, Seq<char>, Seq<char>) {
    if !rom_present {
        (0, Seq::empty(), Seq::empty())
    } else if is_active(status) {
        active_action(message, channel_id, status, originating)
    } else if regex_search(START_TRIGGER_PATTERN@, message) == Some(true) {
        (4, Seq::empty(), Seq::empty())
    } else {
        (0, Seq::empty(), Seq::empty())
    }
}

/// Checks if a message triggers a ClawBoy start or stop action: the
/// single entry point for both the terminal and channel paths.
///
/// `rom_present` says whether a ROM has been installed, `status` is the
/// current session status and `originating_channel` the channel that
/// started it. Without a ROM the message passes through at once.
pub fn check_trigger(
    message: &str,
    channel_id: &str,
    rom_present: bool,
    status: &ClawBoyStatus,
    originating_channel: Option<&str>,
) -> (r: TriggerAction)
    ensures
        action_view(r) == trigger_action(
            message@,
            channel_id@,
            rom_present,
            *status,
            opt_str_view(originating_channel),
        ),
{
    if !rom_present {
        return TriggerAction::PassThrough;
    }
    let active = match status {
        ClawBoyStatus::Playing { .. } => true,
        ClawBoyStatus::Paused { .. } => true,
        _ => false,
    };
    if active {
        return handle_active_trigger(message, channel_id, status, originating_channel);
    }
    if !is_game_trigger(message) {
        return TriggerAction::PassThrough;
    }
    TriggerAction::Start
}

/// The answer after trying to start a session: the viewer URL on success;
/// when a session was already running, where to watch it (from `status`,
/// `"unknown"` unless it plays); otherwise the error.
pub open spec fn start_reply_text(outcome: Result<Seq<char>, Seq<char>>, status: ClawBoyStatus) -> Seq<char> {
    match outcome {
        Ok(url) => "Starting Pokemon Red! Watch here: "@ + url,
        Err(e) => if contains_seq(e, "already running"@) {
            already_playing_reply(playing_info(status).1)
        } else {
            "Couldn't start ClawBoy: "@ + e
        },
    }
}

/// Builds the answer after trying to start a session from a trigger.
pub fn start_reply(outcome: &Result<String, String>, status: &ClawBoyStatus) -> (r: TriggerResult)
    ensures
        r matches TriggerResult::StartResponse(text) && text@ == start_reply_text(
            match outcome {
                Ok(u) => Ok(u@),
                Err(e) => Err(e@),
            },
            *status,
        ),
{
    match outcome {
        Ok(url) => TriggerResult::StartResponse(
            concat2("Starting Pokemon Red! Watch here: ", url.as_str()),
        ),
        Err(e) => {
            let ec = chars_of(e.as_str());
            let pat = chars_of("already running");
            if contains_chars(&ec, &pat) {
                let (_, url) = status_info(status);
                TriggerResult::StartResponse(concat2("Already playing! Watch here: ", url))
            } else {
                TriggerResult::StartResponse(concat2("Couldn't start ClawBoy: ", e.as_str()))
            }
        },
    }
}
} // verus!
