//! Chat trigger detection for the ClawBoy Game Boy emulator.
//!
//! Two regular expressions recognise start commands ("play clawboy",
//! "fire up claw boy", "clawboy start", ...) anywhere in a chat message and
//! stop commands ("stop", "save and quit", ...) that make up the whole
//! message. Matching is done by the `regex` crate.
//!
//! Start verbs: play, start, run, boot, fire up, launch, load up, open,
//! begin. Nouns are narrowed to the product name ("clawboy" /
//! "claw boy"): broader nouns such as "pokemon" or "game boy" made
//! ordinary chat launch the emulator.

use regex::Regex;
use vstd::prelude::*;

verus! {

/// Start-game trigger: case-insensitive and unanchored; a verb followed by
/// the noun (or the reverse), with up to 20 characters of filler between
/// them.
pub const START_TRIGGER_PATTERN: &'static str = "(?i)(?:play|start|run|boot|fire\\s*up|launch|load\\s*up|open|begin)(?:\\s+.{0,20})?(?:clawboy|claw\\s*boy)|(?:clawboy|claw\\s*boy)(?:\\s+.{0,20})?(?:play|start|run|boot|fire\\s*up|launch|load\\s*up|open|begin)";

/// Stop-game trigger: case-insensitive and anchored to the full message.
pub const STOP_TRIGGER_PATTERN: &'static str = "(?i)^\\s*(?:stop|quit|end|save\\s+and\\s+quit|stop\\s+playing|end\\s+(?:the\\s+)?game|quit\\s+(?:the\\s+)?game|shut\\s+it\\s+down|stop\\s+(?:the\\s+)?game)\\s*$";

/// What `regex::Regex::new(pattern)` followed by `is_match(text)` yields:
/// `None` when the pattern does not compile, otherwise whether the
/// expression matches somewhere in `text`.
pub uninterp spec fn regex_search(pattern: Seq<char>, text: Seq<char>) -> Option<bool>;

/// Compiles `pattern` with `regex::Regex::new` and asks `Regex::is_match`
/// whether it matches `text`. The claim: the result is the named outcome
/// for the two strings (regex matching is a deterministic function of the
/// pattern and the text).
#[verifier::external_body]
fn regex_is_match(pattern: &str, text: &str) -> (r: Option<bool>)
    ensures
        r == regex_search(pattern@, text@),
{
    match Regex::new(pattern) {
        Ok(re) => Some(re.is_match(text)),
        Err(_) => None,
    }
}

/// Returns `true` if `message` contains a start-game trigger phrase.
pub fn is_game_trigger(message: &str) -> (r: bool)
    ensures
        r == (regex_search(START_TRIGGER_PATTERN@, message@) == Some(true)),
{
    match regex_is_match(START_TRIGGER_PATTERN, message) {
        Some(b) => b,
        None => false,
    }
}

/// Returns `true` if `message` is a stop-game command.
pub fn is_stop_trigger(message: &str) -> (r: bool)
    ensures
        r == (regex_search(STOP_TRIGGER_PATTERN@, message@) == Some(true)),
{
    match regex_is_match(STOP_TRIGGER_PATTERN, message) {
        Some(b) => b,
        None => false,
    }
}


/// The trigger handler the FFI layer registers once at start-up; the
/// first registration wins and later ones are ignored.
pub struct TriggerHandlerSlot<H> {
    handler: Option<H>,
}

impl<H> TriggerHandlerSlot<H> {
    /// The registered handler, if any.
    pub closed spec fn registered(&self) -> Option<H> {
        self.handler
    }

    /// A slot with no handler.
    pub fn new() -> (s: Self)
        ensures
            s.registered() is None,
    {
        TriggerHandlerSlot { handler: None }
    }

    /// Registers the handler, unless one is registered already (first
    /// write wins).
    pub fn register_trigger_handler(&mut self, handler: H)
        ensures
            final(self).registered() == (match old(self).registered() {
                Some(h) => Some(h),
                None => Some(handler),
            }),
    {
        if self.handler.is_none() {
            self.handler = Some(handler);
        }
    }

    /// The registered handler, if any.
    pub fn trigger_handler(&self) -> (r: Option<&H>)
        ensures
            match self.registered() {
                Some(h) => r == Some(&h),
                None => r is None,
            },
    {
        self.handler.as_ref()
    }
}

} // verus!
