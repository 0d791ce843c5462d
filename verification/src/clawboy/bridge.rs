//! Agent bridge: the decisions between the emulator and the LLM.
//!
//! Every decision tick the session reads game state from memory, compares
//! it to the previous snapshot and decides whether to query the LLM. When
//! it does, the state is formatted into a prompt, the reply is parsed and
//! its button inputs are queued for the emulator. This module holds those
//! decisions as state transitions; the session performs the emulator and
//! network work around them.

use crate::clawboy::memory_map::party_views;
use crate::clawboy::prompts::{
    format_game_state, state_text, DECISION_FORMAT_PROMPT, GAME_CONTEXT_PROMPT,
    PERSONALITY_PROMPT,
};
use crate::clawboy::types::{button_named, GameState, GbButton};
use crate::text::{
    chars_of, find_char, find_char_from, find_chars_from, find_from, owned, push_str, string_of, sub_chars,
    trim, trim_chars,
};
use std::collections::VecDeque;
use vstd::prelude::*;

verus! {

/// Maximum conversation history entries (system + turn pairs + buffer).
pub const MAX_HISTORY_LEN: usize = 42;

/// How many recent messages to retain after pruning.
pub const HISTORY_RETAIN: usize = 40;

/// HP change threshold (as a fraction denominator) for triggering a
/// decision. A change of more than 1/10th of max HP is "meaningful".
pub const HP_CHANGE_THRESHOLD: u32 = 10;

/// Maximum turns without a screenshot before forcing one.
pub const MAX_TURNS_WITHOUT_SCREENSHOT: u64 = 3;

/// Position delta (in tiles) that triggers a new decision.
pub const POSITION_DELTA_THRESHOLD: u16 = 3;

/// Consecutive unmoved decisions after which the agent is told it is stuck.
pub const STUCK_TURNS_WARNING: u64 = 3;

/// The note appended to the state text when the player has not moved for
/// several decisions.
pub const STUCK_NOTE: &'static str = "\n\u{26a0} STUCK: Position unchanged for multiple turns. Look at the screenshot carefully. If you see a letter grid, press START. If in a menu, try B to exit. Try different directions.";

// ── State comparison ────────────────────────────────────────────────

/// The distance between two integers.
pub open spec fn abs_diff(a: int, b: int) -> int {
    if a >= b {
        a - b
    } else {
        b - a
    }
}

/// A party member's HP moved by more than a tenth of its (new, nonzero)
/// max HP.
pub open spec fn hp_changed(
    o: (Seq<char>, u8, u16, u16, Seq<char>),
    n: (Seq<char>, u8, u16, u16, Seq<char>),
) -> bool {
    n.3 > 0 && abs_diff(o.2 as int, n.2 as int) * HP_CHANGE_THRESHOLD > n.3
}

/// The game state changed in a way worth a new decision: the map, the
/// battle flag, the badge count, the UI state or the party size changed,
/// some member's HP moved by more than a tenth of its max HP, or the
/// player moved more than three tiles along an axis.
pub open spec fn changed_meaningfully(old: GameState, new: GameState) -> bool {
    let op = party_views(old.party@);
    let np = party_views(new.party@);
    ||| old.map_id != new.map_id
    ||| old.in_battle != new.in_battle
    ||| old.badge_count != new.badge_count
    ||| old.special_ui != new.special_ui
    ||| op.len() != np.len()
    ||| exists|i: int| 0 <= i < op.len() && #[trigger] hp_changed(op[i], np[i])
    ||| abs_diff(old.player_x as int, new.player_x as int) > POSITION_DELTA_THRESHOLD
    ||| abs_diff(old.player_y as int, new.player_y as int) > POSITION_DELTA_THRESHOLD
}

fn u16_abs_diff(a: u16, b: u16) -> (r: u32)
    ensures
        r == abs_diff(a as int, b as int),
{
    if a >= b {
        (a - b) as u32
    } else {
        (b - a) as u32
    }
}

/// Returns `true` if the game state changed meaningfully since last check.
///
/// Triggers on map changes, battle transitions, badge acquisitions,
/// UI state changes, party size changes, significant HP changes
/// (>10% of max), and position deltas greater than 3 tiles.
pub fn state_changed_meaningfully(old: &GameState, new: &GameState) -> (r: bool)
    ensures
        r == changed_meaningfully(*old, *new),
{
    if old.map_id != new.map_id {
        return true;
    }
    if old.in_battle != new.in_battle {
        return true;
    }
    if old.badge_count != new.badge_count {
        return true;
    }
    if old.special_ui != new.special_ui {
        return true;
    }
    if old.party.len() != new.party.len() {
        assert(party_views(old.party@).len() != party_views(new.party@).len());
        return true;
    }
    let ghost op = party_views(old.party@);
    let ghost np = party_views(new.party@);
    let mut i: usize = 0;
    while i < old.party.len()
        invariant
            i <= old.party@.len() == new.party@.len(),
            op == party_views(old.party@),
            np == party_views(new.party@),
            forall|j: int| 0 <= j < i ==> !#[trigger] hp_changed(op[j], np[j]),
        decreases old.party.len() - i,
    {
        let o = &old.party[i];
        let n = &new.party[i];
        assert(op[i as int] == o@ && np[i as int] == n@);
        if n.max_hp > 0 {
            let diff = u16_abs_diff(o.hp, n.hp);
            if diff * HP_CHANGE_THRESHOLD > n.max_hp as u32 {
                assert(hp_changed(op[i as int], np[i as int]));
                return true;
            }
        }
        i = i + 1;
    }
    let dx = u16_abs_diff(old.player_x as u16, new.player_x as u16);
    let dy = u16_abs_diff(old.player_y as u16, new.player_y as u16);
    if dx > POSITION_DELTA_THRESHOLD as u32 || dy > POSITION_DELTA_THRESHOLD as u32 {
        return true;
    }
    false
}

/// A state with its two coordinates exchanged.
pub open spec fn with_axes_swapped(s: GameState) -> GameState {
    GameState {
        map_id: s.map_id,
        map_name: s.map_name,
        player_x: s.player_y,
        player_y: s.player_x,
        in_battle: s.in_battle,
        party: s.party,
        badges: s.badges,
        badge_count: s.badge_count,
        money: s.money,
        bag: s.bag,
        special_ui: s.special_ui,
    }
}

/// A state moved to the tile `(x, y)`, all else kept.
pub open spec fn moved_to(s: GameState, x: u8, y: u8) -> GameState {
    GameState {
        map_id: s.map_id,
        map_name: s.map_name,
        player_x: x,
        player_y: y,
        in_battle: s.in_battle,
        party: s.party,
        badges: s.badges,
        badge_count: s.badge_count,
        money: s.money,
        bag: s.bag,
        special_ui: s.special_ui,
    }
}

/// What makes a change meaningful: leaving the map, entering or leaving a
/// battle, a new badge count, a new UI overlay, a new party size, or a
/// move of more than [`POSITION_DELTA_THRESHOLD`] tiles along either axis;
/// the two axes count alike. A move of at most that many tiles along each
/// axis, with nothing else changed, is not meaningful.
pub proof fn lemma_meaningful_changes(old: GameState, new: GameState, x: u8, y: u8)
    ensures
        old.map_id != new.map_id ==> changed_meaningfully(old, new),
        old.in_battle != new.in_battle ==> changed_meaningfully(old, new),
        old.badge_count != new.badge_count ==> changed_meaningfully(old, new),
        old.special_ui != new.special_ui ==> changed_meaningfully(old, new),
        old.party@.len() != new.party@.len() ==> changed_meaningfully(old, new),
        (old.player_x - new.player_x > POSITION_DELTA_THRESHOLD || new.player_x - old.player_x
            > POSITION_DELTA_THRESHOLD) ==> changed_meaningfully(old, new),
        (old.player_y - new.player_y > POSITION_DELTA_THRESHOLD || new.player_y - old.player_y
            > POSITION_DELTA_THRESHOLD) ==> changed_meaningfully(old, new),
        changed_meaningfully(with_axes_swapped(old), with_axes_swapped(new)) == changed_meaningfully(
            old,
            new,
        ),
        (-(POSITION_DELTA_THRESHOLD as int) <= x - old.player_x <= POSITION_DELTA_THRESHOLD && -(
        POSITION_DELTA_THRESHOLD as int) <= y - old.player_y <= POSITION_DELTA_THRESHOLD) ==> !changed_meaningfully(
            old,
            moved_to(old, x, y),
        ),
{
    let op = party_views(old.party@);
    let np = party_views(new.party@);
    assert(old.party@.len() != new.party@.len() ==> op.len() != np.len());
    assert forall|i: int| 0 <= i < op.len() implies !#[trigger] hp_changed(op[i], op[i]) by {}
}

/// A state compared with itself has not changed meaningfully.
pub proof fn lemma_unchanged_state_is_not_meaningful(s: GameState)
    ensures
        !changed_meaningfully(s, s),
{
    let p = party_views(s.party@);
    assert forall|i: int| 0 <= i < p.len() implies !#[trigger] hp_changed(p[i], p[i]) by {}
}

// ── Decisions ───────────────────────────────────────────────────────

/// Parsed LLM decision for a single game turn.
#[derive(Debug, Clone)]
pub struct AgentDecision {
    /// Button sequence to execute.
    pub inputs: Vec<String>,
    /// Internal reasoning (logged, optionally shared with users).
    pub thought: String,
    /// Whether to share the thought as commentary in chat.
    pub share: bool,
    /// Whether the agent wants a screenshot on the next turn.
    pub request_screenshot: bool,
}

/// Where the JSON of a decision lies in a reply that is not JSON itself.
#[derive(Debug, Clone, PartialEq, Eq)]
pub enum DecisionJson {
    /// The text to parse as the decision.
    Candidate(String),
    /// The reply holds no code fence and no `{`.
    NotFound,
    /// The reply has a `{` but no `}` at or after the character before it;
    /// slicing between them is out of bounds.
    UnclosedBrace,
}

/// The last index of `s` that holds `c`.
pub open spec fn last_index_of(s: Seq<char>, c: char) -> Option<int>
    decreases s.len(),
{
    if s.len() == 0 {
        None
    } else if s.last() == c {
        Some(s.len() - 1)
    } else {
        last_index_of(s.drop_last(), c)
    }
}

/// The text of `content` before its first code fence (all of it when it
/// has none).
pub open spec fn before_fence(content: Seq<char>) -> Seq<char> {
    match find_from(content, "```"@, 0) {
        Some(k) => content.subrange(0, k),
        None => content,
    }
}

/// Where a decision's JSON lies in a trimmed reply: the body of the first
/// ```` ```json ```` block, else of the first bare code block (each up to
/// the next fence, trimmed), else the text from the first `{` to the last
/// `}`.
pub open spec fn decision_json_spec(response: Seq<char>) -> DecisionJsonView {
    let t = trim(response);
    match find_from(t, "```json"@, 0) {
        Some(k) => DecisionJsonView::Candidate(trim(before_fence(t.subrange(k + 7, t.len() as int)))),
        None => match find_from(t, "```"@, 0) {
            Some(k) => DecisionJsonView::Candidate(trim(before_fence(t.subrange(k + 3, t.len() as int)))),
            None => match find_char_from(t, '{', 0) {
                None => DecisionJsonView::NotFound,
                Some(k) => match last_index_of(t, '}') {
                    Some(e) => if e + 1 >= k {
                        DecisionJsonView::Candidate(t.subrange(k, e + 1))
                    } else {
                        DecisionJsonView::UnclosedBrace
                    },
                    None => DecisionJsonView::UnclosedBrace,
                },
            },
        },
    }
}

/// [`DecisionJson`] over character sequences.
pub enum DecisionJsonView {
    /// The text to parse.
    Candidate(Seq<char>),
    /// No JSON marker.
    NotFound,
    /// An opening brace without a closing one where slicing needs it.
    UnclosedBrace,
}

/// The view of a [`DecisionJson`].
pub open spec fn decision_json_view(d: DecisionJson) -> DecisionJsonView {
    match d {
        DecisionJson::Candidate(s) => DecisionJsonView::Candidate(s@),
        DecisionJson::NotFound => DecisionJsonView::NotFound,
        DecisionJson::UnclosedBrace => DecisionJsonView::UnclosedBrace,
    }
}

/// The fenced text after position `from`, up to the next fence, trimmed.
fn fenced_body(t: &Vec<char>, from: usize) -> (r: Vec<char>)
    requires
        from <= t@.len(),
    ensures
        r@ == trim(before_fence(t@.subrange(from as int, t@.len() as int))),
{
    let content = sub_chars(t.as_slice(), from, t.len());
    let fence = chars_of("```");
    proof {
        reveal_strlit("```");
    }
    let body = match find_chars_from(content.as_slice(), fence.as_slice(), 0) {
        Some(k) => sub_chars(content.as_slice(), 0, k),
        None => content,
    };
    trim_chars(body.as_slice())
}

/// Finds the JSON of a decision in an LLM reply that did not parse as JSON
/// as a whole; see [`decision_json_spec`].
pub fn extract_decision_json(response: &str) -> (r: DecisionJson)
    ensures
        decision_json_view(r) == decision_json_spec(response@),
{
    let t = trim_chars(chars_of(response).as_slice());
    let json_fence = chars_of("```json");
    let fence = chars_of("```");
    proof {
        reveal_strlit("```json");
        reveal_strlit("```");
    }
    assert(json_fence@.len() == 7);
    assert(fence@.len() == 3);
    match find_chars_from(t.as_slice(), json_fence.as_slice(), 0) {
        Some(k) => {
            return DecisionJson::Candidate(string_of(fenced_body(&t, k + 7).as_slice()));
        },
        None => {},
    }
    match find_chars_from(t.as_slice(), fence.as_slice(), 0) {
        Some(k) => {
            return DecisionJson::Candidate(string_of(fenced_body(&t, k + 3).as_slice()));
        },
        None => {},
    }
    let k = match find_char(t.as_slice(), '{', 0) {
        Some(k) => k,
        None => {
            return DecisionJson::NotFound;
        },
    };
    let mut e = t.len();
    assert(t@.subrange(0, e as int) =~= t@);
    while e > 0 && t[e - 1] != '}'
        invariant
            e <= t@.len(),
            last_index_of(t@.subrange(0, e as int), '}') == last_index_of(t@, '}'),
        decreases e,
    {
        assert(t@.subrange(0, e as int).drop_last() =~= t@.subrange(0, e - 1));
        e = e - 1;
    }
    if e == 0 {
        assert(t@.subrange(0, 0) =~= Seq::<char>::empty());
        return DecisionJson::UnclosedBrace;
    }
    assert(t@.subrange(0, e as int).last() == t@[e - 1]);
    if e < k {
        return DecisionJson::UnclosedBrace;
    }
    DecisionJson::Candidate(string_of(sub_chars(t.as_slice(), k, e).as_slice()))
}

/// One message of the agent's conversation with the LLM.
#[derive(Debug, Clone)]
pub struct ChatMessage {
    /// `"system"`, `"user"` or `"assistant"`.
    pub role: String,
    /// The message text.
    pub content: String,
}

impl ChatMessage {
    /// A system message.
    pub fn system(content: &str) -> (m: ChatMessage)
        ensures
            m.role@ == "system"@,
            m.content@ == content@,
    {
        ChatMessage { role: owned("system"), content: owned(content) }
    }

    /// A user message.
    pub fn user(content: &str) -> (m: ChatMessage)
        ensures
            m.role@ == "user"@,
            m.content@ == content@,
    {
        ChatMessage { role: owned("user"), content: owned(content) }
    }

    /// An assistant message.
    pub fn assistant(content: &str) -> (m: ChatMessage)
        ensures
            m.role@ == "assistant"@,
            m.content@ == content@,
    {
        ChatMessage { role: owned("assistant"), content: owned(content) }
    }
}

/// The content of the user message for one turn: the state text, followed
/// by the base64 PNG screenshot under a marker when there is one.
pub open spec fn user_content(state_text: Seq<char>, screenshot: Option<Seq<char>>) -> Seq<char> {
    match screenshot {
        Some(img) => state_text + "\n\n[Screenshot (base64 PNG)]\n"@ + img,
        None => state_text,
    }
}

/// Builds the content of the user message for one turn.
pub fn user_message_content(state_text: &str, screenshot_base64: Option<&str>) -> (r: String)
    ensures
        r@ == user_content(state_text@, crate::text::opt_str_view(screenshot_base64)),
{
    let mut s = owned(state_text);
    match screenshot_base64 {
        Some(img) => {
            push_str(&mut s, "\n\n[Screenshot (base64 PNG)]\n");
            push_str(&mut s, img);
            assert(s@ =~= state_text@ + "\n\n[Screenshot (base64 PNG)]\n"@ + img@);
        },
        None => {},
    }
    s
}

/// The history after pruning: beyond [`MAX_HISTORY_LEN`] messages, the
/// first (system) message followed by the last [`HISTORY_RETAIN`] others.
pub open spec fn pruned(h: Seq<ChatMessage>) -> Seq<ChatMessage> {
    if h.len() > MAX_HISTORY_LEN {
        seq![h[0]] + h.subrange(h.len() - HISTORY_RETAIN, h.len() as int)
    } else {
        h
    }
}

/// Prunes the conversation history to keep it manageable: when it holds
/// more than [`MAX_HISTORY_LEN`] messages, the system message stays first
/// and only the last [`HISTORY_RETAIN`] other messages are kept.
pub fn prune_history(history: &mut Vec<ChatMessage>)
    ensures
        final(history)@ == pruned(old(history)@),
{
    if history.len() > MAX_HISTORY_LEN {
        let ghost h = history@;
        let system = history.remove(0);
        let drain_count = history.len() - HISTORY_RETAIN;
        let mut kept = history.split_off(drain_count);
        kept.insert(0, system);
        *history = kept;
        assert(history@ =~= seq![h[0]] + h.subrange(h.len() - HISTORY_RETAIN, h.len() as int));
    }
}


// ── The bridge ──────────────────────────────────────────────────────

/// Owned snapshot of everything needed for an LLM call.
pub struct DecisionContext {
    /// Formatted game state text for the user message.
    pub state_text: String,
    /// Optional base64-encoded PNG screenshot.
    pub screenshot_b64: Option<String>,
    /// Snapshot of the conversation history at preparation time.
    pub history: Vec<ChatMessage>,
}

/// Result of a successful LLM decision.
pub struct DecisionOutcome {
    /// The parsed agent decision (inputs, thought, flags).
    pub decision: AgentDecision,
    /// Updated conversation history (with user + assistant messages
    /// appended and pruned).
    pub updated_history: Vec<ChatMessage>,
}

/// Bridges the emulator to the LLM for AI-driven gameplay.
///
/// Maintains its own conversation history, tracks game state deltas, and
/// queues button inputs parsed from LLM responses.
pub struct AgentBridge {
    /// Previous game state for delta comparison.
    pub previous_state: Option<GameState>,
    /// Queued button inputs to feed to the emulator.
    pub input_queue: VecDeque<GbButton>,
    /// Current decision interval in frames.
    pub decision_interval_frames: u64,
    /// Frame counter since last decision.
    pub frames_since_decision: u64,
    /// Whether to include a screenshot on next decision.
    pub request_screenshot: bool,
    /// Conversation history for this game session.
    pub history: Vec<ChatMessage>,
    /// System prompt assembled from templates.
    pub system_prompt: String,
    /// Commentary messages to be sent to chat.
    pub commentary_queue: VecDeque<String>,
    /// Last direction held when repeating input.
    pub last_input: Option<GbButton>,
    /// Consecutive decisions without a screenshot.
    pub turns_without_screenshot: u64,
    /// Consecutive decisions where position has not changed.
    pub stuck_turns: u64,
    /// Last seen player position for stuckness detection.
    pub last_position: Option<(u8, u8)>,
}

/// The system prompt: game context, decision format and personality,
/// separated by blank lines, then the journal context when there is one.
pub open spec fn system_prompt_text(journal_context: Seq<char>) -> Seq<char> {
    GAME_CONTEXT_PROMPT@ + "\n\n"@ + DECISION_FORMAT_PROMPT@ + "\n\n"@ + PERSONALITY_PROMPT@ + (
    if journal_context.len() > 0 {
        "\n\n"@ + journal_context
    } else {
        Seq::empty()
    })
}

/// An interval in milliseconds as a number of frames at 60 fps.
pub open spec fn frames_for(ms: u64) -> int {
    ms * 60 / 1000
}

/// The buttons named by the inputs, in order, skipping invalid names.
pub open spec fn parsed_buttons(inputs: Seq<Seq<char>>) -> Seq<GbButton>
    decreases inputs.len(),
{
    if inputs.len() == 0 {
        Seq::empty()
    } else {
        let rest = parsed_buttons(inputs.drop_last());
        match button_named(inputs.last()) {
            Some(b) => rest.push(b),
            None => rest,
        }
    }
}

/// What one [`AgentBridge::tick`] does to the bridge: with inputs queued
/// it pops the first one and remembers it as the last input; otherwise it
/// counts one more frame towards the next decision. Nothing else changes.
pub open spec fn tick_step(b0: AgentBridge, b1: AgentBridge) -> bool {
    &&& b0.input_queue@.len() > 0 ==> {
        &&& b1.input_queue@ == b0.input_queue@.drop_first()
        &&& b1.last_input == Some(b0.input_queue@[0])
        &&& b1.frames_since_decision == b0.frames_since_decision
    }
    &&& b0.input_queue@.len() == 0 ==> {
        &&& b1.input_queue@ == b0.input_queue@
        &&& b1.last_input == b0.last_input
        &&& b1.frames_since_decision == b0.frames_since_decision + 1
    }
    &&& b1.previous_state == b0.previous_state
    &&& b1.decision_interval_frames == b0.decision_interval_frames
    &&& b1.request_screenshot == b0.request_screenshot
    &&& b1.history == b0.history
    &&& b1.system_prompt == b0.system_prompt
    &&& b1.commentary_queue@ == b0.commentary_queue@
    &&& b1.turns_without_screenshot == b0.turns_without_screenshot
    &&& b1.stuck_turns == b0.stuck_turns
    &&& b1.last_position == b0.last_position
}

impl AgentBridge {
    /// Creates a new agent bridge with the given decision interval and
    /// journal context from previous play sessions.
    ///
    /// Assembles the system prompt from game context, decision format,
    /// personality, and journal context templates, then seeds the
    /// conversation history with the system message.
    pub fn new(decision_interval_ms: u64, journal_context: String) -> (b: Self)
        requires
            decision_interval_ms * 60 <= u64::MAX,
        ensures
            b.previous_state is None,
            b.input_queue@.len() == 0,
            b.decision_interval_frames == frames_for(decision_interval_ms),
            b.frames_since_decision == 0,
            b.request_screenshot,
            b.system_prompt@ == system_prompt_text(journal_context@),
            b.history@.len() == 1,
            b.history@[0].role@ == "system"@,
            b.history@[0].content@ == system_prompt_text(journal_context@),
            b.commentary_queue@.len() == 0,
            b.last_input is None,
            b.turns_without_screenshot == 0,
            b.stuck_turns == 0,
            b.last_position is None,
    {
        let decision_interval_frames = decision_interval_ms * 60 / 1000;
        let mut system_prompt = owned(GAME_CONTEXT_PROMPT);
        push_str(&mut system_prompt, "\n\n");
        push_str(&mut system_prompt, DECISION_FORMAT_PROMPT);
        push_str(&mut system_prompt, "\n\n");
        push_str(&mut system_prompt, PERSONALITY_PROMPT);
        if !journal_context.as_str().is_empty() {
            push_str(&mut system_prompt, "\n\n");
            push_str(&mut system_prompt, journal_context.as_str());
            assert(system_prompt@ =~= system_prompt_text(journal_context@));
        } else {
            assert(system_prompt@ =~= system_prompt_text(journal_context@));
        }
        let history = vec![ChatMessage::system(system_prompt.as_str())];
        AgentBridge {
            previous_state: None,
            input_queue: VecDeque::new(),
            decision_interval_frames,
            frames_since_decision: 0,
            request_screenshot: true,
            history,
            system_prompt,
            commentary_queue: VecDeque::new(),
            last_input: None,
            turns_without_screenshot: 0,
            stuck_turns: 0,
            last_position: None,
        }
    }

    /// Advances the bridge by one frame and returns the next button to
    /// press, if any.
    ///
    /// If the input queue has pending buttons, pops and returns the next
    /// one. Otherwise increments the frame counter and returns the last
    /// held direction for smooth movement, or `None` if idle.
    pub fn tick(&mut self, _frame_count: u64) -> (r: Option<GbButton>)
        requires
            old(self).frames_since_decision < u64::MAX,
        ensures
            old(self).input_queue@.len() > 0 ==> {
                &&& r == Some(old(self).input_queue@[0])
                &&& final(self).input_queue@ == old(self).input_queue@.drop_first()
                &&& final(self).last_input == r
                &&& final(self).frames_since_decision == old(self).frames_since_decision
            },
            old(self).input_queue@.len() == 0 ==> {
                &&& r == old(self).last_input
                &&& final(self).input_queue@ == old(self).input_queue@
                &&& final(self).last_input == old(self).last_input
                &&& final(self).frames_since_decision == old(self).frames_since_decision + 1
            },
            final(self).decision_interval_frames == old(self).decision_interval_frames,
            final(self).request_screenshot == old(self).request_screenshot,
            final(self).commentary_queue@ == old(self).commentary_queue@,
            final(self).turns_without_screenshot == old(self).turns_without_screenshot,
            final(self).stuck_turns == old(self).stuck_turns,
            final(self).last_position == old(self).last_position,
            final(self).history == old(self).history,
            final(self).previous_state == old(self).previous_state,
            final(self).system_prompt == old(self).system_prompt,
            tick_step(*old(self), *final(self)),
    {
        match self.input_queue.pop_front() {
            Some(button) => {
                assert(old(self).input_queue@.subrange(1, old(self).input_queue@.len() as int)
                    =~= old(self).input_queue@.drop_first());
                self.last_input = Some(button);
                Some(button)
            },
            None => {
                self.frames_since_decision = self.frames_since_decision + 1;
                self.last_input
            },
        }
    }

    /// Returns `true` if enough frames have elapsed since the last
    /// decision and the input queue is empty.
    pub fn needs_decision(&self) -> (r: bool)
        ensures
            r == (self.frames_since_decision >= self.decision_interval_frames
                && self.input_queue@.len() == 0),
    {
        self.frames_since_decision >= self.decision_interval_frames && self.input_queue.len() == 0
    }

    /// Returns `true` if the bridge wants a screenshot on the next
    /// decision turn.
    pub fn wants_screenshot(&self) -> (r: bool)
        ensures
            r == self.request_screenshot,
    {
        self.request_screenshot
    }

    /// The first half of a decision: given the state just read from
    /// memory, decides whether the LLM needs asking.
    ///
    /// When the state has not changed meaningfully and inputs are still
    /// queued, the turn is skipped: the state is recorded, the frame
    /// counter reset, and `None` returned. Otherwise the state is handed
    /// back for [`finish_decision`](Self::finish_decision).
    pub fn begin_decision(&mut self, state: GameState) -> (r: Option<GameState>)
        ensures
            ({
                let meaningful = match old(self).previous_state {
                    Some(prev) => changed_meaningfully(prev, state),
                    None => true,
                };
                let skip = !meaningful && old(self).input_queue@.len() > 0;
                &&& skip ==> r is None && final(self).previous_state == Some(state)
                    && final(self).frames_since_decision == 0
                &&& !skip ==> r == Some(state) && final(self).previous_state
                    == old(self).previous_state && final(self).frames_since_decision
                    == old(self).frames_since_decision
            }),
            final(self).input_queue@ == old(self).input_queue@,
            final(self).request_screenshot == old(self).request_screenshot,
            final(self).stuck_turns == old(self).stuck_turns,
            final(self).last_position == old(self).last_position,
            final(self).turns_without_screenshot == old(self).turns_without_screenshot,
            final(self).history == old(self).history,
            final(self).commentary_queue == old(self).commentary_queue,
            final(self).last_input == old(self).last_input,
            final(self).system_prompt == old(self).system_prompt,
            final(self).decision_interval_frames == old(self).decision_interval_frames,
    {
        let meaningful = match &self.previous_state {
            Some(prev) => state_changed_meaningfully(prev, &state),
            None => true,
        };
        if !meaningful && self.input_queue.len() != 0 {
            self.frames_since_decision = 0;
            self.previous_state = Some(state);
            return None;
        }
        Some(state)
    }

    /// The second half of a decision: formats the state for the LLM
    /// (noting whether a screenshot is attached), tracks whether the
    /// player is stuck, records the state and resets the frame counter.
    ///
    /// The position counts as stuck after [`STUCK_TURNS_WARNING`]
    /// consecutive decisions at the same tiles; the text then carries
    /// [`STUCK_NOTE`].
    pub fn finish_decision(&mut self, state: GameState, has_screenshot: bool) -> (text: String)
        requires
            old(self).stuck_turns < u64::MAX,
        ensures
            final(self).last_position == Some((state.player_x, state.player_y)),
            final(self).stuck_turns == (if old(self).last_position == Some(
                (state.player_x, state.player_y),
            ) {
                old(self).stuck_turns + 1
            } else {
                0
            }),
            text@ == state_text(state, has_screenshot) + (if final(self).stuck_turns
                >= STUCK_TURNS_WARNING {
                STUCK_NOTE@
            } else {
                Seq::empty()
            }),
            final(self).previous_state == Some(state),
            final(self).frames_since_decision == 0,
            final(self).input_queue@ == old(self).input_queue@,
            final(self).request_screenshot == old(self).request_screenshot,
            final(self).turns_without_screenshot == old(self).turns_without_screenshot,
            final(self).history == old(self).history,
            final(self).commentary_queue == old(self).commentary_queue,
            final(self).last_input == old(self).last_input,
            final(self).system_prompt == old(self).system_prompt,
            final(self).decision_interval_frames == old(self).decision_interval_frames,
    {
        let mut text = format_game_state(&state, has_screenshot);
        let pos = (state.player_x, state.player_y);
        let same = match self.last_position {
            Some(p) => p.0 == pos.0 && p.1 == pos.1,
            None => false,
        };
        if same {
            self.stuck_turns = self.stuck_turns + 1;
        } else {
            self.stuck_turns = 0;
        }
        self.last_position = Some(pos);
        if self.stuck_turns >= STUCK_TURNS_WARNING {
            push_str(&mut text, STUCK_NOTE);
        } else {
            assert(text@ =~= text@ + Seq::<char>::empty());
        }
        self.previous_state = Some(state);
        self.frames_since_decision = 0;
        text
    }

    /// Applies a completed LLM decision back to the bridge state.
    ///
    /// Replaces the conversation history with the updated version, queues
    /// the valid button inputs (invalid names are ignored), routes shared
    /// commentary, and forces a screenshot once
    /// [`MAX_TURNS_WITHOUT_SCREENSHOT`] decisions in a row went without one.
    pub fn apply_decision(&mut self, result: DecisionOutcome)
        requires
            old(self).turns_without_screenshot < MAX_TURNS_WITHOUT_SCREENSHOT,
        ensures
            final(self).history@ == result.updated_history@,
            final(self).input_queue@ == old(self).input_queue@ + parsed_buttons(
                crate::strset::views(result.decision.inputs@),
            ),
            final(self).commentary_queue@ == (if result.decision.share
                && result.decision.thought@.len() > 0 {
                old(self).commentary_queue@.push(result.decision.thought)
            } else {
                old(self).commentary_queue@
            }),
            result.decision.request_screenshot ==> final(self).request_screenshot
                && final(self).turns_without_screenshot == 0,
            !result.decision.request_screenshot ==> (if old(self).turns_without_screenshot + 1
                >= MAX_TURNS_WITHOUT_SCREENSHOT {
                final(self).request_screenshot && final(self).turns_without_screenshot == 0
            } else {
                !final(self).request_screenshot && final(self).turns_without_screenshot
                    == old(self).turns_without_screenshot + 1
            }),
            final(self).turns_without_screenshot < MAX_TURNS_WITHOUT_SCREENSHOT,
            final(self).frames_since_decision == old(self).frames_since_decision,
            final(self).decision_interval_frames == old(self).decision_interval_frames,
            final(self).previous_state == old(self).previous_state,
            final(self).last_input == old(self).last_input,
            final(self).stuck_turns == old(self).stuck_turns,
            final(self).last_position == old(self).last_position,
            final(self).system_prompt == old(self).system_prompt,
    {
        let DecisionOutcome { decision, updated_history } = result;
        self.history = updated_history;
        self.queue_decision(decision.inputs, decision.thought, decision.share);
        if decision.request_screenshot {
            self.turns_without_screenshot = 0;
            self.request_screenshot = true;
        } else {
            self.turns_without_screenshot = self.turns_without_screenshot + 1;
            if self.turns_without_screenshot >= MAX_TURNS_WITHOUT_SCREENSHOT {
                self.request_screenshot = true;
                self.turns_without_screenshot = 0;
            } else {
                self.request_screenshot = false;
            }
        }
    }

    /// Queues the valid buttons of a decision's inputs (invalid names are
    /// ignored) and routes its thought as commentary when it is to be
    /// shared and not empty.
    fn queue_decision(&mut self, inputs: Vec<String>, thought: String, share: bool)
        ensures
            final(self).input_queue@ == old(self).input_queue@ + parsed_buttons(
                crate::strset::views(inputs@),
            ),
            final(self).commentary_queue@ == (if share && thought@.len() > 0 {
                old(self).commentary_queue@.push(thought)
            } else {
                old(self).commentary_queue@
            }),
            final(self).history == old(self).history,
            final(self).previous_state == old(self).previous_state,
            final(self).request_screenshot == old(self).request_screenshot,
            final(self).turns_without_screenshot == old(self).turns_without_screenshot,
            final(self).frames_since_decision == old(self).frames_since_decision,
            final(self).decision_interval_frames == old(self).decision_interval_frames,
            final(self).last_input == old(self).last_input,
            final(self).stuck_turns == old(self).stuck_turns,
            final(self).last_position == old(self).last_position,
            final(self).system_prompt == old(self).system_prompt,
    {
        let ghost views_in = crate::strset::views(inputs@);
        let ghost q0 = self.input_queue@;
        let mut i: usize = 0;
        while i < inputs.len()
            invariant
                i <= inputs@.len(),
                views_in == crate::strset::views(inputs@),
                self.input_queue@ == q0 + parsed_buttons(views_in.take(i as int)),
                q0 == old(self).input_queue@,
                self.commentary_queue@ == old(self).commentary_queue@,
                self.history == old(self).history,
                self.previous_state == old(self).previous_state,
                self.request_screenshot == old(self).request_screenshot,
                self.turns_without_screenshot == old(self).turns_without_screenshot,
                self.frames_since_decision == old(self).frames_since_decision,
                self.decision_interval_frames == old(self).decision_interval_frames,
                self.last_input == old(self).last_input,
                self.stuck_turns == old(self).stuck_turns,
                self.last_position == old(self).last_position,
                self.system_prompt == old(self).system_prompt,
            decreases inputs.len() - i,
        {
            proof {
                assert(views_in.take(i + 1).drop_last() =~= views_in.take(i as int));
                assert(views_in.take(i + 1).last() == inputs@[i as int]@);
            }
            match GbButton::try_from(inputs[i].as_str()) {
                Ok(button) => {
                    self.input_queue.push_back(button);
                    assert(self.input_queue@ =~= q0 + parsed_buttons(views_in.take(i + 1)));
                },
                Err(_) => {},
            }
            i = i + 1;
        }
        assert(views_in.take(inputs.len() as int) =~= views_in);
        if share && !thought.as_str().is_empty() {
            self.commentary_queue.push_back(thought);
        }
    }

    /// Records a decision taken in a single call, without the split of
    /// [`begin_decision`](Self::begin_decision) and
    /// [`apply_decision`](Self::apply_decision): queues the valid button
    /// inputs, routes shared commentary, takes the agent's screenshot
    /// preference as it is, records the state and resets the frame counter.
    pub fn record_decision(&mut self, state: GameState, decision: AgentDecision)
        ensures
            final(self).input_queue@ == old(self).input_queue@ + parsed_buttons(
                crate::strset::views(decision.inputs@),
            ),
            final(self).commentary_queue@ == (if decision.share && decision.thought@.len() > 0 {
                old(self).commentary_queue@.push(decision.thought)
            } else {
                old(self).commentary_queue@
            }),
            final(self).request_screenshot == decision.request_screenshot,
            final(self).previous_state == Some(state),
            final(self).frames_since_decision == 0,
            final(self).history == old(self).history,
            final(self).turns_without_screenshot == old(self).turns_without_screenshot,
            final(self).decision_interval_frames == old(self).decision_interval_frames,
            final(self).stuck_turns == old(self).stuck_turns,
            final(self).last_position == old(self).last_position,
            final(self).last_input == old(self).last_input,
            final(self).system_prompt == old(self).system_prompt,
    {
        let AgentDecision { inputs, thought, share, request_screenshot } = decision;
        self.queue_decision(inputs, thought, share);
        self.request_screenshot = request_screenshot;
        self.previous_state = Some(state);
        self.frames_since_decision = 0;
    }

    /// Pops the next commentary message for routing to chat.
    ///
    /// Returns `None` when the commentary queue is empty.
    pub fn take_commentary(&mut self) -> (r: Option<String>)
        ensures
            old(self).commentary_queue@.len() == 0 ==> r is None && final(self).commentary_queue@
                == old(self).commentary_queue@,
            old(self).commentary_queue@.len() > 0 ==> r == Some(old(self).commentary_queue@[0])
                && final(self).commentary_queue@ == old(self).commentary_queue@.drop_first(),
            final(self).previous_state == old(self).previous_state,
            final(self).input_queue == old(self).input_queue,
            final(self).decision_interval_frames == old(self).decision_interval_frames,
            final(self).frames_since_decision == old(self).frames_since_decision,
            final(self).request_screenshot == old(self).request_screenshot,
            final(self).history == old(self).history,
            final(self).system_prompt == old(self).system_prompt,
            final(self).last_input == old(self).last_input,
            final(self).turns_without_screenshot == old(self).turns_without_screenshot,
            final(self).stuck_turns == old(self).stuck_turns,
            final(self).last_position == old(self).last_position,
    {
        let r = self.commentary_queue.pop_front();
        assert(old(self).commentary_queue@.len() > 0 ==> old(self).commentary_queue@.subrange(
            1,
            old(self).commentary_queue@.len() as int,
        ) =~= old(self).commentary_queue@.drop_first());
        r
    }

    /// Updates the decision interval (in milliseconds).
    ///
    /// Converts the new interval to frames at 60 fps.
    pub fn update_interval(&mut self, ms: u64)
        requires
            ms * 60 <= u64::MAX,
        ensures
            final(self).decision_interval_frames == frames_for(ms),
            final(self).frames_since_decision == old(self).frames_since_decision,
            final(self).input_queue@ == old(self).input_queue@,
            final(self).previous_state == old(self).previous_state,
            final(self).request_screenshot == old(self).request_screenshot,
            final(self).history == old(self).history,
            final(self).system_prompt == old(self).system_prompt,
            final(self).commentary_queue == old(self).commentary_queue,
            final(self).last_input == old(self).last_input,
            final(self).turns_without_screenshot == old(self).turns_without_screenshot,
            final(self).stuck_turns == old(self).stuck_turns,
            final(self).last_position == old(self).last_position,
    {
        self.decision_interval_frames = ms * 60 / 1000;
    }
}

} // verus!
