//! Observer events: their JSON encoding and the ring buffer of recent ones.
//!
//! Events from the daemon are encoded as JSON strings with an id, a
//! timestamp, a kind and a data object, kept in a fixed-capacity ring
//! buffer for on-demand queries, and forwarded to a registered listener.
//! The listener slot and the process-wide buffer live with the FFI layer.

use crate::text::{decimal, decimal_string, join, lemma_join_push, owned, push_char, push_str};
use std::collections::VecDeque;
use vstd::prelude::*;

verus! {

/// Ring buffer capacity for event history.
pub const EVENT_BUFFER_CAPACITY: usize = 500;

// ── JSON string escaping ─────────────────────────────────────────────

/// The upper-case hexadecimal digit for `d` (below sixteen).
pub open spec fn hex_digit(d: nat) -> char {
    if d < 10 {
        ((d + 48) as u32) as char
    } else {
        ((d + 55) as u32) as char
    }
}

/// How one character is written inside a JSON string literal: quotes,
/// backslashes, newlines, carriage returns and tabs get their two-character
/// escapes, other control characters (below U+0020) `\u00XX` with upper-case
/// hex digits, and everything else stands for itself.
pub open spec fn escape_char(c: char) -> Seq<char> {
    if c == '"' {
        seq!['\\', '"']
    } else if c == '\\' {
        seq!['\\', '\\']
    } else if c == '\n' {
        seq!['\\', 'n']
    } else if c == '\r' {
        seq!['\\', 'r']
    } else if c == '\t' {
        seq!['\\', 't']
    } else if (c as u32) < 0x20 {
        seq!['\\', 'u', '0', '0', hex_digit((c as u32 / 16) as nat), hex_digit((c as u32 % 16) as nat)]
    } else {
        seq![c]
    }
}

/// A string escaped for embedding inside a JSON string literal.
pub open spec fn escape_json(s: Seq<char>) -> Seq<char>
    decreases s.len(),
{
    if s.len() == 0 {
        Seq::empty()
    } else {
        escape_json(s.drop_last()) + escape_char(s.last())
    }
}

/// No character of an escaped character is a control character.
proof fn lemma_escape_char_printable(c: char)
    ensures
        forall|i: int| 0 <= i < escape_char(c).len() ==> (#[trigger] escape_char(c)[i]) as u32 >= 0x20,
{
    if !(c == '"' || c == '\\' || c == '\n' || c == '\r' || c == '\t') && (c as u32) < 0x20 {
        let hi = (c as u32 / 16) as nat;
        let lo = (c as u32 % 16) as nat;
        assert(hi < 16 && lo < 16);
        assert(hex_digit(hi) as u32 >= 0x20);
        assert(hex_digit(lo) as u32 >= 0x20);
    }
}

/// The output of escaping holds no control character (below U+0020): each
/// one is written as an escape sequence of printable characters.
pub proof fn lemma_escape_json_has_no_control_chars(s: Seq<char>)
    ensures
        forall|i: int| 0 <= i < escape_json(s).len() ==> (#[trigger] escape_json(s)[i]) as u32 >= 0x20,
    decreases s.len(),
{
    if s.len() > 0 {
        lemma_escape_json_has_no_control_chars(s.drop_last());
        lemma_escape_char_printable(s.last());
        let a = escape_json(s.drop_last());
        let b = escape_char(s.last());
        assert forall|i: int| 0 <= i < escape_json(s).len() implies (#[trigger] escape_json(s)[i]) as u32
            >= 0x20 by {
            if i < a.len() {
                assert(escape_json(s)[i] == a[i]);
            } else {
                assert(escape_json(s)[i] == b[i - a.len()]);
            }
        }
    }
}

/// The value of a hexadecimal digit character (either case), if it is one.
pub open spec fn hex_value(c: char) -> Option<nat> {
    if '0' <= c && c <= '9' {
        Some((c as u32 - 48) as nat)
    } else if 'A' <= c && c <= 'F' {
        Some((c as u32 - 55) as nat)
    } else if 'a' <= c && c <= 'f' {
        Some((c as u32 - 87) as nat)
    } else {
        None
    }
}

/// The character of a two-character escape (`\"`, `\\`, `\/`, `\b`, `\f`,
/// `\n`, `\r`, `\t`) by its second character.
pub open spec fn short_escape(e: char) -> Option<char> {
    if e == '"' {
        Some('"')
    } else if e == '\\' {
        Some('\\')
    } else if e == '/' {
        Some('/')
    } else if e == 'b' {
        Some('\x08')
    } else if e == 'f' {
        Some('\x0C')
    } else if e == 'n' {
        Some('\n')
    } else if e == 'r' {
        Some('\r')
    } else if e == 't' {
        Some('\t')
    } else {
        None
    }
}

/// The code point of a `\uXXXX` escape whose four hex digits start at `i`.
pub open spec fn unicode_escape(s: Seq<char>, i: int) -> Option<nat> {
    if i + 4 > s.len() {
        None
    } else {
        match (hex_value(s[i]), hex_value(s[i + 1]), hex_value(s[i + 2]), hex_value(s[i + 3])) {
            (Some(a), Some(b), Some(c), Some(d)) => Some(a * 4096 + b * 256 + c * 16 + d),
            _ => None,
        }
    }
}

/// Decodes the text between the quotes of a JSON string literal (RFC 8259,
/// section 7): escapes stand for their characters and every other
/// character for itself; `None` when the text holds a raw quote or control
/// character or a malformed escape. A `\uXXXX` escape of a surrogate (half
/// of a pair) is not decoded: it gives `None`.
pub open spec fn json_unescape(s: Seq<char>) -> Option<Seq<char>>
    decreases s.len(),
{
    if s.len() == 0 {
        Some(Seq::empty())
    } else if s[0] == '\\' {
        if s.len() < 2 {
            None
        } else {
            let rest = s.subrange(2, s.len() as int);
            match short_escape(s[1]) {
                Some(c) => match json_unescape(rest) {
                    Some(r) => Some(seq![c] + r),
                    None => None,
                },
                None => if s[1] == 'u' {
                    match unicode_escape(s, 2) {
                        Some(code) => if code < 0xD800 || 0xE000 <= code {
                            match json_unescape(s.subrange(6, s.len() as int)) {
                                Some(r) => Some(seq![(code as u32) as char] + r),
                                None => None,
                            }
                        } else {
                            None
                        },
                        None => None,
                    }
                } else {
                    None
                },
            }
        }
    } else if s[0] == '"' || (s[0] as u32) < 0x20 {
        None
    } else {
        match json_unescape(s.subrange(1, s.len() as int)) {
            Some(r) => Some(seq![s[0]] + r),
            None => None,
        }
    }
}

proof fn lemma_escape_json_front(s: Seq<char>)
    requires
        s.len() > 0,
    ensures
        escape_json(s) == escape_char(s[0]) + escape_json(s.subrange(1, s.len() as int)),
    decreases s.len(),
{
    if s.len() > 1 {
        let d = s.drop_last();
        lemma_escape_json_front(d);
        assert(d.subrange(1, d.len() as int) =~= s.subrange(1, s.len() as int).drop_last());
        assert(d[0] == s[0]);
        assert(s.subrange(1, s.len() as int).last() == s.last());
        assert(escape_json(s) =~= escape_char(s[0]) + escape_json(s.subrange(1, s.len() as int)));
    } else {
        assert(s.drop_last() =~= Seq::<char>::empty());
        assert(s.subrange(1, s.len() as int) =~= Seq::<char>::empty());
        assert(escape_json(s) =~= escape_char(s[0]) + escape_json(s.subrange(1, s.len() as int)));
    }
}

proof fn lemma_hex_digit_value(d: nat)
    requires
        d < 16,
    ensures
        hex_value(hex_digit(d)) == Some(d),
{
}

proof fn lemma_unescape_escaped_char(c: char, rest: Seq<char>)
    ensures
        json_unescape(escape_char(c) + rest) == (match json_unescape(rest) {
            Some(r) => Some(seq![c] + r),
            None => None,
        }),
{
    let t = escape_char(c) + rest;
    let e = escape_char(c);
    if c == '"' || c == '\\' || c == '\n' || c == '\r' || c == '\t' {
        assert(t[0] == '\\');
        assert(t[1] == e[1]);
        assert(t.subrange(2, t.len() as int) =~= rest);
    } else if (c as u32) < 0x20 {
        let hi = (c as u32 / 16) as nat;
        let lo = (c as u32 % 16) as nat;
        lemma_hex_digit_value(hi);
        lemma_hex_digit_value(lo);
        assert(t[0] == '\\');
        assert(t[1] == 'u');
        assert(t[2] == '0' && t[3] == '0');
        assert(t[4] == hex_digit(hi) && t[5] == hex_digit(lo));
        assert(unicode_escape(t, 2) == Some(hi * 16 + lo));
        assert(hi * 16 + lo == c as u32);
        assert(((c as u32) as char) == c);
        assert(t.subrange(6, t.len() as int) =~= rest);
    } else {
        assert(t[0] == c);
        assert(t.subrange(1, t.len() as int) =~= rest);
    }
}

/// Quoted, escaped text is a JSON string literal that decodes back to the
/// original text.
pub proof fn lemma_escape_json_decodes_back(s: Seq<char>)
    ensures
        json_unescape(escape_json(s)) == Some(s),
    decreases s.len(),
{
    if s.len() > 0 {
        let tail = s.subrange(1, s.len() as int);
        lemma_escape_json_decodes_back(tail);
        lemma_escape_json_front(s);
        lemma_unescape_escaped_char(s[0], escape_json(tail));
        assert(seq![s[0]] + tail =~= s);
    }
}

fn hex_char(d: u32) -> (c: char)
    requires
        d < 16,
    ensures
        c == hex_digit(d as nat),
{
    if d < 10 {
        ((d as u8) + 48) as char
    } else {
        ((d as u8) + 55) as char
    }
}

/// Escapes a string for safe embedding inside a JSON string literal.
///
/// Handles double quotes, backslashes, common whitespace escapes
/// (`\n`, `\r`, `\t`), and all remaining control characters (`\x00`-`\x1F`)
/// via `\uXXXX` notation.
pub fn escape_json_string(s: &str) -> (out: String)
    ensures
        out@ == escape_json(s@),
{
    let cs = crate::text::chars_of(s);
    let mut out = String::new();
    let mut i: usize = 0;
    while i < cs.len()
        invariant
            i <= cs@.len(),
            cs@ == s@,
            out@ == escape_json(s@.take(i as int)),
        decreases cs.len() - i,
    {
        let c = cs[i];
        proof {
            let t = s@.take(i + 1);
            assert(t.drop_last() =~= s@.take(i as int));
            assert(t.last() == c);
        }
        let ghost before = out@;
        if c == '"' {
            push_str(&mut out, "\\\"");
            proof { reveal_strlit("\\\""); }
        } else if c == '\\' {
            push_str(&mut out, "\\\\");
            proof { reveal_strlit("\\\\"); }
        } else if c == '\n' {
            push_str(&mut out, "\\n");
            proof { reveal_strlit("\\n"); }
        } else if c == '\r' {
            push_str(&mut out, "\\r");
            proof { reveal_strlit("\\r"); }
        } else if c == '\t' {
            push_str(&mut out, "\\t");
            proof { reveal_strlit("\\t"); }
        } else if (c as u32) < 0x20 {
            let v = c as u32;
            push_str(&mut out, "\\u00");
            proof { reveal_strlit("\\u00"); }
            push_char(&mut out, hex_char(v / 16));
            push_char(&mut out, hex_char(v % 16));
        } else {
            push_char(&mut out, c);
        }
        assert(out@ =~= before + escape_char(c));
        i = i + 1;
    }
    assert(s@.take(cs.len() as int) =~= s@);
    out
}

// ── Event JSON ───────────────────────────────────────────────────────

/// The signed decimal rendering of an integer.
pub open spec fn signed_decimal(n: int) -> Seq<char> {
    if n < 0 {
        seq!['-'] + decimal((-n) as nat)
    } else {
        decimal(n as nat)
    }
}

/// Renders an `i64` in decimal, as `i64::to_string` does.
pub fn signed_decimal_string(n: i64) -> (s: String)
    ensures
        s@ == signed_decimal(n as int),
{
    if n < 0 {
        let m: u64 = if n == i64::MIN {
            9_223_372_036_854_775_808u64
        } else {
            (-n) as u64
        };
        let mut s = owned("-");
        push_str(&mut s, decimal_string(m).as_str());
        proof { reveal_strlit("-"); }
        assert(s@ =~= seq!['-'] + decimal((-(n as int)) as nat));
        s
    } else {
        decimal_string(n as u64)
    }
}

/// One event as JSON:
/// `{"id":ID,"timestamp_ms":TS,"kind":"KIND","data":DATA}`.
pub open spec fn event_json(id: u64, timestamp_ms: i64, kind: Seq<char>, data: Seq<char>) -> Seq<char> {
    "{\"id\":"@ + decimal(id as nat) + ",\"timestamp_ms\":"@ + signed_decimal(timestamp_ms as int)
        + ",\"kind\":\""@ + kind + "\",\"data\":"@ + data + "}"@
}

/// Encodes one event: its id, the time it was recorded (milliseconds since
/// the Unix epoch), its kind (written as is) and its data object.
pub fn format_event(id: u64, timestamp_ms: i64, kind: &str, data_json: &str) -> (r: String)
    ensures
        r@ == event_json(id, timestamp_ms, kind@, data_json@),
{
    let mut s = owned("{\"id\":");
    push_str(&mut s, decimal_string(id).as_str());
    push_str(&mut s, ",\"timestamp_ms\":");
    push_str(&mut s, signed_decimal_string(timestamp_ms).as_str());
    push_str(&mut s, ",\"kind\":\"");
    push_str(&mut s, kind);
    push_str(&mut s, "\",\"data\":");
    push_str(&mut s, data_json);
    push_str(&mut s, "}");
    s
}

/// Encodes an application-level event whose kind is escaped: the form a
/// custom event (such as a capability approval request) takes.
pub fn format_custom_event(id: u64, timestamp_ms: i64, kind: &str, data_json: &str) -> (r: String)
    ensures
        r@ == event_json(id, timestamp_ms, escape_json(kind@), data_json@),
{
    let escaped = escape_json_string(kind);
    format_event(id, timestamp_ms, escaped.as_str(), data_json)
}

// ── The ring buffer ──────────────────────────────────────────────────

/// The last `limit` events of `events` (all of them when there are fewer),
/// oldest first.
pub open spec fn last_events(events: Seq<Seq<char>>, limit: int) -> Seq<Seq<char>> {
    if events.len() > limit {
        events.subrange(events.len() - limit, events.len() as int)
    } else {
        events
    }
}

/// The JSON array of the last `limit` events, oldest first.
pub open spec fn recent_json(events: Seq<Seq<char>>, limit: int) -> Seq<char> {
    "["@ + join(last_events(events, limit), ","@) + "]"@
}

/// A fixed-capacity buffer of encoded events: when full, recording a new
/// event drops the oldest.
pub struct EventBuffer {
    events: VecDeque<String>,
}

impl EventBuffer {
    /// The buffered events, oldest first.
    pub closed spec fn contents(&self) -> Seq<Seq<char>> {
        self.events@.map_values(|s: String| s@)
    }

    /// An empty buffer.
    pub fn new() -> (b: EventBuffer)
        ensures
            b.contents().len() == 0,
    {
        EventBuffer { events: VecDeque::new() }
    }

    /// The number of buffered events.
    pub fn len(&self) -> (n: usize)
        ensures
            n == self.contents().len(),
    {
        self.events.len()
    }

    /// Records an event. The buffer keeps at most
    /// [`EVENT_BUFFER_CAPACITY`] events: the oldest is dropped first.
    pub fn record(&mut self, json: String)
        requires
            old(self).contents().len() <= EVENT_BUFFER_CAPACITY,
        ensures
            final(self).contents() == (if old(self).contents().len() >= EVENT_BUFFER_CAPACITY {
                old(self).contents().drop_first()
            } else {
                old(self).contents()
            }).push(json@),
            final(self).contents().len() <= EVENT_BUFFER_CAPACITY,
    {
        let ghost before = self.contents();
        if self.events.len() >= EVENT_BUFFER_CAPACITY {
            let _ = self.events.pop_front();
            assert(self.contents() =~= before.drop_first());
        }
        let ghost mid = self.contents();
        self.events.push_back(json);
        assert(self.contents() =~= mid.push(json@));
    }

    /// The most recent events as a JSON array string, oldest first; the
    /// `limit` caps how many are returned.
    pub fn recent_events(&self, limit: u32) -> (r: String)
        ensures
            r@ == recent_json(self.contents(), limit as int),
    {
        let ghost all = self.contents();
        let n = self.events.len();
        let start: usize = if n > limit as usize { n - limit as usize } else { 0 };
        let ghost shown = last_events(all, limit as int);
        assert(shown =~= all.subrange(start as int, n as int));
        let mut s = owned("[");
        let mut i: usize = start;
        while i < n
            invariant
                start <= i <= n,
                n == self.events@.len(),
                all == self.contents(),
                shown == all.subrange(start as int, n as int),
                s@ == "["@ + join(shown.take(i - start), ","@),
            decreases n - i,
        {
            proof {
                lemma_join_push(shown, ","@, i - start);
                assert(shown[i - start] == self.events@[i as int]@);
            }
            if i > start {
                push_str(&mut s, ",");
            }
            push_str(&mut s, self.events[i].as_str());
            assert(s@ =~= "["@ + join(shown.take(i - start + 1), ","@));
            i = i + 1;
        }
        assert(shown.take(n - start) =~= shown);
        push_str(&mut s, "]");
        s
    }
}


// ── Observer events ──────────────────────────────────────────────────

/// An event observed in the daemon, with the values its encoding needs.
/// Durations are in milliseconds; the cost of an agent run is carried as
/// the text it is rendered to.
#[derive(Debug, Clone)]
pub enum ObserverEvent {
    /// A request to the model provider.
    LlmRequest { model_provider: String, model: String, messages_count: u64 },
    /// A response from the model provider.
    LlmResponse {
        model_provider: String,
        model: String,
        duration_ms: u128,
        success: bool,
        error_message: Option<String>,
        input_tokens: Option<u64>,
        output_tokens: Option<u64>,
    },
    /// A finished tool call.
    ToolCall { tool: String, duration_ms: u128, success: bool },
    /// A tool call that started.
    ToolCallStart { tool: String },
    /// A message on a channel.
    ChannelMessage { channel: String, direction: String },
    /// An error in a component.
    Error { component: String, message: String },
    /// A heartbeat tick.
    HeartbeatTick,
    /// A completed turn.
    TurnComplete,
    /// An agent run started.
    AgentStart { model_provider: String, model: String },
    /// An agent run ended.
    AgentEnd {
        model_provider: String,
        model: String,
        duration_ms: u128,
        tokens_used: Option<u64>,
        cost_usd: Option<String>,
    },
    /// Any other event.
    Other,
}

/// A JSON string literal.
pub open spec fn json_str(s: Seq<char>) -> Seq<char> {
    "\""@ + escape_json(s) + "\""@
}

/// A JSON boolean.
pub open spec fn json_bool(b: bool) -> Seq<char> {
    if b {
        "true"@
    } else {
        "false"@
    }
}

/// An optional number, `null` when absent.
pub open spec fn json_opt_u64(o: Option<u64>) -> Seq<char> {
    match o {
        Some(n) => decimal(n as nat),
        None => "null"@,
    }
}

/// The `"skill_name"` member of a tool event, when the tool belongs to a
/// skill.
pub open spec fn skill_member(skill: Option<Seq<char>>) -> Seq<char> {
    match skill {
        Some(s) => ",\"skill_name\":"@ + json_str(s),
        None => Seq::empty(),
    }
}

/// The kind of an event.
pub open spec fn event_kind(e: ObserverEvent) -> Seq<char> {
    match e {
        ObserverEvent::LlmRequest { .. } => "llm_request"@,
        ObserverEvent::LlmResponse { .. } => "llm_response"@,
        ObserverEvent::ToolCall { .. } => "tool_call"@,
        ObserverEvent::ToolCallStart { .. } => "tool_call_start"@,
        ObserverEvent::ChannelMessage { .. } => "channel_message"@,
        ObserverEvent::Error { .. } => "error"@,
        ObserverEvent::HeartbeatTick => "heartbeat_tick"@,
        ObserverEvent::TurnComplete => "turn_complete"@,
        ObserverEvent::AgentStart { .. } => "agent_start"@,
        ObserverEvent::AgentEnd { .. } => "agent_end"@,
        ObserverEvent::Other => "unknown"@,
    }
}

/// The data object of an event; `skill` is the skill owning the tool of a
/// tool event.
pub open spec fn event_data(e: ObserverEvent, skill: Option<Seq<char>>) -> Seq<char> {
    match e {
        ObserverEvent::LlmRequest { model_provider, model, messages_count } => "{\"provider\":"@
            + json_str(model_provider@) + ",\"model\":"@ + json_str(model@) + ",\"messages\":"@
            + decimal(messages_count as nat) + "}"@,
        ObserverEvent::LlmResponse {
            model_provider,
            model,
            duration_ms,
            success,
            error_message,
            input_tokens,
            output_tokens,
        } => "{\"provider\":"@ + json_str(model_provider@) + ",\"model\":"@ + json_str(model@)
            + ",\"duration_ms\":"@ + decimal(duration_ms as nat) + ",\"success\":"@ + json_bool(
            success,
        ) + ",\"error\":"@ + (match error_message {
            Some(m) => json_str(m@),
            None => "null"@,
        }) + ",\"input_tokens\":"@ + json_opt_u64(input_tokens) + ",\"output_tokens\":"@
            + json_opt_u64(output_tokens) + "}"@,
        ObserverEvent::ToolCall { tool, duration_ms, success } => "{\"tool\":"@ + json_str(tool@)
            + ",\"duration_ms\":"@ + decimal(duration_ms as nat) + ",\"success\":"@ + json_bool(
            success,
        ) + skill_member(skill) + "}"@,
        ObserverEvent::ToolCallStart { tool } => "{\"tool\":"@ + json_str(tool@) + skill_member(
            skill,
        ) + "}"@,
        ObserverEvent::ChannelMessage { channel, direction } => "{\"channel\":"@ + json_str(
            channel@,
        ) + ",\"direction\":"@ + json_str(direction@) + "}"@,
        ObserverEvent::Error { component, message } => "{\"component\":"@ + json_str(component@)
            + ",\"message\":"@ + json_str(message@) + "}"@,
        ObserverEvent::AgentStart { model_provider, model } => "{\"provider\":"@ + json_str(
            model_provider@,
        ) + ",\"model\":"@ + json_str(model@) + "}"@,
        ObserverEvent::AgentEnd { model_provider, model, duration_ms, tokens_used, cost_usd } =>
            "{\"provider\":"@ + json_str(model_provider@) + ",\"model\":"@ + json_str(model@)
            + ",\"duration_ms\":"@ + decimal(duration_ms as nat) + ",\"tokens\":"@ + json_opt_u64(
            tokens_used,
        ) + ",\"cost_usd\":"@ + (match cost_usd {
            Some(c) => c@,
            None => "null"@,
        }) + "}"@,
        _ => "{}"@,
    }
}

fn push_json_str(out: &mut String, s: &str)
    ensures
        final(out)@ == old(out)@ + json_str(s@),
{
    push_str(out, "\"");
    let e = escape_json_string(s);
    push_str(out, e.as_str());
    push_str(out, "\"");
}

fn push_json_opt_u64(out: &mut String, o: Option<u64>)
    ensures
        final(out)@ == old(out)@ + json_opt_u64(o),
{
    match o {
        Some(n) => push_str(out, decimal_string(n).as_str()),
        None => push_str(out, "null"),
    }
}

fn push_json_bool(out: &mut String, b: bool)
    ensures
        final(out)@ == old(out)@ + json_bool(b),
{
    if b {
        push_str(out, "true");
    } else {
        push_str(out, "false");
    }
}

fn push_skill_member(out: &mut String, skill: Option<&str>)
    ensures
        final(out)@ == old(out)@ + skill_member(crate::text::opt_str_view(skill)),
{
    match skill {
        Some(s) => {
            push_str(out, ",\"skill_name\":");
            push_json_str(out, s);
        },
        None => {
            assert(old(out)@ + Seq::<char>::empty() =~= old(out)@);
        },
    }
}

/// Converts an event to its kind and data object; `skill` names the skill
/// that owns the tool of a tool event, if any.
pub fn event_to_kind_and_data(event: &ObserverEvent, skill: Option<&str>) -> (r: (&'static str, String))
    ensures
        r.0@ == event_kind(*event),
        r.1@ == event_data(*event, crate::text::opt_str_view(skill)),
{
    let mut d = String::new();
    let kind: &'static str = match event {
        ObserverEvent::LlmRequest { model_provider, model, messages_count } => {
            push_str(&mut d, "{\"provider\":");
            push_json_str(&mut d, model_provider.as_str());
            push_str(&mut d, ",\"model\":");
            push_json_str(&mut d, model.as_str());
            push_str(&mut d, ",\"messages\":");
            push_str(&mut d, decimal_string(*messages_count).as_str());
            push_str(&mut d, "}");
            "llm_request"
        },
        ObserverEvent::LlmResponse {
            model_provider,
            model,
            duration_ms,
            success,
            error_message,
            input_tokens,
            output_tokens,
        } => {
            push_str(&mut d, "{\"provider\":");
            push_json_str(&mut d, model_provider.as_str());
            push_str(&mut d, ",\"model\":");
            push_json_str(&mut d, model.as_str());
            push_str(&mut d, ",\"duration_ms\":");
            push_str(&mut d, crate::text::decimal_string_u128(*duration_ms).as_str());
            push_str(&mut d, ",\"success\":");
            push_json_bool(&mut d, *success);
            push_str(&mut d, ",\"error\":");
            match error_message {
                Some(m) => push_json_str(&mut d, m.as_str()),
                None => push_str(&mut d, "null"),
            }
            push_str(&mut d, ",\"input_tokens\":");
            push_json_opt_u64(&mut d, *input_tokens);
            push_str(&mut d, ",\"output_tokens\":");
            push_json_opt_u64(&mut d, *output_tokens);
            push_str(&mut d, "}");
            "llm_response"
        },
        ObserverEvent::ToolCall { tool, duration_ms, success } => {
            push_str(&mut d, "{\"tool\":");
            push_json_str(&mut d, tool.as_str());
            push_str(&mut d, ",\"duration_ms\":");
            push_str(&mut d, crate::text::decimal_string_u128(*duration_ms).as_str());
            push_str(&mut d, ",\"success\":");
            push_json_bool(&mut d, *success);
            push_skill_member(&mut d, skill);
            push_str(&mut d, "}");
            "tool_call"
        },
        ObserverEvent::ToolCallStart { tool } => {
            push_str(&mut d, "{\"tool\":");
            push_json_str(&mut d, tool.as_str());
            push_skill_member(&mut d, skill);
            push_str(&mut d, "}");
            "tool_call_start"
        },
        ObserverEvent::ChannelMessage { channel, direction } => {
            push_str(&mut d, "{\"channel\":");
            push_json_str(&mut d, channel.as_str());
            push_str(&mut d, ",\"direction\":");
            push_json_str(&mut d, direction.as_str());
            push_str(&mut d, "}");
            "channel_message"
        },
        ObserverEvent::Error { component, message } => {
            push_str(&mut d, "{\"component\":");
            push_json_str(&mut d, component.as_str());
            push_str(&mut d, ",\"message\":");
            push_json_str(&mut d, message.as_str());
            push_str(&mut d, "}");
            "error"
        },
        ObserverEvent::HeartbeatTick => {
            push_str(&mut d, "{}");
            "heartbeat_tick"
        },
        ObserverEvent::TurnComplete => {
            push_str(&mut d, "{}");
            "turn_complete"
        },
        ObserverEvent::AgentStart { model_provider, model } => {
            push_str(&mut d, "{\"provider\":");
            push_json_str(&mut d, model_provider.as_str());
            push_str(&mut d, ",\"model\":");
            push_json_str(&mut d, model.as_str());
            push_str(&mut d, "}");
            "agent_start"
        },
        ObserverEvent::AgentEnd { model_provider, model, duration_ms, tokens_used, cost_usd } => {
            push_str(&mut d, "{\"provider\":");
            push_json_str(&mut d, model_provider.as_str());
            push_str(&mut d, ",\"model\":");
            push_json_str(&mut d, model.as_str());
            push_str(&mut d, ",\"duration_ms\":");
            push_str(&mut d, crate::text::decimal_string_u128(*duration_ms).as_str());
            push_str(&mut d, ",\"tokens\":");
            push_json_opt_u64(&mut d, *tokens_used);
            push_str(&mut d, ",\"cost_usd\":");
            match cost_usd {
                Some(c) => push_str(&mut d, c.as_str()),
                None => push_str(&mut d, "null"),
            }
            push_str(&mut d, "}");
            "agent_end"
        },
        ObserverEvent::Other => {
            push_str(&mut d, "{}");
            "unknown"
        },
    };
    proof {
        reveal_strlit("");
    }
    assert(d@ =~= event_data(*event, crate::text::opt_str_view(skill)));
    (kind, d)
}

/// Encodes an observed event with its id and the time it was recorded.
pub fn format_event_json(id: u64, timestamp_ms: i64, event: &ObserverEvent, skill: Option<&str>) -> (r: String)
    ensures
        r@ == event_json(
            id,
            timestamp_ms,
            event_kind(*event),
            event_data(*event, crate::text::opt_str_view(skill)),
        ),
{
    let (kind, data) = event_to_kind_and_data(event, skill);
    format_event(id, timestamp_ms, kind, data.as_str())
}

// ── Tool-to-skill names ──────────────────────────────────────────────

/// The skill each tool belongs to, a later mapping for a tool overriding
/// an earlier one.
pub open spec fn skill_map(m: Seq<(Seq<char>, Seq<char>)>) -> Map<Seq<char>, Seq<char>>
    decreases m.len(),
{
    if m.len() == 0 {
        Map::empty()
    } else {
        skill_map(m.drop_last()).insert(m.last().0, m.last().1)
    }
}

/// Maps tool names to the skills that own them, for event enrichment.
pub struct ToolSkillMap {
    mappings: Vec<(String, String)>,
}

impl ToolSkillMap {
    /// The skill of each tool.
    pub closed spec fn skills(&self) -> Map<Seq<char>, Seq<char>> {
        skill_map(self.mappings@.map_values(|p: (String, String)| (p.0@, p.1@)))
    }

    /// A map without tools.
    pub fn new() -> (m: ToolSkillMap)
        ensures
            m.skills() == Map::<Seq<char>, Seq<char>>::empty(),
    {
        let m = ToolSkillMap { mappings: Vec::new() };
        assert(m.mappings@.map_values(|p: (String, String)| (p.0@, p.1@)) =~= Seq::<
            (Seq<char>, Seq<char>),
        >::empty());
        m
    }

    /// Replaces all mappings; each pair is `(tool_name, skill_name)`, a
    /// later pair for a tool overriding an earlier one.
    pub fn register_skill_tool_names(&mut self, mappings: Vec<(String, String)>)
        ensures
            final(self).skills() == skill_map(mappings@.map_values(|p: (String, String)| (p.0@, p.1@))),
    {
        self.mappings = mappings;
    }

    /// The skill that owns a tool.
    pub fn skill_for_tool(&self, tool_name: &str) -> (r: Option<String>)
        ensures
            match r {
                Some(s) => self.skills().contains_key(tool_name@) && self.skills()[tool_name@] == s@,
                None => !self.skills().contains_key(tool_name@),
            },
    {
        let ghost ms = self.mappings@.map_values(|p: (String, String)| (p.0@, p.1@));
        let mut i: usize = self.mappings.len();
        assert(ms.take(i as int) =~= ms);
        while i > 0
            invariant
                i <= self.mappings@.len(),
                ms == self.mappings@.map_values(|p: (String, String)| (p.0@, p.1@)),
                skill_map(ms).contains_key(tool_name@) == skill_map(ms.take(i as int)).contains_key(
                    tool_name@,
                ),
                skill_map(ms).contains_key(tool_name@) ==> skill_map(ms)[tool_name@] == skill_map(
                    ms.take(i as int),
                )[tool_name@],
            decreases i,
        {
            let ghost t = ms.take(i as int);
            assert(t.drop_last() =~= ms.take(i - 1));
            assert(t.last() == (self.mappings@[i - 1].0@, self.mappings@[i - 1].1@));
            if crate::text::str_eq(self.mappings[i - 1].0.as_str(), tool_name) {
                return Some(self.mappings[i - 1].1.clone());
            }
            i = i - 1;
        }
        assert(ms.take(0) =~= Seq::<(Seq<char>, Seq<char>)>::empty());
        None
    }
}


// ── The event hub ────────────────────────────────────────────────────

/// Receives every recorded event as JSON; implemented by the host app.
pub trait FfiEventListener {
    /// Called with each event as it is recorded.
    fn on_event(&self, event_json: String);
}

/// What the observer bridge keeps: the ring buffer of recent events, the
/// id of the next event, the tool-to-skill names, and the listener the
/// host registered.
pub struct EventHub<L: FfiEventListener> {
    /// The most recent events.
    pub buffer: EventBuffer,
    /// The id the next event gets.
    pub next_id: u64,
    /// The skill of each tool, for tool events.
    pub skills: ToolSkillMap,
    /// The listener, once registered.
    pub listener: Option<L>,
}

/// The buffer after recording one more event.
pub open spec fn buffered_after(events: Seq<Seq<char>>, json: Seq<char>) -> Seq<Seq<char>> {
    (if events.len() >= EVENT_BUFFER_CAPACITY {
        events.drop_first()
    } else {
        events
    }).push(json)
}

impl<L: FfiEventListener> EventHub<L> {
    /// The hub's invariant: the buffer holds at most
    /// [`EVENT_BUFFER_CAPACITY`] events.
    pub open spec fn wf(&self) -> bool {
        self.buffer.contents().len() <= EVENT_BUFFER_CAPACITY
    }

    /// A hub with no events, no listener and no tool names.
    pub fn new() -> (h: Self)
        ensures
            h.wf(),
            h.buffer.contents().len() == 0,
            h.next_id == 0,
            h.listener is None,
            h.skills.skills() == Map::<Seq<char>, Seq<char>>::empty(),
    {
        EventHub { buffer: EventBuffer::new(), next_id: 0, skills: ToolSkillMap::new(), listener: None }
    }

    /// Registers the listener, replacing any earlier one.
    pub fn register_event_listener(&mut self, listener: L)
        ensures
            final(self).listener == Some(listener),
            final(self).buffer == old(self).buffer,
            final(self).next_id == old(self).next_id,
            final(self).skills == old(self).skills,
    {
        self.listener = Some(listener);
    }

    /// Removes the listener.
    pub fn unregister_event_listener(&mut self)
        ensures
            final(self).listener is None,
            final(self).buffer == old(self).buffer,
            final(self).next_id == old(self).next_id,
            final(self).skills == old(self).skills,
    {
        self.listener = None;
    }

    /// Buffers an encoded event, hands it to the listener, and advances
    /// the event id (wrapping, as an atomic counter does).
    fn publish(&mut self, json: String)
        requires
            old(self).wf(),
        ensures
            final(self).wf(),
            final(self).buffer.contents() == buffered_after(old(self).buffer.contents(), json@),
            final(self).next_id == next_event_id(old(self).next_id),
            final(self).listener == old(self).listener,
            final(self).skills == old(self).skills,
    {
        self.buffer.record(json.clone());
        self.next_id = if self.next_id == u64::MAX {
            0
        } else {
            self.next_id + 1
        };
        match &self.listener {
            Some(l) => l.on_event(json),
            None => {},
        }
    }

    /// Records an observed event at `timestamp_ms`: it is encoded with the
    /// next id (and, for a tool event, the tool's skill), buffered and
    /// handed to the listener.
    pub fn record_event(&mut self, event: &ObserverEvent, timestamp_ms: i64)
        requires
            old(self).wf(),
        ensures
            final(self).wf(),
            final(self).buffer.contents() == buffered_after(
                old(self).buffer.contents(),
                event_json(
                    old(self).next_id,
                    timestamp_ms,
                    event_kind(*event),
                    event_data(*event, tool_skill(old(self).skills.skills(), *event)),
                ),
            ),
            final(self).next_id == next_event_id(old(self).next_id),
            final(self).listener == old(self).listener,
            final(self).skills == old(self).skills,
    {
        let skill = match event {
            ObserverEvent::ToolCall { tool, .. } => self.skills.skill_for_tool(tool.as_str()),
            ObserverEvent::ToolCallStart { tool } => self.skills.skill_for_tool(tool.as_str()),
            _ => None,
        };
        let json = match &skill {
            Some(s) => format_event_json(self.next_id, timestamp_ms, event, Some(s.as_str())),
            None => format_event_json(self.next_id, timestamp_ms, event, None),
        };
        proof {
            match *event {
                ObserverEvent::ToolCall { .. } => {},
                ObserverEvent::ToolCallStart { .. } => {},
                _ => {
                    assert(event_data(*event, None) == event_data(*event, tool_skill(old(self).skills.skills(), *event)));
                },
            }
        }
        self.publish(json);
    }

    /// Emits an application-level event at `timestamp_ms`: its kind is
    /// escaped and its data written as given.
    pub fn emit_custom_event(&mut self, kind: &str, data_json: &str, timestamp_ms: i64)
        requires
            old(self).wf(),
        ensures
            final(self).wf(),
            final(self).buffer.contents() == buffered_after(
                old(self).buffer.contents(),
                event_json(old(self).next_id, timestamp_ms, escape_json(kind@), data_json@),
            ),
            final(self).next_id == next_event_id(old(self).next_id),
            final(self).listener == old(self).listener,
            final(self).skills == old(self).skills,
    {
        let json = format_custom_event(self.next_id, timestamp_ms, kind, data_json);
        self.publish(json);
    }

    /// The most recent events as a JSON array string, oldest first.
    pub fn get_recent_events(&self, limit: u32) -> (r: String)
        ensures
            r@ == recent_json(self.buffer.contents(), limit as int),
    {
        self.buffer.recent_events(limit)
    }
}

/// The id after `id`: one more, wrapping to 0 after `u64::MAX` as an
/// atomic counter does, so every event recorded before the counter wraps
/// gets an id of its own.
pub open spec fn next_event_id(id: u64) -> u64 {
    if id == u64::MAX {
        0
    } else {
        (id + 1) as u64
    }
}

/// The skill of a tool event's tool, if it has one.
pub open spec fn tool_skill(skills: Map<Seq<char>, Seq<char>>, e: ObserverEvent) -> Option<Seq<char>> {
    match e {
        ObserverEvent::ToolCall { tool, .. } => if skills.contains_key(tool@) {
            Some(skills[tool@])
        } else {
            None
        },
        ObserverEvent::ToolCallStart { tool } => if skills.contains_key(tool@) {
            Some(skills[tool@])
        } else {
            None
        },
        _ => None,
    }
}

} // verus!
