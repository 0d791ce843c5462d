//! The agent's `eval_script` tool: the checks before a sandboxed Rhai run,
//! the manifest the run gets, and how its outcome is reported back.
//!
//! Running the script (on a blocking thread, with the host that routes
//! model calls) is the caller's work; this module decides what goes in
//! and what comes out.

use crate::scripting::discovery::manifest_views;
use crate::scripting::manifest::{
    agent_capabilities, build_agent_capabilities, default_limits, ManifestView, ScriptError,
    ScriptLimits, ScriptManifest, ScriptRuntimeKind,
};
use crate::strset::views;
use crate::text::{
    chars_of, concat2, contains_chars, contains_seq, decimal, decimal_string, owned, push_str,
    opt_str_view, string_of, to_lowercase, trim, trim_chars, unicode_lower,
};
use vstd::prelude::*;
use vstd::string::StringSliceAdditionalSpecFns;
use vstd::utf8::{encode_scalar, encode_utf8};

verus! {

/// Largest script source accepted, in bytes (128 KiB).
pub const MAX_SCRIPT_BYTES: usize = 131072;

/// Output longer than this many bytes is truncated (16 KiB).
pub const MAX_OUTPUT_BYTES: usize = 16384;

/// The tool's name as the agent sees it.
pub const TOOL_NAME: &'static str = "eval_script";

/// The tool's description as the agent sees it.
pub const TOOL_DESCRIPTION: &'static str = "Execute a Rhai script in a sandboxed environment. Use for batch data processing, multi-step computations, JSON manipulation, and composing multiple operations (memory, storage, tools) into a single call. Has access to: memory read/write, storage read/write, tool listing/invocation, cost/event reading, and on-device LLM (when available). 10M operation budget, 30s timeout. Returns JSON. Prefer this over shell for non-OS tasks.";

/// Evaluates inline Rhai scripts with a fixed safe capability set, for
/// agent tool-use loops that need batch computation.
pub struct EvalScriptTool;

/// What one tool call reports back to the agent.
#[derive(Debug, Clone, PartialEq, Eq)]
pub struct ToolResult {
    /// Whether the call succeeded.
    pub success: bool,
    /// The output shown to the agent.
    pub output: String,
    /// The error shown to the agent, on failure.
    pub error: Option<String>,
}

impl EvalScriptTool {
    /// A new (stateless) tool.
    pub fn new() -> (t: Self) {
        EvalScriptTool
    }

    /// The tool's name: `eval_script`.
    pub fn name(&self) -> (r: &'static str)
        ensures
            r@ == TOOL_NAME@,
    {
        TOOL_NAME
    }

    /// The tool's description.
    pub fn description(&self) -> (r: &'static str)
        ensures
            r@ == TOOL_DESCRIPTION@,
    {
        TOOL_DESCRIPTION
    }
}

/// A failed call with the given error and no output.
pub open spec fn failure(error: Seq<char>) -> (bool, Seq<char>, Option<Seq<char>>) {
    (false, Seq::empty(), Some(error))
}

/// The view of a tool result: success, output and error.
pub open spec fn result_view(r: ToolResult) -> (bool, Seq<char>, Option<Seq<char>>) {
    (r.success, r.output@, match r.error {
        Some(e) => Some(e@),
        None => None,
    })
}

/// How a call's `code` argument is answered before anything runs: a
/// missing argument is an error of the call itself; blank code and code
/// over [`MAX_SCRIPT_BYTES`] bytes are syntax errors reported to the
/// agent; anything else may run.
pub open spec fn precheck_spec(code: Option<Seq<char>>) -> Result<Option<(bool, Seq<char>, Option<Seq<char>>)>, Seq<char>> {
    match code {
        None => Err("Missing 'code' parameter"@),
        Some(c) => if trim(c).len() == 0 {
            Ok(Some(failure("SyntaxError: script is empty"@)))
        } else if encode_utf8(c).len() > MAX_SCRIPT_BYTES {
            Ok(Some(failure(
                "SyntaxError: script too large ("@ + decimal(encode_utf8(c).len()) + " bytes, max 128KB)"@,
            )))
        } else {
            Ok(None)
        },
    }
}

/// The view of a precheck's answer.
pub open spec fn precheck_view(r: Result<Option<ToolResult>, String>) -> Result<Option<(bool, Seq<char>, Option<Seq<char>>)>, Seq<char>> {
    match r {
        Err(e) => Err(e@),
        Ok(None) => Ok(None),
        Ok(Some(t)) => Ok(Some(result_view(t))),
    }
}

/// Checks a call's `code` argument; see [`precheck_spec`]. `Ok(None)`
/// means the code may run.
pub fn precheck_code(code: Option<&str>) -> (r: Result<Option<ToolResult>, String>)
    ensures
        precheck_view(r) == precheck_spec(opt_str_view(code)),
{
    let code = match code {
        None => {
            return Err(owned("Missing 'code' parameter"));
        },
        Some(c) => c,
    };
    let trimmed = trim_chars(chars_of(code).as_slice());
    if trimmed.len() == 0 {
        return Ok(Some(ToolResult {
            success: false,
            output: String::new(),
            error: Some(owned("SyntaxError: script is empty")),
        }));
    }
    let n = code.as_bytes().len();
    if n > MAX_SCRIPT_BYTES {
        let mut e = concat2("SyntaxError: script too large (", decimal_string(n as u64).as_str());
        push_str(&mut e, " bytes, max 128KB)");
        return Ok(Some(ToolResult { success: false, output: String::new(), error: Some(e) }));
    }
    Ok(None)
}

/// The manifest an agent evaluation runs under: named `agent`, version
/// `0.0.0`, Rhai, no script file, exactly the agent capabilities, with
/// the raised operation budget.
pub open spec fn agent_manifest_view(nano_available: bool) -> ManifestView {
    ManifestView {
        name: "agent"@,
        version: "0.0.0"@,
        description: None,
        runtime: ScriptRuntimeKind::Rhai,
        entrypoint: None,
        script_path: None,
        capabilities: agent_capabilities(nano_available),
        explicit_capabilities: true,
        triggers: Seq::empty(),
        limits: ScriptLimits { max_operations: 10_000_000, ..default_limits() },
    }
}

/// Builds the manifest for one agent evaluation; `model.chat` is granted
/// only while on-device Nano is available.
pub fn agent_eval_manifest(nano_available: bool) -> (m: ScriptManifest)
    ensures
        m@ == agent_manifest_view(nano_available),
{
    let mut m = ScriptManifest::default();
    m.name = owned("agent");
    m.version = owned("0.0.0");
    m.runtime = ScriptRuntimeKind::Rhai;
    m.script_path = None;
    m.capabilities = build_agent_capabilities(nano_available);
    m.explicit_capabilities = true;
    m.limits = ScriptLimits::for_agent_eval();
    assert(m@ =~= agent_manifest_view(nano_available));
    m
}

// ── Reporting the outcome ────────────────────────────────────────────

/// Text the agent sees when a run hit the wall-clock limit.
pub const TIMEOUT_TEXT: &'static str = "Timeout: script exceeded 30s wall-clock limit";

/// Text the agent sees when a run hit the operation budget.
pub const OPERATION_LIMIT_TEXT: &'static str = "OperationLimit: exceeded 10000000 operations";

/// The error category the agent sees for a script error. Host errors
/// whose lower-cased text mentions a time-out, or both operations and a
/// limit, are reported as such; other errors are syntax, capability or
/// runtime errors.
pub open spec fn error_category(e: ScriptError) -> Seq<char> {
    match e {
        ScriptError::ValidationError { detail } => "SyntaxError: "@ + detail@,
        ScriptError::CapabilityDenied { operation, capability } => "CapabilityDenied: "@ + operation@
            + " requires "@ + capability@,
        ScriptError::HostError { detail, .. } => {
            let lower = unicode_lower(detail@);
            if contains_seq(lower, "timed out"@) || contains_seq(lower, "timeout"@) {
                TIMEOUT_TEXT@
            } else if contains_seq(lower, "operations"@) && contains_seq(lower, "limit"@) {
                OPERATION_LIMIT_TEXT@
            } else {
                "RuntimeError: "@ + detail@
            }
        },
        ScriptError::InvalidArgument { detail } => "RuntimeError: "@ + detail@,
        ScriptError::InternalState { detail } => "RuntimeError: internal error: "@ + detail@,
    }
}

/// Maps a script error to the category the agent sees; see
/// [`error_category`].
pub fn categorize_script_error(err: &ScriptError) -> (r: String)
    ensures
        r@ == error_category(*err),
{
    match err {
        ScriptError::ValidationError { detail } => concat2("SyntaxError: ", detail.as_str()),
        ScriptError::CapabilityDenied { operation, capability } => {
            let mut r = concat2("CapabilityDenied: ", operation.as_str());
            push_str(&mut r, " requires ");
            push_str(&mut r, capability.as_str());
            r
        },
        ScriptError::HostError { detail, .. } => {
            let lower = to_lowercase(detail.as_str());
            let l = chars_of(lower.as_str());
            let timed_out = chars_of("timed out");
            let timeout = chars_of("timeout");
            let operations = chars_of("operations");
            let limit = chars_of("limit");
            if contains_chars(l.as_slice(), timed_out.as_slice()) || contains_chars(
                l.as_slice(),
                timeout.as_slice(),
            ) {
                owned(TIMEOUT_TEXT)
            } else if contains_chars(l.as_slice(), operations.as_slice()) && contains_chars(
                l.as_slice(),
                limit.as_slice(),
            ) {
                owned(OPERATION_LIMIT_TEXT)
            } else {
                concat2("RuntimeError: ", detail.as_str())
            }
        },
        ScriptError::InvalidArgument { detail } => concat2("RuntimeError: ", detail.as_str()),
        ScriptError::InternalState { detail } => concat2("RuntimeError: internal error: ", detail.as_str()),
    }
}

/// The longest prefix of `s` whose UTF-8 encoding fits in `budget` bytes:
/// where `str::floor_char_boundary` cuts.
pub open spec fn fitting_prefix(s: Seq<char>, budget: int) -> Seq<char>
    decreases s.len(),
{
    if s.len() == 0 {
        s
    } else {
        let w = encode_scalar(s[0] as u32).len() as int;
        if w <= budget {
            seq![s[0]] + fitting_prefix(s.drop_first(), budget - w)
        } else {
            Seq::empty()
        }
    }
}

/// The output the agent sees: the whole output when its UTF-8 encoding
/// has at most [`MAX_OUTPUT_BYTES`] bytes, else the prefix that fits,
/// followed by a note of the full size.
pub open spec fn display_output(out: Seq<char>) -> Seq<char> {
    let n = encode_utf8(out).len();
    if n > MAX_OUTPUT_BYTES {
        fitting_prefix(out, MAX_OUTPUT_BYTES as int) + "...[truncated, "@ + decimal(n) + " bytes total]"@
    } else {
        out
    }
}

/// The UTF-8 width of a character.
fn utf8_width(c: char) -> (w: usize)
    ensures
        w == encode_scalar(c as u32).len(),
{
    proof {
        vstd::utf8::char_is_scalar(c);
    }
    let u = c as u32;
    if u <= 0x7F {
        1
    } else if u <= 0x7FF {
        2
    } else if u <= 0xFFFF {
        3
    } else {
        4
    }
}

proof fn lemma_fitting_prefix_step(s: Seq<char>, budget: int, i: int, used: int)
    requires
        0 <= i < s.len(),
        fitting_prefix(s, budget) == s.subrange(0, i) + fitting_prefix(s.subrange(i, s.len() as int), budget - used),
        used + encode_scalar(s[i] as u32).len() <= budget,
    ensures
        fitting_prefix(s, budget) == s.subrange(0, i + 1) + fitting_prefix(
            s.subrange(i + 1, s.len() as int),
            budget - (used + encode_scalar(s[i] as u32).len()),
        ),
{
    let rest = s.subrange(i, s.len() as int);
    assert(rest[0] == s[i]);
    assert(rest.drop_first() =~= s.subrange(i + 1, s.len() as int));
    assert(s.subrange(0, i) + seq![s[i]] =~= s.subrange(0, i + 1));
    assert(s.subrange(0, i) + (seq![s[i]] + fitting_prefix(s.subrange(i + 1, s.len() as int), budget - used
        - encode_scalar(s[i] as u32).len())) =~= s.subrange(0, i + 1) + fitting_prefix(
        s.subrange(i + 1, s.len() as int),
        budget - (used + encode_scalar(s[i] as u32).len()),
    ));
}

/// The characters of `s` that fit in `budget` bytes.
fn fitting_chars(s: &[char], budget: usize) -> (r: Vec<char>)
    ensures
        r@ == fitting_prefix(s@, budget as int),
{
    let mut i: usize = 0;
    let mut used: usize = 0;
    assert(s@.subrange(0, 0) + fitting_prefix(s@.subrange(0, s@.len() as int), budget as int) =~= fitting_prefix(
        s@,
        budget as int,
    )) by {
        assert(s@.subrange(0, s@.len() as int) =~= s@);
    }
    while i < s.len()
        invariant_except_break
            used <= budget,
            i <= s@.len(),
            fitting_prefix(s@, budget as int) == s@.subrange(0, i as int) + fitting_prefix(
                s@.subrange(i as int, s@.len() as int),
                budget - used,
            ),
        ensures
            fitting_prefix(s@, budget as int) == s@.subrange(0, i as int),
            i <= s@.len(),
        decreases s.len() - i,
    {
        let w = utf8_width(s[i]);
        if w > budget - used {
            proof {
                let rest = s@.subrange(i as int, s@.len() as int);
                assert(rest[0] == s@[i as int]);
                assert(s@.subrange(0, i as int) + Seq::<char>::empty() =~= s@.subrange(0, i as int));
            }
            break;
        }
        proof {
            lemma_fitting_prefix_step(s@, budget as int, i as int, used as int);
        }
        used = used + w;
        i = i + 1;
    }
    proof {
        if i == s.len() {
            assert(s@.subrange(i as int, s@.len() as int) =~= Seq::<char>::empty());
            assert(s@.subrange(0, i as int) + Seq::<char>::empty() =~= s@.subrange(0, i as int));
        }
    }
    let mut r: Vec<char> = Vec::new();
    let mut k: usize = 0;
    while k < i
        invariant
            k <= i <= s@.len(),
            r@ == s@.subrange(0, k as int),
        decreases i - k,
    {
        r.push(s[k]);
        assert(s@.subrange(0, k + 1) =~= s@.subrange(0, k as int).push(s@[k as int]));
        k = k + 1;
    }
    r
}

/// Formats a run's output for the agent; see [`display_output`].
pub fn format_output(output: String) -> (r: String)
    ensures
        r@ == display_output(output@),
{
    let text = output.as_str();
    let n = text.as_bytes().len();
    if n > MAX_OUTPUT_BYTES {
        let prefix = fitting_chars(chars_of(text).as_slice(), MAX_OUTPUT_BYTES);
        let mut r = string_of(prefix.as_slice());
        push_str(&mut r, "...[truncated, ");
        push_str(&mut r, decimal_string(n as u64).as_str());
        push_str(&mut r, " bytes total]");
        r
    } else {
        output
    }
}

/// What a finished run reports: its formatted output on success, its
/// error category on failure.
pub open spec fn run_report(result: Result<String, ScriptError>) -> (bool, Seq<char>, Option<Seq<char>>) {
    match result {
        Ok(out) => (true, display_output(out@), None),
        Err(e) => failure(error_category(e)),
    }
}

/// Turns the outcome of a run into what the agent sees.
pub fn run_result(result: Result<String, ScriptError>) -> (r: ToolResult)
    ensures
        result_view(r) == run_report(result),
{
    match result {
        Ok(output) => ToolResult { success: true, output: format_output(output), error: None },
        Err(err) => ToolResult {
            success: false,
            output: String::new(),
            error: Some(categorize_script_error(&err)),
        },
    }
}

} // verus!
