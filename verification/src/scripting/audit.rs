//! Script audit-record helpers and error normalisation.

use crate::scripting::capabilities::{copy_strings, ScriptExecutionSession, CAPABILITY_DENIED_SENTINEL};
use crate::scripting::manifest::{ScriptAuditRecord, ScriptError, ScriptValidation};
use crate::strset::views;
use crate::text::{
    chars_of, contains_chars, contains_seq, find_char, find_char_from, find_chars_from, find_from,
    owned, string_of, sub_chars, trim, trim_chars,
};
use std::sync::{Arc, Mutex};
use vstd::prelude::*;

verus! {

/// `std::sync::Mutex`, carried through as an opaque value.
#[verifier::external_type_specification]
#[verifier::external_body]
#[verifier::reject_recursive_types(T)]
pub struct ExMutex<T: ?Sized>(Mutex<T>);

/// What releasing a shared execution session yields.
pub enum SessionRelease {
    /// This was the last reference and the lock was healthy.
    Released(ScriptExecutionSession),
    /// Other references to the session were still alive.
    StillShared,
    /// A thread panicked while holding the lock.
    Poisoned,
}

/// Takes the session out of its shared cell with `Arc::into_inner` and
/// `Mutex::into_inner`. Which outcome comes back depends on the other
/// references alive at run time, so nothing is stated of it.
#[verifier::external_body]
fn release_session(session: Arc<Mutex<ScriptExecutionSession>>) -> SessionRelease {
    match Arc::into_inner(session) {
        None => SessionRelease::StillShared,
        Some(mutex) => match mutex.into_inner() {
            Ok(s) => SessionRelease::Released(s),
            Err(_) => SessionRelease::Poisoned,
        },
    }
}

/// Turns a released session into its audit record, or reports why it
/// could not be released.
pub fn audit_from_release(release: SessionRelease, error: Option<String>) -> (r: Result<ScriptAuditRecord, ScriptError>)
    ensures
        match release {
            SessionRelease::Released(s) => r matches Ok(rec) && rec.success == (error is None)
                && rec.error == error && rec.script_name@ == s.name()
                && views(rec.attempted_capabilities@) == s.attempted()
                && views(rec.used_capabilities@) == s.used(),
            SessionRelease::StillShared => r matches Err(ScriptError::InternalState { detail })
                && detail@ == "script execution session still had outstanding references"@,
            SessionRelease::Poisoned => r matches Err(ScriptError::InternalState { detail })
                && detail@ == "script execution session mutex poisoned"@,
        },
{
    match release {
        SessionRelease::Released(session) => {
            let success = error.is_none();
            Ok(session.audit_record(success, error))
        },
        SessionRelease::StillShared => Err(ScriptError::InternalState {
            detail: owned("script execution session still had outstanding references"),
        }),
        SessionRelease::Poisoned => Err(ScriptError::InternalState {
            detail: owned("script execution session mutex poisoned"),
        }),
    }
}

/// Consumes the shared session at the end of a run and returns its audit
/// record; fails with [`ScriptError::InternalState`] when other references
/// to the session are still alive or its lock was poisoned.
pub fn consume_audit_record(session: Arc<Mutex<ScriptExecutionSession>>, error: Option<String>) -> (r: Result<ScriptAuditRecord, ScriptError>)
    ensures
        r matches Ok(rec) ==> rec.success == (error is None) && rec.error == error,
        r matches Err(e) ==> e is InternalState,
{
    let release = release_session(session);
    audit_from_release(release, error)
}

/// The audit record for a run that failed validation before it started.
pub fn validation_failure_audit(validation: &ScriptValidation, detail: String) -> (r: ScriptAuditRecord)
    ensures
        r.script_name@ == validation.manifest_name@,
        r.runtime == validation.runtime,
        !r.success,
        r.requested_capabilities@ == validation.requested_capabilities@,
        r.attempted_capabilities@.len() == 0,
        r.used_capabilities@.len() == 0,
        r.missing_capabilities@ == validation.missing_capabilities@,
        r.warnings@ == validation.warnings@,
        r.error == Some(detail),
        r.duration_ms == 0,
{
    ScriptAuditRecord {
        script_name: validation.manifest_name.clone(),
        runtime: validation.runtime,
        success: false,
        requested_capabilities: copy_strings(&validation.requested_capabilities),
        attempted_capabilities: Vec::new(),
        used_capabilities: Vec::new(),
        missing_capabilities: copy_strings(&validation.missing_capabilities),
        warnings: copy_strings(&validation.warnings),
        error: Some(detail),
        duration_ms: 0,
    }
}

/// Hook for script audit events. Audit telemetry is not persisted: script
/// successes and failures already reach the caller through the returned
/// value, so the hook records nothing.
pub fn record_script_audit_event(_event_type: &str, _record: &ScriptAuditRecord) {
}

/// The text between the first and the second occurrence of `sep` in `s`
/// (or the end of `s`), as `s.split(sep).nth(1)` yields it.
pub open spec fn second_piece(s: Seq<char>, sep: Seq<char>) -> Option<Seq<char>> {
    match find_from(s, sep, 0) {
        None => None,
        Some(k) => {
            let st = k + sep.len();
            match find_from(s, sep, st) {
                Some(k2) => Some(s.subrange(st, k2)),
                None => Some(s.subrange(st, s.len() as int)),
            }
        },
    }
}

/// A colon or a pipe: the characters stripped before the encoded pair.
pub open spec fn is_marker(c: char) -> bool {
    c == ':' || c == '|'
}

/// `s` without its leading colons and pipes.
pub open spec fn strip_marker_prefix(s: Seq<char>) -> Seq<char>
    decreases s.len(),
{
    if s.len() > 0 && is_marker(s[0]) {
        strip_marker_prefix(s.drop_first())
    } else {
        s
    }
}

/// The `(operation, capability)` pair encoded after the denial marker in an
/// engine error: the piece after the marker, trimmed, without leading `:`
/// and `|`, split at its first two pipes.
pub open spec fn denied_parts(detail: Seq<char>) -> Option<(Seq<char>, Seq<char>)> {
    match second_piece(detail, CAPABILITY_DENIED_SENTINEL@) {
        None => None,
        Some(piece) => {
            let e = strip_marker_prefix(trim(piece));
            match find_char_from(e, '|', 0) {
                None => None,
                Some(i) => match find_char_from(e, '|', i + 1) {
                    Some(j) => Some((e.subrange(0, i), e.subrange(i + 1, j))),
                    None => Some((e.subrange(0, i), e.subrange(i + 1, e.len() as int))),
                },
            }
        },
    }
}

/// Strips leading `:` and `|` characters.
fn strip_markers(s: &[char]) -> (r: Vec<char>)
    ensures
        r@ == strip_marker_prefix(s@),
{
    let mut i: usize = 0;
    assert(s@.subrange(0, s@.len() as int) =~= s@);
    while i < s.len() && (s[i] == ':' || s[i] == '|')
        invariant
            i <= s@.len(),
            strip_marker_prefix(s@.subrange(i as int, s@.len() as int)) == strip_marker_prefix(s@),
        decreases s.len() - i,
    {
        assert(s@.subrange(i as int, s@.len() as int).drop_first() =~= s@.subrange(i + 1, s@.len() as int));
        i = i + 1;
    }
    let r = sub_chars(s, i, s.len());
    proof {
        let t = s@.subrange(i as int, s@.len() as int);
        if t.len() > 0 {
            assert(t[0] == s@[i as int]);
        }
    }
    r
}

/// Maps an engine error text to a script error. A text carrying the
/// denial marker followed by `operation|capability` becomes
/// [`ScriptError::CapabilityDenied`]; other texts that mention a denied
/// capability become [`ScriptError::ValidationError`]; everything else is
/// a [`ScriptError::HostError`] of operation `script.eval`.
pub fn script_eval_error(detail: String) -> (r: ScriptError)
    ensures
        match denied_parts(detail@) {
            Some((o, c)) => r matches ScriptError::CapabilityDenied { operation, capability }
                && operation@ == o && capability@ == c,
            None => if contains_seq(detail@, "capability denied"@) {
                r == ScriptError::ValidationError { detail }
            } else {
                r matches ScriptError::HostError { operation, detail: d }
                    && operation@ == "script.eval"@ && d == detail
            },
        },
{
    let text = chars_of(detail.as_str());
    let sentinel = chars_of(CAPABILITY_DENIED_SENTINEL);
    if let Some(k) = find_chars_from(&text, &sentinel, 0) {
        assert(k + sentinel@.len() <= text@.len());
        assert(text@.len() == text.len());
        let st = k + sentinel.len();
        let end = match find_chars_from(&text, &sentinel, st) {
            Some(k2) => k2,
            None => text.len(),
        };
        let piece = sub_chars(&text, st, end);
        let trimmed = trim_chars(&piece);
        let encoded = strip_markers(&trimmed);
        if let Some(i) = find_char(&encoded, '|', 0) {
            let j = match find_char(&encoded, '|', i + 1) {
                Some(j) => j,
                None => encoded.len(),
            };
            let operation = sub_chars(&encoded, 0, i);
            let capability = sub_chars(&encoded, i + 1, j);
            return ScriptError::CapabilityDenied {
                operation: string_of(&operation),
                capability: string_of(&capability),
            };
        }
    }
    let marker = chars_of("capability denied");
    if contains_chars(&text, &marker) {
        ScriptError::ValidationError { detail }
    } else {
        ScriptError::HostError { operation: owned("script.eval"), detail }
    }
}

} // verus!
