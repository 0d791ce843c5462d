//! Capability inference from script source, manifest normalisation, and
//! the per-run execution session that enforces granted capabilities.

use crate::scripting::manifest::{
    operation_capability, operation_display_name, ScriptOperation,
    default_script_version, default_version, ScriptAuditRecord, ScriptError, ScriptManifest,
    ScriptRuntimeKind, ScriptValidation,
};
use crate::strset::{
    insert_sorted, is_sorted_set_of, lemma_is_sorted_enumeration, sorted_enumeration, sorted_set,
    strictly_sorted, views,
};
use crate::text::{chars_of, owned, trim, trim_chars};
use crate::clock::{clock_now, millis_since};
use std::time::Instant;
use vstd::prelude::*;

verus! {

/// Marker that the scripting engine embeds in an error to report a denied
/// capability as `<marker>|<operation>|<capability>`.
pub const CAPABILITY_DENIED_SENTINEL: &'static str = "__zero_capability_denied__";

// ---------------------------------------------------------------------------
// Membership and unique insertion
// ---------------------------------------------------------------------------

/// Whether the characters of `token` spell `lit`.
pub fn chars_equal_str(token: &[char], lit: &str) -> (r: bool)
    ensures
        r == (token@ == lit@),
{
    let l = chars_of(lit);
    crate::text::chars_eq(token, &l)
}

/// Whether some string of `values` has the characters of `value`.
pub fn contains_str(values: &Vec<String>, value: &str) -> (r: bool)
    ensures
        r == views(values@).contains(value@),
{
    let v = chars_of(value);
    let mut i: usize = 0;
    while i < values.len()
        invariant
            i <= values@.len(),
            v@ == value@,
            forall|j: int| 0 <= j < i ==> values@[j]@ != value@,
        decreases values.len() - i,
    {
        let e = chars_of(values[i].as_str());
        if crate::text::chars_eq(&e, &v) {
            assert(views(values@)[i as int] == value@);
            return true;
        }
        i = i + 1;
    }
    assert(!views(values@).contains(value@)) by {
        if views(values@).contains(value@) {
            let j = choose|j: int| 0 <= j < views(values@).len() && views(values@)[j] == value@;
            assert(values@[j]@ == value@);
        }
    }
    false
}

/// Appends `value` to `values` unless an equal string is already present.
pub fn push_unique(values: &mut Vec<String>, value: &str)
    ensures
        views(old(values)@).contains(value@) ==> final(values)@ == old(values)@,
        !views(old(values)@).contains(value@) ==> views(final(values)@) == views(old(values)@).push(value@),
{
    if !contains_str(values, value) {
        let ghost before = values@;
        values.push(owned(value));
        assert(views(values@) =~= views(before).push(value@));
    }
}

// ---------------------------------------------------------------------------
// Manifest normalisation
// ---------------------------------------------------------------------------

/// The name given to a manifest whose name is blank.
pub open spec fn normalized_name(name: Seq<char>) -> Seq<char> {
    if trim(name).len() == 0 {
        "inline-script"@
    } else {
        name
    }
}

/// The version kept for a manifest: blank versions become the default.
pub open spec fn normalized_version(version: Seq<char>) -> Seq<char> {
    if trim(version).len() == 0 {
        default_version()
    } else {
        version
    }
}

/// The capability list kept for a manifest: the inferred capabilities when
/// the manifest grants none and did not say its grant set is explicit, the
/// manifest's own capabilities sorted without repetitions otherwise.
pub open spec fn normalized_capabilities(
    caps: Seq<Seq<char>>,
    explicit: bool,
    inferred: Seq<Seq<char>>,
    result: Seq<Seq<char>>,
) -> bool {
    if caps.len() == 0 && !explicit {
        result == inferred
    } else {
        is_sorted_set_of(result, caps)
    }
}

/// `r` is `m` after normalisation with the inferred capabilities.
pub open spec fn normalizes(r: ScriptManifest, m: ScriptManifest, inferred: Seq<Seq<char>>) -> bool {
    &&& r.name@ == normalized_name(m.name@)
    &&& r.version@ == normalized_version(m.version@)
    &&& r.description == m.description
    &&& r.runtime == m.runtime
    &&& r.entrypoint == m.entrypoint
    &&& r.script_path == m.script_path
    &&& r.explicit_capabilities == m.explicit_capabilities
    &&& r.triggers == m.triggers
    &&& r.limits == m.limits
    &&& normalized_capabilities(views(m.capabilities@), m.explicit_capabilities, inferred, views(r.capabilities@))
}

/// Fills in a blank name and version and settles the capability list of a
/// present manifest.
fn normalize_present(manifest: ScriptManifest, inferred: Vec<String>) -> (r: ScriptManifest)
    ensures
        normalizes(r, manifest, views(inferred@)),
{
    let ghost m0 = manifest;
    let mut manifest = manifest;
    let name_chars = chars_of(manifest.name.as_str());
    if trim_chars(&name_chars).len() == 0 {
        manifest.name = owned("inline-script");
    }
    let version_chars = chars_of(manifest.version.as_str());
    if trim_chars(&version_chars).len() == 0 {
        manifest.version = default_script_version();
    }
    if manifest.capabilities.len() == 0 && !manifest.explicit_capabilities {
        manifest.capabilities = inferred;
    } else {
        manifest.capabilities = sorted_set(&manifest.capabilities);
    }
    manifest
}

/// Normalises an optional manifest: a missing manifest becomes the default
/// one; a blank name becomes `"inline-script"`, a blank version `"0.1.0"`;
/// an empty, non-explicit capability list takes the inferred capabilities,
/// any other list is sorted with repetitions removed.
pub fn normalize_manifest(manifest: Option<ScriptManifest>, inferred_capabilities: Vec<String>) -> (r: ScriptManifest)
    ensures
        match manifest {
            Some(m) => normalizes(r, m, views(inferred_capabilities@)),
            None => {
                &&& r.name@ == "inline-script"@
                &&& r.version@ == default_version()
                &&& r.description is None
                &&& r.runtime == ScriptRuntimeKind::Rhai
                &&& r.entrypoint is None
                &&& r.script_path is None
                &&& !r.explicit_capabilities
                &&& r.triggers@.len() == 0
                &&& r.limits == crate::scripting::manifest::default_limits()
                &&& views(r.capabilities@) == views(inferred_capabilities@)
            },
        },
{
    let m = match manifest {
        Some(m) => m,
        None => ScriptManifest::default(),
    };
    let r = normalize_present(m, inferred_capabilities);
    proof {
        if manifest is None {
            assert(trim(m.name@) =~= Seq::<char>::empty()) by {
                assert(m.name@ =~= Seq::<char>::empty());
            }
            assert(trim(m.version@) =~= Seq::<char>::empty()) by {
                assert(m.version@ =~= Seq::<char>::empty());
            }
            assert(views(m.capabilities@).len() == 0);
        }
    }
    r
}

// ---------------------------------------------------------------------------
// Capability inference
// ---------------------------------------------------------------------------

/// ASCII letter or underscore: a character that can start an identifier.
pub open spec fn ident_start(c: char) -> bool {
    ('a' <= c <= 'z') || ('A' <= c <= 'Z') || c == '_'
}

/// ASCII letter, digit or underscore: a character that can continue an
/// identifier.
pub open spec fn ident_continue(c: char) -> bool {
    ident_start(c) || ('0' <= c <= '9')
}

/// `u8::is_ascii_whitespace`: space, tab, line feed, form feed, carriage return.
pub open spec fn ascii_whitespace(c: char) -> bool {
    c == ' ' || c == '\t' || c == '\n' || c == '\x0C' || c == '\r'
}

/// Whether `byte` can start an identifier (ASCII letter or underscore).
pub fn is_identifier_start(byte: u8) -> (r: bool)
    ensures
        r == ident_start(byte as char),
{
    (97 <= byte && byte <= 122) || (65 <= byte && byte <= 90) || byte == 95
}

/// Whether `byte` can continue an identifier (ASCII letter, digit or
/// underscore).
pub fn is_identifier_continue(byte: u8) -> (r: bool)
    ensures
        r == ident_continue(byte as char),
{
    is_identifier_start(byte) || (48 <= byte && byte <= 57)
}

fn char_ident_start(c: char) -> (r: bool)
    ensures
        r == ident_start(c),
{
    ('a' <= c && c <= 'z') || ('A' <= c && c <= 'Z') || c == '_'
}

fn char_ident_continue(c: char) -> (r: bool)
    ensures
        r == ident_continue(c),
{
    char_ident_start(c) || ('0' <= c && c <= '9')
}

/// End of the identifier characters from `i` on.
pub open spec fn ident_end(s: Seq<char>, i: int) -> int
    decreases s.len() - i,
{
    if 0 <= i < s.len() && ident_continue(s[i]) {
        ident_end(s, i + 1)
    } else {
        i
    }
}

/// End of a `::`-separated path whose first identifier ends at `i`. A `::`
/// that is not followed by an identifier is still part of the path.
pub open spec fn path_end(s: Seq<char>, i: int) -> int
    decreases s.len() - i,
{
    if 0 <= i && i + 1 < s.len() && s[i] == ':' && s[i + 1] == ':' {
        let j = i + 2;
        if j >= s.len() || !ident_start(s[j]) {
            j
        } else {
            proof {
                lemma_ident_end_bounds(s, j + 1);
            }
            path_end(s, ident_end(s, j + 1))
        }
    } else {
        i
    }
}

/// End of the token that starts with an identifier character at `start`.
pub open spec fn token_end(s: Seq<char>, start: int) -> int {
    path_end(s, ident_end(s, start + 1))
}

/// First position from `i` on that holds no ASCII whitespace.
pub open spec fn skip_whitespace(s: Seq<char>, i: int) -> int
    decreases s.len() - i,
{
    if 0 <= i < s.len() && ascii_whitespace(s[i]) {
        skip_whitespace(s, i + 1)
    } else {
        i
    }
}

/// The capability a script function name requires, if it is one the host
/// exposes.
pub open spec fn binding_capability(t: Seq<char>) -> Option<Seq<char>> {
    if t == "status"@ {
        Some("agent.read"@)
    } else if t == "version"@ {
        Some("agent.read"@)
    } else if t == "send"@ {
        Some("model.chat"@)
    } else if t == "send_vision"@ {
        Some("model.chat"@)
    } else if t == "validate_config"@ {
        Some("config.validate"@)
    } else if t == "config"@ {
        Some("agent.read"@)
    } else if t == "bind"@ {
        Some("channel.write"@)
    } else if t == "allowlist"@ {
        Some("channel.read"@)
    } else if t == "swap_provider"@ {
        Some("provider.write"@)
    } else if t == "health"@ {
        Some("agent.read"@)
    } else if t == "health_component"@ {
        Some("agent.read"@)
    } else if t == "doctor"@ {
        Some("agent.read"@)
    } else if t == "cost"@ {
        Some("cost.read"@)
    } else if t == "cost_daily"@ {
        Some("cost.read"@)
    } else if t == "cost_monthly"@ {
        Some("cost.read"@)
    } else if t == "budget"@ {
        Some("cost.read"@)
    } else if t == "events"@ {
        Some("events.read"@)
    } else if t == "cron_list"@ {
        Some("cron.read"@)
    } else if t == "cron_get"@ {
        Some("cron.read"@)
    } else if t == "cron_add"@ {
        Some("cron.write"@)
    } else if t == "cron_oneshot"@ {
        Some("cron.write"@)
    } else if t == "cron_add_at"@ {
        Some("cron.write"@)
    } else if t == "cron_add_every"@ {
        Some("cron.write"@)
    } else if t == "cron_remove"@ {
        Some("cron.write"@)
    } else if t == "cron_pause"@ {
        Some("cron.write"@)
    } else if t == "cron_resume"@ {
        Some("cron.write"@)
    } else if t == "skills"@ {
        Some("skills.read"@)
    } else if t == "skill_tools"@ {
        Some("skills.read"@)
    } else if t == "skill_install"@ {
        Some("skills.write"@)
    } else if t == "skill_remove"@ {
        Some("skills.write"@)
    } else if t == "tools"@ {
        Some("tools.read"@)
    } else if t == "memories"@ {
        Some("memory.read"@)
    } else if t == "memories_by_category"@ {
        Some("memory.read"@)
    } else if t == "memory_recall"@ {
        Some("memory.read"@)
    } else if t == "memory_forget"@ {
        Some("memory.write"@)
    } else if t == "memory_count"@ {
        Some("memory.read"@)
    } else if t == "estop"@ {
        Some("agent.control"@)
    } else if t == "estop_status"@ {
        Some("agent.control"@)
    } else if t == "estop_resume"@ {
        Some("agent.control"@)
    } else if t == "traces"@ {
        Some("trace.read"@)
    } else if t == "traces_filter"@ {
        Some("trace.read"@)
    } else if t == "auth_list"@ {
        Some("auth.read"@)
    } else if t == "auth_remove"@ {
        Some("auth.write"@)
    } else if t == "models"@ {
        Some("model.read"@)
    } else if t == "models_with_key"@ {
        Some("model.read"@)
    } else if t == "models_full"@ {
        Some("model.read"@)
    } else if t == "agent::status"@ {
        Some("agent.read"@)
    } else if t == "agent::version"@ {
        Some("agent.read"@)
    } else if t == "agent::send"@ {
        Some("model.chat"@)
    } else if t == "agent::send_vision"@ {
        Some("model.chat"@)
    } else if t == "agent::validate_config"@ {
        Some("config.validate"@)
    } else if t == "agent::config"@ {
        Some("agent.read"@)
    } else if t == "agent::health"@ {
        Some("agent.read"@)
    } else if t == "agent::health_component"@ {
        Some("agent.read"@)
    } else if t == "agent::doctor"@ {
        Some("agent.read"@)
    } else if t == "tools::list"@ {
        Some("tools.read"@)
    } else if t == "memory::list"@ {
        Some("memory.read"@)
    } else if t == "memory::list_category"@ {
        Some("memory.read"@)
    } else if t == "memory::recall"@ {
        Some("memory.read"@)
    } else if t == "memory::forget"@ {
        Some("memory.write"@)
    } else if t == "memory::count"@ {
        Some("memory.read"@)
    } else if t == "events::recent"@ {
        Some("events.read"@)
    } else if t == "events::traces"@ {
        Some("trace.read"@)
    } else if t == "events::traces_filter"@ {
        Some("trace.read"@)
    } else if t == "skills::list"@ {
        Some("skills.read"@)
    } else if t == "skills::tools"@ {
        Some("skills.read"@)
    } else if t == "skills::install"@ {
        Some("skills.write"@)
    } else if t == "skills::remove"@ {
        Some("skills.write"@)
    } else if t == "tool_call"@ {
        Some("tools.call"@)
    } else if t == "tools::call"@ {
        Some("tools.call"@)
    } else if t == "storage_read"@ {
        Some("storage.read"@)
    } else if t == "storage_write"@ {
        Some("storage.write"@)
    } else if t == "storage_delete"@ {
        Some("storage.write"@)
    } else if t == "storage::read"@ {
        Some("storage.read"@)
    } else if t == "storage::write"@ {
        Some("storage.write"@)
    } else if t == "storage::delete"@ {
        Some("storage.write"@)
    } else {
        None
    }
}


/// The length, the first two and the last three characters of a name:
/// enough to tell the host's script-facing names apart.
spec fn name_fingerprint(s: Seq<char>) -> (nat, char, char, char, char, char) {
    (s.len(), s[0], s[1], s[s.len() - 1], s[s.len() - 2], s[s.len() - 3])
}

proof fn lemma_binding_name_fingerprints()
    ensures
        name_fingerprint("status"@) == (6nat, 's', 't', 's', 'u', 't'),
        name_fingerprint("version"@) == (7nat, 'v', 'e', 'n', 'o', 'i'),
        name_fingerprint("send"@) == (4nat, 's', 'e', 'd', 'n', 'e'),
        name_fingerprint("send_vision"@) == (11nat, 's', 'e', 'n', 'o', 'i'),
        name_fingerprint("validate_config"@) == (15nat, 'v', 'a', 'g', 'i', 'f'),
        name_fingerprint("config"@) == (6nat, 'c', 'o', 'g', 'i', 'f'),
        name_fingerprint("bind"@) == (4nat, 'b', 'i', 'd', 'n', 'i'),
        name_fingerprint("allowlist"@) == (9nat, 'a', 'l', 't', 's', 'i'),
        name_fingerprint("swap_provider"@) == (13nat, 's', 'w', 'r', 'e', 'd'),
        name_fingerprint("health"@) == (6nat, 'h', 'e', 'h', 't', 'l'),
        name_fingerprint("health_component"@) == (16nat, 'h', 'e', 't', 'n', 'e'),
        name_fingerprint("doctor"@) == (6nat, 'd', 'o', 'r', 'o', 't'),
        name_fingerprint("cost"@) == (4nat, 'c', 'o', 't', 's', 'o'),
        name_fingerprint("cost_daily"@) == (10nat, 'c', 'o', 'y', 'l', 'i'),
        name_fingerprint("cost_monthly"@) == (12nat, 'c', 'o', 'y', 'l', 'h'),
        name_fingerprint("budget"@) == (6nat, 'b', 'u', 't', 'e', 'g'),
        name_fingerprint("events"@) == (6nat, 'e', 'v', 's', 't', 'n'),
        name_fingerprint("cron_list"@) == (9nat, 'c', 'r', 't', 's', 'i'),
        name_fingerprint("cron_get"@) == (8nat, 'c', 'r', 't', 'e', 'g'),
        name_fingerprint("cron_add"@) == (8nat, 'c', 'r', 'd', 'd', 'a'),
        name_fingerprint("cron_oneshot"@) == (12nat, 'c', 'r', 't', 'o', 'h'),
        name_fingerprint("cron_add_at"@) == (11nat, 'c', 'r', 't', 'a', '_'),
        name_fingerprint("cron_add_every"@) == (14nat, 'c', 'r', 'y', 'r', 'e'),
        name_fingerprint("cron_remove"@) == (11nat, 'c', 'r', 'e', 'v', 'o'),
        name_fingerprint("cron_pause"@) == (10nat, 'c', 'r', 'e', 's', 'u'),
        name_fingerprint("cron_resume"@) == (11nat, 'c', 'r', 'e', 'm', 'u'),
        name_fingerprint("skills"@) == (6nat, 's', 'k', 's', 'l', 'l'),
        name_fingerprint("skill_tools"@) == (11nat, 's', 'k', 's', 'l', 'o'),
        name_fingerprint("skill_install"@) == (13nat, 's', 'k', 'l', 'l', 'a'),
        name_fingerprint("skill_remove"@) == (12nat, 's', 'k', 'e', 'v', 'o'),
        name_fingerprint("tools"@) == (5nat, 't', 'o', 's', 'l', 'o'),
        name_fingerprint("memories"@) == (8nat, 'm', 'e', 's', 'e', 'i'),
        name_fingerprint("memories_by_category"@) == (20nat, 'm', 'e', 'y', 'r', 'o'),
        name_fingerprint("memory_recall"@) == (13nat, 'm', 'e', 'l', 'l', 'a'),
        name_fingerprint("memory_forget"@) == (13nat, 'm', 'e', 't', 'e', 'g'),
        name_fingerprint("memory_count"@) == (12nat, 'm', 'e', 't', 'n', 'u'),
        name_fingerprint("estop"@) == (5nat, 'e', 's', 'p', 'o', 't'),
        name_fingerprint("estop_status"@) == (12nat, 'e', 's', 's', 'u', 't'),
        name_fingerprint("estop_resume"@) == (12nat, 'e', 's', 'e', 'm', 'u'),
        name_fingerprint("traces"@) == (6nat, 't', 'r', 's', 'e', 'c'),
        name_fingerprint("traces_filter"@) == (13nat, 't', 'r', 'r', 'e', 't'),
        name_fingerprint("auth_list"@) == (9nat, 'a', 'u', 't', 's', 'i'),
        name_fingerprint("auth_remove"@) == (11nat, 'a', 'u', 'e', 'v', 'o'),
        name_fingerprint("models"@) == (6nat, 'm', 'o', 's', 'l', 'e'),
        name_fingerprint("models_with_key"@) == (15nat, 'm', 'o', 'y', 'e', 'k'),
        name_fingerprint("models_full"@) == (11nat, 'm', 'o', 'l', 'l', 'u'),
        name_fingerprint("agent::status"@) == (13nat, 'a', 'g', 's', 'u', 't'),
        name_fingerprint("agent::version"@) == (14nat, 'a', 'g', 'n', 'o', 'i'),
        name_fingerprint("agent::send"@) == (11nat, 'a', 'g', 'd', 'n', 'e'),
        name_fingerprint("agent::send_vision"@) == (18nat, 'a', 'g', 'n', 'o', 'i'),
        name_fingerprint("agent::validate_config"@) == (22nat, 'a', 'g', 'g', 'i', 'f'),
        name_fingerprint("agent::config"@) == (13nat, 'a', 'g', 'g', 'i', 'f'),
        name_fingerprint("agent::health"@) == (13nat, 'a', 'g', 'h', 't', 'l'),
        name_fingerprint("agent::health_component"@) == (23nat, 'a', 'g', 't', 'n', 'e'),
        name_fingerprint("agent::doctor"@) == (13nat, 'a', 'g', 'r', 'o', 't'),
        name_fingerprint("tools::list"@) == (11nat, 't', 'o', 't', 's', 'i'),
        name_fingerprint("memory::list"@) == (12nat, 'm', 'e', 't', 's', 'i'),
        name_fingerprint("memory::list_category"@) == (21nat, 'm', 'e', 'y', 'r', 'o'),
        name_fingerprint("memory::recall"@) == (14nat, 'm', 'e', 'l', 'l', 'a'),
        name_fingerprint("memory::forget"@) == (14nat, 'm', 'e', 't', 'e', 'g'),
        name_fingerprint("memory::count"@) == (13nat, 'm', 'e', 't', 'n', 'u'),
        name_fingerprint("events::recent"@) == (14nat, 'e', 'v', 't', 'n', 'e'),
        name_fingerprint("events::traces"@) == (14nat, 'e', 'v', 's', 'e', 'c'),
        name_fingerprint("events::traces_filter"@) == (21nat, 'e', 'v', 'r', 'e', 't'),
        name_fingerprint("skills::list"@) == (12nat, 's', 'k', 't', 's', 'i'),
        name_fingerprint("skills::tools"@) == (13nat, 's', 'k', 's', 'l', 'o'),
        name_fingerprint("skills::install"@) == (15nat, 's', 'k', 'l', 'l', 'a'),
        name_fingerprint("skills::remove"@) == (14nat, 's', 'k', 'e', 'v', 'o'),
        name_fingerprint("tool_call"@) == (9nat, 't', 'o', 'l', 'l', 'a'),
        name_fingerprint("tools::call"@) == (11nat, 't', 'o', 'l', 'l', 'a'),
        name_fingerprint("storage_read"@) == (12nat, 's', 't', 'd', 'a', 'e'),
        name_fingerprint("storage_write"@) == (13nat, 's', 't', 'e', 't', 'i'),
        name_fingerprint("storage_delete"@) == (14nat, 's', 't', 'e', 't', 'e'),
        name_fingerprint("storage::read"@) == (13nat, 's', 't', 'd', 'a', 'e'),
        name_fingerprint("storage::write"@) == (14nat, 's', 't', 'e', 't', 'i'),
        name_fingerprint("storage::delete"@) == (15nat, 's', 't', 'e', 't', 'e'),
{
    reveal_strlit("status");
    reveal_strlit("version");
    reveal_strlit("send");
    reveal_strlit("send_vision");
    reveal_strlit("validate_config");
    reveal_strlit("config");
    reveal_strlit("bind");
    reveal_strlit("allowlist");
    reveal_strlit("swap_provider");
    reveal_strlit("health");
    reveal_strlit("health_component");
    reveal_strlit("doctor");
    reveal_strlit("cost");
    reveal_strlit("cost_daily");
    reveal_strlit("cost_monthly");
    reveal_strlit("budget");
    reveal_strlit("events");
    reveal_strlit("cron_list");
    reveal_strlit("cron_get");
    reveal_strlit("cron_add");
    reveal_strlit("cron_oneshot");
    reveal_strlit("cron_add_at");
    reveal_strlit("cron_add_every");
    reveal_strlit("cron_remove");
    reveal_strlit("cron_pause");
    reveal_strlit("cron_resume");
    reveal_strlit("skills");
    reveal_strlit("skill_tools");
    reveal_strlit("skill_install");
    reveal_strlit("skill_remove");
    reveal_strlit("tools");
    reveal_strlit("memories");
    reveal_strlit("memories_by_category");
    reveal_strlit("memory_recall");
    reveal_strlit("memory_forget");
    reveal_strlit("memory_count");
    reveal_strlit("estop");
    reveal_strlit("estop_status");
    reveal_strlit("estop_resume");
    reveal_strlit("traces");
    reveal_strlit("traces_filter");
    reveal_strlit("auth_list");
    reveal_strlit("auth_remove");
    reveal_strlit("models");
    reveal_strlit("models_with_key");
    reveal_strlit("models_full");
    reveal_strlit("agent::status");
    reveal_strlit("agent::version");
    reveal_strlit("agent::send");
    reveal_strlit("agent::send_vision");
    reveal_strlit("agent::validate_config");
    reveal_strlit("agent::config");
    reveal_strlit("agent::health");
    reveal_strlit("agent::health_component");
    reveal_strlit("agent::doctor");
    reveal_strlit("tools::list");
    reveal_strlit("memory::list");
    reveal_strlit("memory::list_category");
    reveal_strlit("memory::recall");
    reveal_strlit("memory::forget");
    reveal_strlit("memory::count");
    reveal_strlit("events::recent");
    reveal_strlit("events::traces");
    reveal_strlit("events::traces_filter");
    reveal_strlit("skills::list");
    reveal_strlit("skills::tools");
    reveal_strlit("skills::install");
    reveal_strlit("skills::remove");
    reveal_strlit("tool_call");
    reveal_strlit("tools::call");
    reveal_strlit("storage_read");
    reveal_strlit("storage_write");
    reveal_strlit("storage_delete");
    reveal_strlit("storage::read");
    reveal_strlit("storage::write");
    reveal_strlit("storage::delete");
}

/// A call by an operation's script-facing name infers exactly the
/// capability the operation is enforced with: the binding of each
/// operation's display name is that operation's capability.
pub proof fn lemma_display_name_binds_capability(op: ScriptOperation)
    ensures
        binding_capability(operation_display_name(op)) == Some(operation_capability(op)),
{
    lemma_binding_name_fingerprints();
}

/// The capability demanded by the token starting at `start`: its binding,
/// when the token is followed (after optional whitespace) by `(`.
pub open spec fn call_capability(s: Seq<char>, start: int) -> Option<Seq<char>> {
    let e = token_end(s, start);
    let w = skip_whitespace(s, e);
    if w < s.len() && s[w] == '(' {
        binding_capability(s.subrange(start, e))
    } else {
        None
    }
}

/// The capabilities inferred from `s` when scanning from position `i`:
/// tokens start at identifier characters; other characters are skipped one
/// at a time; each token that is called contributes its binding.
pub open spec fn inferred_from(s: Seq<char>, i: int) -> Set<Seq<char>>
    decreases s.len() - i,
{
    if i < 0 || i >= s.len() {
        Set::empty()
    } else if ident_start(s[i]) {
        proof {
            lemma_ident_end_bounds(s, i + 1);
            lemma_path_end_bounds(s, ident_end(s, i + 1));
        }
        let rest = inferred_from(s, token_end(s, i));
        match call_capability(s, i) {
            Some(c) => rest.insert(c),
            None => rest,
        }
    } else {
        inferred_from(s, i + 1)
    }
}

/// The capabilities inferred from a whole source text.
pub open spec fn inferred_capabilities(source: Seq<char>) -> Set<Seq<char>> {
    inferred_from(source, 0)
}

/// A name that starts with an identifier character and holds only
/// identifier characters.
pub open spec fn is_identifier(t: Seq<char>) -> bool {
    &&& t.len() > 0
    &&& ident_start(t[0])
    &&& forall|i: int| 0 <= i < t.len() ==> ident_continue(#[trigger] t[i])
}

proof fn lemma_ident_end_of_call(t: Seq<char>, i: int)
    requires
        is_identifier(t),
        0 <= i <= t.len(),
    ensures
        ident_end(t + seq!['(', ')'], i) == t.len(),
    decreases t.len() - i,
{
    let s = t + seq!['(', ')'];
    if i < t.len() {
        assert(s[i] == t[i]);
        lemma_ident_end_of_call(t, i + 1);
    } else {
        assert(s[i] == '(');
    }
}

/// Calling an identifier infers exactly its binding: the source `t()`
/// demands the capability `t` is bound to, and nothing when `t` is not a
/// host function.
pub proof fn lemma_call_infers_binding(t: Seq<char>)
    requires
        is_identifier(t),
    ensures
        inferred_capabilities(t + seq!['(', ')']) == (match binding_capability(t) {
            Some(c) => Set::<Seq<char>>::empty().insert(c),
            None => Set::<Seq<char>>::empty(),
        }),
{
    let s = t + seq!['(', ')'];
    let n = t.len() as int;
    lemma_ident_end_of_call(t, 1);
    assert(s[0] == t[0]);
    assert(s[n] == '(');
    assert(s[n + 1] == ')');
    assert(path_end(s, n) == n);
    assert(token_end(s, 0) == n);
    assert(skip_whitespace(s, n) == n);
    assert(s.subrange(0, n) =~= t);
    assert(call_capability(s, 0) == binding_capability(t));
    assert(inferred_from(s, n + 2) == Set::<Seq<char>>::empty());
    assert(inferred_from(s, n + 1) == Set::<Seq<char>>::empty());
    assert(inferred_from(s, n) == Set::<Seq<char>>::empty());
    match binding_capability(t) {
        Some(c) => assert(inferred_from(s, 0) =~= Set::<Seq<char>>::empty().insert(c)),
        None => assert(inferred_from(s, 0) =~= Set::<Seq<char>>::empty()),
    }
}

/// Every operation's script-facing name is an identifier.
pub proof fn lemma_display_name_is_identifier(op: ScriptOperation)
    ensures
        is_identifier(operation_display_name(op)),
{
    match op {
        ScriptOperation::Status => {
            reveal_strlit("status");
            let d = "status"@;
            assert forall|i: int| 0 <= i < d.len() implies ident_continue(#[trigger] d[i]) by {}
        },
        ScriptOperation::Version => {
            reveal_strlit("version");
            let d = "version"@;
            assert forall|i: int| 0 <= i < d.len() implies ident_continue(#[trigger] d[i]) by {}
        },
        ScriptOperation::SendMessage => {
            reveal_strlit("send");
            let d = "send"@;
            assert forall|i: int| 0 <= i < d.len() implies ident_continue(#[trigger] d[i]) by {}
        },
        ScriptOperation::SendVision => {
            reveal_strlit("send_vision");
            let d = "send_vision"@;
            assert forall|i: int| 0 <= i < d.len() implies ident_continue(#[trigger] d[i]) by {}
        },
        ScriptOperation::ValidateConfig => {
            reveal_strlit("validate_config");
            let d = "validate_config"@;
            assert forall|i: int| 0 <= i < d.len() implies ident_continue(#[trigger] d[i]) by {}
        },
        ScriptOperation::RunningConfig => {
            reveal_strlit("config");
            let d = "config"@;
            assert forall|i: int| 0 <= i < d.len() implies ident_continue(#[trigger] d[i]) by {}
        },
        ScriptOperation::BindChannelIdentity => {
            reveal_strlit("bind");
            let d = "bind"@;
            assert forall|i: int| 0 <= i < d.len() implies ident_continue(#[trigger] d[i]) by {}
        },
        ScriptOperation::ChannelAllowlist => {
            reveal_strlit("allowlist");
            let d = "allowlist"@;
            assert forall|i: int| 0 <= i < d.len() implies ident_continue(#[trigger] d[i]) by {}
        },
        ScriptOperation::SwapProvider => {
            reveal_strlit("swap_provider");
            let d = "swap_provider"@;
            assert forall|i: int| 0 <= i < d.len() implies ident_continue(#[trigger] d[i]) by {}
        },
        ScriptOperation::HealthDetail => {
            reveal_strlit("health");
            let d = "health"@;
            assert forall|i: int| 0 <= i < d.len() implies ident_continue(#[trigger] d[i]) by {}
        },
        ScriptOperation::HealthComponent => {
            reveal_strlit("health_component");
            let d = "health_component"@;
            assert forall|i: int| 0 <= i < d.len() implies ident_continue(#[trigger] d[i]) by {}
        },
        ScriptOperation::DoctorChannels => {
            reveal_strlit("doctor");
            let d = "doctor"@;
            assert forall|i: int| 0 <= i < d.len() implies ident_continue(#[trigger] d[i]) by {}
        },
        ScriptOperation::CostSummary => {
            reveal_strlit("cost");
            let d = "cost"@;
            assert forall|i: int| 0 <= i < d.len() implies ident_continue(#[trigger] d[i]) by {}
        },
        ScriptOperation::DailyCost => {
            reveal_strlit("cost_daily");
            let d = "cost_daily"@;
            assert forall|i: int| 0 <= i < d.len() implies ident_continue(#[trigger] d[i]) by {}
        },
        ScriptOperation::MonthlyCost => {
            reveal_strlit("cost_monthly");
            let d = "cost_monthly"@;
            assert forall|i: int| 0 <= i < d.len() implies ident_continue(#[trigger] d[i]) by {}
        },
        ScriptOperation::CheckBudget => {
            reveal_strlit("budget");
            let d = "budget"@;
            assert forall|i: int| 0 <= i < d.len() implies ident_continue(#[trigger] d[i]) by {}
        },
        ScriptOperation::RecentEvents => {
            reveal_strlit("events");
            let d = "events"@;
            assert forall|i: int| 0 <= i < d.len() implies ident_continue(#[trigger] d[i]) by {}
        },
        ScriptOperation::ListCronJobs => {
            reveal_strlit("cron_list");
            let d = "cron_list"@;
            assert forall|i: int| 0 <= i < d.len() implies ident_continue(#[trigger] d[i]) by {}
        },
        ScriptOperation::GetCronJob => {
            reveal_strlit("cron_get");
            let d = "cron_get"@;
            assert forall|i: int| 0 <= i < d.len() implies ident_continue(#[trigger] d[i]) by {}
        },
        ScriptOperation::AddCronJob => {
            reveal_strlit("cron_add");
            let d = "cron_add"@;
            assert forall|i: int| 0 <= i < d.len() implies ident_continue(#[trigger] d[i]) by {}
        },
        ScriptOperation::AddOneShotJob => {
            reveal_strlit("cron_oneshot");
            let d = "cron_oneshot"@;
            assert forall|i: int| 0 <= i < d.len() implies ident_continue(#[trigger] d[i]) by {}
        },
        ScriptOperation::AddCronJobAt => {
            reveal_strlit("cron_add_at");
            let d = "cron_add_at"@;
            assert forall|i: int| 0 <= i < d.len() implies ident_continue(#[trigger] d[i]) by {}
        },
        ScriptOperation::AddCronJobEvery => {
            reveal_strlit("cron_add_every");
            let d = "cron_add_every"@;
            assert forall|i: int| 0 <= i < d.len() implies ident_continue(#[trigger] d[i]) by {}
        },
        ScriptOperation::RemoveCronJob => {
            reveal_strlit("cron_remove");
            let d = "cron_remove"@;
            assert forall|i: int| 0 <= i < d.len() implies ident_continue(#[trigger] d[i]) by {}
        },
        ScriptOperation::PauseCronJob => {
            reveal_strlit("cron_pause");
            let d = "cron_pause"@;
            assert forall|i: int| 0 <= i < d.len() implies ident_continue(#[trigger] d[i]) by {}
        },
        ScriptOperation::ResumeCronJob => {
            reveal_strlit("cron_resume");
            let d = "cron_resume"@;
            assert forall|i: int| 0 <= i < d.len() implies ident_continue(#[trigger] d[i]) by {}
        },
        ScriptOperation::ListSkills => {
            reveal_strlit("skills");
            let d = "skills"@;
            assert forall|i: int| 0 <= i < d.len() implies ident_continue(#[trigger] d[i]) by {}
        },
        ScriptOperation::GetSkillTools => {
            reveal_strlit("skill_tools");
            let d = "skill_tools"@;
            assert forall|i: int| 0 <= i < d.len() implies ident_continue(#[trigger] d[i]) by {}
        },
        ScriptOperation::InstallSkill => {
            reveal_strlit("skill_install");
            let d = "skill_install"@;
            assert forall|i: int| 0 <= i < d.len() implies ident_continue(#[trigger] d[i]) by {}
        },
        ScriptOperation::RemoveSkill => {
            reveal_strlit("skill_remove");
            let d = "skill_remove"@;
            assert forall|i: int| 0 <= i < d.len() implies ident_continue(#[trigger] d[i]) by {}
        },
        ScriptOperation::ListTools => {
            reveal_strlit("tools");
            let d = "tools"@;
            assert forall|i: int| 0 <= i < d.len() implies ident_continue(#[trigger] d[i]) by {}
        },
        ScriptOperation::ListMemories => {
            reveal_strlit("memories");
            let d = "memories"@;
            assert forall|i: int| 0 <= i < d.len() implies ident_continue(#[trigger] d[i]) by {}
        },
        ScriptOperation::ListMemoriesByCategory => {
            reveal_strlit("memories_by_category");
            let d = "memories_by_category"@;
            assert forall|i: int| 0 <= i < d.len() implies ident_continue(#[trigger] d[i]) by {}
        },
        ScriptOperation::RecallMemory => {
            reveal_strlit("memory_recall");
            let d = "memory_recall"@;
            assert forall|i: int| 0 <= i < d.len() implies ident_continue(#[trigger] d[i]) by {}
        },
        ScriptOperation::ForgetMemory => {
            reveal_strlit("memory_forget");
            let d = "memory_forget"@;
            assert forall|i: int| 0 <= i < d.len() implies ident_continue(#[trigger] d[i]) by {}
        },
        ScriptOperation::MemoryCount => {
            reveal_strlit("memory_count");
            let d = "memory_count"@;
            assert forall|i: int| 0 <= i < d.len() implies ident_continue(#[trigger] d[i]) by {}
        },
        ScriptOperation::EngageEStop => {
            reveal_strlit("estop");
            let d = "estop"@;
            assert forall|i: int| 0 <= i < d.len() implies ident_continue(#[trigger] d[i]) by {}
        },
        ScriptOperation::GetEStopStatus => {
            reveal_strlit("estop_status");
            let d = "estop_status"@;
            assert forall|i: int| 0 <= i < d.len() implies ident_continue(#[trigger] d[i]) by {}
        },
        ScriptOperation::ResumeEStop => {
            reveal_strlit("estop_resume");
            let d = "estop_resume"@;
            assert forall|i: int| 0 <= i < d.len() implies ident_continue(#[trigger] d[i]) by {}
        },
        ScriptOperation::QueryTraces => {
            reveal_strlit("traces");
            let d = "traces"@;
            assert forall|i: int| 0 <= i < d.len() implies ident_continue(#[trigger] d[i]) by {}
        },
        ScriptOperation::QueryTracesByFilter => {
            reveal_strlit("traces_filter");
            let d = "traces_filter"@;
            assert forall|i: int| 0 <= i < d.len() implies ident_continue(#[trigger] d[i]) by {}
        },
        ScriptOperation::ListAuthProfiles => {
            reveal_strlit("auth_list");
            let d = "auth_list"@;
            assert forall|i: int| 0 <= i < d.len() implies ident_continue(#[trigger] d[i]) by {}
        },
        ScriptOperation::RemoveAuthProfile => {
            reveal_strlit("auth_remove");
            let d = "auth_remove"@;
            assert forall|i: int| 0 <= i < d.len() implies ident_continue(#[trigger] d[i]) by {}
        },
        ScriptOperation::DiscoverModels => {
            reveal_strlit("models");
            let d = "models"@;
            assert forall|i: int| 0 <= i < d.len() implies ident_continue(#[trigger] d[i]) by {}
        },
        ScriptOperation::DiscoverModelsWithKey => {
            reveal_strlit("models_with_key");
            let d = "models_with_key"@;
            assert forall|i: int| 0 <= i < d.len() implies ident_continue(#[trigger] d[i]) by {}
        },
        ScriptOperation::DiscoverModelsWithKeyAndBaseUrl => {
            reveal_strlit("models_full");
            let d = "models_full"@;
            assert forall|i: int| 0 <= i < d.len() implies ident_continue(#[trigger] d[i]) by {}
        },
        ScriptOperation::InvokeTool => {
            reveal_strlit("tool_call");
            let d = "tool_call"@;
            assert forall|i: int| 0 <= i < d.len() implies ident_continue(#[trigger] d[i]) by {}
        },
        ScriptOperation::ReadStorage => {
            reveal_strlit("storage_read");
            let d = "storage_read"@;
            assert forall|i: int| 0 <= i < d.len() implies ident_continue(#[trigger] d[i]) by {}
        },
        ScriptOperation::WriteStorage => {
            reveal_strlit("storage_write");
            let d = "storage_write"@;
            assert forall|i: int| 0 <= i < d.len() implies ident_continue(#[trigger] d[i]) by {}
        },
        ScriptOperation::DeleteStorage => {
            reveal_strlit("storage_delete");
            let d = "storage_delete"@;
            assert forall|i: int| 0 <= i < d.len() implies ident_continue(#[trigger] d[i]) by {}
        },
    }
}

/// Distinct operations have distinct script-facing names.
pub proof fn lemma_display_names_distinct(a: ScriptOperation, b: ScriptOperation)
    requires
        a != b,
    ensures
        operation_display_name(a) != operation_display_name(b),
{
    lemma_binding_name_fingerprints();
    if operation_display_name(a) == operation_display_name(b) {
        assert(name_fingerprint(operation_display_name(a)) == name_fingerprint(operation_display_name(b)));
    }
}

/// The operation a namespaced host function (`module::name`) calls, as
/// the runtime's `agent`, `tools`, `memory`, `events`, `skills` and
/// `storage` modules register them.
pub open spec fn namespaced_operation(t: Seq<char>) -> Option<ScriptOperation> {
    if t == "agent::status"@ {
        Some(ScriptOperation::Status)
    } else if t == "agent::version"@ {
        Some(ScriptOperation::Version)
    } else if t == "agent::send"@ {
        Some(ScriptOperation::SendMessage)
    } else if t == "agent::send_vision"@ {
        Some(ScriptOperation::SendVision)
    } else if t == "agent::validate_config"@ {
        Some(ScriptOperation::ValidateConfig)
    } else if t == "agent::config"@ {
        Some(ScriptOperation::RunningConfig)
    } else if t == "agent::health"@ {
        Some(ScriptOperation::HealthDetail)
    } else if t == "agent::health_component"@ {
        Some(ScriptOperation::HealthComponent)
    } else if t == "agent::doctor"@ {
        Some(ScriptOperation::DoctorChannels)
    } else if t == "tools::list"@ {
        Some(ScriptOperation::ListTools)
    } else if t == "tools::call"@ {
        Some(ScriptOperation::InvokeTool)
    } else if t == "memory::list"@ {
        Some(ScriptOperation::ListMemories)
    } else if t == "memory::list_category"@ {
        Some(ScriptOperation::ListMemoriesByCategory)
    } else if t == "memory::recall"@ {
        Some(ScriptOperation::RecallMemory)
    } else if t == "memory::forget"@ {
        Some(ScriptOperation::ForgetMemory)
    } else if t == "memory::count"@ {
        Some(ScriptOperation::MemoryCount)
    } else if t == "events::recent"@ {
        Some(ScriptOperation::RecentEvents)
    } else if t == "events::traces"@ {
        Some(ScriptOperation::QueryTraces)
    } else if t == "events::traces_filter"@ {
        Some(ScriptOperation::QueryTracesByFilter)
    } else if t == "skills::list"@ {
        Some(ScriptOperation::ListSkills)
    } else if t == "skills::tools"@ {
        Some(ScriptOperation::GetSkillTools)
    } else if t == "skills::install"@ {
        Some(ScriptOperation::InstallSkill)
    } else if t == "skills::remove"@ {
        Some(ScriptOperation::RemoveSkill)
    } else if t == "storage::read"@ {
        Some(ScriptOperation::ReadStorage)
    } else if t == "storage::write"@ {
        Some(ScriptOperation::WriteStorage)
    } else if t == "storage::delete"@ {
        Some(ScriptOperation::DeleteStorage)
    } else {
        None
    }
}

/// Every namespaced host function infers the capability of the operation
/// it calls, the same capability as that operation's flat name: a call to
/// `memory::forget` needs `memory.write`, like `memory_forget`.
pub proof fn lemma_namespaced_alias_binds_operation_capability(t: Seq<char>)
    ensures
        namespaced_operation(t) is Some ==> binding_capability(t) == Some(
            operation_capability(namespaced_operation(t)->0),
        ),
        namespaced_operation(t) is Some ==> binding_capability(t) == binding_capability(
            operation_display_name(namespaced_operation(t)->0),
        ),
{
    lemma_binding_name_fingerprints();
    if namespaced_operation(t) is Some {
        lemma_display_name_binds_capability(namespaced_operation(t)->0);
    }
}

/// A script that calls an operation by its script-facing name infers
/// exactly the capability that operation is enforced with.
pub proof fn lemma_call_by_display_name_infers_capability(op: ScriptOperation)
    ensures
        inferred_capabilities(operation_display_name(op) + seq!['(', ')']) == Set::<Seq<char>>::empty().insert(
            operation_capability(op),
        ),
{
    lemma_display_name_is_identifier(op);
    lemma_display_name_binds_capability(op);
    lemma_call_infers_binding(operation_display_name(op));
}

pub proof fn lemma_ident_end_bounds(s: Seq<char>, i: int)
    requires
        0 <= i <= s.len(),
    ensures
        i <= ident_end(s, i) <= s.len(),
    decreases s.len() - i,
{
    if 0 <= i < s.len() && ident_continue(s[i]) {
        lemma_ident_end_bounds(s, i + 1);
    }
}

pub proof fn lemma_path_end_bounds(s: Seq<char>, i: int)
    requires
        0 <= i <= s.len(),
    ensures
        i <= path_end(s, i) <= s.len(),
    decreases s.len() - i,
{
    if 0 <= i && i + 1 < s.len() && s[i] == ':' && s[i + 1] == ':' {
        let j = i + 2;
        if j >= s.len() || !ident_start(s[j]) {
        } else {
            lemma_ident_end_bounds(s, j + 1);
            lemma_path_end_bounds(s, ident_end(s, j + 1));
        }
    }
}

pub proof fn lemma_skip_whitespace_bounds(s: Seq<char>, i: int)
    requires
        0 <= i <= s.len(),
    ensures
        i <= skip_whitespace(s, i) <= s.len(),
    decreases s.len() - i,
{
    if 0 <= i < s.len() && ascii_whitespace(s[i]) {
        lemma_skip_whitespace_bounds(s, i + 1);
    }
}

/// Executable [`ident_end`].
fn scan_ident_end(s: &[char], i: usize) -> (r: usize)
    requires
        i <= s@.len(),
    ensures
        r as int == ident_end(s@, i as int),
        i <= r <= s@.len(),
{
    let mut k = i;
    while k < s.len() && char_ident_continue(s[k])
        invariant
            i <= k <= s@.len(),
            ident_end(s@, k as int) == ident_end(s@, i as int),
        decreases s.len() - k,
    {
        k = k + 1;
    }
    k
}

/// Executable [`token_end`].
fn scan_token_end(s: &[char], start: usize) -> (r: usize)
    requires
        start < s.len(),
    ensures
        r as int == token_end(s@, start as int),
        start < r <= s@.len(),
{
    let mut k = scan_ident_end(s, start + 1);
    proof { lemma_path_end_bounds(s@, k as int); }
    while k < s.len() && k + 1 < s.len() && s[k] == ':' && s[k + 1] == ':'
        invariant
            start < k <= s@.len(),
            path_end(s@, k as int) == token_end(s@, start as int),
        decreases s.len() - k,
    {
        let j = k + 2;
        if j >= s.len() || !char_ident_start(s[j]) {
            return j;
        }
        k = scan_ident_end(s, j + 1);
    }
    k
}

/// Executable [`skip_whitespace`].
fn scan_whitespace(s: &[char], i: usize) -> (r: usize)
    requires
        i <= s@.len(),
    ensures
        r as int == skip_whitespace(s@, i as int),
        i <= r <= s@.len(),
{
    let mut k = i;
    while k < s.len() && (s[k] == ' ' || s[k] == '\t' || s[k] == '\n' || s[k] == '\x0C' || s[k] == '\r')
        invariant
            i <= k <= s@.len(),
            skip_whitespace(s@, k as int) == skip_whitespace(s@, i as int),
        decreases s.len() - k,
    {
        k = k + 1;
    }
    k
}

/// Executable [`binding_capability`].
fn lookup_binding(token: &[char]) -> (r: Option<&'static str>)
    ensures
        match r {
            Some(c) => binding_capability(token@) == Some(c@),
            None => binding_capability(token@) is None,
        },
{
    if chars_equal_str(token, "status") {
        Some("agent.read")
    } else if chars_equal_str(token, "version") {
        Some("agent.read")
    } else if chars_equal_str(token, "send") {
        Some("model.chat")
    } else if chars_equal_str(token, "send_vision") {
        Some("model.chat")
    } else if chars_equal_str(token, "validate_config") {
        Some("config.validate")
    } else if chars_equal_str(token, "config") {
        Some("agent.read")
    } else if chars_equal_str(token, "bind") {
        Some("channel.write")
    } else if chars_equal_str(token, "allowlist") {
        Some("channel.read")
    } else if chars_equal_str(token, "swap_provider") {
        Some("provider.write")
    } else if chars_equal_str(token, "health") {
        Some("agent.read")
    } else if chars_equal_str(token, "health_component") {
        Some("agent.read")
    } else if chars_equal_str(token, "doctor") {
        Some("agent.read")
    } else if chars_equal_str(token, "cost") {
        Some("cost.read")
    } else if chars_equal_str(token, "cost_daily") {
        Some("cost.read")
    } else if chars_equal_str(token, "cost_monthly") {
        Some("cost.read")
    } else if chars_equal_str(token, "budget") {
        Some("cost.read")
    } else if chars_equal_str(token, "events") {
        Some("events.read")
    } else if chars_equal_str(token, "cron_list") {
        Some("cron.read")
    } else if chars_equal_str(token, "cron_get") {
        Some("cron.read")
    } else if chars_equal_str(token, "cron_add") {
        Some("cron.write")
    } else if chars_equal_str(token, "cron_oneshot") {
        Some("cron.write")
    } else if chars_equal_str(token, "cron_add_at") {
        Some("cron.write")
    } else if chars_equal_str(token, "cron_add_every") {
        Some("cron.write")
    } else if chars_equal_str(token, "cron_remove") {
        Some("cron.write")
    } else if chars_equal_str(token, "cron_pause") {
        Some("cron.write")
    } else if chars_equal_str(token, "cron_resume") {
        Some("cron.write")
    } else if chars_equal_str(token, "skills") {
        Some("skills.read")
    } else if chars_equal_str(token, "skill_tools") {
        Some("skills.read")
    } else if chars_equal_str(token, "skill_install") {
        Some("skills.write")
    } else if chars_equal_str(token, "skill_remove") {
        Some("skills.write")
    } else if chars_equal_str(token, "tools") {
        Some("tools.read")
    } else if chars_equal_str(token, "memories") {
        Some("memory.read")
    } else if chars_equal_str(token, "memories_by_category") {
        Some("memory.read")
    } else if chars_equal_str(token, "memory_recall") {
        Some("memory.read")
    } else if chars_equal_str(token, "memory_forget") {
        Some("memory.write")
    } else if chars_equal_str(token, "memory_count") {
        Some("memory.read")
    } else if chars_equal_str(token, "estop") {
        Some("agent.control")
    } else if chars_equal_str(token, "estop_status") {
        Some("agent.control")
    } else if chars_equal_str(token, "estop_resume") {
        Some("agent.control")
    } else if chars_equal_str(token, "traces") {
        Some("trace.read")
    } else if chars_equal_str(token, "traces_filter") {
        Some("trace.read")
    } else if chars_equal_str(token, "auth_list") {
        Some("auth.read")
    } else if chars_equal_str(token, "auth_remove") {
        Some("auth.write")
    } else if chars_equal_str(token, "models") {
        Some("model.read")
    } else if chars_equal_str(token, "models_with_key") {
        Some("model.read")
    } else if chars_equal_str(token, "models_full") {
        Some("model.read")
    } else if chars_equal_str(token, "agent::status") {
        Some("agent.read")
    } else if chars_equal_str(token, "agent::version") {
        Some("agent.read")
    } else if chars_equal_str(token, "agent::send") {
        Some("model.chat")
    } else if chars_equal_str(token, "agent::send_vision") {
        Some("model.chat")
    } else if chars_equal_str(token, "agent::validate_config") {
        Some("config.validate")
    } else if chars_equal_str(token, "agent::config") {
        Some("agent.read")
    } else if chars_equal_str(token, "agent::health") {
        Some("agent.read")
    } else if chars_equal_str(token, "agent::health_component") {
        Some("agent.read")
    } else if chars_equal_str(token, "agent::doctor") {
        Some("agent.read")
    } else if chars_equal_str(token, "tools::list") {
        Some("tools.read")
    } else if chars_equal_str(token, "memory::list") {
        Some("memory.read")
    } else if chars_equal_str(token, "memory::list_category") {
        Some("memory.read")
    } else if chars_equal_str(token, "memory::recall") {
        Some("memory.read")
    } else if chars_equal_str(token, "memory::forget") {
        Some("memory.write")
    } else if chars_equal_str(token, "memory::count") {
        Some("memory.read")
    } else if chars_equal_str(token, "events::recent") {
        Some("events.read")
    } else if chars_equal_str(token, "events::traces") {
        Some("trace.read")
    } else if chars_equal_str(token, "events::traces_filter") {
        Some("trace.read")
    } else if chars_equal_str(token, "skills::list") {
        Some("skills.read")
    } else if chars_equal_str(token, "skills::tools") {
        Some("skills.read")
    } else if chars_equal_str(token, "skills::install") {
        Some("skills.write")
    } else if chars_equal_str(token, "skills::remove") {
        Some("skills.write")
    } else if chars_equal_str(token, "tool_call") {
        Some("tools.call")
    } else if chars_equal_str(token, "tools::call") {
        Some("tools.call")
    } else if chars_equal_str(token, "storage_read") {
        Some("storage.read")
    } else if chars_equal_str(token, "storage_write") {
        Some("storage.write")
    } else if chars_equal_str(token, "storage_delete") {
        Some("storage.write")
    } else if chars_equal_str(token, "storage::read") {
        Some("storage.read")
    } else if chars_equal_str(token, "storage::write") {
        Some("storage.write")
    } else if chars_equal_str(token, "storage::delete") {
        Some("storage.write")
    } else {
        None
    }
}

/// Infers the capabilities a Rhai source calls for: every host function
/// name (flat, such as `send`, or namespaced, such as `memory::recall`) that
/// is called in the source adds its capability. The result is sorted and
/// free of repetitions.
pub fn infer_capabilities(source: &str) -> (r: Vec<String>)
    ensures
        strictly_sorted(views(r@)),
        views(r@).to_set() == inferred_capabilities(source@),
        views(r@) == sorted_enumeration(inferred_capabilities(source@)),
{
    let s = chars_of(source);
    let mut caps: Vec<String> = Vec::new();
    let mut index: usize = 0;
    while index < s.len()
        invariant
            index <= s@.len(),
            s@ == source@,
            strictly_sorted(views(caps@)),
            views(caps@).to_set().union(inferred_from(s@, index as int)) == inferred_from(s@, 0),
        decreases s.len() - index,
    {
        if char_ident_start(s[index]) {
            let start = index;
            let end = scan_token_end(&s, start);
            let w = scan_whitespace(&s, end);
            let ghost before = views(caps@).to_set();
            if w < s.len() && s[w] == '(' {
                let token = slice_chars(&s, start, end);
                match lookup_binding(&token) {
                    Some(c) => {
                        insert_sorted(&mut caps, owned(c));
                    },
                    None => {},
                }
            }
            proof {
                let rest = inferred_from(s@, end as int);
                match call_capability(s@, start as int) {
                    Some(c) => {
                        assert(views(caps@).to_set() == before.insert(c));
                        assert(views(caps@).to_set().union(rest) =~= before.union(rest.insert(c)));
                    },
                    None => {
                        assert(views(caps@).to_set() == before);
                    },
                }
            }
            index = end;
        } else {
            index = index + 1;
        }
    }
    assert(views(caps@).to_set().union(inferred_from(s@, index as int)) =~= views(caps@).to_set());
    proof {
        lemma_is_sorted_enumeration(views(caps@));
    }
    caps
}

/// Copies `s[from..to]`.
fn slice_chars(s: &[char], from: usize, to: usize) -> (r: Vec<char>)
    requires
        from <= to <= s@.len(),
    ensures
        r@ == s@.subrange(from as int, to as int),
{
    let mut r: Vec<char> = Vec::new();
    let mut i = from;
    while i < to
        invariant
            from <= i <= to <= s@.len(),
            r@ == s@.subrange(from as int, i as int),
        decreases to - i,
    {
        r.push(s[i]);
        assert(s@.subrange(from as int, i + 1) == s@.subrange(from as int, i as int).push(s@[i as int]));
        i = i + 1;
    }
    r
}


// ---------------------------------------------------------------------------
// Execution session
// ---------------------------------------------------------------------------

/// Copies a vector of strings element by element.
pub fn copy_strings(v: &Vec<String>) -> (r: Vec<String>)
    ensures
        r@ == v@,
{
    let mut r: Vec<String> = Vec::new();
    let mut i: usize = 0;
    while i < v.len()
        invariant
            i <= v@.len(),
            r@ == v@.take(i as int),
        decreases v.len() - i,
    {
        r.push(v[i].clone());
        assert(v@.take(i + 1) == v@.take(i as int).push(v@[i as int]));
        i = i + 1;
    }
    assert(v@.take(v.len() as int) == v@);
    r
}

/// Tracks the capabilities one script run is granted, attempts and uses.
pub struct ScriptExecutionSession {
    manifest_name: String,
    runtime: ScriptRuntimeKind,
    granted_capabilities: Vec<String>,
    requested_capabilities: Vec<String>,
    missing_capabilities: Vec<String>,
    warnings: Vec<String>,
    attempted_capabilities: Vec<String>,
    used_capabilities: Vec<String>,
    started_at: Instant,
}

impl ScriptExecutionSession {
    /// The name of the manifest the run executes under.
    pub fn manifest_name(&self) -> (r: String)
        ensures
            r@ == self.name(),
    {
        self.manifest_name.clone()
    }

    /// The capabilities granted for this run.
    pub closed spec fn granted(&self) -> Set<Seq<char>> {
        views(self.granted_capabilities@).to_set()
    }

    /// The capabilities attempted so far, in first-attempt order.
    pub closed spec fn attempted(&self) -> Seq<Seq<char>> {
        views(self.attempted_capabilities@)
    }

    /// The capabilities used so far, in first-use order.
    pub closed spec fn used(&self) -> Seq<Seq<char>> {
        views(self.used_capabilities@)
    }

    /// The capabilities requested by the validation the session started from.
    pub closed spec fn requested(&self) -> Seq<Seq<char>> {
        views(self.requested_capabilities@)
    }

    /// The name of the manifest being run.
    pub closed spec fn name(&self) -> Seq<char> {
        self.manifest_name@
    }

    /// The runtime the session runs under.
    pub closed spec fn runtime_kind(&self) -> ScriptRuntimeKind {
        self.runtime
    }

    /// The missing capabilities carried over from validation.
    pub closed spec fn missing_list(&self) -> Seq<String> {
        self.missing_capabilities@
    }

    /// The warnings carried over from validation.
    pub closed spec fn warning_list(&self) -> Seq<String> {
        self.warnings@
    }

    /// The session's bookkeeping invariant: the granted set is kept sorted,
    /// and every used capability was granted and attempted; attempted and
    /// used capabilities are each listed once.
    pub closed spec fn wf(&self) -> bool {
        &&& strictly_sorted(views(self.granted_capabilities@))
        &&& forall|c: Seq<char>| #[trigger] self.used().contains(c) ==> self.granted().contains(c) && self.attempted().contains(c)
        &&& self.attempted().no_duplicates()
        &&& self.used().no_duplicates()
    }

    /// The manifest name, runtime and requested capabilities the session
    /// was built from.
    pub closed spec fn started_from(&self, validation: ScriptValidation) -> bool {
        &&& self.manifest_name@ == validation.manifest_name@
        &&& self.runtime == validation.runtime
        &&& self.requested_capabilities@ == validation.requested_capabilities@
        &&& self.missing_capabilities@ == validation.missing_capabilities@
        &&& self.warnings@ == validation.warnings@
    }

    /// Starts a session that grants exactly the capabilities the validation
    /// requested.
    pub fn new(validation: &ScriptValidation) -> (r: Self)
        ensures
            r.wf(),
            r.started_from(*validation),
            r.granted() == views(validation.requested_capabilities@).to_set(),
            r.attempted().len() == 0,
            r.used().len() == 0,
    {
        let r = ScriptExecutionSession {
            manifest_name: validation.manifest_name.clone(),
            runtime: validation.runtime,
            granted_capabilities: sorted_set(&validation.requested_capabilities),
            requested_capabilities: copy_strings(&validation.requested_capabilities),
            missing_capabilities: copy_strings(&validation.missing_capabilities),
            warnings: copy_strings(&validation.warnings),
            attempted_capabilities: Vec::new(),
            used_capabilities: Vec::new(),
            started_at: clock_now(),
        };
        assert(r.used() =~= Seq::<Seq<char>>::empty());
        assert(r.attempted() =~= Seq::<Seq<char>>::empty());
        r
    }

    /// Whether `capability` is in the granted set.
    fn is_granted(&self, capability: &str) -> (r: bool)
        ensures
            r == self.granted().contains(capability@),
    {
        contains_str(&self.granted_capabilities, capability)
    }

    /// Records an attempt to use `capability` for `operation`. Succeeds, and
    /// records the use, exactly when the capability was granted; otherwise
    /// fails with [`ScriptError::CapabilityDenied`].
    pub fn require_capability(&mut self, capability: &str, operation: &str) -> (r: Result<(), ScriptError>)
        requires
            old(self).wf(),
        ensures
            final(self).wf(),
            final(self).granted() == old(self).granted(),
            final(self).requested() == old(self).requested(),
            final(self).name() == old(self).name(),
            final(self).attempted() == (if old(self).attempted().contains(capability@) {
                old(self).attempted()
            } else {
                old(self).attempted().push(capability@)
            }),
            (r is Ok) == old(self).granted().contains(capability@),
            r is Ok ==> final(self).used() == (if old(self).used().contains(capability@) {
                old(self).used()
            } else {
                old(self).used().push(capability@)
            }),
            r is Err ==> final(self).used() == old(self).used(),
            match r {
                Err(ScriptError::CapabilityDenied { operation: o, capability: c }) => o@ == operation@ && c@ == capability@,
                Err(_) => false,
                Ok(_) => true,
            },
    {
        push_unique(&mut self.attempted_capabilities, capability);
        proof {
            if !old(self).attempted().contains(capability@) {
                assert forall|c: Seq<char>| old(self).attempted().contains(c) implies self.attempted().contains(c) by {
                    let i = choose|i: int| 0 <= i < old(self).attempted().len() && old(self).attempted()[i] == c;
                    assert(self.attempted()[i] == c);
                }
                assert(self.attempted().no_duplicates()) by {
                    assert forall|i: int, j: int| 0 <= i < self.attempted().len() && 0 <= j < self.attempted().len() && i != j
                        implies self.attempted()[i] != self.attempted()[j] by {
                        if i == old(self).attempted().len() {
                            assert(!old(self).attempted().contains(capability@));
                            assert(self.attempted()[j] == old(self).attempted()[j]);
                        } else if j == old(self).attempted().len() {
                            assert(self.attempted()[i] == old(self).attempted()[i]);
                        }
                    }
                }
            }
        }
        if self.is_granted(capability) {
            let ghost used_before = self.used();
            push_unique(&mut self.used_capabilities, capability);
            proof {
                assert(self.attempted().contains(capability@)) by {
                    if old(self).attempted().contains(capability@) {
                        let i = choose|i: int| 0 <= i < old(self).attempted().len() && old(self).attempted()[i] == capability@;
                        assert(self.attempted()[i] == capability@);
                    } else {
                        assert(self.attempted()[self.attempted().len() - 1] == capability@);
                    }
                }
                assert forall|c: Seq<char>| #[trigger] self.used().contains(c) implies self.granted().contains(c) && self.attempted().contains(c) by {
                    if used_before.contains(c) {
                        let i = choose|i: int| 0 <= i < old(self).attempted().len() && old(self).attempted()[i] == c;
                        assert(self.attempted()[i] == c);
                    } else {
                        let i = choose|i: int| 0 <= i < self.used().len() && self.used()[i] == c;
                        if i < used_before.len() {
                            assert(used_before[i] == c);
                        }
                    }
                }
                if !used_before.contains(capability@) {
                    assert(self.used().no_duplicates()) by {
                        assert forall|i: int, j: int| 0 <= i < self.used().len() && 0 <= j < self.used().len() && i != j
                            implies self.used()[i] != self.used()[j] by {
                            if i == used_before.len() {
                                assert(self.used()[j] == used_before[j]);
                            } else if j == used_before.len() {
                                assert(self.used()[i] == used_before[i]);
                            }
                        }
                    }
                }
            }
            return Ok(());
        }
        proof {
            assert forall|c: Seq<char>| #[trigger] self.used().contains(c) implies self.granted().contains(c) && self.attempted().contains(c) by {
                let i = choose|i: int| 0 <= i < old(self).attempted().len() && old(self).attempted()[i] == c;
                assert(self.attempted()[i] == c);
            }
        }
        Err(ScriptError::CapabilityDenied { operation: owned(operation), capability: owned(capability) })
    }

    /// Closes the session into an audit record with the run's outcome and
    /// its duration in milliseconds.
    pub fn audit_record(self, success: bool, error: Option<String>) -> (r: ScriptAuditRecord)
        ensures
            r.script_name@ == self.name(),
            r.runtime == self.runtime_kind(),
            r.success == success,
            views(r.requested_capabilities@) == self.requested(),
            views(r.attempted_capabilities@) == self.attempted(),
            views(r.used_capabilities@) == self.used(),
            r.missing_capabilities@ == self.missing_list(),
            r.warnings@ == self.warning_list(),
            r.error == error,
    {
        let duration_ms = millis_since(&self.started_at);
        ScriptAuditRecord {
            script_name: self.manifest_name,
            runtime: self.runtime,
            success,
            requested_capabilities: self.requested_capabilities,
            attempted_capabilities: self.attempted_capabilities,
            used_capabilities: self.used_capabilities,
            missing_capabilities: self.missing_capabilities,
            warnings: self.warnings,
            error,
            duration_ms,
        }
    }
}

} // verus!
