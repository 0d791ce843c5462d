//! The capability check in front of every host call a script makes, and
//! how a denial travels through the script engine's error text.
//!
//! A denied call fails inside the engine with a text that carries the
//! denial after [`CAPABILITY_DENIED_SENTINEL`] as `|operation|capability`;
//! when the run ends, [`script_eval_error`] reads the denial back out.

use crate::scripting::audit::{denied_parts, second_piece, strip_marker_prefix};
use crate::scripting::capabilities::{ScriptExecutionSession, CAPABILITY_DENIED_SENTINEL};
use crate::scripting::manifest::{
    operation_capability, operation_display_name, ScriptError, ScriptOperation,
};
use crate::text::{
    find_char_from, find_from, is_whitespace, occurs_at, owned, push_str, trim, trim_end, trim_start,
};
use vstd::prelude::*;

verus! {

/// The engine error text that carries a denial.
pub open spec fn denial_text(operation: Seq<char>, capability: Seq<char>) -> Seq<char> {
    CAPABILITY_DENIED_SENTINEL@ + "|"@ + operation + "|"@ + capability
}

/// Checks that the running script may perform `operation`, recording the
/// attempt (and the use, when granted). A refusal comes back as the
/// engine error text that carries the denial.
pub fn check_host_call(session: &mut ScriptExecutionSession, operation: ScriptOperation) -> (r: Result<(), String>)
    requires
        old(session).wf(),
    ensures
        final(session).wf(),
        (r is Ok) == old(session).granted().contains(operation_capability(operation)),
        r matches Err(m) ==> m@ == denial_text(operation_display_name(operation), operation_capability(operation)),
{
    let capability = operation.capability();
    let name = operation.display_name();
    match session.require_capability(capability, name) {
        Ok(()) => Ok(()),
        Err(ScriptError::CapabilityDenied { operation: o, capability: c }) => {
            let mut m = owned(CAPABILITY_DENIED_SENTINEL);
            push_str(&mut m, "|");
            push_str(&mut m, o.as_str());
            push_str(&mut m, "|");
            push_str(&mut m, c.as_str());
            Err(m)
        },
        Err(other) => Err(other.to_string()),
    }
}

// ── The denial survives the engine ───────────────────────────────────

/// A name that can travel in a denial: no pipe in it, and it neither
/// starts with a colon nor ends with whitespace.
pub open spec fn travels(name: Seq<char>) -> bool {
    &&& forall|i: int| 0 <= i < name.len() ==> name[i] != '|'
    &&& name.len() > 0 ==> name[0] != ':'
    &&& name.len() > 0 ==> !is_whitespace(name.last())
}

proof fn lemma_find_from_none(s: Seq<char>, p: Seq<char>, i: int)
    requires
        p.len() > 0,
        0 <= i,
        forall|j: int| i <= j && j + p.len() <= s.len() ==> !occurs_at(s, p, j),
    ensures
        find_from(s, p, i) is None,
    decreases s.len() - i,
{
    if i + p.len() <= s.len() {
        lemma_find_from_none(s, p, i + 1);
    }
}

proof fn lemma_find_char_at(s: Seq<char>, c: char, i: int, j: int)
    requires
        0 <= i <= j < s.len(),
        s[j] == c,
        forall|k: int| i <= k < j ==> s[k] != c,
    ensures
        find_char_from(s, c, i) == Some(j),
    decreases j - i,
{
    if i < j {
        lemma_find_char_at(s, c, i + 1, j);
    }
}

proof fn lemma_find_char_none(s: Seq<char>, c: char, i: int)
    requires
        0 <= i,
        forall|k: int| i <= k < s.len() ==> s[k] != c,
    ensures
        find_char_from(s, c, i) is None,
    decreases s.len() - i,
{
    if i < s.len() {
        lemma_find_char_none(s, c, i + 1);
    }
}

/// The text of a denial is read back as the same operation and
/// capability, for names that can travel and do not hold the sentinel.
pub proof fn lemma_denial_round_trip(operation: Seq<char>, capability: Seq<char>)
    requires
        operation.len() > 0,
        travels(operation),
        travels(capability),
        forall|j: int|
            0 < j && j + CAPABILITY_DENIED_SENTINEL@.len() <= denial_text(operation, capability).len()
                ==> !occurs_at(denial_text(operation, capability), CAPABILITY_DENIED_SENTINEL@, j),
    ensures
        denied_parts(denial_text(operation, capability)) == Some((operation, capability)),
{
    let sent = CAPABILITY_DENIED_SENTINEL@;
    let s = denial_text(operation, capability);
    reveal_strlit("__zero_capability_denied__");
    reveal_strlit("|");
    let n = sent.len() as int;
    let piece = "|"@ + operation + "|"@ + capability;
    assert(s =~= sent + piece);
    // The sentinel occurs first at the start, and nowhere after it.
    assert(occurs_at(s, sent, 0)) by {
        assert(s.subrange(0, n) =~= sent);
    }
    assert(find_from(s, sent, 0) == Some(0int));
    lemma_find_from_none(s, sent, n);
    assert(s.subrange(n, s.len() as int) =~= piece);
    assert(second_piece(s, sent) == Some(piece));
    // Trimming leaves the piece as it is.
    assert(trim_start(piece) == piece);
    assert(piece.last() == (if capability.len() > 0 {
        capability.last()
    } else {
        '|'
    }));
    assert(trim_end(piece) == piece);
    assert(trim(piece) == piece);
    // Only the leading pipe is stripped.
    let e = operation + "|"@ + capability;
    assert(piece.drop_first() =~= e);
    assert(strip_marker_prefix(e) == e) by {
        assert(e[0] == operation[0]);
    }
    assert(strip_marker_prefix(piece) == e);
    // The encoded pair splits at the pipe after the operation.
    let k = operation.len() as int;
    assert(e[k] == '|');
    assert forall|x: int| 0 <= x < k implies e[x] != '|' by {
        assert(e[x] == operation[x]);
    }
    lemma_find_char_at(e, '|', 0, k);
    assert forall|x: int| k + 1 <= x < e.len() implies e[x] != '|' by {
        assert(e[x] == capability[x - k - 1]);
    }
    lemma_find_char_none(e, '|', k + 1);
    assert(e.subrange(0, k) =~= operation);
    assert(e.subrange(k + 1, e.len() as int) =~= capability);
}

} // verus!
