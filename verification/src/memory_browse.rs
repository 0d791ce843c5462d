//! The rules of memory browsing: how a context budget is split, which
//! metadata a stored memory may carry, and how counts cross the FFI
//! boundary.
//!
//! The memory backend is the daemon's; this module decides what is asked
//! of it and how its answers are reported.

use crate::error::FfiError;
use crate::text::{concat2, owned, push_str, str_eq};
use vstd::prelude::*;

verus! {

/// Assembled working context for system prompt injection.
#[derive(Debug, Clone)]
pub struct FfiWorkingContext {
    /// Core identity and user profile facts block.
    pub identity_block: String,
    /// Top-ranked semantic memories relevant to the current query.
    pub recall_block: String,
    /// Compressed summary of recent conversation history.
    pub episodic_summary: String,
    /// Total estimated token count of all blocks.
    pub estimated_tokens: u32,
}

/// Result of a daily maintenance run.
#[derive(Debug, Clone, Copy, PartialEq, Eq, Structural)]
pub struct FfiMaintenanceReport {
    /// Number of entries pruned (deleted) during maintenance.
    pub pruned_count: u32,
    /// Number of entries merged (deduplicated) during maintenance.
    pub merged_count: u32,
}

/// A count as it crosses the FFI boundary: saturated at `u32::MAX`.
pub open spec fn saturated(n: int) -> u32 {
    if n > u32::MAX {
        u32::MAX
    } else {
        n as u32
    }
}

/// Saturates a count at `u32::MAX`.
pub fn saturating_u32(n: usize) -> (r: u32)
    ensures
        r == saturated(n as int),
{
    if n > u32::MAX as usize {
        u32::MAX
    } else {
        n as u32
    }
}

/// A working context as reported: the three blocks and the token
/// estimate, saturated.
pub fn working_context(
    identity_block: String,
    recall_block: String,
    episodic_summary: String,
    estimated_tokens: usize,
) -> (c: FfiWorkingContext)
    ensures
        c.identity_block == identity_block,
        c.recall_block == recall_block,
        c.episodic_summary == episodic_summary,
        c.estimated_tokens == saturated(estimated_tokens as int),
{
    FfiWorkingContext {
        identity_block,
        recall_block,
        episodic_summary,
        estimated_tokens: saturating_u32(estimated_tokens),
    }
}

/// How a caller's token budget is split between the identity, recall
/// and episodic blocks: 36% each (rounded down) for identity and recall,
/// the rest for the episodic summary. A zero budget means the default
/// cloud budget (`None`).
pub fn token_budget_split(token_budget: u32) -> (r: Option<(usize, usize, usize)>)
    ensures
        token_budget == 0 ==> r is None,
        token_budget > 0 ==> r == Some((
            (token_budget * 36 / 100) as usize,
            (token_budget * 36 / 100) as usize,
            (token_budget - 2 * (token_budget * 36 / 100)) as usize,
        )),
{
    if token_budget == 0 {
        return None;
    }
    let total = token_budget as u64;
    let share = total * 36 / 100;
    assert(share * 2 <= total) by (nonlinear_arith)
        requires
            share == total * 36 / 100,
    ;
    Some((share as usize, share as usize, (total - share - share) as usize))
}

/// The report of a maintenance run: nothing is pruned or merged yet.
pub fn run_memory_maintenance() -> (r: FfiMaintenanceReport)
    ensures
        r.pruned_count == 0,
        r.merged_count == 0,
{
    FfiMaintenanceReport { pruned_count: 0, merged_count: 0 }
}

/// The origins a stored memory may name.
pub open spec fn valid_source(source: Seq<char>) -> bool {
    source == "heuristic"@ || source == "llm"@ || source == "agent"@ || source == "user"@ || source
        == "migrated"@
}

/// The list of valid origins as the error message writes it.
pub const VALID_SOURCES_TEXT: &'static str = "[\"heuristic\", \"llm\", \"agent\", \"user\", \"migrated\"]";

/// Checks the source and decay of a memory to store (its confidence, a
/// float, is checked first by the caller): the source must be a known
/// origin and the decay half-life positive.
pub fn check_memory_metadata(source: &str, decay_half_life_days: u32) -> (r: Result<(), FfiError>)
    ensures
        !valid_source(source@) ==> (r matches Err(FfiError::InvalidArgument { detail }) && detail@
            == "source must be one of "@ + VALID_SOURCES_TEXT@ + ", got \""@ + source@ + "\""@),
        valid_source(source@) && decay_half_life_days == 0 ==> (r matches Err(
            FfiError::InvalidArgument { detail },
        ) && detail@ == "decay_half_life_days must be > 0"@),
        valid_source(source@) && decay_half_life_days > 0 ==> r is Ok,
{
    let known = str_eq(source, "heuristic") || str_eq(source, "llm") || str_eq(source, "agent")
        || str_eq(source, "user") || str_eq(source, "migrated");
    if !known {
        let mut d = concat2("source must be one of ", VALID_SOURCES_TEXT);
        push_str(&mut d, ", got \"");
        push_str(&mut d, source);
        push_str(&mut d, "\"");
        return Err(FfiError::InvalidArgument { detail: d });
    }
    if decay_half_life_days == 0 {
        return Err(FfiError::InvalidArgument { detail: owned("decay_half_life_days must be > 0") });
    }
    Ok(())
}

} // verus!
