//! The rules of the bridged-message store: which messages the agent may
//! read, and the search query the store runs.
//!
//! The store is a SQLite database the caller queries; this module decides
//! the access check, the time cutoff and the text of the search query.

use crate::text::{concat2, owned, push_str};
use vstd::prelude::*;

verus! {

/// The time cutoff of a query: the later of the conversation's window
/// start and the caller's `since`, when either is given.
pub open spec fn cutoff(window_start: Option<i64>, since: Option<i64>) -> Option<i64> {
    match (window_start, since) {
        (Some(w), Some(s)) => Some(if w >= s { w } else { s }),
        (Some(w), None) => Some(w),
        (None, Some(s)) => Some(s),
        (None, None) => None,
    }
}

/// Computes the time cutoff of a query; see [`cutoff`].
pub fn effective_since(window_start: Option<i64>, since: Option<i64>) -> (r: Option<i64>)
    ensures
        r == cutoff(window_start, since),
{
    match (window_start, since) {
        (Some(w), Some(s)) => Some(if w >= s { w } else { s }),
        (Some(w), None) => Some(w),
        (None, Some(s)) => Some(s),
        (None, None) => None,
    }
}

/// Checks that the agent may read a conversation.
pub fn check_agent_access(conversation_id: &str, agent_allowed: bool) -> (r: Result<(), String>)
    ensures
        agent_allowed ==> r is Ok,
        !agent_allowed ==> (r matches Err(e) && e@ == "agent access not allowed for conversation '"@
            + conversation_id@ + "'"@),
{
    if agent_allowed {
        Ok(())
    } else {
        let mut e = concat2("agent access not allowed for conversation '", conversation_id);
        push_str(&mut e, "'");
        Err(e)
    }
}

/// The columns and join of a full-text search.
pub const SEARCH_SELECT: &'static str = "SELECT m.id, m.conversation_id, m.sender_name, m.body,
                    m.timestamp, m.is_outgoing, m.message_type
             FROM bridged_messages m
             JOIN bridged_messages_fts f ON m.rowid = f.rowid
             WHERE bridged_messages_fts MATCH ?1";

/// The text of a full-text search: the match is `?1`; restricted to one
/// conversation it is `?2` and the limit `?3`, otherwise the limit is
/// `?2`; newest messages first.
pub open spec fn search_sql_spec(by_conversation: bool) -> Seq<char> {
    if by_conversation {
        SEARCH_SELECT@ + " AND m.conversation_id = ?2 ORDER BY m.timestamp DESC LIMIT ?3"@
    } else {
        SEARCH_SELECT@ + " ORDER BY m.timestamp DESC LIMIT ?2"@
    }
}

/// Builds the text of a full-text search; see [`search_sql_spec`].
pub fn search_sql(by_conversation: bool) -> (r: String)
    ensures
        r@ == search_sql_spec(by_conversation),
{
    let mut sql = owned(SEARCH_SELECT);
    if by_conversation {
        push_str(&mut sql, " AND m.conversation_id = ?2 ORDER BY m.timestamp DESC LIMIT ?3");
    } else {
        push_str(&mut sql, " ORDER BY m.timestamp DESC LIMIT ?2");
    }
    sql
}

} // verus!
