//! Memory consolidation: the backlog of messages awaiting LLM extraction
//! and the report of a startup consolidation run.
//!
//! Messages are queued (truncated) in a bounded backlog; at startup the
//! backlog is sent to the provider, the facts it extracts are stored, and
//! the run is summarised in a [`FfiConsolidationReport`]. The storage and the
//! provider calls are the caller's; this module holds the rules.

use crate::text::{owned, str_eq};
use vstd::prelude::*;

verus! {

/// Maximum message length stored in the backlog, in characters.
pub const MAX_MESSAGE_LEN: usize = 4096;

/// Maximum rows retained in the backlog table.
pub const MAX_BACKLOG_ROWS: usize = 200;

/// Maximum number of errors a report keeps.
pub const MAX_REPORT_ERRORS: usize = 10;

/// Maximum length of one reported error, in characters.
pub const MAX_ERROR_LEN: usize = 200;

/// The report text of a run skipped because smart extraction is off.
pub const DISABLED_TEXT: &'static str = "smart_extraction disabled";

/// The report text of a provider request that ran out of time.
pub const TIMEOUT_TEXT: &'static str = "provider request timed out (60s)";

/// A memory category: the three built-in ones or a custom name.
#[derive(Debug, Clone, PartialEq, Eq)]
pub enum MemoryCategory {
    /// Long-lived core facts.
    Core,
    /// Daily notes.
    Daily,
    /// Conversation memory.
    Conversation,
    /// Any other category, by name.
    Custom(String),
}

/// The category a name stands for.
pub open spec fn category_for(name: Seq<char>) -> (int, Seq<char>) {
    if name == "core"@ {
        (0, Seq::empty())
    } else if name == "daily"@ {
        (1, Seq::empty())
    } else if name == "conversation"@ {
        (2, Seq::empty())
    } else {
        (3, name)
    }
}

/// The view of a category: its kind and, for a custom one, its name.
pub open spec fn category_view(c: MemoryCategory) -> (int, Seq<char>) {
    match c {
        MemoryCategory::Core => (0, Seq::empty()),
        MemoryCategory::Daily => (1, Seq::empty()),
        MemoryCategory::Conversation => (2, Seq::empty()),
        MemoryCategory::Custom(s) => (3, s@),
    }
}

/// Parses a category name: `core`, `daily` and `conversation` are the
/// built-in categories, any other name is a custom one.
pub fn parse_category(name: &str) -> (r: MemoryCategory)
    ensures
        category_view(r) == category_for(name@),
{
    if str_eq(name, "core") {
        MemoryCategory::Core
    } else if str_eq(name, "daily") {
        MemoryCategory::Daily
    } else if str_eq(name, "conversation") {
        MemoryCategory::Conversation
    } else {
        MemoryCategory::Custom(owned(name))
    }
}

/// The name a category is written as.
pub open spec fn category_text(c: MemoryCategory) -> Seq<char> {
    match c {
        MemoryCategory::Core => "core"@,
        MemoryCategory::Daily => "daily"@,
        MemoryCategory::Conversation => "conversation"@,
        MemoryCategory::Custom(s) => s@,
    }
}

impl MemoryCategory {
    /// The name the category is written as.
    pub fn to_string(&self) -> (r: String)
        ensures
            r@ == category_text(*self),
    {
        match self {
            MemoryCategory::Core => owned("core"),
            MemoryCategory::Daily => owned("daily"),
            MemoryCategory::Conversation => owned("conversation"),
            MemoryCategory::Custom(s) => s.clone(),
        }
    }
}

/// The first `n` characters of `s` (all of it when shorter).
pub open spec fn char_prefix(s: Seq<char>, n: int) -> Seq<char> {
    if s.len() > n {
        s.subrange(0, n)
    } else {
        s
    }
}

/// The first `n` characters of a string.
pub fn truncate_chars(s: &str, n: usize) -> (r: String)
    ensures
        r@ == char_prefix(s@, n as int),
{
    let chars = crate::text::chars_of(s);
    if chars.len() > n {
        let prefix = crate::text::sub_chars(chars.as_slice(), 0, n);
        crate::text::string_of(prefix.as_slice())
    } else {
        owned(s)
    }
}

/// The text a message is queued with: at most [`MAX_MESSAGE_LEN`]
/// characters of it.
pub fn backlog_message_text(message_text: &str) -> (r: String)
    ensures
        r@ == char_prefix(message_text@, MAX_MESSAGE_LEN as int),
        r@.len() <= MAX_MESSAGE_LEN,
{
    truncate_chars(message_text, MAX_MESSAGE_LEN)
}

/// How many of the oldest backlog rows to delete after an insertion left
/// `count` rows: those over [`MAX_BACKLOG_ROWS`].
pub fn backlog_excess(count: usize) -> (r: usize)
    ensures
        count > MAX_BACKLOG_ROWS ==> r == count - MAX_BACKLOG_ROWS,
        count <= MAX_BACKLOG_ROWS ==> r == 0,
{
    if count > MAX_BACKLOG_ROWS {
        count - MAX_BACKLOG_ROWS
    } else {
        0
    }
}

/// The summary of a consolidation run.
#[derive(Debug, Clone)]
pub struct FfiConsolidationReport {
    /// Number of facts extracted and stored.
    pub facts_extracted: u32,
    /// Number of sessions that received summaries.
    pub sessions_summarized: u32,
    /// Errors encountered (at most ten, each at most 200 characters).
    pub errors: Vec<String>,
}

impl FfiConsolidationReport {
    /// Its error texts.
    pub open spec fn error_texts(&self) -> Seq<Seq<char>> {
        self.errors@.map_values(|e: String| e@)
    }

    /// The report's invariant: at most [`MAX_REPORT_ERRORS`] errors, each
    /// at most [`MAX_ERROR_LEN`] characters.
    pub open spec fn wf(&self) -> bool {
        &&& self.errors@.len() <= MAX_REPORT_ERRORS
        &&& forall|i: int| 0 <= i < self.errors@.len() ==> (#[trigger] self.errors@[i])@.len() <= MAX_ERROR_LEN
    }

    /// The report of a run that did nothing.
    pub fn empty() -> (r: Self)
        ensures
            r.wf(),
            r.facts_extracted == 0,
            r.sessions_summarized == 0,
            r.errors@.len() == 0,
    {
        FfiConsolidationReport { facts_extracted: 0, sessions_summarized: 0, errors: Vec::new() }
    }

    /// The report of a run skipped because smart extraction is disabled.
    pub fn disabled() -> (r: Self)
        ensures
            r.wf(),
            r.facts_extracted == 0,
            r.sessions_summarized == 0,
            r.error_texts() == seq![DISABLED_TEXT@],
    {
        let r = FfiConsolidationReport {
            facts_extracted: 0,
            sessions_summarized: 0,
            errors: vec![owned(DISABLED_TEXT)],
        };
        proof {
            reveal_strlit("smart_extraction disabled");
            assert(r.error_texts() =~= seq![DISABLED_TEXT@]);
        }
        r
    }

    /// Counts one stored fact.
    pub fn fact_stored(&mut self)
        requires
            old(self).facts_extracted < u32::MAX,
        ensures
            final(self).facts_extracted == old(self).facts_extracted + 1,
            final(self).sessions_summarized == old(self).sessions_summarized,
            final(self).errors@ == old(self).errors@,
    {
        self.facts_extracted = self.facts_extracted + 1;
    }

    /// Counts the sessions one response summarised.
    pub fn sessions_added(&mut self, summaries: u32)
        requires
            old(self).sessions_summarized + summaries <= u32::MAX,
        ensures
            final(self).sessions_summarized == old(self).sessions_summarized + summaries,
            final(self).facts_extracted == old(self).facts_extracted,
            final(self).errors@ == old(self).errors@,
    {
        self.sessions_summarized = self.sessions_summarized + summaries;
    }

    /// Records an error: while fewer than [`MAX_REPORT_ERRORS`] are kept,
    /// its first [`MAX_ERROR_LEN`] characters are added; later errors are
    /// dropped.
    pub fn record_error(&mut self, message: &str)
        requires
            old(self).wf(),
        ensures
            final(self).wf(),
            final(self).facts_extracted == old(self).facts_extracted,
            final(self).sessions_summarized == old(self).sessions_summarized,
            old(self).errors@.len() < MAX_REPORT_ERRORS ==> final(self).error_texts()
                == old(self).error_texts().push(char_prefix(message@, MAX_ERROR_LEN as int)),
            old(self).errors@.len() >= MAX_REPORT_ERRORS ==> final(self).errors@ == old(self).errors@,
    {
        if self.errors.len() < MAX_REPORT_ERRORS {
            let e = truncate_chars(message, MAX_ERROR_LEN);
            let ghost before = self.errors@;
            self.errors.push(e);
            proof {
                assert(self.error_texts() =~= old(self).error_texts().push(char_prefix(message@, MAX_ERROR_LEN as int)));
                assert forall|i: int| 0 <= i < self.errors@.len() implies (#[trigger] self.errors@[i])@.len()
                    <= MAX_ERROR_LEN by {
                    if i < before.len() {
                        assert(self.errors@[i] == before[i]);
                    }
                }
            }
        }
    }

    /// Records that a response could not be parsed.
    pub fn parse_failed(&mut self, error: &str)
        requires
            old(self).wf(),
        ensures
            final(self).wf(),
            final(self).facts_extracted == old(self).facts_extracted,
            final(self).sessions_summarized == old(self).sessions_summarized,
            old(self).errors@.len() < MAX_REPORT_ERRORS ==> final(self).error_texts()
                == old(self).error_texts().push(char_prefix("parse error: "@ + error@, MAX_ERROR_LEN as int)),
            old(self).errors@.len() >= MAX_REPORT_ERRORS ==> final(self).errors@ == old(self).errors@,
    {
        let m = crate::text::concat2("parse error: ", error);
        self.record_error(m.as_str());
    }

    /// Records that the provider answered with an error.
    pub fn provider_failed(&mut self, error: &str)
        requires
            old(self).wf(),
        ensures
            final(self).wf(),
            final(self).facts_extracted == old(self).facts_extracted,
            final(self).sessions_summarized == old(self).sessions_summarized,
            old(self).errors@.len() < MAX_REPORT_ERRORS ==> final(self).error_texts()
                == old(self).error_texts().push(char_prefix("provider error: "@ + error@, MAX_ERROR_LEN as int)),
            old(self).errors@.len() >= MAX_REPORT_ERRORS ==> final(self).errors@ == old(self).errors@,
    {
        let m = crate::text::concat2("provider error: ", error);
        self.record_error(m.as_str());
    }

    /// Records that the provider did not answer in time.
    pub fn provider_timed_out(&mut self)
        requires
            old(self).wf(),
        ensures
            final(self).wf(),
            final(self).facts_extracted == old(self).facts_extracted,
            final(self).sessions_summarized == old(self).sessions_summarized,
            old(self).errors@.len() < MAX_REPORT_ERRORS ==> final(self).error_texts()
                == old(self).error_texts().push(TIMEOUT_TEXT@),
            old(self).errors@.len() >= MAX_REPORT_ERRORS ==> final(self).errors@ == old(self).errors@,
    {
        proof {
            reveal_strlit("provider request timed out (60s)");
        }
        self.record_error(TIMEOUT_TEXT);
    }

    /// Whether the backlog is cleared after the run: only when a fact was
    /// stored.
    pub fn clears_backlog(&self) -> (r: bool)
        ensures
            r == (self.facts_extracted > 0),
    {
        self.facts_extracted > 0
    }
}

} // verus!
