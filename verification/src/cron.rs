//! Cron jobs as the dashboard shows them, and the schedules and paths of
//! the gateway's cron API.
//!
//! The gateway answers in JSON; the caller reads the fields of a job and
//! this module parses its RFC 3339 times into epoch milliseconds (through
//! `chrono`) and decides what the dashboard shows.

use crate::text::{concat2, decimal, decimal_string, opt_view, owned, push_str};
use vstd::prelude::*;

verus! {

/// A cron job as the dashboard shows it.
#[derive(Debug, Clone)]
pub struct FfiCronJob {
    /// The job's id.
    pub id: String,
    /// Its schedule expression.
    pub expression: String,
    /// The command it runs (the prompt of an agent job).
    pub command: String,
    /// When it runs next (epoch milliseconds), 0 when unknown.
    pub next_run_ms: i64,
    /// When it last ran (epoch milliseconds).
    pub last_run_ms: Option<i64>,
    /// The status of its last run.
    pub last_status: Option<String>,
    /// Whether it is paused.
    pub paused: bool,
    /// Whether it is deleted after its first run.
    pub one_shot: bool,
}

/// The fields of a job as the gateway reports them; a missing field (or
/// one of the wrong type) is `None`.
#[derive(Debug, Clone)]
pub struct CronJobFields {
    /// `id`.
    pub id: Option<String>,
    /// `expression`.
    pub expression: Option<String>,
    /// `schedule`, read when there is no expression.
    pub schedule: Option<String>,
    /// `command`.
    pub command: Option<String>,
    /// `prompt`, the instruction of an agent job.
    pub prompt: Option<String>,
    /// `next_run`, an RFC 3339 time.
    pub next_run: Option<String>,
    /// `last_run`, an RFC 3339 time.
    pub last_run: Option<String>,
    /// `last_status`.
    pub last_status: Option<String>,
    /// `enabled`.
    pub enabled: Option<bool>,
    /// `delete_after_run`.
    pub delete_after_run: Option<bool>,
}

/// An optional text, empty when absent.
pub open spec fn or_empty(o: Option<Seq<char>>) -> Seq<char> {
    match o {
        Some(s) => s,
        None => Seq::empty(),
    }
}

/// The command shown for a job: its prompt when it has no command but a
/// prompt (an agent job), else its command.
pub open spec fn display_command(command: Seq<char>, prompt: Seq<char>) -> Seq<char> {
    if command.len() == 0 && prompt.len() > 0 {
        prompt
    } else {
        command
    }
}

fn text_or_empty(o: &Option<String>) -> (r: String)
    ensures
        r@ == or_empty(opt_view(*o)),
{
    match o {
        Some(s) => s.clone(),
        None => String::new(),
    }
}

/// What `chrono::DateTime::parse_from_rfc3339` followed by
/// `timestamp_millis` makes of a text: `None` when it is not an RFC 3339
/// time, otherwise the milliseconds since the Unix epoch.
pub uninterp spec fn rfc3339_millis(text: Seq<char>) -> Option<i64>;

/// Parses an RFC 3339 time with `chrono::DateTime::parse_from_rfc3339` and
/// reads its `timestamp_millis`. The claim: the result is the named value
/// for the text (parsing is a fixed function of the text).
#[verifier::external_body]
fn parse_rfc3339_millis(text: &str) -> (r: Option<i64>)
    ensures
        r == rfc3339_millis(text@),
{
    chrono::DateTime::parse_from_rfc3339(text).ok().map(|dt| dt.timestamp_millis())
}

/// The milliseconds of an optional time text: `None` when it is absent or
/// does not parse.
pub open spec fn time_millis(t: Option<Seq<char>>) -> Option<i64> {
    match t {
        Some(t) => rfc3339_millis(t),
        None => None,
    }
}

fn parse_opt_time(t: &Option<String>) -> (r: Option<i64>)
    ensures
        r == time_millis(opt_view(*t)),
{
    match t {
        Some(s) => parse_rfc3339_millis(s.as_str()),
        None => None,
    }
}

/// The job the dashboard shows for the fields the gateway reported: a job
/// is enabled and not one-shot unless it says otherwise, its expression
/// falls back to its schedule, an agent job shows its prompt, and its
/// times are parsed from RFC 3339 (a next run that is absent or does not
/// parse shows as 0).
pub fn cron_job_from_fields(f: &CronJobFields) -> (j: FfiCronJob)
    ensures
        j.id@ == or_empty(opt_view(f.id)),
        j.expression@ == (match f.expression {
            Some(e) => e@,
            None => or_empty(opt_view(f.schedule)),
        }),
        j.command@ == display_command(or_empty(opt_view(f.command)), or_empty(opt_view(f.prompt))),
        j.next_run_ms == (match time_millis(opt_view(f.next_run)) {
            Some(ms) => ms,
            None => 0,
        }),
        j.last_run_ms == time_millis(opt_view(f.last_run)),
        opt_view(j.last_status) == opt_view(f.last_status),
        j.paused == !(match f.enabled {
            Some(e) => e,
            None => true,
        }),
        j.one_shot == (match f.delete_after_run {
            Some(d) => d,
            None => false,
        }),
{
    let command = text_or_empty(&f.command);
    let prompt = text_or_empty(&f.prompt);
    let shown = if command.as_str().is_empty() && !prompt.as_str().is_empty() {
        prompt
    } else {
        command
    };
    let expression = match &f.expression {
        Some(e) => e.clone(),
        None => text_or_empty(&f.schedule),
    };
    FfiCronJob {
        id: text_or_empty(&f.id),
        expression,
        command: shown,
        next_run_ms: match parse_opt_time(&f.next_run) {
            Some(ms) => ms,
            None => 0,
        },
        last_run_ms: parse_opt_time(&f.last_run),
        last_status: match &f.last_status {
            Some(s) => Some(s.clone()),
            None => None,
        },
        paused: !match f.enabled {
            Some(e) => e,
            None => true,
        },
        one_shot: match f.delete_after_run {
            Some(d) => d,
            None => false,
        },
    }
}

/// The job with the given id among listed jobs, if any (the first one).
pub fn find_job(jobs: Vec<FfiCronJob>, id: &str) -> (r: Option<FfiCronJob>)
    ensures
        match r {
            Some(j) => j.id@ == id@ && exists|i: int| 0 <= i < jobs@.len() && jobs@[i] == j && forall|
                k: int,
            | 0 <= k < i ==> (#[trigger] jobs@[k]).id@ != id@,
            None => forall|k: int| 0 <= k < jobs@.len() ==> (#[trigger] jobs@[k]).id@ != id@,
        },
{
    let mut v = jobs;
    let mut i: usize = 0;
    while i < v.len()
        invariant
            v@ == jobs@,
            i <= jobs@.len(),
            forall|k: int| 0 <= k < i ==> (#[trigger] jobs@[k]).id@ != id@,
        decreases v.len() - i,
    {
        if crate::text::str_eq(v[i].id.as_str(), id) {
            let j = v.swap_remove(i);
            assert(jobs@[i as int] == j);
            assert(j.id@ == id@);
            return Some(j);
        }
        i = i + 1;
    }
    None
}

/// The schedule of a job that runs once after a delay.
pub fn one_shot_schedule(delay: &str) -> (r: String)
    ensures
        r@ == "@once "@ + delay@,
{
    concat2("@once ", delay)
}

/// The schedule of a job that runs once at a time (RFC 3339).
pub fn at_schedule(timestamp_rfc3339: &str) -> (r: String)
    ensures
        r@ == "@at "@ + timestamp_rfc3339@,
{
    concat2("@at ", timestamp_rfc3339)
}

/// The schedule of a job that runs every `interval_ms` milliseconds.
pub fn every_schedule(interval_ms: u64) -> (r: String)
    ensures
        r@ == "@every "@ + decimal(interval_ms as nat) + "ms"@,
{
    let mut r = concat2("@every ", decimal_string(interval_ms).as_str());
    push_str(&mut r, "ms");
    r
}

/// The gateway path of one job.
pub fn job_path(id: &str) -> (r: String)
    ensures
        r@ == "/api/cron/"@ + id@,
{
    concat2("/api/cron/", id)
}

} // verus!
