//! Health detail for the dashboard: daemon components, and the web-search
//! engines joined with their live health.
//!
//! The component snapshot and the engines' live health are read by the
//! caller; this module decides how they are reported.

use crate::text::{concat2, opt_view, owned, str_eq};
use vstd::prelude::*;

verus! {

/// Health of one component.
#[derive(Debug, Clone)]
pub struct FfiComponentHealth {
    /// The component's name.
    pub name: String,
    /// `ok` or `error` (or the component's own status word).
    pub status: String,
    /// The last error it reported.
    pub last_error: Option<String>,
    /// How often it was restarted.
    pub restart_count: u64,
}

/// Health of the daemon and its components.
#[derive(Debug, Clone)]
pub struct FfiHealthDetail {
    /// Whether the daemon is running.
    pub daemon_running: bool,
    /// The process id.
    pub pid: u32,
    /// Seconds since the daemon started.
    pub uptime_seconds: u64,
    /// The components, daemon components first, then search engines.
    pub components: Vec<FfiComponentHealth>,
}

/// Health of one web-search engine, as the dashboard shows it.
#[derive(Debug, Clone)]
pub struct FfiSearchEngineHealth {
    /// The engine's id.
    pub engine_id: String,
    /// Its display name.
    pub display_name: String,
    /// `healthy`, `backoff`, or another condition word.
    pub condition: String,
    /// The last error it reported.
    pub last_error: Option<String>,
    /// When it last answered (Unix seconds).
    pub last_ok_unix: Option<u64>,
    /// When it was repaired (Unix seconds).
    pub repaired_at_unix: Option<u64>,
    /// Seconds left in its back-off.
    pub backoff_remaining_secs: Option<u64>,
}

/// A bundled engine: its id and display name.
#[derive(Debug, Clone)]
pub struct EngineSpec {
    /// The engine's id.
    pub id: String,
    /// Its display name.
    pub display_name: String,
}

/// The name of an engine's component: `web_search/<id>`.
pub open spec fn engine_component_name(id: Seq<char>) -> Seq<char> {
    "web_search/"@ + id
}

/// The component an engine's live health is reported as: `ok` when it is
/// healthy, `error` otherwise; engines are never restarted.
pub fn engine_component(engine: &FfiSearchEngineHealth) -> (c: FfiComponentHealth)
    ensures
        c.name@ == engine_component_name(engine.engine_id@),
        c.status@ == (if engine.condition@ == "healthy"@ {
            "ok"@
        } else {
            "error"@
        }),
        opt_view(c.last_error) == opt_view(engine.last_error),
        c.restart_count == 0,
{
    FfiComponentHealth {
        name: concat2("web_search/", engine.engine_id.as_str()),
        status: if str_eq(engine.condition.as_str(), "healthy") {
            owned("ok")
        } else {
            owned("error")
        },
        last_error: crate::text::copy_opt(&engine.last_error),
        restart_count: 0,
    }
}

/// The components of the live engines, in the order given.
pub fn search_engine_components(live: &Vec<FfiSearchEngineHealth>) -> (r: Vec<FfiComponentHealth>)
    ensures
        r@.len() == live@.len(),
        forall|i: int|
            0 <= i < live@.len() ==> (#[trigger] r@[i]).name@ == engine_component_name(live@[i].engine_id@)
                && r@[i].status@ == (if live@[i].condition@ == "healthy"@ {
                "ok"@
            } else {
                "error"@
            }) && opt_view(r@[i].last_error) == opt_view(live@[i].last_error) && r@[i].restart_count == 0,
{
    let mut r: Vec<FfiComponentHealth> = Vec::new();
    let mut i: usize = 0;
    while i < live.len()
        invariant
            i <= live@.len(),
            r@.len() == i,
            forall|k: int|
                0 <= k < i ==> (#[trigger] r@[k]).name@ == engine_component_name(live@[k].engine_id@)
                    && r@[k].status@ == (if live@[k].condition@ == "healthy"@ {
                    "ok"@
                } else {
                    "error"@
                }) && opt_view(r@[k].last_error) == opt_view(live@[k].last_error) && r@[k].restart_count
                    == 0,
        decreases live.len() - i,
    {
        r.push(engine_component(&live[i]));
        i = i + 1;
    }
    r
}

/// The index of the last live entry for an engine id, if any: the entry
/// a map built from the live list keeps.
pub open spec fn last_live(live: Seq<FfiSearchEngineHealth>, id: Seq<char>) -> Option<int>
    decreases live.len(),
{
    if live.len() == 0 {
        None
    } else if live.last().engine_id@ == id {
        Some(live.len() - 1)
    } else {
        last_live(live.drop_last(), id)
    }
}

/// How a bundled engine is reported: with its live health when it has
/// one (the last entry for its id), else as healthy with nothing known.
pub open spec fn joined_engine(spec: EngineSpec, live: Seq<FfiSearchEngineHealth>, row: FfiSearchEngineHealth) -> bool {
    &&& row.engine_id@ == spec.id@
    &&& row.display_name@ == spec.display_name@
    &&& match last_live(live, spec.id@) {
        Some(k) => {
            &&& row.condition@ == live[k].condition@
            &&& opt_view(row.last_error) == opt_view(live[k].last_error)
            &&& row.last_ok_unix == live[k].last_ok_unix
            &&& row.repaired_at_unix == live[k].repaired_at_unix
            &&& row.backoff_remaining_secs == live[k].backoff_remaining_secs
        },
        None => {
            &&& row.condition@ == "healthy"@
            &&& row.last_error is None
            &&& row.last_ok_unix is None
            &&& row.repaired_at_unix is None
            &&& row.backoff_remaining_secs is None
        },
    }
}

fn find_last_live(live: &Vec<FfiSearchEngineHealth>, id: &str) -> (r: Option<usize>)
    ensures
        match r {
            Some(k) => last_live(live@, id@) == Some(k as int) && k < live@.len(),
            None => last_live(live@, id@) is None,
        },
{
    let mut i: usize = live.len();
    assert(live@.subrange(0, i as int) =~= live@);
    while i > 0
        invariant
            i <= live@.len(),
            last_live(live@, id@) == last_live(live@.subrange(0, i as int), id@),
        decreases i,
    {
        let ghost pre = live@.subrange(0, i as int);
        assert(pre.last() == live@[i - 1]);
        assert(pre.drop_last() =~= live@.subrange(0, i - 1));
        if str_eq(live[i - 1].engine_id.as_str(), id) {
            return Some(i - 1);
        }
        i = i - 1;
    }
    assert(live@.subrange(0, 0) =~= Seq::<FfiSearchEngineHealth>::empty());
    None
}

/// Reports every bundled engine, in bundle order, joined with the live
/// health recorded for it.
pub fn join_search_engine_health(specs: &Vec<EngineSpec>, live: &Vec<FfiSearchEngineHealth>) -> (r: Vec<FfiSearchEngineHealth>)
    ensures
        r@.len() == specs@.len(),
        forall|i: int| 0 <= i < specs@.len() ==> joined_engine(specs@[i], live@, #[trigger] r@[i]),
{
    let mut r: Vec<FfiSearchEngineHealth> = Vec::new();
    let mut i: usize = 0;
    while i < specs.len()
        invariant
            i <= specs@.len(),
            r@.len() == i,
            forall|k: int| 0 <= k < i ==> joined_engine(specs@[k], live@, #[trigger] r@[k]),
        decreases specs.len() - i,
    {
        let spec = &specs[i];
        let row = match find_last_live(live, spec.id.as_str()) {
            Some(k) => FfiSearchEngineHealth {
                engine_id: spec.id.clone(),
                display_name: spec.display_name.clone(),
                condition: live[k].condition.clone(),
                last_error: crate::text::copy_opt(&live[k].last_error),
                last_ok_unix: live[k].last_ok_unix,
                repaired_at_unix: live[k].repaired_at_unix,
                backoff_remaining_secs: live[k].backoff_remaining_secs,
            },
            None => FfiSearchEngineHealth {
                engine_id: spec.id.clone(),
                display_name: spec.display_name.clone(),
                condition: owned("healthy"),
                last_error: None,
                last_ok_unix: None,
                repaired_at_unix: None,
                backoff_remaining_secs: None,
            },
        };
        r.push(row);
        i = i + 1;
    }
    r
}

/// The health detail: the daemon's state and components, followed by the
/// components of the live search engines.
pub fn health_detail(
    daemon_running: bool,
    pid: u32,
    uptime_seconds: u64,
    components: Vec<FfiComponentHealth>,
    live: &Vec<FfiSearchEngineHealth>,
) -> (d: FfiHealthDetail)
    ensures
        d.daemon_running == daemon_running,
        d.pid == pid,
        d.uptime_seconds == uptime_seconds,
        d.components@.len() == components@.len() + live@.len(),
        d.components@.subrange(0, components@.len() as int) == components@,
        forall|i: int|
            0 <= i < live@.len() ==> (#[trigger] d.components@[components@.len() + i]).name@
                == engine_component_name(live@[i].engine_id@),
{
    let mut all = components;
    let ghost first = all@;
    let mut engines = search_engine_components(live);
    let ghost second = engines@;
    all.append(&mut engines);
    assert(all@.subrange(0, first.len() as int) =~= first);
    assert forall|i: int| 0 <= i < live@.len() implies (#[trigger] all@[first.len() + i]).name@
        == engine_component_name(live@[i].engine_id@) by {
        assert(all@[first.len() + i] == second[i]);
    }
    FfiHealthDetail { daemon_running, pid, uptime_seconds, components: all }
}

} // verus!
