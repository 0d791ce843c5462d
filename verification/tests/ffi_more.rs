use std::cell::RefCell;
use std::rc::Rc;
use zeroai::cron::{
    at_schedule, cron_job_from_fields, every_schedule, find_job, job_path, one_shot_schedule,
    CronJobFields,
};
use zeroai::discord::{
    avatar_url, configured_backfill_depth, guild_entry, require_non_empty, search_arguments,
    sync_status, text_channel_entry, user_entry, FfiDiscordSyncStatus,
};
use zeroai::error::FfiError;
use zeroai::events::{EventHub, FfiEventListener, ObserverEvent};
use zeroai::health::{
    engine_component, health_detail, join_search_engine_health, search_engine_components,
    EngineSpec, FfiComponentHealth, FfiSearchEngineHealth,
};

fn fields() -> CronJobFields {
    CronJobFields {
        id: None,
        expression: None,
        schedule: None,
        command: None,
        prompt: None,
        next_run: None,
        last_run: None,
        last_status: None,
        enabled: None,
        delete_after_run: None,
    }
}

#[test]
fn cron_job_fields_become_a_dashboard_job() {
    let mut f = fields();
    f.id = Some("abc-123".into());
    f.expression = Some("*/5 * * * *".into());
    f.command = Some("echo test".into());
    f.next_run = Some("2026-01-01T00:00:00Z".into());
    f.last_status = Some("ok".into());
    f.enabled = Some(false);
    f.delete_after_run = Some(false);
    let job = cron_job_from_fields(&f);
    assert_eq!(job.id, "abc-123");
    assert_eq!(job.expression, "*/5 * * * *");
    assert_eq!(job.command, "echo test");
    assert!(job.paused);
    assert!(!job.one_shot);
    assert!(job.last_run_ms.is_none());
    assert_eq!(job.last_status.as_deref(), Some("ok"));
    assert_eq!(job.next_run_ms, 1_767_225_600_000);
}

#[test]
fn agent_job_shows_its_prompt_and_defaults_apply() {
    let mut f = fields();
    f.id = Some("agent-456".into());
    f.schedule = Some("@every 60000ms".into());
    f.command = Some(String::new());
    f.prompt = Some("Fetch the latest news and summarize it".into());
    let job = cron_job_from_fields(&f);
    assert_eq!(job.command, "Fetch the latest news and summarize it");
    assert_eq!(job.expression, "@every 60000ms");
    assert!(!job.paused);
    assert!(!job.one_shot);
    assert_eq!(job.next_run_ms, 0);
    let found = find_job(vec![job.clone()], "agent-456").unwrap();
    assert_eq!(found.id, "agent-456");
    assert!(find_job(vec![job], "other").is_none());
}

#[test]
fn cron_schedules_and_paths() {
    assert_eq!(one_shot_schedule("30m"), "@once 30m");
    assert_eq!(at_schedule("2026-01-01T00:00:00Z"), "@at 2026-01-01T00:00:00Z");
    assert_eq!(every_schedule(60000), "@every 60000ms");
    assert_eq!(job_path("abc"), "/api/cron/abc");
}

#[test]
fn discord_argument_checks() {
    assert!(require_non_empty("t", "bot_token").is_ok());
    assert_eq!(
        require_non_empty("", "guild_id"),
        Err(FfiError::InvalidArgument { detail: "guild_id must not be empty".into() })
    );
    assert_eq!(
        search_arguments("", None, None),
        Err(FfiError::InvalidArgument { detail: "search query must not be empty".into() })
    );
    assert_eq!(search_arguments("q", Some(-3), None), Ok((Some(0), 50)));
    assert_eq!(search_arguments("q", Some(7), Some(5)), Ok((Some(7), 5)));
}

#[test]
fn discord_listing_entries() {
    let g = guild_entry(Some("1"), None, Some("abc")).unwrap();
    assert_eq!((g.id.as_str(), g.name.as_str(), g.icon.as_deref()), ("1", "", Some("abc")));
    assert!(guild_entry(Some(""), Some("x"), None).is_none());
    assert!(guild_entry(None, Some("x"), None).is_none());
    let c = text_channel_entry(Some(0), Some("9"), Some("general")).unwrap();
    assert_eq!((c.id.as_str(), c.name.as_str(), c.channel_type), ("9", "general", 0));
    assert!(text_channel_entry(Some(2), Some("9"), Some("voice")).is_none());
    assert!(text_channel_entry(None, Some("9"), None).is_none());
}

#[test]
fn discord_avatars_and_users() {
    assert_eq!(avatar_url("42", "a_beef"), "https://cdn.discordapp.com/avatars/42/a_beef.gif?size=256");
    assert_eq!(avatar_url("42", "beef"), "https://cdn.discordapp.com/avatars/42/beef.png?size=256");
    let u = user_entry(Some("42"), Some("nat"), Some("beef"));
    assert_eq!(u.avatar_url.as_deref(), Some("https://cdn.discordapp.com/avatars/42/beef.png?size=256"));
    let u = user_entry(None, None, None);
    assert_eq!((u.id.as_str(), u.username.as_str(), u.avatar_url), ("", "", None));
}

#[test]
fn discord_sync_status_and_backfill_depth() {
    let s = sync_status("c1".into(), None, 12);
    assert_eq!((s.channel_id.as_str(), s.last_sync, s.backfill_done, s.message_count), ("c1", None, false, 12));
    let recorded = FfiDiscordSyncStatus {
        channel_id: "c1".into(),
        last_sync: Some(100),
        backfill_done: true,
        message_count: 0,
    };
    let s = sync_status("c1".into(), Some(recorded), 7);
    assert_eq!((s.last_sync, s.backfill_done, s.message_count), (Some(100), true, 7));
    let configs = vec![("a".to_string(), "7d".to_string()), ("b".to_string(), "all".to_string())];
    assert_eq!(configured_backfill_depth(&configs, "b"), Ok("all".to_string()));
    assert_eq!(
        configured_backfill_depth(&configs, "z"),
        Err(FfiError::ConfigError { detail: "channel z is not configured for archiving".into() })
    );
}

fn engine(id: &str, condition: &str, error: Option<&str>) -> FfiSearchEngineHealth {
    FfiSearchEngineHealth {
        engine_id: id.into(),
        display_name: String::new(),
        condition: condition.into(),
        last_error: error.map(String::from),
        last_ok_unix: None,
        repaired_at_unix: None,
        backoff_remaining_secs: Some(30),
    }
}

#[test]
fn search_engine_health_joins_live_state() {
    let specs = vec![
        EngineSpec { id: "ddg_html".into(), display_name: "DuckDuckGo".into() },
        EngineSpec { id: "mojeek".into(), display_name: "Mojeek".into() },
    ];
    let live = vec![engine("mojeek", "healthy", None), engine("mojeek", "backoff", Some("HTTP 429"))];
    let rows = join_search_engine_health(&specs, &live);
    assert_eq!(rows.len(), 2);
    assert_eq!(rows[0].engine_id, "ddg_html");
    assert_eq!(rows[0].condition, "healthy");
    assert_eq!(rows[0].backoff_remaining_secs, None);
    assert_eq!(rows[1].display_name, "Mojeek");
    assert_eq!(rows[1].condition, "backoff");
    assert_eq!(rows[1].last_error.as_deref(), Some("HTTP 429"));
    assert_eq!(rows[1].backoff_remaining_secs, Some(30));
}

#[test]
fn failing_engines_surface_as_error_components() {
    let c = engine_component(&engine("mojeek", "backoff", Some("HTTP 429")));
    assert_eq!((c.name.as_str(), c.status.as_str(), c.restart_count), ("web_search/mojeek", "error", 0));
    let ok = search_engine_components(&vec![engine("wikipedia", "healthy", None)]);
    assert_eq!(ok[0].status, "ok");
    let daemon = vec![FfiComponentHealth {
        name: "gateway".into(),
        status: "ok".into(),
        last_error: None,
        restart_count: 2,
    }];
    let d = health_detail(false, 7, 0, daemon, &vec![engine("mojeek", "backoff", None)]);
    assert_eq!(d.components.len(), 2);
    assert_eq!(d.components[0].name, "gateway");
    assert!(d.components.iter().any(|c| c.name == "web_search/mojeek" && c.status == "error"));
}

struct Recorder {
    seen: Rc<RefCell<Vec<String>>>,
}

impl FfiEventListener for Recorder {
    fn on_event(&self, event_json: String) {
        self.seen.borrow_mut().push(event_json);
    }
}

#[test]
fn event_hub_buffers_and_forwards_events() {
    let seen = Rc::new(RefCell::new(Vec::new()));
    let mut hub = EventHub::new();
    hub.emit_custom_event("before", "{}", 5);
    hub.register_event_listener(Recorder { seen: seen.clone() });
    hub.emit_custom_event("capability_\"approval", "{\"x\":1}", 10);
    hub.record_event(&ObserverEvent::HeartbeatTick, 11);
    assert_eq!(
        seen.borrow().clone(),
        vec![
            "{\"id\":1,\"timestamp_ms\":10,\"kind\":\"capability_\\\"approval\",\"data\":{\"x\":1}}".to_string(),
            "{\"id\":2,\"timestamp_ms\":11,\"kind\":\"heartbeat_tick\",\"data\":{}}".to_string(),
        ]
    );
    assert_eq!(hub.next_id, 3);
    let recent = hub.get_recent_events(2);
    assert!(recent.starts_with("[{\"id\":1,"));
    hub.unregister_event_listener();
    hub.emit_custom_event("after", "{}", 12);
    assert_eq!(seen.borrow().len(), 2);
    assert!(hub.get_recent_events(10).contains("\"id\":0,"));
}

#[test]
fn tool_events_name_their_skill() {
    let mut hub: EventHub<Recorder> = EventHub::new();
    hub.skills.register_skill_tool_names(vec![("web_fetch".into(), "research".into())]);
    hub.record_event(&ObserverEvent::ToolCallStart { tool: "web_fetch".into() }, 1);
    assert_eq!(
        hub.get_recent_events(1),
        "[{\"id\":0,\"timestamp_ms\":1,\"kind\":\"tool_call_start\",\"data\":{\"tool\":\"web_fetch\",\"skill_name\":\"research\"}}]"
    );
}

#[test]
fn cron_job_times_are_parsed_from_rfc3339() {
    let mut f = fields();
    f.next_run = Some("2026-01-01T01:00:00+01:00".into());
    f.last_run = Some("1970-01-01T00:00:01.5Z".into());
    let job = cron_job_from_fields(&f);
    assert_eq!(job.next_run_ms, 1_767_225_600_000);
    assert_eq!(job.last_run_ms, Some(1_500));
    f.next_run = Some("tomorrow".into());
    f.last_run = Some("2026-13-01T00:00:00Z".into());
    let job = cron_job_from_fields(&f);
    assert_eq!(job.next_run_ms, 0);
    assert_eq!(job.last_run_ms, None);
}
