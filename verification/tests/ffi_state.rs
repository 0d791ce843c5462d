use std::time::Instant;
use zeroai::clawboy::session::{
    start_error, stop_error, ActiveSession, ClawBoyRegistry, ALREADY_RUNNING, NO_SESSION,
};
use zeroai::clawboy::types::{ClawBoyStatus, RomVerification};
use zeroai::error::FfiError;
use zeroai::memory_browse::{
    check_memory_metadata, run_memory_maintenance, saturating_u32, token_budget_split,
    working_context,
};
use zeroai::scripting::audit::script_eval_error;
use zeroai::scripting::capabilities::ScriptExecutionSession;
use zeroai::scripting::host_gate::check_host_call;
use zeroai::scripting::manifest::{ScriptError, ScriptLimits, ScriptManifest, ScriptOperation};
use zeroai::scripting::validation::validate_script;

fn session_granting(caps: &[&str]) -> ScriptExecutionSession {
    let mut m = ScriptManifest::default();
    m.name = "gate".into();
    m.capabilities = caps.iter().map(|c| c.to_string()).collect();
    m.explicit_capabilities = true;
    let v = validate_script(&ScriptLimits::default(), "1", Some(m)).unwrap();
    ScriptExecutionSession::new(&v)
}

#[test]
fn granted_host_calls_pass_the_gate() {
    let mut s = session_granting(&["agent.read"]);
    assert_eq!(check_host_call(&mut s, ScriptOperation::Status), Ok(()));
}

#[test]
fn denied_host_calls_come_back_as_the_same_denial() {
    let mut s = session_granting(&[]);
    let message = check_host_call(&mut s, ScriptOperation::SendMessage).unwrap_err();
    assert_eq!(message, "__zero_capability_denied__|send|model.chat");
    match script_eval_error(format!("Runtime error: {message}")) {
        ScriptError::CapabilityDenied { operation, capability } => {
            assert_eq!(operation, "send");
            assert_eq!(capability, "model.chat");
        }
        other => panic!("unexpected: {other:?}"),
    }
}

#[test]
fn memory_counts_saturate_and_budgets_split() {
    assert_eq!(saturating_u32(7), 7);
    assert_eq!(saturating_u32(usize::MAX), u32::MAX);
    assert_eq!(token_budget_split(0), None);
    assert_eq!(token_budget_split(1000), Some((360, 360, 280)));
    assert_eq!(token_budget_split(1), Some((0, 0, 1)));
    let c = working_context("id".into(), "rc".into(), "ep".into(), 12);
    assert_eq!((c.identity_block.as_str(), c.estimated_tokens), ("id", 12));
    let r = run_memory_maintenance();
    assert_eq!((r.pruned_count, r.merged_count), (0, 0));
}

#[test]
fn memory_metadata_rules() {
    assert_eq!(check_memory_metadata("llm", 30), Ok(()));
    assert_eq!(
        check_memory_metadata("robot", 30),
        Err(FfiError::InvalidArgument {
            detail: "source must be one of [\"heuristic\", \"llm\", \"agent\", \"user\", \"migrated\"], got \"robot\"".into()
        })
    );
    assert_eq!(
        check_memory_metadata("user", 0),
        Err(FfiError::InvalidArgument { detail: "decay_half_life_days must be > 0".into() })
    );
}

fn active(url: &str) -> ActiveSession {
    ActiveSession {
        viewer_url: url.into(),
        paused: false,
        decision_interval_ms: 5000,
        channel_id: Some("chan".into()),
        started_at: Instant::now(),
    }
}

#[test]
fn session_controls_need_a_running_session() {
    let mut reg = ClawBoyRegistry::new();
    assert!(matches!(reg.get_status(), ClawBoyStatus::Idle));
    assert_eq!(reg.pause_session(), Err(NO_SESSION.to_string()));
    assert_eq!(reg.resume_session(), Err(NO_SESSION.to_string()));
    assert_eq!(reg.set_decision_interval(10), Err(NO_SESSION.to_string()));
    assert!(matches!(reg.take_session(), Err(ref e) if e == NO_SESSION));
    assert_eq!(reg.originating_channel_id(), None);
}

#[test]
fn session_controls_change_the_running_session() {
    let mut reg = ClawBoyRegistry::new();
    assert_eq!(reg.check_can_start(), Ok(()));
    reg.install(active("http://10.0.0.2:8080"));
    assert_eq!(reg.check_can_start(), Err(ALREADY_RUNNING.to_string()));
    match reg.get_status() {
        ClawBoyStatus::Playing { viewer_url, .. } => assert_eq!(viewer_url, "http://10.0.0.2:8080"),
        other => panic!("unexpected: {other:?}"),
    }
    assert_eq!(reg.pause_session(), Ok(()));
    assert!(matches!(reg.get_status(), ClawBoyStatus::Paused { ref reason } if reason == "user paused"));
    assert_eq!(reg.resume_session(), Ok(()));
    assert_eq!(reg.set_decision_interval(1234), Ok(()));
    assert_eq!(reg.session.as_ref().unwrap().decision_interval_ms, 1234);
    assert_eq!(reg.originating_channel_id(), Some("chan".to_string()));
    let s = reg.take_session().unwrap();
    assert_eq!(s.viewer_url, "http://10.0.0.2:8080");
    assert!(matches!(reg.get_status(), ClawBoyStatus::Idle));
}

#[test]
fn rom_flags_and_user_messages() {
    let mut reg = ClawBoyRegistry::new();
    reg.notify_rom_ready("/data/first");
    reg.notify_rom_ready("/data/second");
    assert!(reg.rom_present);
    assert_eq!(reg.rom_data_dir.as_deref(), Some("/data/first"));
    reg.notify_rom_removed();
    assert!(!reg.rom_present);
    assert_eq!(reg.rom_data_dir.as_deref(), Some("/data/first"));
    reg.push_user_message("go left".into());
    reg.push_user_message("catch it".into());
    assert_eq!(reg.drain_user_messages(), vec!["go left".to_string(), "catch it".to_string()]);
    assert!(reg.drain_user_messages().is_empty());
}

#[test]
fn session_failures_map_to_ffi_errors() {
    assert_eq!(
        start_error(ALREADY_RUNNING.to_string()),
        FfiError::StateError { detail: ALREADY_RUNNING.to_string() }
    );
    assert_eq!(
        start_error("failed to read ROM".to_string()),
        FfiError::SpawnError { detail: "failed to read ROM".to_string() }
    );
    // The registry's message says "no ... session is running", which is
    // not the "not running" the mapping looks for.
    assert_eq!(
        stop_error(NO_SESSION.to_string()),
        FfiError::SpawnError { detail: NO_SESSION.to_string() }
    );
    assert_eq!(
        stop_error("session not running".to_string()),
        FfiError::StateError { detail: "session not running".to_string() }
    );
    assert_eq!(stop_error("boom".to_string()), FfiError::SpawnError { detail: "boom".to_string() });
}

#[test]
fn start_is_refused_for_an_unverified_rom_or_a_running_session() {
    let mut reg = ClawBoyRegistry::new();
    let good = RomVerification { valid: true, sha1: "EA9BCAE617FDF159B045185467AE58B2E4A48B9A".into() };
    let bad = RomVerification { valid: false, sha1: "0000".into() };
    assert_eq!(reg.check_can_start_with(&good), Ok(()));
    let e = reg.check_can_start_with(&bad).unwrap_err();
    assert_eq!(e, "ROM failed verification: SHA-1 0000 does not match the expected Pokemon Red dump");
    assert!(matches!(start_error(e), FfiError::SpawnError { .. }));
    reg.install(active("http://10.0.0.2:8080"));
    assert_eq!(reg.check_can_start_with(&good), Err(ALREADY_RUNNING.to_string()));
    assert_eq!(reg.check_can_start_with(&bad), Err(ALREADY_RUNNING.to_string()));
}

#[test]
fn pausing_keeps_the_session_clock() {
    let mut reg = ClawBoyRegistry::new();
    let s = active("http://10.0.0.2:8080");
    let started = s.started_at;
    reg.install(s);
    reg.pause_session().unwrap();
    reg.set_decision_interval(900).unwrap();
    reg.resume_session().unwrap();
    let t = reg.session.as_ref().unwrap();
    assert_eq!(t.started_at, started);
    assert!(!t.paused);
    assert_eq!(t.decision_interval_ms, 900);
}
