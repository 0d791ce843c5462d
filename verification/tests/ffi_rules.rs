use zeroai::auth_profiles::{
    account_id_source, check_profile_ref, check_standalone_data_dir, merge_metadata,
    normalize_metadata, oauth_profile_request, token_profile_name, AccountIdSource,
    ProfileMetadata,
};
use zeroai::consolidation::{
    backlog_excess, backlog_message_text, parse_category, truncate_chars, FfiConsolidationReport,
    MemoryCategory, MAX_REPORT_ERRORS,
};
use zeroai::error::FfiError;
use zeroai::eval_script_tool::{
    agent_eval_manifest, categorize_script_error, format_output, precheck_code, run_result,
    EvalScriptTool, ToolResult,
};
use zeroai::scripting::manifest::{ScriptError, ScriptLimits, ScriptManifest, ScriptRuntimeKind};
use zeroai::scripting::validation::{execution_refusal, validate_script};

#[test]
fn tool_name_is_eval_script() {
    let tool = EvalScriptTool::new();
    assert_eq!(tool.name(), "eval_script");
    assert!(tool.description().contains("Rhai"));
}

#[test]
fn empty_and_whitespace_scripts_are_syntax_errors() {
    for code in ["", "   \n\t  "] {
        let result = precheck_code(Some(code)).unwrap().unwrap();
        assert!(!result.success);
        assert_eq!(result.error.as_deref(), Some("SyntaxError: script is empty"));
    }
}

#[test]
fn missing_code_is_an_error_of_the_call() {
    assert_eq!(precheck_code(None), Err("Missing 'code' parameter".to_string()));
}

#[test]
fn oversized_eval_code_is_a_syntax_error() {
    let big = "x".repeat(129 * 1024);
    let result = precheck_code(Some(&big)).unwrap().unwrap();
    assert!(!result.success);
    assert_eq!(
        result.error.as_deref(),
        Some("SyntaxError: script too large (132096 bytes, max 128KB)")
    );
    let limit = "x".repeat(128 * 1024);
    assert_eq!(precheck_code(Some(&limit)), Ok(None));
    assert_eq!(precheck_code(Some("40 + 2")), Ok(None));
}

#[test]
fn agent_manifest_grants_model_chat_only_with_nano() {
    let with = agent_eval_manifest(true);
    let without = agent_eval_manifest(false);
    assert_eq!(with.name, "agent");
    assert_eq!(with.version, "0.0.0");
    assert!(with.explicit_capabilities);
    assert_eq!(with.limits.max_operations, 10_000_000);
    assert!(with.capabilities.contains(&"model.chat".to_string()));
    assert!(!without.capabilities.contains(&"model.chat".to_string()));
    assert_eq!(with.capabilities.len(), without.capabilities.len() + 1);
}

#[test]
fn output_truncated_at_16kib_on_a_char_boundary() {
    let small = format_output("42".to_string());
    assert_eq!(small, "42");
    let long = "x".repeat(32768);
    let shown = format_output(long);
    assert!(shown.len() <= 16 * 1024 + 100);
    assert_eq!(shown, format!("{}...[truncated, 32768 bytes total]", "x".repeat(16384)));
    // A two-byte character straddling the limit is left out whole.
    let mixed = format!("{}é{}", "a".repeat(16383), "b".repeat(100));
    let shown = format_output(mixed);
    assert_eq!(shown, format!("{}...[truncated, 16485 bytes total]", "a".repeat(16383)));
}

#[test]
fn script_errors_are_categorised() {
    let cases = [
        (ScriptError::ValidationError { detail: "bad".into() }, "SyntaxError: bad"),
        (
            ScriptError::CapabilityDenied { operation: "send".into(), capability: "model.chat".into() },
            "CapabilityDenied: send requires model.chat",
        ),
        (
            ScriptError::HostError { operation: "x".into(), detail: "Script TIMED OUT".into() },
            "Timeout: script exceeded 30s wall-clock limit",
        ),
        (
            ScriptError::HostError { operation: "x".into(), detail: "Too many operations: limit hit".into() },
            "OperationLimit: exceeded 10000000 operations",
        ),
        (
            ScriptError::HostError { operation: "x".into(), detail: "boom".into() },
            "RuntimeError: boom",
        ),
        (ScriptError::InvalidArgument { detail: "arg".into() }, "RuntimeError: arg"),
        (ScriptError::InternalState { detail: "st".into() }, "RuntimeError: internal error: st"),
    ];
    for (err, expected) in cases {
        assert_eq!(categorize_script_error(&err), expected);
    }
}

#[test]
fn run_results_report_success_and_failure() {
    assert_eq!(
        run_result(Ok("ok".to_string())),
        ToolResult { success: true, output: "ok".to_string(), error: None }
    );
    assert_eq!(
        run_result(Err(ScriptError::ValidationError { detail: "x".into() })),
        ToolResult { success: false, output: String::new(), error: Some("SyntaxError: x".into()) }
    );
}

#[test]
fn only_rhai_runs_in_this_build() {
    let limits = ScriptLimits::default();
    let rhai = validate_script(&limits, "40 + 2", None).unwrap();
    assert!(execution_refusal(&rhai).is_none());
    let mut m = ScriptManifest::default();
    m.name = "guest".into();
    m.runtime = ScriptRuntimeKind::WasmComponent;
    let wasm = validate_script(&limits, "", Some(m)).unwrap();
    let (err, audit) = execution_refusal(&wasm).unwrap();
    match err {
        ScriptError::ValidationError { detail } => {
            assert!(detail.starts_with("WasmComponent runtime not available in this build."));
            assert_eq!(audit.error.as_deref(), Some(detail.as_str()));
        }
        other => panic!("unexpected: {other:?}"),
    }
    assert!(!audit.success);
    assert_eq!(audit.script_name, "guest");
    let mut p = ScriptManifest::default();
    p.runtime = ScriptRuntimeKind::Python;
    let py = validate_script(&limits, "", Some(p)).unwrap();
    assert!(matches!(execution_refusal(&py), Some((ScriptError::ValidationError { .. }, _))));
}

#[test]
fn test_parse_category_core() {
    assert!(matches!(parse_category("core"), MemoryCategory::Core));
}

#[test]
fn test_parse_category_daily() {
    assert!(matches!(parse_category("daily"), MemoryCategory::Daily));
}

#[test]
fn test_parse_category_conversation() {
    assert!(matches!(parse_category("conversation"), MemoryCategory::Conversation));
}

#[test]
fn test_parse_category_custom() {
    let cat = parse_category("project_notes");
    assert!(matches!(cat, MemoryCategory::Custom(ref s) if s == "project_notes"));
    assert_eq!(cat.to_string(), "project_notes");
    assert_eq!(MemoryCategory::Core.to_string(), "core");
}

#[test]
fn backlog_messages_are_truncated_by_characters() {
    assert_eq!(backlog_message_text("short"), "short");
    let long = "é".repeat(5000);
    assert_eq!(backlog_message_text(&long).chars().count(), 4096);
    assert_eq!(truncate_chars("abcdef", 3), "abc");
    assert_eq!(backlog_excess(200), 0);
    assert_eq!(backlog_excess(205), 5);
}

#[test]
fn report_keeps_at_most_ten_short_errors() {
    let mut report = FfiConsolidationReport::empty();
    for i in 0..15 {
        report.provider_failed(&format!("failure {i} {}", "z".repeat(300)));
    }
    assert_eq!(report.errors.len(), MAX_REPORT_ERRORS);
    assert!(report.errors.iter().all(|e| e.chars().count() <= 200));
    assert!(report.errors[0].starts_with("provider error: failure 0 "));
    assert!(report.errors[9].starts_with("provider error: failure 9 "));

    let mut r = FfiConsolidationReport::empty();
    r.parse_failed("bad json");
    r.provider_timed_out();
    r.fact_stored();
    r.sessions_added(3);
    assert_eq!(r.errors, vec!["parse error: bad json", "provider request timed out (60s)"]);
    assert_eq!(r.facts_extracted, 1);
    assert_eq!(r.sessions_summarized, 3);
    assert!(r.clears_backlog());
    assert!(!FfiConsolidationReport::empty().clears_backlog());
    assert_eq!(FfiConsolidationReport::disabled().errors, vec!["smart_extraction disabled"]);
}

fn invalid(detail: &str) -> FfiError {
    FfiError::InvalidArgument { detail: detail.to_string() }
}

#[test]
fn standalone_data_dir_rules() {
    assert_eq!(check_standalone_data_dir("  /data/app  "), Ok("/data/app".to_string()));
    assert_eq!(check_standalone_data_dir("   "), Err(invalid("data_dir must not be empty")));
    assert_eq!(check_standalone_data_dir("."), Err(invalid("data_dir must be an absolute path")));
    assert_eq!(
        check_standalone_data_dir("/tmp/x/../other"),
        Err(invalid("data_dir must not contain '..' segments"))
    );
    assert!(check_standalone_data_dir("/tmp/x..y").is_ok());
}

#[test]
fn test_standalone_rejects_relative_data_dir() {
    let result = check_standalone_data_dir(".");
    assert!(matches!(result, Err(FfiError::InvalidArgument { .. })));
}

#[test]
fn test_standalone_rejects_parent_dir_segments() {
    let bad = ["/tmp", "zeroai-auth", "..", "other"].join("/");
    let result = check_standalone_data_dir(&bad);
    assert!(matches!(result, Err(FfiError::InvalidArgument { .. })));
}

#[test]
fn oauth_profile_arguments() {
    let req = oauth_profile_request(
        " openai-codex ",
        " default ",
        " token ",
        Some("  ".into()),
        Some("id".into()),
        Some(5),
        Some("read write".into()),
    )
    .unwrap();
    assert_eq!(req.provider, "openai-codex");
    assert_eq!(req.profile_name, "default");
    assert_eq!(req.access_token, "token");
    assert_eq!(req.refresh_token, None);
    assert_eq!(req.id_token.as_deref(), Some("id"));
    assert_eq!(req.expires_at_ms, Some(5));
    assert_eq!(req.token_type, "Bearer");
    assert_eq!(req.scope.as_deref(), Some("read write"));
    assert!(matches!(
        oauth_profile_request("", "p", "t", None, None, None, None),
        Err(FfiError::InvalidArgument { ref detail }) if detail == "provider must not be empty"
    ));
    assert!(matches!(
        oauth_profile_request("p", " ", "t", None, None, None, None),
        Err(FfiError::InvalidArgument { ref detail }) if detail == "profile_name must not be empty"
    ));
    assert!(matches!(
        oauth_profile_request("p", "n", "", None, None, None, None),
        Err(FfiError::InvalidArgument { ref detail }) if detail == "access_token must not be empty"
    ));
}

#[test]
fn account_ids_and_profile_names() {
    assert_eq!(account_id_source("gemini"), AccountIdSource::IdTokenEmail);
    assert_eq!(account_id_source("vertex"), AccountIdSource::IdTokenEmail);
    assert_eq!(account_id_source("openai-codex"), AccountIdSource::AccessTokenJwt);
    assert_eq!(account_id_source("other"), AccountIdSource::NotDerived);
    assert_eq!(check_profile_ref(" a ", " b "), Ok(("a".to_string(), "b".to_string())));
    assert_eq!(
        check_profile_ref("a", " "),
        Err(invalid("provider and profile_name must not be empty"))
    );
    assert_eq!(token_profile_name(" default "), None);
    assert_eq!(token_profile_name(""), None);
    assert_eq!(token_profile_name(" work "), Some("work".to_string()));
}

fn lookup(m: &ProfileMetadata, key: &str) -> Option<String> {
    m.entries.iter().find(|(k, _)| k == key).map(|(_, v)| v.clone())
}

#[test]
fn metadata_merge_sets_and_removes_keys() {
    let mut stored = ProfileMetadata::new();
    stored.insert("email", "a@b.c");
    stored.insert("plan", "free");
    let raw = vec![
        (" email ".to_string(), "  ".to_string()),
        ("plan".to_string(), " pro ".to_string()),
        ("team".to_string(), "x".to_string()),
    ];
    let updates = normalize_metadata(&raw).unwrap();
    merge_metadata(&mut stored, &updates);
    assert_eq!(lookup(&stored, "email"), None);
    assert_eq!(lookup(&stored, "plan").as_deref(), Some("pro"));
    assert_eq!(lookup(&stored, "team").as_deref(), Some("x"));
    assert_eq!(stored.entries.len(), 2);
    assert_eq!(
        normalize_metadata(&vec![("  ".to_string(), "v".to_string())]).err(),
        Some(invalid("metadata keys must not be blank"))
    );
}

#[test]
fn the_active_profile_is_the_one_its_provider_names() {
    let mut active = ProfileMetadata::new();
    active.insert("gemini", "gemini:work");
    assert!(zeroai::auth_profiles::is_active_profile(&active, "gemini", "gemini:work"));
    assert!(!zeroai::auth_profiles::is_active_profile(&active, "gemini", "gemini:home"));
    assert!(!zeroai::auth_profiles::is_active_profile(&active, "openai", "openai:work"));
}
