use zeroai::scripting::manifest::{ScriptError, ScriptLimits, ScriptManifest, ScriptRuntimeKind};
use zeroai::scripting::validation::{
    plugin_runtimes, rhai_validation_from, validate_guest_manifest, validate_script,
    INFERRED_PERMISSIONS_WARNING, MISSING_CAPABILITIES_WARNING, NO_CAPABILITIES_WARNING,
};

#[test]
fn oversized_script_is_rejected() {
    let limits = ScriptLimits { max_script_bytes: 8, ..ScriptLimits::default() };
    let err = validate_script(&limits, "let x = 1234567;", None).unwrap_err();
    assert_eq!(
        err,
        ScriptError::ValidationError { detail: "script exceeds the 8 byte safety limit".to_owned() }
    );
}

#[test]
fn syntax_errors_are_validation_errors() {
    let err = validate_script(&ScriptLimits::default(), "let = ;", None).unwrap_err();
    assert!(matches!(err, ScriptError::ValidationError { .. }));
    let err = rhai_validation_from("1", None, Some("bad token".to_owned())).unwrap_err();
    assert_eq!(err, ScriptError::ValidationError { detail: "bad token".to_owned() });
}

#[test]
fn inferred_capabilities_are_requested_without_a_manifest() {
    let v = validate_script(&ScriptLimits::default(), "send(\"hi\"); status()", None).unwrap();
    assert_eq!(v.manifest_name, "inline-script");
    assert_eq!(v.runtime, ScriptRuntimeKind::Rhai);
    assert!(!v.requested_capabilities.is_empty());
    assert!(v.missing_capabilities.is_empty());
    assert_eq!(v.warnings, vec![INFERRED_PERMISSIONS_WARNING.to_owned()]);
    assert!(v.available_capabilities.contains(&"model.chat".to_owned()));
}

#[test]
fn script_without_host_calls_requests_nothing() {
    let v = validate_script(&ScriptLimits::default(), "1 + 2", None).unwrap();
    assert!(v.requested_capabilities.is_empty());
    assert_eq!(v.warnings, vec![NO_CAPABILITIES_WARNING.to_owned()]);
}

#[test]
fn explicit_manifest_reports_missing_capabilities() {
    let manifest = ScriptManifest {
        name: "notify".to_owned(),
        capabilities: vec!["memory.read".to_owned(), "memory.read".to_owned()],
        explicit_capabilities: true,
        ..ScriptManifest::default()
    };
    let v = validate_script(&ScriptLimits::default(), "send(\"hi\")", Some(manifest)).unwrap();
    assert_eq!(v.manifest_name, "notify");
    assert_eq!(v.requested_capabilities, vec!["memory.read".to_owned()]);
    assert!(!v.missing_capabilities.is_empty());
    assert_eq!(v.warnings, vec![MISSING_CAPABILITIES_WARNING.to_owned()]);
}

#[test]
fn guest_scripts_are_validated_by_manifest() {
    let manifest = ScriptManifest {
        name: "guest".to_owned(),
        runtime: ScriptRuntimeKind::WasmComponent,
        ..ScriptManifest::default()
    };
    let v = validate_guest_manifest(&ScriptLimits::default(), Some(manifest), 10).unwrap();
    assert_eq!(v.runtime, ScriptRuntimeKind::WasmComponent);
    assert!(v.requested_capabilities.is_empty());
    assert_eq!(v.warnings.len(), 3);
    assert_eq!(v.warnings[0], "Guest script does not currently request any host capabilities.");
    let limits = ScriptLimits { max_script_bytes: 4, ..ScriptLimits::default() };
    assert!(validate_guest_manifest(&limits, None, 5).is_err());
}

#[test]
fn runtimes_are_advertised() {
    let runtimes = plugin_runtimes();
    assert_eq!(runtimes.len(), 3);
    assert_eq!(runtimes[0].kind, ScriptRuntimeKind::Rhai);
    assert!(runtimes[0].available);
    assert!(!runtimes[0].isolates_guest);
    assert!(runtimes[1].isolates_guest && runtimes[2].isolates_guest);
}

#[test]
fn validation_infers_flat_and_namespaced_capabilities() {
    let validation = validate_script(
        &ScriptLimits::default(),
        r#"
            send("hello");
            memory::recall("topic", 5);
            tools::list();
        "#,
        None,
    )
    .unwrap();
    assert_eq!(
        validation.requested_capabilities,
        vec!["memory.read".to_string(), "model.chat".to_string(), "tools.read".to_string()]
    );
    assert!(validation.warnings.iter().any(|warning| warning.contains("source-inferred")));
}

#[test]
fn explicit_manifest_missing_capability_is_reported() {
    let validation = validate_script(
        &ScriptLimits::default(),
        r#"send("hello");"#,
        Some(ScriptManifest {
            name: "limited".to_string(),
            capabilities: vec!["memory.read".to_string()],
            ..ScriptManifest::default()
        }),
    )
    .unwrap();
    assert_eq!(validation.missing_capabilities, vec!["model.chat".to_string()]);
}

#[test]
fn guest_runtime_validation_is_deterministic() {
    let validation = validate_script(
        &ScriptLimits::default(),
        "print('hello')",
        Some(ScriptManifest {
            name: "guest".to_string(),
            runtime: ScriptRuntimeKind::Python,
            capabilities: vec!["memory.read".to_string()],
            explicit_capabilities: true,
            ..ScriptManifest::default()
        }),
    )
    .unwrap();
    assert_eq!(validation.runtime, ScriptRuntimeKind::Python);
    assert_eq!(validation.requested_capabilities, vec!["memory.read".to_string()]);
    assert!(validation.warnings.iter().any(|warning| warning.contains("stable plugin ABI")));
}

#[test]
fn explicit_empty_capabilities_stay_denied() {
    let validation = validate_script(
        &ScriptLimits::default(),
        r#"send("hello");"#,
        Some(ScriptManifest {
            name: "deny-all".to_string(),
            explicit_capabilities: true,
            ..ScriptManifest::default()
        }),
    )
    .unwrap();
    assert!(validation.requested_capabilities.is_empty());
    assert_eq!(validation.missing_capabilities, vec!["model.chat".to_string()]);
}
