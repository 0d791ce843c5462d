use zeroai::clawboy::rom::verify_rom;
use zeroai::scripting::content_hash::hash_bytes;
use zeroai::scripting::discovery::{
    discover_workspace_scripts, runtime_kind_from_path, skill_script_manifest, workflow_manifest,
    SkillBundle, SkillBundleScript,
};
use zeroai::scripting::manifest::{ScriptError, ScriptManifest, ScriptRuntimeKind};
use zeroai::scripting::url_safety::{
    check_resolved_addresses, is_private_ip, url_target, IpAddress, ResolvedAddress,
};
use zeroai::scripting::workspace::{check_workspace_relative_path, resolve_workspace_script_manifest};

fn demo_skill() -> SkillBundle {
    SkillBundle {
        name: "demo".to_string(),
        permissions: vec!["memory.read".to_string()],
        scripts: vec![SkillBundleScript {
            name: "triage".to_string(),
            path: "skills/demo/scripts/triage.rhai".to_string(),
        }],
    }
}

#[test]
fn hash_bytes_is_deterministic() {
    let h1 = hash_bytes(b"hello world");
    let h2 = hash_bytes(b"hello world");
    assert_eq!(h1, h2);
    assert_eq!(h1.len(), 64);
}

#[test]
fn hash_bytes_differs_for_different_input() {
    let h1 = hash_bytes(b"hello");
    let h2 = hash_bytes(b"world");
    assert_ne!(h1, h2);
}

#[test]
fn hash_bytes_of_empty_input_is_the_known_digest() {
    assert_eq!(
        hash_bytes(b""),
        "e3b0c44298fc1c149afbf4c8996fb92427ae41e4649b934ca495991b7852b855"
    );
}

#[test]
fn verify_rom_reports_upper_case_sha1_of_the_image() {
    let result = verify_rom(b"abc");
    assert_eq!(result.sha1, "A9993E364706816ABA3E25717850C26C9CD0D89D");
    assert!(!result.valid);
}

#[test]
fn runtime_is_chosen_by_extension_ignoring_case() {
    assert_eq!(runtime_kind_from_path("workflows/a.rhai"), Some(ScriptRuntimeKind::Rhai));
    assert_eq!(runtime_kind_from_path("workflows/a.WASM"), Some(ScriptRuntimeKind::WasmComponent));
    assert_eq!(runtime_kind_from_path("workflows/a.py"), Some(ScriptRuntimeKind::Python));
    assert_eq!(runtime_kind_from_path("workflows/readme.md"), None);
    assert_eq!(runtime_kind_from_path("workflows/noext"), None);
}

#[test]
fn workflow_manifest_skips_unknown_extensions() {
    let m = workflow_manifest("workflows/cleanup.rhai").unwrap();
    assert_eq!(m.name, "workflows/cleanup.rhai");
    assert_eq!(m.script_path.as_deref(), Some("workflows/cleanup.rhai"));
    assert_eq!(m.runtime, ScriptRuntimeKind::Rhai);
    assert!(m.capabilities.is_empty());
    assert!(workflow_manifest("workflows/notes.txt").is_none());
}

#[test]
fn skill_script_manifest_is_namespaced_and_inherits_permissions() {
    let skill = demo_skill();
    let m = skill_script_manifest(&skill.name, &skill.permissions, &skill.scripts[0]);
    assert_eq!(m.name, "demo::triage");
    assert_eq!(m.capabilities, vec!["memory.read".to_string()]);
    assert_eq!(m.runtime, ScriptRuntimeKind::Rhai);
    assert_eq!(m.script_path.as_deref(), Some("skills/demo/scripts/triage.rhai"));
}

#[test]
fn discovery_finds_workflows_and_skill_scripts_sorted_by_name() {
    let workflows = vec![
        "workflows/zeta.rhai".to_string(),
        "workflows/readme.md".to_string(),
        "workflows/cleanup.rhai".to_string(),
    ];
    let manifests = discover_workspace_scripts(&workflows, &vec![demo_skill()]);
    assert_eq!(manifests.len(), 3);
    let names: Vec<&str> = manifests.iter().map(|m| m.name.as_str()).collect();
    assert_eq!(names, vec!["demo::triage", "workflows/cleanup.rhai", "workflows/zeta.rhai"]);
    assert!(manifests
        .iter()
        .any(|m| m.name == "demo::triage" && m.capabilities == vec!["memory.read".to_string()]));
}

#[test]
fn workspace_paths_must_stay_inside_the_workspace() {
    assert!(check_workspace_relative_path("workflows/a.rhai").is_ok());
    assert!(check_workspace_relative_path("a..b/c").is_ok());
    assert!(check_workspace_relative_path("./a").is_ok());
    for bad in ["/etc/passwd", "../escape.rhai", "a/../../b", "a/.."] {
        match check_workspace_relative_path(bad) {
            Err(ScriptError::InvalidArgument { detail }) => {
                assert_eq!(detail, format!("workspace path must be relative without '..': {bad}"));
            }
            other => panic!("unexpected result for {bad}: {other:?}"),
        }
    }
}

#[test]
fn resolve_uses_the_discovered_skill_manifest() {
    let discovered = discover_workspace_scripts(&vec![], &vec![demo_skill()]);
    let m = resolve_workspace_script_manifest("skills/demo/scripts/triage.rhai", &discovered, None)
        .unwrap();
    assert_eq!(m.name, "demo::triage");
    assert_eq!(m.capabilities, vec!["memory.read".to_string()]);
}

#[test]
fn resolve_builds_a_manifest_for_an_undiscovered_script_and_sorts_grants() {
    let m = resolve_workspace_script_manifest(
        "workflows/guest.py",
        &Vec::<ScriptManifest>::new(),
        Some(vec!["net.http".to_string(), "memory.read".to_string(), "net.http".to_string()]),
    )
    .unwrap();
    assert_eq!(m.name, "workflows/guest.py");
    assert_eq!(m.runtime, ScriptRuntimeKind::Python);
    assert_eq!(m.capabilities, vec!["memory.read".to_string(), "net.http".to_string()]);
}

#[test]
fn resolve_refuses_a_parent_path() {
    assert!(matches!(
        resolve_workspace_script_manifest("../x.rhai", &Vec::<ScriptManifest>::new(), None),
        Err(ScriptError::InvalidArgument { .. })
    ));
}

#[test]
fn private_ip_ranges() {
    assert!(is_private_ip(&IpAddress::V4(127, 0, 0, 1)));
    assert!(is_private_ip(&IpAddress::V4(10, 0, 0, 1)));
    assert!(is_private_ip(&IpAddress::V4(172, 16, 0, 1)));
    assert!(is_private_ip(&IpAddress::V4(192, 168, 1, 1)));
    assert!(is_private_ip(&IpAddress::V4(169, 254, 0, 1)));
    assert!(is_private_ip(&IpAddress::V4(255, 255, 255, 255)));
    assert!(is_private_ip(&IpAddress::V4(0, 0, 0, 0)));
    assert!(is_private_ip(&IpAddress::V4(100, 64, 0, 1)));
    assert!(!is_private_ip(&IpAddress::V4(100, 128, 0, 1)));
    assert!(!is_private_ip(&IpAddress::V4(172, 32, 0, 1)));
    assert!(!is_private_ip(&IpAddress::V4(8, 8, 8, 8)));
    assert!(is_private_ip(&IpAddress::V6(0, 0, 0, 0, 0, 0, 0, 1)));
    assert!(is_private_ip(&IpAddress::V6(0, 0, 0, 0, 0, 0, 0, 0)));
    assert!(is_private_ip(&IpAddress::V6(0, 0, 0, 0, 0, 0xffff, 0x7f00, 1)));
    assert!(is_private_ip(&IpAddress::V6(0xfe80, 0, 0, 0, 0, 0, 0, 1)));
    assert!(is_private_ip(&IpAddress::V6(0xfd00, 0, 0, 0, 0, 0, 0, 1)));
    assert!(!is_private_ip(&IpAddress::V6(0x2001, 0xdb8, 0, 0, 0, 0, 0, 1)));
}

#[test]
fn url_target_rejects_decimal_ip() {
    match url_target("http://2130706433/api") {
        Err(ScriptError::InvalidArgument { detail }) => {
            assert_eq!(detail, "URL resolves to private IP: 127.0.0.1");
        }
        other => panic!("unexpected: {other:?}"),
    }
}

#[test]
fn url_target_rejects_rfc1918() {
    assert!(url_target("http://10.0.0.1/api").is_err());
    assert!(url_target("http://172.16.0.1/api").is_err());
    assert!(url_target("http://192.168.1.1/api").is_err());
}

#[test]
fn url_target_allows_public_host_with_default_ports() {
    assert_eq!(
        url_target("https://example.com/v1/models").unwrap(),
        ("example.com".to_string(), 443)
    );
    assert_eq!(url_target("http://example.com/").unwrap(), ("example.com".to_string(), 80));
    assert_eq!(
        url_target("http://example.com:8080/x").unwrap(),
        ("example.com".to_string(), 8080)
    );
}

#[test]
fn url_target_refuses_other_schemes_and_bad_urls() {
    match url_target("ftp://example.com/") {
        Err(ScriptError::InvalidArgument { detail }) => {
            assert_eq!(detail, "only http/https schemes allowed, got 'ftp'");
        }
        other => panic!("unexpected: {other:?}"),
    }
    match url_target("not a url") {
        Err(ScriptError::InvalidArgument { detail }) => assert!(detail.starts_with("invalid URL: ")),
        other => panic!("unexpected: {other:?}"),
    }
}

#[test]
fn resolved_ipv4_mapped_ipv6_is_rejected() {
    let (host, _port) = url_target("http://[::ffff:127.0.0.1]/api").unwrap();
    let addrs = vec![ResolvedAddress {
        ip: IpAddress::V6(0, 0, 0, 0, 0, 0xffff, 0x7f00, 1),
        text: "::ffff:127.0.0.1".to_string(),
    }];
    match check_resolved_addresses(&host, &addrs) {
        Err(ScriptError::InvalidArgument { detail }) => {
            assert_eq!(
                detail,
                format!("URL host '{host}' resolves to private IP: ::ffff:127.0.0.1")
            );
        }
        other => panic!("unexpected: {other:?}"),
    }
}

#[test]
fn resolved_public_addresses_pass() {
    let addrs = vec![ResolvedAddress {
        ip: IpAddress::V4(93, 184, 216, 34),
        text: "93.184.216.34".to_string(),
    }];
    assert!(check_resolved_addresses("example.com", &addrs).is_ok());
    assert!(check_resolved_addresses("example.com", &vec![]).is_ok());
}
