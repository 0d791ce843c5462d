use zeroai::capability_grants::{is_dangerous_capability, GrantTable, PendingApprovals};
use zeroai::error::FfiError;

#[test]
fn dangerous_capabilities_need_approval() {
    for cap in ["tools.call", "cron.write", "auth.write", "auth.read"] {
        assert!(is_dangerous_capability(cap), "{cap}");
    }
    assert!(!is_dangerous_capability("memory.read"));
    assert!(!is_dangerous_capability("tools.call2"));
}

#[test]
fn saved_grant_is_found_and_revoked() {
    let mut grants = GrantTable::new();
    assert!(!grants.is_capability_granted("weather", "tools.call"));
    grants.save_grant("weather", "tools.call", "2026-01-01T00:00:00Z", "repl", "abc123");
    grants.save_grant("weather", "cron.write", "2026-01-02T00:00:00Z", "telegram", "");
    assert!(grants.is_capability_granted("weather", "tools.call"));
    assert!(grants.is_capability_granted("weather", "cron.write"));
    assert!(!grants.is_capability_granted("news", "tools.call"));

    grants.revoke_capability_grant("weather", "tools.call");
    assert!(!grants.is_capability_granted("weather", "tools.call"));
    assert!(grants.is_capability_granted("weather", "cron.write"));
    assert_eq!(grants.list_capability_grants().len(), 1);
}

#[test]
fn grant_validity_follows_content_hash() {
    let mut grants = GrantTable::new();
    grants.save_grant("weather", "tools.call", "t0", "repl", "");
    // Legacy grants (empty hash) need re-approval.
    assert!(!grants.is_grant_valid_for_hash("weather", "tools.call", ""));
    grants.save_grant("weather", "tools.call", "t1", "repl", "abc123");
    assert!(grants.is_grant_valid_for_hash("weather", "tools.call", "abc123"));
    assert!(!grants.is_grant_valid_for_hash("weather", "tools.call", "def456"));
    let listed = grants.list_capability_grants();
    assert_eq!(listed.len(), 1);
    assert_eq!(listed[0].granted_at, "t1");
    assert_eq!(listed[0].content_hash, "abc123");
}

#[test]
fn pending_requests_get_unique_ids_and_resolve_once() {
    let mut pending = PendingApprovals::new();
    let a = pending.request_capability_approval("weather", "tools.call", "repl", "t0");
    let b = pending.request_capability_approval("news", "cron.write", "telegram", "t1");
    assert_eq!(a, "cap-1");
    assert_eq!(b, "cap-2");
    assert_eq!(pending.get_pending_approvals().len(), 2);

    let info = pending.resolve_capability_request("cap-1").unwrap();
    assert_eq!(info.skill_name, "weather");
    assert_eq!(info.capability, "tools.call");
    assert_eq!(pending.get_pending_approvals().len(), 1);

    let err = pending.resolve_capability_request("cap-1").unwrap_err();
    assert_eq!(
        err,
        FfiError::InvalidArgument { detail: "no pending approval with id 'cap-1'".to_owned() }
    );
    let c = pending.request_capability_approval("weather", "auth.read", "repl", "t2");
    assert_eq!(c, "cap-3");
}
