use zeroai::email_cron::email_cron_plan;
use zeroai::error::FfiError;
use zeroai::messages_bridge::store_rules::{check_agent_access, effective_since, search_sql, SEARCH_SELECT};
use zeroai::scripting::storage::{check_write_quota, MAX_TOTAL_SIZE_PER_SCRIPT};

#[test]
fn email_cron_plan_replaces_marked_jobs() {
    let jobs = vec![
        ("a".to_string(), "/prompt [email_check_scheduled] Check".to_string()),
        ("b".to_string(), "echo hello".to_string()),
        ("c".to_string(), "x [email_check_scheduled]".to_string()),
    ];
    let plan = email_cron_plan(&jobs, &vec!["08:30".to_string(), "18:05".to_string()], Some("Europe/Paris"));
    assert_eq!(plan.remove, vec!["a".to_string(), "c".to_string()]);
    assert_eq!(plan.add.len(), 2);
    assert_eq!(plan.add[0].0, "30 8 * * *");
    assert_eq!(plan.add[1].0, "5 18 * * *");
    assert!(plan.add[0].1.starts_with("/prompt [email_check_scheduled] Check the email inbox"));
    assert!(plan.add[0].1.ends_with("Timezone context: Europe/Paris."));
    assert!(plan.error.is_none());
}

#[test]
fn email_cron_plan_with_no_times_removes_only() {
    let jobs = vec![("a".to_string(), "[email_check_scheduled]".to_string())];
    let plan = email_cron_plan(&jobs, &vec![], Some("America/New_York"));
    assert_eq!(plan.remove, vec!["a".to_string()]);
    assert!(plan.add.is_empty());
    assert!(plan.error.is_none());
}

#[test]
fn email_cron_plan_stops_at_a_bad_time() {
    let plan = email_cron_plan(&vec![], &vec!["07:00".into(), "0830".into(), "09:00".into()], None);
    assert_eq!(plan.add.len(), 1);
    assert!(plan.add[0].1.ends_with("Timezone context: UTC."));
    assert!(matches!(plan.error, Some(FfiError::InvalidArgument { .. })));
}

#[test]
fn storage_write_quotas() {
    assert_eq!(check_write_quota("s", "hello", 0, 0), Ok(()));
    assert_eq!(
        check_write_quota("s", &"x".repeat(64 * 1024 + 1), 0, 0),
        Err("value size 65537 exceeds limit of 65536 bytes".to_string())
    );
    assert_eq!(
        check_write_quota("s", "v", 1000, 0),
        Err("script 's' has 1000 keys, limit is 1000".to_string())
    );
    assert_eq!(check_write_quota("s", "v", 999, 0), Ok(()));
    assert_eq!(
        check_write_quota("s", "vv", 0, MAX_TOTAL_SIZE_PER_SCRIPT - 1),
        Err("script 's' total storage 10485759 + 2 exceeds limit of 10485760 bytes".to_string())
    );
    assert_eq!(check_write_quota("s", "v", 0, MAX_TOTAL_SIZE_PER_SCRIPT - 1), Ok(()));
}

#[test]
fn message_store_rules() {
    assert_eq!(effective_since(Some(10), Some(20)), Some(20));
    assert_eq!(effective_since(Some(30), Some(20)), Some(30));
    assert_eq!(effective_since(Some(30), None), Some(30));
    assert_eq!(effective_since(None, Some(5)), Some(5));
    assert_eq!(effective_since(None, None), None);
    assert_eq!(check_agent_access("c1", true), Ok(()));
    assert_eq!(
        check_agent_access("c1", false),
        Err("agent access not allowed for conversation 'c1'".to_string())
    );
    assert_eq!(search_sql(true), format!("{SEARCH_SELECT} AND m.conversation_id = ?2 ORDER BY m.timestamp DESC LIMIT ?3"));
    assert_eq!(search_sql(false), format!("{SEARCH_SELECT} ORDER BY m.timestamp DESC LIMIT ?2"));
}
