use zeroai::scripting::manifest::{ScriptManifest, ScriptTrigger};
use zeroai::scripting::triggers::{
    collect_cron_triggers, collect_event_triggers, matching_script_names, trigger_matches_event,
    validate_trigger, ResolvedTrigger,
};

fn manifest_with_triggers(name: &str, triggers: Vec<ScriptTrigger>) -> ScriptManifest {
    ScriptManifest {
        name: name.to_string(),
        triggers,
        ..Default::default()
    }
}

#[test]
fn collects_cron_triggers_only() {
    let scripts = vec![manifest_with_triggers(
        "test",
        vec![
            ScriptTrigger {
                kind: "cron".into(),
                schedule: Some("0 9 * * *".into()),
                ..Default::default()
            },
            ScriptTrigger {
                kind: "manual".into(),
                ..Default::default()
            },
            ScriptTrigger {
                kind: "channel_event".into(),
                event: Some("message".into()),
                ..Default::default()
            },
        ],
    )];
    let crons = collect_cron_triggers(&scripts);
    assert_eq!(crons.len(), 1);
    assert_eq!(crons[0].trigger.schedule.as_deref(), Some("0 9 * * *"));
}

#[test]
fn cron_without_schedule_is_skipped() {
    let scripts = vec![manifest_with_triggers(
        "test",
        vec![ScriptTrigger {
            kind: "cron".into(),
            schedule: None,
            ..Default::default()
        }],
    )];
    assert!(collect_cron_triggers(&scripts).is_empty());
}

#[test]
fn event_trigger_matches_channel() {
    let trigger = ScriptTrigger {
        kind: "channel_event".into(),
        event: Some("message".into()),
        channel: Some("telegram".into()),
        ..Default::default()
    };
    assert!(trigger_matches_event(
        &trigger,
        "channel_message",
        Some("telegram")
    ));
    assert!(!trigger_matches_event(
        &trigger,
        "channel_message",
        Some("discord")
    ));
    assert!(!trigger_matches_event(&trigger, "tool_call", None));
}

#[test]
fn event_trigger_without_channel_matches_any() {
    let trigger = ScriptTrigger {
        kind: "channel_event".into(),
        event: Some("message".into()),
        ..Default::default()
    };
    assert!(trigger_matches_event(
        &trigger,
        "channel_message",
        Some("telegram")
    ));
    assert!(trigger_matches_event(
        &trigger,
        "channel_message",
        Some("discord")
    ));
}

#[test]
fn collects_event_triggers_only() {
    let scripts = vec![manifest_with_triggers(
        "test",
        vec![
            ScriptTrigger {
                kind: "cron".into(),
                schedule: Some("0 9 * * *".into()),
                ..Default::default()
            },
            ScriptTrigger {
                kind: "channel_event".into(),
                event: Some("message".into()),
                ..Default::default()
            },
            ScriptTrigger {
                kind: "provider_event".into(),
                event: Some("error".into()),
                ..Default::default()
            },
        ],
    )];
    let events = collect_event_triggers(&scripts);
    assert_eq!(events.len(), 2);
}

#[test]
fn matching_script_names_filters_correctly() {
    let triggers = vec![
        ResolvedTrigger {
            manifest: ScriptManifest {
                name: "greeter".into(),
                ..Default::default()
            },
            trigger: ScriptTrigger {
                kind: "channel_event".into(),
                event: Some("message".into()),
                channel: Some("telegram".into()),
                ..Default::default()
            },
        },
        ResolvedTrigger {
            manifest: ScriptManifest {
                name: "logger".into(),
                ..Default::default()
            },
            trigger: ScriptTrigger {
                kind: "channel_event".into(),
                event: Some("message".into()),
                ..Default::default()
            },
        },
    ];
    let names = matching_script_names(&triggers, "channel_message", Some("telegram"));
    assert_eq!(names, vec!["greeter", "logger"]);

    let names = matching_script_names(&triggers, "channel_message", Some("discord"));
    assert_eq!(names, vec!["logger"]);
}

#[test]
fn channel_event_without_event_field_is_invalid() {
    let trigger = ScriptTrigger {
        kind: "channel_event".into(),
        event: None,
        ..Default::default()
    };
    let result = validate_trigger(&trigger);
    assert!(result.is_err());
    let err = result.unwrap_err();
    assert!(err.to_string().contains("channel_event trigger requires an 'event' field"));
}

#[test]
fn provider_event_without_event_field_is_invalid() {
    let trigger = ScriptTrigger {
        kind: "provider_event".into(),
        event: None,
        ..Default::default()
    };
    let result = validate_trigger(&trigger);
    assert!(result.is_err());
}

#[test]
fn channel_event_with_event_field_is_valid() {
    let trigger = ScriptTrigger {
        kind: "channel_event".into(),
        event: Some("message".into()),
        ..Default::default()
    };
    assert!(validate_trigger(&trigger).is_ok());
}

#[test]
fn cron_trigger_without_event_field_is_valid() {
    let trigger = ScriptTrigger {
        kind: "cron".into(),
        schedule: Some("0 9 * * *".into()),
        event: None,
        ..Default::default()
    };
    assert!(validate_trigger(&trigger).is_ok());
}
