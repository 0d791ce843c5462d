use zeroai::events::{
    escape_json_string, format_custom_event, format_event, format_event_json, EventBuffer,
    ObserverEvent, ToolSkillMap, EVENT_BUFFER_CAPACITY,
};

#[test]
fn test_escape_json_string() {
    assert_eq!(escape_json_string(r#"a"b"#), r#"a\"b"#);
    assert_eq!(escape_json_string(r"a\b"), r"a\\b");
    assert_eq!(escape_json_string("plain"), "plain");
    assert_eq!(escape_json_string("line\nbreak"), "line\\nbreak");
    assert_eq!(escape_json_string("car\rret"), "car\\rret");
    assert_eq!(escape_json_string("tab\there"), "tab\\there");
    assert_eq!(escape_json_string("null\x00byte"), "null\\u0000byte");
    assert_eq!(escape_json_string("bell\x07ring"), "bell\\u0007ring");
}

#[test]
fn test_get_recent_events_empty() {
    let buffer = EventBuffer::new();
    let json_str = buffer.recent_events(10);
    assert_eq!(json_str, "[]");
}

#[test]
fn test_ring_buffer_drops_oldest() {
    let mut buffer = EventBuffer::new();
    for i in 0..(EVENT_BUFFER_CAPACITY + 50) {
        buffer.record(format_event(i as u64, 0, "heartbeat_tick", "{}"));
    }
    assert!(
        buffer.len() <= EVENT_BUFFER_CAPACITY,
        "buffer exceeded capacity: {} > {}",
        buffer.len(),
        EVENT_BUFFER_CAPACITY,
    );
}

#[test]
fn recent_events_respects_limit_and_order() {
    let mut buffer = EventBuffer::new();
    for i in 0..5u64 {
        buffer.record(format_event(i, 1_000, "heartbeat_tick", "{}"));
    }
    let json_str = buffer.recent_events(2);
    assert_eq!(
        json_str,
        "[{\"id\":3,\"timestamp_ms\":1000,\"kind\":\"heartbeat_tick\",\"data\":{}},\
{\"id\":4,\"timestamp_ms\":1000,\"kind\":\"heartbeat_tick\",\"data\":{}}]"
    );
    let parsed: serde_json::Value = serde_json::from_str(&buffer.recent_events(10)).unwrap();
    assert_eq!(parsed.as_array().unwrap().len(), 5);
}

#[test]
fn oldest_event_is_dropped_first() {
    let mut buffer = EventBuffer::new();
    for i in 0..(EVENT_BUFFER_CAPACITY as u64 + 1) {
        buffer.record(format_event(i, 0, "k", "{}"));
    }
    let all = buffer.recent_events(u32::MAX);
    assert!(all.starts_with("[{\"id\":1,"));
    assert_eq!(buffer.len(), EVENT_BUFFER_CAPACITY);
}

#[test]
fn custom_event_escapes_kind() {
    let json = format_custom_event(7, -5, "capability\"request", "{\"a\":1}");
    assert_eq!(
        json,
        "{\"id\":7,\"timestamp_ms\":-5,\"kind\":\"capability\\\"request\",\"data\":{\"a\":1}}"
    );
    let parsed: serde_json::Value = serde_json::from_str(&json).unwrap();
    assert_eq!(parsed["kind"], "capability\"request");
}

fn parse(json: &str) -> serde_json::Value {
    serde_json::from_str(json).unwrap()
}

#[test]
fn test_format_event_json_llm_request() {
    let event = ObserverEvent::LlmRequest {
        model_provider: "provider-a".into(),
        model: "model-a".into(),
        messages_count: 5,
    };
    let parsed = parse(&format_event_json(10, 1_700_000_000_000, &event, None));
    assert_eq!(parsed["id"], 10);
    assert_eq!(parsed["timestamp_ms"], 1_700_000_000_000i64);
    assert_eq!(parsed["kind"], "llm_request");
    assert_eq!(parsed["data"]["provider"], "provider-a");
    assert_eq!(parsed["data"]["model"], "model-a");
    assert_eq!(parsed["data"]["messages"], 5);
}

#[test]
fn test_format_event_json_llm_response() {
    let event = ObserverEvent::LlmResponse {
        model_provider: "provider-a".into(),
        model: "model-b".into(),
        duration_ms: 150,
        success: true,
        error_message: None,
        input_tokens: Some(100),
        output_tokens: Some(50),
    };
    let parsed = parse(&format_event_json(42, 0, &event, None));
    assert_eq!(parsed["id"], 42);
    assert_eq!(parsed["kind"], "llm_response");
    assert_eq!(parsed["data"]["provider"], "provider-a");
    assert_eq!(parsed["data"]["success"], true);
    assert!(parsed["data"]["error"].is_null());
    assert_eq!(parsed["data"]["input_tokens"], 100);
    assert_eq!(parsed["data"]["output_tokens"], 50);
}

#[test]
fn test_format_event_json_llm_response_with_error() {
    let event = ObserverEvent::LlmResponse {
        model_provider: "provider-b".into(),
        model: "model-c".into(),
        duration_ms: 1000,
        success: false,
        error_message: Some("rate limited".into()),
        input_tokens: None,
        output_tokens: None,
    };
    let parsed = parse(&format_event_json(99, 0, &event, None));
    assert_eq!(parsed["kind"], "llm_response");
    assert_eq!(parsed["data"]["error"], "rate limited");
    assert_eq!(parsed["data"]["success"], false);
    assert!(parsed["data"]["input_tokens"].is_null());
    assert!(parsed["data"]["output_tokens"].is_null());
}

#[test]
fn test_format_event_json_tool_call() {
    let event = ObserverEvent::ToolCall { tool: "shell".into(), duration_ms: 250, success: true };
    let json = format_event_json(7, 0, &event, None);
    let parsed = parse(&json);
    assert_eq!(parsed["kind"], "tool_call");
    assert_eq!(parsed["data"]["tool"], "shell");
    assert_eq!(parsed["data"]["duration_ms"], 250);
    assert!(parsed["data"].get("skill_name").is_none());
}

#[test]
fn tool_call_carries_skill_name() {
    let mut skills = ToolSkillMap::new();
    skills.register_skill_tool_names(vec![
        ("shell".to_owned(), "ops".to_owned()),
        ("search".to_owned(), "research".to_owned()),
        ("shell".to_owned(), "admin".to_owned()),
    ]);
    assert_eq!(skills.skill_for_tool("shell").as_deref(), Some("admin"));
    assert_eq!(skills.skill_for_tool("search").as_deref(), Some("research"));
    assert_eq!(skills.skill_for_tool("edit"), None);
    let skill = skills.skill_for_tool("search");
    let event = ObserverEvent::ToolCallStart { tool: "search".into() };
    let json = format_event_json(8, 0, &event, skill.as_deref());
    assert_eq!(
        json,
        "{\"id\":8,\"timestamp_ms\":0,\"kind\":\"tool_call_start\",\"data\":{\"tool\":\"search\",\"skill_name\":\"research\"}}"
    );
}

#[test]
fn test_format_event_json_tool_call_start() {
    let event = ObserverEvent::ToolCallStart { tool: "web_search".into() };
    let parsed = parse(&format_event_json(11, 0, &event, None));
    assert_eq!(parsed["kind"], "tool_call_start");
    assert_eq!(parsed["data"]["tool"], "web_search");
}

#[test]
fn test_format_event_json_channel_message() {
    let event = ObserverEvent::ChannelMessage {
        channel: "discord".into(),
        direction: "inbound".into(),
    };
    let parsed = parse(&format_event_json(12, 0, &event, None));
    assert_eq!(parsed["kind"], "channel_message");
    assert_eq!(parsed["data"]["channel"], "discord");
    assert_eq!(parsed["data"]["direction"], "inbound");
}

#[test]
fn test_format_event_json_heartbeat_tick() {
    let parsed = parse(&format_event_json(0, 0, &ObserverEvent::HeartbeatTick, None));
    assert_eq!(parsed["kind"], "heartbeat_tick");
    assert_eq!(parsed["data"], serde_json::Value::Object(serde_json::Map::new()));
}

#[test]
fn test_format_event_json_turn_complete() {
    let parsed = parse(&format_event_json(14, 0, &ObserverEvent::TurnComplete, None));
    assert_eq!(parsed["kind"], "turn_complete");
    assert_eq!(parsed["data"], serde_json::Value::Object(serde_json::Map::new()));
}

#[test]
fn test_format_event_json_error_with_quotes() {
    let event = ObserverEvent::Error {
        component: "gateway".into(),
        message: r#"failed to parse "config""#.into(),
    };
    let parsed = parse(&format_event_json(1, 0, &event, None));
    assert_eq!(parsed["kind"], "error");
    assert_eq!(parsed["data"]["message"], r#"failed to parse "config""#);
}

#[test]
fn test_format_event_json_agent_start() {
    let event = ObserverEvent::AgentStart {
        model_provider: "provider-b".into(),
        model: "model-c".into(),
    };
    let parsed = parse(&format_event_json(13, 0, &event, None));
    assert_eq!(parsed["kind"], "agent_start");
    assert_eq!(parsed["data"]["provider"], "provider-b");
    assert_eq!(parsed["data"]["model"], "model-c");
}

#[test]
fn test_format_event_json_agent_end() {
    let event = ObserverEvent::AgentEnd {
        model_provider: "provider-b".into(),
        model: "model-c".into(),
        duration_ms: 5000,
        tokens_used: Some(1200),
        cost_usd: Some(format!("{}", 0.042f64)),
    };
    let parsed = parse(&format_event_json(3, 0, &event, None));
    assert_eq!(parsed["kind"], "agent_end");
    assert_eq!(parsed["data"]["provider"], "provider-b");
    assert_eq!(parsed["data"]["model"], "model-c");
    assert_eq!(parsed["data"]["tokens"], 1200);
    assert_eq!(parsed["data"]["duration_ms"], 5000);
    assert_eq!(parsed["data"]["cost_usd"], 0.042);
}

#[test]
fn test_format_event_json_agent_end_no_tokens() {
    let event = ObserverEvent::AgentEnd {
        model_provider: "provider-a".into(),
        model: "model-a".into(),
        duration_ms: 100,
        tokens_used: None,
        cost_usd: None,
    };
    let parsed = parse(&format_event_json(4, 0, &event, None));
    assert!(parsed["data"]["tokens"].is_null());
    assert!(parsed["data"]["cost_usd"].is_null());
}

#[test]
fn unknown_events_have_empty_data() {
    let json = format_event_json(5, 0, &ObserverEvent::Other, None);
    assert_eq!(json, "{\"id\":5,\"timestamp_ms\":0,\"kind\":\"unknown\",\"data\":{}}");
}

#[test]
fn escaped_text_holds_no_control_characters() {
    let all: String = (0u32..0x80).filter_map(char::from_u32).collect();
    let e = escape_json_string(&all);
    assert!(e.chars().all(|c| (c as u32) >= 0x20));
    assert!(e.contains("\\u001F"));
    assert!(e.contains("\\n"));
}

#[test]
fn escaped_text_decodes_back_as_a_json_string() {
    let samples = ["plain", "quote \" and \\ slash", "line\nbreak\ttab\r", "\u{1}\u{1f}\u{7f}", "é中🎮"];
    for s in samples {
        let quoted = format!("\"{}\"", escape_json_string(s));
        let back: String = serde_json::from_str(&quoted).unwrap();
        assert_eq!(back, s);
    }
}
