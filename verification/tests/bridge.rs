use zeroai::clawboy::bridge::{
    extract_decision_json, prune_history, DecisionJson, state_changed_meaningfully, user_message_content, AgentBridge, AgentDecision,
    ChatMessage, DecisionOutcome, STUCK_NOTE,
};
use zeroai::clawboy::types::{GameState, GbButton, PartyMember, SpecialUiState};

fn base_state() -> GameState {
    GameState {
        map_id: 1,
        map_name: "VIRIDIAN_CITY".to_owned(),
        player_x: 10,
        player_y: 10,
        in_battle: false,
        party: vec![PartyMember {
            species: "CHARMANDER".to_owned(),
            level: 10,
            hp: 40,
            max_hp: 40,
            status: "OK".to_owned(),
        }],
        badges: vec!["BOULDER".to_owned()],
        badge_count: 1,
        money: 1000,
        bag: vec![],
        special_ui: SpecialUiState::NoOverlay,
    }
}

#[test]
fn state_no_change() {
    let old = base_state();
    let new = base_state();
    assert!(!state_changed_meaningfully(&old, &new));
}

#[test]
fn state_map_change() {
    let old = base_state();
    let mut new = base_state();
    new.map_id = 2;
    assert!(state_changed_meaningfully(&old, &new));
}

#[test]
fn state_battle_start() {
    let old = base_state();
    let mut new = base_state();
    new.in_battle = true;
    assert!(state_changed_meaningfully(&old, &new));
}

#[test]
fn state_badge_earned() {
    let old = base_state();
    let mut new = base_state();
    new.badge_count = 2;
    assert!(state_changed_meaningfully(&old, &new));
}

#[test]
fn state_ui_change() {
    let old = base_state();
    let mut new = base_state();
    new.special_ui = SpecialUiState::TextBox;
    assert!(state_changed_meaningfully(&old, &new));
}

#[test]
fn state_party_size_change() {
    let old = base_state();
    let mut new = base_state();
    new.party.push(PartyMember {
        species: "PIDGEY".to_owned(),
        level: 5,
        hp: 20,
        max_hp: 20,
        status: "OK".to_owned(),
    });
    assert!(state_changed_meaningfully(&old, &new));
}

#[test]
fn state_significant_hp_loss() {
    let old = base_state();
    let mut new = base_state();
    // 40 max_hp, 10% = 4. Drop from 40 to 35 = 5 > 4.
    new.party[0].hp = 35;
    assert!(state_changed_meaningfully(&old, &new));
}

#[test]
fn state_minor_hp_change() {
    let old = base_state();
    let mut new = base_state();
    // 40 max_hp, 10% = 4. Drop from 40 to 37 = 3 < 4.
    new.party[0].hp = 37;
    assert!(!state_changed_meaningfully(&old, &new));
}

#[test]
fn state_large_position_delta() {
    let old = base_state();
    let mut new = base_state();
    new.player_x = 14; // delta = 4 > 3
    assert!(state_changed_meaningfully(&old, &new));
}

#[test]
fn state_small_position_delta() {
    let old = base_state();
    let mut new = base_state();
    new.player_x = 13; // delta = 3, not > 3
    assert!(!state_changed_meaningfully(&old, &new));
}

#[test]
fn bridge_new_builds_system_prompt() {
    let bridge = AgentBridge::new(500, String::new());
    assert!(!bridge.system_prompt.is_empty());
    assert!(bridge.system_prompt.contains("Pokemon Red"));
    assert!(bridge.system_prompt.contains("JSON"));
    assert_eq!(bridge.history.len(), 1);
    assert_eq!(bridge.history[0].role, "system");
}

#[test]
fn bridge_new_includes_journal_context() {
    let journal = "Previously: Beat Brock".to_owned();
    let bridge = AgentBridge::new(500, journal);
    assert!(bridge.system_prompt.contains("Beat Brock"));
}

#[test]
fn bridge_new_interval_conversion() {
    // 500ms at 60fps = 30 frames
    let bridge = AgentBridge::new(500, String::new());
    assert_eq!(bridge.decision_interval_frames, 30);
}

#[test]
fn bridge_new_1000ms_interval() {
    // 1000ms at 60fps = 60 frames
    let bridge = AgentBridge::new(1000, String::new());
    assert_eq!(bridge.decision_interval_frames, 60);
}

#[test]
fn bridge_needs_decision_initially_false() {
    let bridge = AgentBridge::new(500, String::new());
    // frames_since_decision starts at 0, so it should not need a decision.
    assert!(!bridge.needs_decision());
}

#[test]
fn bridge_needs_decision_after_enough_frames() {
    let mut bridge = AgentBridge::new(500, String::new());
    bridge.frames_since_decision = 30;
    assert!(bridge.needs_decision());
}

#[test]
fn bridge_needs_decision_false_when_queue_full() {
    let mut bridge = AgentBridge::new(500, String::new());
    bridge.frames_since_decision = 30;
    bridge.input_queue.push_back(GbButton::A);
    assert!(!bridge.needs_decision());
}

#[test]
fn bridge_update_interval() {
    let mut bridge = AgentBridge::new(500, String::new());
    assert_eq!(bridge.decision_interval_frames, 30);
    bridge.update_interval(1000);
    assert_eq!(bridge.decision_interval_frames, 60);
}

#[test]
fn bridge_take_commentary_empty() {
    let mut bridge = AgentBridge::new(500, String::new());
    assert!(bridge.take_commentary().is_none());
}

#[test]
fn bridge_take_commentary_drains() {
    let mut bridge = AgentBridge::new(500, String::new());
    bridge.commentary_queue.push_back("Hello!".to_owned());
    bridge.commentary_queue.push_back("World!".to_owned());
    assert_eq!(bridge.take_commentary().unwrap(), "Hello!");
    assert_eq!(bridge.take_commentary().unwrap(), "World!");
    assert!(bridge.take_commentary().is_none());
}

fn outcome(inputs: &[&str], share: bool, thought: &str, screenshot: bool) -> DecisionOutcome {
    DecisionOutcome {
        decision: AgentDecision {
            inputs: inputs.iter().map(|s| s.to_string()).collect(),
            thought: thought.to_owned(),
            share,
            request_screenshot: screenshot,
        },
        updated_history: vec![ChatMessage::system("sys"), ChatMessage::user("turn")],
    }
}

#[test]
fn apply_decision_queues_valid_buttons_only() {
    let mut bridge = AgentBridge::new(500, String::new());
    bridge.apply_decision(outcome(&["A", "jump", "up", "Start"], true, "Nice!", true));
    let queued: Vec<GbButton> = bridge.input_queue.iter().copied().collect();
    assert_eq!(queued, vec![GbButton::A, GbButton::Up, GbButton::Start]);
    assert_eq!(bridge.history.len(), 2);
    assert_eq!(bridge.take_commentary().as_deref(), Some("Nice!"));
    assert!(bridge.wants_screenshot());
}

#[test]
fn screenshot_is_forced_after_three_turns_without_one() {
    let mut bridge = AgentBridge::new(500, String::new());
    bridge.apply_decision(outcome(&[], false, "", false));
    assert!(!bridge.wants_screenshot());
    bridge.apply_decision(outcome(&[], false, "", false));
    assert!(!bridge.wants_screenshot());
    bridge.apply_decision(outcome(&[], false, "", false));
    assert!(bridge.wants_screenshot());
    assert_eq!(bridge.turns_without_screenshot, 0);
}

#[test]
fn unchanged_state_with_queued_inputs_skips_the_turn() {
    let mut bridge = AgentBridge::new(500, String::new());
    assert!(bridge.begin_decision(base_state()).is_some());
    let text = bridge.finish_decision(base_state(), false);
    assert!(text.contains("Location: VIRIDIAN_CITY (10,10)"));
    bridge.input_queue.push_back(GbButton::A);
    assert!(bridge.begin_decision(base_state()).is_none());
    let mut moved = base_state();
    moved.map_id = 7;
    assert!(bridge.begin_decision(moved).is_some());
}

#[test]
fn stuck_note_after_three_unmoved_decisions() {
    let mut bridge = AgentBridge::new(500, String::new());
    let first = bridge.finish_decision(base_state(), false);
    assert!(!first.ends_with(STUCK_NOTE));
    let _ = bridge.finish_decision(base_state(), false);
    let _ = bridge.finish_decision(base_state(), false);
    let fourth = bridge.finish_decision(base_state(), false);
    assert!(fourth.ends_with(STUCK_NOTE));
    let mut moved = base_state();
    moved.player_x = 11;
    assert!(!bridge.finish_decision(moved, false).ends_with(STUCK_NOTE));
}

#[test]
fn history_keeps_system_message_and_last_forty() {
    let mut history: Vec<ChatMessage> = vec![ChatMessage::system("sys")];
    for i in 0..45 {
        history.push(ChatMessage::user(&format!("m{i}")));
    }
    prune_history(&mut history);
    assert_eq!(history.len(), 41);
    assert_eq!(history[0].role, "system");
    assert_eq!(history[1].content, "m5");
    assert_eq!(history[40].content, "m44");

    let mut short: Vec<ChatMessage> = vec![ChatMessage::system("sys"), ChatMessage::user("x")];
    prune_history(&mut short);
    assert_eq!(short.len(), 2);
}

#[test]
fn user_message_carries_screenshot_marker() {
    assert_eq!(user_message_content("state", None), "state");
    assert_eq!(
        user_message_content("state", Some("QUJD")),
        "state\n\n[Screenshot (base64 PNG)]\nQUJD"
    );
}

#[test]
fn unchanged_state_is_never_meaningful() {
    let mut s = base_state();
    s.party[0].hp = 1;
    assert!(!state_changed_meaningfully(&s, &s));
}

fn candidate(text: &str) -> DecisionJson {
    DecisionJson::Candidate(text.to_string())
}

#[test]
fn decision_json_from_markdown_code_block() {
    let response = "Here's my decision:\n```json\n{\"inputs\":[\"UP\"],\"thought\":\"go north\"}\n```";
    assert_eq!(
        extract_decision_json(response),
        candidate("{\"inputs\":[\"UP\"],\"thought\":\"go north\"}")
    );
}

#[test]
fn decision_json_from_bare_code_block() {
    let response = "```\n{\"inputs\":[\"DOWN\"],\"thought\":\"explore\"}\n```\nDone!";
    assert_eq!(
        extract_decision_json(response),
        candidate("{\"inputs\":[\"DOWN\"],\"thought\":\"explore\"}")
    );
}

#[test]
fn decision_json_embedded_in_prose() {
    let response = "I think we should go left. {\"inputs\":[\"LEFT\"],\"thought\":\"wall ahead\"} That's my plan.";
    assert_eq!(
        extract_decision_json(response),
        candidate("{\"inputs\":[\"LEFT\"],\"thought\":\"wall ahead\"}")
    );
}

#[test]
fn decision_json_whole_reply_and_broken_braces() {
    assert_eq!(extract_decision_json("  {broken json}\n"), candidate("{broken json}"));
    assert_eq!(extract_decision_json("I don't know what to do!"), DecisionJson::NotFound);
    assert_eq!(extract_decision_json("{ no end"), DecisionJson::UnclosedBrace);
    assert_eq!(extract_decision_json("a } b { c"), DecisionJson::UnclosedBrace);
    assert_eq!(extract_decision_json("}{"), candidate(""));
}

#[test]
fn record_decision_takes_the_screenshot_preference_as_given() {
    let mut bridge = AgentBridge::new(500, String::new());
    bridge.frames_since_decision = 40;
    let decision = AgentDecision {
        inputs: vec!["B".to_owned(), "nope".to_owned(), "left".to_owned()],
        thought: "Heading west.".to_owned(),
        share: true,
        request_screenshot: false,
    };
    bridge.record_decision(base_state(), decision);
    let queued: Vec<GbButton> = bridge.input_queue.iter().copied().collect();
    assert_eq!(queued, vec![GbButton::B, GbButton::Left]);
    assert!(!bridge.wants_screenshot());
    assert_eq!(bridge.frames_since_decision, 0);
    assert_eq!(bridge.previous_state.as_ref().map(|s| s.map_name.as_str()), Some("VIRIDIAN_CITY"));
    assert_eq!(bridge.take_commentary().as_deref(), Some("Heading west."));
    assert_eq!(bridge.history.len(), 1);
}
