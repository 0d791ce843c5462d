use zeroai::clawboy::bridge::AgentBridge;
use zeroai::clawboy::session::{
    session_status, should_stream_frame, shutdown_journal_entry, ButtonAction, ButtonTimer,
};
use zeroai::clawboy::types::{ClawBoyStatus, GameState, GbButton, PartyMember};
use ButtonAction::{Hold, Lift, Press};

#[test]
fn get_status_idle_when_no_session() {
    assert!(matches!(session_status(false, false, "", 0), ClawBoyStatus::Idle));
}

#[test]
fn status_reports_pause_and_play_time() {
    match session_status(true, true, "http://10.0.0.2:8432", 99) {
        ClawBoyStatus::Paused { reason } => assert_eq!(reason, "user paused"),
        other => panic!("expected Paused, got {other:?}"),
    }
    match session_status(true, false, "http://10.0.0.2:8432", 99) {
        ClawBoyStatus::Playing { viewer_url, play_time_seconds } => {
            assert_eq!(viewer_url, "http://10.0.0.2:8432");
            assert_eq!(play_time_seconds, 99);
        }
        other => panic!("expected Playing, got {other:?}"),
    }
}

#[test]
fn every_fourth_frame_is_streamed() {
    assert!(should_stream_frame(0));
    assert!(!should_stream_frame(1));
    assert!(!should_stream_frame(3));
    assert!(should_stream_frame(8));
}

#[test]
fn buttons_are_held_then_released() {
    let mut bridge = AgentBridge::new(500, String::new());
    bridge.input_queue.push_back(GbButton::A);
    bridge.input_queue.push_back(GbButton::B);
    let mut timer = ButtonTimer::new();
    let mut actions = Vec::new();
    for frame in 1..=13u64 {
        actions.push(timer.advance(&mut bridge, frame));
    }
    assert_eq!(
        actions,
        vec![
            Press(GbButton::A),
            Hold,
            Hold,
            Hold,
            Lift(GbButton::A),
            Hold,
            Hold,
            Press(GbButton::B),
            Hold,
            Hold,
            Hold,
            Lift(GbButton::B),
            Hold,
        ]
    );
}

#[test]
fn shutdown_entry_summarises_the_session() {
    let state = GameState {
        map_name: "PEWTER_CITY".to_owned(),
        badge_count: 1,
        party: vec![PartyMember {
            species: "CHARMANDER".to_owned(),
            level: 14,
            hp: 40,
            max_hp: 42,
            status: "OK".to_owned(),
        }],
        ..GameState::default()
    };
    // 2 minutes and 5 seconds of frames at 60 fps.
    let entry = shutdown_journal_entry(&state, "t0", "t1", 125 * 60 + 30);
    assert_eq!(entry.play_time_seconds, 125);
    assert_eq!(entry.summary, "Played for 2m. Location: PEWTER_CITY. Party: CHARMANDER Lv14.");
    assert_eq!(entry.badges, 1);
    assert_eq!(entry.party_snapshot.len(), 1);
}

#[test]
fn idle_frames_count_towards_the_next_decision() {
    let mut bridge = AgentBridge::new(500, String::new());
    let mut timer = ButtonTimer::new();
    assert_eq!(timer.advance(&mut bridge, 1), Hold);
    assert_eq!(timer.advance(&mut bridge, 2), Hold);
    assert_eq!(bridge.frames_since_decision, 2);
    bridge.input_queue.push_back(GbButton::Up);
    bridge.input_queue.push_back(GbButton::Down);
    assert_eq!(timer.advance(&mut bridge, 3), Press(GbButton::Up));
    let rest: Vec<GbButton> = bridge.input_queue.iter().copied().collect();
    assert_eq!(rest, vec![GbButton::Down]);
    assert_eq!(bridge.frames_since_decision, 2);
}
