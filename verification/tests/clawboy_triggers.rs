use zeroai::clawboy_triggers::{is_game_trigger, is_stop_trigger, TriggerHandlerSlot};

#[test]
fn start_play_clawboy() {
    assert!(is_game_trigger("play clawboy"));
}

#[test]
fn start_launch_clawboy() {
    assert!(is_game_trigger("launch clawboy"));
}

#[test]
fn start_fire_up_clawboy() {
    assert!(is_game_trigger("fire up clawboy"));
}

#[test]
fn start_load_up_clawboy() {
    assert!(is_game_trigger("load up clawboy"));
}

#[test]
fn start_open_claw_boy() {
    assert!(is_game_trigger("open claw boy"));
}

#[test]
fn start_begin_clawboy() {
    assert!(is_game_trigger("begin clawboy"));
}

#[test]
fn start_boot_clawboy() {
    assert!(is_game_trigger("boot clawboy"));
}

#[test]
fn start_embedded_hey_can_you_play_clawboy() {
    assert!(is_game_trigger("hey can you play clawboy for me?"));
}

#[test]
fn start_embedded_please_start_clawboy() {
    assert!(is_game_trigger("please start clawboy now"));
}

#[test]
fn start_reversed_clawboy_play() {
    assert!(is_game_trigger("clawboy play"));
}

#[test]
fn start_reversed_clawboy_start() {
    assert!(is_game_trigger("clawboy start"));
}

#[test]
fn start_case_upper() {
    assert!(is_game_trigger("PLAY CLAWBOY"));
}

#[test]
fn start_case_mixed() {
    assert!(is_game_trigger("Play Clawboy"));
}

#[test]
fn start_case_alternating() {
    assert!(is_game_trigger("pLaY cLaWbOy"));
}

#[test]
fn start_filler_short() {
    assert!(is_game_trigger("play some clawboy"));
}

#[test]
fn start_filler_max_boundary() {
    // "play " + 14 chars of filler + " " + "clawboy" should still match
    assert!(is_game_trigger("play that cool new clawboy"));
}

#[test]
fn start_rejects_no_verb() {
    assert!(!is_game_trigger("clawboy is fun"));
}

#[test]
fn start_rejects_no_noun() {
    assert!(!is_game_trigger("play something"));
}

#[test]
fn start_rejects_past_tense() {
    assert!(!is_game_trigger("played clawboy yesterday"));
}

#[test]
fn start_rejects_unrelated() {
    assert!(!is_game_trigger("what's for dinner?"));
}

#[test]
fn start_rejects_play_pokemon() {
    assert!(!is_game_trigger("play pokemon"));
}

#[test]
fn start_rejects_play_a_game() {
    assert!(!is_game_trigger("play a game with me"));
}

#[test]
fn start_rejects_fire_up_game_boy() {
    assert!(!is_game_trigger("fire up game boy"));
}

#[test]
fn stop_basic_stop() {
    assert!(is_stop_trigger("stop"));
}

#[test]
fn stop_quit() {
    assert!(is_stop_trigger("quit"));
}

#[test]
fn stop_end() {
    assert!(is_stop_trigger("end"));
}

#[test]
fn stop_save_and_quit() {
    assert!(is_stop_trigger("save and quit"));
}

#[test]
fn stop_stop_playing() {
    assert!(is_stop_trigger("stop playing"));
}

#[test]
fn stop_end_the_game() {
    assert!(is_stop_trigger("end the game"));
}

#[test]
fn stop_end_game() {
    assert!(is_stop_trigger("end game"));
}

#[test]
fn stop_quit_the_game() {
    assert!(is_stop_trigger("quit the game"));
}

#[test]
fn stop_quit_game() {
    assert!(is_stop_trigger("quit game"));
}

#[test]
fn stop_shut_it_down() {
    assert!(is_stop_trigger("shut it down"));
}

#[test]
fn stop_stop_the_game() {
    assert!(is_stop_trigger("stop the game"));
}

#[test]
fn stop_stop_game() {
    assert!(is_stop_trigger("stop game"));
}

#[test]
fn stop_case_upper() {
    assert!(is_stop_trigger("STOP"));
}

#[test]
fn stop_case_mixed() {
    assert!(is_stop_trigger("Save And Quit"));
}

#[test]
fn stop_leading_whitespace() {
    assert!(is_stop_trigger("  stop  "));
}

#[test]
fn stop_trailing_whitespace() {
    assert!(is_stop_trigger("quit  "));
}

#[test]
fn stop_rejects_embedded() {
    assert!(!is_stop_trigger("please stop the game now"));
}

#[test]
fn stop_rejects_prefix() {
    assert!(!is_stop_trigger("don't stop"));
}

#[test]
fn stop_rejects_unrelated() {
    assert!(!is_stop_trigger("how do I save my progress?"));
}

#[test]
fn trigger_handler_initially_none() {
    let slot: TriggerHandlerSlot<fn(&str, &str) -> Option<String>> = TriggerHandlerSlot::new();
    assert!(slot.trigger_handler().is_none());
}

fn first_handler(_msg: &str, _channel: &str) -> Option<String> {
    Some("first".to_string())
}

fn second_handler(_msg: &str, _channel: &str) -> Option<String> {
    Some("second".to_string())
}

#[test]
fn first_registered_trigger_handler_wins() {
    let mut slot: TriggerHandlerSlot<fn(&str, &str) -> Option<String>> = TriggerHandlerSlot::new();
    slot.register_trigger_handler(first_handler);
    slot.register_trigger_handler(second_handler);
    let h = slot.trigger_handler().unwrap();
    assert_eq!(h("play pokemon", "c"), Some("first".to_string()));
}
