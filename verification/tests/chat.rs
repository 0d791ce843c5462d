use std::time::{Duration, Instant};
use zeroai::clawboy::chat::{
    check_trigger, classify_command, commentary_due, handle_active_trigger, is_game_trigger, is_stop_trigger,
    parse_user_command, start_reply, CommentaryRouter, TriggerAction, TriggerResult, UserCommand,
};
use zeroai::clawboy::types::ClawBoyStatus;

#[test]
fn check_trigger_passthrough_when_rom_not_present() {
    assert_eq!(
        check_trigger("play pokemon", "cli", false, &ClawBoyStatus::Idle, None),
        TriggerAction::PassThrough
    );
}

#[test]
fn check_trigger_passthrough_for_non_trigger() {
    assert_eq!(
        check_trigger("hello", "cli", true, &ClawBoyStatus::Idle, None),
        TriggerAction::PassThrough
    );
}

#[test]
fn router_accepts_first_message() {
    let mut router = CommentaryRouter::new(Some("discord:123".to_owned()));
    assert!(router.queue_commentary("Hello chat!".to_owned()));
    assert_eq!(router.pending.len(), 1);
}

#[test]
fn router_drops_message_within_interval() {
    let mut router = CommentaryRouter::new(None);
    assert!(router.queue_commentary("First".to_owned()));

    // Second message immediately after -- should be dropped.
    assert!(!router.queue_commentary("Second".to_owned()));
    assert_eq!(router.pending.len(), 1);
    assert_eq!(router.pending[0], "First");
}

#[test]
fn router_accepts_after_interval_elapsed() {
    let mut router = CommentaryRouter::new(None);
    assert!(router.queue_commentary("First".to_owned()));

    // Manually backdate last_sent to simulate time passing.
    router.last_sent = Some(Instant::now().checked_sub(Duration::from_secs(31)).unwrap());

    assert!(router.queue_commentary("Second".to_owned()));
    assert_eq!(router.pending.len(), 2);
}

#[test]
fn router_status_bypasses_frequency_cap() {
    let mut router = CommentaryRouter::new(None);
    router.queue_commentary("First".to_owned());

    // Status message should always go through.
    router.send_status("Game started!".to_owned());
    assert_eq!(router.pending.len(), 2);
    assert_eq!(router.pending[1], "Game started!");
}

#[test]
fn router_status_updates_last_sent() {
    let mut router = CommentaryRouter::new(None);
    router.send_status("Started".to_owned());

    // A commentary immediately after a status should be dropped.
    assert!(!router.queue_commentary("Hello".to_owned()));
}

#[test]
fn router_drain_pending_clears_buffer() {
    let mut router = CommentaryRouter::new(None);
    router.queue_commentary("One".to_owned());
    router.send_status("Two".to_owned());

    let drained = router.drain_pending();
    assert_eq!(drained.len(), 2);
    assert_eq!(drained[0], "One");
    assert_eq!(drained[1], "Two");

    // Buffer should now be empty.
    assert!(router.drain_pending().is_empty());
}

#[test]
fn router_channel_id_accessor() {
    let router = CommentaryRouter::new(Some("telegram:456".to_owned()));
    assert_eq!(router.channel_id(), Some("telegram:456"));

    let router_none = CommentaryRouter::new(None);
    assert_eq!(router_none.channel_id(), None);
}

#[test]
fn stop_keyword_exact_match() {
    assert_eq!(parse_user_command("stop"), UserCommand::Stop);
    assert_eq!(parse_user_command("quit"), UserCommand::Stop);
    assert_eq!(parse_user_command("save and quit"), UserCommand::Stop);
    assert_eq!(parse_user_command("end game"), UserCommand::Stop);
}

#[test]
fn stop_keyword_case_insensitive() {
    assert_eq!(parse_user_command("STOP"), UserCommand::Stop);
    assert_eq!(parse_user_command("Stop Playing"), UserCommand::Stop);
    assert_eq!(parse_user_command("QUIT THE GAME"), UserCommand::Stop);
}

#[test]
fn stop_keyword_with_whitespace() {
    assert_eq!(parse_user_command("  stop  "), UserCommand::Stop);
    assert_eq!(parse_user_command("\tstop\n"), UserCommand::Stop);
}

#[test]
fn stop_keyword_substring_does_not_match() {
    // "stop" must be an exact match, not a substring.
    let cmd = parse_user_command("don't stop me now");
    assert!(
        !matches!(cmd, UserCommand::Stop),
        "substring 'stop' should not trigger Stop"
    );
}

#[test]
fn directive_keyword_detected() {
    assert_eq!(
        parse_user_command("catch a Pikachu"),
        UserCommand::Directive("catch a Pikachu".to_owned())
    );
    assert_eq!(
        parse_user_command("go to Pewter City"),
        UserCommand::Directive("go to Pewter City".to_owned())
    );
    assert_eq!(
        parse_user_command("take a screenshot please"),
        UserCommand::Directive("take a screenshot please".to_owned())
    );
}

#[test]
fn directive_preserves_original_casing() {
    let cmd = parse_user_command("CATCH a Pikachu!");
    assert_eq!(cmd, UserCommand::Directive("CATCH a Pikachu!".to_owned()));
}

#[test]
fn chat_when_no_keywords() {
    assert_eq!(
        parse_user_command("hello there"),
        UserCommand::Chat("hello there".to_owned())
    );
    assert_eq!(
        parse_user_command("what do you think of the game?"),
        UserCommand::Chat("what do you think of the game?".to_owned())
    );
}

#[test]
fn chat_trims_whitespace() {
    assert_eq!(
        parse_user_command("  hello  "),
        UserCommand::Chat("hello".to_owned())
    );
}

#[test]
fn game_trigger_negative() {
    assert!(!is_game_trigger("hello"));
    assert!(!is_game_trigger("what are you doing?"));
    assert!(!is_game_trigger("how do I play?"));
}

#[test]
fn stop_trigger_exact_match() {
    assert!(is_stop_trigger("stop", Some("cli"), None));
    assert!(is_stop_trigger("quit", Some("cli"), None));
    assert!(is_stop_trigger("save and quit", Some("cli"), None));
    assert!(is_stop_trigger("end game", Some("cli"), None));
}

#[test]
fn stop_trigger_case_insensitive() {
    assert!(is_stop_trigger("STOP", Some("cli"), None));
    assert!(is_stop_trigger("Stop Playing", Some("cli"), None));
    assert!(is_stop_trigger("QUIT THE GAME", Some("cli"), None));
}

#[test]
fn stop_trigger_with_whitespace() {
    assert!(is_stop_trigger("  stop  ", Some("cli"), None));
    assert!(is_stop_trigger("\tstop\n", Some("cli"), None));
}

#[test]
fn stop_trigger_substring_does_not_match() {
    assert!(!is_stop_trigger("don't stop me now", Some("cli"), None));
}

#[test]
fn stop_trigger_allowed_when_no_session() {
    // When no session is active, there is no originating channel to
    // scope against, so is_stop_trigger returns true for any sender.
    assert!(is_stop_trigger("stop", Some("discord"), None));
}

fn playing() -> ClawBoyStatus {
    ClawBoyStatus::Playing { viewer_url: "http://10.0.0.2:8432".to_owned(), play_time_seconds: 185 }
}

#[test]
fn stop_from_originating_channel_stops_the_session() {
    let action = handle_active_trigger("stop", "discord:1", &playing(), Some("discord:1"));
    assert_eq!(
        action,
        TriggerAction::Stop { reply: "Saved and stopped! 3m 5s played this session.".to_owned() }
    );
}

#[test]
fn stop_from_another_channel_is_relayed_as_chat() {
    assert!(!is_stop_trigger("stop", Some("telegram:9"), Some("discord:1")));
    let action = handle_active_trigger("stop", "telegram:9", &playing(), Some("discord:1"));
    assert_eq!(action, TriggerAction::PassThrough);
}

#[test]
fn start_while_playing_or_paused_answers_with_status() {
    assert_eq!(
        handle_active_trigger("play clawboy", "cli", &playing(), None),
        TriggerAction::Reply { reply: "Already playing! Watch here: http://10.0.0.2:8432".to_owned() }
    );
    let paused = ClawBoyStatus::Paused { reason: "user paused".to_owned() };
    assert_eq!(
        handle_active_trigger("play clawboy", "cli", &paused, None),
        TriggerAction::Reply {
            reply: "Game is paused (battery saver). It'll resume when battery saver is off."
                .to_owned()
        }
    );
}

#[test]
fn directives_and_chat_are_relayed_to_the_agent() {
    assert_eq!(
        handle_active_trigger("  catch a Pikachu ", "cli", &playing(), None),
        TriggerAction::Relay {
            note: "[User coaching]: catch a Pikachu".to_owned(),
            reply: "Got it! I'll work on that. Playing for 3m. Watch: http://10.0.0.2:8432"
                .to_owned(),
        }
    );
    let paused = ClawBoyStatus::Paused { reason: "user paused".to_owned() };
    assert_eq!(
        handle_active_trigger("hello", "cli", &paused, None),
        TriggerAction::Relay {
            note: "[User says]: hello".to_owned(),
            reply: "I'm playing Pokemon Red right now! 0m in. Watch: unknown".to_owned(),
        }
    );
}

#[test]
fn start_trigger_without_session_starts_one() {
    assert_eq!(
        check_trigger("play clawboy", "cli", true, &ClawBoyStatus::Idle, None),
        TriggerAction::Start
    );
}

#[test]
fn start_reply_texts() {
    assert_eq!(
        start_reply(&Ok("http://h:1".to_owned()), &ClawBoyStatus::Idle),
        TriggerResult::StartResponse("Starting Pokemon Red! Watch here: http://h:1".to_owned())
    );
    assert_eq!(
        start_reply(&Err("a ClawBoy session is already running".to_owned()), &playing()),
        TriggerResult::StartResponse(
            "Already playing! Watch here: http://10.0.0.2:8432".to_owned()
        )
    );
    assert_eq!(
        start_reply(&Err("no ROM".to_owned()), &ClawBoyStatus::Idle),
        TriggerResult::StartResponse("Couldn't start ClawBoy: no ROM".to_owned())
    );
}

#[test]
fn classification_uses_the_lowered_text() {
    assert_eq!(
        classify_command("Please HEAL", false, "please heal"),
        UserCommand::Directive("Please HEAL".to_owned())
    );
    assert_eq!(classify_command("x", true, "x"), UserCommand::Stop);
    assert_eq!(classify_command("Hi", false, "hi"), UserCommand::Chat("Hi".to_owned()));
}

#[test]
fn commentary_due_after_thirty_seconds_or_first_time() {
    assert!(commentary_due(None));
    assert!(!commentary_due(Some(0)));
    assert!(!commentary_due(Some(29_999)));
    assert!(commentary_due(Some(30_000)));
    assert!(commentary_due(Some(120_000)));
}

// The start trigger's nouns are narrowed to the product name ("clawboy" /
// "claw boy"), so the broad phrases of these inputs no longer start a game;
// only the inputs that name ClawBoy do.

#[test]
fn game_trigger_detected() {
    assert!(!is_game_trigger("play a game"));
    assert!(!is_game_trigger("hey, play pokemon!"));
    assert!(is_game_trigger("can you start clawboy?"));
    assert!(!is_game_trigger("start the game"));
}

#[test]
fn game_trigger_case_insensitive() {
    assert!(!is_game_trigger("PLAY A GAME"));
    assert!(!is_game_trigger("Play Pokemon"));
    assert!(is_game_trigger("START CLAWBOY"));
    assert!(is_game_trigger("Fire Up Claw Boy"));
}

#[test]
fn game_trigger_with_whitespace() {
    assert!(!is_game_trigger("  play a game  "));
    assert!(is_game_trigger("  play clawboy  "));
}
