use zeroai::clawboy::types::{GameState, GbButton};

#[test]
fn gb_button_from_str_valid() {
    assert_eq!(GbButton::try_from("A").unwrap(), GbButton::A);
    assert_eq!(GbButton::try_from("b").unwrap(), GbButton::B);
    assert_eq!(GbButton::try_from("Start").unwrap(), GbButton::Start);
    assert_eq!(GbButton::try_from("SELECT").unwrap(), GbButton::Select);
    assert_eq!(GbButton::try_from("up").unwrap(), GbButton::Up);
    assert_eq!(GbButton::try_from("Down").unwrap(), GbButton::Down);
    assert_eq!(GbButton::try_from("LEFT").unwrap(), GbButton::Left);
    assert_eq!(GbButton::try_from("right").unwrap(), GbButton::Right);
}

#[test]
fn gb_button_from_str_invalid() {
    let err = GbButton::try_from("X").unwrap_err();
    assert_eq!(err.0, "X");
    assert!(err.to_string().contains("unknown Game Boy button"));
}

#[test]
fn game_state_default() {
    let state = GameState::default();
    assert_eq!(state.map_id, 0);
    assert!(!state.in_battle);
    assert!(state.party.is_empty());
    assert!(state.badges.is_empty());
}
