use zeroai::clawboy::prompts::{
    format_bag, format_game_state, format_journal_context, format_special_ui,
    DECISION_FORMAT_PROMPT, GAME_CONTEXT_PROMPT, JOURNAL_CONTEXT_TEMPLATE, PERSONALITY_PROMPT,
    STATE_TEMPLATE,
};
use zeroai::clawboy::types::{
    BagItem, GameState, Journal, JournalEntry, PartyMember, PartySnapshot, SpecialUiState,
};

#[test]
fn format_game_state_empty_party() {
    let state = GameState::default();
    let output = format_game_state(&state, false);
    assert!(output.contains("Party: empty"));
    assert!(output.contains("Badges: none (0/8)"));
    assert!(output.contains("Bag: empty"));
    assert!(output.contains("Battle: none"));
    assert!(output.contains("UI: none"));
    assert!(output.contains("Screenshot: not included this turn"));
}

#[test]
fn format_game_state_with_data() {
    let state = GameState {
        map_id: 2,
        map_name: "PEWTER_CITY".to_owned(),
        player_x: 10,
        player_y: 5,
        in_battle: false,
        party: vec![
            PartyMember {
                species: "CHARMANDER".to_owned(),
                level: 12,
                hp: 42,
                max_hp: 52,
                status: "OK".to_owned(),
            },
            PartyMember {
                species: "PIDGEY".to_owned(),
                level: 8,
                hp: 28,
                max_hp: 30,
                status: "PSN".to_owned(),
            },
        ],
        badges: vec!["BOULDER".to_owned()],
        badge_count: 1,
        money: 3456,
        bag: vec![
            BagItem {
                name: "POTION".to_owned(),
                count: 3,
            },
            BagItem {
                name: "POKE_BALL".to_owned(),
                count: 5,
            },
        ],
        special_ui: SpecialUiState::NoOverlay,
    };

    let output = format_game_state(&state, true);
    assert!(output.contains("Location: PEWTER_CITY (10,5)"));
    assert!(output.contains("Screenshot: attached below"));
    assert!(output.contains("Party: CHARMANDER Lv12 42/52hp, PIDGEY Lv8 28/30hp (PSN)"));
    assert!(output.contains("Badges: BOULDER (1/8)"));
    assert!(output.contains("Money: $3456"));
    assert!(output.contains("Bag: POTION x3, POKE_BALL x5"));
    assert!(output.contains("Battle: none"));
}

#[test]
fn format_game_state_in_battle() {
    let state = GameState {
        in_battle: true,
        special_ui: SpecialUiState::BattleMenu,
        ..GameState::default()
    };
    let output = format_game_state(&state, false);
    assert!(output.contains("Battle: in battle"));
    assert!(output.contains("UI: battle_menu"));
}

#[test]
fn format_bag_truncation() {
    let items: Vec<BagItem> = (0..8)
        .map(|i| BagItem {
            name: format!("ITEM_{i}"),
            count: i + 1,
        })
        .collect();
    let output = format_bag(&items);
    assert!(output.contains("ITEM_0 x1"));
    assert!(output.contains("ITEM_4 x5"));
    assert!(output.ends_with(", ..."));
    assert!(!output.contains("ITEM_5"));
}

#[test]
fn format_journal_context_empty_journal() {
    let journal = Journal::default();
    let output = format_journal_context(&journal);
    assert!(output.is_empty());
}

#[test]
fn format_journal_context_with_session() {
    let journal = Journal {
        sessions: vec![JournalEntry {
            started: "2026-03-14T10:00:00Z".to_owned(),
            ended: "2026-03-14T11:00:00Z".to_owned(),
            summary: "Beat Brock with Charmander".to_owned(),
            party_snapshot: vec![
                PartySnapshot {
                    species: "CHARMANDER".to_owned(),
                    level: 14,
                },
                PartySnapshot {
                    species: "PIDGEY".to_owned(),
                    level: 9,
                },
            ],
            badges: 1,
            play_time_seconds: 3600,
        }],
        current_goal: "Reach Mt. Moon".to_owned(),
        learnings: vec![],
    };

    let output = format_journal_context(&journal);
    assert!(output.contains("Previously: Beat Brock with Charmander"));
    assert!(output.contains("Current goal: Reach Mt. Moon"));
    assert!(output.contains("Your party was: CHARMANDER Lv14, PIDGEY Lv9"));
    assert!(output.contains("Continue from where you left off."));
}

#[test]
fn format_journal_context_empty_goal() {
    let journal = Journal {
        sessions: vec![JournalEntry {
            started: String::new(),
            ended: String::new(),
            summary: "Started the game".to_owned(),
            party_snapshot: vec![],
            badges: 0,
            play_time_seconds: 600,
        }],
        current_goal: String::new(),
        learnings: vec![],
    };

    let output = format_journal_context(&journal);
    assert!(output.contains("Current goal: no specific goal set"));
    assert!(output.contains("Your party was: empty"));
}

#[test]
fn format_special_ui_variants() {
    assert_eq!(format_special_ui(&SpecialUiState::NoOverlay), "none");
    assert_eq!(format_special_ui(&SpecialUiState::TextBox), "text_box");
    assert_eq!(
        format_special_ui(&SpecialUiState::BattleMenu),
        "battle_menu"
    );
    assert_eq!(format_special_ui(&SpecialUiState::ItemMenu), "item_menu");
    assert_eq!(format_special_ui(&SpecialUiState::PartyMenu), "party_menu");
    assert_eq!(format_special_ui(&SpecialUiState::NameInput), "name_input");
    assert_eq!(format_special_ui(&SpecialUiState::MoveSwap), "move_swap");
    assert_eq!(format_special_ui(&SpecialUiState::Shopping), "shopping");
    assert_eq!(format_special_ui(&SpecialUiState::YesNo), "yes_no");
    assert_eq!(format_special_ui(&SpecialUiState::PcStorage), "pc_storage");
}

#[test]
fn const_prompts_are_nonempty() {
    assert!(!GAME_CONTEXT_PROMPT.is_empty());
    assert!(!DECISION_FORMAT_PROMPT.is_empty());
    assert!(!PERSONALITY_PROMPT.is_empty());
    assert!(!JOURNAL_CONTEXT_TEMPLATE.is_empty());
    assert!(!STATE_TEMPLATE.is_empty());
}

#[test]
fn state_template_has_all_placeholders() {
    assert!(STATE_TEMPLATE.contains("{map_name}"));
    assert!(STATE_TEMPLATE.contains("{x}"));
    assert!(STATE_TEMPLATE.contains("{y}"));
    assert!(STATE_TEMPLATE.contains("{party}"));
    assert!(STATE_TEMPLATE.contains("{badges}"));
    assert!(STATE_TEMPLATE.contains("{badge_count}"));
    assert!(STATE_TEMPLATE.contains("{money}"));
    assert!(STATE_TEMPLATE.contains("{bag}"));
    assert!(STATE_TEMPLATE.contains("{battle}"));
    assert!(STATE_TEMPLATE.contains("{ui_state}"));
    assert!(STATE_TEMPLATE.contains("{screenshot_status}"));
}

#[test]
fn journal_template_has_all_placeholders() {
    assert!(JOURNAL_CONTEXT_TEMPLATE.contains("{summary}"));
    assert!(JOURNAL_CONTEXT_TEMPLATE.contains("{goal}"));
    assert!(JOURNAL_CONTEXT_TEMPLATE.contains("{party}"));
}
