use zeroai::clawboy::journal::{create_session_entry, format_party_for_journal};
use zeroai::clawboy::types::{GameState, PartyMember};

#[test]
fn create_session_entry_builds_correct_snapshot() {
    let state = GameState {
        party: vec![
            PartyMember {
                species: "CHARMANDER".to_owned(),
                level: 14,
                hp: 50,
                max_hp: 52,
                status: "OK".to_owned(),
            },
            PartyMember {
                species: "PIDGEY".to_owned(),
                level: 8,
                hp: 28,
                max_hp: 30,
                status: String::new(),
            },
        ],
        badge_count: 1,
        ..GameState::default()
    };

    let entry = create_session_entry(
        "2026-03-14T10:00:00Z",
        "2026-03-14T11:00:00Z",
        "Beat Brock".to_owned(),
        &state,
        3600,
    );

    assert_eq!(entry.started, "2026-03-14T10:00:00Z");
    assert_eq!(entry.ended, "2026-03-14T11:00:00Z");
    assert_eq!(entry.summary, "Beat Brock");
    assert_eq!(entry.badges, 1);
    assert_eq!(entry.play_time_seconds, 3600);
    assert_eq!(entry.party_snapshot.len(), 2);
    assert_eq!(entry.party_snapshot[0].species, "CHARMANDER");
    assert_eq!(entry.party_snapshot[0].level, 14);
    assert_eq!(entry.party_snapshot[1].species, "PIDGEY");
    assert_eq!(entry.party_snapshot[1].level, 8);
}

#[test]
fn format_party_for_journal_empty() {
    assert_eq!(format_party_for_journal(&[]), "empty");
}

#[test]
fn format_party_for_journal_multiple() {
    let party = vec![
        PartyMember {
            species: "CHARMANDER".to_owned(),
            level: 12,
            hp: 40,
            max_hp: 42,
            status: "OK".to_owned(),
        },
        PartyMember {
            species: "PIDGEY".to_owned(),
            level: 8,
            hp: 28,
            max_hp: 30,
            status: String::new(),
        },
    ];

    let output = format_party_for_journal(&party);
    assert_eq!(output, "CHARMANDER Lv12, PIDGEY Lv8");
}
