use std::collections::HashMap;
use zeroai::clawboy::memory_map::{
    decode_badges, detect_special_ui, item_id_to_name, map_id_to_name, read_bag, read_bcd_money,
    read_game_state, read_party, species_id_to_name, status_byte_to_name, BAG_COUNT,
    BAG_ITEMS_START, BADGE_FLAGS, BATTLE_TYPE, JOY_IGNORE, MAP_ID, MONEY_START, PARTY_COUNT,
    PARTY_DATA_START, PARTY_HP_OFFSET, PARTY_LEVEL_OFFSET, PARTY_MAX_HP_OFFSET,
    PARTY_SPECIES_START, PARTY_STATUS_OFFSET, PLAYER_X, PLAYER_Y,
};
use zeroai::clawboy::types::SpecialUiState;

/// Helper: builds a flat memory map and returns a read closure.
fn make_memory(entries: &[(u16, u8)]) -> impl Fn(u16) -> u8 {
    let map: HashMap<u16, u8> = entries.iter().copied().collect();
    move |addr| map.get(&addr).copied().unwrap_or(0)
}

#[test]
fn bcd_money_decodes_correctly() {
    let mut mem = make_memory(&[
        (MONEY_START, 0x01),
        (MONEY_START + 1, 0x23),
        (MONEY_START + 2, 0x45),
    ]);
    assert_eq!(read_bcd_money(&mut mem), 12345);
}

#[test]
fn bcd_money_zero() {
    let mut mem = make_memory(&[]);
    assert_eq!(read_bcd_money(&mut mem), 0);
}

#[test]
fn bcd_money_max() {
    let mut mem = make_memory(&[
        (MONEY_START, 0x99),
        (MONEY_START + 1, 0x99),
        (MONEY_START + 2, 0x99),
    ]);
    assert_eq!(read_bcd_money(&mut mem), 999_999);
}

#[test]
fn decode_badges_none() {
    let (names, count) = decode_badges(0x00);
    assert!(names.is_empty());
    assert_eq!(count, 0);
}

#[test]
fn decode_badges_all() {
    let (names, count) = decode_badges(0xFF);
    assert_eq!(count, 8);
    assert_eq!(
        names,
        vec![
            "BOULDER", "CASCADE", "THUNDER", "RAINBOW", "SOUL", "MARSH", "VOLCANO", "EARTH"
        ]
    );
}

#[test]
fn decode_badges_partial() {
    // Bits 0 and 2: BOULDER and THUNDER
    let (names, count) = decode_badges(0b0000_0101);
    assert_eq!(count, 2);
    assert_eq!(names, vec!["BOULDER", "THUNDER"]);
}

#[test]
fn status_byte_ok() {
    assert_eq!(status_byte_to_name(0), "OK");
}

#[test]
fn status_byte_sleep() {
    assert_eq!(status_byte_to_name(0x03), "SLP");
}

#[test]
fn status_byte_poison() {
    assert_eq!(status_byte_to_name(0x08), "PSN");
}

#[test]
fn status_byte_burn() {
    assert_eq!(status_byte_to_name(0x10), "BRN");
}

#[test]
fn status_byte_freeze() {
    assert_eq!(status_byte_to_name(0x20), "FRZ");
}

#[test]
fn status_byte_paralysis() {
    assert_eq!(status_byte_to_name(0x40), "PAR");
}

#[test]
fn species_lookup_starters() {
    assert_eq!(species_id_to_name(0x99), "BULBASAUR");
    assert_eq!(species_id_to_name(0xB0), "CHARMANDER");
    assert_eq!(species_id_to_name(0xB1), "SQUIRTLE");
}

#[test]
fn species_lookup_pikachu() {
    assert_eq!(species_id_to_name(0x54), "PIKACHU");
}

#[test]
fn species_lookup_evolved_starters() {
    assert_eq!(species_id_to_name(0x09), "IVYSAUR");
    assert_eq!(species_id_to_name(0x9A), "VENUSAUR");
    assert_eq!(species_id_to_name(0xB2), "CHARMELEON");
    assert_eq!(species_id_to_name(0xB4), "CHARIZARD");
    assert_eq!(species_id_to_name(0xB3), "WARTORTLE");
    assert_eq!(species_id_to_name(0x1C), "BLASTOISE");
}

#[test]
fn species_lookup_unknown() {
    assert_eq!(species_id_to_name(0x00), "UNKNOWN");
    assert_eq!(species_id_to_name(0xFF), "UNKNOWN");
}

#[test]
fn species_lookup_legendaries() {
    assert_eq!(species_id_to_name(0x49), "MOLTRES");
    assert_eq!(species_id_to_name(0x4A), "ARTICUNO");
    assert_eq!(species_id_to_name(0x4B), "ZAPDOS");
    assert_eq!(species_id_to_name(0x83), "MEWTWO");
    assert_eq!(species_id_to_name(0x15), "MEW");
}

#[test]
fn item_lookup_balls() {
    assert_eq!(item_id_to_name(0x01), "MASTER_BALL");
    assert_eq!(item_id_to_name(0x02), "ULTRA_BALL");
    assert_eq!(item_id_to_name(0x03), "GREAT_BALL");
    assert_eq!(item_id_to_name(0x04), "POKE_BALL");
}

#[test]
fn item_lookup_potions() {
    assert_eq!(item_id_to_name(0x14), "POTION");
    assert_eq!(item_id_to_name(0x13), "SUPER_POTION");
    assert_eq!(item_id_to_name(0x12), "HYPER_POTION");
    assert_eq!(item_id_to_name(0x11), "MAX_POTION");
    assert_eq!(item_id_to_name(0x10), "FULL_RESTORE");
}

#[test]
fn item_lookup_unknown() {
    assert_eq!(item_id_to_name(0x00), "UNKNOWN_ITEM");
    assert_eq!(item_id_to_name(0xFF), "UNKNOWN_ITEM");
}

#[test]
fn map_lookup_towns() {
    assert_eq!(map_id_to_name(0), "PALLET_TOWN");
    assert_eq!(map_id_to_name(1), "VIRIDIAN_CITY");
    assert_eq!(map_id_to_name(2), "PEWTER_CITY");
    assert_eq!(map_id_to_name(10), "SAFFRON_CITY");
}

#[test]
fn map_lookup_unknown() {
    assert_eq!(map_id_to_name(255), "UNKNOWN_MAP");
}

#[test]
fn read_party_empty() {
    let mut mem = make_memory(&[]);
    let party = read_party(&mut mem);
    assert!(party.is_empty());
}

#[test]
fn read_party_one_pokemon() {
    let struct_base = PARTY_DATA_START;
    let mut mem = make_memory(&[
        (PARTY_COUNT, 1),
        (PARTY_SPECIES_START, 0x99), // Bulbasaur
        // Level
        (struct_base + PARTY_LEVEL_OFFSET, 15),
        // Current HP: 45 (0x002D)
        (struct_base + PARTY_HP_OFFSET, 0x00),
        (struct_base + PARTY_HP_OFFSET + 1, 0x2D),
        // Max HP: 48 (0x0030)
        (struct_base + PARTY_MAX_HP_OFFSET, 0x00),
        (struct_base + PARTY_MAX_HP_OFFSET + 1, 0x30),
        // Status: OK
        (struct_base + PARTY_STATUS_OFFSET, 0x00),
    ]);
    let party = read_party(&mut mem);
    assert_eq!(party.len(), 1);
    assert_eq!(party[0].species, "BULBASAUR");
    assert_eq!(party[0].level, 15);
    assert_eq!(party[0].hp, 45);
    assert_eq!(party[0].max_hp, 48);
    assert_eq!(party[0].status, "OK");
}

#[test]
fn read_party_clamps_to_six() {
    let mut mem = make_memory(&[(PARTY_COUNT, 99)]);
    let party = read_party(&mut mem);
    assert_eq!(party.len(), 6);
}

#[test]
fn read_bag_empty() {
    let mut mem = make_memory(&[]);
    let bag = read_bag(&mut mem);
    assert!(bag.is_empty());
}

#[test]
fn read_bag_two_items() {
    let mut mem = make_memory(&[
        (BAG_COUNT, 2),
        (BAG_ITEMS_START, 0x04),     // POKE_BALL
        (BAG_ITEMS_START + 1, 5),    // qty 5
        (BAG_ITEMS_START + 2, 0x14), // POTION
        (BAG_ITEMS_START + 3, 3),    // qty 3
    ]);
    let bag = read_bag(&mut mem);
    assert_eq!(bag.len(), 2);
    assert_eq!(bag[0].name, "POKE_BALL");
    assert_eq!(bag[0].count, 5);
    assert_eq!(bag[1].name, "POTION");
    assert_eq!(bag[1].count, 3);
}

#[test]
fn read_bag_clamps_to_twenty() {
    let mut mem = make_memory(&[(BAG_COUNT, 50)]);
    let bag = read_bag(&mut mem);
    assert_eq!(bag.len(), 20);
}

#[test]
fn detect_special_ui_battle() {
    let mut mem = make_memory(&[(BATTLE_TYPE, 1)]);
    assert!(matches!(
        detect_special_ui(&mut mem),
        SpecialUiState::BattleMenu
    ));
}

#[test]
fn detect_special_ui_textbox() {
    let mut mem = make_memory(&[(JOY_IGNORE, 0xFF)]);
    assert!(matches!(
        detect_special_ui(&mut mem),
        SpecialUiState::TextBox
    ));
}

#[test]
fn detect_special_ui_none() {
    let mut mem = make_memory(&[]);
    assert!(matches!(detect_special_ui(&mut mem), SpecialUiState::NoOverlay));
}

#[test]
fn full_game_state_integration() {
    let struct_base = PARTY_DATA_START;
    let mut mem = make_memory(&[
        (MAP_ID, 2), // PEWTER_CITY
        (PLAYER_X, 10),
        (PLAYER_Y, 5),
        (BADGE_FLAGS, 0x01), // BOULDER badge
        (MONEY_START, 0x00),
        (MONEY_START + 1, 0x34),
        (MONEY_START + 2, 0x56),
        (PARTY_COUNT, 1),
        (PARTY_SPECIES_START, 0xB0), // Charmander
        (struct_base + PARTY_LEVEL_OFFSET, 14),
        (struct_base + PARTY_HP_OFFSET, 0x00),
        (struct_base + PARTY_HP_OFFSET + 1, 0x28),
        (struct_base + PARTY_MAX_HP_OFFSET, 0x00),
        (struct_base + PARTY_MAX_HP_OFFSET + 1, 0x2A),
        (struct_base + PARTY_STATUS_OFFSET, 0x00),
        (BAG_COUNT, 1),
        (BAG_ITEMS_START, 0x14), // POTION
        (BAG_ITEMS_START + 1, 2),
        (BATTLE_TYPE, 0),
        (JOY_IGNORE, 0),
    ]);

    let state = read_game_state(&mem);

    assert_eq!(state.map_name, "PEWTER_CITY");
    assert_eq!(state.player_x, 10);
    assert_eq!(state.player_y, 5);
    assert!(!state.in_battle);
    assert_eq!(state.badge_count, 1);
    assert_eq!(state.badges, vec!["BOULDER"]);
    assert_eq!(state.money, 3456);
    assert_eq!(state.party.len(), 1);
    assert_eq!(state.party[0].species, "CHARMANDER");
    assert_eq!(state.party[0].level, 14);
    assert_eq!(state.bag.len(), 1);
    assert_eq!(state.bag[0].name, "POTION");
    assert!(matches!(state.special_ui, SpecialUiState::NoOverlay));
}
