//! Pokemon Red (USA/Europe) memory map constants and state parser.
//!
//! Reads specific RAM addresses through a memory reader and converts raw
//! bytes into a structured [`GameState`] for LLM decision-making. All
//! address constants are from the verified No-Intro Pokemon Red dump.

use crate::clawboy::types::{BagItem, GameState, PartyMember, SpecialUiState};
use crate::strset::{lemma_views_push, views};
use crate::text::owned;
use vstd::prelude::*;

verus! {

/// Expected SHA-1 for Pokemon Red (USA/Europe) No-Intro verified dump.
pub const EXPECTED_SHA1: &'static str = "EA9BCAE617FDF159B045185467AE58B2E4A48B9A";

/// Player Y coordinate.
pub const PLAYER_Y: u16 = 0xD361;
/// Player X coordinate.
pub const PLAYER_X: u16 = 0xD362;
/// Current map bank ID.
pub const MAP_ID: u16 = 0xD35E;
/// Number of Pokemon in the party (0-6).
pub const PARTY_COUNT: u16 = 0xD163;
/// Start of the six species-ID bytes (one per party slot).
pub const PARTY_SPECIES_START: u16 = 0xD164;
/// Start of per-Pokemon data structs (44 bytes each).
pub const PARTY_DATA_START: u16 = 0xD16B;
/// Size of one party Pokemon data struct in bytes.
pub const PARTY_STRUCT_SIZE: u16 = 44;
/// Offset within a party struct to the current level byte.
pub const PARTY_LEVEL_OFFSET: u16 = 33;
/// Offset within a party struct to the current HP (2 bytes, big-endian).
pub const PARTY_HP_OFFSET: u16 = 1;
/// Offset within a party struct to the max HP (2 bytes, big-endian).
pub const PARTY_MAX_HP_OFFSET: u16 = 34;
/// Offset within a party struct to the status condition byte.
pub const PARTY_STATUS_OFFSET: u16 = 4;
/// Battle type flag (nonzero = in battle).
pub const BATTLE_TYPE: u16 = 0xD057;
/// Badge bitfield (each bit = one badge).
pub const BADGE_FLAGS: u16 = 0xD356;
/// Start of money (3 BCD-encoded bytes).
pub const MONEY_START: u16 = 0xD347;
/// Number of distinct items in the bag.
pub const BAG_COUNT: u16 = 0xD31D;
/// Start of bag item pairs (item_id, count).
pub const BAG_ITEMS_START: u16 = 0xD31E;
/// `wJoyIgnore`: nonzero means a text box or menu is capturing input.
pub const JOY_IGNORE: u16 = 0xCD6B;
/// Current menu cursor position.
pub const MENU_CURSOR: u16 = 0xCC26;
/// Maximum number of party slots the game supports.
pub const MAX_PARTY_SIZE: u8 = 6;
/// Maximum number of distinct bag item slots.
pub const MAX_BAG_ITEMS: u8 = 20;

// ── The memory model ─────────────────────────────────────────────────

/// A memory reader that accepts every address and gives one byte for each:
/// reading an address twice gives the same byte.
pub open spec fn is_memory_reader<F: Fn(u16) -> u8>(read: F) -> bool {
    &&& forall|a: u16| call_requires(read, (a,))
    &&& forall|a: u16, x: u8, y: u8|
        #![trigger call_ensures(read, (a,), x), call_ensures(read, (a,), y)]
        call_ensures(read, (a,), x) && call_ensures(read, (a,), y) ==> x == y
}

/// The byte a memory reader gives for an address.
pub open spec fn byte_at<F: Fn(u16) -> u8>(read: F, a: u16) -> u8 {
    choose|b: u8| call_ensures(read, (a,), b)
}

/// The memory a reader presents, as a function from address to byte.
pub open spec fn memory_of<F: Fn(u16) -> u8>(read: F) -> spec_fn(u16) -> u8 {
    |a: u16| byte_at(read, a)
}

/// Reads one byte.
fn read_at<F: Fn(u16) -> u8>(read_byte: &F, a: u16) -> (b: u8)
    requires
        is_memory_reader(*read_byte),
    ensures
        b == memory_of(*read_byte)(a),
{
    let b = read_byte(a);
    assert(call_ensures(*read_byte, (a,), b));
    assert(call_ensures(*read_byte, (a,), byte_at(*read_byte, a)));
    b
}

// ── Money ────────────────────────────────────────────────────────────

/// The two decimal digits a BCD byte holds, read as a number: the high
/// nibble is the tens digit, the low nibble the units digit.
pub open spec fn bcd_value(b: u8) -> int {
    (b >> 4u8) as int * 10 + (b & 0x0Fu8) as int
}

/// The money amount: three BCD bytes, most significant first.
pub open spec fn money_of(mem: spec_fn(u16) -> u8) -> int {
    (bcd_value(mem(MONEY_START)) * 100 + bcd_value(mem((MONEY_START + 1) as u16))) * 100
        + bcd_value(mem((MONEY_START + 2) as u16))
}

proof fn lemma_bcd_bounds(b: u8)
    ensures
        (b >> 4u8) <= 15,
        (b & 0x0Fu8) <= 15,
        0 <= bcd_value(b) <= 165,
{
    assert((b >> 4u8) <= 15) by (bit_vector);
    assert((b & 0x0Fu8) <= 15) by (bit_vector);
}

/// Decodes 3 BCD-encoded bytes at [`MONEY_START`] into a `u32`.
///
/// Each byte holds two decimal digits: `0x12 0x34 0x56` => 123456.
pub fn read_bcd_money<F: Fn(u16) -> u8>(read_byte: &F) -> (total: u32)
    requires
        is_memory_reader(*read_byte),
    ensures
        total == money_of(memory_of(*read_byte)),
{
    let ghost mem = memory_of(*read_byte);
    let mut total: u32 = 0;
    let mut offset: u16 = 0;
    while offset < 3
        invariant
            offset <= 3,
            mem == memory_of(*read_byte),
            is_memory_reader(*read_byte),
            offset == 0 ==> total == 0,
            offset == 1 ==> total == bcd_value(mem(MONEY_START)),
            offset == 2 ==> total == bcd_value(mem(MONEY_START)) * 100 + bcd_value(
                mem((MONEY_START + 1) as u16),
            ),
            offset == 3 ==> total == money_of(mem),
        decreases 3 - offset,
    {
        let byte = read_at(read_byte, MONEY_START + offset);
        proof {
            lemma_bcd_bounds(byte);
            lemma_bcd_bounds(mem(MONEY_START));
            lemma_bcd_bounds(mem((MONEY_START + 1) as u16));
        }
        let high: u32 = (byte >> 4u8) as u32;
        let low: u32 = (byte & 0x0Fu8) as u32;
        total = total * 100 + high * 10 + low;
        offset = offset + 1;
    }
    total
}

/// Money read from bytes whose nibbles are all decimal digits is the
/// six-digit decimal number they spell, at most 999999.
pub proof fn lemma_money_is_decimal(mem: spec_fn(u16) -> u8)
    requires
        forall|k: int|
            0 <= k < 3 ==> (#[trigger] mem((MONEY_START + k) as u16) >> 4u8) <= 9 && (mem(
                (MONEY_START + k) as u16,
            ) & 0x0Fu8) <= 9,
    ensures
        0 <= money_of(mem) <= 999_999,
{
    assert(mem((MONEY_START + 0) as u16) == mem(MONEY_START));
    assert(mem((MONEY_START + 1) as u16) >> 4u8 <= 9);
    assert(mem((MONEY_START + 2) as u16) >> 4u8 <= 9);
}

// ── Badges ───────────────────────────────────────────────────────────

/// Ordered badge names matching the bits of the badge bitfield.
pub open spec fn badge_names() -> Seq<Seq<char>> {
    seq![
        "BOULDER"@,
        "CASCADE"@,
        "THUNDER"@,
        "RAINBOW"@,
        "SOUL"@,
        "MARSH"@,
        "VOLCANO"@,
        "EARTH"@,
    ]
}

/// Whether bit `i` of the badge bitfield is set.
pub open spec fn has_badge(byte: u8, i: u8) -> bool {
    byte & (1u8 << i) != 0
}

/// The names of the badges whose bits among the lowest `k` are set, in
/// bit order.
pub open spec fn earned_badges(byte: u8, k: nat) -> Seq<Seq<char>>
    decreases k,
{
    if k == 0 {
        Seq::empty()
    } else {
        let rest = earned_badges(byte, (k - 1) as nat);
        if has_badge(byte, (k - 1) as u8) {
            rest.push(badge_names()[k - 1])
        } else {
            rest
        }
    }
}

proof fn lemma_earned_len(byte: u8, k: nat)
    ensures
        earned_badges(byte, k).len() <= k,
    decreases k,
{
    if k > 0 {
        lemma_earned_len(byte, (k - 1) as nat);
    }
}

/// Decodes the badge bitfield into a list of earned badge names and count.
pub fn decode_badges(byte: u8) -> (r: (Vec<String>, u8))
    ensures
        views(r.0@) == earned_badges(byte, 8),
        r.1 == earned_badges(byte, 8).len(),
{
    let names: [&str; 8] = ["BOULDER", "CASCADE", "THUNDER", "RAINBOW", "SOUL", "MARSH", "VOLCANO", "EARTH"];
    let mut out: Vec<String> = Vec::new();
    let mut count: u8 = 0;
    let mut i: u8 = 0;
    while i < 8
        invariant
            i <= 8,
            names@.len() == 8,
            forall|j: int| 0 <= j < 8 ==> (#[trigger] names@[j])@ == badge_names()[j],
            views(out@) == earned_badges(byte, i as nat),
            count == out@.len(),
            count <= i,
        decreases 8 - i,
    {
        proof {
            reveal_strlit("BOULDER");
            reveal_strlit("CASCADE");
            reveal_strlit("THUNDER");
            reveal_strlit("RAINBOW");
            reveal_strlit("SOUL");
            reveal_strlit("MARSH");
            reveal_strlit("VOLCANO");
            reveal_strlit("EARTH");
            lemma_earned_len(byte, i as nat);
        }
        if byte & (1u8 << i) != 0 {
            let ghost before = out@;
            let s = owned(names[i as usize]);
            out.push(s);
            proof {
                lemma_views_push(before, s);
            }
            count = count + 1;
        }
        i = i + 1;
    }
    (out, count)
}

// ── Status conditions ────────────────────────────────────────────────

/// The name of a status condition byte: the lower 3 bits count sleep turns,
/// bits 3 to 6 mark poison, burn, freeze and paralysis, in that priority.
pub open spec fn status_name(byte: u8) -> Seq<char> {
    if byte == 0 {
        "OK"@
    } else if byte & 0x07u8 != 0 {
        "SLP"@
    } else if byte & 0x08u8 != 0 {
        "PSN"@
    } else if byte & 0x10u8 != 0 {
        "BRN"@
    } else if byte & 0x20u8 != 0 {
        "FRZ"@
    } else if byte & 0x40u8 != 0 {
        "PAR"@
    } else {
        "OK"@
    }
}

/// Converts a status condition byte to a human-readable name.
pub fn status_byte_to_name(byte: u8) -> (r: &'static str)
    ensures
        r@ == status_name(byte),
{
    if byte == 0 {
        return "OK";
    }
    if byte & 0x07 != 0 {
        return "SLP";
    }
    if byte & 0x08 != 0 {
        return "PSN";
    }
    if byte & 0x10 != 0 {
        return "BRN";
    }
    if byte & 0x20 != 0 {
        return "FRZ";
    }
    if byte & 0x40 != 0 {
        return "PAR";
    }
    "OK"
}

// ── Party and bag ────────────────────────────────────────────────────

/// A big-endian 16-bit value from its two bytes.
pub open spec fn be16(hi: u8, lo: u8) -> u16 {
    (hi as int * 256 + lo as int) as u16
}

/// The number of party slots read: the party count byte, at most six.
pub open spec fn party_len(mem: spec_fn(u16) -> u8) -> nat {
    if mem(PARTY_COUNT) < MAX_PARTY_SIZE {
        mem(PARTY_COUNT) as nat
    } else {
        MAX_PARTY_SIZE as nat
    }
}

/// The first byte of the data struct of party slot `i`.
pub open spec fn party_base(i: int) -> int {
    PARTY_DATA_START + i * PARTY_STRUCT_SIZE
}

/// Party slot `i` as read from memory: species, level, HP, max HP, status.
pub open spec fn party_member_at(mem: spec_fn(u16) -> u8, i: int) -> (Seq<char>, u8, u16, u16, Seq<char>) {
    let base = party_base(i);
    (
        species_name(mem((PARTY_SPECIES_START + i) as u16)),
        mem((base + PARTY_LEVEL_OFFSET) as u16),
        be16(mem((base + PARTY_HP_OFFSET) as u16), mem((base + PARTY_HP_OFFSET + 1) as u16)),
        be16(
            mem((base + PARTY_MAX_HP_OFFSET) as u16),
            mem((base + PARTY_MAX_HP_OFFSET + 1) as u16),
        ),
        status_name(mem((base + PARTY_STATUS_OFFSET) as u16)),
    )
}

/// The party as read from memory.
pub open spec fn party_of(mem: spec_fn(u16) -> u8) -> Seq<(Seq<char>, u8, u16, u16, Seq<char>)> {
    Seq::new(party_len(mem), |i: int| party_member_at(mem, i))
}

/// The views of a sequence of party members.
pub open spec fn party_views(v: Seq<PartyMember>) -> Seq<(Seq<char>, u8, u16, u16, Seq<char>)> {
    v.map_values(|p: PartyMember| p@)
}

proof fn lemma_be16(hi: u8, lo: u8)
    ensures
        ((hi as u16) << 8u16) | (lo as u16) == be16(hi, lo),
{
    assert(((hi as u16) << 8u16) | (lo as u16) == (hi as u16) * 256 + (lo as u16)) by (bit_vector);
}

/// Reads the player's party from memory.
///
/// Reads the party count (clamped to 6), then for each slot reads the
/// species ID from the species list and level/HP/status from the
/// per-Pokemon data struct.
pub fn read_party<F: Fn(u16) -> u8>(read_byte: &F) -> (party: Vec<PartyMember>)
    requires
        is_memory_reader(*read_byte),
    ensures
        party_views(party@) == party_of(memory_of(*read_byte)),
{
    let ghost mem = memory_of(*read_byte);
    let raw = read_at(read_byte, PARTY_COUNT);
    let count: u8 = if raw < MAX_PARTY_SIZE { raw } else { MAX_PARTY_SIZE };
    let mut party: Vec<PartyMember> = Vec::new();
    let mut i: u16 = 0;
    while i < count as u16
        invariant
            i <= count <= 6,
            count == party_len(mem),
            mem == memory_of(*read_byte),
            is_memory_reader(*read_byte),
            party_views(party@) == party_of(mem).take(i as int),
        decreases count - i,
    {
        let species_id = read_at(read_byte, PARTY_SPECIES_START + i);
        let struct_base: u16 = PARTY_DATA_START + i * PARTY_STRUCT_SIZE;
        let hp_hi = read_at(read_byte, struct_base + PARTY_HP_OFFSET);
        let hp_lo = read_at(read_byte, struct_base + PARTY_HP_OFFSET + 1);
        let max_hp_hi = read_at(read_byte, struct_base + PARTY_MAX_HP_OFFSET);
        let max_hp_lo = read_at(read_byte, struct_base + PARTY_MAX_HP_OFFSET + 1);
        let level = read_at(read_byte, struct_base + PARTY_LEVEL_OFFSET);
        let status = read_at(read_byte, struct_base + PARTY_STATUS_OFFSET);
        proof {
            lemma_be16(hp_hi, hp_lo);
            lemma_be16(max_hp_hi, max_hp_lo);
        }
        let member = PartyMember {
            species: owned(species_id_to_name(species_id)),
            level,
            hp: (hp_hi as u16) << 8u16 | (hp_lo as u16),
            max_hp: (max_hp_hi as u16) << 8u16 | (max_hp_lo as u16),
            status: owned(status_byte_to_name(status)),
        };
        let ghost before = party@;
        party.push(member);
        proof {
            assert(member@ == party_member_at(mem, i as int));
            assert(party_views(party@) =~= party_views(before).push(member@));
            assert(party_of(mem).take(i + 1) =~= party_of(mem).take(i as int).push(
                party_of(mem)[i as int],
            ));
        }
        i = i + 1;
    }
    assert(party_of(mem).take(count as int) =~= party_of(mem));
    party
}

/// The number of bag slots read: the bag count byte, at most twenty.
pub open spec fn bag_len(mem: spec_fn(u16) -> u8) -> nat {
    if mem(BAG_COUNT) < MAX_BAG_ITEMS {
        mem(BAG_COUNT) as nat
    } else {
        MAX_BAG_ITEMS as nat
    }
}

/// Bag slot `i` as read from memory: item name and quantity.
pub open spec fn bag_item_at(mem: spec_fn(u16) -> u8, i: int) -> (Seq<char>, u8) {
    let base = BAG_ITEMS_START + i * 2;
    (item_name(mem(base as u16)), mem((base + 1) as u16))
}

/// The bag as read from memory.
pub open spec fn bag_of(mem: spec_fn(u16) -> u8) -> Seq<(Seq<char>, u8)> {
    Seq::new(bag_len(mem), |i: int| bag_item_at(mem, i))
}

/// The views of a sequence of bag items.
pub open spec fn bag_views(v: Seq<BagItem>) -> Seq<(Seq<char>, u8)> {
    v.map_values(|b: BagItem| b@)
}

/// Reads the player's bag items from memory.
///
/// Reads the bag count (clamped to 20), then reads (item_id, count) pairs.
pub fn read_bag<F: Fn(u16) -> u8>(read_byte: &F) -> (items: Vec<BagItem>)
    requires
        is_memory_reader(*read_byte),
    ensures
        bag_views(items@) == bag_of(memory_of(*read_byte)),
{
    let ghost mem = memory_of(*read_byte);
    let raw = read_at(read_byte, BAG_COUNT);
    let count: u8 = if raw < MAX_BAG_ITEMS { raw } else { MAX_BAG_ITEMS };
    let mut items: Vec<BagItem> = Vec::new();
    let mut i: u16 = 0;
    while i < count as u16
        invariant
            i <= count <= 20,
            count == bag_len(mem),
            mem == memory_of(*read_byte),
            is_memory_reader(*read_byte),
            bag_views(items@) == bag_of(mem).take(i as int),
        decreases count - i,
    {
        let base: u16 = BAG_ITEMS_START + i * 2;
        let item_id = read_at(read_byte, base);
        let qty = read_at(read_byte, base + 1);
        let item = BagItem { name: owned(item_id_to_name(item_id)), count: qty };
        let ghost before = items@;
        items.push(item);
        proof {
            assert(item@ == bag_item_at(mem, i as int));
            assert(bag_views(items@) =~= bag_views(before).push(item@));
            assert(bag_of(mem).take(i + 1) =~= bag_of(mem).take(i as int).push(
                bag_of(mem)[i as int],
            ));
        }
        i = i + 1;
    }
    assert(bag_of(mem).take(count as int) =~= bag_of(mem));
    items
}

// ── Special UI ───────────────────────────────────────────────────────

/// The special UI state the memory flags show: a battle shows the battle
/// menu, otherwise a set input-ignore flag shows a text box.
pub open spec fn special_ui_of(mem: spec_fn(u16) -> u8) -> SpecialUiState {
    if mem(BATTLE_TYPE) != 0 {
        SpecialUiState::BattleMenu
    } else if mem(JOY_IGNORE) != 0 {
        SpecialUiState::TextBox
    } else {
        SpecialUiState::NoOverlay
    }
}

/// Determines the current special UI state from memory flags.
///
/// Checks the battle type (battle menus) and the input-ignore flag (text
/// box active); the menu cursor is read but does not change the result.
pub fn detect_special_ui<F: Fn(u16) -> u8>(read_byte: &F) -> (r: SpecialUiState)
    requires
        is_memory_reader(*read_byte),
    ensures
        r == special_ui_of(memory_of(*read_byte)),
{
    let battle = read_at(read_byte, BATTLE_TYPE);
    let joy_ignore = read_at(read_byte, JOY_IGNORE);
    if battle != 0 {
        return SpecialUiState::BattleMenu;
    }
    if joy_ignore != 0 {
        return SpecialUiState::TextBox;
    }
    let _ = read_at(read_byte, MENU_CURSOR);
    SpecialUiState::NoOverlay
}

// ── The whole state ──────────────────────────────────────────────────

/// `s` is the game state that memory `mem` holds.
pub open spec fn is_state_of(s: GameState, mem: spec_fn(u16) -> u8) -> bool {
    &&& s.map_id == mem(MAP_ID)
    &&& s.map_name@ == map_name(mem(MAP_ID))
    &&& s.player_x == mem(PLAYER_X)
    &&& s.player_y == mem(PLAYER_Y)
    &&& s.in_battle == (mem(BATTLE_TYPE) != 0)
    &&& party_views(s.party@) == party_of(mem)
    &&& views(s.badges@) == earned_badges(mem(BADGE_FLAGS), 8)
    &&& s.badge_count == earned_badges(mem(BADGE_FLAGS), 8).len()
    &&& s.money == money_of(mem)
    &&& bag_views(s.bag@) == bag_of(mem)
    &&& s.special_ui == special_ui_of(mem)
}

/// Reads the current Pokemon Red game state from emulator memory.
///
/// Uses a closure-based memory access pattern so this module does not
/// depend on the emulator implementation directly. The closure `read_byte`
/// takes a 16-bit address and returns the byte at that address.
pub fn read_game_state<F: Fn(u16) -> u8>(read_byte: F) -> (s: GameState)
    requires
        is_memory_reader(read_byte),
    ensures
        is_state_of(s, memory_of(read_byte)),
{
    let map_id = read_at(&read_byte, MAP_ID);
    let badge_byte = read_at(&read_byte, BADGE_FLAGS);
    let (badges, badge_count) = decode_badges(badge_byte);
    let battle_type = read_at(&read_byte, BATTLE_TYPE);
    let player_x = read_at(&read_byte, PLAYER_X);
    let player_y = read_at(&read_byte, PLAYER_Y);
    let party = read_party(&read_byte);
    let money = read_bcd_money(&read_byte);
    let bag = read_bag(&read_byte);
    let special_ui = detect_special_ui(&read_byte);
    GameState {
        map_id,
        map_name: owned(map_id_to_name(map_id)),
        player_x,
        player_y,
        in_battle: battle_type != 0,
        party,
        badges,
        badge_count,
        money,
        bag,
        special_ui,
    }
}

// ── Lookup tables ────────────────────────────────────────────────────

/// The location name of a map ID byte.
pub open spec fn map_name(id: u8) -> Seq<char> {
    match id {
        0 => "PALLET_TOWN"@,
        1 => "VIRIDIAN_CITY"@,
        2 => "PEWTER_CITY"@,
        3 => "CERULEAN_CITY"@,
        4 => "LAVENDER_TOWN"@,
        5 => "VERMILION_CITY"@,
        6 => "CELADON_CITY"@,
        7 => "FUCHSIA_CITY"@,
        8 => "CINNABAR_ISLAND"@,
        9 => "INDIGO_PLATEAU"@,
        10 => "SAFFRON_CITY"@,
        12 => "ROUTE_1"@,
        13 => "ROUTE_2"@,
        14 => "ROUTE_3"@,
        15 => "ROUTE_4"@,
        16 => "ROUTE_5"@,
        17 => "ROUTE_6"@,
        18 => "ROUTE_7"@,
        19 => "ROUTE_8"@,
        20 => "ROUTE_9"@,
        21 => "ROUTE_10"@,
        22 => "ROUTE_11"@,
        23 => "ROUTE_12"@,
        24 => "ROUTE_13"@,
        25 => "ROUTE_14"@,
        26 => "ROUTE_15"@,
        27 => "ROUTE_16"@,
        28 => "ROUTE_17"@,
        29 => "ROUTE_18"@,
        30 => "ROUTE_19"@,
        31 => "ROUTE_20"@,
        32 => "ROUTE_21"@,
        33 => "ROUTE_22"@,
        34 => "ROUTE_23"@,
        35 => "ROUTE_24"@,
        36 => "ROUTE_25"@,
        37 => "REDS_HOUSE_1F"@,
        38 => "REDS_HOUSE_2F"@,
        39 => "BLUES_HOUSE"@,
        40 => "OAKS_LAB"@,
        41 => "VIRIDIAN_POKECENTER"@,
        42 => "VIRIDIAN_MART"@,
        43 => "VIRIDIAN_SCHOOL"@,
        44 => "VIRIDIAN_HOUSE"@,
        45 => "VIRIDIAN_GYM"@,
        46 => "DIGLETTS_CAVE_ROUTE_2"@,
        47 => "VIRIDIAN_FOREST_ENTRANCE"@,
        48 => "VIRIDIAN_FOREST"@,
        49 => "MUSEUM_1F"@,
        50 => "MUSEUM_2F"@,
        51 => "PEWTER_GYM"@,
        52 => "PEWTER_HOUSE"@,
        53 => "PEWTER_MART"@,
        54 => "PEWTER_POKECENTER"@,
        55 => "MT_MOON_1F"@,
        56 => "MT_MOON_B1F"@,
        57 => "MT_MOON_B2F"@,
        58 => "CERULEAN_TRASHED_HOUSE"@,
        59 => "CERULEAN_TRADE_HOUSE"@,
        60 => "CERULEAN_POKECENTER"@,
        61 => "CERULEAN_GYM"@,
        62 => "BIKE_SHOP"@,
        63 => "CERULEAN_MART"@,
        64 => "MT_MOON_POKECENTER"@,
        65 => "CERULEAN_HOUSE"@,
        68 => "VERMILION_POKECENTER"@,
        69 => "FAN_CLUB"@,
        70 => "VERMILION_MART"@,
        71 => "VERMILION_GYM"@,
        72 => "VERMILION_HOUSE"@,
        73 => "VERMILION_DOCK"@,
        74 => "SS_ANNE_1F"@,
        75 => "SS_ANNE_2F"@,
        76 => "SS_ANNE_3F"@,
        77 => "SS_ANNE_B1F"@,
        78 => "SS_ANNE_DECK"@,
        79 => "SS_ANNE_KITCHEN"@,
        80 => "SS_ANNE_CAPTAINS_ROOM"@,
        81 => "SS_ANNE_1F_ROOMS"@,
        82 => "SS_ANNE_2F_ROOMS"@,
        83 => "SS_ANNE_B1F_ROOMS"@,
        86 => "UNDERGROUND_PATH_NS"@,
        87 => "UNDERGROUND_PATH_WE"@,
        88 => "DIGLETTS_CAVE"@,
        89 => "SILPH_CO_1F"@,
        90 => "SILPH_CO_2F"@,
        91 => "SILPH_CO_3F"@,
        92 => "SILPH_CO_4F"@,
        93 => "SILPH_CO_5F"@,
        94 => "SILPH_CO_6F"@,
        95 => "SILPH_CO_7F"@,
        96 => "SILPH_CO_8F"@,
        97 => "SILPH_CO_9F"@,
        98 => "SILPH_CO_10F"@,
        99 => "SILPH_CO_11F"@,
        100 => "CELADON_MANSION_1F"@,
        101 => "CELADON_MANSION_2F"@,
        102 => "CELADON_MANSION_3F"@,
        103 => "CELADON_MANSION_ROOF"@,
        104 => "CELADON_POKECENTER"@,
        105 => "CELADON_GYM"@,
        106 => "GAME_CORNER"@,
        107 => "CELADON_DEPT_STORE_1F"@,
        108 => "CELADON_DEPT_STORE_2F"@,
        109 => "CELADON_DEPT_STORE_3F"@,
        110 => "CELADON_DEPT_STORE_4F"@,
        111 => "CELADON_DEPT_STORE_5F"@,
        112 => "CELADON_DEPT_STORE_ROOF"@,
        113 => "CELADON_MART"@,
        114 => "CELADON_DINER"@,
        115 => "CELADON_HOTEL"@,
        116 => "LAVENDER_POKECENTER"@,
        117 => "POKEMON_TOWER_1F"@,
        118 => "POKEMON_TOWER_2F"@,
        119 => "POKEMON_TOWER_3F"@,
        120 => "POKEMON_TOWER_4F"@,
        121 => "POKEMON_TOWER_5F"@,
        122 => "POKEMON_TOWER_6F"@,
        123 => "POKEMON_TOWER_7F"@,
        124 => "LAVENDER_HOUSE_1"@,
        125 => "LAVENDER_MART"@,
        126 => "LAVENDER_HOUSE_2"@,
        133 => "FUCHSIA_POKECENTER"@,
        134 => "FUCHSIA_MART"@,
        135 => "FUCHSIA_HOUSE_1"@,
        136 => "FUCHSIA_GYM"@,
        137 => "FUCHSIA_HOUSE_2"@,
        138 => "SAFARI_ZONE_ENTRANCE"@,
        139 => "SAFARI_ZONE_CENTER"@,
        140 => "SAFARI_ZONE_AREA_1"@,
        141 => "SAFARI_ZONE_AREA_2"@,
        142 => "SAFARI_ZONE_AREA_3"@,
        143 => "SAFARI_ZONE_REST_HOUSE_1"@,
        144 => "SAFARI_ZONE_SECRET_HOUSE"@,
        145 => "SAFARI_ZONE_REST_HOUSE_2"@,
        146 => "SAFARI_ZONE_REST_HOUSE_3"@,
        147 => "SAFARI_ZONE_REST_HOUSE_4"@,
        149 => "SAFFRON_GYM"@,
        150 => "SAFFRON_POKECENTER"@,
        151 => "SAFFRON_MART"@,
        152 => "SILPH_CO_ENTRANCE"@,
        153 => "SAFFRON_HOUSE_1"@,
        154 => "SAFFRON_HOUSE_2"@,
        155 => "FIGHTING_DOJO"@,
        156 => "SAFFRON_HOUSE_3"@,
        158 => "CINNABAR_GYM"@,
        159 => "CINNABAR_POKECENTER"@,
        160 => "CINNABAR_MART"@,
        161 => "CINNABAR_LAB"@,
        162 => "CINNABAR_LAB_TRADE_ROOM"@,
        163 => "CINNABAR_LAB_FOSSIL_ROOM"@,
        164 => "CINNABAR_LAB_METRONOME_ROOM"@,
        165 => "CINNABAR_POKEMON_CENTER"@,
        166 => "POKEMON_MANSION_1F"@,
        167 => "POKEMON_MANSION_2F"@,
        168 => "POKEMON_MANSION_3F"@,
        169 => "POKEMON_MANSION_B1F"@,
        170 => "INDIGO_PLATEAU_LOBBY"@,
        171 => "LORELEIS_ROOM"@,
        172 => "BRUNOS_ROOM"@,
        173 => "AGATHAS_ROOM"@,
        174 => "LANCES_ROOM"@,
        175 => "HALL_OF_FAME"@,
        198 => "POWER_PLANT"@,
        199 => "VICTORY_ROAD_1F"@,
        200 => "VICTORY_ROAD_2F"@,
        201 => "VICTORY_ROAD_3F"@,
        208 => "ROCK_TUNNEL_1F"@,
        209 => "ROCK_TUNNEL_B1F"@,
        210 => "SEAFOAM_ISLANDS_1F"@,
        211 => "SEAFOAM_ISLANDS_B1F"@,
        212 => "SEAFOAM_ISLANDS_B2F"@,
        213 => "SEAFOAM_ISLANDS_B3F"@,
        214 => "SEAFOAM_ISLANDS_B4F"@,
        215 => "POKEMON_LEAGUE_GATE"@,
        217 => "BILLS_HOUSE"@,
        228 => "UNKNOWN_DUNGEON_1F"@,
        229 => "UNKNOWN_DUNGEON_2F"@,
        230 => "UNKNOWN_DUNGEON_B1F"@,
        233 => "TRADE_CENTER"@,
        234 => "COLOSSEUM"@,
        _ => "UNKNOWN_MAP"@,
    }
}

/// Maps a Gen 1 map ID byte to a human-readable location name.
pub fn map_id_to_name(id: u8) -> (r: &'static str)
    ensures
        r@ == map_name(id),
{
    match id {
        0 => "PALLET_TOWN",
        1 => "VIRIDIAN_CITY",
        2 => "PEWTER_CITY",
        3 => "CERULEAN_CITY",
        4 => "LAVENDER_TOWN",
        5 => "VERMILION_CITY",
        6 => "CELADON_CITY",
        7 => "FUCHSIA_CITY",
        8 => "CINNABAR_ISLAND",
        9 => "INDIGO_PLATEAU",
        10 => "SAFFRON_CITY",
        12 => "ROUTE_1",
        13 => "ROUTE_2",
        14 => "ROUTE_3",
        15 => "ROUTE_4",
        16 => "ROUTE_5",
        17 => "ROUTE_6",
        18 => "ROUTE_7",
        19 => "ROUTE_8",
        20 => "ROUTE_9",
        21 => "ROUTE_10",
        22 => "ROUTE_11",
        23 => "ROUTE_12",
        24 => "ROUTE_13",
        25 => "ROUTE_14",
        26 => "ROUTE_15",
        27 => "ROUTE_16",
        28 => "ROUTE_17",
        29 => "ROUTE_18",
        30 => "ROUTE_19",
        31 => "ROUTE_20",
        32 => "ROUTE_21",
        33 => "ROUTE_22",
        34 => "ROUTE_23",
        35 => "ROUTE_24",
        36 => "ROUTE_25",
        37 => "REDS_HOUSE_1F",
        38 => "REDS_HOUSE_2F",
        39 => "BLUES_HOUSE",
        40 => "OAKS_LAB",
        41 => "VIRIDIAN_POKECENTER",
        42 => "VIRIDIAN_MART",
        43 => "VIRIDIAN_SCHOOL",
        44 => "VIRIDIAN_HOUSE",
        45 => "VIRIDIAN_GYM",
        46 => "DIGLETTS_CAVE_ROUTE_2",
        47 => "VIRIDIAN_FOREST_ENTRANCE",
        48 => "VIRIDIAN_FOREST",
        49 => "MUSEUM_1F",
        50 => "MUSEUM_2F",
        51 => "PEWTER_GYM",
        52 => "PEWTER_HOUSE",
        53 => "PEWTER_MART",
        54 => "PEWTER_POKECENTER",
        55 => "MT_MOON_1F",
        56 => "MT_MOON_B1F",
        57 => "MT_MOON_B2F",
        58 => "CERULEAN_TRASHED_HOUSE",
        59 => "CERULEAN_TRADE_HOUSE",
        60 => "CERULEAN_POKECENTER",
        61 => "CERULEAN_GYM",
        62 => "BIKE_SHOP",
        63 => "CERULEAN_MART",
        64 => "MT_MOON_POKECENTER",
        65 => "CERULEAN_HOUSE",
        68 => "VERMILION_POKECENTER",
        69 => "FAN_CLUB",
        70 => "VERMILION_MART",
        71 => "VERMILION_GYM",
        72 => "VERMILION_HOUSE",
        73 => "VERMILION_DOCK",
        74 => "SS_ANNE_1F",
        75 => "SS_ANNE_2F",
        76 => "SS_ANNE_3F",
        77 => "SS_ANNE_B1F",
        78 => "SS_ANNE_DECK",
        79 => "SS_ANNE_KITCHEN",
        80 => "SS_ANNE_CAPTAINS_ROOM",
        81 => "SS_ANNE_1F_ROOMS",
        82 => "SS_ANNE_2F_ROOMS",
        83 => "SS_ANNE_B1F_ROOMS",
        86 => "UNDERGROUND_PATH_NS",
        87 => "UNDERGROUND_PATH_WE",
        88 => "DIGLETTS_CAVE",
        89 => "SILPH_CO_1F",
        90 => "SILPH_CO_2F",
        91 => "SILPH_CO_3F",
        92 => "SILPH_CO_4F",
        93 => "SILPH_CO_5F",
        94 => "SILPH_CO_6F",
        95 => "SILPH_CO_7F",
        96 => "SILPH_CO_8F",
        97 => "SILPH_CO_9F",
        98 => "SILPH_CO_10F",
        99 => "SILPH_CO_11F",
        100 => "CELADON_MANSION_1F",
        101 => "CELADON_MANSION_2F",
        102 => "CELADON_MANSION_3F",
        103 => "CELADON_MANSION_ROOF",
        104 => "CELADON_POKECENTER",
        105 => "CELADON_GYM",
        106 => "GAME_CORNER",
        107 => "CELADON_DEPT_STORE_1F",
        108 => "CELADON_DEPT_STORE_2F",
        109 => "CELADON_DEPT_STORE_3F",
        110 => "CELADON_DEPT_STORE_4F",
        111 => "CELADON_DEPT_STORE_5F",
        112 => "CELADON_DEPT_STORE_ROOF",
        113 => "CELADON_MART",
        114 => "CELADON_DINER",
        115 => "CELADON_HOTEL",
        116 => "LAVENDER_POKECENTER",
        117 => "POKEMON_TOWER_1F",
        118 => "POKEMON_TOWER_2F",
        119 => "POKEMON_TOWER_3F",
        120 => "POKEMON_TOWER_4F",
        121 => "POKEMON_TOWER_5F",
        122 => "POKEMON_TOWER_6F",
        123 => "POKEMON_TOWER_7F",
        124 => "LAVENDER_HOUSE_1",
        125 => "LAVENDER_MART",
        126 => "LAVENDER_HOUSE_2",
        133 => "FUCHSIA_POKECENTER",
        134 => "FUCHSIA_MART",
        135 => "FUCHSIA_HOUSE_1",
        136 => "FUCHSIA_GYM",
        137 => "FUCHSIA_HOUSE_2",
        138 => "SAFARI_ZONE_ENTRANCE",
        139 => "SAFARI_ZONE_CENTER",
        140 => "SAFARI_ZONE_AREA_1",
        141 => "SAFARI_ZONE_AREA_2",
        142 => "SAFARI_ZONE_AREA_3",
        143 => "SAFARI_ZONE_REST_HOUSE_1",
        144 => "SAFARI_ZONE_SECRET_HOUSE",
        145 => "SAFARI_ZONE_REST_HOUSE_2",
        146 => "SAFARI_ZONE_REST_HOUSE_3",
        147 => "SAFARI_ZONE_REST_HOUSE_4",
        149 => "SAFFRON_GYM",
        150 => "SAFFRON_POKECENTER",
        151 => "SAFFRON_MART",
        152 => "SILPH_CO_ENTRANCE",
        153 => "SAFFRON_HOUSE_1",
        154 => "SAFFRON_HOUSE_2",
        155 => "FIGHTING_DOJO",
        156 => "SAFFRON_HOUSE_3",
        158 => "CINNABAR_GYM",
        159 => "CINNABAR_POKECENTER",
        160 => "CINNABAR_MART",
        161 => "CINNABAR_LAB",
        162 => "CINNABAR_LAB_TRADE_ROOM",
        163 => "CINNABAR_LAB_FOSSIL_ROOM",
        164 => "CINNABAR_LAB_METRONOME_ROOM",
        165 => "CINNABAR_POKEMON_CENTER",
        166 => "POKEMON_MANSION_1F",
        167 => "POKEMON_MANSION_2F",
        168 => "POKEMON_MANSION_3F",
        169 => "POKEMON_MANSION_B1F",
        170 => "INDIGO_PLATEAU_LOBBY",
        171 => "LORELEIS_ROOM",
        172 => "BRUNOS_ROOM",
        173 => "AGATHAS_ROOM",
        174 => "LANCES_ROOM",
        175 => "HALL_OF_FAME",
        198 => "POWER_PLANT",
        199 => "VICTORY_ROAD_1F",
        200 => "VICTORY_ROAD_2F",
        201 => "VICTORY_ROAD_3F",
        208 => "ROCK_TUNNEL_1F",
        209 => "ROCK_TUNNEL_B1F",
        210 => "SEAFOAM_ISLANDS_1F",
        211 => "SEAFOAM_ISLANDS_B1F",
        212 => "SEAFOAM_ISLANDS_B2F",
        213 => "SEAFOAM_ISLANDS_B3F",
        214 => "SEAFOAM_ISLANDS_B4F",
        215 => "POKEMON_LEAGUE_GATE",
        217 => "BILLS_HOUSE",
        228 => "UNKNOWN_DUNGEON_1F",
        229 => "UNKNOWN_DUNGEON_2F",
        230 => "UNKNOWN_DUNGEON_B1F",
        233 => "TRADE_CENTER",
        234 => "COLOSSEUM",
        _ => "UNKNOWN_MAP",
    }
}

/// The species name of an internal species index.
pub open spec fn species_name(id: u8) -> Seq<char> {
    match id {
        0x00 => "UNKNOWN"@,
        0x01 => "RHYDON"@,
        0x02 => "KANGASKHAN"@,
        0x03 => "NIDORAN_M"@,
        0x04 => "CLEFAIRY"@,
        0x05 => "SPEAROW"@,
        0x06 => "VOLTORB"@,
        0x07 => "NIDOKING"@,
        0x08 => "SLOWBRO"@,
        0x09 => "IVYSAUR"@,
        0x0A => "EXEGGUTOR"@,
        0x0B => "LICKITUNG"@,
        0x0C => "EXEGGCUTE"@,
        0x0D => "GRIMER"@,
        0x0E => "GENGAR"@,
        0x0F => "NIDORAN_F"@,
        0x10 => "NIDOQUEEN"@,
        0x11 => "CUBONE"@,
        0x12 => "RHYHORN"@,
        0x13 => "LAPRAS"@,
        0x14 => "ARCANINE"@,
        0x15 => "MEW"@,
        0x16 => "GYARADOS"@,
        0x17 => "SHELLDER"@,
        0x18 => "TENTACOOL"@,
        0x19 => "GASTLY"@,
        0x1A => "SCYTHER"@,
        0x1B => "STARYU"@,
        0x1C => "BLASTOISE"@,
        0x1D => "PINSIR"@,
        0x1E => "TANGELA"@,
        0x21 => "GROWLITHE"@,
        0x22 => "ONIX"@,
        0x23 => "FEAROW"@,
        0x24 => "PIDGEY"@,
        0x25 => "SLOWPOKE"@,
        0x26 => "KADABRA"@,
        0x27 => "GRAVELER"@,
        0x28 => "CHANSEY"@,
        0x29 => "MACHOKE"@,
        0x2A => "MR_MIME"@,
        0x2B => "HITMONLEE"@,
        0x2C => "HITMONCHAN"@,
        0x2D => "ARBOK"@,
        0x2E => "PARASECT"@,
        0x2F => "PSYDUCK"@,
        0x30 => "DROWZEE"@,
        0x31 => "GOLEM"@,
        0x33 => "MAGMAR"@,
        0x35 => "ELECTABUZZ"@,
        0x36 => "MAGNETON"@,
        0x37 => "KOFFING"@,
        0x39 => "MANKEY"@,
        0x3A => "SEEL"@,
        0x3B => "DIGLETT"@,
        0x3C => "TAUROS"@,
        0x40 => "FARFETCHD"@,
        0x41 => "VENONAT"@,
        0x42 => "DRAGONITE"@,
        0x46 => "DODUO"@,
        0x47 => "POLIWAG"@,
        0x48 => "JYNX"@,
        0x49 => "MOLTRES"@,
        0x4A => "ARTICUNO"@,
        0x4B => "ZAPDOS"@,
        0x4C => "DITTO"@,
        0x4D => "MEOWTH"@,
        0x4E => "KRABBY"@,
        0x52 => "VULPIX"@,
        0x53 => "NINETALES"@,
        0x54 => "PIKACHU"@,
        0x55 => "RAICHU"@,
        0x58 => "DRATINI"@,
        0x59 => "DRAGONAIR"@,
        0x5A => "KABUTO"@,
        0x5B => "KABUTOPS"@,
        0x5C => "HORSEA"@,
        0x5D => "SEADRA"@,
        0x60 => "SANDSHREW"@,
        0x61 => "SANDSLASH"@,
        0x62 => "OMANYTE"@,
        0x63 => "OMASTAR"@,
        0x64 => "JIGGLYPUFF"@,
        0x65 => "WIGGLYTUFF"@,
        0x66 => "EEVEE"@,
        0x67 => "FLAREON"@,
        0x68 => "JOLTEON"@,
        0x69 => "VAPOREON"@,
        0x6A => "MACHOP"@,
        0x6B => "ZUBAT"@,
        0x6C => "EKANS"@,
        0x6D => "PARAS"@,
        0x6E => "POLIWHIRL"@,
        0x6F => "POLIWRATH"@,
        0x70 => "WEEDLE"@,
        0x71 => "KAKUNA"@,
        0x72 => "BEEDRILL"@,
        0x74 => "DODRIO"@,
        0x75 => "PRIMEAPE"@,
        0x76 => "DUGTRIO"@,
        0x77 => "VENOMOTH"@,
        0x78 => "DEWGONG"@,
        0x7B => "CATERPIE"@,
        0x7C => "METAPOD"@,
        0x7D => "BUTTERFREE"@,
        0x7E => "MACHAMP"@,
        0x80 => "GOLDUCK"@,
        0x81 => "HYPNO"@,
        0x82 => "GOLBAT"@,
        0x83 => "MEWTWO"@,
        0x84 => "SNORLAX"@,
        0x85 => "MAGIKARP"@,
        0x88 => "MUK"@,
        0x8A => "KINGLER"@,
        0x8B => "CLOYSTER"@,
        0x8D => "ELECTRODE"@,
        0x8E => "CLEFABLE"@,
        0x8F => "WEEZING"@,
        0x90 => "PERSIAN"@,
        0x91 => "MAROWAK"@,
        0x93 => "HAUNTER"@,
        0x94 => "ABRA"@,
        0x95 => "ALAKAZAM"@,
        0x96 => "PIDGEOTTO"@,
        0x97 => "PIDGEOT"@,
        0x98 => "STARMIE"@,
        0x99 => "BULBASAUR"@,
        0x9A => "VENUSAUR"@,
        0x9B => "TENTACRUEL"@,
        0x9D => "GOLDEEN"@,
        0x9E => "SEAKING"@,
        0xA3 => "PONYTA"@,
        0xA4 => "RAPIDASH"@,
        0xA5 => "RATTATA"@,
        0xA6 => "RATICATE"@,
        0xA7 => "NIDORINO"@,
        0xA8 => "NIDORINA"@,
        0xA9 => "GEODUDE"@,
        0xAA => "PORYGON"@,
        0xAB => "AERODACTYL"@,
        0xAD => "MAGNEMITE"@,
        0xB0 => "CHARMANDER"@,
        0xB1 => "SQUIRTLE"@,
        0xB2 => "CHARMELEON"@,
        0xB3 => "WARTORTLE"@,
        0xB4 => "CHARIZARD"@,
        0xB9 => "ODDISH"@,
        0xBA => "GLOOM"@,
        0xBB => "VILEPLUME"@,
        0xBC => "BELLSPROUT"@,
        0xBD => "WEEPINBELL"@,
        0xBE => "VICTREEBEL"@,
        _ => "UNKNOWN"@,
    }
}

/// Maps a Gen 1 internal species index (not the Pokedex number) to a species name; ID 0 and unused IDs give `"UNKNOWN"`.
pub fn species_id_to_name(id: u8) -> (r: &'static str)
    ensures
        r@ == species_name(id),
{
    match id {
        0x00 => "UNKNOWN",
        0x01 => "RHYDON",
        0x02 => "KANGASKHAN",
        0x03 => "NIDORAN_M",
        0x04 => "CLEFAIRY",
        0x05 => "SPEAROW",
        0x06 => "VOLTORB",
        0x07 => "NIDOKING",
        0x08 => "SLOWBRO",
        0x09 => "IVYSAUR",
        0x0A => "EXEGGUTOR",
        0x0B => "LICKITUNG",
        0x0C => "EXEGGCUTE",
        0x0D => "GRIMER",
        0x0E => "GENGAR",
        0x0F => "NIDORAN_F",
        0x10 => "NIDOQUEEN",
        0x11 => "CUBONE",
        0x12 => "RHYHORN",
        0x13 => "LAPRAS",
        0x14 => "ARCANINE",
        0x15 => "MEW",
        0x16 => "GYARADOS",
        0x17 => "SHELLDER",
        0x18 => "TENTACOOL",
        0x19 => "GASTLY",
        0x1A => "SCYTHER",
        0x1B => "STARYU",
        0x1C => "BLASTOISE",
        0x1D => "PINSIR",
        0x1E => "TANGELA",
        0x21 => "GROWLITHE",
        0x22 => "ONIX",
        0x23 => "FEAROW",
        0x24 => "PIDGEY",
        0x25 => "SLOWPOKE",
        0x26 => "KADABRA",
        0x27 => "GRAVELER",
        0x28 => "CHANSEY",
        0x29 => "MACHOKE",
        0x2A => "MR_MIME",
        0x2B => "HITMONLEE",
        0x2C => "HITMONCHAN",
        0x2D => "ARBOK",
        0x2E => "PARASECT",
        0x2F => "PSYDUCK",
        0x30 => "DROWZEE",
        0x31 => "GOLEM",
        0x33 => "MAGMAR",
        0x35 => "ELECTABUZZ",
        0x36 => "MAGNETON",
        0x37 => "KOFFING",
        0x39 => "MANKEY",
        0x3A => "SEEL",
        0x3B => "DIGLETT",
        0x3C => "TAUROS",
        0x40 => "FARFETCHD",
        0x41 => "VENONAT",
        0x42 => "DRAGONITE",
        0x46 => "DODUO",
        0x47 => "POLIWAG",
        0x48 => "JYNX",
        0x49 => "MOLTRES",
        0x4A => "ARTICUNO",
        0x4B => "ZAPDOS",
        0x4C => "DITTO",
        0x4D => "MEOWTH",
        0x4E => "KRABBY",
        0x52 => "VULPIX",
        0x53 => "NINETALES",
        0x54 => "PIKACHU",
        0x55 => "RAICHU",
        0x58 => "DRATINI",
        0x59 => "DRAGONAIR",
        0x5A => "KABUTO",
        0x5B => "KABUTOPS",
        0x5C => "HORSEA",
        0x5D => "SEADRA",
        0x60 => "SANDSHREW",
        0x61 => "SANDSLASH",
        0x62 => "OMANYTE",
        0x63 => "OMASTAR",
        0x64 => "JIGGLYPUFF",
        0x65 => "WIGGLYTUFF",
        0x66 => "EEVEE",
        0x67 => "FLAREON",
        0x68 => "JOLTEON",
        0x69 => "VAPOREON",
        0x6A => "MACHOP",
        0x6B => "ZUBAT",
        0x6C => "EKANS",
        0x6D => "PARAS",
        0x6E => "POLIWHIRL",
        0x6F => "POLIWRATH",
        0x70 => "WEEDLE",
        0x71 => "KAKUNA",
        0x72 => "BEEDRILL",
        0x74 => "DODRIO",
        0x75 => "PRIMEAPE",
        0x76 => "DUGTRIO",
        0x77 => "VENOMOTH",
        0x78 => "DEWGONG",
        0x7B => "CATERPIE",
        0x7C => "METAPOD",
        0x7D => "BUTTERFREE",
        0x7E => "MACHAMP",
        0x80 => "GOLDUCK",
        0x81 => "HYPNO",
        0x82 => "GOLBAT",
        0x83 => "MEWTWO",
        0x84 => "SNORLAX",
        0x85 => "MAGIKARP",
        0x88 => "MUK",
        0x8A => "KINGLER",
        0x8B => "CLOYSTER",
        0x8D => "ELECTRODE",
        0x8E => "CLEFABLE",
        0x8F => "WEEZING",
        0x90 => "PERSIAN",
        0x91 => "MAROWAK",
        0x93 => "HAUNTER",
        0x94 => "ABRA",
        0x95 => "ALAKAZAM",
        0x96 => "PIDGEOTTO",
        0x97 => "PIDGEOT",
        0x98 => "STARMIE",
        0x99 => "BULBASAUR",
        0x9A => "VENUSAUR",
        0x9B => "TENTACRUEL",
        0x9D => "GOLDEEN",
        0x9E => "SEAKING",
        0xA3 => "PONYTA",
        0xA4 => "RAPIDASH",
        0xA5 => "RATTATA",
        0xA6 => "RATICATE",
        0xA7 => "NIDORINO",
        0xA8 => "NIDORINA",
        0xA9 => "GEODUDE",
        0xAA => "PORYGON",
        0xAB => "AERODACTYL",
        0xAD => "MAGNEMITE",
        0xB0 => "CHARMANDER",
        0xB1 => "SQUIRTLE",
        0xB2 => "CHARMELEON",
        0xB3 => "WARTORTLE",
        0xB4 => "CHARIZARD",
        0xB9 => "ODDISH",
        0xBA => "GLOOM",
        0xBB => "VILEPLUME",
        0xBC => "BELLSPROUT",
        0xBD => "WEEPINBELL",
        0xBE => "VICTREEBEL",
        _ => "UNKNOWN",
    }
}

/// The item name of an item ID.
pub open spec fn item_name(id: u8) -> Seq<char> {
    match id {
        0x01 => "MASTER_BALL"@,
        0x02 => "ULTRA_BALL"@,
        0x03 => "GREAT_BALL"@,
        0x04 => "POKE_BALL"@,
        0x05 => "TOWN_MAP"@,
        0x06 => "BICYCLE"@,
        0x07 => "SURFBOARD"@,
        0x08 => "SAFARI_BALL"@,
        0x09 => "POKEDEX"@,
        0x0A => "MOON_STONE"@,
        0x0B => "ANTIDOTE"@,
        0x0C => "BURN_HEAL"@,
        0x0D => "ICE_HEAL"@,
        0x0E => "AWAKENING"@,
        0x0F => "PARLYZ_HEAL"@,
        0x10 => "FULL_RESTORE"@,
        0x11 => "MAX_POTION"@,
        0x12 => "HYPER_POTION"@,
        0x13 => "SUPER_POTION"@,
        0x14 => "POTION"@,
        0x15 => "BOULDER_BADGE"@,
        0x16 => "CASCADE_BADGE"@,
        0x17 => "THUNDER_BADGE"@,
        0x18 => "RAINBOW_BADGE"@,
        0x19 => "SOUL_BADGE"@,
        0x1A => "MARSH_BADGE"@,
        0x1B => "VOLCANO_BADGE"@,
        0x1C => "EARTH_BADGE"@,
        0x1D => "ESCAPE_ROPE"@,
        0x1E => "REPEL"@,
        0x1F => "OLD_AMBER"@,
        0x20 => "FIRE_STONE"@,
        0x21 => "THUNDER_STONE"@,
        0x22 => "WATER_STONE"@,
        0x23 => "HP_UP"@,
        0x24 => "PROTEIN"@,
        0x25 => "IRON"@,
        0x26 => "CARBOS"@,
        0x27 => "CALCIUM"@,
        0x28 => "RARE_CANDY"@,
        0x29 => "DOME_FOSSIL"@,
        0x2A => "HELIX_FOSSIL"@,
        0x2B => "SECRET_KEY"@,
        0x2D => "BIKE_VOUCHER"@,
        0x2E => "X_ACCURACY"@,
        0x2F => "LEAF_STONE"@,
        0x30 => "CARD_KEY"@,
        0x31 => "NUGGET"@,
        0x32 => "PP_UP"@,
        0x33 => "POKE_DOLL"@,
        0x34 => "FULL_HEAL"@,
        0x35 => "REVIVE"@,
        0x36 => "MAX_REVIVE"@,
        0x37 => "GUARD_SPEC"@,
        0x38 => "SUPER_REPEL"@,
        0x39 => "MAX_REPEL"@,
        0x3A => "DIRE_HIT"@,
        0x3B => "COIN"@,
        0x3C => "FRESH_WATER"@,
        0x3D => "SODA_POP"@,
        0x3E => "LEMONADE"@,
        0x3F => "SS_TICKET"@,
        0x40 => "GOLD_TEETH"@,
        0x41 => "X_ATTACK"@,
        0x42 => "X_DEFEND"@,
        0x43 => "X_SPEED"@,
        0x44 => "X_SPECIAL"@,
        0x45 => "COIN_CASE"@,
        0x46 => "OAKS_PARCEL"@,
        0x47 => "ITEMFINDER"@,
        0x48 => "SILPH_SCOPE"@,
        0x49 => "POKE_FLUTE"@,
        0x4A => "LIFT_KEY"@,
        0x4B => "EXP_ALL"@,
        0x4C => "OLD_ROD"@,
        0x4D => "GOOD_ROD"@,
        0x4E => "SUPER_ROD"@,
        0x4F => "PP_UP_2"@,
        0x50 => "ETHER"@,
        0x51 => "MAX_ETHER"@,
        0x52 => "ELIXIR"@,
        0x53 => "MAX_ELIXIR"@,
        0xC4 => "HM_01"@,
        0xC5 => "HM_02"@,
        0xC6 => "HM_03"@,
        0xC7 => "HM_04"@,
        0xC8 => "HM_05"@,
        0xC9 => "TM_01"@,
        0xCA => "TM_02"@,
        0xCB => "TM_03"@,
        0xCC => "TM_04"@,
        0xCD => "TM_05"@,
        0xCE => "TM_06"@,
        0xCF => "TM_07"@,
        0xD0 => "TM_08"@,
        0xD1 => "TM_09"@,
        0xD2 => "TM_10"@,
        0xD3 => "TM_11"@,
        0xD4 => "TM_12"@,
        0xD5 => "TM_13"@,
        0xD6 => "TM_14"@,
        0xD7 => "TM_15"@,
        0xD8 => "TM_16"@,
        0xD9 => "TM_17"@,
        0xDA => "TM_18"@,
        0xDB => "TM_19"@,
        0xDC => "TM_20"@,
        0xDD => "TM_21"@,
        0xDE => "TM_22"@,
        0xDF => "TM_23"@,
        0xE0 => "TM_24"@,
        0xE1 => "TM_25"@,
        0xE2 => "TM_26"@,
        0xE3 => "TM_27"@,
        0xE4 => "TM_28"@,
        0xE5 => "TM_29"@,
        0xE6 => "TM_30"@,
        0xE7 => "TM_31"@,
        0xE8 => "TM_32"@,
        0xE9 => "TM_33"@,
        0xEA => "TM_34"@,
        0xEB => "TM_35"@,
        0xEC => "TM_36"@,
        0xED => "TM_37"@,
        0xEE => "TM_38"@,
        0xEF => "TM_39"@,
        0xF0 => "TM_40"@,
        0xF1 => "TM_41"@,
        0xF2 => "TM_42"@,
        0xF3 => "TM_43"@,
        0xF4 => "TM_44"@,
        0xF5 => "TM_45"@,
        0xF6 => "TM_46"@,
        0xF7 => "TM_47"@,
        0xF8 => "TM_48"@,
        0xF9 => "TM_49"@,
        0xFA => "TM_50"@,
        _ => "UNKNOWN_ITEM"@,
    }
}

/// Maps a Gen 1 item ID to a human-readable item name.
pub fn item_id_to_name(id: u8) -> (r: &'static str)
    ensures
        r@ == item_name(id),
{
    match id {
        0x01 => "MASTER_BALL",
        0x02 => "ULTRA_BALL",
        0x03 => "GREAT_BALL",
        0x04 => "POKE_BALL",
        0x05 => "TOWN_MAP",
        0x06 => "BICYCLE",
        0x07 => "SURFBOARD",
        0x08 => "SAFARI_BALL",
        0x09 => "POKEDEX",
        0x0A => "MOON_STONE",
        0x0B => "ANTIDOTE",
        0x0C => "BURN_HEAL",
        0x0D => "ICE_HEAL",
        0x0E => "AWAKENING",
        0x0F => "PARLYZ_HEAL",
        0x10 => "FULL_RESTORE",
        0x11 => "MAX_POTION",
        0x12 => "HYPER_POTION",
        0x13 => "SUPER_POTION",
        0x14 => "POTION",
        0x15 => "BOULDER_BADGE",
        0x16 => "CASCADE_BADGE",
        0x17 => "THUNDER_BADGE",
        0x18 => "RAINBOW_BADGE",
        0x19 => "SOUL_BADGE",
        0x1A => "MARSH_BADGE",
        0x1B => "VOLCANO_BADGE",
        0x1C => "EARTH_BADGE",
        0x1D => "ESCAPE_ROPE",
        0x1E => "REPEL",
        0x1F => "OLD_AMBER",
        0x20 => "FIRE_STONE",
        0x21 => "THUNDER_STONE",
        0x22 => "WATER_STONE",
        0x23 => "HP_UP",
        0x24 => "PROTEIN",
        0x25 => "IRON",
        0x26 => "CARBOS",
        0x27 => "CALCIUM",
        0x28 => "RARE_CANDY",
        0x29 => "DOME_FOSSIL",
        0x2A => "HELIX_FOSSIL",
        0x2B => "SECRET_KEY",
        0x2D => "BIKE_VOUCHER",
        0x2E => "X_ACCURACY",
        0x2F => "LEAF_STONE",
        0x30 => "CARD_KEY",
        0x31 => "NUGGET",
        0x32 => "PP_UP",
        0x33 => "POKE_DOLL",
        0x34 => "FULL_HEAL",
        0x35 => "REVIVE",
        0x36 => "MAX_REVIVE",
        0x37 => "GUARD_SPEC",
        0x38 => "SUPER_REPEL",
        0x39 => "MAX_REPEL",
        0x3A => "DIRE_HIT",
        0x3B => "COIN",
        0x3C => "FRESH_WATER",
        0x3D => "SODA_POP",
        0x3E => "LEMONADE",
        0x3F => "SS_TICKET",
        0x40 => "GOLD_TEETH",
        0x41 => "X_ATTACK",
        0x42 => "X_DEFEND",
        0x43 => "X_SPEED",
        0x44 => "X_SPECIAL",
        0x45 => "COIN_CASE",
        0x46 => "OAKS_PARCEL",
        0x47 => "ITEMFINDER",
        0x48 => "SILPH_SCOPE",
        0x49 => "POKE_FLUTE",
        0x4A => "LIFT_KEY",
        0x4B => "EXP_ALL",
        0x4C => "OLD_ROD",
        0x4D => "GOOD_ROD",
        0x4E => "SUPER_ROD",
        0x4F => "PP_UP_2",
        0x50 => "ETHER",
        0x51 => "MAX_ETHER",
        0x52 => "ELIXIR",
        0x53 => "MAX_ELIXIR",
        0xC4 => "HM_01",
        0xC5 => "HM_02",
        0xC6 => "HM_03",
        0xC7 => "HM_04",
        0xC8 => "HM_05",
        0xC9 => "TM_01",
        0xCA => "TM_02",
        0xCB => "TM_03",
        0xCC => "TM_04",
        0xCD => "TM_05",
        0xCE => "TM_06",
        0xCF => "TM_07",
        0xD0 => "TM_08",
        0xD1 => "TM_09",
        0xD2 => "TM_10",
        0xD3 => "TM_11",
        0xD4 => "TM_12",
        0xD5 => "TM_13",
        0xD6 => "TM_14",
        0xD7 => "TM_15",
        0xD8 => "TM_16",
        0xD9 => "TM_17",
        0xDA => "TM_18",
        0xDB => "TM_19",
        0xDC => "TM_20",
        0xDD => "TM_21",
        0xDE => "TM_22",
        0xDF => "TM_23",
        0xE0 => "TM_24",
        0xE1 => "TM_25",
        0xE2 => "TM_26",
        0xE3 => "TM_27",
        0xE4 => "TM_28",
        0xE5 => "TM_29",
        0xE6 => "TM_30",
        0xE7 => "TM_31",
        0xE8 => "TM_32",
        0xE9 => "TM_33",
        0xEA => "TM_34",
        0xEB => "TM_35",
        0xEC => "TM_36",
        0xED => "TM_37",
        0xEE => "TM_38",
        0xEF => "TM_39",
        0xF0 => "TM_40",
        0xF1 => "TM_41",
        0xF2 => "TM_42",
        0xF3 => "TM_43",
        0xF4 => "TM_44",
        0xF5 => "TM_45",
        0xF6 => "TM_46",
        0xF7 => "TM_47",
        0xF8 => "TM_48",
        0xF9 => "TM_49",
        0xFA => "TM_50",
        _ => "UNKNOWN_ITEM",
    }
}
} // verus!
