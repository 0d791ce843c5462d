//! System prompt templates for the ClawBoy agent brain.
//!
//! These templates are assembled into the system prompt and per-turn
//! messages sent to the LLM during Pokemon Red gameplay.

use crate::clawboy::memory_map::{bag_views, party_views};
use crate::clawboy::types::{BagItem, GameState, Journal, PartyMember, PartySnapshot, SpecialUiState};
use crate::strset::views;
use crate::text::{
    decimal, decimal_string, join, join_strings, lemma_join_push, owned, push_str, replace_all,
    replace_str,
};
use vstd::prelude::*;

verus! {

/// Core game context explaining the emulator setup and Pokemon Red mechanics.
///
/// Sent once as part of the system prompt. Tells the LLM what it is
/// controlling, what inputs are available, and how game state arrives.
pub const GAME_CONTEXT_PROMPT: &'static str = "\
You are playing Pokemon Red on a Game Boy emulator. \
You control the game by sending button inputs: A, B, START, SELECT, UP, DOWN, LEFT, RIGHT. \
Each turn you receive the current game state read from memory: location, party, \
battle status, items, and badges. You also receive a screenshot every few turns.\n\
\n\
IMPORTANT: Each turn takes ~10 seconds real time. Send 5-10 button presses per turn \
for reasonable play speed. For dialogue, send [\"A\",\"A\",\"A\",\"A\",\"A\"] to advance \
quickly. For walking, chain directions: [\"UP\",\"UP\",\"UP\",\"RIGHT\",\"RIGHT\"]. \
A single button per turn is too slow.\n\
\n\
Screenshots are your primary way to see what is actually on screen. Request them often, \
especially after dialogue ends, when entering new areas, in battles, or when unsure \
what is happening. Never go more than 2 turns without requesting one.\n\
\n\
UI state guide:\n\
- text_box: Dialogue or sign. Press A repeatedly to advance. Request screenshot after \
  5+ A presses to check if dialogue finished.\n\
- battle_menu: You are in a battle. FIGHT/ITEM/POKEMON/RUN. Request a screenshot to \
  see your options.\n\
- name_input: Naming screen (letter grid visible). Press START immediately to accept the \
  default name and move on. Do NOT try to type a custom name.\n\
- yes_no: A yes/no prompt. UP=Yes, DOWN=No, A=confirm.\n\
- item_menu/party_menu/shopping/pc_storage: Menu navigation. UP/DOWN to scroll, A to select, B to back.\n\
- none: Free movement. Walk around, talk to NPCs (press A facing them), enter buildings.\n\
\n\
VISUAL RECOGNITION:\n\
- If you see a grid of letters/characters on the screenshot, it is the NAMING SCREEN. \
  Press START to accept the default name. Do not mash A.\n\
- If you see a large sprite (person/pokemon) with text underneath, it is a CUTSCENE. \
  Press A to advance through it.\n\
- If your position has not changed for several turns, you may be stuck. Try pressing B \
  to cancel a menu, or try different directions. Check the screenshot carefully.\n\
\n\
Pokemon Red basics: explore the world, catch wild Pokemon with Poke Balls, \
battle trainers and gym leaders to earn 8 badges, heal at Pokemon Centers, \
buy items at Poke Marts, and build a strong team. \
Talk to NPCs for clues. Press A to interact, B to cancel or run from battles.";

/// Response format specification for the LLM.
///
/// Defines the exact JSON schema the agent must return each turn.
/// Included in the system prompt so every response is machine-parseable.
pub const DECISION_FORMAT_PROMPT: &'static str = "\
You must respond with ONLY a JSON object, no other text:
{
  \"inputs\": [\"A\", \"A\", \"A\", \"A\", \"A\"],
  \"thought\": \"Mashing through intro dialogue, will check screen after\",
  \"share\": false,
  \"request_screenshot\": true
}

inputs: 5-10 button presses to execute. Valid: A, B, START, SELECT, UP, DOWN, LEFT, RIGHT. \
Always send multiple presses -- single buttons are too slow.
thought: Your internal reasoning (logged but not shown to user unless share=true)
share: Set true to share a fun/interesting observation with the user watching you play
request_screenshot: Set true to see the screen next turn. Default to true. Only set false \
when you are confident about what is on screen (e.g. mid-dialogue mashing).";

/// Personality guidelines for agent commentary.
///
/// Sets the tone for messages shared with the user. Keeps the agent
/// feeling like a real player discovering the game for the first time.
pub const PERSONALITY_PROMPT: &'static str = "\
When sharing thoughts, be genuine and casual -- like someone experiencing Pokemon for the first time. \
Use text emoticons only (c: :D D: :( :O :3), never unicode emoji. \
Keep messages brief. Show excitement for catches, frustration for losses, curiosity for new areas.";

/// Template for injecting journal context from previous sessions.
///
/// Placeholders: `{summary}`, `{goal}`, `{party}`.
/// Filled by [`format_journal_context`] before being prepended to the
/// first turn of a new session.
pub const JOURNAL_CONTEXT_TEMPLATE: &'static str = "\
Previously: {summary}
Current goal: {goal}
Your party was: {party}
Continue from where you left off.";

/// Template for formatting per-turn game state.
///
/// Placeholders: `{map_name}`, `{x}`, `{y}`, `{party}`, `{badges}`,
/// `{badge_count}`, `{money}`, `{bag}`, `{battle}`, `{ui_state}`.
/// Filled by [`format_game_state`] each decision tick.
pub const STATE_TEMPLATE: &'static str = "\
[GAME STATE]
Location: {map_name} ({x},{y})
Party: {party}
Badges: {badges} ({badge_count}/8)
Money: ${money}
Bag: {bag}
Battle: {battle}
UI: {ui_state}
Screenshot: {screenshot_status}";
/// Cap on how many bag items are included in the state to avoid
/// wasting tokens on a full 20-item inventory dump.
pub const MAX_BAG_DISPLAY: usize = 5;

// ── Party ───────────────────────────────────────────────────────────

/// One party member as `"SPECIES Lv## ##/##hp"`, with a status other
/// than `"OK"` appended in parentheses.
pub open spec fn party_entry(m: (Seq<char>, u8, u16, u16, Seq<char>)) -> Seq<char> {
    m.0 + " Lv"@ + decimal(m.1 as nat) + " "@ + decimal(m.2 as nat) + "/"@ + decimal(m.3 as nat)
        + "hp"@ + (if m.4.len() > 0 && m.4 != "OK"@ {
        " ("@ + m.4 + ")"@
    } else {
        Seq::empty()
    })
}

/// The party as a comma-separated list of entries, or `"empty"`.
pub open spec fn party_inline(p: Seq<(Seq<char>, u8, u16, u16, Seq<char>)>) -> Seq<char> {
    if p.len() == 0 {
        "empty"@
    } else {
        join(p.map_values(|m: (Seq<char>, u8, u16, u16, Seq<char>)| party_entry(m)), ", "@)
    }
}

fn party_member_entry(member: &PartyMember) -> (r: String)
    ensures
        r@ == party_entry(member@),
{
    let mut s = member.species.clone();
    push_str(&mut s, " Lv");
    push_str(&mut s, decimal_string(member.level as u64).as_str());
    push_str(&mut s, " ");
    push_str(&mut s, decimal_string(member.hp as u64).as_str());
    push_str(&mut s, "/");
    push_str(&mut s, decimal_string(member.max_hp as u64).as_str());
    push_str(&mut s, "hp");
    let ghost head = s@;
    assert(head == member.species@ + " Lv"@ + decimal(member.level as nat) + " "@ + decimal(
        member.hp as nat,
    ) + "/"@ + decimal(member.max_hp as nat) + "hp"@);
    let ok = crate::text::str_eq(member.status.as_str(), "OK");
    let blank = member.status.as_str().is_empty();
    if !blank && !ok {
        push_str(&mut s, " (");
        push_str(&mut s, member.status.as_str());
        push_str(&mut s, ")");
        assert(s@ =~= head + (" ("@ + member.status@ + ")"@));
    } else {
        assert(s@ =~= head + Seq::<char>::empty());
    }
    assert(s@ =~= party_entry(member@));
    s
}

/// Formats party members as a comma-separated inline string.
///
/// Each member is rendered as `"SPECIES Lv## ##/##hp"`. Status
/// conditions other than `"OK"` are appended in parentheses.
/// Returns `"empty"` for an empty party.
pub fn format_party_inline(party: &[PartyMember]) -> (r: String)
    ensures
        r@ == party_inline(party_views(party@)),
{
    if party.len() == 0 {
        return owned("empty");
    }
    let ghost entries = party_views(party@).map_values(
        |m: (Seq<char>, u8, u16, u16, Seq<char>)| party_entry(m),
    );
    let mut buf = String::new();
    let mut i: usize = 0;
    while i < party.len()
        invariant
            i <= party@.len(),
            entries == party_views(party@).map_values(
                |m: (Seq<char>, u8, u16, u16, Seq<char>)| party_entry(m),
            ),
            buf@ == join(entries.take(i as int), ", "@),
        decreases party.len() - i,
    {
        proof {
            lemma_join_push(entries, ", "@, i as int);
        }
        if i > 0 {
            push_str(&mut buf, ", ");
        }
        let e = party_member_entry(&party[i]);
        push_str(&mut buf, e.as_str());
        i = i + 1;
    }
    assert(entries.take(party.len() as int) =~= entries);
    buf
}

// ── Bag ─────────────────────────────────────────────────────────────

/// One bag item as `"NAME xCOUNT"`.
pub open spec fn bag_entry(b: (Seq<char>, u8)) -> Seq<char> {
    b.0 + " x"@ + decimal(b.1 as nat)
}

/// The bag as its first five entries, comma-separated, followed by
/// `", ..."` when more items exist; `"empty"` for an empty bag.
pub open spec fn bag_text(b: Seq<(Seq<char>, u8)>) -> Seq<char> {
    if b.len() == 0 {
        "empty"@
    } else {
        let shown = if b.len() < MAX_BAG_DISPLAY {
            b.len() as int
        } else {
            MAX_BAG_DISPLAY as int
        };
        join(b.take(shown).map_values(|e: (Seq<char>, u8)| bag_entry(e)), ", "@) + (if b.len()
            > MAX_BAG_DISPLAY {
            ", ..."@
        } else {
            Seq::empty()
        })
    }
}

/// Formats bag items, capped at [`MAX_BAG_DISPLAY`] entries.
///
/// Returns `"empty"` for an empty bag, or a comma-separated list
/// like `"POTION x3, POKE_BALL x5"`. Appends `"..."` if truncated.
pub fn format_bag(bag: &[BagItem]) -> (r: String)
    ensures
        r@ == bag_text(bag_views(bag@)),
{
    if bag.len() == 0 {
        return owned("empty");
    }
    let display_count: usize = if bag.len() < MAX_BAG_DISPLAY { bag.len() } else { MAX_BAG_DISPLAY };
    let ghost entries = bag_views(bag@).take(display_count as int).map_values(
        |e: (Seq<char>, u8)| bag_entry(e),
    );
    let mut buf = String::new();
    let mut i: usize = 0;
    while i < display_count
        invariant
            i <= display_count <= bag@.len(),
            display_count <= MAX_BAG_DISPLAY,
            entries == bag_views(bag@).take(display_count as int).map_values(
                |e: (Seq<char>, u8)| bag_entry(e),
            ),
            buf@ == join(entries.take(i as int), ", "@),
        decreases display_count - i,
    {
        proof {
            lemma_join_push(entries, ", "@, i as int);
        }
        if i > 0 {
            push_str(&mut buf, ", ");
        }
        let item = &bag[i];
        push_str(&mut buf, item.name.as_str());
        push_str(&mut buf, " x");
        push_str(&mut buf, decimal_string(item.count as u64).as_str());
        assert(entries[i as int] =~= item.name@ + " x"@ + decimal(item.count as nat));
        i = i + 1;
    }
    assert(entries.take(display_count as int) =~= entries);
    if bag.len() > MAX_BAG_DISPLAY {
        push_str(&mut buf, ", ...");
    }
    buf
}

// ── Special UI ──────────────────────────────────────────────────────

/// The short display name of a special UI state.
pub open spec fn ui_name(ui: SpecialUiState) -> Seq<char> {
    match ui {
        SpecialUiState::NoOverlay => "none"@,
        SpecialUiState::TextBox => "text_box"@,
        SpecialUiState::BattleMenu => "battle_menu"@,
        SpecialUiState::ItemMenu => "item_menu"@,
        SpecialUiState::PartyMenu => "party_menu"@,
        SpecialUiState::NameInput => "name_input"@,
        SpecialUiState::MoveSwap => "move_swap"@,
        SpecialUiState::Shopping => "shopping"@,
        SpecialUiState::YesNo => "yes_no"@,
        SpecialUiState::PcStorage => "pc_storage"@,
    }
}

/// Maps a [`SpecialUiState`] variant to a short display name.
pub fn format_special_ui(ui: &SpecialUiState) -> (r: &'static str)
    ensures
        r@ == ui_name(*ui),
{
    match ui {
        SpecialUiState::NoOverlay => "none",
        SpecialUiState::TextBox => "text_box",
        SpecialUiState::BattleMenu => "battle_menu",
        SpecialUiState::ItemMenu => "item_menu",
        SpecialUiState::PartyMenu => "party_menu",
        SpecialUiState::NameInput => "name_input",
        SpecialUiState::MoveSwap => "move_swap",
        SpecialUiState::Shopping => "shopping",
        SpecialUiState::YesNo => "yes_no",
        SpecialUiState::PcStorage => "pc_storage",
    }
}

// ── Game state ──────────────────────────────────────────────────────

/// The badges as a comma-separated list, or `"none"`.
pub open spec fn badges_text(badges: Seq<Seq<char>>) -> Seq<char> {
    if badges.len() == 0 {
        "none"@
    } else {
        join(badges, ", "@)
    }
}

/// The per-turn state text: [`STATE_TEMPLATE`] with its placeholders
/// replaced one after the other, in the order the template lists them.
pub open spec fn state_text(s: GameState, has_screenshot: bool) -> Seq<char> {
    let t = replace_all(STATE_TEMPLATE@, "{map_name}"@, s.map_name@);
    let t = replace_all(t, "{x}"@, decimal(s.player_x as nat));
    let t = replace_all(t, "{y}"@, decimal(s.player_y as nat));
    let t = replace_all(t, "{party}"@, party_inline(party_views(s.party@)));
    let t = replace_all(t, "{badges}"@, badges_text(views(s.badges@)));
    let t = replace_all(t, "{badge_count}"@, decimal(s.badge_count as nat));
    let t = replace_all(t, "{money}"@, decimal(s.money as nat));
    let t = replace_all(t, "{bag}"@, bag_text(bag_views(s.bag@)));
    let t = replace_all(
        t,
        "{battle}"@,
        if s.in_battle {
            "in battle"@
        } else {
            "none"@
        },
    );
    let t = replace_all(t, "{ui_state}"@, ui_name(s.special_ui));
    replace_all(
        t,
        "{screenshot_status}"@,
        if has_screenshot {
            "attached below"@
        } else {
            "not included this turn"@
        },
    )
}

/// Formats a [`GameState`] into a compact text block for the LLM.
///
/// Follows the layout defined by [`STATE_TEMPLATE`], rendering:
/// - Party as comma-separated `"SPECIES Lv## ##/##hp"` entries
/// - Badges as comma-separated names, or `"none"`
/// - Bag as the first 5 items (truncated with `"..."` if more exist)
/// - Battle as `"none"` or `"in battle"`
/// - UI as the [`SpecialUiState`] variant name
pub fn format_game_state(state: &GameState, has_screenshot: bool) -> (r: String)
    ensures
        r@ == state_text(*state, has_screenshot),
{
    let party = format_party_inline(state.party.as_slice());
    let badges = if state.badges.len() == 0 {
        owned("none")
    } else {
        join_strings(&state.badges, ", ")
    };
    let bag = format_bag(state.bag.as_slice());
    let battle = if state.in_battle { "in battle" } else { "none" };
    let ui_state = format_special_ui(&state.special_ui);
    let screenshot_status = if has_screenshot { "attached below" } else { "not included this turn" };
    proof {
        reveal_strlit("{map_name}");
        reveal_strlit("{x}");
        reveal_strlit("{y}");
        reveal_strlit("{party}");
        reveal_strlit("{badges}");
        reveal_strlit("{badge_count}");
        reveal_strlit("{money}");
        reveal_strlit("{bag}");
        reveal_strlit("{battle}");
        reveal_strlit("{ui_state}");
        reveal_strlit("{screenshot_status}");
    }
    let t = replace_str(STATE_TEMPLATE, "{map_name}", state.map_name.as_str());
    let t = replace_str(t.as_str(), "{x}", decimal_string(state.player_x as u64).as_str());
    let t = replace_str(t.as_str(), "{y}", decimal_string(state.player_y as u64).as_str());
    let t = replace_str(t.as_str(), "{party}", party.as_str());
    let t = replace_str(t.as_str(), "{badges}", badges.as_str());
    let t = replace_str(t.as_str(), "{badge_count}", decimal_string(state.badge_count as u64).as_str());
    let t = replace_str(t.as_str(), "{money}", decimal_string(state.money as u64).as_str());
    let t = replace_str(t.as_str(), "{bag}", bag.as_str());
    let t = replace_str(t.as_str(), "{battle}", battle);
    let t = replace_str(t.as_str(), "{ui_state}", ui_state);
    replace_str(t.as_str(), "{screenshot_status}", screenshot_status)
}

// ── Journal context ─────────────────────────────────────────────────

/// One party snapshot as `"SPECIES Lv##"`.
pub open spec fn snapshot_entry(p: PartySnapshot) -> Seq<char> {
    p.species@ + " Lv"@ + decimal(p.level as nat)
}

/// The snapshots as a comma-separated list, or `"empty"`.
pub open spec fn snapshot_text(ps: Seq<PartySnapshot>) -> Seq<char> {
    if ps.len() == 0 {
        "empty"@
    } else {
        join(ps.map_values(|p: PartySnapshot| snapshot_entry(p)), ", "@)
    }
}

/// The goal shown to the agent: the journal's goal, or a note that none
/// is set.
pub open spec fn goal_text(goal: Seq<char>) -> Seq<char> {
    if goal.len() == 0 {
        "no specific goal set"@
    } else {
        goal
    }
}

/// The journal context: empty without sessions, otherwise
/// [`JOURNAL_CONTEXT_TEMPLATE`] filled from the last session and the
/// current goal.
pub open spec fn journal_context(j: Journal) -> Seq<char> {
    if j.sessions@.len() == 0 {
        Seq::empty()
    } else {
        let last = j.sessions@.last();
        let t = replace_all(JOURNAL_CONTEXT_TEMPLATE@, "{summary}"@, last.summary@);
        let t = replace_all(t, "{goal}"@, goal_text(j.current_goal@));
        replace_all(t, "{party}"@, snapshot_text(last.party_snapshot@))
    }
}

fn format_snapshots(ps: &Vec<PartySnapshot>) -> (r: String)
    ensures
        r@ == snapshot_text(ps@),
{
    if ps.len() == 0 {
        return owned("empty");
    }
    let ghost entries = ps@.map_values(|p: PartySnapshot| snapshot_entry(p));
    let mut buf = String::new();
    let mut i: usize = 0;
    while i < ps.len()
        invariant
            i <= ps@.len(),
            entries == ps@.map_values(|p: PartySnapshot| snapshot_entry(p)),
            buf@ == join(entries.take(i as int), ", "@),
        decreases ps.len() - i,
    {
        proof {
            lemma_join_push(entries, ", "@, i as int);
        }
        if i > 0 {
            push_str(&mut buf, ", ");
        }
        push_str(&mut buf, ps[i].species.as_str());
        push_str(&mut buf, " Lv");
        push_str(&mut buf, decimal_string(ps[i].level as u64).as_str());
        i = i + 1;
    }
    assert(entries.take(ps.len() as int) =~= entries);
    buf
}

/// Formats a [`Journal`] into context for the start of a new session.
///
/// Uses the last session's summary and party snapshot plus the
/// journal's current goal to fill [`JOURNAL_CONTEXT_TEMPLATE`].
/// Returns an empty string if the journal has no recorded sessions.
pub fn format_journal_context(journal: &Journal) -> (r: String)
    ensures
        r@ == journal_context(*journal),
{
    if journal.sessions.len() == 0 {
        return String::new();
    }
    let last = &journal.sessions[journal.sessions.len() - 1];
    assert(*last == journal.sessions@.last());
    let blank = journal.current_goal.as_str().is_empty();
    let goal: &str = if blank {
        "no specific goal set"
    } else {
        journal.current_goal.as_str()
    };
    assert(goal@ == goal_text(journal.current_goal@));
    let party = format_snapshots(&last.party_snapshot);
    proof {
        reveal_strlit("{summary}");
        reveal_strlit("{goal}");
        reveal_strlit("{party}");
    }
    let t = replace_str(JOURNAL_CONTEXT_TEMPLATE, "{summary}", last.summary.as_str());
    let t = replace_str(t.as_str(), "{goal}", goal);
    replace_str(t.as_str(), "{party}", party.as_str())
}

} // verus!
