//! The journal kept across ClawBoy game sessions.
//!
//! The journal tracks the agent's progress across sessions, storing
//! summaries, party snapshots, and goals. On session start the agent reads
//! it to reorient; on session end a new entry is written. Reading and
//! writing the file is the session layer's work; this module builds
//! entries and prunes the journal before it is saved.

use crate::clawboy::memory_map::party_views;
use crate::clawboy::types::{GameState, Journal, JournalEntry, PartyMember, PartySnapshot};
use crate::text::{decimal, decimal_string, join, lemma_join_push, owned, push_str};
use vstd::prelude::*;

verus! {

/// Maximum number of session entries retained in the journal.
pub const MAX_JOURNAL_ENTRIES: usize = 20;

/// Journal filename within the ClawBoy data directory.
pub const JOURNAL_FILENAME: &'static str = "journal.json";

/// Sub-path from the data root to the journal file.
pub const JOURNAL_SUBDIR: &'static str = "clawboy/pokemon-red";

/// The sessions kept when the journal is saved: the last
/// [`MAX_JOURNAL_ENTRIES`], oldest first.
pub open spec fn kept_sessions(s: Seq<JournalEntry>) -> Seq<JournalEntry> {
    if s.len() > MAX_JOURNAL_ENTRIES {
        s.subrange(s.len() - MAX_JOURNAL_ENTRIES, s.len() as int)
    } else {
        s
    }
}

/// Prunes the journal before it is saved: only the last
/// [`MAX_JOURNAL_ENTRIES`] sessions are kept (oldest removed first). The
/// goal and the learnings are never pruned.
pub fn prune_sessions(journal: &mut Journal)
    ensures
        final(journal).sessions@ == kept_sessions(old(journal).sessions@),
        final(journal).current_goal == old(journal).current_goal,
        final(journal).learnings@ == old(journal).learnings@,
{
    if journal.sessions.len() > MAX_JOURNAL_ENTRIES {
        let drain_count = journal.sessions.len() - MAX_JOURNAL_ENTRIES;
        let kept = journal.sessions.split_off(drain_count);
        journal.sessions = kept;
    }
}

/// Pruning keeps at most [`MAX_JOURNAL_ENTRIES`] sessions, keeps the most
/// recent one last, and a second pruning changes nothing.
pub proof fn lemma_prune_bounded_and_idempotent(s: Seq<JournalEntry>)
    ensures
        kept_sessions(s).len() <= MAX_JOURNAL_ENTRIES,
        s.len() > 0 ==> kept_sessions(s).last() == s.last(),
        kept_sessions(kept_sessions(s)) == kept_sessions(s),
{
}

/// The party snapshot of party members: species and level, in order.
pub open spec fn snapshot_of(p: Seq<(Seq<char>, u8, u16, u16, Seq<char>)>) -> Seq<(Seq<char>, u8)> {
    p.map_values(|m: (Seq<char>, u8, u16, u16, Seq<char>)| (m.0, m.1))
}

/// The views of party snapshots.
pub open spec fn snapshot_views(v: Seq<PartySnapshot>) -> Seq<(Seq<char>, u8)> {
    v.map_values(|s: PartySnapshot| (s.species@, s.level))
}

/// Creates a [`JournalEntry`] from the current game state.
///
/// Builds a party snapshot from the state's party and takes its badge
/// count. The caller supplies start/end timestamps (ISO-8601), a summary
/// string, and the total play time in seconds.
pub fn create_session_entry(
    started: &str,
    ended: &str,
    summary: String,
    state: &GameState,
    play_time_seconds: u64,
) -> (e: JournalEntry)
    ensures
        e.started@ == started@,
        e.ended@ == ended@,
        e.summary == summary,
        snapshot_views(e.party_snapshot@) == snapshot_of(party_views(state.party@)),
        e.badges == state.badge_count,
        e.play_time_seconds == play_time_seconds,
{
    let ghost target = snapshot_of(party_views(state.party@));
    let mut party_snapshot: Vec<PartySnapshot> = Vec::new();
    let mut i: usize = 0;
    while i < state.party.len()
        invariant
            i <= state.party@.len(),
            target == snapshot_of(party_views(state.party@)),
            snapshot_views(party_snapshot@) == target.take(i as int),
        decreases state.party.len() - i,
    {
        let m = &state.party[i];
        let snap = PartySnapshot { species: m.species.clone(), level: m.level };
        let ghost before = party_snapshot@;
        party_snapshot.push(snap);
        assert(snapshot_views(party_snapshot@) =~= snapshot_views(before).push(
            (snap.species@, snap.level),
        ));
        assert(target.take(i + 1) =~= target.take(i as int).push(target[i as int]));
        i = i + 1;
    }
    assert(target.take(state.party.len() as int) =~= target);
    JournalEntry {
        started: owned(started),
        ended: owned(ended),
        summary,
        party_snapshot,
        badges: state.badge_count,
        play_time_seconds,
    }
}

/// One party member as `"SPECIES Lv##"`.
pub open spec fn journal_party_entry(m: (Seq<char>, u8, u16, u16, Seq<char>)) -> Seq<char> {
    m.0 + " Lv"@ + decimal(m.1 as nat)
}

/// The party for a journal summary: entries joined with `", "`, or
/// `"empty"`.
pub open spec fn party_for_journal(p: Seq<(Seq<char>, u8, u16, u16, Seq<char>)>) -> Seq<char> {
    if p.len() == 0 {
        "empty"@
    } else {
        join(p.map_values(|m: (Seq<char>, u8, u16, u16, Seq<char>)| journal_party_entry(m)), ", "@)
    }
}

/// Formats the party for inclusion in a journal auto-summary.
///
/// Produces a string like `"CHARMANDER Lv12, PIDGEY Lv8"`.
/// Returns `"empty"` for an empty party.
pub fn format_party_for_journal(party: &[PartyMember]) -> (r: String)
    ensures
        r@ == party_for_journal(party_views(party@)),
{
    if party.len() == 0 {
        return owned("empty");
    }
    let ghost entries = party_views(party@).map_values(
        |m: (Seq<char>, u8, u16, u16, Seq<char>)| journal_party_entry(m),
    );
    let mut buf = String::new();
    let mut i: usize = 0;
    while i < party.len()
        invariant
            i <= party@.len(),
            entries == party_views(party@).map_values(
                |m: (Seq<char>, u8, u16, u16, Seq<char>)| journal_party_entry(m),
            ),
            buf@ == join(entries.take(i as int), ", "@),
        decreases party.len() - i,
    {
        proof {
            lemma_join_push(entries, ", "@, i as int);
        }
        if i > 0 {
            push_str(&mut buf, ", ");
        }
        push_str(&mut buf, party[i].species.as_str());
        push_str(&mut buf, " Lv");
        push_str(&mut buf, decimal_string(party[i].level as u64).as_str());
        i = i + 1;
    }
    assert(entries.take(party.len() as int) =~= entries);
    buf
}

} // verus!
