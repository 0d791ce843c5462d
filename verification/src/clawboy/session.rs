//! The decisions of a ClawBoy session's tick loop.
//!
//! A session runs the emulator at about 60 frames per second, streams every
//! fourth frame to the viewers, feeds the agent's button presses to the
//! emulator with the hold and release timing the game needs, and writes a
//! journal entry when it stops. The loop itself, the emulator and the
//! viewer live with the FFI layer; this module decides what each frame
//! does.

use crate::clawboy::bridge::{tick_step, AgentBridge};
use crate::clawboy::journal::{create_session_entry, format_party_for_journal, party_for_journal};
use crate::clawboy::memory_map::party_views;
use crate::clawboy::types::{ClawBoyStatus, GameState, GbButton, JournalEntry, RomVerification};
use crate::clock::millis_since;
use crate::error::FfiError;
use crate::text::{decimal, decimal_string, owned, push_str};
use std::time::Instant;
use vstd::prelude::*;

verus! {

/// Sub-directory under the data root for ClawBoy save files.
pub const SAVE_SUBDIR: &'static str = "clawboy/pokemon-red";

/// Stream every Nth frame to viewers (~15 fps at 60 fps tick rate).
pub const FRAME_STREAM_INTERVAL: u64 = 4;

/// Target frame duration for ~60 fps emulation.
pub const TARGET_FRAME_NANOS: u64 = 16_666_667;

/// Number of frames to hold each button press: Pokemon Red needs 2 to 4
/// frames for a press to register reliably.
pub const BUTTON_HOLD_DURATION: u64 = 4;

/// Number of frames to release all buttons between presses, so that
/// consecutive presses of one direction are not read as one held press.
pub const BUTTON_RELEASE_GAP: u64 = 2;

/// Frames per second of the emulation.
pub const FRAMES_PER_SECOND: u64 = 60;

/// Whether a frame is streamed to the viewers.
pub fn should_stream_frame(frame_counter: u64) -> (r: bool)
    ensures
        r == (frame_counter % FRAME_STREAM_INTERVAL == 0),
{
    frame_counter % FRAME_STREAM_INTERVAL == 0
}

/// What the emulator does with its buttons on a frame.
#[derive(Debug, Clone, Copy, PartialEq, Eq, Structural)]
pub enum ButtonAction {
    /// Nothing changes.
    Hold,
    /// Press this button.
    Press(GbButton),
    /// Lift this button.
    Lift(GbButton),
}

/// The button timing of the tick loop: a pressed button is held for
/// [`BUTTON_HOLD_DURATION`] frames, then lifted, then all buttons stay
/// released for [`BUTTON_RELEASE_GAP`] frames before the next press.
pub struct ButtonTimer {
    /// The button being held, if any.
    pub current_button: Option<GbButton>,
    /// Frames the current button has been held.
    pub button_hold_frames: u64,
    /// Whether the release gap is running.
    pub in_release_gap: bool,
    /// Frames of the release gap so far.
    pub release_gap_frames: u64,
}

impl ButtonTimer {
    /// The counters stay below their limits; no button is held during the
    /// release gap.
    pub open spec fn wf(&self) -> bool {
        &&& self.button_hold_frames < BUTTON_HOLD_DURATION
        &&& self.release_gap_frames < BUTTON_RELEASE_GAP
        &&& self.in_release_gap ==> self.current_button is None
        &&& self.current_button is None ==> self.button_hold_frames == 0
        &&& !self.in_release_gap ==> self.release_gap_frames == 0
    }

    /// Whether a button is held or the release gap runs: then a frame only
    /// advances the timer, without asking the bridge for input.
    pub open spec fn busy(&self) -> bool {
        self.in_release_gap || self.current_button is Some
    }

    /// No button held, no gap running.
    pub fn new() -> (t: ButtonTimer)
        ensures
            t == idle_timer(),
            t.wf(),
            t.current_button is None,
            !t.in_release_gap,
    {
        ButtonTimer {
            current_button: None,
            button_hold_frames: 0,
            in_release_gap: false,
            release_gap_frames: 0,
        }
    }

    /// Decides the button action of one frame. During the release gap the
    /// gap advances; while a button is held its hold time advances and,
    /// once it reaches the hold duration, the button is lifted and the gap
    /// starts; otherwise the bridge is asked for the next button, which is
    /// pressed.
    pub fn advance(&mut self, bridge: &mut AgentBridge, frame_counter: u64) -> (a: ButtonAction)
        requires
            old(self).wf(),
            old(bridge).frames_since_decision < u64::MAX,
        ensures
            final(self).wf(),
            old(self).busy() ==> (*final(self), a) == busy_step(*old(self)) && *final(bridge)
                == *old(bridge),
            !old(self).busy() ==> tick_step(*old(bridge), *final(bridge)),
            a matches ButtonAction::Press(b) ==> *final(self) == pressed_timer(b),
            old(self).in_release_gap ==> {
                &&& a == ButtonAction::Hold
                &&& final(self).in_release_gap == (old(self).release_gap_frames + 1
                    < BUTTON_RELEASE_GAP)
                &&& final(self).current_button is None
                &&& *final(bridge) == *old(bridge)
            },
            !old(self).in_release_gap && old(self).current_button is Some ==> {
                let b = old(self).current_button->0;
                &&& old(self).button_hold_frames + 1 >= BUTTON_HOLD_DURATION ==> a
                    == ButtonAction::Lift(b) && final(self).in_release_gap
                    && final(self).current_button is None
                &&& old(self).button_hold_frames + 1 < BUTTON_HOLD_DURATION ==> a
                    == ButtonAction::Hold && final(self).current_button == Some(b)
                    && final(self).button_hold_frames == old(self).button_hold_frames + 1
                &&& *final(bridge) == *old(bridge)
            },
            !old(self).in_release_gap && old(self).current_button is None ==> {
                &&& old(bridge).input_queue@.len() > 0 ==> a == ButtonAction::Press(
                    old(bridge).input_queue@[0],
                ) && final(self).current_button == Some(old(bridge).input_queue@[0])
                &&& old(bridge).input_queue@.len() == 0 ==> match old(bridge).last_input {
                    Some(b) => a == ButtonAction::Press(b) && final(self).current_button == Some(b),
                    None => a == ButtonAction::Hold && final(self).current_button is None,
                }
                &&& !final(self).in_release_gap
            },
    {
        if self.in_release_gap {
            self.release_gap_frames = self.release_gap_frames + 1;
            if self.release_gap_frames >= BUTTON_RELEASE_GAP {
                self.in_release_gap = false;
                self.release_gap_frames = 0;
            }
            ButtonAction::Hold
        } else {
            match self.current_button {
                Some(button) => {
                    self.button_hold_frames = self.button_hold_frames + 1;
                    if self.button_hold_frames >= BUTTON_HOLD_DURATION {
                        self.current_button = None;
                        self.button_hold_frames = 0;
                        self.in_release_gap = true;
                        self.release_gap_frames = 0;
                        ButtonAction::Lift(button)
                    } else {
                        ButtonAction::Hold
                    }
                },
                None => match bridge.tick(frame_counter) {
                    Some(button) => {
                        self.current_button = Some(button);
                        self.button_hold_frames = 0;
                        ButtonAction::Press(button)
                    },
                    None => ButtonAction::Hold,
                },
            }
        }
    }
}

/// The timer of an idle session: no button held, no gap running.
pub open spec fn idle_timer() -> ButtonTimer {
    ButtonTimer { current_button: None, button_hold_frames: 0, in_release_gap: false, release_gap_frames: 0 }
}

/// The timer on the frame a button is pressed.
pub open spec fn pressed_timer(b: GbButton) -> ButtonTimer {
    ButtonTimer { current_button: Some(b), button_hold_frames: 0, in_release_gap: false, release_gap_frames: 0 }
}

/// One frame of a busy timer: the timer after the frame and the frame's
/// action. The release gap counts up and ends; a held button counts up and
/// is lifted when it has been held long enough, starting the gap.
pub open spec fn busy_step(t: ButtonTimer) -> (ButtonTimer, ButtonAction) {
    if t.in_release_gap {
        if t.release_gap_frames + 1 >= BUTTON_RELEASE_GAP {
            (idle_timer(), ButtonAction::Hold)
        } else {
            (
                ButtonTimer {
                    current_button: t.current_button,
                    button_hold_frames: t.button_hold_frames,
                    in_release_gap: true,
                    release_gap_frames: (t.release_gap_frames + 1) as u64,
                },
                ButtonAction::Hold,
            )
        }
    } else {
        match t.current_button {
            Some(b) => if t.button_hold_frames + 1 >= BUTTON_HOLD_DURATION {
                (
                    ButtonTimer {
                        current_button: None,
                        button_hold_frames: 0,
                        in_release_gap: true,
                        release_gap_frames: 0,
                    },
                    ButtonAction::Lift(b),
                )
            } else {
                (
                    ButtonTimer {
                        current_button: Some(b),
                        button_hold_frames: (t.button_hold_frames + 1) as u64,
                        in_release_gap: false,
                        release_gap_frames: t.release_gap_frames,
                    },
                    ButtonAction::Hold,
                )
            },
            None => (t, ButtonAction::Hold),
        }
    }
}

/// `n` frames of [`busy_step`]: the timer after them and their actions.
pub open spec fn busy_run(t: ButtonTimer, n: nat) -> (ButtonTimer, Seq<ButtonAction>)
    decreases n,
{
    if n == 0 {
        (t, Seq::empty())
    } else {
        let (t1, a) = busy_step(t);
        let (t2, rest) = busy_run(t1, (n - 1) as nat);
        (t2, seq![a] + rest)
    }
}

/// Every press is held for [`BUTTON_HOLD_DURATION`] frames and followed by
/// [`BUTTON_RELEASE_GAP`] frames without buttons: after the frame of a
/// press the timer stays busy (so the bridge is not asked for input) for
/// those frames, which hold on every frame but lift the button on the last
/// frame of the hold, and then the timer is idle again.
pub proof fn lemma_press_cycle(b: GbButton)
    ensures
        ({
            let n = (BUTTON_HOLD_DURATION + BUTTON_RELEASE_GAP) as nat;
            let (t, acts) = busy_run(pressed_timer(b), n);
            &&& t == idle_timer()
            &&& acts.len() == n
            &&& forall|i: int| 0 <= i < n ==> acts[i] == (if i == BUTTON_HOLD_DURATION - 1 {
                ButtonAction::Lift(b)
            } else {
                ButtonAction::Hold
            })
            &&& forall|k: nat| k < n ==> (#[trigger] busy_run(pressed_timer(b), k)).0.busy()
        }),
{
    reveal_with_fuel(busy_run, 7);
    let n = (BUTTON_HOLD_DURATION + BUTTON_RELEASE_GAP) as nat;
    assert(n == 6);
    let (t, acts) = busy_run(pressed_timer(b), n);
    assert forall|k: nat| k < n implies (#[trigger] busy_run(pressed_timer(b), k)).0.busy() by {
        reveal_with_fuel(busy_run, 7);
    }
    assert(acts =~= seq![
        ButtonAction::Hold,
        ButtonAction::Hold,
        ButtonAction::Hold,
        ButtonAction::Lift(b),
        ButtonAction::Hold,
        ButtonAction::Hold
    ]);
}

// ── Status ───────────────────────────────────────────────────────────

/// The status of the session layer: idle without a session; paused (by
/// the user) or playing, with the viewer URL and the time played.
pub open spec fn status_of(
    active: bool,
    paused: bool,
    viewer_url: Seq<char>,
    play_time_seconds: u64,
) -> (int, Seq<char>, u64) {
    if !active {
        (0, Seq::empty(), 0)
    } else if paused {
        (2, "user paused"@, 0)
    } else {
        (1, viewer_url, play_time_seconds)
    }
}

/// The view of a status: its kind (0 idle, 1 playing, 2 paused, 3 error),
/// its text (URL, reason or message) and the time played.
pub open spec fn status_view(s: ClawBoyStatus) -> (int, Seq<char>, u64) {
    match s {
        ClawBoyStatus::Idle => (0, Seq::empty(), 0),
        ClawBoyStatus::Playing { viewer_url, play_time_seconds } => (
            1,
            viewer_url@,
            play_time_seconds,
        ),
        ClawBoyStatus::Paused { reason } => (2, reason@, 0),
        ClawBoyStatus::Error { message } => (3, message@, 0),
    }
}

/// The status to report, given whether a session is active, whether it is
/// paused, its viewer URL and the seconds since it started.
pub fn session_status(active: bool, paused: bool, viewer_url: &str, play_time_seconds: u64) -> (r: ClawBoyStatus)
    ensures
        status_view(r) == status_of(active, paused, viewer_url@, play_time_seconds),
{
    if !active {
        ClawBoyStatus::Idle
    } else if paused {
        ClawBoyStatus::Paused { reason: owned("user paused") }
    } else {
        ClawBoyStatus::Playing { viewer_url: owned(viewer_url), play_time_seconds }
    }
}

// ── The journal entry written on shutdown ────────────────────────────

/// The automatic summary of a session: minutes played, location and party.
pub open spec fn shutdown_summary(minutes: u64, state: GameState) -> Seq<char> {
    "Played for "@ + decimal(minutes as nat) + "m. Location: "@ + state.map_name@ + ". Party: "@
        + party_for_journal(party_views(state.party@)) + "."@
}

/// The journal entry written when a session stops after `frame_counter`
/// frames: the play time in whole seconds at 60 frames per second, and a
/// summary of the minutes played, the location and the party.
pub fn shutdown_journal_entry(
    state: &GameState,
    started_iso: &str,
    ended_iso: &str,
    frame_counter: u64,
) -> (e: JournalEntry)
    ensures
        e.play_time_seconds == frame_counter / FRAMES_PER_SECOND,
        e.summary@ == shutdown_summary((frame_counter / FRAMES_PER_SECOND) / 60, *state),
        e.started@ == started_iso@,
        e.ended@ == ended_iso@,
        e.badges == state.badge_count,
        crate::clawboy::journal::snapshot_views(e.party_snapshot@)
            == crate::clawboy::journal::snapshot_of(party_views(state.party@)),
{
    let play_time_seconds = frame_counter / FRAMES_PER_SECOND;
    let minutes = play_time_seconds / 60;
    let party_str = format_party_for_journal(state.party.as_slice());
    let mut summary = owned("Played for ");
    push_str(&mut summary, decimal_string(minutes).as_str());
    push_str(&mut summary, "m. Location: ");
    push_str(&mut summary, state.map_name.as_str());
    push_str(&mut summary, ". Party: ");
    push_str(&mut summary, party_str.as_str());
    push_str(&mut summary, ".");
    create_session_entry(started_iso, ended_iso, summary, state, play_time_seconds)
}


// ── The session registry ─────────────────────────────────────────────

/// The error of a control that needs a running session.
pub const NO_SESSION: &'static str = "no ClawBoy session is running";

/// The error of starting a second session.
pub const ALREADY_RUNNING: &'static str = "a ClawBoy session is already running";

/// The error of starting a session on a ROM that failed verification.
pub open spec fn rom_rejected(sha1: Seq<char>) -> Seq<char> {
    "ROM failed verification: SHA-1 "@ + sha1 + " does not match the expected Pokemon Red dump"@
}

/// What the controls read and change of the running session.
pub struct ActiveSession {
    /// The viewer's URL.
    pub viewer_url: String,
    /// Whether the user paused the session.
    pub paused: bool,
    /// The agent's decision interval (milliseconds).
    pub decision_interval_ms: u64,
    /// The chat channel that started the session.
    pub channel_id: Option<String>,
    /// When the session started.
    pub started_at: Instant,
}

/// The ClawBoy state shared by the FFI controls: the running session (at
/// most one), whether a verified ROM is present and where, and the user
/// messages waiting for the agent.
pub struct ClawBoyRegistry {
    /// The running session.
    pub session: Option<ActiveSession>,
    /// Whether a verified ROM exists on disk.
    pub rom_present: bool,
    /// The data directory of the ROM, set once.
    pub rom_data_dir: Option<String>,
    /// User messages for the agent, oldest first.
    pub user_messages: Vec<String>,
}

/// Whether the controls of a session changed nothing but what they say.
pub open spec fn same_rom_and_messages(a: &ClawBoyRegistry, b: &ClawBoyRegistry) -> bool {
    &&& a.rom_present == b.rom_present
    &&& a.rom_data_dir == b.rom_data_dir
    &&& a.user_messages == b.user_messages
}

impl ClawBoyRegistry {
    /// No session, no ROM, no messages.
    pub fn new() -> (r: Self)
        ensures
            r.session is None,
            !r.rom_present,
            r.rom_data_dir is None,
            r.user_messages@.len() == 0,
    {
        ClawBoyRegistry { session: None, rom_present: false, rom_data_dir: None, user_messages: Vec::new() }
    }

    /// Checks that a new session may start: only one runs at a time.
    pub fn check_can_start(&self) -> (r: Result<(), String>)
        ensures
            r is Ok <==> self.session is None,
            r matches Err(e) ==> e@ == ALREADY_RUNNING@,
    {
        if self.session.is_some() {
            Err(owned(ALREADY_RUNNING))
        } else {
            Ok(())
        }
    }

    /// Checks that a new session may start on a ROM: only one session runs
    /// at a time, and the ROM must have passed verification against the
    /// expected Pokemon Red dump.
    pub fn check_can_start_with(&self, rom: &RomVerification) -> (r: Result<(), String>)
        ensures
            r is Ok <==> (self.session is None && rom.valid),
            self.session is Some ==> (r matches Err(e) && e@ == ALREADY_RUNNING@),
            (self.session is None && !rom.valid) ==> (r matches Err(e) && e@ == rom_rejected(
                rom.sha1@,
            )),
    {
        if self.session.is_some() {
            return Err(owned(ALREADY_RUNNING));
        }
        if !rom.valid {
            let mut e = owned("ROM failed verification: SHA-1 ");
            push_str(&mut e, rom.sha1.as_str());
            push_str(&mut e, " does not match the expected Pokemon Red dump");
            return Err(e);
        }
        Ok(())
    }

    /// Records the session that started.
    pub fn install(&mut self, session: ActiveSession)
        ensures
            final(self).session == Some(session),
            same_rom_and_messages(&*final(self), &*old(self)),
    {
        self.session = Some(session);
    }

    /// Takes the running session out, to stop it.
    pub fn take_session(&mut self) -> (r: Result<ActiveSession, String>)
        ensures
            final(self).session is None,
            same_rom_and_messages(&*final(self), &*old(self)),
            match old(self).session {
                Some(s) => r == Ok::<ActiveSession, String>(s),
                None => r matches Err(e) && e@ == NO_SESSION@,
            },
    {
        let mut taken: Option<ActiveSession> = None;
        std::mem::swap(&mut taken, &mut self.session);
        match taken {
            Some(s) => Ok(s),
            None => Err(owned(NO_SESSION)),
        }
    }

    /// The session's status: idle without a session, paused by the user,
    /// or playing (with the viewer URL and the whole seconds since it
    /// started, which depend on the clock).
    pub fn get_status(&self) -> (r: ClawBoyStatus)
        ensures
            match self.session {
                None => r is Idle,
                Some(s) => if s.paused {
                    r matches ClawBoyStatus::Paused { reason } && reason@ == "user paused"@
                } else {
                    r matches ClawBoyStatus::Playing { viewer_url, .. } && viewer_url@ == s.viewer_url@
                },
            },
    {
        match &self.session {
            None => ClawBoyStatus::Idle,
            Some(s) => {
                let secs = millis_since(&s.started_at) / 1000;
                let play: u64 = if secs > u64::MAX as u128 {
                    u64::MAX
                } else {
                    secs as u64
                };
                session_status(true, s.paused, s.viewer_url.as_str(), play)
            },
        }
    }

    /// The chat channel that started the running session, if any.
    pub fn originating_channel_id(&self) -> (r: Option<String>)
        ensures
            crate::text::opt_view(r) == match self.session {
                Some(s) => crate::text::opt_view(s.channel_id),
                None => None,
            },
    {
        match &self.session {
            Some(s) => crate::text::copy_opt(&s.channel_id),
            None => None,
        }
    }

    /// Marks a verified ROM as present; the first data directory given is
    /// kept.
    pub fn notify_rom_ready(&mut self, data_dir: &str)
        ensures
            final(self).rom_present,
            crate::text::opt_view(final(self).rom_data_dir) == match old(self).rom_data_dir {
                Some(d) => Some(d@),
                None => Some(data_dir@),
            },
            final(self).session == old(self).session,
            final(self).user_messages == old(self).user_messages,
    {
        if self.rom_data_dir.is_none() {
            self.rom_data_dir = Some(owned(data_dir));
        }
        self.rom_present = true;
    }

    /// Clears the ROM-present flag.
    pub fn notify_rom_removed(&mut self)
        ensures
            !final(self).rom_present,
            final(self).rom_data_dir == old(self).rom_data_dir,
            final(self).session == old(self).session,
            final(self).user_messages == old(self).user_messages,
    {
        self.rom_present = false;
    }

    /// Sets the agent's decision interval of the running session.
    pub fn set_decision_interval(&mut self, ms: u64) -> (r: Result<(), String>)
        ensures
            same_rom_and_messages(&*final(self), &*old(self)),
            match old(self).session {
                None => r matches Err(e) && e@ == NO_SESSION@ && final(self).session is None,
                Some(s) => r is Ok && (final(self).session matches Some(t) && t.decision_interval_ms == ms
                    && t.paused == s.paused && t.viewer_url == s.viewer_url && t.channel_id
                    == s.channel_id && t.started_at == s.started_at),
            },
    {
        match &mut self.session {
            None => Err(owned(NO_SESSION)),
            Some(s) => {
                s.decision_interval_ms = ms;
                Ok(())
            },
        }
    }

    /// Pauses or resumes the running session.
    fn set_paused(&mut self, paused: bool) -> (r: Result<(), String>)
        ensures
            same_rom_and_messages(&*final(self), &*old(self)),
            match old(self).session {
                None => r matches Err(e) && e@ == NO_SESSION@ && final(self).session is None,
                Some(s) => r is Ok && (final(self).session matches Some(t) && t.paused == paused
                    && t.decision_interval_ms == s.decision_interval_ms && t.viewer_url == s.viewer_url
                    && t.channel_id == s.channel_id && t.started_at == s.started_at),
            },
    {
        match &mut self.session {
            None => Err(owned(NO_SESSION)),
            Some(s) => {
                s.paused = paused;
                Ok(())
            },
        }
    }

    /// Pauses the running session.
    pub fn pause_session(&mut self) -> (r: Result<(), String>)
        ensures
            same_rom_and_messages(&*final(self), &*old(self)),
            match old(self).session {
                None => r matches Err(e) && e@ == NO_SESSION@ && final(self).session is None,
                Some(s) => r is Ok && (final(self).session matches Some(t) && t.paused
                    && t.decision_interval_ms == s.decision_interval_ms && t.viewer_url == s.viewer_url
                    && t.channel_id == s.channel_id && t.started_at == s.started_at),
            },
    {
        self.set_paused(true)
    }

    /// Resumes the running session.
    pub fn resume_session(&mut self) -> (r: Result<(), String>)
        ensures
            same_rom_and_messages(&*final(self), &*old(self)),
            match old(self).session {
                None => r matches Err(e) && e@ == NO_SESSION@ && final(self).session is None,
                Some(s) => r is Ok && (final(self).session matches Some(t) && !t.paused
                    && t.decision_interval_ms == s.decision_interval_ms && t.viewer_url == s.viewer_url
                    && t.channel_id == s.channel_id && t.started_at == s.started_at),
            },
    {
        self.set_paused(false)
    }

    /// Queues a user message for the agent.
    pub fn push_user_message(&mut self, msg: String)
        ensures
            final(self).user_messages@ == old(self).user_messages@.push(msg),
            final(self).session == old(self).session,
            final(self).rom_present == old(self).rom_present,
            final(self).rom_data_dir == old(self).rom_data_dir,
    {
        self.user_messages.push(msg);
    }

    /// Takes all queued user messages, oldest first.
    pub fn drain_user_messages(&mut self) -> (r: Vec<String>)
        ensures
            r@ == old(self).user_messages@,
            final(self).user_messages@.len() == 0,
            final(self).session == old(self).session,
            final(self).rom_present == old(self).rom_present,
            final(self).rom_data_dir == old(self).rom_data_dir,
    {
        let mut taken: Vec<String> = Vec::new();
        std::mem::swap(&mut taken, &mut self.user_messages);
        taken
    }
}

/// How a failure to start a session is reported: a second session is a
/// state error, anything else a spawn error.
pub fn start_error(e: String) -> (r: FfiError)
    ensures
        crate::text::contains_seq(e@, "already running"@) ==> r == (FfiError::StateError { detail: e }),
        !crate::text::contains_seq(e@, "already running"@) ==> r == (FfiError::SpawnError { detail: e }),
{
    let c = crate::text::chars_of(e.as_str());
    let p = crate::text::chars_of("already running");
    if crate::text::contains_chars(c.as_slice(), p.as_slice()) {
        FfiError::StateError { detail: e }
    } else {
        FfiError::SpawnError { detail: e }
    }
}

/// How a failure to stop a session is reported: stopping without a
/// session is a state error, anything else a spawn error.
pub fn stop_error(e: String) -> (r: FfiError)
    ensures
        crate::text::contains_seq(e@, "not running"@) ==> r == (FfiError::StateError { detail: e }),
        !crate::text::contains_seq(e@, "not running"@) ==> r == (FfiError::SpawnError { detail: e }),
{
    let c = crate::text::chars_of(e.as_str());
    let p = crate::text::chars_of("not running");
    if crate::text::contains_chars(c.as_slice(), p.as_slice()) {
        FfiError::StateError { detail: e }
    } else {
        FfiError::SpawnError { detail: e }
    }
}

} // verus!
