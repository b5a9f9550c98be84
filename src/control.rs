use vstd::prelude::*;

use crate::phase::{advance, can_advance, next_phase, next_session_count, Phase};

verus! {

/// Length of a phase when nothing else has been configured: 25 minutes.
pub const DEFAULT_DURATION_SECONDS: u32 = 1500;

/// An event handed to whoever displays the timer.
#[derive(Clone, Copy, Debug, PartialEq, Eq, Structural)]
pub enum Notification {
    /// Seconds left in the running countdown.
    Tick(u32),
    /// The countdown ran out on its own.
    Done,
    /// The pause flag changed; carries its new value.
    Toggle(bool),
    /// A new phase has begun.
    PhaseChanged(Phase),
    /// Any earlier countdown loop has been told to stop.
    TimerStopped,
}

/// A point-in-time copy of the fields that a countdown loop decides on.
#[derive(Clone, Copy, Debug, PartialEq, Eq, Structural)]
pub struct Snapshot {
    pub paused: bool,
    pub reset_requested: bool,
    pub duration_seconds: u32,
    pub running: bool,
    /// Number of the latest run granted the slot.
    pub run_id: u64,
}

/// The abstract contents of a [`ControlState`].
pub struct ControlView {
    pub paused: bool,
    pub reset_requested: bool,
    pub running: bool,
    pub phase: Phase,
    pub session_count: nat,
    pub duration_seconds: nat,
    pub run_id: nat,
}

/// The shared record of timer configuration and runtime flags.
///
/// Every command and the countdown loop act on it through the methods below;
/// each method is one critical section when the record sits behind a lock.
pub struct ControlState {
    paused: bool,
    reset_requested: bool,
    running: bool,
    phase: Phase,
    session_count: u32,
    duration_seconds: u32,
    run_id: u64,
}

impl View for ControlState {
    type V = ControlView;

    closed spec fn view(&self) -> ControlView {
        ControlView {
            paused: self.paused,
            reset_requested: self.reset_requested,
            running: self.running,
            phase: self.phase,
            session_count: self.session_count as nat,
            duration_seconds: self.duration_seconds as nat,
            run_id: self.run_id as nat,
        }
    }
}

/// The state a freshly created record is in.
pub open spec fn initial_spec(duration_seconds: nat) -> ControlView {
    ControlView {
        paused: false,
        reset_requested: false,
        running: false,
        phase: Phase::Work,
        session_count: 0,
        duration_seconds,
        run_id: 0,
    }
}

/// Flipping the pause flag.
pub open spec fn toggle_spec(s: ControlView) -> ControlView {
    ControlView { paused: !s.paused, ..s }
}

/// Asking any running loop to stop.
pub open spec fn reset_spec(s: ControlView) -> ControlView {
    ControlView { reset_requested: true, running: false, ..s }
}

/// Claiming the run slot: granted only when no loop holds it, under a run
/// number above every number granted before.  A reset requested while idle
/// is stale once a new loop begins, so it is dropped.
pub open spec fn acquire_spec(s: ControlView) -> (ControlView, bool) {
    if s.running {
        (s, false)
    } else {
        (ControlView { running: true, reset_requested: false, run_id: s.run_id + 1, ..s }, true)
    }
}

/// What a loop sees when it reads the record.
pub open spec fn snapshot_spec(s: ControlView) -> Snapshot {
    Snapshot {
        paused: s.paused,
        reset_requested: s.reset_requested,
        duration_seconds: s.duration_seconds as u32,
        running: s.running,
        run_id: s.run_id as u64,
    }
}

/// Loop `run_id` leaving, `finished` when it left because its time was up.
/// The current run releases the slot and clears the reset it honoured; the
/// flag says whether completion is to be announced: only for a run that
/// finished with no reset pending.  A superseded run changes nothing.
pub open spec fn end_run_spec(s: ControlView, run_id: nat, finished: bool) -> (ControlView, bool) {
    if run_id == s.run_id {
        (ControlView { running: false, reset_requested: false, ..s }, finished && !s.reset_requested)
    } else {
        (s, false)
    }
}

/// The notifications that announce a phase switch, in the order they are sent.
pub open spec fn switch_notifications_spec(phase: Phase) -> Seq<Notification> {
    seq![Notification::PhaseChanged(phase), Notification::Toggle(false), Notification::TimerStopped]
}

/// Moving to the next phase once any running loop was told to stop.
pub open spec fn switch_spec(s: ControlView) -> (ControlView, Seq<Notification>) {
    let phase = next_phase(s.phase, s.session_count);
    (
        ControlView {
            phase,
            session_count: next_session_count(s.phase, s.session_count),
            paused: false,
            reset_requested: false,
            ..s
        },
        switch_notifications_spec(phase),
    )
}

/// How many of `n` successive start attempts from `s` are granted the run slot.
pub open spec fn granted_count(s: ControlView, n: nat) -> nat
    decreases n,
{
    if n == 0 {
        0
    } else {
        let (t, granted) = acquire_spec(s);
        (if granted { 1nat } else { 0nat }) + granted_count(t, (n - 1) as nat)
    }
}

/// The record after `n` successive start attempts from `s`.
pub open spec fn after_starts(s: ControlView, n: nat) -> ControlView
    decreases n,
{
    if n == 0 {
        s
    } else {
        after_starts(acquire_spec(s).0, (n - 1) as nat)
    }
}

/// Builds the notifications that announce a switch to `phase`.
pub fn switch_notifications(phase: Phase) -> (r: Vec<Notification>)
    ensures
        r@ == switch_notifications_spec(phase),
{
    let mut r: Vec<Notification> = Vec::new();
    r.push(Notification::PhaseChanged(phase));
    r.push(Notification::Toggle(false));
    r.push(Notification::TimerStopped);
    assert(r@ =~= switch_notifications_spec(phase));
    r
}

impl ControlState {
    /// A record in the work phase, with no session done and nothing running.
    pub fn new(duration_seconds: u32) -> (r: ControlState)
        ensures
            r@ == initial_spec(duration_seconds as nat),
    {
        ControlState {
            paused: false,
            reset_requested: false,
            running: false,
            phase: Phase::Work,
            session_count: 0,
            duration_seconds,
            run_id: 0,
        }
    }

    /// Sets the length of the current phase; a running loop uses it from its
    /// next tick on.
    pub fn set_duration(&mut self, seconds: u32)
        ensures
            final(self)@ == (ControlView { duration_seconds: seconds as nat, ..old(self)@ }),
    {
        self.duration_seconds = seconds;
    }

    /// Flips the pause flag and returns its new value.
    pub fn toggle_pause(&mut self) -> (r: bool)
        ensures
            final(self)@ == toggle_spec(old(self)@),
            r == final(self)@.paused,
    {
        self.paused = !self.paused;
        self.paused
    }

    /// Asks any running loop to stop without completing; harmless when idle.
    pub fn request_reset(&mut self)
        ensures
            final(self)@ == reset_spec(old(self)@),
    {
        self.reset_requested = true;
        self.running = false;
    }

    /// Claims the single run slot in one step: the new run's number when the
    /// caller may run a loop, `None` when one already runs.
    pub fn try_acquire_run_slot(&mut self) -> (r: Option<u64>)
        requires
            old(self)@.run_id < u64::MAX,
        ensures
            final(self)@ == acquire_spec(old(self)@).0,
            match r {
                Some(id) => acquire_spec(old(self)@).1 && id as nat == final(self)@.run_id,
                None => !acquire_spec(old(self)@).1,
            },
    {
        if self.running {
            None
        } else {
            self.running = true;
            self.reset_requested = false;
            self.run_id = self.run_id + 1;
            Some(self.run_id)
        }
    }

    /// Whether run numbers are left for another start.
    pub fn can_start(&self) -> (r: bool)
        ensures
            r == (self@.run_id < u64::MAX),
    {
        self.run_id < u64::MAX
    }

    /// The fields a loop decides on, read together.
    pub fn snapshot(&self) -> (r: Snapshot)
        ensures
            r == snapshot_spec(self@),
    {
        Snapshot {
            paused: self.paused,
            reset_requested: self.reset_requested,
            duration_seconds: self.duration_seconds,
            running: self.running,
            run_id: self.run_id,
        }
    }

    /// Called by loop `run_id` as it exits, with `finished` when it left
    /// because its time was up; returns whether to announce completion.
    pub fn end_run(&mut self, run_id: u64, finished: bool) -> (r: bool)
        ensures
            (final(self)@, r) == end_run_spec(old(self)@, run_id as nat, finished),
    {
        if run_id != self.run_id {
            return false;
        }
        let owed = finished && !self.reset_requested;
        self.running = false;
        self.reset_requested = false;
        owed
    }

    /// Moves to the next phase, clears the pause and reset flags, and returns
    /// the notifications to send, in order.  Callers first stop any running
    /// loop with [`ControlState::request_reset`].
    pub fn complete_phase_switch(&mut self) -> (r: Vec<Notification>)
        requires
            can_advance(old(self)@.phase, old(self)@.session_count),
        ensures
            (final(self)@, r@) == switch_spec(old(self)@),
    {
        let (phase, sessions) = advance(self.phase, self.session_count);
        self.phase = phase;
        self.session_count = sessions;
        self.paused = false;
        self.reset_requested = false;
        switch_notifications(phase)
    }

    /// Whether the session counter has room for the next phase switch.
    pub fn can_switch_phase(&self) -> (r: bool)
        ensures
            r == can_advance(self@.phase, self@.session_count),
    {
        match self.phase {
            Phase::Work => self.session_count < u32::MAX,
            _ => true,
        }
    }

    pub fn phase(&self) -> (r: Phase)
        ensures
            r == self@.phase,
    {
        self.phase
    }

    pub fn session_count(&self) -> (r: u32)
        ensures
            r as nat == self@.session_count,
    {
        self.session_count
    }

    pub fn duration_seconds(&self) -> (r: u32)
        ensures
            r as nat == self@.duration_seconds,
    {
        self.duration_seconds
    }

    pub fn is_paused(&self) -> (r: bool)
        ensures
            r == self@.paused,
    {
        self.paused
    }

    pub fn is_running(&self) -> (r: bool)
        ensures
            r == self@.running,
    {
        self.running
    }

    pub fn is_reset_requested(&self) -> (r: bool)
        ensures
            r == self@.reset_requested,
    {
        self.reset_requested
    }
}

impl Default for ControlState {
    fn default() -> (r: ControlState)
        ensures
            r@ == initial_spec(DEFAULT_DURATION_SECONDS as nat),
    {
        ControlState::new(DEFAULT_DURATION_SECONDS)
    }
}

/// Start attempts made one after another: when no loop runs, exactly one of
/// them is granted the run slot (the first), and none is granted while a loop
/// holds it; afterwards the slot is held.
pub proof fn lemma_single_run_slot(s: ControlView, n: nat)
    requires
        n > 0,
    ensures
        granted_count(s, n) == (if s.running { 0nat } else { 1nat }),
        after_starts(s, n).running,
    decreases n,
{
    let t = acquire_spec(s).0;
    if n > 1 {
        lemma_single_run_slot(t, (n - 1) as nat);
    } else {
        assert(granted_count(t, 0) == 0);
        assert(after_starts(t, 0) == t);
    }
}

} // verus!
