use vstd::prelude::*;

use crate::control::{
    acquire_spec, end_run_spec, reset_spec, snapshot_spec, switch_notifications_spec, switch_spec,
    ControlView, Notification, Snapshot,
};
use crate::phase::{can_advance, Phase};

verus! {

/// How long a paused loop waits before it looks at the shared state again.
pub const PAUSE_POLL_MS: u64 = 50;

/// How long a counting loop waits between two ticks.
pub const TICK_INTERVAL_MS: u64 = 1000;

/// How long a loop lets the last tick be seen before it switches phase.
pub const COMPLETION_GRACE_MS: u64 = 1000;

/// How long a phase switch lets a stopped loop notice it was stopped.
pub const SWITCH_GRACE_MS: u64 = 10;

/// What the task that drives a loop does after one step.
#[derive(Clone, Copy, Debug, PartialEq, Eq, Structural)]
pub enum LoopAction {
    /// The loop was reset, stopped from outside or superseded by a newer run:
    /// leave without completing.
    Stop,
    /// The countdown is paused: wait [`PAUSE_POLL_MS`] and step again.
    Wait,
    /// Send a tick with the seconds left, wait [`TICK_INTERVAL_MS`] and step again.
    Tick(u32),
    /// Time is up: send a tick of zero, wait [`COMPLETION_GRACE_MS`], switch
    /// to the next phase and leave.
    Finish,
}

/// The abstract contents of a [`TimerLoop`], all times in milliseconds since
/// the loop began.
pub struct TimerView {
    pub total_paused_ms: nat,
    pub pause_start_ms: Option<nat>,
    pub latest_ms: nat,
    pub run_id: nat,
}

impl TimerView {
    /// Paused time never exceeds the time that has passed, and a pause in
    /// progress began after every earlier pause ended.
    pub open spec fn wf(self) -> bool {
        &&& self.total_paused_ms <= self.latest_ms
        &&& match self.pause_start_ms {
            Some(p) => self.total_paused_ms <= p && p <= self.latest_ms,
            None => true,
        }
    }
}

/// The time accounting of one countdown loop.
///
/// A loop is driven by calling [`TimerLoop::step`] with a fresh snapshot of
/// the shared state and the time elapsed since the loop began.
pub struct TimerLoop {
    total_paused_ms: u64,
    pause_start_ms: Option<u64>,
    latest_ms: u64,
    run_id: u64,
}

impl View for TimerLoop {
    type V = TimerView;

    closed spec fn view(&self) -> TimerView {
        TimerView {
            total_paused_ms: self.total_paused_ms as nat,
            pause_start_ms: match self.pause_start_ms {
                Some(p) => Some(p as nat),
                None => None,
            },
            latest_ms: self.latest_ms as nat,
            run_id: self.run_id as nat,
        }
    }
}

/// Whole seconds left of a phase of `duration_seconds` once `elapsed_ms` of
/// unpaused time have passed; never below zero.
pub open spec fn remaining_seconds(duration_seconds: nat, elapsed_ms: nat) -> nat {
    let elapsed_seconds = elapsed_ms / 1000;
    if duration_seconds > elapsed_seconds {
        (duration_seconds - elapsed_seconds) as nat
    } else {
        0
    }
}

/// One step of a loop at time `now`, given what it read of the shared state.
pub open spec fn step_spec(l: TimerView, snap: Snapshot, now: nat) -> (TimerView, LoopAction) {
    if snap.reset_requested || !snap.running || snap.run_id as nat != l.run_id {
        (TimerView { latest_ms: now, ..l }, LoopAction::Stop)
    } else if snap.paused {
        let start = match l.pause_start_ms {
            Some(p) => p,
            None => now,
        };
        (TimerView { pause_start_ms: Some(start), latest_ms: now, ..l }, LoopAction::Wait)
    } else {
        let total = match l.pause_start_ms {
            Some(p) => (l.total_paused_ms + (now - p)) as nat,
            None => l.total_paused_ms,
        };
        let left = remaining_seconds(snap.duration_seconds as nat, (now - total) as nat);
        (
            TimerView { total_paused_ms: total, pause_start_ms: None, latest_ms: now, ..l },
            if left == 0 {
                LoopAction::Finish
            } else {
                LoopAction::Tick(left as u32)
            },
        )
    }
}

impl TimerLoop {
    /// The loop of run `run_id`, beginning now with nothing paused yet.
    pub fn new(run_id: u64) -> (r: TimerLoop)
        ensures
            r@ == (TimerView {
                total_paused_ms: 0,
                pause_start_ms: None,
                latest_ms: 0,
                run_id: run_id as nat,
            }),
            r@.wf(),
    {
        TimerLoop { total_paused_ms: 0, pause_start_ms: None, latest_ms: 0, run_id }
    }

    /// The number of the run this loop belongs to.
    pub fn run_id(&self) -> (r: u64)
        ensures
            r as nat == self@.run_id,
    {
        self.run_id
    }

    /// Time of the latest step; the next one may not come earlier.
    pub fn latest_ms(&self) -> (r: u64)
        ensures
            r as nat == self@.latest_ms,
    {
        self.latest_ms
    }

    /// Decides what the loop does next, at `now_ms` since it began, from a
    /// snapshot of the shared state.  Paused time is set aside so that it
    /// never counts against the countdown.
    pub fn step(&mut self, snap: Snapshot, now_ms: u64) -> (r: LoopAction)
        requires
            old(self)@.wf(),
            now_ms as nat >= old(self)@.latest_ms,
        ensures
            (final(self)@, r) == step_spec(old(self)@, snap, now_ms as nat),
            final(self)@.wf(),
    {
        if snap.reset_requested || !snap.running || snap.run_id != self.run_id {
            self.latest_ms = now_ms;
            return LoopAction::Stop;
        }
        if snap.paused {
            if self.pause_start_ms.is_none() {
                self.pause_start_ms = Some(now_ms);
            }
            self.latest_ms = now_ms;
            return LoopAction::Wait;
        }
        if let Some(p) = self.pause_start_ms {
            self.total_paused_ms = self.total_paused_ms + (now_ms - p);
            self.pause_start_ms = None;
        }
        self.latest_ms = now_ms;
        let elapsed_seconds = (now_ms - self.total_paused_ms) / 1000;
        let duration = snap.duration_seconds as u64;
        if duration > elapsed_seconds {
            LoopAction::Tick((duration - elapsed_seconds) as u32)
        } else {
            LoopAction::Finish
        }
    }
}

/// A loop that is told to reset stops at its next step, whatever its state;
/// as it leaves, the run slot is free, the honoured reset is cleared, and no
/// completion is announced.
pub proof fn lemma_reset_stops_loop(s: ControlView, l: TimerView, now: nat)
    requires
        l.wf(),
        now >= l.latest_ms,
        l.run_id == s.run_id,
        s.run_id <= u64::MAX,
    ensures
        step_spec(l, snapshot_spec(reset_spec(s)), now).1 == LoopAction::Stop,
        ({
            let (t, done) = end_run_spec(reset_spec(s), l.run_id, false);
            &&& !t.running
            &&& !t.reset_requested
            &&& !done
        }),
{
}

/// Only the loop of the current run, while it holds the slot, goes on
/// counting: every other loop stops at its next step.  Run numbers grow with
/// each granted start, so a start made before an older loop has noticed a
/// reset or a phase switch stops that older loop all the same.
pub proof fn lemma_one_active_loop(s: ControlView, l: TimerView, now: nat)
    requires
        l.wf(),
        now >= l.latest_ms,
        l.run_id <= s.run_id,
        s.run_id < u64::MAX,
    ensures
        step_spec(l, snapshot_spec(s), now).1 != LoopAction::Stop ==> l.run_id == s.run_id
            && s.running,
        acquire_spec(s).1 ==> step_spec(l, snapshot_spec(acquire_spec(s).0), now).1
            == LoopAction::Stop,
{
}

/// Without pauses, a loop stepped during second `k` of its run ticks with
/// `duration - k` seconds left, and finishes once `k` reaches the duration.
pub proof fn lemma_unpaused_countdown(l: TimerView, snap: Snapshot, k: nat, j: nat)
    requires
        l.wf(),
        l.total_paused_ms == 0,
        l.pause_start_ms is None,
        j < 1000,
        k * 1000 + j >= l.latest_ms,
        snap.run_id as nat == l.run_id,
        snap.running,
        !snap.reset_requested,
        !snap.paused,
    ensures
        ({
            let (l2, a) = step_spec(l, snap, k * 1000 + j);
            &&& l2.total_paused_ms == 0
            &&& l2.pause_start_ms is None
            &&& a == if k < snap.duration_seconds {
                LoopAction::Tick((snap.duration_seconds - k) as u32)
            } else {
                LoopAction::Finish
            }
        }),
{
    assert((k * 1000 + j) / 1000 == k) by (nonlinear_arith)
        requires
            j < 1000,
    ;
}

/// The actions of `n` successive steps of loop `l`, taken one second apart
/// at `i * 1000 + j`, `(i + 1) * 1000 + j`, ... milliseconds, with the shared
/// state unchanged throughout.
pub open spec fn steady_run(l: TimerView, snap: Snapshot, j: nat, i: nat, n: nat) -> Seq<LoopAction>
    decreases n,
{
    if n == 0 {
        Seq::empty()
    } else {
        let (next, a) = step_spec(l, snap, i * 1000 + j);
        seq![a] + steady_run(next, snap, j, i + 1, (n - 1) as nat)
    }
}

/// A run without pauses, stepped once a second from second `i` on, ticks
/// down one second at a time and finishes once the duration is used up: the
/// step in second `i + m` ticks `duration - (i + m)`, or finishes from the
/// last second on.  From a fresh loop (`i == 0`) the ticks of a run of `d`
/// seconds are `d, d - 1, ..., 1`, followed by finishing with a tick of zero.
pub proof fn lemma_steady_countdown(l: TimerView, snap: Snapshot, j: nat, i: nat, n: nat)
    requires
        l.wf(),
        l.total_paused_ms == 0,
        l.pause_start_ms is None,
        j < 1000,
        i * 1000 + j >= l.latest_ms,
        snap.run_id as nat == l.run_id,
        snap.running,
        !snap.reset_requested,
        !snap.paused,
    ensures
        steady_run(l, snap, j, i, n).len() == n,
        forall|m: int|
            0 <= m < n ==> #[trigger] steady_run(l, snap, j, i, n)[m] == if i + m
                < snap.duration_seconds {
                LoopAction::Tick((snap.duration_seconds - (i + m)) as u32)
            } else {
                LoopAction::Finish
            },
    decreases n,
{
    if n > 0 {
        let (next, a) = step_spec(l, snap, i * 1000 + j);
        lemma_unpaused_countdown(l, snap, i, j);
        assert((i + 1) * 1000 + j >= i * 1000 + j) by (nonlinear_arith);
        lemma_steady_countdown(next, snap, j, i + 1, (n - 1) as nat);
        let rest = steady_run(next, snap, j, i + 1, (n - 1) as nat);
        assert(steady_run(l, snap, j, i, n) == seq![a] + rest);
        assert forall|m: int| 0 < m < n implies #[trigger] steady_run(l, snap, j, i, n)[m]
            == rest[m - 1] by {}
    }
}

/// When a countdown runs out and nothing resets it meanwhile, the phase
/// switch that follows announces the new phase, clears the pause flag and
/// stops the timer, in that order, and the loop then announces completion.
pub proof fn lemma_natural_completion(s: ControlView)
    requires
        can_advance(s.phase, s.session_count),
    ensures
        ({
            let (t, events) = switch_spec(reset_spec(s));
            let (u, done) = end_run_spec(t, s.run_id, true);
            &&& events == switch_notifications_spec(t.phase)
            &&& done
            &&& !u.running
            &&& !u.reset_requested
        }),
{
}

/// A pause from `a` to `b` (polled again at `c` meanwhile) delays every later
/// decision of the loop by exactly `b - a`: at any time `t` after the resume
/// the loop acts as the unpaused loop would have at `t - (b - a)`.
pub proof fn lemma_pause_shifts_countdown(
    l: TimerView,
    paused: Snapshot,
    counting: Snapshot,
    a: nat,
    c: nat,
    b: nat,
    t: nat,
)
    requires
        l.wf(),
        l.pause_start_ms is None,
        l.latest_ms <= a,
        a <= c,
        c <= b,
        b <= t,
        paused == (Snapshot { paused: true, ..counting }),
        counting.run_id as nat == l.run_id,
        counting.running,
        !counting.reset_requested,
        !counting.paused,
    ensures
        ({
            let l1 = step_spec(l, paused, a).0;
            let l2 = step_spec(l1, paused, c).0;
            let l3 = step_spec(l2, counting, b).0;
            &&& l3.total_paused_ms == l.total_paused_ms + (b - a)
            &&& step_spec(l3, counting, t).1 == step_spec(l, counting, (t - (b - a)) as nat).1
        }),
{
}

/// Forcing a phase switch while a work phase counts down stops that loop at
/// its next step without announcing completion, counts one more finished
/// session, and announces the new phase before the pause flag and the
/// stopped timer.
pub proof fn lemma_switch_from_work(s: ControlView, l: TimerView, now: nat)
    requires
        s.phase == Phase::Work,
        s.running,
        can_advance(s.phase, s.session_count),
        l.wf(),
        now >= l.latest_ms,
        l.run_id == s.run_id,
        s.run_id <= u64::MAX,
    ensures
        ({
            let (t, events) = switch_spec(reset_spec(s));
            let (u, done) = end_run_spec(t, l.run_id, false);
            &&& t.session_count == s.session_count + 1
            &&& t.phase != Phase::Work
            &&& !t.running
            &&& step_spec(l, snapshot_spec(t), now).1 == LoopAction::Stop
            &&& !done
            &&& !u.running
            &&& u.session_count == s.session_count + 1
            &&& events == seq![
                Notification::PhaseChanged(t.phase),
                Notification::Toggle(false),
                Notification::TimerStopped,
            ]
        }),
{
}

} // verus!
