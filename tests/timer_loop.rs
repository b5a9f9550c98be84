use pomodoro::control::{ControlState, Notification};
use pomodoro::phase::Phase;
use pomodoro::timer::{LoopAction, TimerLoop, PAUSE_POLL_MS, TICK_INTERVAL_MS};

// Drives a loop the way the background task does, with simulated time, and
// records what it would send.  `pause_at` and `resume_at` toggle the pause
// flag when the clock reaches them.
fn drive(
    control: &mut ControlState,
    pause_at: Option<u64>,
    resume_at: Option<u64>,
) -> (Vec<Notification>, u64) {
    let id = control.try_acquire_run_slot().unwrap();
    let mut l = TimerLoop::new(id);
    let mut finished = false;
    let mut now: u64 = 0;
    let mut sent = Vec::new();
    let mut paused_once = false;
    let mut resumed_once = false;
    loop {
        if let Some(p) = pause_at {
            if !paused_once && now >= p {
                control.toggle_pause();
                paused_once = true;
            }
        }
        if let Some(r) = resume_at {
            if paused_once && !resumed_once && now >= r {
                control.toggle_pause();
                resumed_once = true;
            }
        }
        match l.step(control.snapshot(), now) {
            LoopAction::Stop => break,
            LoopAction::Wait => now += PAUSE_POLL_MS,
            LoopAction::Tick(left) => {
                sent.push(Notification::Tick(left));
                now += TICK_INTERVAL_MS;
            }
            LoopAction::Finish => {
                sent.push(Notification::Tick(0));
                control.request_reset();
                sent.extend(control.complete_phase_switch());
                finished = true;
                break;
            }
        }
    }
    if control.end_run(id, finished) {
        sent.push(Notification::Done);
    }
    (sent, now)
}

#[test]
fn five_second_countdown_ticks_down_then_done() {
    let mut c = ControlState::new(5);
    let (sent, finished_at) = drive(&mut c, None, None);
    assert_eq!(
        sent,
        vec![
            Notification::Tick(5),
            Notification::Tick(4),
            Notification::Tick(3),
            Notification::Tick(2),
            Notification::Tick(1),
            Notification::Tick(0),
            Notification::PhaseChanged(Phase::ShortBreak),
            Notification::Toggle(false),
            Notification::TimerStopped,
            Notification::Done,
        ]
    );
    assert_eq!(finished_at, 5000);
    assert_eq!(c.session_count(), 1);
    assert!(!c.is_running());
}

#[test]
fn pause_delays_completion_by_its_length() {
    let mut plain = ControlState::new(5);
    let (_, unpaused_end) = drive(&mut plain, None, None);
    let mut paused = ControlState::new(5);
    let (sent, paused_end) = drive(&mut paused, Some(2000), Some(5000));
    assert_eq!(paused_end - unpaused_end, 3000);
    let ticks: Vec<Notification> =
        sent.into_iter().filter(|n| matches!(n, Notification::Tick(_))).collect();
    assert_eq!(
        ticks,
        vec![
            Notification::Tick(5),
            Notification::Tick(4),
            Notification::Tick(3),
            Notification::Tick(2),
            Notification::Tick(1),
            Notification::Tick(0),
        ]
    );
}

#[test]
fn paused_loop_waits_without_counting() {
    let mut c = ControlState::new(10);
    let id = c.try_acquire_run_slot().unwrap();
    let mut l = TimerLoop::new(id);
    assert_eq!(l.step(c.snapshot(), 0), LoopAction::Tick(10));
    c.toggle_pause();
    assert_eq!(l.step(c.snapshot(), 1000), LoopAction::Wait);
    assert_eq!(l.step(c.snapshot(), 60_000), LoopAction::Wait);
    c.toggle_pause();
    assert_eq!(l.step(c.snapshot(), 61_000), LoopAction::Tick(9));
    assert_eq!(l.step(c.snapshot(), 62_500), LoopAction::Tick(8));
    assert_eq!(l.latest_ms(), 62_500);
}

#[test]
fn reset_stops_loop_without_done() {
    let mut c = ControlState::new(10);
    let id = c.try_acquire_run_slot().unwrap();
    let mut l = TimerLoop::new(id);
    assert_eq!(l.step(c.snapshot(), 0), LoopAction::Tick(10));
    c.request_reset();
    assert_eq!(l.step(c.snapshot(), 1000), LoopAction::Stop);
    assert!(!c.end_run(id, false));
    assert!(!c.is_running());
    assert!(!c.is_reset_requested());
}

#[test]
fn reset_while_paused_stops_loop() {
    let mut c = ControlState::new(10);
    let id = c.try_acquire_run_slot().unwrap();
    let mut l = TimerLoop::new(id);
    c.toggle_pause();
    assert_eq!(l.step(c.snapshot(), 0), LoopAction::Wait);
    c.request_reset();
    assert_eq!(l.step(c.snapshot(), 50), LoopAction::Stop);
}

#[test]
fn switch_phase_during_work_stops_loop_and_counts_session() {
    let mut c = ControlState::new(1500);
    let id = c.try_acquire_run_slot().unwrap();
    let mut l = TimerLoop::new(id);
    assert_eq!(l.step(c.snapshot(), 0), LoopAction::Tick(1500));
    c.request_reset();
    let events = c.complete_phase_switch();
    assert_eq!(
        events,
        vec![
            Notification::PhaseChanged(Phase::ShortBreak),
            Notification::Toggle(false),
            Notification::TimerStopped,
        ]
    );
    assert_eq!(c.session_count(), 1);
    assert_eq!(l.step(c.snapshot(), 1000), LoopAction::Stop);
    assert!(!c.end_run(id, false));
    assert!(!c.is_running());
    assert_eq!(c.session_count(), 1);
}

#[test]
fn duration_change_applies_from_next_tick() {
    let mut c = ControlState::new(10);
    let id = c.try_acquire_run_slot().unwrap();
    let mut l = TimerLoop::new(id);
    assert_eq!(l.step(c.snapshot(), 0), LoopAction::Tick(10));
    assert_eq!(l.step(c.snapshot(), 3000), LoopAction::Tick(7));
    c.set_duration(20);
    assert_eq!(l.step(c.snapshot(), 4000), LoopAction::Tick(16));
    c.set_duration(2);
    assert_eq!(l.step(c.snapshot(), 5000), LoopAction::Finish);
}

#[test]
fn zero_duration_finishes_at_once() {
    let mut c = ControlState::new(0);
    let id = c.try_acquire_run_slot().unwrap();
    let mut l = TimerLoop::new(id);
    assert_eq!(l.step(c.snapshot(), 0), LoopAction::Finish);
}

#[test]
fn largest_duration_counts_down() {
    let mut c = ControlState::new(u32::MAX);
    let id = c.try_acquire_run_slot().unwrap();
    let mut l = TimerLoop::new(id);
    assert_eq!(l.step(c.snapshot(), 0), LoopAction::Tick(u32::MAX));
    assert_eq!(l.step(c.snapshot(), 2999), LoopAction::Tick(u32::MAX - 2));
}

#[test]
fn external_stop_ends_loop() {
    let mut c = ControlState::new(10);
    let mut l = TimerLoop::new(1);
    assert_eq!(l.step(c.snapshot(), 0), LoopAction::Stop);
    let id = c.try_acquire_run_slot().unwrap();
    let mut l = TimerLoop::new(id);
    c.end_run(id, false);
    assert_eq!(l.step(c.snapshot(), 10), LoopAction::Stop);
}

#[test]
fn start_after_reset_stops_older_loop() {
    let mut c = ControlState::new(10);
    let first = c.try_acquire_run_slot().unwrap();
    let mut old = TimerLoop::new(first);
    assert_eq!(old.step(c.snapshot(), 0), LoopAction::Tick(10));
    c.request_reset();
    let second = c.try_acquire_run_slot().unwrap();
    let mut new = TimerLoop::new(second);
    assert_eq!(new.run_id(), second);
    assert_eq!(old.step(c.snapshot(), 1000), LoopAction::Stop);
    assert_eq!(new.step(c.snapshot(), 0), LoopAction::Tick(10));
    assert!(!c.end_run(first, false));
    assert!(c.is_running());
    assert_eq!(new.step(c.snapshot(), 1000), LoopAction::Tick(9));
}

#[test]
fn start_after_switch_stops_older_loop() {
    let mut c = ControlState::new(10);
    let first = c.try_acquire_run_slot().unwrap();
    let mut old = TimerLoop::new(first);
    assert_eq!(old.step(c.snapshot(), 0), LoopAction::Tick(10));
    c.request_reset();
    c.complete_phase_switch();
    let second = c.try_acquire_run_slot().unwrap();
    assert_eq!(old.step(c.snapshot(), 1000), LoopAction::Stop);
    assert!(!c.end_run(first, false));
    assert!(c.is_running());
    assert_eq!(c.phase(), Phase::ShortBreak);
    let mut new = TimerLoop::new(second);
    assert_eq!(new.step(c.snapshot(), 0), LoopAction::Tick(10));
}
