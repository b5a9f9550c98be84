use vstd::prelude::*;

verus! {

/// Work sessions that make up one full cycle; the last of them earns a long break.
pub const SESSIONS_PER_CYCLE: u32 = 4;

/// The segment of the focus/break cycle that the timer is counting down.
#[derive(Clone, Copy, Debug, PartialEq, Eq, Structural)]
pub enum Phase {
    Work,
    ShortBreak,
    LongBreak,
}

impl Default for Phase {
    fn default() -> (r: Phase)
        ensures
            r == Phase::Work,
    {
        Phase::Work
    }
}

/// The phase that follows `phase` when `session_count` work sessions were
/// completed before it.
pub open spec fn next_phase(phase: Phase, session_count: nat) -> Phase {
    match phase {
        Phase::Work => if (session_count + 1) % 4 == 0 {
            Phase::LongBreak
        } else {
            Phase::ShortBreak
        },
        _ => Phase::Work,
    }
}

/// The session count once `phase` has ended: finishing work adds one.
pub open spec fn next_session_count(phase: Phase, session_count: nat) -> nat {
    match phase {
        Phase::Work => session_count + 1,
        _ => session_count,
    }
}

/// Whether the session counter still has room for the transition out of `phase`.
pub open spec fn can_advance(phase: Phase, session_count: nat) -> bool {
    phase == Phase::Work ==> session_count < u32::MAX
}

/// Computes the next phase and the new count of completed work sessions.
pub fn advance(phase: Phase, session_count: u32) -> (r: (Phase, u32))
    requires
        can_advance(phase, session_count as nat),
    ensures
        r.0 == next_phase(phase, session_count as nat),
        r.1 as nat == next_session_count(phase, session_count as nat),
{
    match phase {
        Phase::Work => {
            let sessions = session_count + 1;
            if sessions % SESSIONS_PER_CYCLE == 0 {
                (Phase::LongBreak, sessions)
            } else {
                (Phase::ShortBreak, sessions)
            }
        },
        Phase::ShortBreak | Phase::LongBreak => (Phase::Work, session_count),
    }
}

} // verus!
