//! A focus/break countdown timer: the shared control record, the phase
//! scheduler, and the decision logic of the background countdown loop.

pub mod control;
pub mod phase;
pub mod timer;
